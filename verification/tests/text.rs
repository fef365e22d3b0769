use capyshell::strmap::StringMap;
use capyshell::text::{
    chars_eq, chars_of, contains_chars, copy_range, decimal_chars, find_char, has_prefix,
    push_str, signed_decimal_chars, str_eq, string_of,
};
use capyshell::textops::{
    chars_eq_ignore_ascii_case, replace_chars, split_chars, split_once_chars, trim_chars,
};

fn chars(s: &str) -> Vec<char> {
    s.chars().collect()
}

fn text(c: &[char]) -> String {
    c.iter().collect()
}

const SAMPLES: [&str; 12] = [
    "",
    " ",
    "a",
    "  a b  ",
    "\t\r\n x \u{a0}\u{2003}",
    "\u{3000}wide\u{3000}",
    "no-space",
    "a=b=c",
    "=",
    "tail=",
    "l1\nl2\r\n\nl4",
    "é;ü;;",
];

#[test]
fn strings_and_characters() {
    for s in SAMPLES {
        assert_eq!(chars_of(s), chars(s));
        assert_eq!(string_of(&chars(s)), s);
    }
    assert!(str_eq("abc", "abc"));
    assert!(!str_eq("abc", "abd"));
    assert!(!str_eq("abc", "ab"));
    assert!(str_eq("", ""));
    assert!(chars_eq(&chars("é"), &chars("é")));
    assert!(!chars_eq(&chars("e"), &chars("é")));
}

#[test]
fn prefixes_and_positions() {
    assert!(has_prefix(&chars("file:///x"), &chars("file://")));
    assert!(has_prefix(&chars("abc"), &chars("")));
    assert!(has_prefix(&chars("abc"), &chars("abc")));
    assert!(!has_prefix(&chars("ab"), &chars("abc")));
    assert!(!has_prefix(&chars("xbc"), &chars("ab")));
    assert_eq!(find_char(&chars("a.b.c"), '.'), 1);
    assert_eq!(find_char(&chars("abc"), '.'), 3);
    assert_eq!(find_char(&chars(""), '.'), 0);
    assert_eq!(find_char(&chars("."), '.'), 0);
    assert_eq!(copy_range(&chars("hello"), 1, 3), chars("el"));
    assert_eq!(copy_range(&chars("hello"), 2, 2), chars(""));
    assert_eq!(copy_range(&chars("hello"), 0, 5), chars("hello"));
}

#[test]
fn substrings() {
    for (haystack, needle) in [
        ("hyprland", "hyprland"),
        ("x-hyprland-y", "hyprland"),
        ("hyprlan", "hyprland"),
        ("", ""),
        ("abc", ""),
        ("", "a"),
        ("aaab", "aab"),
        ("abab", "bab"),
        ("abab", "bb"),
    ] {
        assert_eq!(contains_chars(&chars(haystack), &chars(needle)), haystack.contains(needle), "{:?} in {:?}", needle, haystack);
    }
}

#[test]
fn decimal_notation() {
    for n in [0u64, 1, 9, 10, 11, 99, 100, 101, 12345, 1_000_000, u64::MAX] {
        assert_eq!(text(&decimal_chars(n)), n.to_string());
    }
    for n in [0i64, 1, -1, 9, -9, 10, -10, 59, -125, i64::MAX, i64::MIN] {
        assert_eq!(text(&signed_decimal_chars(n)), n.to_string());
    }
}

#[test]
fn appending() {
    let mut out = chars("a");
    push_str(&mut out, "bc");
    push_str(&mut out, "");
    push_str(&mut out, "é");
    assert_eq!(text(&out), "abcé");
}

#[test]
fn trimming_is_that_of_the_standard_library() {
    for s in SAMPLES {
        assert_eq!(text(&trim_chars(&chars(s))), s.trim(), "of {:?}", s);
    }
    assert_eq!(text(&trim_chars(&chars(" \t\n"))), "");
    assert_eq!(text(&trim_chars(&chars(" a "))), "a");
}

#[test]
fn splitting_is_that_of_the_standard_library() {
    for s in SAMPLES {
        for sep in ['=', ';', '\n', ' ', ','] {
            let parts: Vec<String> = split_chars(&chars(s), sep).iter().map(|p| text(p)).collect();
            let expected: Vec<String> = s.split(sep).map(|p| p.to_string()).collect();
            assert_eq!(parts, expected, "of {:?} at {:?}", s, sep);
            let once = split_once_chars(&chars(s), sep).map(|(a, b)| (text(&a), text(&b)));
            let expected = s.split_once(sep).map(|(a, b)| (a.to_string(), b.to_string()));
            assert_eq!(once, expected, "of {:?} at {:?}", s, sep);
        }
    }
}

#[test]
fn trimmed_lines_are_those_of_the_standard_library() {
    for s in ["a\nb", "a\r\nb\r\n", "\n\n a \n", "", "one", "x\r", "a\n\rb", " k = v \r\n[s]\r\n"] {
        let mine: Vec<String> = split_chars(&chars(s), '\n')
            .iter()
            .map(|l| text(&trim_chars(l)))
            .filter(|l| !l.is_empty())
            .collect();
        let std: Vec<String> = s.lines().map(|l| l.trim().to_string()).filter(|l| !l.is_empty()).collect();
        assert_eq!(mine, std, "of {:?}", s);
    }
}

#[test]
fn comparison_without_ascii_case() {
    for (a, b) in [
        ("[Icon Theme]", "[icon theme]"),
        ("[ICON THEME]", "[Icon Theme]"),
        ("abc", "abd"),
        ("abc", "ab"),
        ("", ""),
        ("É", "é"),
        ("é", "é"),
        ("@", "`"),
        ("[", "{"),
        ("Z", "z"),
        ("A", "a"),
    ] {
        assert_eq!(chars_eq_ignore_ascii_case(&chars(a), &chars(b)), a.eq_ignore_ascii_case(b), "{:?} and {:?}", a, b);
    }
}

#[test]
fn replacing_characters() {
    assert_eq!(text(&replace_chars(&chars("a b c"), ' ', '-')), "a-b-c");
    assert_eq!(text(&replace_chars(&chars("a_b"), '_', '-')), "a-b");
    assert_eq!(text(&replace_chars(&chars("abc"), 'x', 'y')), "abc");
    assert_eq!(text(&replace_chars(&chars(""), 'x', 'y')), "");
}

#[test]
fn string_map() {
    let mut map: StringMap<i32> = StringMap::new();
    assert_eq!(map.len(), 0);
    assert_eq!(map.get("a"), None);
    assert!(!map.contains_key("a"));
    map.insert("a".to_string(), 1);
    map.insert("b".to_string(), 2);
    map.insert("a".to_string(), 3);
    assert_eq!(map.get("a"), Some(&3));
    assert_eq!(map.get("b"), Some(&2));
    assert_eq!(map.len(), 2);
    map.insert_if_absent("b".to_string(), 9);
    map.insert_if_absent("c".to_string(), 4);
    assert_eq!(map.get("b"), Some(&2));
    assert_eq!(map.get("c"), Some(&4));
    assert_eq!(map.get("C"), None);
    assert_eq!(map.len(), 3);
    assert_eq!(map.entry(0), &("a".to_string(), 3));
    assert_eq!(map.entry(2), &("c".to_string(), 4));
    assert!(map.contains_key("c"));
}
