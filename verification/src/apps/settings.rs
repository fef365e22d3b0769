//! The icon themes that the user's settings ask for: values of settings
//! files in the style of INI files and of the resource file of GTK 2.

use crate::apps::desktop_entry::texts;
use crate::text::{
    chars_eq, chars_of, copy_range, find_char, first_index, has_prefix, starts_with, string_of,
};
use crate::textops::{
    chars_eq_ignore_ascii_case, eq_ignore_ascii_case, split, split_chars, split_once,
    split_once_chars, trim, trim_chars,
};
use vstd::prelude::*;

verus! {

/// Whether a line, without the white space around it, is blank or a
/// comment.
pub open spec fn is_skipped(line: Seq<char>) -> bool {
    line.len() == 0 || line[0] == '#' || line[0] == ';'
}

/// Whether a line is a section header: it stands in brackets.
pub open spec fn is_header(line: Seq<char>) -> bool {
    line.len() >= 2 && line[0] == '[' && line.last() == ']'
}

/// What stands after the first equals sign of a line.
pub open spec fn value_part(line: Seq<char>) -> Seq<char> {
    match split_once(line, '=') {
        Some((_, value)) => value,
        None => Seq::empty(),
    }
}

/// Whether a line of the section `current` sets `key`, where `section` is
/// the section that is asked for. The case of ASCII letters does not count
/// in either name.
pub open spec fn sets_key(
    line: Seq<char>,
    current: Option<Seq<char>>,
    section: Seq<char>,
    key: Seq<char>,
) -> bool {
    &&& current matches Some(name) && eq_ignore_ascii_case(name, section)
    &&& split_once(line, '=') matches Some((k, _)) && eq_ignore_ascii_case(trim(k), key)
}

/// The value of `key` in the section `section`, read from `lines` on, where
/// `current` is the section that the lines before have opened: the value of
/// the first line that sets the key, without the white space around it.
pub open spec fn ini_value(
    lines: Seq<Seq<char>>,
    current: Option<Seq<char>>,
    section: Seq<char>,
    key: Seq<char>,
) -> Option<Seq<char>>
    decreases lines.len(),
{
    if lines.len() == 0 {
        None
    } else {
        let line = trim(lines[0]);
        let rest = lines.drop_first();
        if is_skipped(line) {
            ini_value(rest, current, section, key)
        } else if is_header(line) {
            ini_value(rest, Some(line.subrange(1, line.len() - 1)), section, key)
        } else if sets_key(line, current, section, key) {
            Some(trim(value_part(line)))
        } else {
            ini_value(rest, current, section, key)
        }
    }
}

/// Reads the value of `key` in the section `section` from the text of a
/// settings file.
pub fn read_ini_value(content: &str, section: &str, key: &str) -> (value: Option<String>)
    ensures
        match value {
            Some(v) => ini_value(split(content@, '\n'), None, section@, key@) == Some(v@),
            None => ini_value(split(content@, '\n'), None, section@, key@) is None,
        },
{
    let chars = chars_of(content);
    let lines = split_chars(chars.as_slice(), '\n');
    let wanted_section = chars_of(section);
    let wanted_key = chars_of(key);
    let ghost all = split(content@, '\n');
    let mut current: Option<Vec<char>> = None;
    let mut i: usize = 0;
    assert(all.skip(0) == all);
    while i < lines.len()
        invariant
            i <= lines.len(),
            wanted_section@ == section@,
            wanted_key@ == key@,
            all == split(content@, '\n'),
            all == lines@.map_values(|p: Vec<char>| p@),
            ini_value(all, None, section@, key@) == ini_value(
                all.skip(i as int),
                match current {
                    Some(name) => Some(name@),
                    None => None,
                },
                section@,
                key@,
            ),
        decreases lines.len() - i,
    {
        proof {
            assert(all.skip(i as int).drop_first() == all.skip(i + 1));
            assert(all.skip(i as int)[0] == lines@[i as int]@);
        }
        let line = trim_chars(lines[i].as_slice());
        if line.len() == 0 || line[0] == '#' || line[0] == ';' {
        } else if line.len() >= 2 && line[0] == '[' && line[line.len() - 1] == ']' {
            current = Some(copy_range(line.as_slice(), 1, line.len() - 1));
        } else {
            let in_section = match &current {
                Some(name) => chars_eq_ignore_ascii_case(
                    name.as_slice(),
                    wanted_section.as_slice(),
                ),
                None => false,
            };
            if in_section {
                match split_once_chars(line.as_slice(), '=') {
                    Some((raw_key, raw_value)) => {
                        let k = trim_chars(raw_key.as_slice());
                        if chars_eq_ignore_ascii_case(k.as_slice(), wanted_key.as_slice()) {
                            let v = trim_chars(raw_value.as_slice());
                            proof {
                                assert(split_once(line@, '=') == Some((raw_key@, raw_value@)));
                                assert(value_part(line@) == raw_value@);
                                let cur = match current {
                                    Some(name) => Some(name@),
                                    None => None,
                                };
                                assert(sets_key(line@, cur, section@, key@));
                            }
                            return Some(string_of(v.as_slice()));
                        }
                    },
                    None => {},
                }
            }
        }
        i += 1;
    }
    assert(all.skip(lines.len() as int).len() == 0);
    None
}

/// The number of characters `c` at the start of `s`.
pub open spec fn leading_run(s: Seq<char>, c: char) -> int
    decreases s.len(),
{
    if s.len() > 0 && s[0] == c {
        1 + leading_run(s.drop_first(), c)
    } else {
        0
    }
}

/// The number of characters `c` at the end of `s`.
pub open spec fn trailing_run(s: Seq<char>, c: char) -> int
    decreases s.len(),
{
    if s.len() > 0 && s.last() == c {
        1 + trailing_run(s.drop_last(), c)
    } else {
        0
    }
}

/// `s` without the characters `c` at its start and at its end.
pub open spec fn strip_char(s: Seq<char>, c: char) -> Seq<char> {
    let rest = s.skip(leading_run(s, c));
    rest.take(rest.len() - trailing_run(rest, c))
}

/// A count is the leading run if the characters before it are `c` and the
/// one at it is not.
proof fn lemma_leading_run(s: Seq<char>, c: char, i: int)
    requires
        0 <= i <= s.len(),
        forall|j: int| 0 <= j < i ==> s[j] == c,
        i < s.len() ==> s[i] != c,
    ensures
        leading_run(s, c) == i,
    decreases i,
{
    if i > 0 {
        let t = s.drop_first();
        assert(s[0] == c);
        assert forall|j: int| 0 <= j < i - 1 implies t[j] == c by {
            assert(t[j] == s[j + 1]);
        }
        lemma_leading_run(t, c, i - 1);
    }
}

/// A count is the trailing run if the last characters are `c` and the one
/// before them is not.
proof fn lemma_trailing_run(s: Seq<char>, c: char, n: int)
    requires
        0 <= n <= s.len(),
        forall|j: int| s.len() - n <= j < s.len() ==> s[j] == c,
        n < s.len() ==> s[s.len() - n - 1] != c,
    ensures
        trailing_run(s, c) == n,
    decreases n,
{
    if n > 0 {
        let t = s.drop_last();
        assert(s.last() == c);
        assert forall|j: int| t.len() - (n - 1) <= j < t.len() implies t[j] == c by {
            assert(t[j] == s[j]);
        }
        lemma_trailing_run(t, c, n - 1);
    }
}

/// `s` without the characters `c` at its start and at its end.
pub fn strip_chars(s: &[char], c: char) -> (out: Vec<char>)
    ensures
        out@ == strip_char(s@, c),
{
    let mut start: usize = 0;
    while start < s.len() && s[start] == c
        invariant
            start <= s.len(),
            forall|j: int| 0 <= j < start ==> s@[j] == c,
        decreases s.len() - start,
    {
        start += 1;
    }
    proof {
        lemma_leading_run(s@, c, start as int);
    }
    let ghost rest = s@.skip(start as int);
    let mut end: usize = s.len();
    while end > start && s[end - 1] == c
        invariant
            start <= end <= s.len(),
            rest == s@.skip(start as int),
            forall|j: int| end - start <= j < rest.len() ==> rest[j] == c,
        decreases end,
    {
        end -= 1;
        assert(rest[end - start] == s@[end as int]);
    }
    proof {
        if end > start {
            assert(rest[end - start - 1] == s@[end - 1]);
        }
        lemma_trailing_run(rest, c, s.len() - end);
    }
    let out = copy_range(s, start, end);
    assert(out@ =~= strip_char(s@, c));
    out
}

/// The name of the setting that names the icon theme.
pub open spec fn theme_setting() -> Seq<char> {
    "gtk-icon-theme-name"@
}

/// The icon theme that the lines of a resource file of GTK 2 name: the value
/// of the first line that begins with the name of the setting and has an
/// equals sign, without the white space and the quotation marks around it.
pub open spec fn gtkrc_theme(lines: Seq<Seq<char>>) -> Option<Seq<char>>
    decreases lines.len(),
{
    if lines.len() == 0 {
        None
    } else {
        let line = trim(lines[0]);
        if starts_with(line, theme_setting()) && split_once(line, '=') is Some {
            Some(strip_char(trim(value_part(line)), '"'))
        } else {
            gtkrc_theme(lines.drop_first())
        }
    }
}

/// Reads the icon theme from the text of a resource file of GTK 2.
pub fn read_gtkrc_theme(content: &str) -> (theme: Option<String>)
    ensures
        match theme {
            Some(t) => gtkrc_theme(split(content@, '\n')) == Some(t@),
            None => gtkrc_theme(split(content@, '\n')) is None,
        },
{
    let chars = chars_of(content);
    let lines = split_chars(chars.as_slice(), '\n');
    let setting = chars_of("gtk-icon-theme-name");
    let ghost all = split(content@, '\n');
    let mut i: usize = 0;
    assert(all.skip(0) == all);
    while i < lines.len()
        invariant
            i <= lines.len(),
            setting@ == theme_setting(),
            all == split(content@, '\n'),
            all == lines@.map_values(|p: Vec<char>| p@),
            gtkrc_theme(all) == gtkrc_theme(all.skip(i as int)),
        decreases lines.len() - i,
    {
        proof {
            assert(all.skip(i as int).drop_first() == all.skip(i + 1));
            assert(all.skip(i as int)[0] == lines@[i as int]@);
        }
        let line = trim_chars(lines[i].as_slice());
        if has_prefix(line.as_slice(), setting.as_slice()) {
            match split_once_chars(line.as_slice(), '=') {
                Some((raw_key, raw_value)) => {
                    let value = trim_chars(raw_value.as_slice());
                    let value = strip_chars(value.as_slice(), '"');
                    proof {
                        assert(split_once(line@, '=') == Some((raw_key@, raw_value@)));
                        assert(value_part(line@) == raw_value@);
                    }
                    return Some(string_of(value.as_slice()));
                },
                None => {},
            }
        }
        i += 1;
    }
    assert(all.skip(lines.len() as int).len() == 0);
    None
}

/// What the user's settings say of the icon theme: the values of the two
/// environment variables, and the texts of the settings files of GTK 3 and
/// GTK 4, of the resource file of GTK 2, and of the global settings of KDE;
/// `None` for a variable that is not set or a file that cannot be read.
#[derive(Clone, Debug)]
pub struct ThemeSettings {
    pub xdg_icon_theme: Option<String>,
    pub gtk_theme: Option<String>,
    pub gtk3_settings: Option<String>,
    pub gtk4_settings: Option<String>,
    pub gtkrc: Option<String>,
    pub kde_globals: Option<String>,
}

/// One more name where there is one.
pub open spec fn with(names: Seq<Seq<char>>, name: Option<Seq<char>>) -> Seq<Seq<char>> {
    match name {
        Some(n) => names.push(n),
        None => names,
    }
}

/// What stands before the first colon of the value of a variable.
pub open spec fn first_of_path(value: Option<String>) -> Option<Seq<char>> {
    match value {
        Some(v) => Some(v@.take(first_index(v@, ':'))),
        None => None,
    }
}

/// The value of a key in the text of a settings file.
pub open spec fn setting_of(content: Option<String>, section: Seq<char>, key: Seq<char>) -> Option<
    Seq<char>,
> {
    match content {
        Some(c) => ini_value(split(c@, '\n'), None, section, key),
        None => None,
    }
}

/// The icon themes that the settings ask for, in the order of their
/// precedence: those of the two variables, of GTK 3, GTK 4, GTK 2 and KDE,
/// and then the four themes that are tried in any case.
pub open spec fn preferred_themes(settings: ThemeSettings) -> Seq<Seq<char>> {
    let asked = with(
        with(
            with(
                with(
                    with(
                        with(Seq::empty(), first_of_path(settings.xdg_icon_theme)),
                        first_of_path(settings.gtk_theme),
                    ),
                    setting_of(settings.gtk3_settings, "Settings"@, theme_setting()),
                ),
                setting_of(settings.gtk4_settings, "Settings"@, theme_setting()),
            ),
            match settings.gtkrc {
                Some(c) => gtkrc_theme(split(c@, '\n')),
                None => None,
            },
        ),
        setting_of(settings.kde_globals, "Icons"@, "Theme"@),
    );
    asked.push("hicolor"@).push("Adwaita"@).push("breeze"@).push("Papirus"@)
}

/// Appends one more name where there is one.
fn push_name(names: &mut Vec<String>, name: Option<String>)
    ensures
        texts(final(names)@) == with(
            texts(old(names)@),
            match name {
                Some(n) => Some(n@),
                None => None,
            },
        ),
{
    match name {
        Some(n) => {
            let ghost before = names@;
            names.push(n);
            assert(texts(names@) =~= texts(before).push(n@));
        },
        None => {},
    }
}

/// What stands before the first colon of the value of a variable.
fn first_path_entry(value: &Option<String>) -> (first: Option<String>)
    ensures
        match first {
            Some(f) => first_of_path(*value) == Some(f@),
            None => first_of_path(*value) is None,
        },
{
    match value {
        Some(v) => {
            let chars = chars_of(v.as_str());
            let colon: usize = find_char(chars.as_slice(), ':');
            let head = copy_range(chars.as_slice(), 0, colon);
            assert(head@ == chars@.take(colon as int));
            Some(string_of(head.as_slice()))
        },
        None => None,
    }
}

/// The value of a key in the text of a settings file.
fn read_setting(content: &Option<String>, section: &str, key: &str) -> (value: Option<String>)
    ensures
        match value {
            Some(v) => setting_of(*content, section@, key@) == Some(v@),
            None => setting_of(*content, section@, key@) is None,
        },
{
    match content {
        Some(c) => read_ini_value(c.as_str(), section, key),
        None => None,
    }
}

/// The icon themes that the settings ask for, in the order of their
/// precedence.
pub fn get_preferred_icon_themes(settings: &ThemeSettings) -> (themes: Vec<String>)
    ensures
        texts(themes@) == preferred_themes(*settings),
{
    let mut themes: Vec<String> = Vec::new();
    assert(texts(themes@) =~= Seq::<Seq<char>>::empty());
    push_name(&mut themes, first_path_entry(&settings.xdg_icon_theme));
    push_name(&mut themes, first_path_entry(&settings.gtk_theme));
    push_name(&mut themes, read_setting(&settings.gtk3_settings, "Settings", "gtk-icon-theme-name"));
    push_name(&mut themes, read_setting(&settings.gtk4_settings, "Settings", "gtk-icon-theme-name"));
    let from_gtkrc = match &settings.gtkrc {
        Some(c) => read_gtkrc_theme(c.as_str()),
        None => None,
    };
    push_name(&mut themes, from_gtkrc);
    push_name(&mut themes, read_setting(&settings.kde_globals, "Icons", "Theme"));
    let hicolor = chars_of("hicolor");
    push_name(&mut themes, Some(string_of(hicolor.as_slice())));
    let adwaita = chars_of("Adwaita");
    push_name(&mut themes, Some(string_of(adwaita.as_slice())));
    let breeze = chars_of("breeze");
    push_name(&mut themes, Some(string_of(breeze.as_slice())));
    let papirus = chars_of("Papirus");
    push_name(&mut themes, Some(string_of(papirus.as_slice())));
    themes
}

} // verus!
