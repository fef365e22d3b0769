//! Desktop entries: the text of a `.desktop` file and the application that
//! it describes.

use crate::text::{chars_eq, chars_of, opt_text, string_of};
use crate::textops::{split, split_chars, split_once, split_once_chars, trim, trim_chars};
use std::path::PathBuf;
use vstd::prelude::*;

verus! {

/// An application, as its desktop entry describes it.
#[derive(Clone, Debug)]
pub struct DesktopApp {
    /// File name of the entry, such as "firefox.desktop".
    pub id: String,
    pub name: String,
    /// Command line that starts the application.
    pub command: String,
    pub icon_name: Option<String>,
    pub startup_wm_class: Option<String>,
    pub comment: Option<String>,
    pub categories: Vec<String>,
    pub keywords: Vec<String>,
    /// Whether the application is kept out of menus.
    pub no_display: bool,
    pub desktop_file_path: PathBuf,
}

/// Mathematical model of a `DesktopApp`.
pub ghost struct DesktopAppModel {
    pub id: Seq<char>,
    pub name: Seq<char>,
    pub command: Seq<char>,
    pub icon_name: Option<Seq<char>>,
    pub startup_wm_class: Option<Seq<char>>,
    pub comment: Option<Seq<char>>,
    pub categories: Seq<Seq<char>>,
    pub keywords: Seq<Seq<char>>,
    pub no_display: bool,
    pub desktop_file_path: PathBuf,
}

/// The texts of a sequence of strings.
pub open spec fn texts(strings: Seq<String>) -> Seq<Seq<char>> {
    strings.map_values(|s: String| s@)
}

impl View for DesktopApp {
    type V = DesktopAppModel;

    open spec fn view(&self) -> DesktopAppModel {
        DesktopAppModel {
            id: self.id@,
            name: self.name@,
            command: self.command@,
            icon_name: opt_text(self.icon_name),
            startup_wm_class: opt_text(self.startup_wm_class),
            comment: opt_text(self.comment),
            categories: texts(self.categories@),
            keywords: texts(self.keywords@),
            no_display: self.no_display,
            desktop_file_path: self.desktop_file_path,
        }
    }
}

/// What the lines read so far have given: whether the last section header
/// was that of the desktop entry, and the keys with their values.
pub ghost struct ScanState {
    pub in_entry: bool,
    pub entries: Seq<(Seq<char>, Seq<char>)>,
}

/// The header of the section that describes the application.
pub open spec fn entry_header() -> Seq<char> {
    "[Desktop Entry]"@
}

/// What one more line gives. Blank lines and comments are passed over; a
/// section header says whether the entry's section begins or ends; inside
/// that section a line with an equals sign gives a key and a value, both
/// without the white space around them.
pub open spec fn scan_line(state: ScanState, raw: Seq<char>) -> ScanState {
    let line = trim(raw);
    if line.len() == 0 || line[0] == '#' {
        state
    } else if line[0] == '[' && line.last() == ']' {
        ScanState { in_entry: line == entry_header(), ..state }
    } else if state.in_entry {
        match split_once(line, '=') {
            Some((key, value)) => ScanState {
                entries: state.entries.push((trim(key), trim(value))),
                ..state
            },
            None => state,
        }
    } else {
        state
    }
}

/// What a sequence of lines gives.
pub open spec fn scan_lines(lines: Seq<Seq<char>>) -> ScanState
    decreases lines.len(),
{
    if lines.len() == 0 {
        ScanState { in_entry: false, entries: Seq::empty() }
    } else {
        scan_line(scan_lines(lines.drop_last()), lines.last())
    }
}

/// The value of `key`: that of its last occurrence.
pub open spec fn lookup(entries: Seq<(Seq<char>, Seq<char>)>, key: Seq<char>) -> Option<Seq<char>>
    decreases entries.len(),
{
    if entries.len() == 0 {
        None
    } else if entries.last().0 == key {
        Some(entries.last().1)
    } else {
        lookup(entries.drop_last(), key)
    }
}

/// The parts of a list value, which a semicolon separates; no parts where
/// the key is absent.
pub open spec fn list_value(entries: Seq<(Seq<char>, Seq<char>)>, key: Seq<char>) -> Seq<
    Seq<char>,
> {
    match lookup(entries, key) {
        Some(value) => split(value, ';'),
        None => Seq::empty(),
    }
}

/// The application that the text of a desktop entry describes, if it
/// describes one: the entry must be of the type "Application" and give a
/// name and a command line.
pub open spec fn desktop_app_of(id: Seq<char>, path: PathBuf, content: Seq<char>) -> Option<
    DesktopAppModel,
> {
    let entries = scan_lines(split(content, '\n')).entries;
    if lookup(entries, "Type"@) != Some("Application"@) {
        None
    } else if lookup(entries, "Name"@) is None || lookup(entries, "Exec"@) is None {
        None
    } else {
        Some(
            DesktopAppModel {
                id,
                name: lookup(entries, "Name"@)->0,
                command: lookup(entries, "Exec"@)->0,
                icon_name: lookup(entries, "Icon"@),
                startup_wm_class: lookup(entries, "StartupWMClass"@),
                comment: lookup(entries, "Comment"@),
                categories: list_value(entries, "Categories"@),
                keywords: list_value(entries, "Keywords"@),
                no_display: lookup(entries, "NoDisplay"@) == Some("true"@),
                desktop_file_path: path,
            },
        )
    }
}

/// The models of the entries read so far.
pub open spec fn entry_models(entries: Seq<(Vec<char>, Vec<char>)>) -> Seq<(Seq<char>, Seq<char>)> {
    entries.map_values(|e: (Vec<char>, Vec<char>)| (e.0@, e.1@))
}

/// The value of `key` among the entries.
fn find_value(entries: &Vec<(Vec<char>, Vec<char>)>, key: &str) -> (value: Option<String>)
    ensures
        opt_text(value) == lookup(entry_models(entries@), key@),
{
    let wanted = chars_of(key);
    let ghost models = entry_models(entries@);
    let mut i: usize = entries.len();
    assert(models.take(i as int) == models);
    while i > 0
        invariant
            i <= entries.len(),
            wanted@ == key@,
            models == entry_models(entries@),
            lookup(models, key@) == lookup(models.take(i as int), key@),
        decreases i,
    {
        let ghost prefix = models.take(i as int);
        assert(prefix.drop_last() == models.take(i - 1));
        assert(prefix.last() == (entries@[i - 1].0@, entries@[i - 1].1@));
        i -= 1;
        if chars_eq(entries[i].0.as_slice(), wanted.as_slice()) {
            return Some(string_of(entries[i].1.as_slice()));
        }
    }
    None
}

/// The strings of the parts of a list value.
fn find_list(entries: &Vec<(Vec<char>, Vec<char>)>, key: &str) -> (parts: Vec<String>)
    ensures
        texts(parts@) == list_value(entry_models(entries@), key@),
{
    match find_value(entries, key) {
        Some(value) => {
            let chars = chars_of(value.as_str());
            let pieces = split_chars(chars.as_slice(), ';');
            let ghost expected = split(value@, ';');
            let mut parts: Vec<String> = Vec::new();
            let mut i: usize = 0;
            while i < pieces.len()
                invariant
                    i <= pieces.len(),
                    parts.len() == i,
                    expected == pieces@.map_values(|p: Vec<char>| p@),
                    forall|j: int| 0 <= j < i ==> parts@[j]@ == expected[j],
                decreases pieces.len() - i,
            {
                parts.push(string_of(pieces[i].as_slice()));
                assert(expected[i as int] == pieces@[i as int]@);
                i += 1;
            }
            assert(texts(parts@) =~= expected);
            parts
        },
        None => {
            let parts: Vec<String> = Vec::new();
            assert(texts(parts@) =~= Seq::<Seq<char>>::empty());
            parts
        },
    }
}

/// Reads the keys and values of the entry's section from the text of a
/// desktop entry.
fn scan_entries(content: &str) -> (entries: Vec<(Vec<char>, Vec<char>)>)
    ensures
        entry_models(entries@) == scan_lines(split(content@, '\n')).entries,
{
    let chars = chars_of(content);
    let lines = split_chars(chars.as_slice(), '\n');
    let ghost all = split(content@, '\n');
    let header = chars_of("[Desktop Entry]");
    let mut entries: Vec<(Vec<char>, Vec<char>)> = Vec::new();
    let mut in_entry = false;
    let mut i: usize = 0;
    assert(all.take(0) == Seq::<Seq<char>>::empty());
    assert(entry_models(entries@) =~= Seq::<(Seq<char>, Seq<char>)>::empty());
    while i < lines.len()
        invariant
            i <= lines.len(),
            header@ == entry_header(),
            all == lines@.map_values(|p: Vec<char>| p@),
            scan_lines(all.take(i as int)) == (ScanState {
                in_entry,
                entries: entry_models(entries@),
            }),
        decreases lines.len() - i,
    {
        let ghost before = scan_lines(all.take(i as int));
        proof {
            assert(all.take(i + 1).drop_last() == all.take(i as int));
            assert(all.take(i + 1).last() == lines@[i as int]@);
        }
        let line = trim_chars(lines[i].as_slice());
        if line.len() == 0 || line[0] == '#' {
        } else if line[0] == '[' && line[line.len() - 1] == ']' {
            in_entry = chars_eq(line.as_slice(), header.as_slice());
        } else if in_entry {
            match split_once_chars(line.as_slice(), '=') {
                Some((key, value)) => {
                    let key = trim_chars(key.as_slice());
                    let value = trim_chars(value.as_slice());
                    let ghost old_entries = entries@;
                    entries.push((key, value));
                    assert(entry_models(entries@) =~= entry_models(old_entries).push(
                        (key@, value@),
                    ));
                },
                None => {},
            }
        }
        i += 1;
    }
    assert(all.take(lines.len() as int) == all);
    entries
}

/// Reads the text of a desktop entry. `id` is the file name of the entry and
/// `path` the place of the file.
pub fn parse_desktop_entry(id: String, path: PathBuf, content: &str) -> (app: Option<DesktopApp>)
    ensures
        match app {
            Some(a) => desktop_app_of(id@, path, content@) == Some(a@),
            None => desktop_app_of(id@, path, content@) is None,
        },
{
    let entries = scan_entries(content);
    let is_application = match find_value(&entries, "Type") {
        Some(kind) => crate::text::str_eq(kind.as_str(), "Application"),
        None => false,
    };
    if !is_application {
        return None;
    }
    let name = match find_value(&entries, "Name") {
        Some(name) => name,
        None => {
            return None;
        },
    };
    let command = match find_value(&entries, "Exec") {
        Some(command) => command,
        None => {
            return None;
        },
    };
    let no_display = match find_value(&entries, "NoDisplay") {
        Some(flag) => crate::text::str_eq(flag.as_str(), "true"),
        None => false,
    };
    Some(
        DesktopApp {
            id,
            name,
            command,
            icon_name: find_value(&entries, "Icon"),
            startup_wm_class: find_value(&entries, "StartupWMClass"),
            comment: find_value(&entries, "Comment"),
            categories: find_list(&entries, "Categories"),
            keywords: find_list(&entries, "Keywords"),
            no_display,
            desktop_file_path: path,
        },
    )
}

} // verus!
