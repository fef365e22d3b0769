//! The index of icons: from the lower-case name of an icon to the file that
//! holds it.

use crate::strmap::StringMap;
use crate::text::{chars_of, copy_range, lowercase, str_eq, string_of, to_lowercase};
use crate::textops::{replace_char, replace_chars};
use std::path::PathBuf;
use vstd::prelude::*;

verus! {

/// Whether a file of this extension, in lower case, is an icon.
pub open spec fn is_icon_extension(extension: Seq<char>) -> bool {
    extension == "png"@ || extension == "svg"@ || extension == "xpm"@ || extension == "webp"@
}

/// The icon of a name in an index: that of the name in lower case; else
/// that of the name with hyphens for its spaces; else that of the name with
/// hyphens for its underscores.
pub open spec fn resolved(index: Map<Seq<char>, PathBuf>, name: Seq<char>) -> Option<PathBuf> {
    let lower = lowercase(name);
    let spaced = replace_char(lower, ' ', '-');
    let underscored = replace_char(lower, '_', '-');
    if index.contains_key(lower) {
        Some(index[lower])
    } else if index.contains_key(spaced) {
        Some(index[spaced])
    } else if index.contains_key(underscored) {
        Some(index[underscored])
    } else {
        None
    }
}

/// Whether a name is an absolute path rather than the name of an icon.
pub open spec fn is_absolute(name: Seq<char>) -> bool {
    name.len() > 0 && name[0] == '/'
}

/// The index of the icons of all themes. Of two icons of one name the one
/// that was added first counts, so that the themes are to be added in the
/// order of their precedence.
#[derive(Debug)]
pub struct IconTheme {
    pub index: StringMap<PathBuf>,
}

impl IconTheme {
    /// An index without icons.
    pub fn new() -> (theme: Self)
        ensures
            theme.index@ == Map::<Seq<char>, PathBuf>::empty(),
    {
        IconTheme { index: StringMap::new() }
    }

    /// Whether `name` is an absolute path. Such a name is not looked up in
    /// the index where the file exists.
    pub fn is_absolute_name(name: &str) -> (absolute: bool)
        ensures
            absolute == is_absolute(name@),
    {
        let chars = chars_of(name);
        chars.len() > 0 && chars[0] == '/'
    }

    /// Takes a file into the index, if its extension is that of an icon and
    /// no icon of its name is there yet. `stem` is the file's name without
    /// the extension.
    pub fn add_file(&mut self, stem: &str, extension: &str, path: PathBuf)
        ensures
            final(self).index@ == if is_icon_extension(lowercase(extension@))
                && !old(self).index@.contains_key(lowercase(stem@)) {
                old(self).index@.insert(lowercase(stem@), path)
            } else {
                old(self).index@
            },
    {
        let extension = to_lowercase(extension);
        let known = str_eq(extension.as_str(), "png") || str_eq(extension.as_str(), "svg")
            || str_eq(extension.as_str(), "xpm") || str_eq(extension.as_str(), "webp");
        if known {
            self.index.insert_if_absent(to_lowercase(stem), path);
        }
    }

    /// The file of the icon named `name`.
    pub fn resolve(&self, name: &str) -> (path: Option<PathBuf>)
        ensures
            path == resolved(self.index@, name@),
    {
        let lower = to_lowercase(name);
        match self.index.get(lower.as_str()) {
            Some(path) => {
                return Some(path.clone());
            },
            None => {},
        }
        let chars = chars_of(lower.as_str());
        let spaced = replace_chars(chars.as_slice(), ' ', '-');
        let spaced = string_of(spaced.as_slice());
        match self.index.get(spaced.as_str()) {
            Some(path) => {
                return Some(path.clone());
            },
            None => {},
        }
        let underscored = replace_chars(chars.as_slice(), '_', '-');
        let underscored = string_of(underscored.as_slice());
        match self.index.get(underscored.as_str()) {
            Some(path) => Some(path.clone()),
            None => None,
        }
    }
}

/// The place of the last `c` in `s`, or the length of `s` where `c` does
/// not occur.
pub open spec fn last_index(s: Seq<char>, c: char) -> int
    decreases s.len(),
{
    if s.len() == 0 {
        0
    } else if s.last() == c {
        s.len() - 1
    } else if last_index(s.drop_last(), c) < s.len() - 1 {
        last_index(s.drop_last(), c)
    } else {
        s.len() as int
    }
}

/// `last_index` is in range, `c` stands there if it is inside the text, and
/// nowhere after it.
pub proof fn lemma_last_index(s: Seq<char>, c: char)
    ensures
        0 <= last_index(s, c) <= s.len(),
        last_index(s, c) < s.len() ==> s[last_index(s, c)] == c,
        forall|j: int| last_index(s, c) < j < s.len() ==> s[j] != c,
        last_index(s, c) == s.len() ==> forall|j: int| 0 <= j < s.len() ==> s[j] != c,
    decreases s.len(),
{
    if s.len() > 0 && s.last() != c {
        let t = s.drop_last();
        lemma_last_index(t, c);
        assert forall|j: int| last_index(s, c) < j < s.len() implies s[j] != c by {
            if j < s.len() - 1 {
                assert(s[j] == t[j]);
            }
        }
        if last_index(s, c) == s.len() {
            assert forall|j: int| 0 <= j < s.len() implies s[j] != c by {
                if j < s.len() - 1 {
                    assert(s[j] == t[j]);
                }
            }
        }
    }
}

/// A name without its extension: what stands before its last dot; the whole
/// name where it has no dot.
pub open spec fn without_extension(name: Seq<char>) -> Seq<char> {
    name.take(last_index(name, '.'))
}

/// The icon of a name in an index, sought more widely: that of the name in
/// lower case; else that of the name without its extension; else that of
/// the name with hyphens for its spaces, with hyphens for its underscores,
/// or with underscores for its hyphens.
pub open spec fn resolved_widely(index: Map<Seq<char>, PathBuf>, name: Seq<char>) -> Option<
    PathBuf,
> {
    let lower = lowercase(name);
    let bare = without_extension(lower);
    let spaced = replace_char(lower, ' ', '-');
    let underscored = replace_char(lower, '_', '-');
    let hyphened = replace_char(lower, '-', '_');
    if index.contains_key(lower) {
        Some(index[lower])
    } else if bare != lower && index.contains_key(bare) {
        Some(index[bare])
    } else if index.contains_key(spaced) {
        Some(index[spaced])
    } else if index.contains_key(underscored) {
        Some(index[underscored])
    } else if index.contains_key(hyphened) {
        Some(index[hyphened])
    } else {
        None
    }
}

/// The place of the last `c` in `s`, or the length of `s`.
fn find_last(s: &[char], c: char) -> (i: usize)
    ensures
        i == last_index(s@, c),
        i <= s.len(),
{
    let mut i: usize = s.len();
    assert(s@.take(s.len() as int) == s@);
    while i > 0
        invariant
            i <= s.len(),
            forall|j: int| i <= j < s.len() ==> s@[j] != c,
        decreases i,
    {
        if s[i - 1] == c {
            proof {
                lemma_last_index(s@, c);
                let f = last_index(s@, c);
                if f == s.len() {
                    assert(s@[i - 1] != c);
                }
                if f < i - 1 {
                    assert(s@[i - 1] != c);
                }
                if f > i - 1 && f < s.len() {
                    assert(s@[f] != c);
                }
            }
            return i - 1;
        }
        i -= 1;
    }
    proof {
        lemma_last_index(s@, c);
        let f = last_index(s@, c);
        if f < s.len() {
            assert(s@[f] != c);
        }
    }
    s.len()
}

impl IconTheme {
    /// Takes a file into the index under its name without the extension and
    /// under its whole name, each where no icon of that name is there yet,
    /// if its extension is that of an icon.
    pub fn add_named_file(&mut self, stem: &str, file_name: &str, extension: &str, path: PathBuf)
        ensures
            final(self).index@ == if is_icon_extension(lowercase(extension@)) {
                let first = if old(self).index@.contains_key(lowercase(stem@)) {
                    old(self).index@
                } else {
                    old(self).index@.insert(lowercase(stem@), path)
                };
                if first.contains_key(lowercase(file_name@)) {
                    first
                } else {
                    first.insert(lowercase(file_name@), path)
                }
            } else {
                old(self).index@
            },
    {
        let extension = to_lowercase(extension);
        let known = str_eq(extension.as_str(), "png") || str_eq(extension.as_str(), "svg")
            || str_eq(extension.as_str(), "xpm") || str_eq(extension.as_str(), "webp");
        if known {
            self.index.insert_if_absent(to_lowercase(stem), path.clone());
            self.index.insert_if_absent(to_lowercase(file_name), path);
        }
    }

    /// The file of the icon named `name`, sought more widely than by
    /// `resolve`.
    pub fn lookup_icon_internal(&self, name: &str) -> (path: Option<PathBuf>)
        ensures
            path == resolved_widely(self.index@, name@),
    {
        let lower = to_lowercase(name);
        match self.index.get(lower.as_str()) {
            Some(path) => {
                return Some(path.clone());
            },
            None => {},
        }
        let chars = chars_of(lower.as_str());
        let dot: usize = find_last(chars.as_slice(), '.');
        if dot < chars.len() {
            let bare = copy_range(chars.as_slice(), 0, dot);
            assert(bare@ == chars@.take(dot as int));
            assert(bare@.len() != chars@.len());
            let bare = string_of(bare.as_slice());
            match self.index.get(bare.as_str()) {
                Some(path) => {
                    return Some(path.clone());
                },
                None => {},
            }
        } else {
            assert(chars@.take(chars.len() as int) == chars@);
        }
        let spaced = replace_chars(chars.as_slice(), ' ', '-');
        let spaced = string_of(spaced.as_slice());
        match self.index.get(spaced.as_str()) {
            Some(path) => {
                return Some(path.clone());
            },
            None => {},
        }
        let underscored = replace_chars(chars.as_slice(), '_', '-');
        let underscored = string_of(underscored.as_slice());
        match self.index.get(underscored.as_str()) {
            Some(path) => {
                return Some(path.clone());
            },
            None => {},
        }
        let hyphened = replace_chars(chars.as_slice(), '-', '_');
        let hyphened = string_of(hyphened.as_slice());
        match self.index.get(hyphened.as_str()) {
            Some(path) => Some(path.clone()),
            None => None,
        }
    }
}

} // verus!
