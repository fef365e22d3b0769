//! The catalog of applications: the desktop entries by their identifier and
//! by their window class, and the icons with a cache of the lookups.

use crate::apps::desktop_entry::{texts, DesktopApp};
use crate::apps::icons::{resolved, IconTheme};
use crate::strmap::StringMap;
use crate::text::{chars_of, copy_range, ends_with, lowercase, opt_text, string_of, to_lowercase};
use crate::wm::types::clone_path;
use std::path::PathBuf;
use vstd::prelude::*;

verus! {

/// What the catalog tells its listeners.
#[derive(Clone, Copy, Debug, PartialEq, Eq, Structural)]
pub enum AppEvent {
    /// The catalog was scanned anew.
    Refresh,
}

/// `s` without `suffix` at its end, however often it stands there.
pub open spec fn without_suffix(s: Seq<char>, suffix: Seq<char>) -> Seq<char>
    decreases s.len(),
{
    if suffix.len() > 0 && ends_with(s, suffix) {
        without_suffix(s.take(s.len() - suffix.len()), suffix)
    } else {
        s
    }
}

/// The extension of the files that hold desktop entries.
pub open spec fn entry_suffix() -> Seq<char> {
    ".desktop"@
}

/// The name under which an application is found where no window class
/// names it: its identifier without the extension, in lower case.
pub open spec fn base_name(id: Seq<char>) -> Seq<char> {
    lowercase(without_suffix(id, entry_suffix()))
}

/// Whether `s` ends with `suffix`.
fn has_suffix(s: &[char], len: usize, suffix: &[char]) -> (r: bool)
    requires
        len <= s.len(),
    ensures
        r == ends_with(s@.take(len as int), suffix@),
{
    if suffix.len() > len {
        return false;
    }
    let start: usize = len - suffix.len();
    let ghost head = s@.take(len as int);
    let mut i: usize = 0;
    while i < suffix.len()
        invariant
            i <= suffix.len() <= len <= s.len(),
            start == len - suffix.len(),
            head == s@.take(len as int),
            forall|j: int| 0 <= j < i ==> head.skip(start as int)[j] == suffix@[j],
        decreases suffix.len() - i,
    {
        assert(head.skip(start as int)[i as int] == s@[start + i]);
        if s[start + i] != suffix[i] {
            return false;
        }
        i += 1;
    }
    assert(head.skip(start as int) =~= suffix@);
    true
}

/// `s` without `suffix` at its end, however often it stands there.
pub fn strip_suffix_all(s: &str, suffix: &str) -> (out: String)
    ensures
        out@ == without_suffix(s@, suffix@),
{
    let chars = chars_of(s);
    let tail = chars_of(suffix);
    let mut len: usize = chars.len();
    assert(chars@.take(len as int) == chars@);
    if tail.len() > 0 {
        while has_suffix(chars.as_slice(), len, tail.as_slice())
            invariant
                len <= chars.len(),
                tail.len() > 0,
                tail@ == suffix@,
                without_suffix(s@, suffix@) == without_suffix(chars@.take(len as int), suffix@),
            decreases len,
        {
            assert(chars@.take(len as int).take(len - tail.len()) == chars@.take(len - tail.len()));
            len -= tail.len();
        }
    }
    let head = copy_range(chars.as_slice(), 0, len);
    assert(head@ == chars@.take(len as int));
    string_of(head.as_slice())
}

/// A copy of a list of strings.
fn copy_strings(strings: &Vec<String>) -> (copy: Vec<String>)
    ensures
        texts(copy@) == texts(strings@),
{
    let mut copy: Vec<String> = Vec::new();
    let mut i: usize = 0;
    while i < strings.len()
        invariant
            i <= strings.len(),
            copy.len() == i,
            forall|j: int| 0 <= j < i ==> copy@[j]@ == strings@[j]@,
        decreases strings.len() - i,
    {
        copy.push(strings[i].clone());
        i += 1;
    }
    assert(texts(copy@) =~= texts(strings@));
    copy
}

/// A copy of an optional string.
fn copy_text(text: &Option<String>) -> (copy: Option<String>)
    ensures
        opt_text(copy) == opt_text(*text),
{
    match text {
        Some(s) => Some(s.clone()),
        None => None,
    }
}

impl DesktopApp {
    /// A copy of the application's data.
    pub fn copy(&self) -> (copy: Self)
        ensures
            copy@ == self@,
    {
        DesktopApp {
            id: self.id.clone(),
            name: self.name.clone(),
            command: self.command.clone(),
            icon_name: copy_text(&self.icon_name),
            startup_wm_class: copy_text(&self.startup_wm_class),
            comment: copy_text(&self.comment),
            categories: copy_strings(&self.categories),
            keywords: copy_strings(&self.keywords),
            no_display: self.no_display,
            desktop_file_path: self.desktop_file_path.clone(),
        }
    }
}

/// The catalog of applications.
#[derive(Debug)]
pub struct AppCatalog {
    /// The applications by their identifier, such as "firefox.desktop".
    pub apps: StringMap<DesktopApp>,
    /// The identifiers by window class, in lower case.
    pub apps_by_wm_class: StringMap<String>,
    /// The index of the icons.
    pub icon_theme: IconTheme,
    /// What earlier lookups of icons gave, by name in lower case.
    pub icon_cache: StringMap<Option<PathBuf>>,
}

impl AppCatalog {
    /// An empty catalog.
    pub fn new() -> (catalog: Self)
        ensures
            catalog.apps@ == Map::<Seq<char>, DesktopApp>::empty(),
            catalog.apps_by_wm_class@ == Map::<Seq<char>, String>::empty(),
            catalog.icon_theme.index@ == Map::<Seq<char>, PathBuf>::empty(),
            catalog.icon_cache@ == Map::<Seq<char>, Option<PathBuf>>::empty(),
    {
        AppCatalog {
            apps: StringMap::new(),
            apps_by_wm_class: StringMap::new(),
            icon_theme: IconTheme::new(),
            icon_cache: StringMap::new(),
        }
    }

    /// Takes an application into the catalog. Its window class, if it names
    /// one, leads to it from now on; its base name leads to it unless it
    /// leads somewhere already.
    pub fn add_app(&mut self, app: DesktopApp)
        ensures
            final(self).apps@ == old(self).apps@.insert(app.id@, app),
            final(self).icon_theme == old(self).icon_theme,
            final(self).icon_cache == old(self).icon_cache,
            ({
                let classes = match app.startup_wm_class {
                    Some(class) => old(self).apps_by_wm_class@.insert(lowercase(class@), app.id),
                    None => old(self).apps_by_wm_class@,
                };
                let by_class = final(self).apps_by_wm_class@;
                &&& by_class.dom() == classes.dom().insert(base_name(app.id@))
                &&& forall|class: Seq<char>| #[trigger]
                    classes.contains_key(class) ==> by_class[class]@ == classes[class]@
                &&& !classes.contains_key(base_name(app.id@)) ==> by_class[base_name(app.id@)]@
                    == app.id@
            }),
    {
        match &app.startup_wm_class {
            Some(class) => {
                self.apps_by_wm_class.insert(to_lowercase(class.as_str()), app.id.clone());
            },
            None => {},
        }
        let ghost classes = self.apps_by_wm_class@;
        let stem = strip_suffix_all(app.id.as_str(), ".desktop");
        self.apps_by_wm_class.insert_if_absent(to_lowercase(stem.as_str()), app.id.clone());
        assert(self.apps_by_wm_class@.dom() =~= classes.dom().insert(base_name(app.id@)));
        let id = app.id.clone();
        self.apps.insert(id, app);
    }

    /// The file of the icon named `name`; none for the empty name. The
    /// answer is taken from the cache where the name was asked for before,
    /// and is cached otherwise.
    pub fn resolve_icon(&mut self, name: &str) -> (path: Option<PathBuf>)
        ensures
            final(self).apps == old(self).apps,
            final(self).apps_by_wm_class == old(self).apps_by_wm_class,
            final(self).icon_theme == old(self).icon_theme,
            name@.len() == 0 ==> path is None && final(self).icon_cache == old(self).icon_cache,
            name@.len() > 0 && old(self).icon_cache@.contains_key(lowercase(name@)) ==> path
                == old(self).icon_cache@[lowercase(name@)] && final(self).icon_cache == old(
                self,
            ).icon_cache,
            name@.len() > 0 && !old(self).icon_cache@.contains_key(lowercase(name@)) ==> path
                == resolved(old(self).icon_theme.index@, name@) && final(self).icon_cache@ == old(
                self,
            ).icon_cache@.insert(lowercase(name@), path),
    {
        if name.unicode_len() == 0 {
            return None;
        }
        let key = to_lowercase(name);
        match self.icon_cache.get(key.as_str()) {
            Some(cached) => {
                return clone_path(cached);
            },
            None => {},
        }
        let result = self.icon_theme.resolve(name);
        self.icon_cache.insert(key, clone_path(&result));
        result
    }

    /// The application with the identifier `id`.
    pub fn get_app(&self, id: &str) -> (app: Option<DesktopApp>)
        ensures
            match app {
                Some(a) => self.apps@.contains_key(id@) && a@ == self.apps@[id@]@,
                None => !self.apps@.contains_key(id@),
            },
    {
        match self.apps.get(id) {
            Some(app) => Some(app.copy()),
            None => None,
        }
    }

    /// The identifier of the application whose windows are of the class
    /// `wm_class`; the case of the class does not count.
    pub fn get_app_id_by_wm_class(&self, wm_class: &str) -> (id: Option<String>)
        ensures
            match id {
                Some(i) => self.apps_by_wm_class@.contains_key(lowercase(wm_class@)) && i@
                    == self.apps_by_wm_class@[lowercase(wm_class@)]@,
                None => !self.apps_by_wm_class@.contains_key(lowercase(wm_class@)),
            },
    {
        let key = to_lowercase(wm_class);
        match self.apps_by_wm_class.get(key.as_str()) {
            Some(id) => Some(id.clone()),
            None => None,
        }
    }
}

/// The file of the icon named `name` in the catalog.
pub fn get_icon(catalog: &mut AppCatalog, name: &str) -> (path: Option<PathBuf>)
    ensures
        final(catalog).apps == old(catalog).apps,
        final(catalog).apps_by_wm_class == old(catalog).apps_by_wm_class,
        final(catalog).icon_theme == old(catalog).icon_theme,
        name@.len() == 0 ==> path is None && final(catalog).icon_cache == old(catalog).icon_cache,
        name@.len() > 0 && old(catalog).icon_cache@.contains_key(lowercase(name@)) ==> path
            == old(catalog).icon_cache@[lowercase(name@)] && final(catalog).icon_cache == old(
            catalog,
        ).icon_cache,
        name@.len() > 0 && !old(catalog).icon_cache@.contains_key(lowercase(name@)) ==> path
            == resolved(old(catalog).icon_theme.index@, name@) && final(catalog).icon_cache@
            == old(catalog).icon_cache@.insert(lowercase(name@), path),
{
    catalog.resolve_icon(name)
}

/// The application with the identifier `id`, such as "firefox.desktop".
pub fn get_app(catalog: &AppCatalog, id: &str) -> (app: Option<DesktopApp>)
    ensures
        match app {
            Some(a) => catalog.apps@.contains_key(id@) && a@ == catalog.apps@[id@]@,
            None => !catalog.apps@.contains_key(id@),
        },
{
    catalog.get_app(id)
}

} // verus!
