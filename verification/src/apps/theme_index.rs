//! Icon themes: the index file of a theme, and the order in which themes
//! are searched when each theme names the themes that it inherits from.

use crate::apps::desktop_entry::texts;
use crate::text::{chars_eq, chars_of, str_eq, string_of};
use crate::textops::{
    chars_eq_ignore_ascii_case, eq_ignore_ascii_case, split, split_chars, split_once,
    split_once_chars, trim, trim_chars,
};
use std::collections::VecDeque;
use vstd::prelude::*;

verus! {

/// What the index file of an icon theme says.
#[derive(Clone, Debug)]
pub struct ParsedIconTheme {
    /// The directories of the theme, relative to its root.
    pub directories: Vec<String>,
    /// The themes that this one inherits from.
    pub inherits: Vec<String>,
}

/// What the lines read so far have given: the last section header, and the
/// two lists.
pub ghost struct ThemeScan {
    pub section: Seq<char>,
    pub directories: Seq<Seq<char>>,
    pub inherits: Seq<Seq<char>>,
}

/// The header of the section that describes the theme; its case does not
/// count.
pub open spec fn theme_header() -> Seq<char> {
    "[Icon Theme]"@
}

/// The parts of a list value, which a comma separates, each without the
/// white space around it.
pub open spec fn comma_list(value: Seq<char>) -> Seq<Seq<char>> {
    split(value, ',').map_values(|part: Seq<char>| trim(part))
}

/// What one more line gives. A line that begins with a bracket is a section
/// header; inside the theme's section the keys "Directories" and "Inherits"
/// set the two lists.
pub open spec fn theme_line(state: ThemeScan, raw: Seq<char>) -> ThemeScan {
    let line = trim(raw);
    if line.len() > 0 && line[0] == '[' {
        ThemeScan { section: line, ..state }
    } else if eq_ignore_ascii_case(state.section, theme_header()) {
        match split_once(line, '=') {
            Some((key, value)) => if trim(key) == "Directories"@ {
                ThemeScan { directories: comma_list(value), ..state }
            } else if trim(key) == "Inherits"@ {
                ThemeScan { inherits: comma_list(value), ..state }
            } else {
                state
            },
            None => state,
        }
    } else {
        state
    }
}

/// What a sequence of lines gives.
pub open spec fn theme_lines(lines: Seq<Seq<char>>) -> ThemeScan
    decreases lines.len(),
{
    if lines.len() == 0 {
        ThemeScan { section: Seq::empty(), directories: Seq::empty(), inherits: Seq::empty() }
    } else {
        theme_line(theme_lines(lines.drop_last()), lines.last())
    }
}

/// The strings of the parts of a comma-separated list.
fn parse_comma_list(value: &[char]) -> (parts: Vec<String>)
    ensures
        texts(parts@) == comma_list(value@),
{
    let pieces = split_chars(value, ',');
    let ghost raw = split(value@, ',');
    let mut parts: Vec<String> = Vec::new();
    let mut i: usize = 0;
    while i < pieces.len()
        invariant
            i <= pieces.len(),
            parts.len() == i,
            raw == pieces@.map_values(|p: Vec<char>| p@),
            forall|j: int| 0 <= j < i ==> parts@[j]@ == trim(raw[j]),
        decreases pieces.len() - i,
    {
        assert(raw[i as int] == pieces@[i as int]@);
        let trimmed = trim_chars(pieces[i].as_slice());
        parts.push(string_of(trimmed.as_slice()));
        i += 1;
    }
    assert(texts(parts@) =~= comma_list(value@));
    parts
}

/// Reads the text of the index file of an icon theme.
pub fn parse_icon_theme_index(content: &str) -> (parsed: ParsedIconTheme)
    ensures
        texts(parsed.directories@) == theme_lines(split(content@, '\n')).directories,
        texts(parsed.inherits@) == theme_lines(split(content@, '\n')).inherits,
{
    let chars = chars_of(content);
    let lines = split_chars(chars.as_slice(), '\n');
    let ghost all = split(content@, '\n');
    let header = chars_of("[Icon Theme]");
    let directories_key = chars_of("Directories");
    let inherits_key = chars_of("Inherits");
    let mut section: Vec<char> = Vec::new();
    let mut directories: Vec<String> = Vec::new();
    let mut inherits: Vec<String> = Vec::new();
    let mut i: usize = 0;
    assert(all.take(0) == Seq::<Seq<char>>::empty());
    assert(texts(directories@) =~= Seq::<Seq<char>>::empty());
    assert(texts(inherits@) =~= Seq::<Seq<char>>::empty());
    while i < lines.len()
        invariant
            i <= lines.len(),
            header@ == theme_header(),
            directories_key@ == "Directories"@,
            inherits_key@ == "Inherits"@,
            all == lines@.map_values(|p: Vec<char>| p@),
            theme_lines(all.take(i as int)) == (ThemeScan {
                section: section@,
                directories: texts(directories@),
                inherits: texts(inherits@),
            }),
        decreases lines.len() - i,
    {
        proof {
            assert(all.take(i + 1).drop_last() == all.take(i as int));
            assert(all.take(i + 1).last() == lines@[i as int]@);
        }
        let line = trim_chars(lines[i].as_slice());
        if line.len() > 0 && line[0] == '[' {
            section = line;
        } else if chars_eq_ignore_ascii_case(section.as_slice(), header.as_slice()) {
            match split_once_chars(line.as_slice(), '=') {
                Some((key, value)) => {
                    let key = trim_chars(key.as_slice());
                    if chars_eq(key.as_slice(), directories_key.as_slice()) {
                        directories = parse_comma_list(value.as_slice());
                    } else if chars_eq(key.as_slice(), inherits_key.as_slice()) {
                        inherits = parse_comma_list(value.as_slice());
                    }
                },
                None => {},
            }
        }
        i += 1;
    }
    assert(all.take(lines.len() as int) == all);
    ParsedIconTheme { directories, inherits }
}

/// Whether `name` is one of `names`.
pub open spec fn is_among(names: Seq<Seq<char>>, name: Seq<char>) -> bool {
    exists|i: int| 0 <= i < names.len() && #[trigger] names[i] == name
}

/// Whether no name stands twice in `names`.
pub open spec fn all_distinct(names: Seq<Seq<char>>) -> bool {
    forall|i: int, j: int| 0 <= i < j < names.len() ==> #[trigger] names[i] != #[trigger] names[j]
}

/// The number of names at the start of `queue` that are among `visited`.
pub open spec fn visited_prefix(queue: Seq<Seq<char>>, visited: Seq<Seq<char>>) -> int
    decreases queue.len(),
{
    if queue.len() > 0 && is_among(visited, queue[0]) {
        1 + visited_prefix(queue.drop_first(), visited)
    } else {
        0
    }
}

/// The names of `names` that are not among `visited`, in order.
pub open spec fn unvisited(names: Seq<Seq<char>>, visited: Seq<Seq<char>>) -> Seq<Seq<char>>
    decreases names.len(),
{
    if names.len() == 0 {
        Seq::empty()
    } else if is_among(visited, names.last()) {
        unvisited(names.drop_last(), visited)
    } else {
        unvisited(names.drop_last(), visited).push(names.last())
    }
}

/// A walk through the themes, breadth first: the themes to look at wait in
/// a queue, and each theme is visited once, in the order in which it is
/// reached. The caller takes the next theme, reads the themes that it
/// inherits from, and hands them in.
#[derive(Debug)]
pub struct InheritanceWalk {
    pub queue: VecDeque<String>,
    pub order: Vec<String>,
}

/// The texts of a queue of strings.
pub open spec fn queue_texts(queue: Seq<String>) -> Seq<Seq<char>> {
    queue.map_values(|s: String| s@)
}

/// Whether `name` is one of `names`.
fn contains_name(names: &Vec<String>, name: &str) -> (found: bool)
    ensures
        found == is_among(texts(names@), name@),
{
    let mut i: usize = 0;
    while i < names.len()
        invariant
            i <= names.len(),
            forall|j: int| 0 <= j < i ==> texts(names@)[j] != name@,
        decreases names.len() - i,
    {
        assert(texts(names@)[i as int] == names@[i as int]@);
        if str_eq(names[i].as_str(), name) {
            return true;
        }
        i += 1;
    }
    false
}

impl InheritanceWalk {
    /// A walk that starts from `start_themes`, in their order.
    pub fn new(start_themes: Vec<String>) -> (walk: Self)
        ensures
            queue_texts(walk.queue@) == texts(start_themes@),
            walk.order@.len() == 0,
    {
        let mut queue: VecDeque<String> = VecDeque::new();
        let mut rest = start_themes;
        let ghost all = rest@;
        let mut reversed: Vec<String> = Vec::new();
        while rest.len() > 0
            invariant
                rest.len() <= all.len(),
                rest@ == all.take(rest.len() as int),
                reversed@ == all.skip(rest.len() as int).reverse(),
            decreases rest.len(),
        {
            let ghost n = rest.len() as int;
            let theme = rest.pop().unwrap();
            reversed.push(theme);
            assert(all.skip(n - 1).reverse() =~= all.skip(n).reverse().push(all[n - 1]));
        }
        assert(all.skip(0) == all);
        let ghost backwards = reversed@;
        while reversed.len() > 0
            invariant
                reversed.len() <= backwards.len(),
                reversed@ == backwards.take(reversed.len() as int),
                queue@ == backwards.skip(reversed.len() as int).reverse(),
            decreases reversed.len(),
        {
            let ghost n = reversed.len() as int;
            let theme = reversed.pop().unwrap();
            queue.push_back(theme);
            assert(backwards.skip(n - 1).reverse() =~= backwards.skip(n).reverse().push(
                backwards[n - 1],
            ));
        }
        assert(backwards.skip(0) == backwards);
        assert(queue@ =~= all);
        InheritanceWalk { queue, order: Vec::new() }
    }

    /// The next theme to look at: the first in the queue that was not
    /// visited yet. It counts as visited from now on. `None` where the queue
    /// holds no such theme; the walk is then over.
    pub fn next_theme(&mut self) -> (theme: Option<String>)
        ensures
            ({
                let queue = queue_texts(old(self).queue@);
                let visited = texts(old(self).order@);
                let k = visited_prefix(queue, visited);
                if k < queue.len() {
                    &&& theme matches Some(name) && name@ == queue[k]
                    &&& texts(final(self).order@) == visited.push(queue[k])
                    &&& queue_texts(final(self).queue@) == queue.skip(k + 1)
                } else {
                    &&& theme is None
                    &&& texts(final(self).order@) == visited
                    &&& final(self).queue@.len() == 0
                }
            }),
            all_distinct(texts(old(self).order@)) ==> all_distinct(texts(final(self).order@)),
    {
        let ghost queue = queue_texts(self.queue@);
        let ghost visited = texts(self.order@);
        assert(queue.skip(0) == queue);
        loop
            invariant
                self.order == old(self).order,
                queue == queue_texts(old(self).queue@),
                visited == texts(old(self).order@),
                self.queue@.len() <= queue.len(),
                queue_texts(self.queue@) == queue.skip(queue.len() - self.queue@.len()),
                visited_prefix(queue, visited) == queue.len() - self.queue@.len()
                    + visited_prefix(queue_texts(self.queue@), visited),
            decreases self.queue@.len(),
        {
            let ghost before = queue_texts(self.queue@);
            let ghost done = queue.len() - self.queue@.len();
            match self.queue.pop_front() {
                Some(theme) => {
                    proof {
                        assert(before[0] == theme@);
                        assert(queue_texts(self.queue@) =~= before.drop_first());
                        assert(before.drop_first() == queue.skip(done + 1));
                        assert(queue[done] == theme@);
                    }
                    if !contains_name(&self.order, theme.as_str()) {
                        let ghost old_order = self.order@;
                        self.order.push(theme.clone());
                        proof {
                            assert(texts(self.order@) =~= visited.push(theme@));
                            if all_distinct(visited) {
                                assert forall|i: int, j: int|
                                    0 <= i < j < visited.push(theme@).len() implies #[trigger]
                                    visited.push(theme@)[i] != #[trigger] visited.push(
                                    theme@,
                                )[j] by {
                                    if j == visited.len() {
                                        assert(visited[i] != theme@);
                                    }
                                }
                            }
                        }
                        return Some(theme);
                    }
                },
                None => {
                    assert(before.len() == 0);
                    return None;
                },
            }
        }
    }

    /// Takes the themes that the theme taken last inherits from: those that
    /// were not visited yet join the queue, in their order.
    pub fn add_parents(&mut self, parents: Vec<String>)
        ensures
            final(self).order == old(self).order,
            queue_texts(final(self).queue@) == queue_texts(old(self).queue@) + unvisited(
                texts(parents@),
                texts(old(self).order@),
            ),
    {
        let ghost visited = texts(self.order@);
        let ghost start = queue_texts(self.queue@);
        let ghost all = texts(parents@);
        let mut rest = parents;
        let mut reversed: Vec<String> = Vec::new();
        while rest.len() > 0
            invariant
                rest.len() <= parents@.len(),
                rest@ == parents@.take(rest.len() as int),
                reversed@ == parents@.skip(rest.len() as int).reverse(),
            decreases rest.len(),
        {
            let ghost n = rest.len() as int;
            let parent = rest.pop().unwrap();
            reversed.push(parent);
            assert(parents@.skip(n - 1).reverse() =~= parents@.skip(n).reverse().push(
                parents@[n - 1],
            ));
        }
        assert(parents@.skip(0) == parents@);
        let ghost backwards = reversed@;
        assert(all.take(0) == Seq::<Seq<char>>::empty());
        assert(start + unvisited(all.take(0), visited) =~= start);
        while reversed.len() > 0
            invariant
                self.order == old(self).order,
                visited == texts(self.order@),
                all == texts(parents@),
                backwards == parents@.reverse(),
                reversed.len() <= backwards.len(),
                reversed@ == backwards.take(reversed.len() as int),
                queue_texts(self.queue@) == start + unvisited(
                    all.take(backwards.len() - reversed.len()),
                    visited,
                ),
            decreases reversed.len(),
        {
            let ghost n = reversed.len() as int;
            let ghost seen = backwards.len() - n;
            let ghost before = queue_texts(self.queue@);
            let parent = reversed.pop().unwrap();
            proof {
                assert(parent == backwards[n - 1]);
                assert(backwards[n - 1] == parents@[seen]);
                assert(all.take(seen + 1).drop_last() == all.take(seen));
                assert(all.take(seen + 1).last() == parent@);
            }
            if !contains_name(&self.order, parent.as_str()) {
                self.queue.push_back(parent);
                proof {
                    assert(queue_texts(self.queue@) =~= before.push(parent@));
                    assert(before.push(parent@) =~= start + unvisited(all.take(seen), visited).push(
                        parent@,
                    ));
                }
            }
        }
        assert(all.take(backwards.len() as int) == all);
    }

    /// The themes that were visited, in the order of the visits.
    pub fn into_order(self) -> (order: Vec<String>)
        ensures
            order == self.order,
    {
        self.order
    }
}

} // verus!
