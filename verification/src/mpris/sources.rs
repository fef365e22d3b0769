//! Discovered player sources: short names, the fixed ranking, and the user's
//! favorite with the rule that selects the active source.

use crate::text::{
    chars_of, copy_range, find_char, first_index, has_prefix, starts_with, str_eq, string_of,
};
use vstd::prelude::*;

verus! {

/// The namespace prefix that every player's bus name begins with.
pub open spec fn player_prefix() -> Seq<char> {
    "org.mpris.MediaPlayer2."@
}

/// Whether a bus name belongs to a media player.
pub open spec fn is_player_bus(bus_name: Seq<char>) -> bool {
    starts_with(bus_name, player_prefix())
}

/// The short name of a bus name: what follows the player prefix (the whole
/// name where it has no such prefix), up to the first dot. Several instances
/// of one application so share one short name.
pub open spec fn short_name_of(bus_name: Seq<char>) -> Seq<char> {
    let rest = if starts_with(bus_name, player_prefix()) {
        bus_name.skip(player_prefix().len() as int)
    } else {
        bus_name
    };
    rest.take(first_index(rest, '.'))
}

/// One discovered remote-controllable player.
#[derive(Clone, Debug)]
pub struct PlayerSource {
    /// Full bus name, such as "org.mpris.MediaPlayer2.spotify".
    pub bus_name: String,
    /// Human-readable name, such as "Spotify".
    pub identity: String,
    /// Short name taken from the bus name, such as "spotify".
    pub short_name: String,
    pub can_play: bool,
    pub can_pause: bool,
    pub can_seek: bool,
}

/// Mathematical model of a `PlayerSource`.
pub ghost struct SourceModel {
    pub bus_name: Seq<char>,
    pub identity: Seq<char>,
    pub short_name: Seq<char>,
    pub can_play: bool,
    pub can_pause: bool,
    pub can_seek: bool,
}

impl View for PlayerSource {
    type V = SourceModel;

    open spec fn view(&self) -> SourceModel {
        SourceModel {
            bus_name: self.bus_name@,
            identity: self.identity@,
            short_name: self.short_name@,
            can_play: self.can_play,
            can_pause: self.can_pause,
            can_seek: self.can_seek,
        }
    }
}

/// The models of a sequence of sources.
pub open spec fn source_models(sources: Seq<PlayerSource>) -> Seq<SourceModel> {
    sources.map_values(|s: PlayerSource| s@)
}

/// What one bus name gave when it was asked for its identity and for its
/// ability to seek; `None` where the query failed.
#[derive(Clone, Debug)]
pub struct PlayerProbe {
    pub bus_name: String,
    pub identity: Option<String>,
    pub can_seek: Option<bool>,
}

/// The source that a probe describes: the identity falls back to the short
/// name, the ability to seek to `false`; play and pause are taken as given.
pub open spec fn source_of_probe(probe: PlayerProbe) -> SourceModel {
    SourceModel {
        bus_name: probe.bus_name@,
        identity: match probe.identity {
            Some(identity) => identity@,
            None => short_name_of(probe.bus_name@),
        },
        short_name: short_name_of(probe.bus_name@),
        can_play: true,
        can_pause: true,
        can_seek: match probe.can_seek {
            Some(can_seek) => can_seek,
            None => false,
        },
    }
}

/// Whether `name` is the bus name of a media player.
pub fn is_player_name(name: &str) -> (r: bool)
    ensures
        r == is_player_bus(name@),
{
    let chars = chars_of(name);
    let prefix = chars_of("org.mpris.MediaPlayer2.");
    has_prefix(chars.as_slice(), prefix.as_slice())
}

impl PlayerSource {
    /// The short name of a bus name:
    /// "org.mpris.MediaPlayer2.spotify" gives "spotify",
    /// "org.mpris.MediaPlayer2.firefox.instance_1_234" gives "firefox".
    pub fn extract_short_name(bus_name: &str) -> (short: String)
        ensures
            short@ == short_name_of(bus_name@),
    {
        let chars = chars_of(bus_name);
        let prefix = chars_of("org.mpris.MediaPlayer2.");
        let start: usize = if has_prefix(chars.as_slice(), prefix.as_slice()) {
            prefix.len()
        } else {
            0
        };
        let rest = copy_range(chars.as_slice(), start, chars.len());
        proof {
            if start == 0 {
                assert(rest@ == chars@);
            } else {
                assert(rest@ == chars@.skip(start as int));
            }
        }
        let dot: usize = find_char(rest.as_slice(), '.');
        let head = copy_range(rest.as_slice(), 0, dot);
        assert(head@ == rest@.take(dot as int));
        string_of(head.as_slice())
    }

    /// The source that a probe describes.
    pub fn from_probe(probe: PlayerProbe) -> (source: PlayerSource)
        ensures
            source@ == source_of_probe(probe),
    {
        let short_name = PlayerSource::extract_short_name(probe.bus_name.as_str());
        let identity = match probe.identity {
            Some(identity) => identity,
            None => short_name.clone(),
        };
        let can_seek = match probe.can_seek {
            Some(can_seek) => can_seek,
            None => false,
        };
        PlayerSource {
            bus_name: probe.bus_name,
            identity,
            short_name,
            can_play: true,
            can_pause: true,
            can_seek,
        }
    }
}

/// The least index of a source whose short name is `name`, or the length of
/// the sequence where there is none.
pub open spec fn index_of_name(sources: Seq<SourceModel>, name: Seq<char>) -> int
    decreases sources.len(),
{
    if sources.len() == 0 {
        0
    } else if sources[0].short_name == name {
        0
    } else {
        1 + index_of_name(sources.drop_first(), name)
    }
}

/// `index_of_name` is in range, no source before it has the name, and the
/// source there has it if the index is inside the sequence.
pub proof fn lemma_index_of_name(sources: Seq<SourceModel>, name: Seq<char>)
    ensures
        0 <= index_of_name(sources, name) <= sources.len(),
        forall|j: int| 0 <= j < index_of_name(sources, name) ==> sources[j].short_name != name,
        index_of_name(sources, name) < sources.len() ==> sources[index_of_name(
            sources,
            name,
        )].short_name == name,
    decreases sources.len(),
{
    if sources.len() > 0 && sources[0].short_name != name {
        let rest = sources.drop_first();
        lemma_index_of_name(rest, name);
        assert forall|j: int| 0 <= j < index_of_name(sources, name) implies sources[j].short_name
            != name by {
            if j > 0 {
                assert(sources[j] == rest[j - 1]);
            }
        }
    }
}

/// The index of the source to bind to: the first source with the favorite's
/// short name where there is a favorite and it is present, else the first
/// source; none where no source is there.
pub open spec fn selected_index(favorite: Option<Seq<char>>, sources: Seq<SourceModel>) -> Option<
    int,
> {
    if sources.len() == 0 {
        None
    } else {
        match favorite {
            Some(name) => if index_of_name(sources, name) < sources.len() {
                Some(index_of_name(sources, name))
            } else {
                Some(0)
            },
            None => Some(0),
        }
    }
}

/// The selected index is an index of the sequence.
pub proof fn lemma_selected_in_range(favorite: Option<Seq<char>>, sources: Seq<SourceModel>)
    ensures
        selected_index(favorite, sources) matches Some(i) ==> 0 <= i < sources.len(),
{
    if let Some(name) = favorite {
        lemma_index_of_name(sources, name);
    }
}

/// The user's persisted selection intent.
#[derive(Clone, Debug)]
pub struct SourcePreference {
    /// Short name of the favorite source, if one is set.
    pub favorite: Option<String>,
}

impl View for SourcePreference {
    type V = Option<Seq<char>>;

    open spec fn view(&self) -> Option<Seq<char>> {
        match self.favorite {
            Some(name) => Some(name@),
            None => None,
        }
    }
}

impl Default for SourcePreference {
    fn default() -> (preference: Self)
        ensures
            preference@ is None,
    {
        SourcePreference { favorite: None }
    }
}

impl SourcePreference {
    /// Picks the source to bind to from a ranked list: the favorite where it
    /// is set and present, else the first of the list.
    pub fn select_source<'a>(&self, sources: &'a [PlayerSource]) -> (selected: Option<
        &'a PlayerSource,
    >)
        ensures
            selected == match selected_index(self@, source_models(sources@)) {
                Some(i) => Some(&sources@[i]),
                None => None,
            },
    {
        let ghost models = source_models(sources@);
        if sources.len() == 0 {
            return None;
        }
        if let Some(favorite) = &self.favorite {
            let mut i: usize = 0;
            while i < sources.len()
                invariant
                    i <= sources.len(),
                    self@ == Some(favorite@),
                    models == source_models(sources@),
                    forall|j: int| 0 <= j < i ==> models[j].short_name != favorite@,
                decreases sources.len() - i,
            {
                assert(models[i as int] == sources@[i as int]@);
                if str_eq(sources[i].short_name.as_str(), favorite.as_str()) {
                    proof {
                        lemma_index_unique(models, favorite@, i as int);
                        assert(self@ == Some(favorite@));
                        assert(selected_index(self@, models) == Some(i as int));
                    }
                    return Some(&sources[i]);
                }
                i += 1;
            }
            proof {
                lemma_index_unique(models, favorite@, i as int);
            }
        }
        Some(&sources[0])
    }

    /// Makes `short_name` the favorite.
    pub fn set_favorite(&mut self, short_name: String)
        ensures
            final(self).favorite == Some(short_name),
    {
        self.favorite = Some(short_name);
    }

    /// Forgets the favorite.
    pub fn clear_favorite(&mut self)
        ensures
            final(self).favorite is None,
    {
        self.favorite = None;
    }
}

/// Any index with the three properties of `lemma_index_of_name` is
/// `index_of_name`.
pub proof fn lemma_index_unique(sources: Seq<SourceModel>, name: Seq<char>, i: int)
    requires
        0 <= i <= sources.len(),
        forall|j: int| 0 <= j < i ==> sources[j].short_name != name,
        i < sources.len() ==> sources[i].short_name == name,
    ensures
        i == index_of_name(sources, name),
{
    lemma_index_of_name(sources, name);
    let f = index_of_name(sources, name);
    if f < i {
        assert(sources[f].short_name != name);
    }
    if i < f {
        assert(sources[i].short_name != name);
    }
}

/// The selection rule, spelled out: with a favorite that is present, the
/// first source of that name is selected, and it is the only case in which
/// the selected source has the favorite's name; otherwise the first source is
/// selected; and nothing is selected from an empty list, and only then.
pub proof fn lemma_selection_rule(favorite: Option<Seq<char>>, sources: Seq<SourceModel>)
    ensures
        sources.len() == 0 <==> selected_index(favorite, sources) is None,
        favorite is None && sources.len() > 0 ==> selected_index(favorite, sources) == Some(0int),
        forall|name: Seq<char>|
            favorite == Some(name) && sources.len() > 0 ==> {
                let present = exists|i: int|
                    0 <= i < sources.len() && #[trigger] sources[i].short_name == name;
                let k = selected_index(favorite, sources)->0;
                &&& 0 <= k < sources.len()
                &&& present <==> sources[k].short_name == name
                &&& present ==> forall|j: int| 0 <= j < k ==> sources[j].short_name != name
                &&& !present ==> k == 0
            },
{
    assert forall|name: Seq<char>| favorite == Some(name) && sources.len() > 0 implies {
        let present = exists|i: int|
            0 <= i < sources.len() && #[trigger] sources[i].short_name == name;
        let k = selected_index(favorite, sources)->0;
        &&& 0 <= k < sources.len()
        &&& present <==> sources[k].short_name == name
        &&& present ==> forall|j: int| 0 <= j < k ==> sources[j].short_name != name
        &&& !present ==> k == 0
    } by {
        lemma_index_of_name(sources, name);
        let f = index_of_name(sources, name);
        let present = exists|i: int|
            0 <= i < sources.len() && #[trigger] sources[i].short_name == name;
        if f < sources.len() {
            assert(sources[f].short_name == name);
        } else {
            assert(!present);
        }
    }
}

} // verus!
