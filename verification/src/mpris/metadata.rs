//! The metadata map of a player, as plain values, and what a snapshot takes
//! from it. A field that is missing or of another type resolves to its
//! default, never to an error.

use crate::mpris::sources::{short_name_of, PlayerSource};
use crate::mpris::types::{MprisData, PlaybackStatus, SnapshotModel};
use crate::text::{chars_of, str_eq, string_of};
use vstd::prelude::*;

verus! {

/// One element of an array value: a string, or anything else.
#[derive(Clone, Debug)]
pub enum ArrayItem {
    Str(String),
    Other,
}

impl View for ArrayItem {
    type V = Option<Seq<char>>;

    open spec fn view(&self) -> Option<Seq<char>> {
        match *self {
            ArrayItem::Str(s) => Some(s@),
            ArrayItem::Other => None,
        }
    }
}

/// One value of the metadata map, as far as the client reads it.
#[derive(Clone, Debug)]
pub enum MetaValue {
    Str(String),
    I64(i64),
    U64(u64),
    I32(i32),
    U32(u32),
    ObjectPath(String),
    Array(Vec<ArrayItem>),
    /// A value of any other type.
    Other,
}

/// Mathematical model of a `MetaValue`.
pub ghost enum ValueModel {
    Str(Seq<char>),
    I64(i64),
    U64(u64),
    I32(i32),
    U32(u32),
    ObjectPath(Seq<char>),
    Array(Seq<Option<Seq<char>>>),
    Other,
}

impl View for MetaValue {
    type V = ValueModel;

    open spec fn view(&self) -> ValueModel {
        match *self {
            MetaValue::Str(s) => ValueModel::Str(s@),
            MetaValue::I64(i) => ValueModel::I64(i),
            MetaValue::U64(u) => ValueModel::U64(u),
            MetaValue::I32(i) => ValueModel::I32(i),
            MetaValue::U32(u) => ValueModel::U32(u),
            MetaValue::ObjectPath(p) => ValueModel::ObjectPath(p@),
            MetaValue::Array(items) => ValueModel::Array(items@.map_values(|i: ArrayItem| i@)),
            MetaValue::Other => ValueModel::Other,
        }
    }
}

/// The map that a sequence of insertions builds: a later entry replaces an
/// earlier one of the same key.
pub open spec fn entries_map(entries: Seq<(String, MetaValue)>) -> Map<Seq<char>, ValueModel>
    decreases entries.len(),
{
    if entries.len() == 0 {
        Map::empty()
    } else {
        entries_map(entries.drop_last()).insert(entries.last().0@, entries.last().1@)
    }
}

/// The metadata of the current track: a map from keys to values.
#[derive(Clone, Debug)]
pub struct Metadata {
    entries: Vec<(String, MetaValue)>,
}

impl View for Metadata {
    type V = Map<Seq<char>, ValueModel>;

    closed spec fn view(&self) -> Map<Seq<char>, ValueModel> {
        entries_map(self.entries@)
    }
}

impl Metadata {
    /// The empty map.
    pub fn new() -> (metadata: Self)
        ensures
            metadata@ == Map::<Seq<char>, ValueModel>::empty(),
    {
        Metadata { entries: Vec::new() }
    }

    /// Sets the value of `key`, replacing what it had.
    pub fn insert(&mut self, key: String, value: MetaValue)
        ensures
            final(self)@ == old(self)@.insert(key@, value@),
    {
        let ghost before = self.entries@;
        self.entries.push((key, value));
        assert(self.entries@.drop_last() == before);
    }

    /// The value of `key`, if it has one.
    pub fn get(&self, key: &str) -> (value: Option<&MetaValue>)
        ensures
            match value {
                Some(v) => self@.contains_key(key@) && self@[key@] == v@,
                None => !self@.contains_key(key@),
            },
    {
        let mut i: usize = self.entries.len();
        assert(self.entries@.take(i as int) == self.entries@);
        while i > 0
            invariant
                i <= self.entries.len(),
                self@.contains_key(key@) == entries_map(self.entries@.take(i as int)).contains_key(
                    key@,
                ),
                self@.contains_key(key@) ==> self@[key@] == entries_map(
                    self.entries@.take(i as int),
                )[key@],
            decreases i,
        {
            let ghost prefix = self.entries@.take(i as int);
            assert(prefix.drop_last() == self.entries@.take(i - 1));
            assert(prefix.last() == self.entries@[i - 1]);
            i -= 1;
            if str_eq(self.entries[i].0.as_str(), key) {
                return Some(&self.entries[i].1);
            }
        }
        None
    }
}

/// The string under `key`, where the map holds a string there.
pub open spec fn meta_string(metadata: Map<Seq<char>, ValueModel>, key: Seq<char>) -> Option<
    Seq<char>,
> {
    if metadata.contains_key(key) {
        match metadata[key] {
            ValueModel::Str(s) => Some(s),
            _ => None,
        }
    } else {
        None
    }
}

/// The integer under `key`, where the map holds one of the four integer
/// types there; an unsigned 64-bit value is reinterpreted as signed.
pub open spec fn meta_i64(metadata: Map<Seq<char>, ValueModel>, key: Seq<char>) -> Option<i64> {
    if metadata.contains_key(key) {
        match metadata[key] {
            ValueModel::I64(i) => Some(i),
            ValueModel::U64(u) => Some(u as i64),
            ValueModel::I32(i) => Some(i as i64),
            ValueModel::U32(u) => Some(u as i64),
            _ => None,
        }
    } else {
        None
    }
}

/// The strings among the elements of an array, in order.
pub open spec fn strings_among(items: Seq<Option<Seq<char>>>) -> Seq<Seq<char>>
    decreases items.len(),
{
    if items.len() == 0 {
        Seq::empty()
    } else {
        match items.last() {
            Some(s) => strings_among(items.drop_last()).push(s),
            None => strings_among(items.drop_last()),
        }
    }
}

/// The parts, with `sep` between each two of them.
pub open spec fn join(parts: Seq<Seq<char>>, sep: Seq<char>) -> Seq<char>
    decreases parts.len(),
{
    if parts.len() == 0 {
        Seq::empty()
    } else if parts.len() == 1 {
        parts[0]
    } else {
        join(parts.drop_last(), sep) + sep + parts.last()
    }
}

/// The strings of the array under `key`, joined by a comma and a space,
/// where the map holds an array with at least one string there.
pub open spec fn meta_str_array(metadata: Map<Seq<char>, ValueModel>, key: Seq<char>) -> Option<
    Seq<char>,
> {
    if metadata.contains_key(key) {
        match metadata[key] {
            ValueModel::Array(items) => if strings_among(items).len() == 0 {
                None
            } else {
                Some(join(strings_among(items), ", "@))
            },
            _ => None,
        }
    } else {
        None
    }
}

/// The key under which a player gives the identifier of the current track.
pub open spec fn track_id_key() -> Seq<char> {
    "mpris:trackid"@
}

/// The track identifier: the object path or the string under the track-id
/// key.
pub open spec fn meta_track_id(metadata: Map<Seq<char>, ValueModel>) -> Option<Seq<char>> {
    if metadata.contains_key(track_id_key()) {
        match metadata[track_id_key()] {
            ValueModel::ObjectPath(p) => Some(p),
            ValueModel::Str(s) => Some(s),
            _ => None,
        }
    } else {
        None
    }
}

/// The string under `key`.
pub fn extract_string(metadata: &Metadata, key: &str) -> (value: Option<String>)
    ensures
        value.is_some() == meta_string(metadata@, key@).is_some(),
        value matches Some(s) ==> meta_string(metadata@, key@) == Some(s@),
{
    match metadata.get(key) {
        Some(MetaValue::Str(s)) => Some(s.clone()),
        _ => None,
    }
}

/// The integer under `key`.
pub fn extract_i64(metadata: &Metadata, key: &str) -> (value: Option<i64>)
    ensures
        value == meta_i64(metadata@, key@),
{
    match metadata.get(key) {
        Some(MetaValue::I64(i)) => Some(*i),
        Some(MetaValue::U64(u)) => Some(#[verifier::truncate] (*u as i64)),
        Some(MetaValue::I32(i)) => Some(*i as i64),
        Some(MetaValue::U32(u)) => Some(*u as i64),
        _ => None,
    }
}

/// The strings of the array under `key`, joined by a comma and a space.
pub fn extract_str_array(metadata: &Metadata, key: &str) -> (value: Option<String>)
    ensures
        value.is_some() == meta_str_array(metadata@, key@).is_some(),
        value matches Some(s) ==> meta_str_array(metadata@, key@) == Some(s@),
{
    match metadata.get(key) {
        Some(MetaValue::Array(items)) => {
            let ghost models = items@.map_values(|i: ArrayItem| i@);
            let mut joined: Vec<char> = Vec::new();
            let mut count: usize = 0;
            let mut i: usize = 0;
            assert(models.take(0) == Seq::<Option<Seq<char>>>::empty());
            while i < items.len()
                invariant
                    i <= items.len(),
                    models == items@.map_values(|i: ArrayItem| i@),
                    count == strings_among(models.take(i as int)).len(),
                    count <= i,
                    joined@ == join(strings_among(models.take(i as int)), ", "@),
                decreases items.len() - i,
            {
                let ghost seen = models.take(i as int);
                let ghost next = models.take(i + 1);
                assert(next.drop_last() == seen);
                assert(next.last() == items@[i as int]@);
                match &items[i] {
                    ArrayItem::Str(s) => {
                        if count > 0 {
                            let mut sep = chars_of(", ");
                            joined.append(&mut sep);
                        }
                        let mut part = chars_of(s.as_str());
                        joined.append(&mut part);
                        count += 1;
                        proof {
                            let parts = strings_among(next);
                            assert(parts.drop_last() == strings_among(seen));
                            assert(parts.last() == s@);
                            if count == 1 {
                                assert(joined@ == s@);
                                assert(parts[0] == s@);
                            }
                        }
                    },
                    ArrayItem::Other => {},
                }
                i += 1;
            }
            assert(models.take(items.len() as int) == models);
            if count == 0 {
                None
            } else {
                Some(string_of(joined.as_slice()))
            }
        },
        _ => None,
    }
}

/// The identifier of the current track.
pub fn extract_track_id(metadata: &Metadata) -> (value: Option<String>)
    ensures
        value.is_some() == meta_track_id(metadata@).is_some(),
        value matches Some(s) ==> meta_track_id(metadata@) == Some(s@),
{
    match metadata.get("mpris:trackid") {
        Some(MetaValue::ObjectPath(p)) => Some(p.clone()),
        Some(MetaValue::Str(s)) => Some(s.clone()),
        _ => None,
    }
}

/// The text of an optional string, empty where there is none.
pub open spec fn text_or_empty(value: Option<Seq<char>>) -> Seq<char> {
    match value {
        Some(s) => s,
        None => Seq::empty(),
    }
}

/// The snapshot that one round of queries gives. `metadata`, `status` and
/// `position_us` are what the three queries returned; `now_ms` is the time of
/// the fetch. A field that the metadata lacks is empty or zero, and a status
/// that is not a known word is `Stopped`.
pub open spec fn snapshot_of(
    bus_name: Seq<char>,
    metadata: Map<Seq<char>, ValueModel>,
    status: Seq<char>,
    position_us: int,
    now_ms: int,
) -> SnapshotModel {
    SnapshotModel {
        title: text_or_empty(meta_string(metadata, "xesam:title"@)),
        artist: text_or_empty(meta_str_array(metadata, "xesam:artist"@)),
        album: text_or_empty(meta_string(metadata, "xesam:album"@)),
        art_url: text_or_empty(meta_string(metadata, "mpris:artUrl"@)),
        length_us: match meta_i64(metadata, "mpris:length"@) {
            Some(length) => length as int,
            None => 0,
        },
        status: PlaybackStatus::parse(status),
        track_id: meta_track_id(metadata),
        position_us,
        position_timestamp_ms: now_ms,
        source_name: short_name_of(bus_name),
        source_bus_name: bus_name,
    }
}

/// What a failed query counts as: an empty map, an empty status, position
/// zero, time zero.
pub open spec fn snapshot_of_fetch(
    bus_name: Seq<char>,
    metadata: Option<Metadata>,
    status: Option<String>,
    position_us: Option<i64>,
    now_ms: Option<u64>,
) -> SnapshotModel {
    snapshot_of(
        bus_name,
        match metadata {
            Some(m) => m@,
            None => Map::empty(),
        },
        match status {
            Some(s) => s@,
            None => Seq::empty(),
        },
        match position_us {
            Some(p) => p as int,
            None => 0,
        },
        match now_ms {
            Some(t) => t as int,
            None => 0,
        },
    )
}

/// An optional string, or the empty string.
fn unwrap_text(value: Option<String>) -> (text: String)
    ensures
        text@ == text_or_empty(
            match value {
                Some(s) => Some(s@),
                None => None,
            },
        ),
{
    match value {
        Some(s) => s,
        None => String::new(),
    }
}

/// Builds the snapshot of one full fetch from what the three queries
/// returned (`None` for a query that failed) and the time of the fetch
/// (`None` where the clock could not be read).
pub fn build_snapshot(
    bus_name: &str,
    metadata: Option<Metadata>,
    status: Option<String>,
    position_us: Option<i64>,
    now_ms: Option<u64>,
) -> (data: MprisData)
    ensures
        data@ == snapshot_of_fetch(bus_name@, metadata, status, position_us, now_ms),
{
    let metadata = match metadata {
        Some(m) => m,
        None => Metadata::new(),
    };
    let status = match status {
        Some(s) => s,
        None => String::new(),
    };
    let position_us: i64 = match position_us {
        Some(p) => p,
        None => 0,
    };
    let now_ms: u64 = match now_ms {
        Some(t) => t,
        None => 0,
    };
    let length_us: i64 = match extract_i64(&metadata, "mpris:length") {
        Some(length) => length,
        None => 0,
    };
    let bus = chars_of(bus_name);
    MprisData {
        title: unwrap_text(extract_string(&metadata, "xesam:title")),
        artist: unwrap_text(extract_str_array(&metadata, "xesam:artist")),
        album: unwrap_text(extract_string(&metadata, "xesam:album")),
        art_url: unwrap_text(extract_string(&metadata, "mpris:artUrl")),
        length_us,
        status: PlaybackStatus::from_str(status.as_str()),
        track_id: extract_track_id(&metadata),
        position_us,
        position_timestamp_ms: now_ms,
        source_name: PlayerSource::extract_short_name(bus_name),
        source_bus_name: string_of(bus.as_slice()),
    }
}

} // verus!
