//! Core types of the media-player client: playback status, commands, and the
//! snapshot handed to consumers with its position interpolation.

use crate::text::str_eq;
use std::time::{Duration, SystemTime, UNIX_EPOCH};
use vstd::prelude::*;

verus! {

/// Playback status reported by a player.
#[derive(Clone, Copy, Debug, PartialEq, Eq, Structural)]
pub enum PlaybackStatus {
    Playing,
    Paused,
    Stopped,
}

impl PlaybackStatus {
    /// What a status string of the bus stands for. Anything that is not one
    /// of the two known words is `Stopped`, never `Playing`.
    pub open spec fn parse(s: Seq<char>) -> PlaybackStatus {
        if s == "Playing"@ {
            PlaybackStatus::Playing
        } else if s == "Paused"@ {
            PlaybackStatus::Paused
        } else {
            PlaybackStatus::Stopped
        }
    }

    /// Reads a status string of the bus.
    pub fn from_str(s: &str) -> (status: Self)
        ensures
            status == Self::parse(s@),
    {
        if str_eq(s, "Playing") {
            PlaybackStatus::Playing
        } else if str_eq(s, "Paused") {
            PlaybackStatus::Paused
        } else {
            PlaybackStatus::Stopped
        }
    }

    /// Whether the player is playing.
    pub fn is_playing(&self) -> (playing: bool)
        ensures
            playing == (*self == PlaybackStatus::Playing),
    {
        match self {
            PlaybackStatus::Playing => true,
            _ => false,
        }
    }
}

impl Default for PlaybackStatus {
    fn default() -> (status: Self)
        ensures
            status == PlaybackStatus::Stopped,
    {
        PlaybackStatus::Stopped
    }
}

/// A user intent sent to the session.
#[derive(Clone, Debug)]
pub enum PlayerCommand {
    PlayPause,
    Next,
    Previous,
    /// Relative offset in microseconds.
    Seek(i64),
    /// Absolute position in microseconds.
    SetPosition(i64),
    /// Switch to the source with this short name.
    SwitchSource(String),
    /// Make the source with this short name the favorite.
    SetFavorite(String),
    ClearFavorite,
}

/// Mathematical model of a `PlayerCommand`.
pub ghost enum CommandModel {
    PlayPause,
    Next,
    Previous,
    Seek(int),
    SetPosition(int),
    SwitchSource(Seq<char>),
    SetFavorite(Seq<char>),
    ClearFavorite,
}

impl View for PlayerCommand {
    type V = CommandModel;

    open spec fn view(&self) -> CommandModel {
        match *self {
            PlayerCommand::PlayPause => CommandModel::PlayPause,
            PlayerCommand::Next => CommandModel::Next,
            PlayerCommand::Previous => CommandModel::Previous,
            PlayerCommand::Seek(offset) => CommandModel::Seek(offset as int),
            PlayerCommand::SetPosition(position) => CommandModel::SetPosition(position as int),
            PlayerCommand::SwitchSource(name) => CommandModel::SwitchSource(name@),
            PlayerCommand::SetFavorite(name) => CommandModel::SetFavorite(name@),
            PlayerCommand::ClearFavorite => CommandModel::ClearFavorite,
        }
    }
}

/// The larger of 0 and the smaller of `x` and `upper`.
pub open spec fn clamp_position(x: int, upper: int) -> int {
    let capped = if x < upper {
        x
    } else {
        upper
    };
    if capped < 0 {
        0
    } else {
        capped
    }
}

/// The position to present at wall-clock time `now_ms`, given the position
/// `position_us` that was fetched at `timestamp_ms`. A player that is not
/// playing stays where it was; a playing one has advanced by the time that
/// went by (none, if the clock went backwards), and the result is held between
/// 0 and the track's length.
pub open spec fn interpolate(
    playing: bool,
    position_us: int,
    timestamp_ms: int,
    length_us: int,
    now_ms: int,
) -> int {
    if !playing {
        position_us
    } else {
        let elapsed_ms = if now_ms > timestamp_ms {
            now_ms - timestamp_ms
        } else {
            0
        };
        clamp_position(position_us + elapsed_ms * 1000, length_us)
    }
}

/// State of a player at one fetch, as handed to consumers.
#[derive(Clone, Debug)]
pub struct MprisData {
    pub title: String,
    /// The artists, joined by a comma and a space.
    pub artist: String,
    pub album: String,
    pub art_url: String,
    /// Track duration in microseconds.
    pub length_us: i64,
    pub status: PlaybackStatus,
    /// Opaque identifier of the track, used to address an absolute seek.
    pub track_id: Option<String>,
    /// Last position the bus reported, in microseconds.
    pub position_us: i64,
    /// When that position was fetched, in milliseconds since the Unix epoch.
    pub position_timestamp_ms: u64,
    /// Short name of the source, such as "spotify".
    pub source_name: String,
    /// Full bus name of the source.
    pub source_bus_name: String,
}

/// Mathematical model of an `MprisData`.
pub ghost struct SnapshotModel {
    pub title: Seq<char>,
    pub artist: Seq<char>,
    pub album: Seq<char>,
    pub art_url: Seq<char>,
    pub length_us: int,
    pub status: PlaybackStatus,
    pub track_id: Option<Seq<char>>,
    pub position_us: int,
    pub position_timestamp_ms: int,
    pub source_name: Seq<char>,
    pub source_bus_name: Seq<char>,
}

impl SnapshotModel {
    /// The snapshot before anything was fetched: empty texts, no track,
    /// stopped at zero.
    pub open spec fn empty() -> SnapshotModel {
        SnapshotModel {
            title: Seq::empty(),
            artist: Seq::empty(),
            album: Seq::empty(),
            art_url: Seq::empty(),
            length_us: 0,
            status: PlaybackStatus::Stopped,
            track_id: None,
            position_us: 0,
            position_timestamp_ms: 0,
            source_name: Seq::empty(),
            source_bus_name: Seq::empty(),
        }
    }

    /// The interpolated position of this snapshot at time `now_ms`.
    pub open spec fn position_at(self, now_ms: int) -> int {
        interpolate(
            self.status == PlaybackStatus::Playing,
            self.position_us,
            self.position_timestamp_ms,
            self.length_us,
            now_ms,
        )
    }
}

impl View for MprisData {
    type V = SnapshotModel;

    open spec fn view(&self) -> SnapshotModel {
        SnapshotModel {
            title: self.title@,
            artist: self.artist@,
            album: self.album@,
            art_url: self.art_url@,
            length_us: self.length_us as int,
            status: self.status,
            track_id: match self.track_id {
                Some(id) => Some(id@),
                None => None,
            },
            position_us: self.position_us as int,
            position_timestamp_ms: self.position_timestamp_ms as int,
            source_name: self.source_name@,
            source_bus_name: self.source_bus_name@,
        }
    }
}

impl Default for MprisData {
    fn default() -> (data: Self)
        ensures
            data@ == SnapshotModel::empty(),
    {
        MprisData {
            title: String::new(),
            artist: String::new(),
            album: String::new(),
            art_url: String::new(),
            length_us: 0,
            status: PlaybackStatus::Stopped,
            track_id: None,
            position_us: 0,
            position_timestamp_ms: 0,
            source_name: String::new(),
            source_bus_name: String::new(),
        }
    }
}

/// `std::time::SystemTime`: a reading of the system clock.
#[verifier::external_type_specification]
#[verifier::external_body]
pub struct ExSystemTime(SystemTime);

/// `SystemTime::now` of the standard library: the current reading of the
/// system clock. Nothing is claimed of it.
#[verifier::external_body]
fn clock_now() -> (now: SystemTime) {
    SystemTime::now()
}

/// `SystemTime::duration_since` of the standard library, from the Unix
/// epoch: the time that went by since the epoch, or nothing where the
/// reading lies before it. Nothing is claimed of it.
#[verifier::external_body]
fn since_epoch(reading: &SystemTime) -> (elapsed: Option<Duration>) {
    reading.duration_since(UNIX_EPOCH).ok()
}

/// `Duration::as_millis` of the standard library: the whole milliseconds
/// of a span of time. Nothing is claimed of the number.
#[verifier::external_body]
fn whole_millis(span: &Duration) -> (millis: u128) {
    span.as_millis()
}

/// The milliseconds that went by since the Unix epoch, cut to 64 bits, or
/// nothing where the clock stands before the epoch.
fn unix_time_millis() -> (now: Option<u64>) {
    let reading = clock_now();
    match since_epoch(&reading) {
        Some(elapsed) => Some(#[verifier::truncate] (whole_millis(&elapsed) as u64)),
        None => None,
    }
}

impl MprisData {
    /// The interpolated position, in microseconds, at wall-clock time
    /// `now_ms` (milliseconds since the Unix epoch).
    pub fn interpolated_position_at(&self, now_ms: u64) -> (position: i64)
        ensures
            position == self@.position_at(now_ms as int),
    {
        if !self.status.is_playing() {
            return self.position_us;
        }
        let elapsed_ms: u64 = if now_ms > self.position_timestamp_ms {
            now_ms - self.position_timestamp_ms
        } else {
            0
        };
        let advanced: i128 = self.position_us as i128 + (elapsed_ms as i128) * 1000;
        let capped: i128 = if advanced < self.length_us as i128 {
            advanced
        } else {
            self.length_us as i128
        };
        if capped < 0 {
            0
        } else {
            capped as i64
        }
    }

    /// The interpolated position, in microseconds, at the moment of the call.
    /// Where the clock cannot be read, no time is taken to have gone by.
    pub fn interpolated_position_us(&self) -> (position: i64)
        ensures
            exists|now_ms: u64| position == #[trigger] self@.position_at(now_ms as int),
    {
        let now_ms: u64 = match unix_time_millis() {
            Some(ms) => ms,
            None => self.position_timestamp_ms,
        };
        let position: i64 = self.interpolated_position_at(now_ms);
        assert(position == self@.position_at(now_ms as int));
        position
    }
}

} // verus!
