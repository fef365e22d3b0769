//! Volume status of the default sink and the level that the taskbar shows.

use vstd::prelude::*;

verus! {

/// Volume status of a sink.
#[derive(Clone, Debug)]
pub struct VolumeStatus {
    /// Volume in percent; above 100 where the sink amplifies.
    pub volume_percent: i32,
    /// Whether the sink is muted.
    pub muted: bool,
    /// Name of the sink.
    pub sink_name: String,
    /// Human-readable description of the sink.
    pub description: String,
}

/// The raw volume that stands for 100 percent.
pub const VOLUME_NORMAL: u32 = 65536;

/// The percentage of a raw volume: the whole number nearest to a hundred
/// times its share of the normal volume, a half counting upwards.
pub open spec fn percent_of_raw(raw: u32) -> int {
    (raw as int * 100 + (VOLUME_NORMAL as int) / 2) / (VOLUME_NORMAL as int)
}

/// Converts a raw volume to percent.
pub fn volume_to_percent(raw: u32) -> (percent: i32)
    ensures
        percent == percent_of_raw(raw),
{
    let scaled: u64 = raw as u64 * 100 + 32768;
    (scaled / 65536) as i32
}

/// The level to show: nothing while muted, else the volume held between 0
/// and 100.
pub open spec fn shown_volume(volume_percent: int, muted: bool) -> int {
    if muted {
        0
    } else if volume_percent < 0 {
        0
    } else if volume_percent > 100 {
        100
    } else {
        volume_percent
    }
}

/// The level that the taskbar shows for `status`.
pub fn display_volume(status: &VolumeStatus) -> (level: i32)
    ensures
        level == shown_volume(status.volume_percent as int, status.muted),
{
    if status.muted {
        0
    } else if status.volume_percent < 0 {
        0
    } else if status.volume_percent > 100 {
        100
    } else {
        status.volume_percent
    }
}

} // verus!
