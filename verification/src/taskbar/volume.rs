//! The volume level of the taskbar.

use crate::services::volume::{display_volume, shown_volume, VolumeStatus};
use crate::taskbar::view::TaskbarView;
use vstd::prelude::*;

verus! {

/// Shows a volume status: the level is held between 0 and 100, and a muted
/// sink shows none.
pub fn update_ui(ui: &mut TaskbarView, status: &VolumeStatus)
    ensures
        *final(ui) == (TaskbarView {
            volume: shown_volume(status.volume_percent as int, status.muted) as i32,
            ..*old(ui)
        }),
        0 <= final(ui).volume <= 100,
{
    ui.volume = display_volume(status);
}

} // verus!
