//! The battery display of the taskbar.

use crate::services::battery::BatteryStatus;
use crate::taskbar::view::TaskbarView;
use vstd::prelude::*;

verus! {

/// Shows a battery status.
pub fn update_ui(ui: &mut TaskbarView, status: &BatteryStatus)
    ensures
        final(ui).battery_state.percentage == status.percentage,
        final(ui).battery_state.state == status.state,
        final(ui).battery_state.time_remaining == status.time_remaining,
        final(ui).volume == old(ui).volume,
        final(ui).bluetooth_state == old(ui).bluetooth_state,
        final(ui).network_state == old(ui).network_state,
        final(ui).workspaces == old(ui).workspaces,
        final(ui).active_window == old(ui).active_window,
{
    ui.battery_state = BatteryStatus {
        percentage: status.percentage,
        state: status.state,
        time_remaining: status.time_remaining.clone(),
    };
}

} // verus!
