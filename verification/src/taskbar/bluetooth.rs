//! The bluetooth indicator of the taskbar.

use crate::services::bluetooth::{indicator_of, status_to_indicator, BluetoothStatus};
use crate::taskbar::view::TaskbarView;
use vstd::prelude::*;

verus! {

/// Shows a bluetooth status.
pub fn update_ui(ui: &mut TaskbarView, status: &BluetoothStatus)
    ensures
        *final(ui) == (TaskbarView {
            bluetooth_state: indicator_of(
                status.powered,
                status.connected_devices as int,
                status.discovering,
            ),
            ..*old(ui)
        }),
{
    ui.bluetooth_state = status_to_indicator(status);
}

} // verus!
