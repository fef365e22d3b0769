//! The network indicator of the taskbar.

use crate::services::network::{indicator_of, status_to_indicator, NetworkStatus};
use crate::taskbar::view::TaskbarView;
use vstd::prelude::*;

verus! {

/// Shows a network status.
pub fn update_ui(ui: &mut TaskbarView, status: &NetworkStatus)
    ensures
        *final(ui) == (TaskbarView {
            network_state: indicator_of(
                status.connected,
                status.connection_type,
                status.signal_strength,
            ),
            ..*old(ui)
        }),
{
    ui.network_state = status_to_indicator(status);
}

} // verus!
