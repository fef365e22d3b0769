//! Decision logic of the status collectors that feed the taskbar: battery,
//! bluetooth, network, volume and the bookkeeping of system metrics.

use vstd::prelude::*;

pub mod battery;
pub mod bluetooth;
pub mod network;
pub mod system_info;
pub mod volume;

verus! {

/// Which of the optional collectors found their hardware, so that the
/// panels show an indicator for it.
#[derive(Clone, Copy, Debug, PartialEq, Eq, Structural)]
pub struct ServiceStatus {
    pub has_battery: bool,
    pub has_bluetooth: bool,
}

} // verus!
