//! Bluetooth status and the state that the taskbar shows for it.

use vstd::prelude::*;

verus! {

/// Status of the bluetooth adapter.
#[derive(Clone, Debug)]
pub struct BluetoothStatus {
    /// Whether the adapter is powered on.
    pub powered: bool,
    /// Number of connected devices.
    pub connected_devices: u32,
    /// Whether discovery is active.
    pub discovering: bool,
    /// Name of the adapter.
    pub adapter_name: Option<String>,
}

impl Default for BluetoothStatus {
    fn default() -> (status: Self)
        ensures
            !status.powered,
            status.connected_devices == 0,
            !status.discovering,
            status.adapter_name is None,
    {
        BluetoothStatus {
            powered: false,
            connected_devices: 0,
            discovering: false,
            adapter_name: None,
        }
    }
}

/// What the taskbar shows for the adapter.
#[derive(Clone, Copy, Debug, PartialEq, Eq, Structural)]
pub enum BluetoothIndicator {
    Off,
    On,
    Connected,
    Searching,
}

/// The indicator of a status: off without power; else connected if a device
/// is connected; else searching during discovery; else on.
pub open spec fn indicator_of(powered: bool, connected_devices: int, discovering: bool)
    -> BluetoothIndicator {
    if !powered {
        BluetoothIndicator::Off
    } else if connected_devices > 0 {
        BluetoothIndicator::Connected
    } else if discovering {
        BluetoothIndicator::Searching
    } else {
        BluetoothIndicator::On
    }
}

/// The indicator that the taskbar shows for `status`.
pub fn status_to_indicator(status: &BluetoothStatus) -> (indicator: BluetoothIndicator)
    ensures
        indicator == indicator_of(
            status.powered,
            status.connected_devices as int,
            status.discovering,
        ),
{
    if !status.powered {
        return BluetoothIndicator::Off;
    }
    if status.connected_devices > 0 {
        return BluetoothIndicator::Connected;
    }
    if status.discovering {
        return BluetoothIndicator::Searching;
    }
    BluetoothIndicator::On
}

/// How many of the answers say that the device is connected; a device that
/// did not answer counts as not connected.
pub open spec fn connected_among(answers: Seq<Option<bool>>) -> nat
    decreases answers.len(),
{
    if answers.len() == 0 {
        0
    } else {
        connected_among(answers.drop_last()) + if answers.last() == Some(true) {
            1nat
        } else {
            0nat
        }
    }
}

/// Counts the connected devices among the answers of the known devices.
pub fn count_connected_devices(answers: &[Option<bool>]) -> (count: u32)
    requires
        answers.len() <= u32::MAX,
    ensures
        count == connected_among(answers@),
{
    let mut count: u32 = 0;
    let mut i: usize = 0;
    assert(answers@.take(0) == Seq::<Option<bool>>::empty());
    while i < answers.len()
        invariant
            i <= answers.len() <= u32::MAX,
            count == connected_among(answers@.take(i as int)),
            count <= i,
        decreases answers.len() - i,
    {
        proof {
            assert(answers@.take(i + 1).drop_last() == answers@.take(i as int));
        }
        match answers[i] {
            Some(true) => {
                count += 1;
            },
            _ => {},
        }
        i += 1;
    }
    assert(answers@.take(answers.len() as int) == answers@);
    count
}

/// The status that the adapter's answers give; an answer that failed counts
/// as `false`, a name that failed as no name.
pub fn status_from_queries(
    powered: Option<bool>,
    discovering: Option<bool>,
    adapter_name: Option<String>,
    connected_devices: u32,
) -> (status: BluetoothStatus)
    ensures
        status.powered == (powered == Some(true)),
        status.discovering == (discovering == Some(true)),
        status.adapter_name == adapter_name,
        status.connected_devices == connected_devices,
{
    BluetoothStatus {
        powered: match powered {
            Some(p) => p,
            None => false,
        },
        connected_devices,
        discovering: match discovering {
            Some(d) => d,
            None => false,
        },
        adapter_name,
    }
}

} // verus!
