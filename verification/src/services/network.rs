//! Network status and the state that the taskbar shows for it.

use crate::text::str_eq;
use vstd::prelude::*;

verus! {

/// Kind of the current connection.
#[derive(Clone, Copy, Debug, PartialEq, Eq, Structural)]
pub enum ConnectionType {
    /// No connection.
    Offline,
    Wifi,
    Ethernet,
}

impl Default for ConnectionType {
    fn default() -> (kind: Self)
        ensures
            kind == ConnectionType::Offline,
    {
        ConnectionType::Offline
    }
}

/// Status of the network.
#[derive(Clone, Debug)]
pub struct NetworkStatus {
    /// Whether connected to any network.
    pub connected: bool,
    /// Signal strength of the wireless network in percent, if known.
    pub signal_strength: Option<u8>,
    /// Name of the wireless network.
    pub ssid: Option<String>,
    pub connection_type: ConnectionType,
}

impl NetworkStatus {
    /// Whether this is the status of no connection at all.
    pub open spec fn is_offline(self) -> bool {
        &&& !self.connected
        &&& self.signal_strength is None
        &&& self.ssid is None
        &&& self.connection_type == ConnectionType::Offline
    }

    /// Whether this is the status of a wired connection.
    pub open spec fn is_wired(self) -> bool {
        &&& self.connected
        &&& self.signal_strength is None
        &&& self.ssid is None
        &&& self.connection_type == ConnectionType::Ethernet
    }
}

impl Default for NetworkStatus {
    fn default() -> (status: Self)
        ensures
            status.is_offline(),
    {
        NetworkStatus {
            connected: false,
            signal_strength: None,
            ssid: None,
            connection_type: ConnectionType::Offline,
        }
    }
}

/// What the taskbar shows for the network.
#[derive(Clone, Copy, Debug, PartialEq, Eq, Structural)]
pub enum NetworkIndicator {
    NotConnected,
    Lan,
    Connected0,
    Connected1,
    Connected2,
    Connected3,
    Connected4,
}

/// The indicator of a wireless signal: one of five levels of twenty percent
/// each; the lowest where the strength is not known.
pub open spec fn wifi_indicator(signal: Option<u8>) -> NetworkIndicator {
    match signal {
        None => NetworkIndicator::Connected0,
        Some(s) => if s <= 20 {
            NetworkIndicator::Connected0
        } else if s <= 40 {
            NetworkIndicator::Connected1
        } else if s <= 60 {
            NetworkIndicator::Connected2
        } else if s <= 80 {
            NetworkIndicator::Connected3
        } else {
            NetworkIndicator::Connected4
        },
    }
}

/// The indicator of a status.
pub open spec fn indicator_of(
    connected: bool,
    connection_type: ConnectionType,
    signal: Option<u8>,
) -> NetworkIndicator {
    if !connected {
        NetworkIndicator::NotConnected
    } else {
        match connection_type {
            ConnectionType::Ethernet => NetworkIndicator::Lan,
            ConnectionType::Wifi => wifi_indicator(signal),
            ConnectionType::Offline => NetworkIndicator::NotConnected,
        }
    }
}

/// The indicator of a wireless signal of this strength.
pub fn wifi_signal_to_state(signal: Option<u8>) -> (indicator: NetworkIndicator)
    ensures
        indicator == wifi_indicator(signal),
{
    match signal {
        None => NetworkIndicator::Connected0,
        Some(s) => {
            if s <= 20 {
                NetworkIndicator::Connected0
            } else if s <= 40 {
                NetworkIndicator::Connected1
            } else if s <= 60 {
                NetworkIndicator::Connected2
            } else if s <= 80 {
                NetworkIndicator::Connected3
            } else {
                NetworkIndicator::Connected4
            }
        },
    }
}

/// The indicator that the taskbar shows for `status`.
pub fn status_to_indicator(status: &NetworkStatus) -> (indicator: NetworkIndicator)
    ensures
        indicator == indicator_of(
            status.connected,
            status.connection_type,
            status.signal_strength,
        ),
{
    if !status.connected {
        return NetworkIndicator::NotConnected;
    }
    match status.connection_type {
        ConnectionType::Ethernet => NetworkIndicator::Lan,
        ConnectionType::Wifi => wifi_signal_to_state(status.signal_strength),
        ConnectionType::Offline => NetworkIndicator::NotConnected,
    }
}

/// Kind of a network device.
#[derive(Clone, Copy, Debug, PartialEq, Eq, Structural)]
pub enum DeviceKind {
    Ethernet,
    Wifi,
    Other,
}

/// One network device: its kind, and whether its connection is activated.
#[derive(Clone, Copy, Debug, PartialEq, Eq, Structural)]
pub struct NetworkDevice {
    pub kind: DeviceKind,
    pub activated: bool,
}

/// Whether one of the devices is a wired one with an activated connection.
pub open spec fn has_active_ethernet(devices: Seq<NetworkDevice>) -> bool {
    exists|i: int|
        0 <= i < devices.len() && (#[trigger] devices[i]).kind == DeviceKind::Ethernet
            && devices[i].activated
}

/// The status where no wireless network is connected: wired if a wired
/// device is activated, else offline. `None` stands for a list of devices
/// that could not be had.
pub fn check_ethernet_status(devices: Option<&[NetworkDevice]>) -> (status: NetworkStatus)
    ensures
        match devices {
            Some(list) => if has_active_ethernet(list@) {
                status.is_wired()
            } else {
                status.is_offline()
            },
            None => status.is_offline(),
        },
{
    match devices {
        Some(list) => {
            let mut i: usize = 0;
            while i < list.len()
                invariant
                    i <= list.len(),
                    devices == Some(list),
                    forall|j: int|
                        0 <= j < i ==> !((#[trigger] list@[j]).kind == DeviceKind::Ethernet
                            && list@[j].activated),
                decreases list.len() - i,
            {
                let is_wired = match list[i].kind {
                    DeviceKind::Ethernet => true,
                    _ => false,
                };
                if is_wired && list[i].activated {
                    assert(list@[i as int].kind == DeviceKind::Ethernet && list@[i as int].activated);
                    return NetworkStatus {
                        connected: true,
                        signal_strength: None,
                        ssid: None,
                        connection_type: ConnectionType::Ethernet,
                    };
                }
                i += 1;
            }
            NetworkStatus::default()
        },
        None => NetworkStatus::default(),
    }
}

/// One wireless network in range.
#[derive(Clone, Debug)]
pub struct WifiNetwork {
    pub ssid: String,
    /// Signal strength in percent, if known.
    pub strength: Option<u8>,
}

/// The least index of a network named `ssid`, or the length of the sequence.
pub open spec fn index_of_ssid(networks: Seq<WifiNetwork>, ssid: Seq<char>) -> int
    decreases networks.len(),
{
    if networks.len() == 0 {
        0
    } else if networks[0].ssid@ == ssid {
        0
    } else {
        1 + index_of_ssid(networks.drop_first(), ssid)
    }
}

/// The strength of the first network named `ssid`; none where no network
/// has that name, or the list could not be had.
pub open spec fn strength_of(networks: Option<Seq<WifiNetwork>>, ssid: Seq<char>) -> Option<u8> {
    match networks {
        Some(list) => if index_of_ssid(list, ssid) < list.len() {
            list[index_of_ssid(list, ssid)].strength
        } else {
            None
        },
        None => None,
    }
}

/// `index_of_ssid` is the first index of a network of that name.
proof fn lemma_index_of_ssid(networks: Seq<WifiNetwork>, ssid: Seq<char>, i: int)
    requires
        0 <= i <= networks.len(),
        forall|j: int| 0 <= j < i ==> (#[trigger] networks[j]).ssid@ != ssid,
        i < networks.len() ==> networks[i].ssid@ == ssid,
    ensures
        index_of_ssid(networks, ssid) == i,
    decreases networks.len(),
{
    if networks.len() > 0 && i > 0 {
        assert(networks[0].ssid@ != ssid);
        let rest = networks.drop_first();
        assert forall|j: int| 0 <= j < i - 1 implies (#[trigger] rest[j]).ssid@ != ssid by {
            assert(rest[j] == networks[j + 1]);
        }
        lemma_index_of_ssid(rest, ssid, i - 1);
    }
}

/// The signal strength of the network named `ssid` among those in range.
pub fn get_current_signal_strength(networks: Option<&[WifiNetwork]>, ssid: &str) -> (strength:
    Option<u8>)
    ensures
        strength == strength_of(
            match networks {
                Some(list) => Some(list@),
                None => None,
            },
            ssid@,
        ),
{
    match networks {
        Some(list) => {
            let mut i: usize = 0;
            while i < list.len()
                invariant
                    i <= list.len(),
                    networks == Some(list),
                    forall|j: int| 0 <= j < i ==> (#[trigger] list@[j]).ssid@ != ssid@,
                decreases list.len() - i,
            {
                if str_eq(list[i].ssid.as_str(), ssid) {
                    proof {
                        lemma_index_of_ssid(list@, ssid@, i as int);
                    }
                    return list[i].strength;
                }
                i += 1;
            }
            proof {
                lemma_index_of_ssid(list@, ssid@, i as int);
            }
            None
        },
        None => None,
    }
}

/// The status of a connection to the wireless network named `ssid`.
pub fn wifi_status(ssid: String, networks: Option<&[WifiNetwork]>) -> (status: NetworkStatus)
    ensures
        status.connected,
        status.connection_type == ConnectionType::Wifi,
        status.ssid == Some(ssid),
        status.signal_strength == strength_of(
            match networks {
                Some(list) => Some(list@),
                None => None,
            },
            ssid@,
        ),
{
    let signal_strength = get_current_signal_strength(networks, ssid.as_str());
    NetworkStatus {
        connected: true,
        signal_strength,
        ssid: Some(ssid),
        connection_type: ConnectionType::Wifi,
    }
}

} // verus!
