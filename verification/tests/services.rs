use capyshell::services::battery::{
    charging_state_from_percentage, default_battery_status, determine_battery_state,
    discharging_state_from_percentage, format_time_remaining, get_status, handle_unknown_state,
    BatteryReading, BatteryState, ChargeState,
};
use capyshell::services::bluetooth::{
    count_connected_devices, status_from_queries, status_to_indicator as bluetooth_indicator,
    BluetoothIndicator, BluetoothStatus,
};
use capyshell::services::network::{
    check_ethernet_status, get_current_signal_strength, status_to_indicator as network_indicator,
    wifi_signal_to_state, wifi_status, ConnectionType, DeviceKind, NetworkDevice,
    NetworkIndicator, NetworkStatus, WifiNetwork,
};
use capyshell::services::system_info::{
    require_cpu, require_disks, require_network, require_processes, require_ram,
    require_temperatures, MetricCategory, RefreshFilter, RequirementTracker, StaticInfo,
};
use capyshell::services::volume::{display_volume, volume_to_percent, VolumeStatus};
use capyshell::services::ServiceStatus;

fn reading(state: ChargeState, percentage: i32) -> BatteryReading {
    BatteryReading { state, percentage, gaining_energy: false, minutes_to_full: None, minutes_to_empty: None }
}

#[test]
fn discharging_thresholds() {
    let expected = [
        (0, BatteryState::Alert),
        (4, BatteryState::Alert),
        (5, BatteryState::Bar0),
        (14, BatteryState::Bar0),
        (15, BatteryState::Bar1),
        (29, BatteryState::Bar1),
        (30, BatteryState::Bar2),
        (44, BatteryState::Bar2),
        (45, BatteryState::Bar3),
        (59, BatteryState::Bar3),
        (60, BatteryState::Bar4),
        (74, BatteryState::Bar4),
        (75, BatteryState::Bar5),
        (89, BatteryState::Bar5),
        (90, BatteryState::Bar6),
        (99, BatteryState::Bar6),
        (100, BatteryState::Full),
        (250, BatteryState::Full),
        (-1, BatteryState::Full),
        (i32::MIN, BatteryState::Full),
        (i32::MAX, BatteryState::Full),
    ];
    for (percentage, state) in expected {
        assert_eq!(discharging_state_from_percentage(percentage), state, "at {}", percentage);
    }
}

#[test]
fn charging_thresholds() {
    let expected = [
        (0, BatteryState::Charging20),
        (25, BatteryState::Charging20),
        (26, BatteryState::Charging30),
        (50, BatteryState::Charging30),
        (51, BatteryState::Charging80),
        (75, BatteryState::Charging80),
        (76, BatteryState::Charging90),
        (99, BatteryState::Charging90),
        (100, BatteryState::ChargingFull),
        (-1, BatteryState::ChargingFull),
        (1000, BatteryState::ChargingFull),
    ];
    for (percentage, state) in expected {
        assert_eq!(charging_state_from_percentage(percentage), state, "at {}", percentage);
    }
}

#[test]
fn unknown_state_goes_by_the_flow_of_energy() {
    assert_eq!(handle_unknown_state(true, 30), BatteryState::Charging30);
    assert_eq!(handle_unknown_state(true, 100), BatteryState::ChargingFull);
    assert_eq!(handle_unknown_state(false, 95), BatteryState::Full);
    assert_eq!(handle_unknown_state(false, 94), BatteryState::Bar6);
    assert_eq!(handle_unknown_state(false, 3), BatteryState::Alert);
}

#[test]
fn state_of_a_reading() {
    assert_eq!(determine_battery_state(&reading(ChargeState::Charging, 60)), BatteryState::Charging80);
    assert_eq!(determine_battery_state(&reading(ChargeState::Full, 12)), BatteryState::Full);
    assert_eq!(determine_battery_state(&reading(ChargeState::Discharging, 12)), BatteryState::Bar0);
    assert_eq!(determine_battery_state(&reading(ChargeState::Empty, 80)), BatteryState::Alert);
    assert_eq!(determine_battery_state(&reading(ChargeState::Unknown, 96)), BatteryState::Full);
    assert_eq!(determine_battery_state(&reading(ChargeState::Other, 50)), BatteryState::Unknown);
    let mut gaining = reading(ChargeState::Unknown, 96);
    gaining.gaining_energy = true;
    assert_eq!(determine_battery_state(&gaining), BatteryState::Charging90);
}

#[test]
fn time_remaining_while_discharging() {
    let mut r = reading(ChargeState::Discharging, 50);
    r.minutes_to_empty = Some(65);
    r.minutes_to_full = Some(1);
    assert_eq!(format_time_remaining(&r), "1:05 remaining");
    r.minutes_to_empty = Some(0);
    assert_eq!(format_time_remaining(&r), "0:00 remaining");
    r.minutes_to_empty = Some(59);
    assert_eq!(format_time_remaining(&r), "0:59 remaining");
    r.minutes_to_empty = Some(600);
    assert_eq!(format_time_remaining(&r), "10:00 remaining");
    r.minutes_to_empty = Some(6009);
    assert_eq!(format_time_remaining(&r), "100:09 remaining");
    r.minutes_to_empty = Some(i32::MAX);
    assert_eq!(format_time_remaining(&r), "35791394:07 remaining");
    r.minutes_to_empty = None;
    assert_eq!(format_time_remaining(&r), "");
}

#[test]
fn time_remaining_while_charging() {
    let mut r = reading(ChargeState::Charging, 50);
    r.minutes_to_full = Some(134);
    r.minutes_to_empty = Some(7);
    assert_eq!(format_time_remaining(&r), "2:14 until charged");
    r.minutes_to_full = None;
    assert_eq!(format_time_remaining(&r), "");
}

#[test]
fn time_remaining_of_negative_minutes() {
    let mut r = reading(ChargeState::Discharging, 50);
    r.minutes_to_empty = Some(-5);
    assert_eq!(format_time_remaining(&r), format!("{}:{:02} remaining", -5 / 60, -5 % 60));
    r.minutes_to_empty = Some(-125);
    assert_eq!(format_time_remaining(&r), format!("{}:{:02} remaining", -125 / 60, -125 % 60));
    r.minutes_to_empty = Some(-60);
    assert_eq!(format_time_remaining(&r), format!("{}:{:02} remaining", -60 / 60, -60 % 60));
    r.minutes_to_empty = Some(i32::MIN);
    assert_eq!(format_time_remaining(&r), format!("{}:{:02} remaining", i32::MIN / 60, i32::MIN % 60));
}

#[test]
fn time_remaining_in_other_states_is_empty() {
    for state in [ChargeState::Full, ChargeState::Empty, ChargeState::Unknown, ChargeState::Other] {
        let mut r = reading(state, 50);
        r.minutes_to_full = Some(10);
        r.minutes_to_empty = Some(10);
        assert_eq!(format_time_remaining(&r), "");
    }
}

#[test]
fn status_of_a_reading_and_of_none() {
    let mut r = reading(ChargeState::Discharging, 42);
    r.minutes_to_empty = Some(75);
    let status = get_status(Some(r));
    assert_eq!(status.percentage, 42);
    assert_eq!(status.state, BatteryState::Bar2);
    assert_eq!(status.time_remaining, "1:15 remaining");
    let none = get_status(None);
    assert_eq!(none.percentage, 0);
    assert_eq!(none.state, BatteryState::Unknown);
    assert_eq!(none.time_remaining, "");
    let default = default_battery_status();
    assert_eq!(default.percentage, 0);
    assert_eq!(default.state, BatteryState::Unknown);
    assert_eq!(default.time_remaining, "");
    assert_eq!(BatteryState::default(), BatteryState::Unknown);
}

fn bluetooth(powered: bool, connected_devices: u32, discovering: bool) -> BluetoothStatus {
    BluetoothStatus { powered, connected_devices, discovering, adapter_name: None }
}

#[test]
fn bluetooth_indicator_states() {
    assert_eq!(bluetooth_indicator(&bluetooth(false, 0, false)), BluetoothIndicator::Off);
    assert_eq!(bluetooth_indicator(&bluetooth(false, 3, true)), BluetoothIndicator::Off);
    assert_eq!(bluetooth_indicator(&bluetooth(true, 1, false)), BluetoothIndicator::Connected);
    assert_eq!(bluetooth_indicator(&bluetooth(true, 2, true)), BluetoothIndicator::Connected);
    assert_eq!(bluetooth_indicator(&bluetooth(true, 0, true)), BluetoothIndicator::Searching);
    assert_eq!(bluetooth_indicator(&bluetooth(true, 0, false)), BluetoothIndicator::On);
}

#[test]
fn bluetooth_default_is_off() {
    let status = BluetoothStatus::default();
    assert!(!status.powered);
    assert_eq!(status.connected_devices, 0);
    assert!(!status.discovering);
    assert_eq!(status.adapter_name, None);
}

#[test]
fn connected_devices_are_counted() {
    assert_eq!(count_connected_devices(&[]), 0);
    assert_eq!(count_connected_devices(&[Some(true)]), 1);
    assert_eq!(count_connected_devices(&[Some(false), None]), 0);
    assert_eq!(count_connected_devices(&[Some(true), None, Some(false), Some(true), Some(true)]), 3);
}

#[test]
fn bluetooth_status_from_queries() {
    let status = status_from_queries(Some(true), None, Some("hci0".to_string()), 2);
    assert!(status.powered);
    assert!(!status.discovering);
    assert_eq!(status.adapter_name, Some("hci0".to_string()));
    assert_eq!(status.connected_devices, 2);
    let failed = status_from_queries(None, Some(true), None, 0);
    assert!(!failed.powered);
    assert!(failed.discovering);
    assert_eq!(failed.adapter_name, None);
}

#[test]
fn wifi_signal_levels() {
    let expected = [
        (None, NetworkIndicator::Connected0),
        (Some(0), NetworkIndicator::Connected0),
        (Some(20), NetworkIndicator::Connected0),
        (Some(21), NetworkIndicator::Connected1),
        (Some(40), NetworkIndicator::Connected1),
        (Some(41), NetworkIndicator::Connected2),
        (Some(60), NetworkIndicator::Connected2),
        (Some(61), NetworkIndicator::Connected3),
        (Some(80), NetworkIndicator::Connected3),
        (Some(81), NetworkIndicator::Connected4),
        (Some(100), NetworkIndicator::Connected4),
        (Some(101), NetworkIndicator::Connected4),
        (Some(255), NetworkIndicator::Connected4),
    ];
    for (signal, indicator) in expected {
        assert_eq!(wifi_signal_to_state(signal), indicator, "at {:?}", signal);
    }
}

#[test]
fn network_indicator_states() {
    let offline = NetworkStatus::default();
    assert!(!offline.connected);
    assert_eq!(offline.connection_type, ConnectionType::Offline);
    assert_eq!(network_indicator(&offline), NetworkIndicator::NotConnected);
    let wired = NetworkStatus { connected: true, signal_strength: None, ssid: None, connection_type: ConnectionType::Ethernet };
    assert_eq!(network_indicator(&wired), NetworkIndicator::Lan);
    let wifi = NetworkStatus { connected: true, signal_strength: Some(55), ssid: Some("home".to_string()), connection_type: ConnectionType::Wifi };
    assert_eq!(network_indicator(&wifi), NetworkIndicator::Connected2);
    let odd = NetworkStatus { connected: true, signal_strength: Some(90), ssid: None, connection_type: ConnectionType::Offline };
    assert_eq!(network_indicator(&odd), NetworkIndicator::NotConnected);
    let down = NetworkStatus { connected: false, signal_strength: Some(90), ssid: None, connection_type: ConnectionType::Wifi };
    assert_eq!(network_indicator(&down), NetworkIndicator::NotConnected);
    assert_eq!(ConnectionType::default(), ConnectionType::Offline);
}

#[test]
fn ethernet_is_found_among_the_devices() {
    let devices = [
        NetworkDevice { kind: DeviceKind::Wifi, activated: true },
        NetworkDevice { kind: DeviceKind::Ethernet, activated: false },
        NetworkDevice { kind: DeviceKind::Other, activated: true },
        NetworkDevice { kind: DeviceKind::Ethernet, activated: true },
    ];
    let status = check_ethernet_status(Some(&devices));
    assert!(status.connected);
    assert_eq!(status.connection_type, ConnectionType::Ethernet);
    assert_eq!(status.signal_strength, None);
    assert_eq!(status.ssid, None);
    let none = check_ethernet_status(Some(&devices[..3]));
    assert!(!none.connected);
    assert_eq!(none.connection_type, ConnectionType::Offline);
    assert!(!check_ethernet_status(Some(&[])).connected);
    assert!(!check_ethernet_status(None).connected);
}

#[test]
fn signal_strength_of_the_current_network() {
    let networks = [
        WifiNetwork { ssid: "cafe".to_string(), strength: Some(30) },
        WifiNetwork { ssid: "home".to_string(), strength: Some(71) },
        WifiNetwork { ssid: "home".to_string(), strength: Some(12) },
        WifiNetwork { ssid: "quiet".to_string(), strength: None },
    ];
    assert_eq!(get_current_signal_strength(Some(&networks), "home"), Some(71));
    assert_eq!(get_current_signal_strength(Some(&networks), "cafe"), Some(30));
    assert_eq!(get_current_signal_strength(Some(&networks), "quiet"), None);
    assert_eq!(get_current_signal_strength(Some(&networks), "Home"), None);
    assert_eq!(get_current_signal_strength(None, "home"), None);
    let status = wifi_status("home".to_string(), Some(&networks));
    assert!(status.connected);
    assert_eq!(status.connection_type, ConnectionType::Wifi);
    assert_eq!(status.ssid, Some("home".to_string()));
    assert_eq!(status.signal_strength, Some(71));
    assert_eq!(network_indicator(&status), NetworkIndicator::Connected3);
}

#[test]
fn raw_volume_in_percent() {
    assert_eq!(volume_to_percent(0), 0);
    assert_eq!(volume_to_percent(65536), 100);
    assert_eq!(volume_to_percent(32768), 50);
    assert_eq!(volume_to_percent(98304), 150);
    assert_eq!(volume_to_percent(327), 0);
    assert_eq!(volume_to_percent(328), 1);
    assert_eq!(volume_to_percent(u32::MAX), 6553600);
}

#[test]
fn raw_volume_is_rounded_to_the_nearest_percent() {
    let mut raw: u32 = 0;
    while raw < 200_000 {
        let by_floats = ((raw as f64 / 65536.0) * 100.0).round() as i32;
        assert_eq!(volume_to_percent(raw), by_floats, "at {}", raw);
        raw += 7;
    }
    for raw in [u32::MAX, u32::MAX - 1, 1 << 31, (1 << 31) + 327, 655, 656, 983, 984] {
        let by_floats = ((raw as f64 / 65536.0) * 100.0).round() as i32;
        assert_eq!(volume_to_percent(raw), by_floats, "at {}", raw);
    }
}

fn volume(volume_percent: i32, muted: bool) -> VolumeStatus {
    VolumeStatus { volume_percent, muted, sink_name: "sink".to_string(), description: "Speakers".to_string() }
}

#[test]
fn shown_volume_is_clamped_and_muted() {
    assert_eq!(display_volume(&volume(40, false)), 40);
    assert_eq!(display_volume(&volume(0, false)), 0);
    assert_eq!(display_volume(&volume(100, false)), 100);
    assert_eq!(display_volume(&volume(150, false)), 100);
    assert_eq!(display_volume(&volume(-3, false)), 0);
    assert_eq!(display_volume(&volume(40, true)), 0);
    assert_eq!(display_volume(&volume(150, true)), 0);
}

#[test]
fn tracker_counts_users() {
    let mut tracker = RequirementTracker::new();
    assert!(tracker.to_filter().nothing_was_refreshed());
    let cpu = require_cpu(&mut tracker);
    let cpu2 = require_cpu(&mut tracker);
    let ram = require_ram(&mut tracker);
    assert_eq!(cpu.category, MetricCategory::Cpu);
    assert_eq!(ram.category, MetricCategory::Ram);
    assert_eq!(tracker.cpu, 2);
    assert_eq!(tracker.ram, 1);
    let filter = tracker.to_filter();
    assert!(filter.cpu && filter.ram);
    assert!(!filter.network && !filter.disks && !filter.process_info && !filter.components_temperature);
    assert!(!filter.nothing_was_refreshed());
    tracker.release(cpu);
    assert!(tracker.to_filter().cpu);
    tracker.release(cpu2);
    assert!(!tracker.to_filter().cpu);
    tracker.release(ram);
    assert!(tracker.to_filter().nothing_was_refreshed());
}

#[test]
fn tracker_has_a_counter_for_each_category() {
    let mut tracker = RequirementTracker::default();
    let handles = vec![
        require_network(&mut tracker),
        require_disks(&mut tracker),
        require_processes(&mut tracker),
        require_temperatures(&mut tracker),
    ];
    assert_eq!((tracker.cpu, tracker.ram), (0, 0));
    assert_eq!((tracker.network, tracker.disks, tracker.processes, tracker.temperatures), (1, 1, 1, 1));
    let filter = tracker.to_filter();
    assert_eq!(
        filter,
        RefreshFilter { cpu: false, ram: false, network: true, disks: true, process_info: true, components_temperature: true }
    );
    for handle in handles {
        tracker.release(handle);
    }
    assert_eq!(tracker.to_filter(), RefreshFilter::default());
}

#[test]
fn tracker_release_never_goes_below_none() {
    let mut tracker = RequirementTracker::new();
    let handle = tracker.acquire(MetricCategory::Disks);
    let mut other = RequirementTracker::new();
    other.release(handle);
    assert_eq!(other.disks, 0);
    assert_eq!(tracker.disks, 1);
}

#[test]
fn filters() {
    let all = RefreshFilter::new();
    assert!(all.cpu && all.ram && all.network && all.disks && all.process_info && all.components_temperature);
    assert!(!all.nothing_was_refreshed());
    assert!(RefreshFilter::default().nothing_was_refreshed());
    let one = RefreshFilter { components_temperature: true, ..RefreshFilter::default() };
    assert!(!one.nothing_was_refreshed());
}

#[test]
fn plain_records() {
    let info = StaticInfo {
        name: "Arch Linux".to_string(),
        kernel: "6.9.1".to_string(),
        os_ver: "rolling".to_string(),
        long_os_ver: "Linux (Arch Linux)".to_string(),
        distribution_id: "arch".to_string(),
        host: "box".to_string(),
        total_mem: 16 << 30,
        cpu_count: 8,
    };
    assert_eq!(info.clone().distribution_id, "arch");
    let status = ServiceStatus { has_battery: true, has_bluetooth: false };
    assert!(status.has_battery && !status.has_bluetooth);
}
