use capyshell::mpris::art::ArtTracker;
use capyshell::mpris::types::MprisData;
use capyshell::services::battery::{BatteryState, BatteryStatus};
use capyshell::services::bluetooth::{BluetoothIndicator, BluetoothStatus};
use capyshell::services::network::{ConnectionType, NetworkIndicator, NetworkStatus};
use capyshell::services::volume::VolumeStatus;
use capyshell::taskbar::active_window::active_window_to_ui_data;
use capyshell::taskbar::events::{
    dedup_latest, drain_latest, send, send_battery, TaskbarEvent, CHANNEL_CAPACITY, EVENT_KINDS,
};
use capyshell::taskbar::media::{get_or_keep_cached_image, MediaUpdate, SlotAction};
use capyshell::taskbar::view::TaskbarView;
use capyshell::taskbar::workspaces::workspace_to_button;
use capyshell::wm::types::{ActiveWindowInfo, WorkspaceInfo, WorkspaceState, WorkspacesStatus};
use std::path::PathBuf;

fn battery(percentage: i32) -> BatteryStatus {
    BatteryStatus { percentage, state: BatteryState::Bar3, time_remaining: format!("{} left", percentage) }
}

fn volume(volume_percent: i32, muted: bool) -> VolumeStatus {
    VolumeStatus { volume_percent, muted, sink_name: "sink".to_string(), description: "Speakers".to_string() }
}

fn network(strength: u8) -> NetworkStatus {
    NetworkStatus { connected: true, signal_strength: Some(strength), ssid: Some("home".to_string()), connection_type: ConnectionType::Wifi }
}

fn bluetooth(connected_devices: u32) -> BluetoothStatus {
    BluetoothStatus { powered: true, connected_devices, discovering: false, adapter_name: None }
}

fn workspaces(monitor: &str, count: i32) -> WorkspacesStatus {
    WorkspacesStatus {
        monitor_name: monitor.to_string(),
        workspaces: (1..=count)
            .map(|id| WorkspaceInfo {
                id,
                absolute_id: 10 + id,
                state: if id == 2 { WorkspaceState::Active } else { WorkspaceState::Empty },
                icon_path: if id == 2 { Some(PathBuf::from("/icons/app.svg")) } else { None },
                occupied: id == 2,
                app_class: if id == 2 { Some("app".to_string()) } else { None },
            })
            .collect(),
    }
}

fn window(title: &str, monitor: &str) -> ActiveWindowInfo {
    ActiveWindowInfo {
        address: "0x55".to_string(),
        app: "firefox".to_string(),
        window_title: title.to_string(),
        icon_path: Some(PathBuf::from("/icons/firefox.png")),
        focused_monitor: monitor.to_string(),
    }
}

fn describe(events: &[TaskbarEvent]) -> Vec<String> {
    events
        .iter()
        .map(|e| match e {
            TaskbarEvent::Battery(s) => format!("battery {}", s.percentage),
            TaskbarEvent::Volume(s) => format!("volume {}", s.volume_percent),
            TaskbarEvent::Network(s) => format!("network {:?}", s.signal_strength),
            TaskbarEvent::Bluetooth(s) => format!("bluetooth {}", s.connected_devices),
            TaskbarEvent::Workspaces(s) => format!("workspaces {}", s.monitor_name),
            TaskbarEvent::Mpris(s) => format!("mpris {}", s.data.title),
            TaskbarEvent::ActiveWindow(s) => format!("window {}", s.window_title),
        })
        .collect()
}

#[test]
fn kinds_are_numbered() {
    assert_eq!(CHANNEL_CAPACITY, 64);
    assert_eq!(EVENT_KINDS, 7);
    let events = vec![
        TaskbarEvent::Battery(battery(1)),
        TaskbarEvent::Volume(volume(1, false)),
        TaskbarEvent::Network(network(1)),
        TaskbarEvent::Bluetooth(bluetooth(1)),
        TaskbarEvent::Workspaces(workspaces("m", 1)),
        TaskbarEvent::Mpris(MediaUpdate::default()),
        TaskbarEvent::ActiveWindow(window("t", "m")),
    ];
    let indices: Vec<usize> = events.iter().map(|e| e.variant_index()).collect();
    assert_eq!(indices, vec![0, 1, 2, 3, 4, 5, 6]);
    assert_eq!(TaskbarEvent::Battery(battery(77)).variant_index(), 0);
}

#[test]
fn dedup_keeps_the_latest_of_each_kind_in_order() {
    let events = vec![
        TaskbarEvent::Battery(battery(1)),
        TaskbarEvent::Volume(volume(10, false)),
        TaskbarEvent::Battery(battery(2)),
        TaskbarEvent::Network(network(5)),
        TaskbarEvent::Volume(volume(20, false)),
        TaskbarEvent::Battery(battery(3)),
        TaskbarEvent::Bluetooth(bluetooth(4)),
    ];
    let kept = dedup_latest(events);
    assert_eq!(describe(&kept), vec!["network Some(5)", "volume 20", "battery 3", "bluetooth 4"]);
}

#[test]
fn dedup_of_few_events_changes_nothing() {
    assert!(dedup_latest(Vec::new()).is_empty());
    let one = dedup_latest(vec![TaskbarEvent::Battery(battery(9))]);
    assert_eq!(describe(&one), vec!["battery 9"]);
    let distinct = dedup_latest(vec![
        TaskbarEvent::ActiveWindow(window("a", "m")),
        TaskbarEvent::Battery(battery(9)),
        TaskbarEvent::Workspaces(workspaces("DP-1", 2)),
    ]);
    assert_eq!(describe(&distinct), vec!["window a", "battery 9", "workspaces DP-1"]);
}

#[test]
fn dedup_of_one_kind_keeps_the_last() {
    let kept = dedup_latest((0..100).map(|i| TaskbarEvent::Battery(battery(i))).collect());
    assert_eq!(describe(&kept), vec!["battery 99"]);
}

#[test]
fn drain_takes_everything_and_keeps_the_latest() {
    let (tx, rx) = crossbeam_channel::bounded::<TaskbarEvent>(CHANNEL_CAPACITY);
    assert!(drain_latest(&rx).is_empty());
    send_battery(&tx, battery(1));
    send(&tx, TaskbarEvent::Volume(volume(30, true)));
    send_battery(&tx, battery(2));
    send(&tx, TaskbarEvent::ActiveWindow(window("one", "m")));
    send(&tx, TaskbarEvent::ActiveWindow(window("two", "m")));
    let kept = drain_latest(&rx);
    assert_eq!(describe(&kept), vec!["volume 30", "battery 2", "window two"]);
    assert!(rx.is_empty());
    assert!(drain_latest(&rx).is_empty());
}

#[test]
fn send_drops_what_finds_the_channel_full() {
    let (tx, rx) = crossbeam_channel::bounded::<TaskbarEvent>(2);
    send_battery(&tx, battery(1));
    send(&tx, TaskbarEvent::Volume(volume(1, false)));
    send_battery(&tx, battery(2));
    send(&tx, TaskbarEvent::Network(network(3)));
    assert_eq!(rx.len(), 2);
    let kept = drain_latest(&rx);
    assert_eq!(describe(&kept), vec!["battery 1", "volume 1"]);
    drop(rx);
    send_battery(&tx, battery(3));
}

#[test]
fn drain_after_disconnect_takes_what_is_left() {
    let (tx, rx) = crossbeam_channel::bounded::<TaskbarEvent>(4);
    send_battery(&tx, battery(5));
    drop(tx);
    assert_eq!(describe(&drain_latest(&rx)), vec!["battery 5"]);
    assert!(drain_latest(&rx).is_empty());
}

#[test]
fn view_starts_empty() {
    let ui = TaskbarView::new();
    assert_eq!(ui.volume, 0);
    assert_eq!(ui.bluetooth_state, BluetoothIndicator::Off);
    assert_eq!(ui.network_state, NetworkIndicator::NotConnected);
    assert_eq!(ui.battery_state.state, BatteryState::Unknown);
    assert!(ui.workspaces.is_empty());
    assert!(!ui.active_window.active_monitor);
    assert_eq!(ui.active_window.app, "");
}

#[test]
fn volume_is_shown() {
    let mut ui = TaskbarView::new();
    capyshell::taskbar::volume::update_ui(&mut ui, &volume(130, false));
    assert_eq!(ui.volume, 100);
    capyshell::taskbar::volume::update_ui(&mut ui, &volume(35, false));
    assert_eq!(ui.volume, 35);
    capyshell::taskbar::volume::update_ui(&mut ui, &volume(35, true));
    assert_eq!(ui.volume, 0);
    capyshell::taskbar::volume::update_ui(&mut ui, &volume(-8, false));
    assert_eq!(ui.volume, 0);
    assert_eq!(ui.network_state, NetworkIndicator::NotConnected);
}

#[test]
fn indicators_are_shown() {
    let mut ui = TaskbarView::new();
    capyshell::taskbar::bluetooth::update_ui(&mut ui, &bluetooth(2));
    assert_eq!(ui.bluetooth_state, BluetoothIndicator::Connected);
    capyshell::taskbar::network::update_ui(&mut ui, &network(85));
    assert_eq!(ui.network_state, NetworkIndicator::Connected4);
    assert_eq!(ui.bluetooth_state, BluetoothIndicator::Connected);
    capyshell::taskbar::bluetooth::update_ui(&mut ui, &BluetoothStatus::default());
    assert_eq!(ui.bluetooth_state, BluetoothIndicator::Off);
    capyshell::taskbar::network::update_ui(&mut ui, &NetworkStatus::default());
    assert_eq!(ui.network_state, NetworkIndicator::NotConnected);
}

#[test]
fn battery_is_shown() {
    let mut ui = TaskbarView::new();
    capyshell::taskbar::battery::update_ui(&mut ui, &battery(64));
    assert_eq!(ui.battery_state.percentage, 64);
    assert_eq!(ui.battery_state.state, BatteryState::Bar3);
    assert_eq!(ui.battery_state.time_remaining, "64 left");
    assert_eq!(ui.volume, 0);
}

#[test]
fn workspaces_of_this_monitor_are_shown() {
    let mut ui = TaskbarView::new();
    capyshell::taskbar::workspaces::update_ui(&mut ui, &workspaces("DP-1", 3), "DP-1");
    assert_eq!(ui.workspaces.len(), 3);
    assert_eq!(ui.workspaces[1].id, 2);
    assert_eq!(ui.workspaces[1].absolute_id, 12);
    assert_eq!(ui.workspaces[1].state, WorkspaceState::Active);
    assert_eq!(ui.workspaces[1].icon, Some(PathBuf::from("/icons/app.svg")));
    assert_eq!(ui.workspaces[0].state, WorkspaceState::Empty);
    assert_eq!(ui.workspaces[0].icon, None);
    capyshell::taskbar::workspaces::update_ui(&mut ui, &workspaces("HDMI-1", 5), "DP-1");
    assert_eq!(ui.workspaces.len(), 3);
    capyshell::taskbar::workspaces::update_ui(&mut ui, &workspaces("DP-1", 0), "DP-1");
    assert!(ui.workspaces.is_empty());
}

#[test]
fn workspace_button() {
    let status = workspaces("m", 2);
    let button = workspace_to_button(&status.workspaces[1]);
    assert_eq!(button.id, 2);
    assert_eq!(button.absolute_id, 12);
    assert_eq!(button.state, WorkspaceState::Active);
    assert_eq!(button.icon, Some(PathBuf::from("/icons/app.svg")));
}

#[test]
fn active_window_is_shown() {
    let shown = active_window_to_ui_data(&window("Docs", "DP-1"), "DP-1");
    assert_eq!(shown.app, "firefox");
    assert_eq!(shown.window_title, "Docs");
    assert_eq!(shown.icon, Some(PathBuf::from("/icons/firefox.png")));
    assert!(shown.active_monitor);
    let elsewhere = active_window_to_ui_data(&window("Docs", "DP-1"), "HDMI-1");
    assert!(!elsewhere.active_monitor);
    let mut ui = TaskbarView::new();
    capyshell::taskbar::active_window::update_ui(&mut ui, &window("Mail", "HDMI-1"), "HDMI-1");
    assert_eq!(ui.active_window.window_title, "Mail");
    assert!(ui.active_window.active_monitor);
    capyshell::taskbar::active_window::update_ui(&mut ui, &ActiveWindowInfo::default(), "HDMI-1");
    assert_eq!(ui.active_window.window_title, "");
    assert_eq!(ui.active_window.icon, None);
    assert!(!ui.active_window.active_monitor);
}

#[test]
fn media_updates() {
    let none = MediaUpdate::default();
    assert!(!none.has_media);
    assert!(!none.is_track_change);
    assert_eq!(none.album_art_path, "");
    let mut tracker = ArtTracker::new();
    let mut data = MprisData::default();
    data.title = "Song".to_string();
    data.art_url = "file:///c.png".to_string();
    let art = tracker.on_update(&data.art_url);
    let first = MediaUpdate::immediate(data.clone(), art);
    assert!(first.has_media);
    assert!(first.is_track_change);
    assert_eq!(first.data.title, "Song");
    assert_eq!(first.album_art_path, "");
    let later = MediaUpdate::with_art(data, "a.png".to_string(), "a_blur.png".to_string());
    assert!(later.has_media);
    assert!(!later.is_track_change);
    assert_eq!(later.album_art_path, "a.png");
    assert_eq!(later.blurred_art_path, "a_blur.png");
}

#[test]
fn picture_slots() {
    assert_eq!(get_or_keep_cached_image("/a.png", "/a.png", false), SlotAction::Clear);
    assert_eq!(get_or_keep_cached_image("", "", false), SlotAction::Clear);
    assert_eq!(get_or_keep_cached_image("", "/a.png", true), SlotAction::Keep);
    assert_eq!(get_or_keep_cached_image("", "", true), SlotAction::Keep);
    assert_eq!(get_or_keep_cached_image("/a.png", "/a.png", true), SlotAction::Keep);
    assert_eq!(get_or_keep_cached_image("/b.png", "/a.png", true), SlotAction::Load);
    assert_eq!(get_or_keep_cached_image("/b.png", "", true), SlotAction::Load);
}
