use capyshell::wm::detect::{detect_wm, wm_from_desktop};
use capyshell::wm::hyprland::{
    get_active_monitor as focused, get_status, init, update_title, ClientInfo, MonitorInfo,
    WindowEvent, WorkspaceCount, MAX_MONITORS, WORKSPACES_PER_MONITOR,
};
use capyshell::wm::state::{
    get_active_monitor, get_active_window, get_workspaces_status, send_event, WmState,
};
use capyshell::wm::types::{
    ActiveWindowInfo, WindowInfo, WmEvent, WmType, WorkspaceInfo, WorkspaceState, WorkspacesStatus,
};
use std::path::PathBuf;

fn monitor(name: &str, focused: bool, active_workspace: i32) -> MonitorInfo {
    MonitorInfo { name: name.to_string(), focused, active_workspace }
}

fn client(workspace: i32, class: &str) -> ClientInfo {
    ClientInfo { workspace, class: class.to_string(), icon_path: Some(PathBuf::from(format!("/icons/{}.svg", class))) }
}

fn window(address: &str, class: &str, title: &str) -> WindowEvent {
    WindowEvent { address: address.to_string(), class: class.to_string(), title: title.to_string() }
}

fn info(address: &str, title: &str, monitor: &str) -> ActiveWindowInfo {
    ActiveWindowInfo {
        address: address.to_string(),
        app: "app".to_string(),
        window_title: title.to_string(),
        icon_path: None,
        focused_monitor: monitor.to_string(),
    }
}

fn status(monitor: &str, ids: &[i32]) -> WorkspacesStatus {
    WorkspacesStatus {
        monitor_name: monitor.to_string(),
        workspaces: ids
            .iter()
            .map(|id| WorkspaceInfo { id: *id, absolute_id: *id, ..WorkspaceInfo::default() })
            .collect(),
    }
}

fn changed(event: Option<WmEvent>) -> ActiveWindowInfo {
    match event {
        Some(WmEvent::ActiveWindowChanged(info)) => info,
        other => panic!("the event is {:?}", other),
    }
}

#[test]
fn test_detect_wm_hyprland_xdg() {
    assert_eq!(detect_wm(Some("Hyprland"), false, false), WmType::Hyprland);
}

#[test]
fn test_detect_wm_unknown() {
    assert_eq!(detect_wm(None, false, false), WmType::Unknown);
}

#[test]
fn desktop_names() {
    assert_eq!(wm_from_desktop("Hyprland"), Some(WmType::Hyprland));
    assert_eq!(wm_from_desktop("HYPRLAND"), Some(WmType::Hyprland));
    assert_eq!(wm_from_desktop("sway"), Some(WmType::Sway));
    assert_eq!(wm_from_desktop("sway:wlroots"), Some(WmType::Sway));
    assert_eq!(wm_from_desktop("Niri"), Some(WmType::Niri));
    assert_eq!(wm_from_desktop("ubuntu:GNOME"), None);
    assert_eq!(wm_from_desktop(""), None);
    assert_eq!(wm_from_desktop("hyprlan"), None);
    assert_eq!(wm_from_desktop("sway-niri-hyprland"), Some(WmType::Hyprland));
    assert_eq!(wm_from_desktop("niri+sway"), Some(WmType::Sway));
}

#[test]
fn detection_order() {
    assert_eq!(detect_wm(Some("sway"), true, false), WmType::Sway);
    assert_eq!(detect_wm(Some("niri"), true, true), WmType::Niri);
    assert_eq!(detect_wm(Some("GNOME"), true, true), WmType::Hyprland);
    assert_eq!(detect_wm(Some("GNOME"), false, true), WmType::Sway);
    assert_eq!(detect_wm(Some("GNOME"), false, false), WmType::Unknown);
    assert_eq!(detect_wm(None, true, false), WmType::Hyprland);
    assert_eq!(detect_wm(None, false, true), WmType::Sway);
}

#[test]
fn names_of_window_managers() {
    assert_eq!(WmType::Hyprland.name(), "Hyprland");
    assert_eq!(WmType::Sway.name(), "Sway");
    assert_eq!(WmType::Niri.name(), "Niri");
    assert_eq!(WmType::Unknown.name(), "Unknown");
}

#[test]
fn defaults() {
    assert_eq!(WorkspaceState::default(), WorkspaceState::Empty);
    let w = WorkspaceInfo::default();
    assert_eq!((w.id, w.absolute_id, w.state, w.occupied), (0, 0, WorkspaceState::Empty, false));
    assert_eq!(w.icon_path, None);
    assert_eq!(w.app_class, None);
    let s = WorkspacesStatus::default();
    assert_eq!(s.monitor_name, "");
    assert!(s.workspaces.is_empty());
    let i = WindowInfo::default();
    assert_eq!(i.id, "");
    assert!(!i.is_active);
    let a = ActiveWindowInfo::default();
    assert_eq!(a.address, "");
    assert_eq!(a.focused_monitor, "");
    assert_eq!(a.icon_path, None);
}

#[test]
fn cache_starts_empty() {
    let state = WmState::new();
    assert_eq!(get_active_window(&state).address, "");
    assert_eq!(get_active_monitor(&state), "");
    let s = get_workspaces_status(&state, "DP-1");
    assert_eq!(s.monitor_name, "DP-1");
    assert!(s.workspaces.is_empty());
}

#[test]
fn cache_takes_workspaces_by_monitor() {
    let mut state = WmState::new();
    send_event(&mut state, WmEvent::WorkspacesChanged(status("DP-1", &[1, 2])));
    send_event(&mut state, WmEvent::WorkspacesChanged(status("HDMI-1", &[11])));
    assert_eq!(get_workspaces_status(&state, "DP-1").workspaces.len(), 2);
    assert_eq!(get_workspaces_status(&state, "HDMI-1").workspaces.len(), 1);
    send_event(&mut state, WmEvent::WorkspacesChanged(status("DP-1", &[1, 2, 3])));
    assert_eq!(get_workspaces_status(&state, "DP-1").workspaces.len(), 3);
    assert_eq!(get_workspaces_status(&state, "HDMI-1").workspaces[0].id, 11);
    assert_eq!(state.workspaces.len(), 2);
    assert!(get_workspaces_status(&state, "eDP-1").workspaces.is_empty());
    assert_eq!(get_workspaces_status(&state, "eDP-1").monitor_name, "eDP-1");
}

#[test]
fn cache_takes_the_active_window() {
    let mut state = WmState::new();
    let passed = send_event(&mut state, WmEvent::ActiveWindowChanged(info("0x1", "Mail", "DP-1")));
    assert!(matches!(passed, WmEvent::ActiveWindowChanged(i) if i.address == "0x1"));
    assert_eq!(get_active_window(&state).window_title, "Mail");
    assert_eq!(get_active_monitor(&state), "DP-1");
    send_event(&mut state, WmEvent::MonitorAdded("HDMI-1".to_string()));
    send_event(&mut state, WmEvent::MonitorRemoved("DP-1".to_string()));
    assert_eq!(get_active_window(&state).window_title, "Mail");
    assert!(state.workspaces.is_empty());
    state.apply(&WmEvent::ActiveWindowChanged(ActiveWindowInfo::default()));
    assert_eq!(get_active_monitor(&state), "");
}

#[test]
fn workspaces_of_the_first_monitor() {
    assert_eq!(WORKSPACES_PER_MONITOR, 10);
    assert!(MAX_MONITORS > 1000);
    let monitors = [monitor("DP-1", true, 3), monitor("HDMI-1", false, 12)];
    let counts = [WorkspaceCount { id: 3, windows: 2 }, WorkspaceCount { id: 5, windows: 0 }, WorkspaceCount { id: 12, windows: 1 }];
    let clients = [client(12, "mpv"), client(3, "firefox"), client(3, "kitty")];
    let s = get_status("DP-1", &monitors, &counts, &clients);
    assert_eq!(s.monitor_name, "DP-1");
    assert_eq!(s.workspaces.len(), 10);
    for (k, w) in s.workspaces.iter().enumerate() {
        assert_eq!(w.id, k as i32 + 1);
        assert_eq!(w.absolute_id, k as i32 + 1);
    }
    let third = &s.workspaces[2];
    assert_eq!(third.state, WorkspaceState::Active);
    assert!(third.occupied);
    assert_eq!(third.app_class, Some("firefox".to_string()));
    assert_eq!(third.icon_path, Some(PathBuf::from("/icons/firefox.svg")));
    let fifth = &s.workspaces[4];
    assert_eq!(fifth.state, WorkspaceState::Empty);
    assert!(!fifth.occupied);
    assert_eq!(fifth.app_class, None);
    assert_eq!(fifth.icon_path, None);
    assert_eq!(s.workspaces[0].state, WorkspaceState::Empty);
}

#[test]
fn workspaces_of_the_second_monitor() {
    let monitors = [monitor("DP-1", true, 3), monitor("HDMI-1", false, 12)];
    let counts = [WorkspaceCount { id: 12, windows: 1 }];
    let clients = [client(12, "mpv")];
    let s = get_status("HDMI-1", &monitors, &counts, &clients);
    assert_eq!(s.workspaces.len(), 10);
    assert_eq!(s.workspaces[0].absolute_id, 11);
    assert_eq!(s.workspaces[9].absolute_id, 20);
    assert_eq!(s.workspaces[9].id, 10);
    let second = &s.workspaces[1];
    assert_eq!(second.absolute_id, 12);
    assert_eq!(second.state, WorkspaceState::Visible);
    assert!(second.occupied);
    assert_eq!(second.app_class, Some("mpv".to_string()));
}

#[test]
fn workspaces_of_an_unlisted_monitor() {
    let monitors = [monitor("DP-1", true, 3)];
    let s = get_status("ghost", &monitors, &[], &[client(3, "firefox")]);
    assert_eq!(s.monitor_name, "ghost");
    assert_eq!(s.workspaces[0].absolute_id, 1);
    assert_eq!(s.workspaces[2].state, WorkspaceState::Empty);
    assert_eq!(s.workspaces[2].app_class, Some("firefox".to_string()));
    assert!(!s.workspaces[2].occupied);
    let empty = get_status("DP-1", &[], &[], &[]);
    assert_eq!(empty.workspaces.len(), 10);
    assert!(empty.workspaces.iter().all(|w| w.state == WorkspaceState::Empty && !w.occupied));
}

#[test]
fn focused_monitor_is_the_first_with_the_focus() {
    assert_eq!(focused(&[monitor("DP-1", false, 1), monitor("HDMI-1", true, 11), monitor("X", true, 21)]), "HDMI-1");
    assert_eq!(focused(&[monitor("DP-1", false, 1)]), "");
    assert_eq!(focused(&[]), "");
}

#[test]
fn initial_active_window() {
    let event = init(Some(window("0xa", "kitty", "shell")), Some(PathBuf::from("/i/kitty.png")), "DP-1".to_string());
    let i = changed(event);
    assert_eq!(i.address, "0xa");
    assert_eq!(i.app, "kitty");
    assert_eq!(i.window_title, "shell");
    assert_eq!(i.icon_path, Some(PathBuf::from("/i/kitty.png")));
    assert_eq!(i.focused_monitor, "DP-1");
    assert!(init(None, None, "DP-1".to_string()).is_none());
}

#[test]
fn change_of_the_active_window() {
    let mut state = WmState::new();
    assert!(capyshell::wm::hyprland::set(&state, None, None, "DP-1".to_string()).is_none());
    let first = capyshell::wm::hyprland::set(&state, Some(window("0xa", "kitty", "shell")), None, "DP-1".to_string());
    let first = changed(first);
    assert_eq!(first.address, "0xa");
    send_event(&mut state, WmEvent::ActiveWindowChanged(first));
    assert!(capyshell::wm::hyprland::set(&state, Some(window("0xa", "kitty", "other title")), None, "DP-1".to_string()).is_none());
    let second = changed(capyshell::wm::hyprland::set(&state, Some(window("0xb", "mpv", "film")), None, "HDMI-1".to_string()));
    assert_eq!(second.app, "mpv");
    assert_eq!(second.focused_monitor, "HDMI-1");
    let gone = changed(capyshell::wm::hyprland::set(&state, None, None, "DP-1".to_string()));
    assert_eq!(gone.address, "");
    assert_eq!(gone.window_title, "");
    assert_eq!(gone.focused_monitor, "");
}

#[test]
fn change_of_the_title() {
    let mut state = WmState::new();
    send_event(&mut state, WmEvent::ActiveWindowChanged(info("0xa", "old", "DP-1")));
    assert!(update_title(&state, "0xb", "new".to_string()).is_none());
    let updated = changed(update_title(&state, "0xa", "new".to_string()));
    assert_eq!(updated.window_title, "new");
    assert_eq!(updated.address, "0xa");
    assert_eq!(updated.app, "app");
    assert_eq!(updated.focused_monitor, "DP-1");
    assert_eq!(get_active_window(&state).window_title, "old");
}
