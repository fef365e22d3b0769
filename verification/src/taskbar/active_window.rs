//! The display of the active window.

use crate::taskbar::view::{ActiveWindowData, TaskbarView};
use crate::text::str_eq;
use crate::wm::types::{clone_path, ActiveWindowInfo};
use vstd::prelude::*;

verus! {

/// What the taskbar on the monitor named `monitor_name` shows of the active
/// window: its application, title and icon, and whether the window has the
/// focus on this monitor.
pub fn active_window_to_ui_data(data: &ActiveWindowInfo, monitor_name: &str) -> (shown:
    ActiveWindowData)
    ensures
        shown.app@ == data.app@,
        shown.window_title@ == data.window_title@,
        shown.icon == data.icon_path,
        shown.active_monitor == (data.focused_monitor@ == monitor_name@),
{
    ActiveWindowData {
        app: data.app.clone(),
        window_title: data.window_title.clone(),
        icon: clone_path(&data.icon_path),
        active_monitor: str_eq(data.focused_monitor.as_str(), monitor_name),
    }
}

/// Shows the active window on the taskbar of the monitor named
/// `monitor_name`.
pub fn update_ui(ui: &mut TaskbarView, data: &ActiveWindowInfo, monitor_name: &str)
    ensures
        final(ui).active_window.app@ == data.app@,
        final(ui).active_window.window_title@ == data.window_title@,
        final(ui).active_window.icon == data.icon_path,
        final(ui).active_window.active_monitor == (data.focused_monitor@ == monitor_name@),
        final(ui).volume == old(ui).volume,
        final(ui).bluetooth_state == old(ui).bluetooth_state,
        final(ui).network_state == old(ui).network_state,
        final(ui).battery_state == old(ui).battery_state,
        final(ui).workspaces == old(ui).workspaces,
{
    ui.active_window = active_window_to_ui_data(data, monitor_name);
}

} // verus!
