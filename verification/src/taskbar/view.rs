//! What the taskbar shows, as plain values.

use crate::services::battery::{BatteryState, BatteryStatus};
use crate::services::bluetooth::BluetoothIndicator;
use crate::services::network::NetworkIndicator;
use crate::wm::types::WorkspaceState;
use std::path::PathBuf;
use vstd::prelude::*;

verus! {

/// One workspace button.
#[derive(Clone, Debug)]
pub struct WorkspaceData {
    /// Number shown on the button.
    pub id: i32,
    /// Number of the workspace to switch to.
    pub absolute_id: i32,
    pub state: WorkspaceState,
    /// Path of the icon to show, if any.
    pub icon: Option<PathBuf>,
}

/// The display of the active window.
#[derive(Clone, Debug)]
pub struct ActiveWindowData {
    pub app: String,
    pub window_title: String,
    /// Path of the icon to show, if any.
    pub icon: Option<PathBuf>,
    /// Whether the window has the focus on the monitor of this taskbar.
    pub active_monitor: bool,
}

/// Everything that one taskbar shows of the collectors' data.
#[derive(Clone, Debug)]
pub struct TaskbarView {
    /// Volume level, 0 to 100.
    pub volume: i32,
    pub bluetooth_state: BluetoothIndicator,
    pub network_state: NetworkIndicator,
    pub battery_state: BatteryStatus,
    pub workspaces: Vec<WorkspaceData>,
    pub active_window: ActiveWindowData,
}

impl TaskbarView {
    /// The taskbar before any data came.
    pub fn new() -> (ui: Self)
        ensures
            ui.volume == 0,
            ui.bluetooth_state == BluetoothIndicator::Off,
            ui.network_state == NetworkIndicator::NotConnected,
            ui.battery_state.percentage == 0,
            ui.battery_state.state == BatteryState::Unknown,
            ui.battery_state.time_remaining@.len() == 0,
            ui.workspaces@.len() == 0,
            ui.active_window.app@.len() == 0,
            ui.active_window.window_title@.len() == 0,
            ui.active_window.icon is None,
            !ui.active_window.active_monitor,
    {
        TaskbarView {
            volume: 0,
            bluetooth_state: BluetoothIndicator::Off,
            network_state: NetworkIndicator::NotConnected,
            battery_state: BatteryStatus {
                percentage: 0,
                state: BatteryState::Unknown,
                time_remaining: String::new(),
            },
            workspaces: Vec::new(),
            active_window: ActiveWindowData {
                app: String::new(),
                window_title: String::new(),
                icon: None,
                active_monitor: false,
            },
        }
    }
}

} // verus!
