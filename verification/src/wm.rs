//! Window-manager state as the taskbar uses it: workspaces per monitor and
//! the active window.

pub mod detect;
pub mod hyprland;
pub mod state;
pub mod types;
