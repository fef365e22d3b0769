//! The taskbar panel: the events that the collectors send to it, and what
//! it shows of them.

pub mod active_window;
pub mod battery;
pub mod bluetooth;
pub mod events;
pub mod media;
pub mod network;
pub mod view;
pub mod volume;
pub mod workspaces;
