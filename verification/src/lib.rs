//! Verified core of a Wayland taskbar shell: the media-player remote-control
//! client (source discovery and ranking, the session state machine, snapshots
//! with position interpolation, the favourite-player preference) together with
//! the decision logic of the status collectors that feed the taskbar.

pub mod apps;
pub mod mpris;
pub mod services;
pub mod strmap;
pub mod taskbar;
pub mod text;
pub mod textops;
pub mod wm;
