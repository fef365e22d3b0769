//! Media-player remote control over the session bus: data model, source
//! ranking and selection, and the session state machine.

pub mod art;
pub mod channel;
pub mod client;
pub mod discovery;
pub mod error;
pub mod laws;
pub mod metadata;
pub mod ranking;
pub mod session;
pub mod sources;
pub mod types;
