//! The catalog of desktop applications and the lookup of their icons.

pub mod catalog;
pub mod desktop_entry;
pub mod icons;
pub mod settings;
pub mod theme_index;
