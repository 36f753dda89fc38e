//! Decision logic of a desktop launcher shell: its configuration, where its
//! window goes, how it answers the hotkey, the tray and the window system, and
//! which user icons it lists.

pub mod config;
pub mod events;
pub mod icons;
pub mod monitor;
