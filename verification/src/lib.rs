//! A wireless-LAN session and notification engine.
//!
//! The engine keeps the state of one wireless session: whether the native
//! handle is open, which interface was selected, and the table of visible
//! networks. Every operating-system call is made by the embedding program;
//! the engine decides which call is due, and what each outcome does to the
//! session.

pub mod callbacks;
pub mod networking;
pub mod profile_management;
pub mod utils;
pub mod windows_api;
pub mod wlan_api;
pub mod wlan_enums;
pub mod xml;
