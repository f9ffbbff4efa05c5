//! Verified core of OpenSync: the clipboard echo-suppression cache, the
//! session and background-service state of the desktop client, deep-link
//! and device-registration decisions, the in-memory user store of the API
//! server, and the small pieces of text the programs build.

pub mod api;
pub mod cli;
pub mod clipboard;
pub mod deep_link;
pub mod desktop;
pub mod device;
pub mod services;
pub mod socket;
pub mod state;
pub mod storage;
pub mod suppression;
pub mod text;
pub mod tray;
pub mod users;
