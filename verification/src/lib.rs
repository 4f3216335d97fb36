//! Verified core of patch-hub: configuration data, log levels and log
//! bookkeeping, error classification, the terminal UI navigation state
//! machine, and the data kept by the mailing-list, feed and patch caches.

pub mod config;
pub mod text;
pub mod log;
pub mod error;
pub mod lore;
pub mod ui;
pub mod app_state;
pub mod cache;
pub mod state;
