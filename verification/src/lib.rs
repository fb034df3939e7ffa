//! Verified core of a small desktop shell: a persistence bridge that
//! saves and loads two JSON documents in the application's private data
//! directory, and a tray controller that maps tray interactions to
//! window visibility changes or process termination.

pub mod store;
pub mod tray;
