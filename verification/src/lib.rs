//! Decision logic of the `actionbook app` command, which drives Electron
//! desktop applications over the Chrome DevTools Protocol.
//!
//! The library holds what the command decides; the I/O around it (HTTP
//! probes, reading session files, printing) is left to its callers.

pub mod text;
pub mod error;
pub mod apps;
pub mod endpoint;
pub mod json;
pub mod cdp;
pub mod session;
pub mod command;
pub mod report;
