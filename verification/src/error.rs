//! Errors that the `app` command reports.

use vstd::prelude::*;

verus! {

/// An error of the `app` command.
#[derive(Clone, Debug, PartialEq, Eq)]
pub enum AppError {
    /// A configuration problem: an unknown application, an unusable
    /// endpoint, an unreadable session state.
    ConfigError(String),
    /// A command argument that cannot be used.
    InvalidArgument(String),
    /// No browser or application session is running.
    BrowserNotRunning,
}

} // verus!
