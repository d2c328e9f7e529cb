//! The event and outcome types that flow through the orchestrator.

use vstd::prelude::*;

verus! {

/// What happened to a watched path.
#[derive(Clone, Copy, Debug, PartialEq, Eq, Structural)]
pub enum ChangeKind {
    Modify,
    Create,
    Remove,
    Rename,
}

/// The result of one run of the external build command.
#[derive(Clone, Copy, Debug, PartialEq, Eq, Structural)]
pub enum BuildOutcome {
    Success,
    /// The build command exited with the given non-zero status code.
    Failure(i32),
}

/// One event consumed by the orchestrator, in arrival order.
///
/// `PathChanged` and `ProcessSignal` come from the watcher, `BuildCompleted`
/// from the build supervisor, and `DebounceElapsed` from the debounce timer
/// that the orchestrator itself asked the caller to arm.
#[derive(Debug)]
pub enum WatchEvent {
    /// A filesystem change at `path` of the given kind.
    PathChanged(String, ChangeKind),
    /// A termination request from the operating system.
    ProcessSignal,
    /// The running build finished with the given outcome.
    BuildCompleted(BuildOutcome),
    /// The debounce interval passed with no further qualifying change.
    DebounceElapsed,
}

} // verus!
