//! The failures that the supervisor reports to its callers.

use vstd::prelude::*;
use vstd::string::StringExecFns;

verus! {

/// Why a start, stop or status request failed.
#[derive(Debug, Clone, PartialEq, Eq)]
pub enum SupervisorError {
    /// A start was requested while the slot was taken.
    AlreadyRunning,
    /// No candidate interpreter answered the version check.
    InterpreterNotFound,
    /// The operating system refused to launch the child; holds its words.
    SpawnFailure(String),
    /// The child was gone when the warm-up interval had passed.
    UnexpectedExit,
    /// The lock around the registry was poisoned; holds the lock's words.
    LockFailure(String),
}

pub open spec fn already_running_text() -> Seq<char> {
    "Backend is already running"@
}

pub open spec fn interpreter_not_found_text() -> Seq<char> {
    "Could not find Python installation"@
}

pub open spec fn spawn_failure_prefix() -> Seq<char> {
    "Failed to start backend: "@
}

pub open spec fn unexpected_exit_text() -> Seq<char> {
    "Backend process exited unexpectedly"@
}

impl SupervisorError {
    /// The text shown to the caller for this failure.
    pub open spec fn spec_message(self) -> Seq<char> {
        match self {
            SupervisorError::AlreadyRunning => already_running_text(),
            SupervisorError::InterpreterNotFound => interpreter_not_found_text(),
            SupervisorError::SpawnFailure(cause) => spawn_failure_prefix() + cause@,
            SupervisorError::UnexpectedExit => unexpected_exit_text(),
            SupervisorError::LockFailure(cause) => cause@,
        }
    }

    /// Renders the failure as the descriptive message surfaced to the caller.
    /// A lock failure is passed on word for word.
    pub fn message(&self) -> (text: String)
        ensures
            text@ == self.spec_message(),
    {
        match self {
            SupervisorError::AlreadyRunning => String::from_str("Backend is already running"),
            SupervisorError::InterpreterNotFound => String::from_str(
                "Could not find Python installation",
            ),
            SupervisorError::SpawnFailure(cause) => {
                String::from_str("Failed to start backend: ").concat(cause.as_str())
            },
            SupervisorError::UnexpectedExit => String::from_str(
                "Backend process exited unexpectedly",
            ),
            SupervisorError::LockFailure(cause) => cause.clone(),
        }
    }
}

} // verus!
