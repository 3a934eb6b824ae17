//! The bridge's error taxonomy.
//!
//! Registration-time errors are fatal at startup (a duplicate command name is
//! a configuration mistake, never silently overwritten); invocation-time
//! errors are recoverable and reported to the caller; a fatal startup error
//! terminates the process.

use vstd::prelude::*;
use vstd::string::StringExecFns;

verus! {

/// Registration failed because the name was already taken.
///
/// Raised by `Registry::register` when the given name is already mapped to a
/// handler. Registration happens only during startup, so this error aborts
/// startup rather than being reported to the UI layer.
#[derive(Debug)]
pub struct DuplicateCommandError {
    /// The name that was registered twice.
    pub name: String,
}

/// An invocation failed; the failure is reported to the caller as a normal
/// failure response and the event loop keeps running.
#[derive(Debug)]
pub enum InvokeError {
    /// The requested name is not in the registry.
    UnknownCommand {
        /// The name the caller asked for.
        name: String,
    },
    /// The handler itself reported a failure; `message` is what it reported.
    CommandExecution {
        /// The handler's own failure report.
        message: String,
    },
}

/// An unrecoverable failure while the runtime was starting up: the process
/// must terminate with a non-zero status and a diagnostic message.
#[derive(Debug)]
pub struct FatalStartupError {
    /// The diagnostic to write to the process's error stream.
    pub message: String,
}

/// The text a `DuplicateCommandError` renders to.
pub open spec fn duplicate_command_text(name: Seq<char>) -> Seq<char> {
    "DuplicateCommandError: "@ + name
}

/// The text an `UnknownCommand` failure renders to.
pub open spec fn unknown_command_text(name: Seq<char>) -> Seq<char> {
    "UnknownCommandError: "@ + name
}

/// The text a `CommandExecution` failure renders to.
pub open spec fn command_execution_text(message: Seq<char>) -> Seq<char> {
    "CommandExecutionError: "@ + message
}

/// The text a `FatalStartupError` renders to.
pub open spec fn fatal_startup_text(message: Seq<char>) -> Seq<char> {
    "FatalStartupError: "@ + message
}

impl DuplicateCommandError {
    /// The human-readable rendering of this error.
    pub fn message(&self) -> (s: String)
        ensures
            s@ == duplicate_command_text(self.name@),
    {
        String::from_str("DuplicateCommandError: ").concat(self.name.as_str())
    }
}

impl InvokeError {
    /// The text this error renders to: the error kind followed by its detail.
    pub open spec fn spec_text(&self) -> Seq<char> {
        match self {
            InvokeError::UnknownCommand { name } => unknown_command_text(name@),
            InvokeError::CommandExecution { message } => command_execution_text(message@),
        }
    }

    /// The human-readable rendering of this error, as it is marshaled back to
    /// the UI layer in a failure response.
    pub fn message(&self) -> (s: String)
        ensures
            s@ == self.spec_text(),
    {
        match self {
            InvokeError::UnknownCommand { name } => {
                String::from_str("UnknownCommandError: ").concat(name.as_str())
            },
            InvokeError::CommandExecution { message } => {
                String::from_str("CommandExecutionError: ").concat(message.as_str())
            },
        }
    }
}

impl FatalStartupError {
    /// The human-readable rendering of this error, the diagnostic written to
    /// the error stream before the process exits with a non-zero status.
    pub fn message(&self) -> (s: String)
        ensures
            s@ == fatal_startup_text(self.message@),
    {
        String::from_str("FatalStartupError: ").concat(self.message.as_str())
    }
}

} // verus!
