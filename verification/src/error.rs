//! The two ways in which sandboxing or auditing a command can fail.

use vstd::prelude::*;
use vstd::string::StringExecFns;

verus! {

/// A failure of the requested operation. Neither kind is ever downgraded to
/// running the command without its sandbox.
#[derive(Debug, Clone, PartialEq, Eq)]
pub enum Error {
    /// Restriction or auditing was asked for and the platform cannot give it.
    Configuration { message: String },
    /// An external program could not be run.
    CommandExecution { command: String, args: Vec<String>, message: String, exit_code: Option<i32> },
}

impl Error {
    /// A configuration error with the given message.
    pub fn configuration(message: String) -> (e: Error)
        ensures
            e == (Error::Configuration { message }),
    {
        Error::Configuration { message }
    }

    /// A command execution error for `command`, run with `args`.
    pub fn command_execution(
        command: &str,
        args: Vec<String>,
        message: String,
        exit_code: Option<i32>,
    ) -> (e: Error)
        ensures
            e matches Error::CommandExecution { command: c, args: a, message: m, exit_code: x }
                && c@ == command@ && a == args && m == message && x == exit_code,
    {
        Error::CommandExecution { command: String::from_str(command), args, message, exit_code }
    }

    /// The text of the error's message.
    pub open spec fn message_text(self) -> Seq<char> {
        match self {
            Error::Configuration { message } => message@,
            Error::CommandExecution { message, .. } => message@,
        }
    }

    /// The error's message.
    pub fn message(&self) -> (m: String)
        ensures
            m@ == self.message_text(),
    {
        match self {
            Error::Configuration { message } => message.clone(),
            Error::CommandExecution { message, .. } => message.clone(),
        }
    }

    /// Whether this is a configuration error.
    pub fn is_configuration(&self) -> (b: bool)
        ensures
            b == (self is Configuration),
    {
        match self {
            Error::Configuration { .. } => true,
            Error::CommandExecution { .. } => false,
        }
    }
}

} // verus!
