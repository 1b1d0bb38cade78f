//! The error taxonomy of the shell.  Every failure the parser, the argument
//! evaluator or the execution engine can report is one of these variants; all
//! of them are recovered at the top of the interactive loop.

use vstd::prelude::*;

verus! {

/// A failure of parsing or of evaluating one command line.
///
/// - `Syntax`: malformed or incomplete input, including trailing text the
///   grammar did not consume.
/// - `UnsetVariable`: a `$NAME` argument referred to an environment variable
///   that is not set; the field holds the variable's name.
/// - `SubcommandFailed`: a nested `$(...)` command exited with a non-zero
///   status while its output was being captured.
/// - `Spawn`: the operating system rejected a process creation; the field
///   holds its message.
/// - `BuiltinArg`: a builtin was invoked with arguments of the wrong arity or
///   shape; the field says which.
/// - `Service`: a query to another shell instance's environment service
///   failed.
/// - `Recursion`: alias expansion re-entered itself more times than the
///   engine's depth bound allows; without the bound such a definition would
///   make evaluation run forever.
/// - `Protocol`: the driver answered an action with an event of the wrong
///   kind; a driver that answers each requested action with its own outcome
///   never produces this.
#[derive(Debug, Clone, PartialEq, Eq)]
pub enum ShellError {
    Syntax,
    UnsetVariable { name: String },
    SubcommandFailed,
    Spawn { message: String },
    BuiltinArg { message: String },
    Service { message: String },
    Recursion,
    Protocol,
}

/// The mathematical shape of a [`ShellError`].
pub enum ShellErrorV {
    Syntax,
    UnsetVariable { name: Seq<char> },
    SubcommandFailed,
    Spawn { message: Seq<char> },
    BuiltinArg { message: Seq<char> },
    Service { message: Seq<char> },
    Recursion,
    Protocol,
}

impl View for ShellError {
    type V = ShellErrorV;

    open spec fn view(&self) -> ShellErrorV {
        match self {
            ShellError::Syntax => ShellErrorV::Syntax,
            ShellError::UnsetVariable { name } => ShellErrorV::UnsetVariable { name: name@ },
            ShellError::SubcommandFailed => ShellErrorV::SubcommandFailed,
            ShellError::Spawn { message } => ShellErrorV::Spawn { message: message@ },
            ShellError::BuiltinArg { message } => ShellErrorV::BuiltinArg { message: message@ },
            ShellError::Service { message } => ShellErrorV::Service { message: message@ },
            ShellError::Recursion => ShellErrorV::Recursion,
            ShellError::Protocol => ShellErrorV::Protocol,
        }
    }
}

impl ShellError {
    /// A short human-readable description, printed by the interactive loop.
    pub fn message(&self) -> (r: String)
        ensures
            r@ == self.spec_message(),
    {
        match self {
            ShellError::Syntax => {
                String::from_str("Syntax error")
            },
            ShellError::UnsetVariable { name } => {
                String::from_str("Unset variable: ").concat(name.as_str())
            },
            ShellError::SubcommandFailed => {
                String::from_str("Error running subcommand")
            },
            ShellError::Spawn { message } => {
                String::from_str("Error spawning process: ").concat(message.as_str())
            },
            ShellError::BuiltinArg { message } => {
                String::from_str("Builtin error: ").concat(message.as_str())
            },
            ShellError::Service { message } => {
                String::from_str("Service error: ").concat(message.as_str())
            },
            ShellError::Recursion => {
                String::from_str("Alias expansion is too deeply nested")
            },
            ShellError::Protocol => {
                String::from_str("Protocol error")
            },
        }
    }

    /// What `message` returns, as a sequence of characters.
    pub open spec fn spec_message(&self) -> Seq<char> {
        match self {
            ShellError::Syntax => "Syntax error"@,
            ShellError::UnsetVariable { name } => "Unset variable: "@ + name@,
            ShellError::SubcommandFailed => "Error running subcommand"@,
            ShellError::Spawn { message } => "Error spawning process: "@ + message@,
            ShellError::BuiltinArg { message } => "Builtin error: "@ + message@,
            ShellError::Service { message } => "Service error: "@ + message@,
            ShellError::Recursion => "Alias expansion is too deeply nested"@,
            ShellError::Protocol => "Protocol error"@,
        }
    }
}

} // verus!
