//! The closed set of builtin commands: invocations the shell handles itself
//! instead of spawning an executable.  The set is an explicit enumeration,
//! matched once during dispatch, so that it is exhaustively checked; it is
//! consulted before alias resolution, so a user cannot shadow a builtin
//! with an alias.

use vstd::prelude::*;

use crate::command::{Command, CommandV};

verus! {

/// The builtin operations.
#[derive(Clone, Copy, Debug, PartialEq, Eq, Structural)]
pub enum Builtin {
    /// Change the shell's own working directory.
    Cd,
    /// Set an environment variable of the shell process.
    SetVar,
    /// List all aliases, or define one.
    Alias,
    /// Terminate the shell with status 0.
    Exit,
    /// Copy a variable from another shell instance's environment.
    Copyenv,
    /// Show how another instance's environment differs from this one's.
    Diffenv,
    /// List the other shell instances on this host.
    Pshl,
}

/// Which builtin, if any, a command name denotes.
pub open spec fn sp_classify(name: Seq<char>) -> Option<Builtin> {
    if name == "cd"@ {
        Option::Some(Builtin::Cd)
    } else if name == "set"@ {
        Option::Some(Builtin::SetVar)
    } else if name == "alias"@ {
        Option::Some(Builtin::Alias)
    } else if name == "exit"@ {
        Option::Some(Builtin::Exit)
    } else if name == "copyenv"@ {
        Option::Some(Builtin::Copyenv)
    } else if name == "diffenv"@ {
        Option::Some(Builtin::Diffenv)
    } else if name == "pshl"@ {
        Option::Some(Builtin::Pshl)
    } else {
        Option::None
    }
}

/// Classifies a command name, as [`sp_classify`] describes.
pub fn classify_builtin(name: &String) -> (r: Option<Builtin>)
    ensures
        r == sp_classify(name@),
{
    if name.eq(&String::from_str("cd")) {
        Option::Some(Builtin::Cd)
    } else if name.eq(&String::from_str("set")) {
        Option::Some(Builtin::SetVar)
    } else if name.eq(&String::from_str("alias")) {
        Option::Some(Builtin::Alias)
    } else if name.eq(&String::from_str("exit")) {
        Option::Some(Builtin::Exit)
    } else if name.eq(&String::from_str("copyenv")) {
        Option::Some(Builtin::Copyenv)
    } else if name.eq(&String::from_str("diffenv")) {
        Option::Some(Builtin::Diffenv)
    } else if name.eq(&String::from_str("pshl")) {
        Option::Some(Builtin::Pshl)
    } else {
        Option::None
    }
}

/// Whether a command tree is the bare `exit` invocation.
pub open spec fn sp_is_exit(c: CommandV) -> bool {
    match c {
        CommandV::Simple { command, args } => command == "exit"@,
        _ => false,
    }
}

/// Tells whether running this tree would terminate the shell, as
/// [`sp_is_exit`] describes.
pub fn is_exit(cmd: &Command) -> (r: bool)
    ensures
        r == sp_is_exit(cmd@),
{
    match cmd {
        Command::Simple { command, args } => command.eq(&String::from_str("exit")),
        _ => false,
    }
}

} // verus!
