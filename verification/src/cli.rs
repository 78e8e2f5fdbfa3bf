//! What the command line asks for.

use vstd::prelude::*;
use vstd::string::StringExecFns;
use crate::text::{decimal, decimal_of, same_text};

verus! {

/// What one invocation asks for.
#[derive(Debug, PartialEq, Eq)]
pub enum Command {
    /// Print the usage.
    Help,
    /// Print the version.
    Version,
    /// Print what is known of the installation.
    Environment,
    /// Open the file at this path.
    Open(String),
}

/// What a [`Command`] stands for.
pub enum CommandModel {
    Help,
    Version,
    Environment,
    Open(Seq<char>),
}

impl View for Command {
    type V = CommandModel;

    open spec fn view(&self) -> CommandModel {
        match *self {
            Command::Help => CommandModel::Help,
            Command::Version => CommandModel::Version,
            Command::Environment => CommandModel::Environment,
            Command::Open(path) => CommandModel::Open(path@),
        }
    }
}

/// The command that the first argument names: an option, or else the path
/// of a file to open.
pub open spec fn command_of(arg: Seq<char>) -> CommandModel {
    if arg == "--help"@ {
        CommandModel::Help
    } else if arg == "--version"@ {
        CommandModel::Version
    } else if arg == "--env"@ {
        CommandModel::Environment
    } else {
        CommandModel::Open(arg)
    }
}

/// The complaint about a command that got fewer than `count` arguments.
pub open spec fn too_few_arguments(count: nat) -> Seq<char> {
    "Command requires "@ + decimal_of(count) + " arguments"@
}

/// The usage, line by line.
pub fn cli_usage() -> (r: Vec<&'static str>)
    ensures
        r@.len() == 5,
        r[0]@ == "Usage: bobby <file>"@,
        r[1]@ == ""@,
        r[2]@ == "Options:"@,
        r[3]@ == "    --help, --version, --env"@,
        r[4]@ == ""@,
{
    let mut lines: Vec<&'static str> = Vec::new();
    lines.push("Usage: bobby <file>");
    lines.push("");
    lines.push("Options:");
    lines.push("    --help, --version, --env");
    lines.push("");
    lines
}

/// Checks that `count` arguments at least follow the program's own name,
/// which stands first.
pub fn cli_require_args(count: usize, args: &[String]) -> (r: Result<(), String>)
    requires
        args@.len() >= 1,
    ensures
        match r {
            Ok(()) => args@.len() - 1 >= count,
            Err(e) => args@.len() - 1 < count && e@ == too_few_arguments(count as nat),
        },
{
    if args.len() - 1 < count {
        let mut message = "Command requires ".to_owned();
        message.append(decimal(count as u64).as_str());
        message.append(" arguments");
        return Err(message);
    }
    Ok(())
}

/// The command that the arguments ask for; the first of them is the
/// program's own name. Without an argument after it nothing is asked for.
pub fn cli_parse_args(args: &[String]) -> (r: Result<Command, String>)
    requires
        args@.len() >= 1,
    ensures
        match r {
            Ok(command) => args@.len() >= 2 && command@ == command_of(args@[1]@),
            Err(e) => args@.len() < 2 && e@ == too_few_arguments(1),
        },
{
    match cli_require_args(1, args) {
        Ok(()) => {},
        Err(e) => {
            return Err(e);
        },
    }
    let first = args[1].as_str();
    if same_text(first, "--help") {
        Ok(Command::Help)
    } else if same_text(first, "--version") {
        Ok(Command::Version)
    } else if same_text(first, "--env") {
        Ok(Command::Environment)
    } else {
        Ok(Command::Open(args[1].clone()))
    }
}

} // verus!
