//! Command-line arguments: the dispatch from the argument list to the
//! operation to perform. Reading the real process arguments and printing
//! usage text happen outside this library.

use crate::errors::UserError;
use crate::text::str_eq;
use vstd::prelude::*;

verus! {

/// the operation the user asked for on the command line
#[derive(Debug, PartialEq, Eq)]
pub enum Command {
    /// normal operation
    Normal,
    /// print the received commands from the pipe
    Debug,
    /// run the given command manually
    Run(String),
    /// create a config file
    Setup,
}

/// whether an argument list is one of the recognized shapes: no subcommand,
/// a bare `debug`/`d` or `setup` subcommand, or `run`/`r` with one argument
pub open spec fn spec_cli_ok(argv: Seq<String>) -> bool {
    ||| argv.len() <= 1
    ||| (argv.len() == 2 && (argv[1]@ == "debug"@ || argv[1]@ == "d"@ || argv[1]@ == "setup"@))
    ||| (argv.len() == 3 && (argv[1]@ == "run"@ || argv[1]@ == "r"@))
}

/// the operation a recognized argument list denotes
pub open spec fn spec_cli_command(argv: Seq<String>) -> Command
    recommends
        spec_cli_ok(argv),
{
    if argv.len() <= 1 {
        Command::Normal
    } else if argv[1]@ == "debug"@ || argv[1]@ == "d"@ {
        Command::Debug
    } else if argv[1]@ == "setup"@ {
        Command::Setup
    } else {
        Command::Run(argv[2])
    }
}

/// decodes a recognized argument list (program name first) into the
/// operation to perform
pub fn parse(argv: Vec<String>) -> (r: Result<Command, UserError>)
    requires
        spec_cli_ok(argv@),
    ensures
        r matches Ok(c) && c == spec_cli_command(argv@),
{
    let mut argv = argv;
    if argv.len() <= 1 {
        return Ok(Command::Normal);
    }
    if str_eq(argv[1].as_str(), "debug") || str_eq(argv[1].as_str(), "d") {
        return Ok(Command::Debug);
    }
    if str_eq(argv[1].as_str(), "setup") {
        return Ok(Command::Setup);
    }
    let run = argv.remove(2);
    Ok(Command::Run(run))
}

} // verus!
