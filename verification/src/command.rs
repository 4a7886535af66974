//! The subcommand names the dispatcher accepts, and the exit code each
//! subcommand uses when it fails.

use vstd::prelude::*;
use crate::strutil::str_eq;

verus! {

/// A subcommand of the utility, or `Invalid` for an unknown name.
#[derive(Clone, Copy, Debug, PartialEq, Eq, Structural)]
pub enum Command {
    Pwd,
    Echo,
    Touch,
    Mkdir,
    Rmdir,
    Rm,
    Cat,
    Mv,
    Cp,
    Chmod,
    Ln,
    Ls,
    Invalid,
}

/// The subcommand a name stands for.
pub open spec fn spec_parse_command(s: Seq<char>) -> Command {
    if s == "pwd"@ {
        Command::Pwd
    } else if s == "echo"@ {
        Command::Echo
    } else if s == "touch"@ {
        Command::Touch
    } else if s == "mkdir"@ {
        Command::Mkdir
    } else if s == "rmdir"@ {
        Command::Rmdir
    } else if s == "rm"@ {
        Command::Rm
    } else if s == "cat"@ {
        Command::Cat
    } else if s == "mv"@ {
        Command::Mv
    } else if s == "cp"@ {
        Command::Cp
    } else if s == "chmod"@ {
        Command::Chmod
    } else if s == "ln"@ {
        Command::Ln
    } else if s == "ls"@ {
        Command::Ls
    } else {
        Command::Invalid
    }
}

/// Map a name to the subcommand it stands for.
pub fn parse_command(name: &str) -> (r: Command)
    ensures
        r == spec_parse_command(name@),
{
    if str_eq(name, "pwd") {
        Command::Pwd
    } else if str_eq(name, "echo") {
        Command::Echo
    } else if str_eq(name, "touch") {
        Command::Touch
    } else if str_eq(name, "mkdir") {
        Command::Mkdir
    } else if str_eq(name, "rmdir") {
        Command::Rmdir
    } else if str_eq(name, "rm") {
        Command::Rm
    } else if str_eq(name, "cat") {
        Command::Cat
    } else if str_eq(name, "mv") {
        Command::Mv
    } else if str_eq(name, "cp") {
        Command::Cp
    } else if str_eq(name, "chmod") {
        Command::Chmod
    } else if str_eq(name, "ln") {
        Command::Ln
    } else if str_eq(name, "ls") {
        Command::Ls
    } else {
        Command::Invalid
    }
}

/// The exit code a subcommand uses when it fails.
pub open spec fn spec_error_exit_code(c: Command) -> i32 {
    match c {
        Command::Pwd => -10i32,
        Command::Echo => 0i32,
        Command::Touch => -15i32,
        Command::Mkdir => -30i32,
        Command::Rmdir => -60i32,
        Command::Rm => -70i32,
        Command::Cat => -20i32,
        Command::Mv => -40i32,
        Command::Cp => -90i32,
        Command::Chmod => -25i32,
        Command::Ln => -50i32,
        Command::Ls => -80i32,
        Command::Invalid => -1i32,
    }
}

/// The exit code a subcommand uses when it fails: a negative integer of
/// its own for each subcommand that can fail. `echo` has no failure
/// path, so it maps to 0.
pub fn error_exit_code(c: Command) -> (r: i32)
    ensures
        r == spec_error_exit_code(c),
{
    match c {
        Command::Pwd => -10,
        Command::Echo => 0,
        Command::Touch => -15,
        Command::Mkdir => -30,
        Command::Rmdir => -60,
        Command::Rm => -70,
        Command::Cat => -20,
        Command::Mv => -40,
        Command::Cp => -90,
        Command::Chmod => -25,
        Command::Ln => -50,
        Command::Ls => -80,
        Command::Invalid => -1,
    }
}

} // verus!
