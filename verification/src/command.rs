//! Shell command plumbing: the named commands the setup flow runs,
//! each serialized to its kebab-case token and handed to `sh -c`
//! together with its arguments. The library builds the exact command
//! line and working directory; the driver spawns the process.

use vstd::prelude::*;
use crate::dirs;

verus! {

/// One shell invocation for the driver: `sh -c <command_line>` in
/// `dir`, either run to completion or left detached.
pub struct Invocation {
    pub command_line: String,
    pub dir: String,
    pub detached: bool,
}

/// A command named by the setup flow.
#[derive(Clone, Copy, Debug, PartialEq, Eq, Structural)]
pub enum Command {
    Alias,
    Git,
    Cargo,
    Solana,
}

/// The command's serialized token: its kebab-case name in double
/// quotes, exactly as the JSON serializer renders the variant.
pub open spec fn spec_serialized_name(c: Command) -> Seq<char> {
    match c {
        Command::Alias => "\"alias\""@,
        Command::Git => "\"git\""@,
        Command::Cargo => "\"cargo\""@,
        Command::Solana => "\"solana\""@,
    }
}

/// The command line handed to the shell: the command token, one
/// space, the arguments.
pub open spec fn spec_command_line(command: Seq<char>, args: Seq<char>) -> Seq<char> {
    command + " "@ + args
}

fn command_line(command: &str, args: &str) -> (r: String)
    ensures
        r@ == spec_command_line(command@, args@),
{
    let s = String::from_str(command);
    let s = s.concat(" ");
    s.concat(args)
}

impl Command {
    /// The command's serialized token.
    pub fn serialized_name(&self) -> (r: &'static str)
        ensures
            r@ == spec_serialized_name(*self),
    {
        match self {
            Command::Alias => "\"alias\"",
            Command::Git => "\"git\"",
            Command::Cargo => "\"cargo\"",
            Command::Solana => "\"solana\"",
        }
    }

    /// The command run with `args` in the repository directory.
    pub fn command(&self, args: &str) -> (r: Invocation)
        ensures
            r.command_line@ == spec_command_line(spec_serialized_name(*self), args@),
            r.dir@ == dirs::spec_repository_path(),
            !r.detached,
    {
        Invocation {
            command_line: command_line(self.serialized_name(), args),
            dir: dirs::repository_path(),
            detached: false,
        }
    }

    /// The command run with `args` in a given directory.
    pub fn command_with_dir(&self, args: &str, dir: &str) -> (r: Invocation)
        ensures
            r.command_line@ == spec_command_line(spec_serialized_name(*self), args@),
            r.dir@ == dir@,
            !r.detached,
    {
        Invocation {
            command_line: command_line(self.serialized_name(), args),
            dir: dir.to_owned(),
            detached: false,
        }
    }

    /// An arbitrary command run with `args` in a given directory.
    pub fn raw_command_with_dir(command: &str, args: &str, dir: &str) -> (r: Invocation)
        ensures
            r.command_line@ == spec_command_line(command@, args@),
            r.dir@ == dir@,
            !r.detached,
    {
        Invocation { command_line: command_line(command, args), dir: dir.to_owned(), detached: false }
    }

    /// An arbitrary command spawned detached, its output discarded.
    pub fn raw_command_detached_with_dir(command: &str, args: &str, dir: &str) -> (r: Invocation)
        ensures
            r.command_line@ == spec_command_line(command@, args@),
            r.dir@ == dir@,
            r.detached,
    {
        Invocation { command_line: command_line(command, args), dir: dir.to_owned(), detached: true }
    }
}

} // verus!
