//! Command router: exact, case-sensitive, whole-string matching of message
//! text against the fixed command table, and the fetch each command needs.

use vstd::prelude::*;
use crate::text::str_eq;

verus! {

/// The fixed command table, plus an explicit "no command" outcome for any
/// other text.
#[derive(Clone, Copy, Debug, PartialEq, Eq, Structural)]
pub enum Command {
    Help,
    Servers,
    Changelog,
    LatestUpdate,
    NoCommand,
}

/// Which remote fetch a command requires before replies can be built.
#[derive(Clone, Copy, Debug, PartialEq, Eq, Structural)]
pub enum FetchNeed {
    NoFetch,
    FetchServers,
    FetchChangelog,
}

/// The command a message text stands for: exact whole-string match,
/// case-sensitive, no arguments, no abbreviation.
pub open spec fn spec_command(s: Seq<char>) -> Command {
    if s == "!help"@ {
        Command::Help
    } else if s == "!servers"@ {
        Command::Servers
    } else if s == "!changelog"@ {
        Command::Changelog
    } else if s == "!latest update"@ {
        Command::LatestUpdate
    } else {
        Command::NoCommand
    }
}

/// Matches message text against the command table.
pub fn parse_command(content: &str) -> (c: Command)
    ensures
        c == spec_command(content@),
{
    if str_eq(content, "!help") {
        Command::Help
    } else if str_eq(content, "!servers") {
        Command::Servers
    } else if str_eq(content, "!changelog") {
        Command::Changelog
    } else if str_eq(content, "!latest update") {
        Command::LatestUpdate
    } else {
        Command::NoCommand
    }
}

/// The fetch a command requires.
pub open spec fn spec_fetch_need(c: Command) -> FetchNeed {
    match c {
        Command::Help => FetchNeed::NoFetch,
        Command::Servers => FetchNeed::FetchServers,
        Command::Changelog => FetchNeed::FetchChangelog,
        Command::LatestUpdate => FetchNeed::FetchChangelog,
        Command::NoCommand => FetchNeed::NoFetch,
    }
}

/// Says which remote endpoint, if any, must be fetched before the replies for
/// a command can be built.
pub fn required_fetch(c: Command) -> (n: FetchNeed)
    ensures
        n == spec_fetch_need(c),
{
    match c {
        Command::Help => FetchNeed::NoFetch,
        Command::Servers => FetchNeed::FetchServers,
        Command::Changelog => FetchNeed::FetchChangelog,
        Command::LatestUpdate => FetchNeed::FetchChangelog,
        Command::NoCommand => FetchNeed::NoFetch,
    }
}

} // verus!
