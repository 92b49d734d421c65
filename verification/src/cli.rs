//! The command line: which subcommand to run.

use vstd::prelude::*;

verus! {

/// The parsed command line.
#[derive(Debug)]
pub struct Cli {
    pub command: Command,
}

/// The subcommands.
#[derive(Debug, Clone, Copy, PartialEq, Eq, Structural)]
pub enum Command {
    /// Log in to Spotify (PKCE authentication).
    Login,
    /// Interactive TUI (Now Playing dashboard).
    Tui,
}

} // verus!
