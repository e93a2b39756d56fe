//! The commands the bot understands.

use vstd::prelude::*;

verus! {

/// These are the commands that I can understand.
#[derive(Debug, Clone, Copy, PartialEq, Eq)]
pub enum Command {
    /// List existing commands
    Help,
    /// Starting point of the bot
    Start,
    /// Synchronize admins with cache
    Sync,
}

} // verus!
