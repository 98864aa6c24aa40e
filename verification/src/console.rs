//! Commands the wallet command loop hands back to its console.

use vstd::prelude::*;

verus! {

/// What the console should do after a wallet command was handled.
#[derive(Debug, Clone, PartialEq, Eq)]
pub enum ConsoleCommand {
    /// Print this text.
    Print(String),
    /// Clear the screen.
    ClearScreen,
    /// Print the command history.
    PrintHistory,
    /// Clear the command history.
    ClearHistory,
    /// Quit the command loop.
    Exit,
}

impl ConsoleCommand {
    /// Whether this command ends the command loop.
    pub fn is_exit(&self) -> (r: bool)
        ensures
            r == (self == ConsoleCommand::Exit),
    {
        match self {
            ConsoleCommand::Exit => true,
            _ => false,
        }
    }
}

} // verus!
