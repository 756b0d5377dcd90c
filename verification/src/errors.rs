//! Error kinds of the library.

use vstd::prelude::*;
use crate::tickets::TicketError;

verus! {

/// A failure inside the sync engine.
#[derive(Clone, Copy, Debug, PartialEq, Eq, Structural)]
pub enum IrohError {
    /// The secret key file holds `found` bytes, not 32. Fatal at startup.
    SecretKeySize { found: usize },
    /// The system's random source gave no bytes.
    RandomSource,
    /// A ticket could not be read.
    TicketFormat(TicketError),
}

/// A handle of the shared state that an operation needs.
#[derive(Clone, Copy, Debug, PartialEq, Eq, Structural)]
pub enum Component {
    Endpoint,
    Blobs,
    Gossip,
}

/// A failure of a command of the host shell.
#[derive(Clone, Copy, Debug, PartialEq, Eq, Structural)]
pub enum CommandError {
    /// The named handle does not exist yet.
    IrohClientNotInitialized(Component),
    /// The file to share does not exist.
    PathError,
    /// The configuration holds no sync folder.
    StoreError,
    /// The configured sync folder is not a string.
    InitializationError,
    /// The gossip ticket could not be read.
    TicketParseError(TicketError),
    /// The sync engine failed.
    IrohError(IrohError),
}

impl CommandError {
    /// The error of a command that failed inside the sync engine.
    pub fn from_iroh(err: IrohError) -> (r: CommandError)
        ensures
            r == CommandError::IrohError(err),
    {
        CommandError::IrohError(err)
    }
}

} // verus!
