//! Plain identifiers and primitives used throughout the node core.
//!
//! Block and transaction identifiers are modelled as opaque 64-bit values;
//! a header carries its own identifier explicitly, so that header chains can
//! be stated and checked without reference to a particular hash function.

use vstd::prelude::*;

verus! {

/// Identifier of a block.
#[derive(Debug, Clone, Copy, PartialEq, Eq, Hash, PartialOrd, Ord, Structural)]
pub struct BlockId(pub u64);

/// Identifier of a transaction.
#[derive(Debug, Clone, Copy, PartialEq, Eq, Hash, PartialOrd, Ord, Structural)]
pub struct TxId(pub u64);

/// Identifier of a connected peer.
#[derive(Debug, Clone, Copy, PartialEq, Eq, Hash, PartialOrd, Ord, Structural)]
pub struct PeerId(pub u64);

/// Height of a block in the main chain; the genesis block has height 0.
#[derive(Debug, Clone, Copy, PartialEq, Eq, Hash, PartialOrd, Ord, Structural)]
pub struct BlockHeight(pub u64);

/// A block header: the block's own id, the id of its predecessor, and its
/// timestamp.
#[derive(Debug, Clone, Copy, PartialEq, Eq, Structural)]
pub struct BlockHeader {
    pub id: BlockId,
    pub prev_id: BlockId,
    pub timestamp: u64,
}

/// A block; only the header matters to the sync protocol.
#[derive(Debug, Clone, Copy, PartialEq, Eq, Structural)]
pub struct Block {
    pub header: BlockHeader,
}

impl Block {
    pub fn get_id(&self) -> (r: BlockId)
        ensures
            r == self.header.id,
    {
        self.header.id
    }
}

/// A transaction signed and ready for relay.
#[derive(Debug, Clone, Copy, PartialEq, Eq, Structural)]
pub struct SignedTransaction {
    pub id: TxId,
}

/// The services both ends of a connection have in common.
#[derive(Debug, Clone, Copy, PartialEq, Eq, Structural)]
pub struct Services {
    pub block_relay: bool,
    pub transaction_relay: bool,
}

/// The protocol versions a session can be negotiated at.
#[derive(Debug, Clone, Copy, PartialEq, Eq, Structural)]
pub enum SupportedProtocolVersion {
    V1,
    V2,
}

} // verus!
