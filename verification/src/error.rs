//! Errors of the p2p subsystem and their ban-score classification.
//!
//! Errors fall in three classes: ignored (neither scored nor fatal), scored
//! (the peer's ban score is increased and the session continues), and fatal
//! (the session terminates).

use vstd::prelude::*;
use crate::types::BlockId;

verus! {

/// Ban score assigned to every scored error.
pub const BAN_SCORE_MISBEHAVIOR: u32 = 100;

/// Which message arrived when it was not expected.
#[derive(Debug, Clone, Copy, PartialEq, Eq, Structural)]
pub enum UnexpectedMessageKind {
    HeadersResponse,
    BlockResponse,
    TransactionAnnouncement,
}

/// A violation of the sync protocol by the remote peer.
#[derive(Debug, Clone, Copy, PartialEq, Eq, Structural)]
pub enum ProtocolError {
    /// A locator longer than the allowed maximum: actual size, then the bound.
    LocatorSizeExceeded(usize, usize),
    /// A header list longer than the allowed maximum: actual size, then the bound.
    HeadersLimitExceeded(usize, usize),
    /// Headers that do not form a chain connected to a known block.
    DisconnectedHeaders,
    /// A block list request with no ids in it.
    ZeroBlocksInRequest,
    /// A block list request over the outstanding-blocks bound: total, then the bound.
    BlocksRequestLimitExceeded(usize, usize),
    /// A request for a block this node does not have.
    UnknownBlockRequested(BlockId),
    /// A request for a block the peer has already been sent.
    DuplicatedBlockRequest(BlockId),
    /// A message that the session cannot accept in its current state.
    UnexpectedMessage(UnexpectedMessageKind),
}

/// A failure of a block's stateless validity checks.
#[derive(Debug, Clone, Copy, PartialEq, Eq, Structural)]
pub enum CheckBlockError {
    /// The block's timestamp does not come after its parent's.
    BlockTimeOrderInvalid,
}

/// An error from processing a block.
#[derive(Debug, Clone, Copy, PartialEq, Eq, Structural)]
pub enum BlockError {
    /// The block is already part of the chain.
    BlockAlreadyExists(BlockId),
    /// The block failed its stateless validity checks.
    CheckBlockFailed(CheckBlockError),
    /// The block's parent is not known to the chainstate.
    PrevBlockNotFound(BlockId),
}

/// An error reported by the chainstate.
#[derive(Debug, Clone, Copy, PartialEq, Eq, Structural)]
pub enum ChainstateError {
    ProcessBlockError(BlockError),
}

/// An error raised while validating a transaction for the mempool.
#[derive(Debug, Clone, Copy, PartialEq, Eq, Structural)]
pub enum TxValidationError {
    TransactionAlreadyInMempool,
    InvalidTransaction,
}

/// An error reported by the mempool.
#[derive(Debug, Clone, Copy, PartialEq, Eq, Structural)]
pub enum MempoolError {
    MempoolFull,
    TxValidationError(TxValidationError),
}

/// An error concerning a particular peer.
#[derive(Debug, Clone, Copy, PartialEq, Eq, Structural)]
pub enum PeerError {
    /// The peer is not connected (a race with disconnection).
    PeerDoesntExist,
    /// The peer is already registered.
    PeerAlreadyExists,
}

/// The p2p subsystem error type.
#[derive(Debug, Clone, Copy, PartialEq, Eq, Structural)]
pub enum P2pError {
    ProtocolError(ProtocolError),
    PeerError(PeerError),
    MempoolError(MempoolError),
    ChainstateError(ChainstateError),
    /// A channel to another subsystem was closed.
    ChannelClosed,
    /// Another subsystem failed.
    SubsystemFailure,
}

impl P2pError {
    /// The ban score carried by this error: positive exactly for the scored
    /// class (protocol errors, transaction-validation errors, and failed
    /// block checks).
    pub open spec fn spec_ban_score(self) -> u32 {
        match self {
            P2pError::ProtocolError(_) => BAN_SCORE_MISBEHAVIOR,
            P2pError::MempoolError(MempoolError::TxValidationError(_)) => BAN_SCORE_MISBEHAVIOR,
            P2pError::ChainstateError(
                ChainstateError::ProcessBlockError(BlockError::CheckBlockFailed(_)),
            ) => BAN_SCORE_MISBEHAVIOR,
            _ => 0u32,
        }
    }

    /// Computes the ban score of this error.
    pub fn ban_score(&self) -> (r: u32)
        ensures
            r == self.spec_ban_score(),
    {
        match self {
            P2pError::ProtocolError(_) => BAN_SCORE_MISBEHAVIOR,
            P2pError::MempoolError(MempoolError::TxValidationError(_)) => BAN_SCORE_MISBEHAVIOR,
            P2pError::ChainstateError(
                ChainstateError::ProcessBlockError(BlockError::CheckBlockFailed(_)),
            ) => BAN_SCORE_MISBEHAVIOR,
            _ => 0u32,
        }
    }
}

} // verus!
