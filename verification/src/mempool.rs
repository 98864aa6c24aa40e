//! An in-memory model of the mempool, and the origin tracking of
//! transactions.

use vstd::prelude::*;
use crate::error::{MempoolError, TxValidationError};
use crate::types::{PeerId, SignedTransaction, TxId};

verus! {

/// Signifies a transaction that originates in our local node.
#[derive(Debug, Clone, Copy, PartialEq, Eq, PartialOrd, Ord, Structural)]
pub enum LocalTxOrigin {
    /// Submitted to the local node's mempool; not propagated further.
    LocalMempool,
    /// Submitted via the local node's RPC subsystem; propagated if valid.
    LocalP2p,
    /// Was in a block but moved into the mempool upon a reorg.
    PastBlock,
}

impl LocalTxOrigin {
    /// Whether a transaction of this origin is passed on to peers once
    /// accepted: only one submitted through RPC is.
    pub fn should_propagate(self) -> (r: bool)
        ensures
            r == (self == LocalTxOrigin::LocalP2p),
    {
        match self {
            LocalTxOrigin::LocalMempool => false,
            LocalTxOrigin::LocalP2p => true,
            LocalTxOrigin::PastBlock => false,
        }
    }
}

/// Signifies a transaction received from a peer: propagated further if
/// valid, and the peer penalized if not.
#[derive(Debug, Clone, Copy, PartialEq, Eq, PartialOrd, Ord, Structural)]
pub struct RemoteTxOrigin(pub PeerId);

impl RemoteTxOrigin {
    pub fn should_propagate(self) -> (r: bool)
        ensures
            r,
    {
        true
    }

    pub fn peer_id(self) -> (r: PeerId)
        ensures
            r == self.0,
    {
        self.0
    }
}

/// Tracks where a transaction originates.
#[derive(Debug, Clone, Copy, PartialEq, Eq, PartialOrd, Ord, Structural)]
pub enum TxOrigin {
    /// Transaction originates locally.
    Local(LocalTxOrigin),
    /// Transaction was received from a peer.
    Remote(RemoteTxOrigin),
}

impl TxOrigin {
    pub fn peer(peer_id: PeerId) -> (r: Self)
        ensures
            r == TxOrigin::Remote(RemoteTxOrigin(peer_id)),
    {
        TxOrigin::Remote(RemoteTxOrigin(peer_id))
    }

    pub fn local_mempool() -> (r: Self)
        ensures
            r == TxOrigin::Local(LocalTxOrigin::LocalMempool),
    {
        TxOrigin::Local(LocalTxOrigin::LocalMempool)
    }

    pub fn local_p2p() -> (r: Self)
        ensures
            r == TxOrigin::Local(LocalTxOrigin::LocalP2p),
    {
        TxOrigin::Local(LocalTxOrigin::LocalP2p)
    }

    pub fn past_block() -> (r: Self)
        ensures
            r == TxOrigin::Local(LocalTxOrigin::PastBlock),
    {
        TxOrigin::Local(LocalTxOrigin::PastBlock)
    }

    /// Whether a transaction of this origin is passed on to peers once
    /// accepted.
    pub open spec fn spec_should_propagate(self) -> bool {
        match self {
            TxOrigin::Local(origin) => origin == LocalTxOrigin::LocalP2p,
            TxOrigin::Remote(_) => true,
        }
    }

    /// Should this transaction be passed on to peers once accepted?
    pub fn should_propagate(self) -> (r: bool)
        ensures
            r == self.spec_should_propagate(),
    {
        match self {
            TxOrigin::Local(origin) => origin.should_propagate(),
            TxOrigin::Remote(origin) => origin.should_propagate(),
        }
    }
}

impl From<LocalTxOrigin> for TxOrigin {
    fn from(value: LocalTxOrigin) -> (r: Self) {
        TxOrigin::Local(value)
    }
}

impl vstd::std_specs::convert::FromSpecImpl<LocalTxOrigin> for TxOrigin {
    open spec fn obeys_from_spec() -> bool {
        true
    }

    open spec fn from_spec(value: LocalTxOrigin) -> TxOrigin {
        TxOrigin::Local(value)
    }
}

impl From<RemoteTxOrigin> for TxOrigin {
    fn from(value: RemoteTxOrigin) -> (r: Self) {
        TxOrigin::Remote(value)
    }
}

impl vstd::std_specs::convert::FromSpecImpl<RemoteTxOrigin> for TxOrigin {
    open spec fn obeys_from_spec() -> bool {
        true
    }

    open spec fn from_spec(value: RemoteTxOrigin) -> TxOrigin {
        TxOrigin::Remote(value)
    }
}

/// The event the mempool reports after a transaction was processed.
#[derive(Debug, Clone, Copy, PartialEq, Eq)]
pub struct TransactionProcessed {
    pub tx_id: TxId,
    pub origin: TxOrigin,
    /// Whether validation succeeded; an `Err` carries the validation error.
    pub result: Result<(), TxValidationError>,
    /// The ban score of the validation error; 0 on success.
    pub ban_score: u32,
}

/// The mempool: the accepted transactions, and whether it is at capacity.
pub struct Mempool {
    pub txs: Vec<TxId>,
    pub full: bool,
}

/// Whether some transaction of `txs` has the id `id`.
pub open spec fn txs_have_id(txs: Seq<TxId>, id: TxId) -> bool {
    exists|i: int| 0 <= i < txs.len() && txs[i] == id
}

impl Mempool {
    pub fn new() -> (r: Self)
        ensures
            r.txs@ == Seq::<TxId>::empty(),
            !r.full,
    {
        Mempool { txs: Vec::new(), full: false }
    }

    /// Whether a transaction with this id has been accepted.
    pub fn contains_transaction(&self, id: &TxId) -> (r: bool)
        ensures
            r == txs_have_id(self.txs@, *id),
    {
        let n = self.txs.len();
        let mut i: usize = 0;
        while i < n
            invariant
                n == self.txs@.len(),
                0 <= i <= n,
                forall|j: int| 0 <= j < i ==> self.txs@[j] != *id,
            decreases n - i,
        {
            if self.txs[i] == *id {
                proof {
                    assert(self.txs@[i as int] == *id);
                }
                return true;
            }
            i += 1;
        }
        proof {
            assert(!txs_have_id(self.txs@, *id)) by {
                if txs_have_id(self.txs@, *id) {
                    let k = choose|k: int| 0 <= k < self.txs@.len() && self.txs@[k] == *id;
                    assert(self.txs@[k] != *id);
                }
            }
        }
        false
    }

    /// Admits a transaction.
    ///
    /// A full mempool rejects everything with `MempoolFull`; a transaction
    /// already admitted is rejected as already in the mempool; anything
    /// else is appended.
    pub fn add_transaction(&mut self, tx: SignedTransaction) -> (r: Result<(), MempoolError>)
        ensures
            final(self).full == old(self).full,
            old(self).full ==> r == Result::<(), MempoolError>::Err(MempoolError::MempoolFull)
                && *final(self) == *old(self),
            !old(self).full && txs_have_id(old(self).txs@, tx.id) ==> r == Result::<
                (),
                MempoolError,
            >::Err(
                MempoolError::TxValidationError(TxValidationError::TransactionAlreadyInMempool),
            ) && *final(self) == *old(self),
            !old(self).full && !txs_have_id(old(self).txs@, tx.id) ==> r == Result::<
                (),
                MempoolError,
            >::Ok(()) && final(self).txs@ == old(self).txs@.push(tx.id),
    {
        if self.full {
            return Err(MempoolError::MempoolFull);
        }
        if self.contains_transaction(&tx.id) {
            return Err(
                MempoolError::TxValidationError(TxValidationError::TransactionAlreadyInMempool),
            );
        }
        self.txs.push(tx.id);
        Ok(())
    }

    /// Called when a peer disconnects; this model keeps no per-peer state.
    pub fn notify_peer_disconnected(&mut self, _peer_id: PeerId)
        ensures
            *final(self) == *old(self),
    {
    }
}

} // verus!
