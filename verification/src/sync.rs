//! The sync manager: it owns the set of connected peers, routes connection
//! events, and fans local events out to every session.
//!
//! Spawning tasks, channels and subscriptions live outside the library; the
//! manager makes every routing and fan-out decision.

use vstd::prelude::*;
use crate::chainstate::Chainstate;
use crate::config::P2pConfig;
use crate::error::{P2pError, PeerError};
use crate::mempool::{Mempool, TransactionProcessed, TxOrigin};
use crate::peer::LocalEvent;
use crate::types::{BlockId, PeerId, Services, SupportedProtocolVersion, TxId};

verus! {

/// A connection event delivered to the sync manager by the networking
/// service.
#[derive(Debug, Clone, Copy, PartialEq, Eq, Structural)]
pub enum SyncControlEvent {
    Connected {
        peer_id: PeerId,
        common_services: Services,
        protocol_version: SupportedProtocolVersion,
    },
    Disconnected {
        peer_id: PeerId,
    },
}

/// What the manager decides after a transaction was processed by the
/// mempool.
#[derive(Debug, Clone, Copy, PartialEq, Eq, Structural)]
pub enum TxProcessedOutcome {
    /// Announce the transaction to every session.
    Broadcast(TxId),
    /// Ask the peer manager to raise the originating peer's ban score.
    AdjustPeerScore(PeerId, u32),
    /// Nothing to do.
    Nothing,
}

/// Whether some entry of `peers` is `id`.
pub open spec fn peers_have_id(peers: Seq<PeerId>, id: PeerId) -> bool {
    exists|i: int| 0 <= i < peers.len() && peers[i] == id
}

/// The sync manager state: the connected peers, in registration order.
pub struct BlockSyncManager {
    pub p2p_config: P2pConfig,
    pub peers: Vec<PeerId>,
}

impl BlockSyncManager {
    /// The manager invariant: each peer is registered once.
    pub open spec fn wf(self) -> bool {
        forall|i: int, j: int| 0 <= i < j < self.peers@.len() ==> self.peers@[i] != self.peers@[j]
    }

    /// Creates a new sync manager instance.
    pub fn new(p2p_config: P2pConfig) -> (r: Self)
        ensures
            r.wf(),
            r.peers@.len() == 0,
            r.p2p_config == p2p_config,
    {
        BlockSyncManager { p2p_config, peers: Vec::new() }
    }

    /// Whether this peer is registered.
    pub fn is_registered(&self, peer_id: &PeerId) -> (r: bool)
        ensures
            r == peers_have_id(self.peers@, *peer_id),
    {
        let n = self.peers.len();
        let mut i: usize = 0;
        while i < n
            invariant
                n == self.peers@.len(),
                0 <= i <= n,
                forall|j: int| 0 <= j < i ==> self.peers@[j] != *peer_id,
            decreases n - i,
        {
            if self.peers[i] == *peer_id {
                proof {
                    assert(self.peers@[i as int] == *peer_id);
                }
                return true;
            }
            i += 1;
        }
        proof {
            assert(!peers_have_id(self.peers@, *peer_id)) by {
                if peers_have_id(self.peers@, *peer_id) {
                    let k = choose|k: int|
                        0 <= k < self.peers@.len() && self.peers@[k] == *peer_id;
                    assert(self.peers@[k] != *peer_id);
                }
            }
        }
        false
    }

    /// Registers a newly connected peer; registering one twice is an
    /// error.
    pub fn register_peer(&mut self, peer_id: PeerId) -> (r: Result<(), P2pError>)
        requires
            old(self).wf(),
        ensures
            final(self).wf(),
            final(self).p2p_config == old(self).p2p_config,
            peers_have_id(old(self).peers@, peer_id) ==> r == Result::<(), P2pError>::Err(
                P2pError::PeerError(PeerError::PeerAlreadyExists),
            ) && final(self).peers == old(self).peers,
            !peers_have_id(old(self).peers@, peer_id) ==> r == Result::<(), P2pError>::Ok(())
                && final(self).peers@ == old(self).peers@.push(peer_id),
    {
        if self.is_registered(&peer_id) {
            return Err(P2pError::PeerError(PeerError::PeerAlreadyExists));
        }
        self.peers.push(peer_id);
        proof {
            let p = self.peers@;
            let oldp = old(self).peers@;
            assert forall|i: int, j: int| 0 <= i < j < p.len() implies p[i] != p[j] by {
                if j < p.len() - 1 {
                    assert(p[i] == oldp[i] && p[j] == oldp[j]);
                } else {
                    assert(p[i] == oldp[i]);
                    assert(!peers_have_id(oldp, peer_id));
                }
            }
        }
        Ok(())
    }

    /// Drops a peer's registration; an unknown id is tolerated.
    pub fn unregister_peer(&mut self, peer_id: PeerId)
        requires
            old(self).wf(),
        ensures
            final(self).wf(),
            final(self).p2p_config == old(self).p2p_config,
            !peers_have_id(old(self).peers@, peer_id) ==> final(self).peers == old(self).peers,
            peers_have_id(old(self).peers@, peer_id) ==> exists|j: int|
                0 <= j < old(self).peers@.len() && old(self).peers@[j] == peer_id
                    && #[trigger] old(self).peers@.remove(j) == final(self).peers@,
    {
        let n = self.peers.len();
        let mut i: usize = 0;
        while i < n
            invariant
                old(self).wf(),
                *self == *old(self),
                n == self.peers@.len(),
                0 <= i <= n,
                forall|j: int| 0 <= j < i ==> self.peers@[j] != peer_id,
            decreases n - i,
        {
            if self.peers[i] == peer_id {
                proof {
                    assert(self.peers@[i as int] == peer_id);
                }
                self.peers.remove(i);
                proof {
                    let p = self.peers@;
                    let oldp = old(self).peers@;
                    assert(p =~= oldp.subrange(0, i as int) + oldp.subrange(
                        i + 1 as int,
                        oldp.len() as int,
                    ));
                    assert forall|k: int, l: int| 0 <= k < l < p.len() implies p[k] != p[l] by {
                        let mk = if k < i as int {
                            k
                        } else {
                            k + 1
                        };
                        let ml = if l < i as int {
                            l
                        } else {
                            l + 1
                        };
                        assert(p[k] == oldp[mk] && p[l] == oldp[ml]);
                    }
                    assert(!peers_have_id(p, peer_id)) by {
                        if peers_have_id(p, peer_id) {
                            let k = choose|k: int| 0 <= k < p.len() && p[k] == peer_id;
                            let mk = if k < i as int {
                                k
                            } else {
                                k + 1
                            };
                            assert(p[k] == oldp[mk]);
                            assert(oldp[mk] != peer_id);
                        }
                    }
                }
                return ;
            }
            i += 1;
        }
        proof {
            assert(!peers_have_id(self.peers@, peer_id)) by {
                if peers_have_id(self.peers@, peer_id) {
                    let k = choose|k: int|
                        0 <= k < self.peers@.len() && self.peers@[k] == peer_id;
                    assert(self.peers@[k] != peer_id);
                }
            }
        }
    }

    /// The fan-out of one local event: one copy per registered session, in
    /// registration order.
    pub fn fan_out(&self, event: LocalEvent) -> (r: Vec<(PeerId, LocalEvent)>)
        ensures
            r@.len() == self.peers@.len(),
            forall|k: int| 0 <= k < r@.len() ==> #[trigger] r@[k] == (self.peers@[k], event),
    {
        let mut r: Vec<(PeerId, LocalEvent)> = Vec::new();
        let n = self.peers.len();
        let mut i: usize = 0;
        while i < n
            invariant
                n == self.peers@.len(),
                0 <= i <= n,
                r@.len() == i,
                forall|k: int| 0 <= k < i ==> #[trigger] r@[k] == (self.peers@[k], event),
            decreases n - i,
        {
            r.push((self.peers[i], event));
            i += 1;
        }
        r
    }

    /// Announces the header of a new tip to the sessions: the broadcast is
    /// suppressed during initial block download.
    pub fn handle_new_tip(&self, chainstate: &Chainstate, block_id: BlockId) -> (r: Vec<
        (PeerId, LocalEvent),
    >)
        ensures
            chainstate.ibd ==> r@.len() == 0,
            !chainstate.ibd ==> r@.len() == self.peers@.len() && forall|k: int|
                0 <= k < r@.len() ==> #[trigger] r@[k] == (
                self.peers@[k],
                LocalEvent::ChainstateNewTip(block_id),
                ),
    {
        if chainstate.is_initial_block_download() {
            return Vec::new();
        }
        self.fan_out(LocalEvent::ChainstateNewTip(block_id))
    }

    /// Decides what to do after the mempool processed a transaction: a
    /// valid transaction whose origin propagates is broadcast; an invalid
    /// one from a remote origin with a positive ban score is reported to
    /// the peer manager; local-origin failures are not punished.
    pub fn handle_transaction_processed(&self, event: &TransactionProcessed) -> (r:
        TxProcessedOutcome)
        ensures
            event.result is Ok && event.origin.spec_should_propagate() ==> r
                == TxProcessedOutcome::Broadcast(event.tx_id),
            event.result is Ok && !event.origin.spec_should_propagate() ==> r
                == TxProcessedOutcome::Nothing,
            event.result is Err ==> (match event.origin {
                TxOrigin::Remote(remote) => {
                    if event.ban_score > 0 {
                        r == TxProcessedOutcome::AdjustPeerScore(remote.0, event.ban_score)
                    } else {
                        r == TxProcessedOutcome::Nothing
                    }
                },
                TxOrigin::Local(_) => r == TxProcessedOutcome::Nothing,
            }),
    {
        match event.result {
            Ok(()) => {
                if event.origin.should_propagate() {
                    TxProcessedOutcome::Broadcast(event.tx_id)
                } else {
                    TxProcessedOutcome::Nothing
                }
            },
            Err(_) => {
                match event.origin {
                    TxOrigin::Remote(remote) => {
                        if event.ban_score > 0 {
                            TxProcessedOutcome::AdjustPeerScore(remote.peer_id(), event.ban_score)
                        } else {
                            TxProcessedOutcome::Nothing
                        }
                    },
                    TxOrigin::Local(_) => TxProcessedOutcome::Nothing,
                }
            },
        }
    }

    /// Routes a connection event: a connect registers the peer, a
    /// disconnect first notifies the mempool and then drops the
    /// registration.
    pub fn handle_control_event(&mut self, mempool: &mut Mempool, event: SyncControlEvent) -> (r:
        Result<(), P2pError>)
        requires
            old(self).wf(),
        ensures
            final(self).wf(),
            final(self).p2p_config == old(self).p2p_config,
            event matches SyncControlEvent::Connected { peer_id, .. } ==> {
                &&& *final(mempool) == *old(mempool)
                &&& peers_have_id(old(self).peers@, peer_id) ==> r == Result::<(), P2pError>::Err(
                    P2pError::PeerError(PeerError::PeerAlreadyExists),
                ) && final(self).peers == old(self).peers
                &&& !peers_have_id(old(self).peers@, peer_id) ==> r is Ok && final(self).peers@
                    == old(self).peers@.push(peer_id)
            },
            event matches SyncControlEvent::Disconnected { peer_id } ==> {
                &&& r is Ok
                &&& *final(mempool) == *old(mempool)
                &&& !peers_have_id(old(self).peers@, peer_id) ==> final(self).peers == old(
                    self,
                ).peers
                &&& peers_have_id(old(self).peers@, peer_id) ==> exists|j: int|
                    0 <= j < old(self).peers@.len() && old(self).peers@[j] == peer_id
                        && #[trigger] old(self).peers@.remove(j) == final(self).peers@
            },
    {
        match event {
            SyncControlEvent::Connected { peer_id, .. } => self.register_peer(peer_id),
            SyncControlEvent::Disconnected { peer_id } => {
                mempool.notify_peer_disconnected(peer_id);
                self.unregister_peer(peer_id);
                Ok(())
            },
        }
    }
}

} // verus!
