use node_core::chainstate::Chainstate;
use node_core::config::{MdnsConfig, MdnsConfigFile, P2pConfig, P2pConfigFile};
use node_core::error::{P2pError, PeerError, TxValidationError};
use node_core::mempool::{
    LocalTxOrigin, Mempool, RemoteTxOrigin, TransactionProcessed, TxOrigin,
};
use node_core::peer::LocalEvent;
use node_core::sync::{BlockSyncManager, SyncControlEvent, TxProcessedOutcome};
use node_core::types::{
    BlockHeader, BlockId, PeerId, Services, SupportedProtocolVersion, TxId,
};

fn test_config() -> P2pConfig {
    P2pConfigFile::new().into_p2p_config()
}

fn genesis_chain(ibd: bool) -> Chainstate {
    Chainstate::new(
        BlockHeader {
            id: BlockId(0),
            prev_id: BlockId(0),
            timestamp: 100,
        },
        ibd,
    )
}

#[test]
fn register_twice_fails() {
    let mut mgr = BlockSyncManager::new(test_config());
    assert!(mgr.register_peer(PeerId(1)).is_ok());
    assert_eq!(
        mgr.register_peer(PeerId(1)),
        Err(P2pError::PeerError(PeerError::PeerAlreadyExists))
    );
    assert!(mgr.register_peer(PeerId(2)).is_ok());
    assert_eq!(mgr.peers, vec![PeerId(1), PeerId(2)]);
}

#[test]
fn unregister_tolerates_unknown() {
    let mut mgr = BlockSyncManager::new(test_config());
    mgr.register_peer(PeerId(1)).unwrap();
    mgr.unregister_peer(PeerId(9));
    assert_eq!(mgr.peers, vec![PeerId(1)]);
    mgr.unregister_peer(PeerId(1));
    assert!(mgr.peers.is_empty());
}

#[test]
fn control_events_drive_registration() {
    let mut mgr = BlockSyncManager::new(test_config());
    let mut mempool = Mempool::new();
    mgr.handle_control_event(
        &mut mempool,
        SyncControlEvent::Connected {
            peer_id: PeerId(5),
            common_services: Services {
                block_relay: true,
                transaction_relay: true,
            },
            protocol_version: SupportedProtocolVersion::V2,
        },
    )
    .unwrap();
    assert_eq!(mgr.peers, vec![PeerId(5)]);
    mgr.handle_control_event(
        &mut mempool,
        SyncControlEvent::Disconnected { peer_id: PeerId(5) },
    )
    .unwrap();
    assert!(mgr.peers.is_empty());
}

/// A new tip is fanned out to every session, but not during initial block
/// download.
#[test]
fn new_tip_fan_out_respects_ibd() {
    let mut mgr = BlockSyncManager::new(test_config());
    mgr.register_peer(PeerId(1)).unwrap();
    mgr.register_peer(PeerId(2)).unwrap();

    let cs = genesis_chain(false);
    let out = mgr.handle_new_tip(&cs, BlockId(9));
    assert_eq!(
        out,
        vec![
            (PeerId(1), LocalEvent::ChainstateNewTip(BlockId(9))),
            (PeerId(2), LocalEvent::ChainstateNewTip(BlockId(9))),
        ]
    );

    let cs = genesis_chain(true);
    assert!(mgr.handle_new_tip(&cs, BlockId(9)).is_empty());
}

#[test]
fn transaction_processed_outcomes() {
    let mgr = BlockSyncManager::new(test_config());

    // A valid transaction from a propagating origin is broadcast.
    let e = TransactionProcessed {
        tx_id: TxId(1),
        origin: TxOrigin::Remote(RemoteTxOrigin(PeerId(3))),
        result: Ok(()),
        ban_score: 0,
    };
    assert_eq!(
        mgr.handle_transaction_processed(&e),
        TxProcessedOutcome::Broadcast(TxId(1))
    );

    // A valid one submitted to the local mempool is not.
    let e = TransactionProcessed {
        tx_id: TxId(2),
        origin: TxOrigin::Local(LocalTxOrigin::LocalMempool),
        result: Ok(()),
        ban_score: 0,
    };
    assert_eq!(mgr.handle_transaction_processed(&e), TxProcessedOutcome::Nothing);

    // An invalid remote one with a positive ban score is punished.
    let e = TransactionProcessed {
        tx_id: TxId(3),
        origin: TxOrigin::Remote(RemoteTxOrigin(PeerId(4))),
        result: Err(TxValidationError::InvalidTransaction),
        ban_score: 30,
    };
    assert_eq!(
        mgr.handle_transaction_processed(&e),
        TxProcessedOutcome::AdjustPeerScore(PeerId(4), 30)
    );

    // An invalid local one is never punished.
    let e = TransactionProcessed {
        tx_id: TxId(4),
        origin: TxOrigin::Local(LocalTxOrigin::LocalP2p),
        result: Err(TxValidationError::InvalidTransaction),
        ban_score: 30,
    };
    assert_eq!(mgr.handle_transaction_processed(&e), TxProcessedOutcome::Nothing);
}

#[test]
fn tx_origin_propagation() {
    assert!(!LocalTxOrigin::LocalMempool.should_propagate());
    assert!(LocalTxOrigin::LocalP2p.should_propagate());
    assert!(!LocalTxOrigin::PastBlock.should_propagate());
    assert!(RemoteTxOrigin(PeerId(1)).should_propagate());
    assert!(TxOrigin::peer(PeerId(1)).should_propagate());
    assert!(!TxOrigin::local_mempool().should_propagate());
    assert!(TxOrigin::local_p2p().should_propagate());
    assert!(!TxOrigin::past_block().should_propagate());
    assert_eq!(RemoteTxOrigin(PeerId(8)).peer_id(), PeerId(8));
}

#[test]
fn config_file_defaults() {
    let file = P2pConfigFile::new();
    assert_eq!(file.ban_threshold, 100);
    assert_eq!(file.outbound_connection_timeout, 10);
    let cfg = file.into_p2p_config();
    assert_eq!(cfg.ban_threshold, 100);
    assert_eq!(cfg.mdns_config, MdnsConfig::Disabled);
    assert!(cfg.max_request_blocks_count >= 1);
}

#[test]
fn mdns_config_from_options() {
    let c = MdnsConfigFile::from_options(true, Some(200), None);
    assert_eq!(
        c,
        MdnsConfigFile::Enabled {
            query_interval: 200,
            enable_ipv6_mdns_discovery: false
        }
    );
    let c = MdnsConfigFile::from_options(false, None, None);
    assert_eq!(c, MdnsConfigFile::Disabled);
    assert_eq!(MdnsConfigFile::new(), MdnsConfigFile::Disabled);
}
