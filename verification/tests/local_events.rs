use node_core::chainstate::{BlockSource, Chainstate};
use node_core::config::P2pConfigFile;
use node_core::error::{MempoolError, TxValidationError};
use node_core::mempool::Mempool;
use node_core::message::Announcement;
use node_core::options::{default_data_dir, ChainType};
use node_core::peer::{LocalEvent, Peer};
use node_core::types::{Block, BlockHeader, BlockId, PeerId, Services, SignedTransaction, TxId};

fn chain() -> Chainstate {
    let mut cs = Chainstate::new(
        BlockHeader {
            id: BlockId(0),
            prev_id: BlockId(0),
            timestamp: 100,
        },
        false,
    );
    cs.process_block(
        Block {
            header: BlockHeader {
                id: BlockId(1),
                prev_id: BlockId(0),
                timestamp: 101,
            },
        },
        BlockSource::Local,
    )
    .unwrap();
    cs
}

fn peer(transaction_relay: bool) -> Peer {
    Peer::new(
        PeerId(1),
        Services {
            block_relay: true,
            transaction_relay,
        },
        P2pConfigFile::new().into_p2p_config(),
    )
}

/// A new tip is announced to the peer as a block announcement.
#[test]
fn new_tip_becomes_block_announcement() {
    let cs = chain();
    let mempool = Mempool::new();
    let mut p = peer(true);
    let anns = p.handle_local_event(&cs, &mempool, LocalEvent::ChainstateNewTip(BlockId(1)));
    assert_eq!(anns.len(), 1);
    match &anns[0] {
        Announcement::Block(h) => assert_eq!(h.id, BlockId(1)),
        a => panic!("unexpected announcement {a:?}"),
    }
    // An unknown tip id announces nothing.
    let anns = p.handle_local_event(&cs, &mempool, LocalEvent::ChainstateNewTip(BlockId(9)));
    assert!(anns.is_empty());
}

/// A new transaction is announced only on transaction-relay sessions.
#[test]
fn new_tx_respects_relay_gating() {
    let cs = chain();
    let mut mempool = Mempool::new();
    mempool
        .add_transaction(SignedTransaction { id: TxId(3) })
        .unwrap();

    let mut p = peer(true);
    let anns = p.handle_local_event(&cs, &mempool, LocalEvent::MempoolNewTx(TxId(3)));
    assert_eq!(
        anns,
        vec![Announcement::Transaction(SignedTransaction { id: TxId(3) })]
    );

    let mut p = peer(false);
    let anns = p.handle_local_event(&cs, &mempool, LocalEvent::MempoolNewTx(TxId(3)));
    assert!(anns.is_empty());
}

/// The mempool rejects duplicates and reports fullness.
#[test]
fn mempool_rejections() {
    let mut mempool = Mempool::new();
    mempool
        .add_transaction(SignedTransaction { id: TxId(3) })
        .unwrap();
    assert_eq!(
        mempool.add_transaction(SignedTransaction { id: TxId(3) }),
        Err(MempoolError::TxValidationError(
            TxValidationError::TransactionAlreadyInMempool
        ))
    );
    mempool.full = true;
    assert_eq!(
        mempool.add_transaction(SignedTransaction { id: TxId(4) }),
        Err(MempoolError::MempoolFull)
    );
}

/// A transaction announcement on a relay session reaches the mempool.
#[test]
fn transaction_announcement_reaches_mempool() {
    let mut mempool = Mempool::new();
    let mut p = peer(true);
    let r = p.handle_transaction_announcement(&mut mempool, SignedTransaction { id: TxId(9) });
    assert!(r.is_ok());
    assert!(mempool.contains_transaction(&TxId(9)));
}

#[test]
fn data_dir_per_chain() {
    assert_eq!(
        default_data_dir(".mintlayer", ChainType::Mainnet),
        ".mintlayer/mainnet"
    );
    assert_eq!(
        default_data_dir(".mintlayer", ChainType::Testnet),
        ".mintlayer/testnet"
    );
    assert_eq!(
        default_data_dir("/var/lib/node", ChainType::Regtest),
        "/var/lib/node/regtest"
    );
}
