use node_core::chainstate::{BlockSource, Chainstate};
use node_core::config::{MdnsConfig, P2pConfig};
use node_core::error::{
    BlockError, ChainstateError, CheckBlockError, P2pError, ProtocolError, UnexpectedMessageKind,
    BAN_SCORE_MISBEHAVIOR,
};
use node_core::mempool::Mempool;
use node_core::message::{Announcement, SyncMessage};
use node_core::peer::{Peer, PeerEvent, PeerManagerEvent};
use node_core::types::{Block, BlockHeader, BlockHeight, BlockId, PeerId, Services, TxId};

fn test_config(max_request_blocks_count: usize, msg_header_count_limit: usize) -> P2pConfig {
    P2pConfig {
        bind_address: String::new(),
        ban_threshold: 100,
        outbound_connection_timeout: 10,
        mdns_config: MdnsConfig::Disabled,
        msg_header_count_limit,
        msg_max_locator_count: 101,
        max_request_blocks_count,
        sync_stalling_timeout: 25,
    }
}

fn header(id: u64, prev: u64, ts: u64) -> BlockHeader {
    BlockHeader {
        id: BlockId(id),
        prev_id: BlockId(prev),
        timestamp: ts,
    }
}

fn genesis() -> BlockHeader {
    header(0, 0, 100)
}

/// A chain of `n` blocks above the genesis, with ids 1..=n at heights 1..=n.
fn chain_with(n: u64) -> Chainstate {
    let mut cs = Chainstate::new(genesis(), false);
    for i in 1..=n {
        let b = Block {
            header: header(i, i - 1, 100 + i),
        };
        cs.process_block(b, BlockSource::Local).unwrap();
    }
    cs
}

fn all_services() -> Services {
    Services {
        block_relay: true,
        transaction_relay: true,
    }
}

fn block_only_services() -> Services {
    Services {
        block_relay: true,
        transaction_relay: false,
    }
}

/// An announced header with an invalid timestamp earns the peer exactly the
/// misbehavior score and the session survives.
#[test]
fn invalid_timestamp_header_is_scored() {
    let mut cs = chain_with(3);
    let mut mempool = Mempool::new();
    let mut peer = Peer::new(PeerId(7), all_services(), test_config(20, 2000));

    // One header on top of the genesis whose timestamp does not come after it.
    let bad = header(99, 0, 1);
    let event = PeerEvent::Message {
        message: SyncMessage::HeaderListResponse(node_core::message::HeaderListResponse::new(
            vec![bad],
        )),
    };
    let (msgs, score) = peer.handle_event(&mut cs, &mut mempool, event).unwrap();
    assert!(msgs.is_empty());
    assert_eq!(
        score,
        Some(PeerManagerEvent::AdjustPeerScore(
            PeerId(7),
            BAN_SCORE_MISBEHAVIOR
        ))
    );
    // The session is still usable.
    assert_eq!(peer.requested_blocks.len(), 0);
}

/// Header/locator sync from the genesis: 50 blocks arrive in batches of
/// 20, 20 and 10, and the final locator returns nothing new.
#[test]
fn sync_from_genesis_in_batches() {
    let cs_a = chain_with(50);
    let mut cs_b = Chainstate::new(genesis(), false);
    let mut peer_a = Peer::new(PeerId(1), all_services(), test_config(20, 2000));
    let mut peer_b = Peer::new(PeerId(2), all_services(), test_config(20, 2000));

    // B asks A for headers with its locator; A replies with all 50 headers.
    let msgs = peer_b.request_headers(&cs_b);
    let locator = match &msgs[0] {
        SyncMessage::HeaderListRequest(req) => req.locator.clone(),
        m => panic!("unexpected message {m:?}"),
    };
    let reply = peer_a.handle_header_request(&cs_a, locator).unwrap();
    let headers = match reply.into_iter().next().unwrap() {
        SyncMessage::HeaderListResponse(resp) => resp.into_headers(),
        m => panic!("unexpected message {m:?}"),
    };
    assert_eq!(headers.len(), 50);

    // B requests the first batch of 20 blocks and buffers the remaining 30.
    let msgs = peer_b.handle_header_response(&cs_b, headers).unwrap();
    let mut batch = match msgs.into_iter().next().unwrap() {
        SyncMessage::BlockListRequest(req) => req.into_block_ids(),
        m => panic!("unexpected message {m:?}"),
    };
    assert_eq!(batch.len(), 20);
    assert_eq!(peer_b.known_headers.len(), 30);

    let mut batches = vec![batch.len()];
    loop {
        let mut follow_up = Vec::new();
        for id in batch.iter() {
            let block = cs_a.get_block(id).unwrap();
            follow_up = peer_b.handle_block_response(&mut cs_b, block).unwrap();
        }
        match follow_up.into_iter().next() {
            Some(SyncMessage::BlockListRequest(req)) => {
                batch = req.into_block_ids();
                batches.push(batch.len());
            }
            Some(SyncMessage::HeaderListRequest(req)) => {
                // The batches are done; the fresh locator finds nothing new.
                let reply = peer_a.handle_header_request(&cs_a, req.into_locator()).unwrap();
                match reply.into_iter().next().unwrap() {
                    SyncMessage::HeaderListResponse(resp) => {
                        assert!(resp.into_headers().is_empty());
                    }
                    m => panic!("unexpected message {m:?}"),
                }
                break;
            }
            other => panic!("unexpected follow-up {other:?}"),
        }
    }
    assert_eq!(batches, vec![20, 20, 10]);
    assert_eq!(cs_b.best_block_height(), BlockHeight(50));
    assert_eq!(peer_b.requested_blocks.len(), 0);
    assert_eq!(peer_b.known_headers.len(), 0);
}

/// A duplicate block request is punished but the session survives.
#[test]
fn duplicate_block_request_is_scored() {
    let mut cs = chain_with(10);
    let mut mempool = Mempool::new();
    let mut peer = Peer::new(PeerId(3), all_services(), test_config(20, 2000));

    let event = PeerEvent::Message {
        message: SyncMessage::BlockListRequest(node_core::message::BlockListRequest::new(vec![
            BlockId(5),
        ])),
    };
    let (msgs, score) = peer.handle_event(&mut cs, &mut mempool, event).unwrap();
    assert!(msgs.is_empty());
    assert_eq!(score, None);
    assert_eq!(peer.blocks_queue.len(), 1);

    // Serving the block raises the best known height to 5, and the
    // response carries the chain's own block.
    let msgs = peer.send_next_block(&cs);
    assert_eq!(msgs.len(), 1);
    match &msgs[0] {
        SyncMessage::BlockResponse(resp) => {
            assert_eq!(resp.block, cs.get_block(&BlockId(5)).unwrap());
        }
        m => panic!("unexpected message {m:?}"),
    }
    assert_eq!(peer.best_known_block, Some(BlockHeight(5)));

    // The same request again is a duplicate now.
    let event = PeerEvent::Message {
        message: SyncMessage::BlockListRequest(node_core::message::BlockListRequest::new(vec![
            BlockId(5),
        ])),
    };
    let (msgs, score) = peer.handle_event(&mut cs, &mut mempool, event).unwrap();
    assert!(msgs.is_empty());
    assert_eq!(
        score,
        Some(PeerManagerEvent::AdjustPeerScore(
            PeerId(3),
            BAN_SCORE_MISBEHAVIOR
        ))
    );
}

/// While in initial block download, header and block requests produce no
/// reply and no score change.
#[test]
fn ibd_suppresses_serving() {
    let mut cs = chain_with(5);
    cs.ibd = true;
    let mut mempool = Mempool::new();
    let mut peer = Peer::new(PeerId(4), all_services(), test_config(20, 2000));

    let locator = node_core::message::Locator::new(vec![BlockId(0)]);
    let event = PeerEvent::Message {
        message: SyncMessage::HeaderListRequest(node_core::message::HeaderListRequest::new(
            locator,
        )),
    };
    let (msgs, score) = peer.handle_event(&mut cs, &mut mempool, event).unwrap();
    assert!(msgs.is_empty());
    assert_eq!(score, None);

    let event = PeerEvent::Message {
        message: SyncMessage::BlockListRequest(node_core::message::BlockListRequest::new(vec![
            BlockId(1),
        ])),
    };
    let (msgs, score) = peer.handle_event(&mut cs, &mut mempool, event).unwrap();
    assert!(msgs.is_empty());
    assert_eq!(score, None);
    assert_eq!(peer.blocks_queue.len(), 0);

    // Even malformed requests are ignored, not scored, during initial
    // block download: the download check comes first.
    let over: Vec<BlockId> = (0..102).map(|_| BlockId(0)).collect();
    let r = peer.handle_header_request(&cs, node_core::message::Locator::new(over));
    assert_eq!(r, Ok(Vec::new()));
    let r = peer.handle_block_request(&cs, Vec::new());
    assert_eq!(r, Ok(Vec::new()));
}

/// A transaction announcement on a session without transaction relay is a
/// protocol violation; it is scored and the session survives.
#[test]
fn transaction_relay_gating() {
    let mut cs = chain_with(1);
    let mut mempool = Mempool::new();
    let mut peer = Peer::new(PeerId(5), block_only_services(), test_config(20, 2000));

    let event = PeerEvent::Announcement {
        announcement: Announcement::Transaction(node_core::types::SignedTransaction {
            id: TxId(11),
        }),
    };
    let (msgs, score) = peer.handle_event(&mut cs, &mut mempool, event).unwrap();
    assert!(msgs.is_empty());
    assert_eq!(
        score,
        Some(PeerManagerEvent::AdjustPeerScore(
            PeerId(5),
            BAN_SCORE_MISBEHAVIOR
        ))
    );
    // Nothing entered the mempool.
    assert!(!mempool.contains_transaction(&TxId(11)));
}

/// A locator of exactly the maximum size is accepted; one over it is
/// rejected.
#[test]
fn locator_size_boundary() {
    let cs = chain_with(3);
    let cfg = test_config(20, 2000);
    let max = cfg.msg_max_locator_count;
    let mut peer = Peer::new(PeerId(6), all_services(), cfg);

    let ids: Vec<BlockId> = (0..max as u64).map(|_| BlockId(0)).collect();
    let r = peer.handle_header_request(&cs, node_core::message::Locator::new(ids));
    assert!(r.is_ok());

    let ids: Vec<BlockId> = (0..(max as u64 + 1)).map(|_| BlockId(0)).collect();
    let r = peer.handle_header_request(&cs, node_core::message::Locator::new(ids));
    assert_eq!(
        r,
        Err(P2pError::ProtocolError(ProtocolError::LocatorSizeExceeded(
            max + 1,
            max
        )))
    );
}

/// A header response of exactly the header-count limit whose blocks we all
/// have triggers a follow-up locator request; below the limit it does not.
#[test]
fn header_limit_boundary_triggers_follow_up() {
    let cs = chain_with(10);
    let cfg = test_config(20, 5);
    let mut peer = Peer::new(PeerId(7), all_services(), cfg);

    // All five headers are already known: at the limit, ask for more.
    let headers: Vec<BlockHeader> = (1..=5).map(|i| header(i, i - 1, 100 + i)).collect();
    let msgs = peer.handle_header_response(&cs, headers).unwrap();
    assert_eq!(msgs.len(), 1);
    assert!(matches!(msgs[0], SyncMessage::HeaderListRequest(_)));

    // Below the limit, nothing more to do.
    let headers: Vec<BlockHeader> = (1..=4).map(|i| header(i, i - 1, 100 + i)).collect();
    let msgs = peer.handle_header_response(&cs, headers).unwrap();
    assert!(msgs.is_empty());
}

/// An overlong header response is rejected.
#[test]
fn header_limit_exceeded_is_rejected() {
    let cs = chain_with(10);
    let cfg = test_config(20, 5);
    let mut peer = Peer::new(PeerId(7), all_services(), cfg);
    let headers: Vec<BlockHeader> = (1..=6).map(|i| header(i, i - 1, 100 + i)).collect();
    let r = peer.handle_header_response(&cs, headers);
    assert_eq!(
        r,
        Err(P2pError::ProtocolError(ProtocolError::HeadersLimitExceeded(
            6, 5
        )))
    );
}

/// A block request filling the serving queue exactly to the bound is
/// accepted; one more is rejected.
#[test]
fn block_request_limit_boundary() {
    let cs = chain_with(10);
    let mut peer = Peer::new(PeerId(8), all_services(), test_config(5, 2000));

    let ids: Vec<BlockId> = (1..=5).map(BlockId).collect();
    let r = peer.handle_block_request(&cs, ids);
    assert!(r.is_ok());
    assert_eq!(peer.blocks_queue.len(), 5);

    let r = peer.handle_block_request(&cs, vec![BlockId(6)]);
    assert_eq!(
        r,
        Err(P2pError::ProtocolError(
            ProtocolError::BlocksRequestLimitExceeded(6, 5)
        ))
    );
}

/// An empty block request is a protocol error.
#[test]
fn empty_block_request_is_rejected() {
    let cs = chain_with(3);
    let mut peer = Peer::new(PeerId(8), all_services(), test_config(5, 2000));
    let r = peer.handle_block_request(&cs, Vec::new());
    assert_eq!(
        r,
        Err(P2pError::ProtocolError(ProtocolError::ZeroBlocksInRequest))
    );
}

/// A request for a block we do not have is a protocol error.
#[test]
fn unknown_block_request_is_rejected() {
    let cs = chain_with(3);
    let mut peer = Peer::new(PeerId(8), all_services(), test_config(5, 2000));
    let r = peer.handle_block_request(&cs, vec![BlockId(77)]);
    assert_eq!(
        r,
        Err(P2pError::ProtocolError(ProtocolError::UnknownBlockRequested(
            BlockId(77)
        )))
    );
}

/// An empty header response never causes a score penalty.
#[test]
fn empty_header_response_is_unpunished() {
    let mut cs = chain_with(3);
    let mut mempool = Mempool::new();
    let mut peer = Peer::new(PeerId(9), all_services(), test_config(20, 2000));
    let event = PeerEvent::Message {
        message: SyncMessage::HeaderListResponse(node_core::message::HeaderListResponse::new(
            Vec::new(),
        )),
    };
    let (msgs, score) = peer.handle_event(&mut cs, &mut mempool, event).unwrap();
    assert!(msgs.is_empty());
    assert_eq!(score, None);
}

/// Adjacent-but-disconnected headers earn exactly one disconnection
/// penalty and no blocks are requested.
#[test]
fn disconnected_headers_are_scored_once() {
    let mut cs = chain_with(3);
    let mut mempool = Mempool::new();
    let mut peer = Peer::new(PeerId(10), all_services(), test_config(20, 2000));
    // Two headers that do not chain.
    let headers = vec![header(8, 3, 110), header(9, 55, 111)];
    let event = PeerEvent::Message {
        message: SyncMessage::HeaderListResponse(node_core::message::HeaderListResponse::new(
            headers,
        )),
    };
    let (msgs, score) = peer.handle_event(&mut cs, &mut mempool, event).unwrap();
    assert!(msgs.is_empty());
    assert_eq!(
        score,
        Some(PeerManagerEvent::AdjustPeerScore(
            PeerId(10),
            BAN_SCORE_MISBEHAVIOR
        ))
    );
    assert_eq!(peer.requested_blocks.len(), 0);
}

/// A header list whose root is unknown is a disconnection too.
#[test]
fn unrooted_headers_are_scored() {
    let mut peer = Peer::new(PeerId(10), all_services(), test_config(20, 2000));
    let cs = chain_with(3);
    let headers = vec![header(8, 77, 110), header(9, 8, 111)];
    let r = peer.handle_header_response(&cs, headers);
    assert_eq!(
        r,
        Err(P2pError::ProtocolError(ProtocolError::DisconnectedHeaders))
    );
}

/// Receiving an already-accepted block yields no error and no duplicate
/// request.
#[test]
fn block_already_exists_is_fine() {
    let mut cs = chain_with(5);
    let mut peer = Peer::new(PeerId(11), all_services(), test_config(20, 2000));
    // Block 5 is outstanding, but it reached the chain through another path.
    peer.requested_blocks.push(BlockId(5));
    let block = cs.get_block(&BlockId(5)).unwrap();
    let msgs = peer.handle_block_response(&mut cs, block).unwrap();
    // The batch is done; the follow-up is a header request, not a block one.
    assert_eq!(msgs.len(), 1);
    assert!(matches!(msgs[0], SyncMessage::HeaderListRequest(_)));
    assert_eq!(peer.requested_blocks.len(), 0);
}

/// A block nobody asked for is an unexpected message.
#[test]
fn unrequested_block_is_rejected() {
    let mut cs = chain_with(5);
    let mut peer = Peer::new(PeerId(12), all_services(), test_config(20, 2000));
    let block = cs.get_block(&BlockId(4)).unwrap();
    let r = peer.handle_block_response(&mut cs, block);
    assert_eq!(
        r,
        Err(P2pError::ProtocolError(ProtocolError::UnexpectedMessage(
            UnexpectedMessageKind::BlockResponse
        )))
    );
}

/// A duplicate announcement of a known block causes no action, twice over.
#[test]
fn known_block_announcement_is_idempotent() {
    let cs = chain_with(5);
    let mut peer = Peer::new(PeerId(13), all_services(), test_config(20, 2000));
    let announced = header(3, 2, 103);
    let msgs = peer.handle_block_announcement(&cs, announced).unwrap();
    assert!(msgs.is_empty());
    let msgs = peer.handle_block_announcement(&cs, announced).unwrap();
    assert!(msgs.is_empty());
    assert_eq!(peer.requested_blocks.len(), 0);
}

/// A fresh block announcement has its block requested.
#[test]
fn new_block_announcement_is_requested() {
    let cs = chain_with(5);
    let mut peer = Peer::new(PeerId(14), all_services(), test_config(20, 2000));
    let announced = header(6, 5, 110);
    let msgs = peer.handle_block_announcement(&cs, announced).unwrap();
    assert_eq!(msgs.len(), 1);
    match &msgs[0] {
        SyncMessage::BlockListRequest(req) => {
            assert_eq!(req.block_ids, vec![BlockId(6)]);
        }
        m => panic!("unexpected message {m:?}"),
    }
    assert_eq!(peer.requested_blocks, vec![BlockId(6)]);
}

/// An announcement whose parent is unknown asks for headers instead,
/// with the chainstate's own locator.
#[test]
fn orphan_announcement_requests_headers() {
    let cs = chain_with(5);
    let mut peer = Peer::new(PeerId(15), all_services(), test_config(20, 2000));
    let announced = header(42, 41, 120);
    let msgs = peer.handle_block_announcement(&cs, announced).unwrap();
    assert_eq!(msgs.len(), 1);
    match &msgs[0] {
        SyncMessage::HeaderListRequest(req) => {
            assert_eq!(req.locator, cs.get_locator());
        }
        m => panic!("unexpected message {m:?}"),
    }
    assert_eq!(peer.requested_blocks.len(), 0);
}

/// The best known block height never decreases, and serving keeps it at
/// the maximum seen.
#[test]
fn best_known_block_is_monotone() {
    let cs = chain_with(8);
    let mut peer = Peer::new(PeerId(16), all_services(), test_config(20, 2000));
    peer.send_block(&cs, BlockId(6));
    assert_eq!(peer.best_known_block, Some(BlockHeight(6)));
    // Sending a lower block does not lower the water mark.
    peer.send_block(&cs, BlockId(2));
    assert_eq!(peer.best_known_block, Some(BlockHeight(6)));
    peer.send_block(&cs, BlockId(8));
    assert_eq!(peer.best_known_block, Some(BlockHeight(8)));
}

/// A fatal error is propagated out of the classification.
#[test]
fn fatal_errors_propagate() {
    let peer = Peer::new(PeerId(17), all_services(), test_config(20, 2000));
    let r = peer.handle_result(Err(P2pError::ChannelClosed));
    assert_eq!(r, Err(P2pError::ChannelClosed));
    let r = peer.handle_result(Err(P2pError::ChainstateError(
        ChainstateError::ProcessBlockError(BlockError::PrevBlockNotFound(BlockId(1))),
    )));
    assert!(r.is_err());
}

/// Ignored errors neither score nor stop the session.
#[test]
fn ignored_errors_are_dropped() {
    let peer = Peer::new(PeerId(18), all_services(), test_config(20, 2000));
    let r = peer
        .handle_result(Err(P2pError::PeerError(
            node_core::error::PeerError::PeerDoesntExist,
        )))
        .unwrap();
    assert_eq!(r, (Vec::new(), None));
    let r = peer
        .handle_result(Err(P2pError::MempoolError(
            node_core::error::MempoolError::MempoolFull,
        )))
        .unwrap();
    assert_eq!(r, (Vec::new(), None));
}

/// The outstanding-request set never exceeds its bound, whatever arrives.
#[test]
fn requested_blocks_stay_bounded() {
    let cs_a = chain_with(100);
    let cs_b = Chainstate::new(genesis(), false);
    let mut peer = Peer::new(PeerId(19), all_services(), test_config(20, 2000));
    let headers: Vec<BlockHeader> = (1..=100).map(|i| header(i, i - 1, 100 + i)).collect();
    let _ = cs_a; // headers above match cs_a's chain
    let msgs = peer.handle_header_response(&cs_b, headers).unwrap();
    assert_eq!(msgs.len(), 1);
    assert_eq!(peer.requested_blocks.len(), 20);
    assert_eq!(peer.known_headers.len(), 80);
    assert!(peer.requested_blocks.len() <= peer.p2p_config.max_request_blocks_count);
}

/// A block failing the check mid-batch leaves the session scored but
/// alive, with the block gone from the outstanding set.
#[test]
fn failed_block_check_is_scored() {
    let mut cs = chain_with(2);
    let mut mempool = Mempool::new();
    let mut peer = Peer::new(PeerId(20), all_services(), test_config(20, 2000));
    peer.requested_blocks.push(BlockId(9));
    let bad = Block {
        header: header(9, 2, 1),
    };
    let event = PeerEvent::Message {
        message: SyncMessage::BlockResponse(node_core::message::BlockResponse::new(bad)),
    };
    let (msgs, score) = peer.handle_event(&mut cs, &mut mempool, event).unwrap();
    assert!(msgs.is_empty());
    assert_eq!(
        score,
        Some(PeerManagerEvent::AdjustPeerScore(
            PeerId(20),
            BAN_SCORE_MISBEHAVIOR
        ))
    );
    assert_eq!(peer.requested_blocks.len(), 0);
    // The bad block did not enter the chain.
    assert!(cs.get_block_index(&BlockId(9)).is_none());
    let _ = CheckBlockError::BlockTimeOrderInvalid;
}

/// The locator starts at the tip, ends at the genesis, and thins out with
/// exponentially growing gaps.
#[test]
fn locator_shape() {
    let cs = chain_with(20);
    let locator = cs.get_locator();
    let ids: Vec<u64> = locator.ids.iter().map(|b| b.0).collect();
    assert_eq!(ids, vec![20, 19, 17, 13, 5, 0]);

    let cs = Chainstate::new(genesis(), false);
    assert_eq!(cs.get_locator().ids, vec![BlockId(0)]);
}

/// Header retrieval returns exactly the headers above the most recent
/// common ancestor, up to the limit.
#[test]
fn get_headers_from_common_ancestor() {
    let cs = chain_with(10);
    // The peer knows up to height 4 (and claims an unknown tip first).
    let locator = node_core::message::Locator::new(vec![BlockId(77), BlockId(4), BlockId(2)]);
    let headers = cs.get_headers(locator, 3);
    let ids: Vec<u64> = headers.iter().map(|h| h.id.0).collect();
    assert_eq!(ids, vec![5, 6, 7]);

    // An unknown locator restarts from the genesis.
    let locator = node_core::message::Locator::new(vec![BlockId(77)]);
    let headers = cs.get_headers(locator, 100);
    assert_eq!(headers.len(), 10);
    assert_eq!(headers[0].id, BlockId(1));
}

/// Scored errors carry the misbehavior score; ignored and fatal ones are
/// classified apart.
#[test]
fn ban_scores_by_class() {
    let scored = P2pError::ProtocolError(ProtocolError::DisconnectedHeaders);
    assert_eq!(scored.ban_score(), BAN_SCORE_MISBEHAVIOR);
    let scored = P2pError::ChainstateError(ChainstateError::ProcessBlockError(
        BlockError::CheckBlockFailed(CheckBlockError::BlockTimeOrderInvalid),
    ));
    assert_eq!(scored.ban_score(), BAN_SCORE_MISBEHAVIOR);
    assert_eq!(P2pError::ChannelClosed.ban_score(), 0);
    assert_eq!(
        P2pError::PeerError(node_core::error::PeerError::PeerDoesntExist).ban_score(),
        0
    );
}

/// A batch that stalls past its deadline scores the peer; an idle session
/// lets the deadline pass.
#[test]
fn stalling_batch_is_scored() {
    let mut peer = Peer::new(PeerId(21), all_services(), test_config(20, 2000));
    assert_eq!(peer.handle_stalling_timeout(), None);
    peer.requested_blocks.push(BlockId(4));
    assert_eq!(
        peer.handle_stalling_timeout(),
        Some(PeerManagerEvent::AdjustPeerScore(
            PeerId(21),
            BAN_SCORE_MISBEHAVIOR
        ))
    );
}
