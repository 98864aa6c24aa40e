//! The per-peer protocol state machine that drives initial block download
//! and steady-state propagation.
//!
//! A session holds the peer's syncing state; each handler consumes one
//! inbound message or local event and returns the messages to send in
//! reply. Sending, awaiting and channel plumbing live outside the library;
//! the handlers make every protocol decision.

use vstd::prelude::*;
use crate::chainstate::Chainstate;
use crate::config::P2pConfig;
use crate::error::{P2pError, ProtocolError, UnexpectedMessageKind};
use crate::mempool::Mempool;
use crate::message::{
    Announcement, BlockListRequest, BlockResponse, HeaderListRequest, HeaderListResponse, Locator,
    SyncMessage,
};
use crate::types::{Block, BlockHeader, BlockHeight, BlockId, PeerId, Services, SignedTransaction};

verus! {

/// An event delivered to a peer session.
#[derive(Debug, Clone, PartialEq, Eq)]
pub enum PeerEvent {
    Message { message: SyncMessage },
    Announcement { announcement: Announcement },
}

/// A local event fanned out to every session by the sync manager.
#[derive(Debug, Clone, Copy, PartialEq, Eq, Structural)]
pub enum LocalEvent {
    ChainstateNewTip(BlockId),
    MempoolNewTx(crate::types::TxId),
}

/// An event sent to the peer manager.
#[derive(Debug, Clone, Copy, PartialEq, Eq, Structural)]
pub enum PeerManagerEvent {
    /// Increase the peer's ban score by the given amount.
    AdjustPeerScore(PeerId, u32),
}

/// The ids of a header sequence, in order.
pub open spec fn header_ids(hs: Seq<BlockHeader>) -> Seq<BlockId>
    decreases hs.len(),
{
    if hs.len() == 0 {
        Seq::empty()
    } else {
        header_ids(hs.drop_last()).push(hs.last().id)
    }
}

/// The headers of `hs` whose ids are not in `req`, in order.
pub open spec fn headers_not_requested(req: Seq<BlockId>, hs: Seq<BlockHeader>) -> Seq<
    BlockHeader,
>
    decreases hs.len(),
{
    if hs.len() == 0 {
        Seq::empty()
    } else {
        let rest = headers_not_requested(req, hs.drop_last());
        if !req.contains(hs.last().id) {
            rest.push(hs.last())
        } else {
            rest
        }
    }
}

/// Header lists must chain: each one names its predecessor's id.
pub open spec fn headers_connected(hs: Seq<BlockHeader>) -> bool {
    forall|i: int| 1 <= i < hs.len() ==> (#[trigger] hs[i]).prev_id == hs[i - 1].id
}

/// A peer session.
pub struct Peer {
    /// The identifier of the peer this session talks to.
    pub id: PeerId,
    /// The services both ends have in common.
    pub common_services: Services,
    /// The p2p configuration.
    pub p2p_config: P2pConfig,
    /// Headers received via a header-list response whose blocks have not
    /// been requested yet.
    pub known_headers: Vec<BlockHeader>,
    /// Blocks requested from this peer and still outstanding.
    pub requested_blocks: Vec<BlockId>,
    /// Blocks this peer asked us for, awaiting send.
    pub blocks_queue: Vec<BlockId>,
    /// The height of the best block this peer is known to have seen from
    /// us; non-decreasing over the session's lifetime.
    pub best_known_block: Option<BlockHeight>,
}

impl Peer {
    /// The session invariant: a sane configuration (at least one block per
    /// batch, at least one header per response, and room for the node's own
    /// locators, which never exceed 65 ids), with the outstanding-request
    /// set and the serving queue within the configured bound and the header
    /// buffer within the header-response bound.
    pub open spec fn wf(self) -> bool {
        &&& self.p2p_config.max_request_blocks_count >= 1
        &&& self.p2p_config.msg_header_count_limit >= 1
        &&& self.p2p_config.msg_max_locator_count >= 65
        &&& self.requested_blocks@.len() <= self.p2p_config.max_request_blocks_count
        &&& self.blocks_queue@.len() <= self.p2p_config.max_request_blocks_count
        &&& self.known_headers@.len() <= self.p2p_config.msg_header_count_limit
    }

    /// The best known block height as a plain number: 0 before anything was
    /// sent.
    pub open spec fn spec_best_known(self) -> u64 {
        match self.best_known_block {
            Some(h) => h.0,
            None => 0,
        }
    }

    /// Starts a session for a newly connected peer.
    pub fn new(id: PeerId, common_services: Services, p2p_config: P2pConfig) -> (r: Self)
        requires
            p2p_config.max_request_blocks_count >= 1,
            p2p_config.msg_header_count_limit >= 1,
            p2p_config.msg_max_locator_count >= 65,
        ensures
            r.wf(),
            r.id == id,
            r.common_services == common_services,
            r.p2p_config == p2p_config,
            r.known_headers@.len() == 0,
            r.requested_blocks@.len() == 0,
            r.blocks_queue@.len() == 0,
            r.best_known_block is None,
    {
        Peer {
            id,
            common_services,
            p2p_config,
            known_headers: Vec::new(),
            requested_blocks: Vec::new(),
            blocks_queue: Vec::new(),
            best_known_block: None,
        }
    }

    /// Returns the identifier of the peer associated with this session.
    pub fn peer_id(&self) -> (r: PeerId)
        ensures
            r == self.id,
    {
        self.id
    }

    /// Asks the peer for the headers that follow our chain: one
    /// header-list request carrying a fresh locator.
    pub fn request_headers(&self, chainstate: &Chainstate) -> (msgs: Vec<SyncMessage>)
        requires
            self.wf(),
            chainstate.wf(),
        ensures
            msgs@.len() == 1,
            msgs@[0] matches SyncMessage::HeaderListRequest(req) && 1 <= req.locator.ids@.len()
                <= self.p2p_config.msg_max_locator_count && req.locator.ids@[0]
                == chainstate.spec_tip().id && req.locator.ids@ == Chainstate::spec_locator_ids(
                chainstate.chain@,
                chainstate.chain@.len() - 1,
                1,
                64,
            ).push(chainstate.chain@[0].id),
    {
        let locator = chainstate.get_locator();
        let mut msgs: Vec<SyncMessage> = Vec::new();
        msgs.push(SyncMessage::HeaderListRequest(HeaderListRequest::new(locator)));
        msgs
    }

    /// Processes a header request by the peer.
    ///
    /// An overlong locator is a protocol error; during initial block
    /// download the request is ignored without a reply; otherwise the reply
    /// carries the headers above the most recent common ancestor, up to the
    /// header-count limit.
    pub fn handle_header_request(&mut self, chainstate: &Chainstate, locator: Locator) -> (r:
        Result<Vec<SyncMessage>, P2pError>)
        requires
            old(self).wf(),
            chainstate.wf(),
        ensures
            header_request_post(*old(self), *final(self), *chainstate, locator.ids@, r),
    {
        if chainstate.is_initial_block_download() {
            return Ok(Vec::new());
        }

        if locator.len() > self.p2p_config.msg_max_locator_count {
            return Err(
                P2pError::ProtocolError(
                    ProtocolError::LocatorSizeExceeded(
                        locator.ids.len(),
                        self.p2p_config.msg_max_locator_count,
                    ),
                ),
            );
        }

        let limit = self.p2p_config.msg_header_count_limit;
        let headers = chainstate.get_headers(locator, limit);
        let mut msgs: Vec<SyncMessage> = Vec::new();
        msgs.push(SyncMessage::HeaderListResponse(HeaderListResponse::new(headers)));
        Ok(msgs)
    }
}

/// The first protocol violation in a block request, scanned front to back:
/// a block we do not have, or one at or below the height the peer has
/// already been sent.
pub open spec fn first_bad_request(cs: Chainstate, best: u64, ids: Seq<BlockId>) -> Option<
    P2pError,
>
    decreases ids.len(),
{
    if ids.len() == 0 {
        None
    } else if !cs.has_block(ids[0]) {
        Some(P2pError::ProtocolError(ProtocolError::UnknownBlockRequested(ids[0])))
    } else if cs.spec_height_of(ids[0]) <= best {
        Some(P2pError::ProtocolError(ProtocolError::DuplicatedBlockRequest(ids[0])))
    } else {
        first_bad_request(cs, best, ids.drop_first())
    }
}

/// Whether a message is a fresh header request carrying exactly the
/// chainstate's own locator.
pub open spec fn fresh_locator_request(m: SyncMessage, cs: Chainstate) -> bool {
    &&& m matches SyncMessage::HeaderListRequest(req) && req.locator.ids@
        == Chainstate::spec_locator_ids(cs.chain@, cs.chain@.len() - 1, 1, 64).push(
        cs.chain@[0].id,
    ) && req.locator.ids@.len() >= 1
}

/// Everything a header request promises, over the session before (`pre`)
/// and after (`post`): the state is unchanged; an overlong locator is
/// exactly the size error; during initial block download there is no
/// reply; otherwise the reply is one header-list response carrying exactly
/// the headers for the locator, up to the header-count limit.
pub open spec fn header_request_post(
    pre: Peer,
    post: Peer,
    cs: Chainstate,
    locator_ids: Seq<BlockId>,
    r: Result<Vec<SyncMessage>, P2pError>,
) -> bool {
    &&& post.wf()
    &&& post == pre
    &&& cs.ibd ==> (r matches Ok(msgs) && msgs@.len() == 0)
    &&& !cs.ibd && locator_ids.len() > pre.p2p_config.msg_max_locator_count ==> r == Result::<
        Vec<SyncMessage>,
        P2pError,
    >::Err(
        P2pError::ProtocolError(
            ProtocolError::LocatorSizeExceeded(
                locator_ids.len() as usize,
                pre.p2p_config.msg_max_locator_count,
            ),
        ),
    )
    &&& !cs.ibd && locator_ids.len() <= pre.p2p_config.msg_max_locator_count ==> (r matches Ok(
        msgs,
    ) && msgs@.len() == 1 && (msgs@[0] matches SyncMessage::HeaderListResponse(resp)
        && resp.headers@ == cs.spec_headers_for(
        locator_ids,
        pre.p2p_config.msg_header_count_limit as int,
    )))
}

/// Everything a blocks request promises: only the serving queue can
/// change; an empty request, one over the serving bound, one naming an
/// unknown block and one naming an already-sent block are exactly their
/// errors; during initial block download nothing happens; a good request
/// appends exactly its ids to the serving queue and sends nothing.
pub open spec fn block_request_post(
    pre: Peer,
    post: Peer,
    cs: Chainstate,
    ids: Seq<BlockId>,
    r: Result<Vec<SyncMessage>, P2pError>,
) -> bool {
    &&& post.wf()
    &&& post.id == pre.id
    &&& post.common_services == pre.common_services
    &&& post.p2p_config == pre.p2p_config
    &&& post.known_headers == pre.known_headers
    &&& post.requested_blocks == pre.requested_blocks
    &&& post.best_known_block == pre.best_known_block
    &&& r matches Ok(msgs) ==> msgs@.len() == 0
    &&& cs.ibd ==> r is Ok && post.blocks_queue == pre.blocks_queue
    &&& !cs.ibd && ids.len() == 0 ==> r == Result::<Vec<SyncMessage>, P2pError>::Err(
        P2pError::ProtocolError(ProtocolError::ZeroBlocksInRequest),
    ) && post.blocks_queue == pre.blocks_queue
    &&& !cs.ibd && ids.len() > 0 && ids.len() + pre.blocks_queue@.len()
        > pre.p2p_config.max_request_blocks_count ==> r == Result::<
        Vec<SyncMessage>,
        P2pError,
    >::Err(
        P2pError::ProtocolError(
            ProtocolError::BlocksRequestLimitExceeded(
                (ids.len() + pre.blocks_queue@.len()) as usize,
                pre.p2p_config.max_request_blocks_count,
            ),
        ),
    ) && post.blocks_queue == pre.blocks_queue
    &&& !cs.ibd && ids.len() > 0 && ids.len() + pre.blocks_queue@.len()
        <= pre.p2p_config.max_request_blocks_count ==> {
        let bad = first_bad_request(cs, pre.spec_best_known(), ids);
        &&& bad matches Some(e) ==> r == Result::<Vec<SyncMessage>, P2pError>::Err(e)
            && post.blocks_queue == pre.blocks_queue
        &&& bad is None ==> r is Ok && post.blocks_queue@ == pre.blocks_queue@ + ids
    }
}

/// Everything a header-list response promises: a response while headers
/// are buffered, an overlong one, a disconnected one and an unrooted one
/// are exactly their errors; an empty one does nothing; otherwise the
/// unknown headers are requested (the first batch now, the rest buffered)
/// after the first passes the preliminary check, and an all-known
/// response at the limit triggers a fresh locator.
pub open spec fn header_response_post(
    pre: Peer,
    post: Peer,
    cs: Chainstate,
    headers: Seq<BlockHeader>,
    r: Result<Vec<SyncMessage>, P2pError>,
) -> bool {
    &&& post.wf()
    &&& post.id == pre.id
    &&& post.common_services == pre.common_services
    &&& post.p2p_config == pre.p2p_config
    &&& post.blocks_queue == pre.blocks_queue
    &&& post.best_known_block == pre.best_known_block
    &&& r is Err ==> post == pre
    &&& pre.known_headers@.len() > 0 ==> r == Result::<Vec<SyncMessage>, P2pError>::Err(
        P2pError::ProtocolError(
            ProtocolError::UnexpectedMessage(UnexpectedMessageKind::HeadersResponse),
        ),
    )
    &&& pre.known_headers@.len() == 0 && headers.len() > pre.p2p_config.msg_header_count_limit
        ==> r == Result::<Vec<SyncMessage>, P2pError>::Err(
        P2pError::ProtocolError(
            ProtocolError::HeadersLimitExceeded(
                headers.len() as usize,
                pre.p2p_config.msg_header_count_limit,
            ),
        ),
    )
    &&& pre.known_headers@.len() == 0 && headers.len() == 0 ==> (r matches Ok(m) && m@.len()
        == 0) && post == pre
    &&& pre.known_headers@.len() == 0 && 0 < headers.len()
        <= pre.p2p_config.msg_header_count_limit && !headers_connected(headers) ==> r
        == Result::<Vec<SyncMessage>, P2pError>::Err(
        P2pError::ProtocolError(ProtocolError::DisconnectedHeaders),
    )
    &&& pre.known_headers@.len() == 0 && 0 < headers.len()
        <= pre.p2p_config.msg_header_count_limit && headers_connected(headers)
        && !cs.has_block(headers[0].prev_id) ==> r == Result::<Vec<SyncMessage>, P2pError>::Err(
        P2pError::ProtocolError(ProtocolError::DisconnectedHeaders),
    )
    &&& pre.known_headers@.len() == 0 && 0 < headers.len()
        <= pre.p2p_config.msg_header_count_limit && headers_connected(headers) && cs.has_block(
        headers[0].prev_id,
    ) ==> ({
        let new = crate::chainstate::unknown_headers_of(cs.chain@, headers);
        &&& new.len() == 0 && headers.len() == pre.p2p_config.msg_header_count_limit ==> (
        r matches Ok(m) && m@.len() == 1 && fresh_locator_request(m@[0], cs)) && post == pre
        &&& new.len() == 0 && headers.len() < pre.p2p_config.msg_header_count_limit ==> (
        r matches Ok(m) && m@.len() == 0) && post == pre
        &&& new.len() > 0 && !cs.header_time_ok(new[0]) ==> r == Result::<
            Vec<SyncMessage>,
            P2pError,
        >::Err(
            P2pError::ChainstateError(
                crate::error::ChainstateError::ProcessBlockError(
                    crate::error::BlockError::CheckBlockFailed(
                        crate::error::CheckBlockError::BlockTimeOrderInvalid,
                    ),
                ),
            ),
        )
        &&& new.len() > 0 && cs.header_time_ok(new[0]) ==> ({
            let fresh = headers_not_requested(pre.requested_blocks@, new);
            &&& fresh.len() == 0 ==> (r matches Ok(m) && m@.len() == 0)
                && post.known_headers@.len() == 0 && post.requested_blocks
                == pre.requested_blocks
            &&& fresh.len() > 0 && pre.requested_blocks@.len() > 0 ==> (r matches Ok(m)
                && m@.len() == 0) && post.known_headers@ == fresh && post.requested_blocks
                == pre.requested_blocks
            &&& fresh.len() > 0 && pre.requested_blocks@.len() == 0 ==> {
                let take = if fresh.len() <= pre.p2p_config.max_request_blocks_count {
                    fresh.len() as int
                } else {
                    pre.p2p_config.max_request_blocks_count as int
                };
                &&& post.requested_blocks@ == header_ids(fresh.take(take))
                &&& post.known_headers@ == fresh.skip(take)
                &&& (r matches Ok(m) && m@.len() == 1 && (m@[0] matches
                SyncMessage::BlockListRequest(req) && req.block_ids@ == header_ids(
                    fresh.take(take),
                )))
            }
        })
    })
}

/// Everything a block response promises: an unrequested block is exactly
/// the unexpected-message error and changes nothing; a requested block
/// leaves the outstanding set whatever happens next; the preliminary and
/// processing failures are exactly their errors; on success the chain
/// grows exactly when the block extends the tip, and an emptied batch is
/// followed by requesting the buffered headers or a fresh locator.
pub open spec fn block_response_post(
    pre: Peer,
    post: Peer,
    cs_pre: Chainstate,
    cs_post: Chainstate,
    block: Block,
    r: Result<Vec<SyncMessage>, P2pError>,
) -> bool {
    &&& post.wf()
    &&& cs_post.wf()
    &&& cs_post.ibd == cs_pre.ibd
    &&& post.id == pre.id
    &&& post.common_services == pre.common_services
    &&& post.p2p_config == pre.p2p_config
    &&& post.blocks_queue == pre.blocks_queue
    &&& post.best_known_block == pre.best_known_block
    &&& !pre.requested_blocks@.contains(block.header.id) ==> r == Result::<
        Vec<SyncMessage>,
        P2pError,
    >::Err(
        P2pError::ProtocolError(
            ProtocolError::UnexpectedMessage(UnexpectedMessageKind::BlockResponse),
        ),
    ) && post.requested_blocks@ == pre.requested_blocks@ && post.known_headers
        == pre.known_headers && cs_post == cs_pre
    &&& pre.requested_blocks@.contains(block.header.id) && (r is Err
        || pre.requested_blocks@.len() > 1) ==> exists|j: int|
        0 <= j < pre.requested_blocks@.len() && pre.requested_blocks@[j] == block.header.id
            && #[trigger] pre.requested_blocks@.remove(j) == post.requested_blocks@
    &&& pre.requested_blocks@.contains(block.header.id) && !cs_pre.header_time_ok(block.header)
        ==> r == Result::<Vec<SyncMessage>, P2pError>::Err(
        P2pError::ChainstateError(
            crate::error::ChainstateError::ProcessBlockError(
                crate::error::BlockError::CheckBlockFailed(
                    crate::error::CheckBlockError::BlockTimeOrderInvalid,
                ),
            ),
        ),
    ) && cs_post == cs_pre && post.known_headers == pre.known_headers
    &&& pre.requested_blocks@.contains(block.header.id) && cs_pre.header_time_ok(block.header)
        && !cs_pre.has_block(block.header.id) && !cs_pre.has_block(block.header.prev_id) ==> r
        == Result::<Vec<SyncMessage>, P2pError>::Err(
        P2pError::ChainstateError(
            crate::error::ChainstateError::ProcessBlockError(
                crate::error::BlockError::PrevBlockNotFound(block.header.prev_id),
            ),
        ),
    ) && cs_post == cs_pre && post.known_headers == pre.known_headers
    &&& pre.requested_blocks@.contains(block.header.id) && cs_pre.header_time_ok(block.header)
        && (cs_pre.has_block(block.header.id) || cs_pre.has_block(block.header.prev_id)) ==> ({
        &&& r is Ok
        &&& (if cs_pre.extends_tip(block) {
            cs_post.chain@ == cs_pre.chain@.push(block.header)
        } else {
            cs_post == cs_pre
        })
        &&& pre.requested_blocks@.len() > 1 ==> (r matches Ok(m) && m@.len() == 0)
            && post.known_headers == pre.known_headers
        &&& pre.requested_blocks@.len() == 1 && pre.known_headers@.len() == 0 ==> (r matches Ok(
            m,
        ) && m@.len() == 1 && fresh_locator_request(m@[0], cs_post)) && post.known_headers@.len()
            == 0 && post.requested_blocks@.len() == 0
        &&& pre.requested_blocks@.len() == 1 && pre.known_headers@.len() > 0 ==> ({
            let kh = pre.known_headers@;
            let take = if kh.len() <= pre.p2p_config.max_request_blocks_count {
                kh.len() as int
            } else {
                pre.p2p_config.max_request_blocks_count as int
            };
            &&& post.requested_blocks@ == header_ids(kh.take(take))
            &&& post.known_headers@ == kh.skip(take)
            &&& (r matches Ok(m) && m@.len() == 1 && (m@[0] matches
            SyncMessage::BlockListRequest(req) && req.block_ids@ == header_ids(kh.take(take))))
        })
    })
}

/// Everything a block announcement promises: while syncing it is ignored;
/// a known block is ignored; an unknown parent triggers a fresh locator;
/// a failed preliminary check is exactly its error; otherwise exactly the
/// announced block is requested.
pub open spec fn block_announcement_post(
    pre: Peer,
    post: Peer,
    cs: Chainstate,
    header: BlockHeader,
    r: Result<Vec<SyncMessage>, P2pError>,
) -> bool {
    &&& post.wf()
    &&& post.id == pre.id
    &&& post.common_services == pre.common_services
    &&& post.p2p_config == pre.p2p_config
    &&& post.blocks_queue == pre.blocks_queue
    &&& post.best_known_block == pre.best_known_block
    &&& pre.requested_blocks@.len() > 0 || pre.known_headers@.len() > 0 ==> (r matches Ok(m)
        && m@.len() == 0) && post == pre
    &&& pre.requested_blocks@.len() == 0 && pre.known_headers@.len() == 0 ==> {
        &&& cs.has_block(header.id) ==> (r matches Ok(m) && m@.len() == 0) && post == pre
        &&& !cs.has_block(header.id) && !cs.has_block(header.prev_id) ==> (r matches Ok(m)
            && m@.len() == 1 && fresh_locator_request(m@[0], cs)) && post == pre
        &&& !cs.has_block(header.id) && cs.has_block(header.prev_id) && !cs.header_time_ok(
            header,
        ) ==> r == Result::<Vec<SyncMessage>, P2pError>::Err(
            P2pError::ChainstateError(
                crate::error::ChainstateError::ProcessBlockError(
                    crate::error::BlockError::CheckBlockFailed(
                        crate::error::CheckBlockError::BlockTimeOrderInvalid,
                    ),
                ),
            ),
        ) && post == pre
        &&& !cs.has_block(header.id) && cs.has_block(header.prev_id) && cs.header_time_ok(header)
            ==> {
            &&& post.requested_blocks@ == seq![header.id]
            &&& post.known_headers@.len() == 0
            &&& (r matches Ok(m) && m@.len() == 1 && (m@[0] matches SyncMessage::BlockListRequest(
                req,
            ) && req.block_ids@ == seq![header.id]))
        }
    }
}

/// Everything a transaction announcement promises: on a session without
/// transaction relay it is exactly the unexpected-message error; otherwise
/// the mempool's verdict becomes the result, its state growing by exactly
/// the accepted transaction.
pub open spec fn tx_announcement_post(
    pre: Peer,
    post: Peer,
    mp_pre: Mempool,
    mp_post: Mempool,
    tx: SignedTransaction,
    r: Result<Vec<SyncMessage>, P2pError>,
) -> bool {
    &&& post.wf()
    &&& post == pre
    &&& mp_post.full == mp_pre.full
    &&& !pre.common_services.transaction_relay ==> r == Result::<Vec<SyncMessage>, P2pError>::Err(
        P2pError::ProtocolError(
            ProtocolError::UnexpectedMessage(UnexpectedMessageKind::TransactionAnnouncement),
        ),
    ) && mp_post == mp_pre
    &&& pre.common_services.transaction_relay && mp_pre.full ==> r == Result::<
        Vec<SyncMessage>,
        P2pError,
    >::Err(P2pError::MempoolError(crate::error::MempoolError::MempoolFull)) && mp_post == mp_pre
    &&& pre.common_services.transaction_relay && !mp_pre.full && crate::mempool::txs_have_id(
        mp_pre.txs@,
        tx.id,
    ) ==> r == Result::<Vec<SyncMessage>, P2pError>::Err(
        P2pError::MempoolError(
            crate::error::MempoolError::TxValidationError(
                crate::error::TxValidationError::TransactionAlreadyInMempool,
            ),
        ),
    ) && mp_post == mp_pre
    &&& pre.common_services.transaction_relay && !mp_pre.full && !crate::mempool::txs_have_id(
        mp_pre.txs@,
        tx.id,
    ) ==> (r matches Ok(m) && m@.len() == 0) && mp_post.txs@ == mp_pre.txs@.push(tx.id)
}

/// Everything dispatching one sync message promises: the matching
/// handler's whole contract, and an untouched chainstate on every path
/// that only reads it.
pub open spec fn message_post(
    pre: Peer,
    post: Peer,
    cs_pre: Chainstate,
    cs_post: Chainstate,
    message: SyncMessage,
    r: Result<Vec<SyncMessage>, P2pError>,
) -> bool {
    match message {
        SyncMessage::HeaderListRequest(req) => cs_post == cs_pre && header_request_post(
            pre,
            post,
            cs_pre,
            req.locator.ids@,
            r,
        ),
        SyncMessage::BlockListRequest(br) => cs_post == cs_pre && block_request_post(
            pre,
            post,
            cs_pre,
            br.block_ids@,
            r,
        ),
        SyncMessage::HeaderListResponse(resp) => cs_post == cs_pre && header_response_post(
            pre,
            post,
            cs_pre,
            resp.headers@,
            r,
        ),
        SyncMessage::BlockResponse(br) => block_response_post(
            pre,
            post,
            cs_pre,
            cs_post,
            br.block,
            r,
        ),
    }
}

/// Everything dispatching one announcement promises: the matching
/// handler's whole contract, with the mempool untouched on the block path.
pub open spec fn announcement_post(
    pre: Peer,
    post: Peer,
    cs: Chainstate,
    mp_pre: Mempool,
    mp_post: Mempool,
    announcement: Announcement,
    r: Result<Vec<SyncMessage>, P2pError>,
) -> bool {
    match announcement {
        Announcement::Block(header) => mp_post == mp_pre && block_announcement_post(
            pre,
            post,
            cs,
            header,
            r,
        ),
        Announcement::Transaction(tx) => tx_announcement_post(pre, post, mp_pre, mp_post, tx, r),
    }
}

impl Peer {
    /// Processes a blocks request by the peer.
    ///
    /// An empty request is a protocol error; during initial block download
    /// the request is ignored; a request that would push the serving queue
    /// over the configured bound, name a block we do not have, or name one
    /// the peer was already sent, is a protocol error. A good request
    /// appends all its ids to the serving queue; the reply blocks are sent
    /// by the outbound scheduler, not from here.
    pub fn handle_block_request(&mut self, chainstate: &Chainstate, block_ids: Vec<BlockId>) -> (r:
        Result<Vec<SyncMessage>, P2pError>)
        requires
            old(self).wf(),
            chainstate.wf(),
            block_ids@.len() + old(self).blocks_queue@.len() <= usize::MAX,
        ensures
            block_request_post(*old(self), *final(self), *chainstate, block_ids@, r),
    {
        if chainstate.is_initial_block_download() {
            return Ok(Vec::new());
        }

        if block_ids.len() == 0 {
            return Err(P2pError::ProtocolError(ProtocolError::ZeroBlocksInRequest));
        }

        // Check that the peer does not exceed the blocks limit.
        if block_ids.len() > self.p2p_config.max_request_blocks_count - self.blocks_queue.len() {
            return Err(
                P2pError::ProtocolError(
                    ProtocolError::BlocksRequestLimitExceeded(
                        block_ids.len() + self.blocks_queue.len(),
                        self.p2p_config.max_request_blocks_count,
                    ),
                ),
            );
        }

        // Check that all the blocks are known and have not already been
        // sent to the peer.
        let best = match self.best_known_block {
            Some(h) => h,
            None => BlockHeight(0),
        };
        let n = block_ids.len();
        let mut i: usize = 0;
        proof {
            assert(block_ids@.skip(0) =~= block_ids@);
        }
        while i < n
            invariant
                chainstate.wf(),
                !chainstate.ibd,
                old(self).wf(),
                *self == *old(self),
                n == block_ids@.len(),
                0 <= i <= n,
                n + old(self).blocks_queue@.len() <= old(self).p2p_config.max_request_blocks_count,
                best.0 == old(self).spec_best_known(),
                first_bad_request(*chainstate, best.0, block_ids@) == first_bad_request(
                    *chainstate,
                    best.0,
                    block_ids@.skip(i as int),
                ),
                first_bad_request(*chainstate, best.0, block_ids@.skip(i as int))
                    == first_bad_request(*chainstate, best.0, block_ids@.skip(i as int)),
                forall|j: int| 0 <= j < i ==> chainstate.has_block(#[trigger] block_ids@[j])
                    && chainstate.spec_height_of(block_ids@[j]) > best.0,
            decreases n - i,
        {
            let ghost rest = block_ids@.skip(i as int);
            proof {
                assert(rest[0] == block_ids@[i as int]);
                assert(rest.drop_first() =~= block_ids@.skip(i as int + 1));
            }
            match chainstate.get_block_index(&block_ids[i]) {
                None => {
                    return Err(
                        P2pError::ProtocolError(
                            ProtocolError::UnknownBlockRequested(block_ids[i]),
                        ),
                    );
                },
                Some(ix) => {
                    if ix.height.0 <= best.0 {
                        return Err(
                            P2pError::ProtocolError(
                                ProtocolError::DuplicatedBlockRequest(block_ids[i]),
                            ),
                        );
                    }
                },
            }
            i += 1;
        }
        proof {
            assert(block_ids@.skip(n as int).len() == 0);
            assert(first_bad_request(*chainstate, best.0, block_ids@) is None);
        }

        // Append all the ids to the serving queue.
        let mut k: usize = 0;
        while k < n
            invariant
                old(self).wf(),
                n == block_ids@.len(),
                0 <= k <= n,
                self.blocks_queue@ == old(self).blocks_queue@ + block_ids@.subrange(0, k as int),
                self.id == old(self).id,
                self.common_services == old(self).common_services,
                self.p2p_config == old(self).p2p_config,
                self.known_headers == old(self).known_headers,
                self.requested_blocks == old(self).requested_blocks,
                self.best_known_block == old(self).best_known_block,
                old(self).blocks_queue@.len() + n <= old(self).p2p_config.max_request_blocks_count,
            decreases n - k,
        {
            self.blocks_queue.push(block_ids[k]);
            proof {
                assert(self.blocks_queue@ =~= old(self).blocks_queue@ + block_ids@.subrange(
                    0,
                    k + 1 as int,
                ));
            }
            k += 1;
        }
        proof {
            assert(self.blocks_queue@ =~= old(self).blocks_queue@ + block_ids@);
        }
        Ok(Vec::new())
    }
}

impl Peer {
    /// Sends a block list request for these headers' blocks.
    ///
    /// Headers whose blocks were already requested are dropped. While
    /// blocks are outstanding no new request is issued — the headers are
    /// buffered instead, so that at most one batch is ever in flight and
    /// the request set never exceeds its bound. Otherwise the first batch,
    /// up to the configured bound, is requested and the remainder
    /// buffered.
    pub fn request_blocks(&mut self, headers: Vec<BlockHeader>) -> (r: Result<
        Vec<SyncMessage>,
        P2pError,
    >)
        requires
            old(self).wf(),
            old(self).known_headers@.len() == 0,
            headers@.len() <= old(self).p2p_config.msg_header_count_limit,
        ensures
            final(self).wf(),
            r is Ok,
            final(self).id == old(self).id,
            final(self).common_services == old(self).common_services,
            final(self).p2p_config == old(self).p2p_config,
            final(self).blocks_queue == old(self).blocks_queue,
            final(self).best_known_block == old(self).best_known_block,
            ({
                let new = headers_not_requested(old(self).requested_blocks@, headers@);
                &&& new.len() == 0 ==> (r matches Ok(m) && m@.len() == 0) && final(self).known_headers@.len() == 0 && final(self).requested_blocks == old(self).requested_blocks
                &&& new.len() > 0 && old(self).requested_blocks@.len() > 0 ==> (r matches Ok(m)
                    && m@.len() == 0) && final(self).known_headers@ == new && final(self).requested_blocks == old(self).requested_blocks
                &&& new.len() > 0 && old(self).requested_blocks@.len() == 0 ==> {
                    let take = if new.len() <= old(self).p2p_config.max_request_blocks_count {
                        new.len() as int
                    } else {
                        old(self).p2p_config.max_request_blocks_count as int
                    };
                    &&& final(self).requested_blocks@ == header_ids(new.take(take))
                    &&& final(self).known_headers@ == new.skip(take)
                    &&& (r matches Ok(m) && m@.len() == 1 && (m@[0] matches
                    SyncMessage::BlockListRequest(req) && req.block_ids@ == header_ids(
                        new.take(take),
                    )))
                }
            }),
    {
        // Remove already requested blocks.
        let mut new: Vec<BlockHeader> = Vec::new();
        let hn = headers.len();
        let mut i: usize = 0;
        while i < hn
            invariant
                old(self).wf(),
                *self == *old(self),
                hn == headers@.len(),
                0 <= i <= hn,
                new@ == headers_not_requested(
                    old(self).requested_blocks@,
                    headers@.subrange(0, i as int),
                ),
                new@.len() <= i,
            decreases hn - i,
        {
            let h = headers[i];
            let requested = ids_contain(&self.requested_blocks, &h.id);
            if !requested {
                new.push(h);
            }
            proof {
                let prefix = headers@.subrange(0, i + 1 as int);
                assert(prefix.drop_last() =~= headers@.subrange(0, i as int));
                assert(prefix.last() == headers@[i as int]);
                assert(new@ == headers_not_requested(old(self).requested_blocks@, prefix));
            }
            i += 1;
        }
        proof {
            assert(headers@.subrange(0, headers@.len() as int) =~= headers@);
        }

        if new.len() == 0 {
            return Ok(Vec::new());
        }

        if self.requested_blocks.len() > 0 {
            // A batch is in flight: buffer the headers until it completes.
            self.known_headers = new;
            return Ok(Vec::new());
        }

        // Request the first batch; buffer the remainder.
        let take = if new.len() > self.p2p_config.max_request_blocks_count {
            self.p2p_config.max_request_blocks_count
        } else {
            new.len()
        };
        let ghost gnew = new@;
        let mut ids: Vec<BlockId> = Vec::new();
        let mut ids2: Vec<BlockId> = Vec::new();
        let mut j: usize = 0;
        while j < take
            invariant
                take <= gnew.len() == new@.len(),
                new@ == gnew,
                0 <= j <= take,
                ids@ == header_ids(gnew.take(j as int)),
                ids2@ == ids@,
                ids@.len() == j,
            decreases take - j,
        {
            let id = new[j].id;
            ids.push(id);
            ids2.push(id);
            proof {
                let prefix = gnew.take(j + 1 as int);
                assert(prefix.drop_last() =~= gnew.take(j as int));
                assert(prefix.last() == gnew[j as int]);
                assert(ids@ == header_ids(prefix));
            }
            j += 1;
        }
        let mut rest: Vec<BlockHeader> = Vec::new();
        let mut k: usize = take;
        while k < new.len()
            invariant
                take <= gnew.len() == new@.len(),
                new@ == gnew,
                take <= k <= gnew.len(),
                rest@ == gnew.subrange(take as int, k as int),
            decreases gnew.len() - k,
        {
            rest.push(new[k]);
            proof {
                assert(rest@ =~= gnew.subrange(take as int, k + 1 as int));
            }
            k += 1;
        }
        proof {
            assert(rest@ =~= gnew.skip(take as int));
        }
        self.known_headers = rest;
        self.requested_blocks = ids2;
        let mut msgs: Vec<SyncMessage> = Vec::new();
        msgs.push(SyncMessage::BlockListRequest(BlockListRequest::new(ids)));
        Ok(msgs)
    }

    /// Processes a header-list response from the peer.
    ///
    /// A response is unexpected while headers are still buffered; an
    /// overlong one, a disconnected one and one not rooted in a known
    /// block are protocol errors; an empty one means the peer has nothing
    /// new. Headers whose blocks we already have are dropped; if nothing
    /// is left and the response was at the limit, a fresh locator is sent
    /// (the peer may have more). Otherwise the first new header has to
    /// pass the preliminary check, and the blocks are requested.
    pub fn handle_header_response(&mut self, chainstate: &Chainstate, headers: Vec<BlockHeader>)
        -> (r: Result<Vec<SyncMessage>, P2pError>)
        requires
            old(self).wf(),
            chainstate.wf(),
        ensures
            header_response_post(*old(self), *final(self), *chainstate, headers@, r),
    {
        if self.known_headers.len() > 0 {
            return Err(
                P2pError::ProtocolError(
                    ProtocolError::UnexpectedMessage(UnexpectedMessageKind::HeadersResponse),
                ),
            );
        }

        if headers.len() > self.p2p_config.msg_header_count_limit {
            return Err(
                P2pError::ProtocolError(
                    ProtocolError::HeadersLimitExceeded(
                        headers.len(),
                        self.p2p_config.msg_header_count_limit,
                    ),
                ),
            );
        }

        if headers.len() == 0 {
            return Ok(Vec::new());
        }

        // Each header must be connected to the previous one.
        let hn = headers.len();
        let mut i: usize = 1;
        while i < hn
            invariant
                old(self).wf(),
                *self == *old(self),
                old(self).known_headers@.len() == 0,
                hn == headers@.len(),
                0 < hn <= old(self).p2p_config.msg_header_count_limit,
                1 <= i <= hn,
                forall|j: int| 1 <= j < i ==> (#[trigger] headers@[j]).prev_id == headers@[j
                    - 1].id,
            decreases hn - i,
        {
            if !(headers[i].prev_id == headers[i - 1].id) {
                proof {
                    assert(headers@[i as int].prev_id != headers@[i as int - 1].id);
                    assert(!headers_connected(headers@));
                }
                return Err(P2pError::ProtocolError(ProtocolError::DisconnectedHeaders));
            }
            i += 1;
        }
        proof {
            assert(headers_connected(headers@));
        }

        // The first header must be connected to a known block.
        let prev_id = headers[0].prev_id;
        if chainstate.get_gen_block_index(&prev_id).is_none() {
            return Err(P2pError::ProtocolError(ProtocolError::DisconnectedHeaders));
        }

        let is_max_headers = headers.len() == self.p2p_config.msg_header_count_limit;
        let new = chainstate.filter_already_existing_blocks(headers);

        if new.len() == 0 {
            // The peer can have more headers if we have received the
            // maximum amount of them.
            if is_max_headers {
                return Ok(self.request_headers(chainstate));
            }
            return Ok(Vec::new());
        }

        // Only the first header can be checked with the preliminary check.
        let first_header = new[0];
        match chainstate.preliminary_header_check(first_header) {
            Ok(()) => {},
            Err(e) => {
                return Err(P2pError::ChainstateError(e));
            },
        }

        self.request_blocks(new)
    }
}

/// For every session, at all times, the outstanding-block set stays within
/// the configured bound: it is part of the session invariant, which every
/// handler requires and preserves.
pub proof fn lemma_requested_blocks_bounded(p: Peer)
    requires
        p.wf(),
    ensures
        p.requested_blocks@.len() <= p.p2p_config.max_request_blocks_count,
{
}

/// With nothing requested, every header is fresh.
pub proof fn lemma_not_requested_empty(req: Seq<BlockId>, hs: Seq<BlockHeader>)
    requires
        req.len() == 0,
    ensures
        headers_not_requested(req, hs) == hs,
    decreases hs.len(),
{
    if hs.len() == 0 {
        assert(headers_not_requested(req, hs) =~= hs);
    } else {
        lemma_not_requested_empty(req, hs.drop_last());
        assert(!req.contains(hs.last().id));
        assert(headers_not_requested(req, hs) =~= hs);
    }
}

/// Removes the first occurrence of `id` from `v`; reports whether one was
/// there.
pub fn remove_first(v: &mut Vec<BlockId>, id: &BlockId) -> (r: bool)
    ensures
        r == old(v)@.contains(*id),
        !old(v)@.contains(*id) ==> final(v)@ == old(v)@,
        old(v)@.contains(*id) ==> final(v)@.len() == old(v)@.len() - 1 && (exists|j: int|
            0 <= j < old(v)@.len() && old(v)@[j] == *id && final(v)@ == old(v)@.remove(j)),
{
    let n = v.len();
    let mut i: usize = 0;
    while i < n
        invariant
            n == v@.len(),
            *v == *old(v),
            0 <= i <= n,
            forall|j: int| 0 <= j < i ==> v@[j] != *id,
        decreases n - i,
    {
        if v[i] == *id {
            proof {
                assert(v@[i as int] == *id);
            }
            v.remove(i);
            return true;
        }
        i += 1;
    }
    proof {
        assert(!v@.contains(*id)) by {
            if v@.contains(*id) {
                let k = choose|k: int| 0 <= k < v@.len() && v@[k] == *id;
                assert(v@[k] != *id);
            }
        }
    }
    false
}

impl Peer {
    /// After a block arrives: when the outstanding set is empty, move on —
    /// request the buffered headers' blocks, or ask for more headers when
    /// none are buffered.
    pub fn finish_block_batch(&mut self, chainstate: &Chainstate) -> (msgs: Vec<SyncMessage>)
        requires
            old(self).wf(),
            chainstate.wf(),
        ensures
            final(self).wf(),
            final(self).id == old(self).id,
            final(self).common_services == old(self).common_services,
            final(self).p2p_config == old(self).p2p_config,
            final(self).blocks_queue == old(self).blocks_queue,
            final(self).best_known_block == old(self).best_known_block,
            old(self).requested_blocks@.len() > 0 ==> msgs@.len() == 0 && final(self).known_headers == old(self).known_headers && final(self).requested_blocks == old(self).requested_blocks,
            old(self).requested_blocks@.len() == 0 && old(self).known_headers@.len() == 0 ==> (
            msgs@.len() == 1 && fresh_locator_request(msgs@[0], *chainstate)) && final(self).known_headers@.len() == 0 && final(self).requested_blocks@.len() == 0,
            old(self).requested_blocks@.len() == 0 && old(self).known_headers@.len() > 0 ==> ({
                let kh = old(self).known_headers@;
                let take = if kh.len() <= old(self).p2p_config.max_request_blocks_count {
                    kh.len() as int
                } else {
                    old(self).p2p_config.max_request_blocks_count as int
                };
                &&& final(self).requested_blocks@ == header_ids(kh.take(take))
                &&& final(self).known_headers@ == kh.skip(take)
                &&& msgs@.len() == 1
                &&& (msgs@[0] matches SyncMessage::BlockListRequest(req) && req.block_ids@
                    == header_ids(kh.take(take)))
            }),
    {
        if self.requested_blocks.len() > 0 {
            return Vec::new();
        }
        if self.known_headers.len() == 0 {
            // Request more headers.
            return self.request_headers(chainstate);
        }
        // Download the remaining blocks.
        let mut drained: Vec<BlockHeader> = Vec::new();
        core::mem::swap(&mut drained, &mut self.known_headers);
        proof {
            lemma_not_requested_empty(self.requested_blocks@, drained@);
        }
        match self.request_blocks(drained) {
            Ok(msgs) => msgs,
            Err(_) => Vec::new(),
        }
    }

}

/// Processes a block that already passed the preliminary check, treating an
/// already processed block as accepted.
#[verifier::rlimit(100)]
pub fn process_checked_block(chainstate: &mut Chainstate, block: Block) -> (r: Result<
    (),
    P2pError,
>)
    requires
        old(chainstate).wf(),
        old(chainstate).header_time_ok(block.header),
    ensures
        final(chainstate).wf(),
        final(chainstate).ibd == old(chainstate).ibd,
        !old(chainstate).has_block(block.header.id) && !old(chainstate).has_block(
            block.header.prev_id,
        ) ==> r == Result::<(), P2pError>::Err(
            P2pError::ChainstateError(
                crate::error::ChainstateError::ProcessBlockError(
                    crate::error::BlockError::PrevBlockNotFound(block.header.prev_id),
                ),
            ),
        ) && *final(chainstate) == *old(chainstate),
        old(chainstate).has_block(block.header.id) || old(chainstate).has_block(
            block.header.prev_id,
        ) ==> r is Ok && (if old(chainstate).extends_tip(block) {
            final(chainstate).chain@ == old(chainstate).chain@.push(block.header)
        } else {
            *final(chainstate) == *old(chainstate)
        }),
{
    match chainstate.process_block(block, crate::chainstate::BlockSource::Peer) {
        Ok(_) => Ok(()),
        // It is OK to receive an already processed block.
        Err(
            crate::error::ChainstateError::ProcessBlockError(
                crate::error::BlockError::BlockAlreadyExists(_),
            ),
        ) => Ok(()),
        Err(e) => Err(P2pError::ChainstateError(e)),
    }
}

impl Peer {
    /// Accepts one block sent by the peer: its id must be outstanding and
    /// leaves the outstanding set either way; the block then passes the
    /// preliminary check and is processed, where an already processed
    /// block counts as accepted.
    #[verifier::rlimit(100)]
    pub fn accept_block(&mut self, chainstate: &mut Chainstate, block: Block) -> (r: Result<
        (),
        P2pError,
    >)
        requires
            old(self).wf(),
            old(chainstate).wf(),
        ensures
            final(self).wf(),
            final(chainstate).wf(),
            final(chainstate).ibd == old(chainstate).ibd,
            final(self).id == old(self).id,
            final(self).common_services == old(self).common_services,
            final(self).p2p_config == old(self).p2p_config,
            final(self).blocks_queue == old(self).blocks_queue,
            final(self).best_known_block == old(self).best_known_block,
            final(self).known_headers == old(self).known_headers,
            !old(self).requested_blocks@.contains(block.header.id) ==> r == Result::<
                (),
                P2pError,
            >::Err(
                P2pError::ProtocolError(
                    ProtocolError::UnexpectedMessage(UnexpectedMessageKind::BlockResponse),
                ),
            ) && final(self).requested_blocks@ == old(self).requested_blocks@ && *final(chainstate) == *old(chainstate),
            old(self).requested_blocks@.contains(block.header.id) ==> exists|j: int|
                0 <= j < old(self).requested_blocks@.len() && old(self).requested_blocks@[j]
                    == block.header.id && #[trigger] old(self).requested_blocks@.remove(j)
                    == final(self).requested_blocks@,
            old(self).requested_blocks@.contains(block.header.id) && !old(chainstate).header_time_ok(block.header) ==> r == Result::<(), P2pError>::Err(
                P2pError::ChainstateError(
                    crate::error::ChainstateError::ProcessBlockError(
                        crate::error::BlockError::CheckBlockFailed(
                            crate::error::CheckBlockError::BlockTimeOrderInvalid,
                        ),
                    ),
                ),
            ) && *final(chainstate) == *old(chainstate),
            old(self).requested_blocks@.contains(block.header.id) && old(chainstate).header_time_ok(block.header) && !old(chainstate).has_block(block.header.id) && !old(chainstate).has_block(block.header.prev_id) ==> r == Result::<(), P2pError>::Err(
                P2pError::ChainstateError(
                    crate::error::ChainstateError::ProcessBlockError(
                        crate::error::BlockError::PrevBlockNotFound(block.header.prev_id),
                    ),
                ),
            ) && *final(chainstate) == *old(chainstate),
            old(self).requested_blocks@.contains(block.header.id) && old(chainstate).header_time_ok(block.header) && (old(chainstate).has_block(block.header.id) || old(chainstate).has_block(block.header.prev_id)) ==> r is Ok && (if old(chainstate).extends_tip(
                block,
            ) {
                final(chainstate).chain@ == old(chainstate).chain@.push(block.header)
            } else {
                *final(chainstate) == *old(chainstate)
            }),
    {
        let id = block.get_id();
        let was_requested = remove_first(&mut self.requested_blocks, &id);
        if !was_requested {
            return Err(
                P2pError::ProtocolError(
                    ProtocolError::UnexpectedMessage(UnexpectedMessageKind::BlockResponse),
                ),
            );
        }

        let block = match chainstate.preliminary_block_check(block) {
            Ok(b) => b,
            Err(e) => {
                return Err(P2pError::ChainstateError(e));
            },
        };
        process_checked_block(chainstate, block)
    }

    /// Processes a block sent by the peer.
    ///
    /// A block that was not requested is a protocol error; the block's id
    /// leaves the outstanding set either way. The block then passes the
    /// preliminary check and is processed; receiving an already processed
    /// block is fine. When the outstanding set empties, the buffered
    /// headers are requested next, or a fresh locator is sent when none
    /// are buffered.
    #[verifier::rlimit(100)]
    pub fn handle_block_response(&mut self, chainstate: &mut Chainstate, block: Block) -> (r:
        Result<Vec<SyncMessage>, P2pError>)
        requires
            old(self).wf(),
            old(chainstate).wf(),
        ensures
            block_response_post(
                *old(self),
                *final(self),
                *old(chainstate),
                *final(chainstate),
                block,
                r,
            ),
    {
        match self.accept_block(chainstate, block) {
            Ok(()) => {},
            Err(e) => {
                return Err(e);
            },
        }
        Ok(self.finish_block_batch(&*chainstate))
    }
}

/// Whether the id sequence `v` contains `id`.
pub fn ids_contain(v: &Vec<BlockId>, id: &BlockId) -> (r: bool)
    ensures
        r == v@.contains(*id),
{
    let n = v.len();
    let mut i: usize = 0;
    while i < n
        invariant
            n == v@.len(),
            0 <= i <= n,
            forall|j: int| 0 <= j < i ==> v@[j] != *id,
        decreases n - i,
    {
        if v[i] == *id {
            proof {
                assert(v@[i as int] == *id);
            }
            return true;
        }
        i += 1;
    }
    proof {
        assert(!v@.contains(*id)) by {
            if v@.contains(*id) {
                let k = choose|k: int| 0 <= k < v@.len() && v@[k] == *id;
                assert(v@[k] != *id);
            }
        }
    }
    false
}

/// How a session reacts to an error: not at all, by scoring the peer, or
/// by terminating.
#[derive(Debug, Clone, Copy, PartialEq, Eq, Structural)]
pub enum ErrorClass {
    /// Neither scored nor fatal.
    Ignored,
    /// The peer's ban score is increased; the session continues.
    Scored,
    /// The session terminates.
    Fatal,
}

/// The class an error falls in: disconnection races and benign mempool
/// rejections are ignored; protocol errors, transaction-validation errors
/// and failed block checks are scored; everything else is fatal.
pub open spec fn error_class(e: P2pError) -> ErrorClass {
    match e {
        P2pError::PeerError(crate::error::PeerError::PeerDoesntExist) => ErrorClass::Ignored,
        P2pError::MempoolError(crate::error::MempoolError::MempoolFull) => ErrorClass::Ignored,
        P2pError::MempoolError(
            crate::error::MempoolError::TxValidationError(
                crate::error::TxValidationError::TransactionAlreadyInMempool,
            ),
        ) => ErrorClass::Ignored,
        P2pError::ProtocolError(_) => ErrorClass::Scored,
        P2pError::MempoolError(crate::error::MempoolError::TxValidationError(_)) => {
            ErrorClass::Scored
        },
        P2pError::ChainstateError(
            crate::error::ChainstateError::ProcessBlockError(
                crate::error::BlockError::CheckBlockFailed(_),
            ),
        ) => ErrorClass::Scored,
        _ => ErrorClass::Fatal,
    }
}

/// Every scored error carries a positive ban score.
pub proof fn lemma_scored_errors_have_ban_score(e: P2pError)
    requires
        error_class(e) == ErrorClass::Scored,
    ensures
        e.spec_ban_score() > 0,
{
}

/// Ignored and scored errors carry no ban score only when ignored.
pub proof fn lemma_ignored_errors_have_no_ban_score(e: P2pError)
    requires
        error_class(e) == ErrorClass::Ignored,
    ensures
        e.spec_ban_score() == 0 || e == P2pError::MempoolError(
            crate::error::MempoolError::TxValidationError(
                crate::error::TxValidationError::TransactionAlreadyInMempool,
            ),
        ),
{
}

/// Everything classifying one handling result promises: sent messages
/// pass through, an ignored error is dropped, a scored error becomes the
/// peer's score adjustment by its ban score, and a fatal error is
/// propagated.
pub open spec fn result_classified(
    id: PeerId,
    result: Result<Vec<SyncMessage>, P2pError>,
    r: Result<(Vec<SyncMessage>, Option<PeerManagerEvent>), P2pError>,
) -> bool {
    match result {
        Ok(m) => r matches Ok(p) && p.0 == m && p.1 is None,
        Err(e) => {
            &&& error_class(e) == ErrorClass::Ignored ==> (r matches Ok(p) && p.0@.len() == 0
                && p.1 is None)
            &&& error_class(e) == ErrorClass::Scored ==> (r matches Ok(p) && p.0@.len() == 0
                && p.1 == Some(PeerManagerEvent::AdjustPeerScore(id, e.spec_ban_score())))
            &&& error_class(e) == ErrorClass::Fatal ==> r == Result::<
                (Vec<SyncMessage>, Option<PeerManagerEvent>),
                P2pError,
            >::Err(e)
        },
    }
}

/// Everything processing one event promises: some handling result exists
/// that the matching dispatcher's contract allows, and the outcome is its
/// classification.
pub open spec fn event_post(
    pre: Peer,
    post: Peer,
    cs_pre: Chainstate,
    cs_post: Chainstate,
    mp_pre: Mempool,
    mp_post: Mempool,
    event: PeerEvent,
    r: Result<(Vec<SyncMessage>, Option<PeerManagerEvent>), P2pError>,
) -> bool {
    exists|inner: Result<Vec<SyncMessage>, P2pError>|
        {
            &&& #[trigger] result_classified(pre.id, inner, r)
            &&& (event matches PeerEvent::Message { message } ==> mp_post == mp_pre
                && message_post(pre, post, cs_pre, cs_post, message, inner))
            &&& (event matches PeerEvent::Announcement { announcement } ==> cs_post == cs_pre
                && announcement_post(pre, post, cs_pre, mp_pre, mp_post, announcement, inner))
        }
}

impl Peer {
    /// Processes a block announcement by the peer.
    ///
    /// While blocks are outstanding or headers buffered the block will
    /// arrive through syncing anyway; a block we already have is ignored
    /// (duplicate announcements are harmless); one whose parent is unknown
    /// triggers a fresh locator instead (a possible new fork); otherwise
    /// the header passes the preliminary check and its block is requested.
    pub fn handle_block_announcement(&mut self, chainstate: &Chainstate, header: BlockHeader)
        -> (r: Result<Vec<SyncMessage>, P2pError>)
        requires
            old(self).wf(),
            chainstate.wf(),
        ensures
            block_announcement_post(*old(self), *final(self), *chainstate, header, r),
    {
        if self.requested_blocks.len() > 0 || self.known_headers.len() > 0 {
            // The block will arrive as part of syncing anyway.
            return Ok(Vec::new());
        }

        // Do not request the block if it is already known.
        if chainstate.get_block_index(&header.id).is_some() {
            return Ok(Vec::new());
        }

        if chainstate.get_gen_block_index(&header.prev_id).is_none() {
            // A possible new fork: ask for the connecting headers instead.
            return Ok(self.request_headers(chainstate));
        }

        match chainstate.preliminary_header_check(header) {
            Ok(()) => {},
            Err(e) => {
                return Err(P2pError::ChainstateError(e));
            },
        }

        let mut single: Vec<BlockHeader> = Vec::new();
        single.push(header);
        proof {
            lemma_not_requested_empty(self.requested_blocks@, single@);
            assert(single@.drop_last() =~= Seq::<BlockHeader>::empty());
            assert(header_ids(Seq::<BlockHeader>::empty()) =~= Seq::<BlockId>::empty());
            assert(single@.last() == header);
            assert(header_ids(single@) == header_ids(single@.drop_last()).push(header.id));
            assert(header_ids(single@) =~= seq![header.id]);
            assert(single@.take(1) =~= single@);
            assert(single@.skip(1) =~= Seq::<BlockHeader>::empty());
        }
        self.request_blocks(single)
    }

    /// Processes a transaction announcement by the peer.
    ///
    /// Transaction announcements are legal only on sessions whose common
    /// services include transaction relay; the transaction is then handed
    /// to the mempool, whose verdict becomes the result.
    pub fn handle_transaction_announcement(
        &mut self,
        mempool: &mut Mempool,
        tx: SignedTransaction,
    ) -> (r: Result<Vec<SyncMessage>, P2pError>)
        requires
            old(self).wf(),
        ensures
            tx_announcement_post(
                *old(self),
                *final(self),
                *old(mempool),
                *final(mempool),
                tx,
                r,
            ),
    {
        if !self.common_services.transaction_relay {
            return Err(
                P2pError::ProtocolError(
                    ProtocolError::UnexpectedMessage(
                        UnexpectedMessageKind::TransactionAnnouncement,
                    ),
                ),
            );
        }
        match mempool.add_transaction(tx) {
            Ok(()) => Ok(Vec::new()),
            Err(e) => Err(P2pError::MempoolError(e)),
        }
    }

    /// Dispatches an announcement to its handler.
    pub fn handle_announcement(
        &mut self,
        chainstate: &Chainstate,
        mempool: &mut Mempool,
        announcement: Announcement,
    ) -> (r: Result<Vec<SyncMessage>, P2pError>)
        requires
            old(self).wf(),
            chainstate.wf(),
        ensures
            announcement_post(
                *old(self),
                *final(self),
                *chainstate,
                *old(mempool),
                *final(mempool),
                announcement,
                r,
            ),
    {
        match announcement {
            Announcement::Block(header) => self.handle_block_announcement(chainstate, header),
            Announcement::Transaction(tx) => self.handle_transaction_announcement(mempool, tx),
        }
    }

    /// Sends one block to the peer, raising the best height the peer is
    /// known to have seen from us; that height never decreases.
    pub fn send_block(&mut self, chainstate: &Chainstate, id: BlockId) -> (msgs: Vec<SyncMessage>)
        requires
            old(self).wf(),
            chainstate.wf(),
            chainstate.has_block(id),
        ensures
            final(self).wf(),
            final(self).id == old(self).id,
            final(self).common_services == old(self).common_services,
            final(self).p2p_config == old(self).p2p_config,
            final(self).known_headers == old(self).known_headers,
            final(self).requested_blocks == old(self).requested_blocks,
            final(self).blocks_queue == old(self).blocks_queue,
            final(self).spec_best_known() >= old(self).spec_best_known(),
            final(self).spec_best_known() == (if chainstate.spec_height_of(id) > old(self).spec_best_known() {
                chainstate.spec_height_of(id)
            } else {
                old(self).spec_best_known() as int
            }),
            msgs@.len() == 1,
            msgs@[0] matches SyncMessage::BlockResponse(resp) && resp.block.header.id == id
                && resp.block.header == chainstate.chain@[chainstate.spec_height_of(id)],
    {
        let block = match chainstate.get_block(&id) {
            Some(b) => b,
            None => {
                proof {
                    assert(false);
                }
                Block { header: BlockHeader { id, prev_id: id, timestamp: 0 } }
            },
        };
        let height = match chainstate.get_block_height_in_main_chain(&id) {
            Some(h) => h,
            None => {
                proof {
                    assert(false);
                }
                BlockHeight(0)
            },
        };
        let current = match self.best_known_block {
            Some(h) => h,
            None => BlockHeight(0),
        };
        let best = if height.0 > current.0 {
            height
        } else {
            current
        };
        self.best_known_block = Some(best);
        let mut msgs: Vec<SyncMessage> = Vec::new();
        msgs.push(SyncMessage::BlockResponse(BlockResponse::new(block)));
        msgs
    }

    /// Sends the block at the front of the serving queue, if any.
    pub fn send_next_block(&mut self, chainstate: &Chainstate) -> (msgs: Vec<SyncMessage>)
        requires
            old(self).wf(),
            chainstate.wf(),
            forall|k: int| 0 <= k < old(self).blocks_queue@.len() ==> chainstate.has_block(
                #[trigger] old(self).blocks_queue@[k],
            ),
        ensures
            final(self).wf(),
            final(self).id == old(self).id,
            final(self).common_services == old(self).common_services,
            final(self).p2p_config == old(self).p2p_config,
            final(self).known_headers == old(self).known_headers,
            final(self).requested_blocks == old(self).requested_blocks,
            final(self).spec_best_known() >= old(self).spec_best_known(),
            old(self).blocks_queue@.len() == 0 ==> msgs@.len() == 0 && *final(self) == *old(self),
            old(self).blocks_queue@.len() > 0 ==> {
                &&& final(self).blocks_queue@ == old(self).blocks_queue@.drop_first()
                &&& msgs@.len() == 1
                &&& (msgs@[0] matches SyncMessage::BlockResponse(resp) && resp.block.header.id
                    == old(self).blocks_queue@[0] && resp.block.header
                    == chainstate.chain@[chainstate.spec_height_of(old(self).blocks_queue@[0])])
            },
    {
        if self.blocks_queue.len() == 0 {
            return Vec::new();
        }
        let id = self.blocks_queue.remove(0);
        proof {
            assert(id == old(self).blocks_queue@[0]);
            assert(self.blocks_queue@ =~= old(self).blocks_queue@.drop_first());
        }
        self.send_block(chainstate, id)
    }

    /// Decides what happens when the stalling deadline passes with the
    /// current block batch still outstanding: the peer is scored up and
    /// the caller terminates the session; with nothing outstanding the
    /// deadline means nothing. Measuring the deadline is the runtime's
    /// concern.
    pub fn handle_stalling_timeout(&self) -> (r: Option<PeerManagerEvent>)
        ensures
            self.requested_blocks@.len() > 0 ==> r == Some(
                PeerManagerEvent::AdjustPeerScore(
                    self.id,
                    crate::error::BAN_SCORE_MISBEHAVIOR,
                ),
            ),
            self.requested_blocks@.len() == 0 ==> r is None,
    {
        if self.requested_blocks.len() > 0 {
            Some(
                PeerManagerEvent::AdjustPeerScore(self.id, crate::error::BAN_SCORE_MISBEHAVIOR),
            )
        } else {
            None
        }
    }

    /// Classifies the outcome of handling one event.
    ///
    /// Sent messages pass through; an ignored error is dropped; a scored
    /// error becomes a score adjustment for the peer manager; a fatal
    /// error is propagated, stopping the session.
    pub fn handle_result(&self, result: Result<Vec<SyncMessage>, P2pError>) -> (r: Result<
        (Vec<SyncMessage>, Option<PeerManagerEvent>),
        P2pError,
    >)
        ensures
            result_classified(self.id, result, r),
    {
        let error = match result {
            Ok(m) => {
                return Ok((m, None));
            },
            Err(e) => e,
        };
        match error {
            // A request/response can race a disconnection; safely ignored.
            P2pError::PeerError(crate::error::PeerError::PeerDoesntExist) => Ok((Vec::new(), None)),
            P2pError::MempoolError(crate::error::MempoolError::MempoolFull) => Ok(
                (Vec::new(), None),
            ),
            P2pError::MempoolError(
                crate::error::MempoolError::TxValidationError(
                    crate::error::TxValidationError::TransactionAlreadyInMempool,
                ),
            ) => Ok((Vec::new(), None)),
            // A protocol violation: increase the ban score of the peer.
            e @ P2pError::ProtocolError(_) => {
                let score = e.ban_score();
                Ok((Vec::new(), Some(PeerManagerEvent::AdjustPeerScore(self.id, score))))
            },
            e @ P2pError::MempoolError(crate::error::MempoolError::TxValidationError(_)) => {
                let score = e.ban_score();
                Ok((Vec::new(), Some(PeerManagerEvent::AdjustPeerScore(self.id, score))))
            },
            e @ P2pError::ChainstateError(
                crate::error::ChainstateError::ProcessBlockError(
                    crate::error::BlockError::CheckBlockFailed(_),
                ),
            ) => {
                let score = e.ban_score();
                Ok((Vec::new(), Some(PeerManagerEvent::AdjustPeerScore(self.id, score))))
            },
            // Fatal errors: propagate them to stop the session.
            e => Err(e),
        }
    }

    /// Dispatches one sync message to its handler.
    pub fn handle_message(&mut self, chainstate: &mut Chainstate, message: SyncMessage) -> (r:
        Result<Vec<SyncMessage>, P2pError>)
        requires
            old(self).wf(),
            old(chainstate).wf(),
            message matches SyncMessage::BlockListRequest(br) ==> br.block_ids@.len() + old(self).blocks_queue@.len() <= usize::MAX,
        ensures
            message_post(
                *old(self),
                *final(self),
                *old(chainstate),
                *final(chainstate),
                message,
                r,
            ),
            final(self).spec_best_known() == old(self).spec_best_known(),
            old(chainstate).ibd && (message matches SyncMessage::HeaderListRequest(_)) ==> (
            r matches Ok(m) && m@.len() == 0) && *final(self) == *old(self),
            old(chainstate).ibd && (message matches SyncMessage::BlockListRequest(_)) ==> (
            r matches Ok(m) && m@.len() == 0) && *final(self) == *old(self),
    {
        match message {
            SyncMessage::HeaderListRequest(r) => {
                self.handle_header_request(&*chainstate, r.into_locator())
            },
            SyncMessage::BlockListRequest(r) => {
                self.handle_block_request(&*chainstate, r.into_block_ids())
            },
            SyncMessage::HeaderListResponse(r) => {
                self.handle_header_response(&*chainstate, r.into_headers())
            },
            SyncMessage::BlockResponse(r) => {
                self.handle_block_response(chainstate, r.into_block())
            },
        }
    }

    /// Processes one event: dispatch, then error classification.
    ///
    /// The session survives everything but a fatal error.
    pub fn handle_event(
        &mut self,
        chainstate: &mut Chainstate,
        mempool: &mut Mempool,
        event: PeerEvent,
    ) -> (r: Result<(Vec<SyncMessage>, Option<PeerManagerEvent>), P2pError>)
        requires
            old(self).wf(),
            old(chainstate).wf(),
            event matches PeerEvent::Message { message: SyncMessage::BlockListRequest(br) }
                ==> br.block_ids@.len() + old(self).blocks_queue@.len() <= usize::MAX,
        ensures
            final(self).wf(),
            final(chainstate).wf(),
            final(chainstate).ibd == old(chainstate).ibd,
            final(self).id == old(self).id,
            final(self).common_services == old(self).common_services,
            final(self).p2p_config == old(self).p2p_config,
            event_post(
                *old(self),
                *final(self),
                *old(chainstate),
                *final(chainstate),
                *old(mempool),
                *final(mempool),
                event,
                r,
            ),
            r matches Err(e) ==> error_class(e) == ErrorClass::Fatal,
            r matches Ok(p) ==> (p.1 matches Some(PeerManagerEvent::AdjustPeerScore(pid, score))
                ==> pid == old(self).id && score > 0),
    {
        let ghost gevent = event;
        let res = match event {
            PeerEvent::Message { message } => self.handle_message(chainstate, message),
            PeerEvent::Announcement { announcement } => {
                self.handle_announcement(&*chainstate, mempool, announcement)
            },
        };
        let ghost gres = res;
        proof {
            match gres {
                Err(e) => {
                    if error_class(e) == ErrorClass::Scored {
                        lemma_scored_errors_have_ban_score(e);
                    }
                },
                _ => {},
            }
        }
        let out = self.handle_result(res);
        proof {
            assert(result_classified(old(self).id, gres, out));
        }
        out
    }

    /// Handles a local event fanned out by the sync manager.
    ///
    /// A new chainstate tip is announced to the peer; a new mempool
    /// transaction is announced only on transaction-relay sessions.
    pub fn handle_local_event(
        &mut self,
        chainstate: &Chainstate,
        mempool: &Mempool,
        event: LocalEvent,
    ) -> (anns: Vec<Announcement>)
        requires
            old(self).wf(),
            chainstate.wf(),
        ensures
            final(self).wf(),
            *final(self) == *old(self),
            event matches LocalEvent::ChainstateNewTip(id) ==> {
                &&& chainstate.has_block(id) ==> anns@.len() == 1 && (anns@[0] matches
                Announcement::Block(h) && h.id == id)
                &&& !chainstate.has_block(id) ==> anns@.len() == 0
            },
            event matches LocalEvent::MempoolNewTx(tx_id) ==> {
                &&& !old(self).common_services.transaction_relay ==> anns@.len() == 0
                &&& old(self).common_services.transaction_relay && crate::mempool::txs_have_id(
                    mempool.txs@,
                    tx_id,
                ) ==> anns@.len() == 1 && anns@[0] == Announcement::Transaction(
                    SignedTransaction { id: tx_id },
                )
                &&& old(self).common_services.transaction_relay && !crate::mempool::txs_have_id(
                    mempool.txs@,
                    tx_id,
                ) ==> anns@.len() == 0
            },
    {
        let mut anns: Vec<Announcement> = Vec::new();
        match event {
            LocalEvent::ChainstateNewTip(id) => {
                match chainstate.get_block(&id) {
                    Some(b) => {
                        anns.push(Announcement::Block(b.header));
                    },
                    None => {},
                }
            },
            LocalEvent::MempoolNewTx(tx_id) => {
                if self.common_services.transaction_relay {
                    if mempool.contains_transaction(&tx_id) {
                        anns.push(Announcement::Transaction(SignedTransaction { id: tx_id }));
                    }
                }
            },
        }
        anns
    }
}

} // verus!
