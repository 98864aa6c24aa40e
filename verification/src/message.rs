//! Wire-level messages of the p2p protocol.

use vstd::prelude::*;
use crate::types::{Block, BlockHeader, BlockId, PeerId, SignedTransaction};

verus! {

/// An ordered list of block ids from the tip backward along increasing gaps,
/// used to find the most recent common ancestor with a peer.
#[derive(Debug, Clone, PartialEq, Eq)]
pub struct Locator {
    pub ids: Vec<BlockId>,
}

impl Locator {
    pub fn new(ids: Vec<BlockId>) -> (r: Self)
        ensures
            r.ids@ == ids@,
    {
        Locator { ids }
    }

    pub fn len(&self) -> (r: usize)
        ensures
            r == self.ids@.len(),
    {
        self.ids.len()
    }
}

/// A request for the headers that follow the most recent common ancestor
/// found through the locator.
#[derive(Debug, Clone, PartialEq, Eq)]
pub struct HeaderListRequest {
    pub locator: Locator,
}

impl HeaderListRequest {
    pub fn new(locator: Locator) -> (r: Self)
        ensures
            r.locator == locator,
    {
        HeaderListRequest { locator }
    }

    pub fn into_locator(self) -> (r: Locator)
        ensures
            r == self.locator,
    {
        self.locator
    }
}

/// A request for the blocks with the given ids.
#[derive(Debug, Clone, PartialEq, Eq)]
pub struct BlockListRequest {
    pub block_ids: Vec<BlockId>,
}

impl BlockListRequest {
    pub fn new(block_ids: Vec<BlockId>) -> (r: Self)
        ensures
            r.block_ids@ == block_ids@,
    {
        BlockListRequest { block_ids }
    }

    pub fn into_block_ids(self) -> (r: Vec<BlockId>)
        ensures
            r@ == self.block_ids@,
    {
        self.block_ids
    }
}

/// A reply to a header-list request.
#[derive(Debug, Clone, PartialEq, Eq)]
pub struct HeaderListResponse {
    pub headers: Vec<BlockHeader>,
}

impl HeaderListResponse {
    pub fn new(headers: Vec<BlockHeader>) -> (r: Self)
        ensures
            r.headers@ == headers@,
    {
        HeaderListResponse { headers }
    }

    pub fn into_headers(self) -> (r: Vec<BlockHeader>)
        ensures
            r@ == self.headers@,
    {
        self.headers
    }
}

/// A reply carrying one requested block.
#[derive(Debug, Clone, PartialEq, Eq)]
pub struct BlockResponse {
    pub block: Block,
}

impl BlockResponse {
    pub fn new(block: Block) -> (r: Self)
        ensures
            r.block == block,
    {
        BlockResponse { block }
    }

    pub fn into_block(self) -> (r: Block)
        ensures
            r == self.block,
    {
        self.block
    }
}

/// A push-style notification of a new block header or transaction.
#[derive(Debug, Clone, PartialEq, Eq)]
pub enum Announcement {
    Block(BlockHeader),
    Transaction(SignedTransaction),
}

/// A message of the block-sync protocol.
#[derive(Debug, Clone, PartialEq, Eq)]
pub enum SyncMessage {
    HeaderListRequest(HeaderListRequest),
    BlockListRequest(BlockListRequest),
    HeaderListResponse(HeaderListResponse),
    BlockResponse(BlockResponse),
}

/// A ping request carrying a nonce to match against the reply.
#[derive(Debug, Clone, Copy, PartialEq, Eq, Structural)]
pub struct PingRequest {
    pub nonce: u64,
}

/// A ping reply echoing the request's nonce.
#[derive(Debug, Clone, Copy, PartialEq, Eq, Structural)]
pub struct PingResponse {
    pub nonce: u64,
}

/// A message handled by the peer manager, not by the sync core.
#[derive(Debug, Clone, Copy, PartialEq, Eq, Structural)]
pub enum PeerManagerMessage {
    PingRequest(PingRequest),
    PingResponse(PingResponse),
}

/// Random nonce sent in an outbound handshake, used to detect and drop
/// self-connections.
pub type HandshakeNonce = u64;

/// The handshake exchanged when a connection is established.
#[derive(Debug, Clone, PartialEq, Eq)]
pub enum HandshakeMessage {
    Hello { version: u64, network: [u8; 4], handshake_nonce: HandshakeNonce },
    HelloAck { version: u64, network: [u8; 4] },
}

/// Any message of the wire protocol.
#[derive(Debug, Clone, PartialEq, Eq)]
pub enum Message {
    Handshake(HandshakeMessage),
    HeaderListRequest(HeaderListRequest),
    BlockListRequest(BlockListRequest),
    PingRequest(PingRequest),
    HeaderListResponse(HeaderListResponse),
    BlockResponse(BlockResponse),
    PingResponse(PingResponse),
    Announcement(Announcement),
}

/// What a sync-message or peer-manager message looks like on the wire.
pub open spec fn message_of_sync(m: SyncMessage) -> Message {
    match m {
        SyncMessage::HeaderListRequest(r) => Message::HeaderListRequest(r),
        SyncMessage::BlockListRequest(r) => Message::BlockListRequest(r),
        SyncMessage::HeaderListResponse(r) => Message::HeaderListResponse(r),
        SyncMessage::BlockResponse(r) => Message::BlockResponse(r),
    }
}

impl From<SyncMessage> for Message {
    fn from(message: SyncMessage) -> (r: Message) {
        match message {
            SyncMessage::HeaderListRequest(r) => Message::HeaderListRequest(r),
            SyncMessage::BlockListRequest(r) => Message::BlockListRequest(r),
            SyncMessage::HeaderListResponse(r) => Message::HeaderListResponse(r),
            SyncMessage::BlockResponse(r) => Message::BlockResponse(r),
        }
    }
}

impl vstd::std_specs::convert::FromSpecImpl<SyncMessage> for Message {
    open spec fn obeys_from_spec() -> bool {
        true
    }

    open spec fn from_spec(m: SyncMessage) -> Message {
        message_of_sync(m)
    }
}

/// What the peer-manager message looks like on the wire.
pub open spec fn message_of_peer_manager(m: PeerManagerMessage) -> Message {
    match m {
        PeerManagerMessage::PingRequest(r) => Message::PingRequest(r),
        PeerManagerMessage::PingResponse(r) => Message::PingResponse(r),
    }
}

impl From<PeerManagerMessage> for Message {
    fn from(message: PeerManagerMessage) -> (r: Message) {
        match message {
            PeerManagerMessage::PingRequest(r) => Message::PingRequest(r),
            PeerManagerMessage::PingResponse(r) => Message::PingResponse(r),
        }
    }
}

impl vstd::std_specs::convert::FromSpecImpl<PeerManagerMessage> for Message {
    open spec fn obeys_from_spec() -> bool {
        true
    }

    open spec fn from_spec(m: PeerManagerMessage) -> Message {
        message_of_peer_manager(m)
    }
}

/// An event sent by the networking backend to a peer's event loop.
#[derive(Debug, Clone, PartialEq, Eq)]
pub enum Event {
    Disconnect,
    SendMessage(Message),
}

/// An event observed by the networking backend about a peer.
#[derive(Debug, Clone, PartialEq, Eq)]
pub enum PeerEvent {
    /// Peer information received from the remote side.
    PeerInfoReceived { network: [u8; 4], version: u64, handshake_nonce: HandshakeNonce },
    /// The connection to the remote side was closed.
    ConnectionClosed,
    /// A message received from the remote side.
    MessageReceived { message: Message },
}

/// An event delivered to the sync manager by the networking service.
#[derive(Debug, Clone, PartialEq, Eq)]
pub enum SyncingEvent {
    Message { peer: PeerId, message: SyncMessage },
    Announcement { peer: PeerId, announcement: Announcement },
}

} // verus!
