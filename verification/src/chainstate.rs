//! An in-memory model of the chainstate, holding the main chain as plain
//! data.
//!
//! The sync core consumes the chainstate through a small set of operations
//! (locators, header lookup, block processing); this model provides exactly
//! those, over a single main chain whose entry at index `h` is the header at
//! height `h`.

use vstd::prelude::*;
use crate::error::{BlockError, ChainstateError, CheckBlockError};
use crate::message::Locator;
use crate::types::{Block, BlockHeader, BlockHeight, BlockId};

verus! {

/// Position of a block in the main chain.
#[derive(Debug, Clone, Copy, PartialEq, Eq, Structural)]
pub struct BlockIndex {
    pub block_id: BlockId,
    pub height: BlockHeight,
}

/// Where a block submitted for processing came from.
#[derive(Debug, Clone, Copy, PartialEq, Eq, Structural)]
pub enum BlockSource {
    Peer,
    Local,
}

/// Headers form a chain: each one names its predecessor's id.
pub open spec fn chain_connected(c: Seq<BlockHeader>) -> bool {
    forall|i: int| 1 <= i < c.len() ==> (#[trigger] c[i]).prev_id == c[i - 1].id
}

/// Timestamps strictly increase along the chain.
pub open spec fn chain_times_increasing(c: Seq<BlockHeader>) -> bool {
    forall|i: int| 1 <= i < c.len() ==> (#[trigger] c[i]).timestamp > c[i - 1].timestamp
}

/// No two headers of the chain share an id.
pub open spec fn chain_ids_unique(c: Seq<BlockHeader>) -> bool {
    forall|i: int, j: int| 0 <= i < j < c.len() ==> c[i].id != c[j].id
}

/// Whether some header of `c` has the id `id`.
pub open spec fn chain_has_id(c: Seq<BlockHeader>, id: BlockId) -> bool {
    exists|i: int| 0 <= i < c.len() && c[i].id == id
}

/// The index (= height) of the header of `c` with id `id`.
pub open spec fn chain_id_index(c: Seq<BlockHeader>, id: BlockId) -> int {
    choose|i: int| 0 <= i < c.len() && c[i].id == id
}

/// The subsequence of `hs` whose headers are not on the chain `c`, in order.
pub open spec fn unknown_headers_of(c: Seq<BlockHeader>, hs: Seq<BlockHeader>) -> Seq<BlockHeader>
    decreases hs.len(),
{
    if hs.len() == 0 {
        Seq::empty()
    } else {
        let rest = unknown_headers_of(c, hs.drop_last());
        if !chain_has_id(c, hs.last().id) {
            rest.push(hs.last())
        } else {
            rest
        }
    }
}

/// The height at which headers matching a locator end: the height of the
/// first locator entry found in the chain, or 0 when none is.
pub open spec fn locator_common_height(c: Seq<BlockHeader>, ids: Seq<BlockId>) -> int
    decreases ids.len(),
{
    if ids.len() == 0 {
        0
    } else if chain_has_id(c, ids[0]) {
        chain_id_index(c, ids[0])
    } else {
        locator_common_height(c, ids.drop_first())
    }
}

/// The chainstate: the main chain (index = height, entry 0 the genesis) and
/// whether the node is still in initial block download.
pub struct Chainstate {
    pub chain: Vec<BlockHeader>,
    pub ibd: bool,
}

impl Chainstate {
    /// The chainstate invariant: a non-empty chain, connected, with strictly
    /// increasing timestamps and unique ids.
    pub open spec fn wf(self) -> bool {
        &&& self.chain@.len() >= 1
        &&& chain_connected(self.chain@)
        &&& chain_times_increasing(self.chain@)
        &&& chain_ids_unique(self.chain@)
    }

    /// Whether the block with this id is on the main chain.
    pub open spec fn has_block(self, id: BlockId) -> bool {
        chain_has_id(self.chain@, id)
    }

    /// The height of the block with this id.
    pub open spec fn spec_height_of(self, id: BlockId) -> int {
        chain_id_index(self.chain@, id)
    }

    /// The header at the tip of the main chain.
    pub open spec fn spec_tip(self) -> BlockHeader {
        self.chain@.last()
    }

    /// Starts a chainstate from its genesis header.
    pub fn new(genesis: BlockHeader, ibd: bool) -> (r: Self)
        ensures
            r.wf(),
            r.chain@ == seq![genesis],
            r.ibd == ibd,
    {
        let chain = vec![genesis];
        assert(chain@ =~= seq![genesis]);
        Chainstate { chain, ibd }
    }

    /// Whether the node is still in initial block download.
    pub fn is_initial_block_download(&self) -> (r: bool)
        ensures
            r == self.ibd,
    {
        self.ibd
    }

    /// The height of the chain tip.
    pub fn best_block_height(&self) -> (r: BlockHeight)
        requires
            self.wf(),
        ensures
            r.0 == self.chain@.len() - 1,
    {
        BlockHeight((self.chain.len() - 1) as u64)
    }

    /// The id of the chain tip.
    pub fn tip_id(&self) -> (r: BlockId)
        requires
            self.wf(),
        ensures
            r == self.spec_tip().id,
    {
        self.chain[self.chain.len() - 1].id
    }

    /// Looks a block up by id in the main chain.
    pub fn get_block_index(&self, id: &BlockId) -> (r: Option<BlockIndex>)
        requires
            self.wf(),
        ensures
            r is Some <==> self.has_block(*id),
            r matches Some(ix) ==> {
                &&& ix.block_id == *id
                &&& ix.height.0 == self.spec_height_of(*id)
                &&& 0 <= ix.height.0 < self.chain@.len()
                &&& self.chain@[ix.height.0 as int].id == *id
            },
    {
        let n = self.chain.len();
        let mut i: usize = 0;
        while i < n
            invariant
                self.wf(),
                n == self.chain@.len() <= u64::MAX,
                0 <= i <= n,
                forall|j: int| 0 <= j < i ==> self.chain@[j].id != *id,
            decreases n - i,
        {
            if self.chain[i].id == *id {
                proof {
                    assert(self.chain@[i as int].id == *id);
                    assert(chain_has_id(self.chain@, *id));
                    let k = chain_id_index(self.chain@, *id);
                    assert(self.chain@[k].id == *id);
                    assert(k == i as int) by {
                        if k != i as int {
                            assert(self.chain@[k].id == self.chain@[i as int].id);
                        }
                    }
                }
                return Some(BlockIndex { block_id: *id, height: BlockHeight(i as u64) });
            }
            i += 1;
        }
        proof {
            assert(!chain_has_id(self.chain@, *id)) by {
                if chain_has_id(self.chain@, *id) {
                    let k = choose|k: int| 0 <= k < self.chain@.len() && self.chain@[k].id == *id;
                    assert(self.chain@[k].id != *id);
                }
            }
        }
        None
    }

    /// Looks up a block or the genesis by id; in this model every block of
    /// the main chain, the genesis included, is found the same way.
    pub fn get_gen_block_index(&self, id: &BlockId) -> (r: Option<BlockIndex>)
        requires
            self.wf(),
        ensures
            r is Some <==> self.has_block(*id),
            r matches Some(ix) ==> {
                &&& ix.block_id == *id
                &&& ix.height.0 == self.spec_height_of(*id)
                &&& 0 <= ix.height.0 < self.chain@.len()
                &&& self.chain@[ix.height.0 as int].id == *id
            },
    {
        self.get_block_index(id)
    }

    /// Fetches a whole block by id.
    pub fn get_block(&self, id: &BlockId) -> (r: Option<Block>)
        requires
            self.wf(),
        ensures
            r is Some <==> self.has_block(*id),
            r matches Some(b) ==> {
                &&& b.header.id == *id
                &&& b.header == self.chain@[self.spec_height_of(*id)]
                &&& self.chain@.contains(b.header)
            },
    {
        let n = self.chain.len();
        match self.get_block_index(id) {
            Some(ix) => {
                proof {
                    assert(ix.height.0 < n);
                }
                let h = ix.height.0 as usize;
                let header = self.chain[h];
                proof {
                    assert(self.chain@[h as int] == header);
                    assert(self.chain@.contains(header));
                }
                Some(Block { header })
            },
            None => None,
        }
    }

    /// The height of a block in the main chain, if it is on it.
    pub fn get_block_height_in_main_chain(&self, id: &BlockId) -> (r: Option<BlockHeight>)
        requires
            self.wf(),
        ensures
            r is Some <==> self.has_block(*id),
            r matches Some(h) ==> h.0 == self.spec_height_of(*id),
    {
        match self.get_block_index(id) {
            Some(ix) => Some(ix.height),
            None => None,
        }
    }

    /// The ids a locator takes from the chain `c` above the genesis: from
    /// height `h` downward with the gap doubling, at most `fuel` of them.
    #[verifier::opaque]
    pub open spec fn spec_locator_ids(
        c: Seq<BlockHeader>,
        h: int,
        step: int,
        fuel: nat,
    ) -> Seq<BlockId>
        decreases fuel,
    {
        if h <= 0 || fuel == 0 {
            Seq::empty()
        } else {
            seq![c[h].id] + Self::spec_locator_ids(
                c,
                if h >= step {
                    h - step
                } else {
                    0
                },
                if step <= usize::MAX as int / 2 {
                    2 * step
                } else {
                    step
                },
                (fuel - 1) as nat,
            )
        }
    }

    /// One thinning step of the locator ids.
    pub proof fn lemma_locator_ids_step(c: Seq<BlockHeader>, h: int, step: int, fuel: nat)
        requires
            h > 0,
            fuel > 0,
        ensures
            Self::spec_locator_ids(c, h, step, fuel) == seq![c[h].id] + Self::spec_locator_ids(
                c,
                if h >= step {
                    h - step
                } else {
                    0
                },
                if step <= usize::MAX as int / 2 {
                    2 * step
                } else {
                    step
                },
                (fuel - 1) as nat,
            ),
    {
        reveal_with_fuel(Chainstate::spec_locator_ids, 1);
    }

    /// A locator takes no ids at the genesis or with its budget spent.
    pub proof fn lemma_locator_ids_end(c: Seq<BlockHeader>, h: int, step: int, fuel: nat)
        requires
            h <= 0 || fuel == 0,
        ensures
            Self::spec_locator_ids(c, h, step, fuel) == Seq::<BlockId>::empty(),
    {
        reveal_with_fuel(Chainstate::spec_locator_ids, 1);
    }

    /// Builds a locator: the tip, then ids at exponentially increasing gaps
    /// below it, ending at the genesis.
    ///
    /// The gaps double, so a locator never holds more than 65 ids: the
    /// thinning loop reaches the genesis within 64 steps on any chain a
    /// machine can hold, and the cap in the loop makes that a stated bound.
    #[verifier::rlimit(100)]
    pub fn get_locator(&self) -> (r: Locator)
        requires
            self.wf(),
        ensures
            r.ids@ == Self::spec_locator_ids(self.chain@, self.chain@.len() - 1, 1, 64).push(
                self.chain@[0].id,
            ),
            1 <= r.ids@.len() <= 65,
            r.ids@[0] == self.spec_tip().id,
            r.ids@.last() == self.chain@[0].id,
            forall|k: int| 0 <= k < r.ids@.len() ==> self.has_block(#[trigger] r.ids@[k]),
    {
        let n = self.chain.len();
        let mut ids: Vec<BlockId> = Vec::new();
        let mut h: usize = n - 1;
        let mut step: usize = 1;
        proof {
            assert(Self::spec_locator_ids(self.chain@, n - 1, 1, 64) =~= ids@
                + Self::spec_locator_ids(
                self.chain@,
                h as int,
                step as int,
                (64 - ids@.len()) as nat,
            ));
        }
        while h > 0 && ids.len() < 64
            invariant
                self.wf(),
                n == self.chain@.len(),
                h < n,
                step >= 1,
                ids@.len() <= 64,
                ids@.len() == 0 ==> h == n - 1,
                ids@.len() >= 1 ==> ids@[0] == self.spec_tip().id,
                forall|k: int| 0 <= k < ids@.len() ==> self.has_block(#[trigger] ids@[k]),
                Self::spec_locator_ids(self.chain@, n - 1, 1, 64) == ids@
                    + Self::spec_locator_ids(
                    self.chain@,
                    h as int,
                    step as int,
                    (64 - ids@.len()) as nat,
                ),
            decreases h,
        {
            let ghost pre_ids = ids@;
            let ghost pre_h = h as int;
            let ghost pre_step = step as int;
            let id = self.chain[h].id;
            proof {
                assert(self.chain@[h as int].id == id);
                assert(chain_has_id(self.chain@, id));
            }
            ids.push(id);
            h = if h >= step {
                h - step
            } else {
                0
            };
            step = if step <= usize::MAX / 2 {
                step * 2
            } else {
                step
            };
            proof {
                let c = self.chain@;
                let fuel = (64 - pre_ids.len()) as nat;
                Self::lemma_locator_ids_step(c, pre_h, pre_step, fuel);
                assert(Self::spec_locator_ids(c, pre_h, pre_step, fuel) == seq![c[pre_h].id]
                    + Self::spec_locator_ids(c, h as int, step as int, (fuel - 1) as nat));
                assert(ids@ + Self::spec_locator_ids(c, h as int, step as int, (fuel - 1) as nat)
                    =~= pre_ids + Self::spec_locator_ids(c, pre_h, pre_step, fuel));
            }
        }
        proof {
            Self::lemma_locator_ids_end(self.chain@, h as int, step as int, (
            64 - ids@.len()) as nat);
            assert(Self::spec_locator_ids(self.chain@, n - 1, 1, 64) =~= ids@);
        }
        let genesis_id = self.chain[0].id;
        proof {
            assert(self.chain@[0].id == genesis_id);
            assert(chain_has_id(self.chain@, genesis_id));
            if ids@.len() == 0 {
                assert(self.chain@.len() == 1);
                assert(self.spec_tip().id == genesis_id);
            }
        }
        ids.push(genesis_id);
        proof {
            assert(ids@ =~= Self::spec_locator_ids(self.chain@, n - 1, 1, 64).push(
                self.chain@[0].id,
            ));
        }
        Locator::new(ids)
    }

    /// The headers that `get_headers` returns for a locator and a limit:
    /// the chain entries that follow the most recent common ancestor, up to
    /// `limit` of them.
    pub open spec fn spec_headers_for(self, ids: Seq<BlockId>, limit: int) -> Seq<BlockHeader> {
        let start = locator_common_height(self.chain@, ids) + 1;
        let end = if start + limit <= self.chain@.len() {
            start + limit
        } else {
            self.chain@.len() as int
        };
        self.chain@.subrange(start, end)
    }

    /// The headers that follow the most recent common ancestor named by the
    /// locator, up to `limit` of them.
    pub fn get_headers(&self, locator: Locator, limit: usize) -> (r: Vec<BlockHeader>)
        requires
            self.wf(),
        ensures
            r@.len() <= limit,
            r@ == self.spec_headers_for(locator.ids@, limit as int),
    {
        let n = self.chain.len();
        // Find the height of the first locator entry that is on the chain.
        let mut li: usize = 0;
        let mut start_h: usize = 0;
        let mut found = false;
        proof {
            assert(locator.ids@.skip(0) =~= locator.ids@);
        }
        while li < locator.ids.len() && !found
            invariant
                self.wf(),
                n == self.chain@.len(),
                0 <= li <= locator.ids@.len(),
                !found ==> start_h == 0,
                !found ==> forall|j: int| 0 <= j < li ==> !chain_has_id(
                    self.chain@,
                    #[trigger] locator.ids@[j],
                ),
                !found ==> locator_common_height(self.chain@, locator.ids@)
                    == locator_common_height(self.chain@, locator.ids@.skip(li as int)),
                found ==> {
                    &&& li <= locator.ids@.len()
                    &&& start_h == locator_common_height(self.chain@, locator.ids@)
                    &&& start_h < n
                },
            decreases locator.ids@.len() - li, (if found { 0int } else { 1int }),
        {
            match self.get_block_index(&locator.ids[li]) {
                Some(ix) => {
                    proof {
                        let rest = locator.ids@.skip(li as int);
                        assert(rest[0] == locator.ids@[li as int]);
                        assert(chain_has_id(self.chain@, rest[0]));
                        assert(locator_common_height(self.chain@, rest)
                            == chain_id_index(self.chain@, rest[0]));
                        let k = chain_id_index(self.chain@, rest[0]);
                        assert(self.chain@[k].id == rest[0]);
                        assert(k == ix.height.0 as int) by {
                            if k != ix.height.0 as int {
                                assert(self.chain@[ix.height.0 as int].id == rest[0]);
                            }
                        }
                    }
                    start_h = ix.height.0 as usize;
                    found = true;
                },
                None => {
                    proof {
                        let rest = locator.ids@.skip(li as int);
                        assert(rest[0] == locator.ids@[li as int]);
                        assert(!chain_has_id(self.chain@, rest[0]));
                        assert(rest.drop_first() =~= locator.ids@.skip(li as int + 1));
                    }
                    li += 1;
                },
            }
        }
        proof {
            if !found {
                assert(locator.ids@.skip(li as int) =~= locator.ids@.skip(
                    locator.ids@.len() as int,
                ));
                assert(locator.ids@.skip(locator.ids@.len() as int).len() == 0);
                assert(locator_common_height(self.chain@, locator.ids@) == 0);
                assert(start_h == 0);
            }
            assert(start_h == locator_common_height(self.chain@, locator.ids@));
            assert(start_h < n);
        }

        // Collect up to `limit` headers above the common ancestor.
        let mut r: Vec<BlockHeader> = Vec::new();
        let mut i: usize = start_h + 1;
        while i < n && r.len() < limit
            invariant
                self.wf(),
                n == self.chain@.len(),
                start_h + 1 <= i <= n,
                r@.len() == i - (start_h + 1),
                r@.len() <= limit,
                r@ == self.chain@.subrange(start_h + 1, i as int),
            decreases n - i,
        {
            let header = self.chain[i];
            r.push(header);
            proof {
                assert(r@ =~= self.chain@.subrange(start_h + 1, i + 1 as int));
            }
            i += 1;
        }
        proof {
            let start = start_h + 1 as int;
            let end = if start + limit <= self.chain@.len() {
                start + limit
            } else {
                self.chain@.len() as int
            };
            assert(r@ =~= self.chain@.subrange(start, end));
        }
        r
    }

    /// Keeps exactly the headers whose block is not yet on the chain.
    pub fn filter_already_existing_blocks(&self, headers: Vec<BlockHeader>) -> (r: Vec<
        BlockHeader,
    >)
        requires
            self.wf(),
        ensures
            r@ == unknown_headers_of(self.chain@, headers@),
            r@.len() <= headers@.len(),
    {
        let mut r: Vec<BlockHeader> = Vec::new();
        let mut i: usize = 0;
        while i < headers.len()
            invariant
                self.wf(),
                0 <= i <= headers@.len(),
                r@ == unknown_headers_of(self.chain@, headers@.subrange(0, i as int)),
                r@.len() <= i,
            decreases headers@.len() - i,
        {
            let h = headers[i];
            let keep = match self.get_block_index(&h.id) {
                Some(_) => false,
                None => true,
            };
            if keep {
                r.push(h);
            }
            proof {
                let prefix = headers@.subrange(0, i + 1 as int);
                assert(prefix.drop_last() =~= headers@.subrange(0, i as int));
                assert(prefix.last() == headers@[i as int]);
                assert(r@ == unknown_headers_of(self.chain@, prefix));
            }
            i += 1;
        }
        proof {
            assert(headers@.subrange(0, headers@.len() as int) =~= headers@);
        }
        r
    }

    /// Whether a header's timestamp is consistent with its parent on the
    /// chain (vacuously true when the parent is not on it).
    pub open spec fn header_time_ok(self, header: BlockHeader) -> bool {
        chain_has_id(self.chain@, header.prev_id) ==> header.timestamp > self.chain@[
            chain_id_index(self.chain@, header.prev_id)
        ].timestamp
    }

    /// The stateless check applied to the first header of a new batch.
    pub fn preliminary_header_check(&self, header: BlockHeader) -> (r: Result<
        (),
        ChainstateError,
    >)
        requires
            self.wf(),
        ensures
            r is Ok <==> self.header_time_ok(header),
            r matches Err(e) ==> e == ChainstateError::ProcessBlockError(
                BlockError::CheckBlockFailed(CheckBlockError::BlockTimeOrderInvalid),
            ),
    {
        let n = self.chain.len();
        match self.get_block_index(&header.prev_id) {
            Some(ix) => {
                proof {
                    assert(ix.height.0 < n);
                }
                let parent = self.chain[ix.height.0 as usize];
                if header.timestamp > parent.timestamp {
                    Ok(())
                } else {
                    Err(
                        ChainstateError::ProcessBlockError(
                            BlockError::CheckBlockFailed(CheckBlockError::BlockTimeOrderInvalid),
                        ),
                    )
                }
            },
            None => Ok(()),
        }
    }

    /// The stateless check applied to a block before processing.
    pub fn preliminary_block_check(&self, block: Block) -> (r: Result<Block, ChainstateError>)
        requires
            self.wf(),
        ensures
            r is Ok <==> self.header_time_ok(block.header),
            r matches Ok(b) ==> b == block,
            r matches Err(e) ==> e == ChainstateError::ProcessBlockError(
                BlockError::CheckBlockFailed(CheckBlockError::BlockTimeOrderInvalid),
            ),
    {
        match self.preliminary_header_check(block.header) {
            Ok(()) => Ok(block),
            Err(e) => Err(e),
        }
    }

    /// Whether this block extends the tip of the chain.
    pub open spec fn extends_tip(self, block: Block) -> bool {
        &&& block.header.prev_id == self.spec_tip().id
        &&& block.header.timestamp > self.spec_tip().timestamp
        &&& !self.has_block(block.header.id)
    }

    /// Processes a block.
    ///
    /// A block already on the chain is reported as `BlockAlreadyExists`; one
    /// extending the tip is appended and its new index returned; one whose
    /// parent is on the chain but is not the tip is accepted without a new
    /// tip (this model keeps only the main chain); one with an unknown
    /// parent is rejected; one extending the tip with a non-increasing
    /// timestamp fails the block check.
    #[verifier::rlimit(100)]
    pub fn process_block(&mut self, block: Block, _source: BlockSource) -> (r: Result<
        Option<BlockIndex>,
        ChainstateError,
    >)
        requires
            old(self).wf(),
        ensures
            final(self).wf(),
            final(self).ibd == old(self).ibd,
            old(self).has_block(block.header.id) ==> {
                &&& r == Result::<Option<BlockIndex>, ChainstateError>::Err(
                    ChainstateError::ProcessBlockError(
                        BlockError::BlockAlreadyExists(block.header.id),
                    ),
                )
                &&& *final(self) == *old(self)
            },
            old(self).extends_tip(block) ==> {
                &&& r matches Ok(Some(ix)) && ix.block_id == block.header.id && ix.height.0
                    == old(self).chain@.len()
                &&& final(self).chain@ == old(self).chain@.push(block.header)
            },
            !old(self).has_block(block.header.id) && !old(self).extends_tip(block) ==> {
                &&& *final(self) == *old(self)
                &&& !old(self).has_block(block.header.prev_id) ==> r == Result::<
                    Option<BlockIndex>,
                    ChainstateError,
                >::Err(
                    ChainstateError::ProcessBlockError(
                        BlockError::PrevBlockNotFound(block.header.prev_id),
                    ),
                )
                &&& old(self).has_block(block.header.prev_id) && block.header.prev_id == old(
                    self,
                ).spec_tip().id ==> r == Result::<Option<BlockIndex>, ChainstateError>::Err(
                    ChainstateError::ProcessBlockError(
                        BlockError::CheckBlockFailed(CheckBlockError::BlockTimeOrderInvalid),
                    ),
                )
                &&& old(self).has_block(block.header.prev_id) && block.header.prev_id != old(
                    self,
                ).spec_tip().id ==> r == Result::<Option<BlockIndex>, ChainstateError>::Ok(
                    None::<BlockIndex>,
                )
            },
    {
        let id = block.get_id();
        match self.get_block_index(&id) {
            Some(_) => Err(
                ChainstateError::ProcessBlockError(BlockError::BlockAlreadyExists(id)),
            ),
            None => {
                match self.get_block_index(&block.header.prev_id) {
                    None => Err(
                        ChainstateError::ProcessBlockError(
                            BlockError::PrevBlockNotFound(block.header.prev_id),
                        ),
                    ),
                    Some(pix) => {
                        let tip_h = self.chain.len() - 1;
                        if pix.height.0 as usize == tip_h {
                            let tip = self.chain[tip_h];
                            proof {
                                assert(self.chain@[tip_h as int] == tip);
                                assert(tip == self.spec_tip());
                                assert(tip.id == block.header.prev_id);
                            }
                            if block.header.timestamp > tip.timestamp {
                                let height = self.chain.len();
                                self.chain.push(block.header);
                                proof {
                                    let c = self.chain@;
                                    let oldc = old(self).chain@;
                                    assert(c == oldc.push(block.header));
                                    assert forall|i: int| 1 <= i < c.len() implies (#[trigger] c[i]).prev_id
                                        == c[i - 1].id by {
                                        if i < c.len() - 1 {
                                            assert(c[i] == oldc[i]);
                                        }
                                    }
                                    assert forall|i: int| 1 <= i < c.len() implies (#[trigger] c[i]).timestamp
                                        > c[i - 1].timestamp by {
                                        if i < c.len() - 1 {
                                            assert(c[i] == oldc[i]);
                                        }
                                    }
                                    assert forall|i: int, j: int| 0 <= i < j < c.len() implies c[i].id
                                        != c[j].id by {
                                        if j < c.len() - 1 {
                                            assert(c[i] == oldc[i] && c[j] == oldc[j]);
                                        } else {
                                            assert(c[i] == oldc[i]);
                                            assert(!chain_has_id(oldc, block.header.id));
                                        }
                                    }
                                }
                                Ok(
                                    Some(
                                        BlockIndex {
                                            block_id: id,
                                            height: BlockHeight(height as u64),
                                        },
                                    ),
                                )
                            } else {
                                Err(
                                    ChainstateError::ProcessBlockError(
                                        BlockError::CheckBlockFailed(
                                            CheckBlockError::BlockTimeOrderInvalid,
                                        ),
                                    ),
                                )
                            }
                        } else {
                            proof {
                                let k = chain_id_index(self.chain@, block.header.prev_id);
                                assert(self.chain@[k].id == block.header.prev_id);
                                assert(k == pix.height.0 as int);
                                if block.header.prev_id == self.spec_tip().id {
                                    assert(self.chain@[self.chain@.len() - 1].id
                                        == block.header.prev_id);
                                }
                            }
                            Ok(None)
                        }
                    },
                }
            },
        }
    }
}

} // verus!
