//! Merkle-tree sizing and proof extraction over multiple leaves.
//!
//! A full binary merkle tree with `L` leaves (`L` a power of two) has
//! `2 * L - 1` nodes; a valid tree size is therefore one less than a power
//! of two. Nodes are stored bottom level first, so the node at absolute
//! index `i` of the bottom level is leaf `i`.

use vstd::prelude::*;

verus! {

/// The largest supported tree size.
pub const MAX_TREE_SIZE: usize = 0x8000_0000;

/// An error in constructing a tree size.
#[derive(Debug, Clone, Copy, PartialEq, Eq, Structural)]
pub enum TreeSizeError {
    /// Zero is an invalid size for a tree.
    ZeroSize,
    /// A tree size must be a power of two minus one; this value was found.
    InvalidSize(usize),
    /// A tree of this huge size is not supported.
    HugeTreeUnsupported(usize),
}

/// Whether the binary digits of `v` are all ones, i.e. `v` is a power of
/// two minus one.
pub open spec fn all_ones(v: nat) -> bool
    decreases v,
{
    if v == 0 {
        true
    } else {
        v % 2 == 1 && all_ones(v / 2)
    }
}

/// The number of binary digits of `v`: for a tree size (all digits ones)
/// this is the number of levels of the tree.
pub open spec fn digit_count(v: nat) -> nat
    decreases v,
{
    if v == 0 {
        0
    } else {
        1 + digit_count(v / 2)
    }
}

/// A number has no more binary digits than its own magnitude.
pub proof fn lemma_digit_count_le(n: nat)
    ensures
        digit_count(n) <= n,
    decreases n,
{
    if n > 0 {
        lemma_digit_count_le(n / 2);
    }
}

/// The number of nodes of a full binary merkle tree.
#[derive(Debug, Clone, Copy, PartialEq, Eq, PartialOrd, Ord, Structural)]
pub struct TreeSize(pub usize);

impl TreeSize {
    /// A valid size: a power of two minus one, positive, and supported.
    pub open spec fn wf(self) -> bool {
        &&& 1 <= self.0 <= MAX_TREE_SIZE
        &&& all_ones(self.0 as nat)
    }

    /// The number of nodes.
    pub fn get(&self) -> (r: usize)
        ensures
            r == self.0,
    {
        self.0
    }

    /// The number of leaves: half of the nodes, rounded up.
    pub fn leaf_count(&self) -> (r: usize)
        requires
            self.wf(),
        ensures
            r == (self.0 + 1) / 2,
            r >= 1,
    {
        (self.0 + 1) / 2
    }

    /// The number of levels of the tree.
    pub fn level_count(&self) -> (r: usize)
        requires
            self.wf(),
        ensures
            r == digit_count(self.0 as nat),
            r >= 1,
    {
        let mut v: usize = self.0;
        let mut c: usize = 0;
        proof {
            lemma_digit_count_le(self.0 as nat);
        }
        while v > 0
            invariant
                c + digit_count(v as nat) == digit_count(self.0 as nat),
                digit_count(self.0 as nat) <= self.0 <= usize::MAX,
            decreases v,
        {
            proof {
                assert(digit_count(v as nat) >= 1);
            }
            c += 1;
            v = v / 2;
        }
        proof {
            assert(digit_count(self.0 as nat) >= 1);
        }
        c
    }

    /// Builds a tree size from a node count.
    ///
    /// Zero is rejected; a count that is not a power of two minus one is
    /// invalid; a supported size must not exceed the maximum.
    pub fn from_value(value: usize) -> (r: Result<Self, TreeSizeError>)
        ensures
            value == 0 ==> r == Result::<Self, TreeSizeError>::Err(TreeSizeError::ZeroSize),
            value > 0 && !all_ones(value as nat) ==> r == Result::<Self, TreeSizeError>::Err(
                TreeSizeError::InvalidSize(value),
            ),
            value > 0 && all_ones(value as nat) && value > MAX_TREE_SIZE ==> r == Result::<
                Self,
                TreeSizeError,
            >::Err(TreeSizeError::HugeTreeUnsupported(value)),
            value > 0 && all_ones(value as nat) && value <= MAX_TREE_SIZE ==> r == Result::<
                Self,
                TreeSizeError,
            >::Ok(TreeSize(value)) && (r matches Ok(t) && t.wf()),
    {
        Self::try_from(value)
    }

    /// Builds a tree size from a node count; see [`TreeSize::from_value`].
    pub fn try_from(value: usize) -> (r: Result<Self, TreeSizeError>)
        ensures
            value == 0 ==> r == Result::<Self, TreeSizeError>::Err(TreeSizeError::ZeroSize),
            value > 0 && !all_ones(value as nat) ==> r == Result::<Self, TreeSizeError>::Err(
                TreeSizeError::InvalidSize(value),
            ),
            value > 0 && all_ones(value as nat) && value > MAX_TREE_SIZE ==> r == Result::<
                Self,
                TreeSizeError,
            >::Err(TreeSizeError::HugeTreeUnsupported(value)),
            value > 0 && all_ones(value as nat) && value <= MAX_TREE_SIZE ==> r == Result::<
                Self,
                TreeSizeError,
            >::Ok(TreeSize(value)) && (r matches Ok(t) && t.wf()),
    {
        if value == 0 {
            return Err(TreeSizeError::ZeroSize);
        }
        let mut v: usize = value;
        while v % 2 == 1
            invariant
                all_ones(v as nat) ==> all_ones(value as nat),
                !all_ones(v as nat) ==> !all_ones(value as nat),
            decreases v,
        {
            v = v / 2;
        }
        if v != 0 {
            proof {
                assert(!all_ones(value as nat));
            }
            return Err(TreeSizeError::InvalidSize(value));
        }
        proof {
            assert(all_ones(value as nat));
        }
        if value > MAX_TREE_SIZE {
            return Err(TreeSizeError::HugeTreeUnsupported(value));
        }
        Ok(TreeSize(value))
    }

    /// Builds a tree size from a leaf count, which must be a power of two.
    pub fn from_leaf_count(leaf_count: usize) -> (r: Result<Self, TreeSizeError>)
        requires
            leaf_count <= usize::MAX / 2,
        ensures
            leaf_count == 0 ==> r == Result::<Self, TreeSizeError>::Err(TreeSizeError::ZeroSize),
            leaf_count > 0 && !all_ones((leaf_count * 2 - 1) as nat) ==> r == Result::<
                Self,
                TreeSizeError,
            >::Err(TreeSizeError::InvalidSize((leaf_count * 2 - 1) as usize)),
            leaf_count > 0 && all_ones((leaf_count * 2 - 1) as nat) && leaf_count * 2 - 1
                > MAX_TREE_SIZE ==> r == Result::<Self, TreeSizeError>::Err(
                TreeSizeError::HugeTreeUnsupported((leaf_count * 2 - 1) as usize),
            ),
            leaf_count > 0 && all_ones((leaf_count * 2 - 1) as nat) && leaf_count * 2 - 1
                <= MAX_TREE_SIZE ==> r == Result::<Self, TreeSizeError>::Ok(
                TreeSize((leaf_count * 2 - 1) as usize),
            ),
    {
        if leaf_count == 0 {
            return Err(TreeSizeError::ZeroSize);
        }
        Self::try_from(leaf_count * 2 - 1)
    }
}

/// Mixes two child values into their parent's value.
pub open spec fn spec_combine(left: u64, right: u64) -> u64 {
    (left ^ (right << 1) ^ 0x9e3779b97f4a7c15) as u64
}

/// Computes a parent node's value from its two children.
pub fn combine(left: u64, right: u64) -> (r: u64)
    ensures
        r == spec_combine(left, right),
{
    left ^ (right << 1) ^ 0x9e3779b97f4a7c15
}

/// A full binary merkle tree, stored bottom level first: the node at
/// absolute index `i < leaf_count` is leaf `i`, and each level is followed
/// by the one above it.
#[derive(Debug, Clone, PartialEq, Eq)]
pub struct MerkleTree {
    pub nodes: Vec<u64>,
}

impl MerkleTree {
    /// A well-formed tree: a valid tree size's worth of nodes.
    pub open spec fn wf(self) -> bool {
        &&& 1 <= self.nodes@.len() <= MAX_TREE_SIZE
        &&& all_ones(self.nodes@.len() as nat)
    }

    /// Builds a tree over these leaves, whose number must be a power of
    /// two; each upper node combines its two children.
    pub fn from_leaves(leaves: Vec<u64>) -> (r: Result<MerkleTree, TreeSizeError>)
        requires
            leaves@.len() <= usize::MAX / 2,
        ensures
            r matches Ok(tree) ==> {
                &&& tree.wf()
                &&& tree.nodes@.len() == 2 * leaves@.len() - 1
                &&& tree.nodes@.subrange(0, leaves@.len() as int) == leaves@
            },
            leaves@.len() == 0 ==> r == Result::<MerkleTree, TreeSizeError>::Err(
                TreeSizeError::ZeroSize,
            ),
            leaves@.len() > 0 && !all_ones((2 * leaves@.len() - 1) as nat) ==> (r matches Err(e)
                && e == TreeSizeError::InvalidSize((2 * leaves@.len() - 1) as usize)),
            leaves@.len() > 0 && all_ones((2 * leaves@.len() - 1) as nat) && 2 * leaves@.len() - 1
                > MAX_TREE_SIZE ==> (r matches Err(e) && e == TreeSizeError::HugeTreeUnsupported(
                (2 * leaves@.len() - 1) as usize,
            )),
            leaves@.len() > 0 && all_ones((2 * leaves@.len() - 1) as nat) && 2 * leaves@.len() - 1
                <= MAX_TREE_SIZE ==> r is Ok,
    {
        let leaf_count = leaves.len();
        let size = match TreeSize::from_leaf_count(leaf_count) {
            Ok(s) => s,
            Err(e) => {
                return Err(e);
            },
        };
        let ghost gleaves = leaves@;
        let ghost total = size.0 as int;
        proof {
            assert(total == 2 * leaf_count - 1);
            assert(all_ones((2 * leaf_count - 1) as nat));
            assert((2 * leaf_count - 1) as nat % 2 == 1);
            assert(((2 * leaf_count - 1) as nat) / 2 == (leaf_count - 1) as nat);
            assert(all_ones((leaf_count - 1) as nat));
        }
        let mut nodes = leaves;
        let mut level_start: usize = 0;
        let mut level_size: usize = leaf_count;
        proof {
            assert(nodes@.subrange(0, leaf_count as int) =~= gleaves);
        }
        while level_size > 1
            invariant
                1 <= level_size,
                all_ones((level_size - 1) as nat),
                nodes@.len() == level_start + level_size,
                level_start + 2 * level_size - 1 == total,
                1 <= total <= MAX_TREE_SIZE,
                all_ones(total as nat),
                leaf_count == gleaves.len() <= nodes@.len(),
                nodes@.subrange(0, leaf_count as int) == gleaves,
            decreases level_size,
        {
            proof {
                assert((level_size - 1) as nat % 2 == 1);
            }
            let half = level_size / 2;
            let mut i: usize = 0;
            while i < half
                invariant
                    level_size == half * 2,
                    1 <= level_size,
                    0 <= i <= half,
                    nodes@.len() == level_start + level_size + i,
                    level_start + 2 * level_size - 1 == total,
                    total <= MAX_TREE_SIZE,
                    leaf_count == gleaves.len(),
                    leaf_count <= level_start + level_size,
                    nodes@.subrange(0, leaf_count as int) == gleaves,
                decreases half - i,
            {
                let left = nodes[level_start + 2 * i];
                let right = nodes[level_start + 2 * i + 1];
                let parent = combine(left, right);
                nodes.push(parent);
                proof {
                    assert(nodes@.subrange(0, leaf_count as int) =~= nodes@.drop_last().subrange(
                        0,
                        leaf_count as int,
                    ));
                }
                i += 1;
            }
            proof {
                assert(((level_size - 1) as nat) / 2 == (half - 1) as nat);
                assert(all_ones((half - 1) as nat));
            }
            level_start = level_start + level_size;
            level_size = half;
        }
        proof {
            assert(level_size == 1);
            assert(nodes@.len() == total);
        }
        Ok(MerkleTree { nodes })
    }

    /// The number of leaves of the tree.
    pub fn leaves_count(&self) -> (r: usize)
        requires
            self.wf(),
        ensures
            r == (self.nodes@.len() + 1) / 2,
            r >= 1,
    {
        (self.nodes.len() + 1) / 2
    }

    /// The value of the node at this absolute index.
    pub fn node_value(&self, abs_index: usize) -> (r: u64)
        requires
            abs_index < self.nodes@.len(),
        ensures
            r == self.nodes@[abs_index as int],
    {
        self.nodes[abs_index]
    }
}

/// An error in extracting a merkle proof.
#[derive(Debug, Clone, PartialEq, Eq)]
pub enum MerkleTreeProofExtractionError {
    /// The requested leaf indices are not sorted or not unique.
    UnsortedOrUniqueLeavesIndices(Vec<usize>),
    /// A requested leaf index is at or over the leaf count, which follows.
    IndexOutOfRange(Vec<usize>, usize),
}

/// Whether the leaf indices are strictly increasing (sorted and unique).
pub open spec fn spec_sorted_and_unique(v: Seq<usize>) -> bool {
    forall|i: int| 0 <= i < v.len() - 1 ==> #[trigger] v[i] < v[i + 1]
}

/// Ensures the leaves indices are sorted and unique.
pub fn is_sorted_and_unique(leaves_indices: &[usize]) -> (r: bool)
    ensures
        r == spec_sorted_and_unique(leaves_indices@),
{
    let n = leaves_indices.len();
    if n == 0 {
        return true;
    }
    let mut i: usize = 0;
    while i < n - 1
        invariant
            n == leaves_indices@.len(),
            n >= 1,
            0 <= i <= n - 1,
            forall|j: int| 0 <= j < i ==> #[trigger] leaves_indices@[j] < leaves_indices@[j + 1],
        decreases n - i,
    {
        if !(leaves_indices[i] < leaves_indices[i + 1]) {
            proof {
                assert(!(leaves_indices@[i as int] < leaves_indices@[i as int + 1]));
            }
            return false;
        }
        i += 1;
    }
    true
}

/// A node of the tree carried in a proof: its absolute index and value.
#[derive(Debug, Clone, Copy, PartialEq, Eq, Structural)]
pub struct TreeNode {
    pub abs_index: usize,
    pub value: u64,
}

/// Every carried node is a node of the tree, with the tree's value.
pub open spec fn nodes_belong_to(v: Seq<TreeNode>, tree: Seq<u64>) -> bool {
    forall|k: int| 0 <= k < v.len() ==> (#[trigger] v[k]).abs_index < tree.len() && v[k].value
        == tree[v[k].abs_index as int]
}

/// No two carried nodes stand at the same tree position.
pub open spec fn nodes_distinct(v: Seq<TreeNode>) -> bool {
    forall|j: int, k: int| 0 <= j < k < v.len() ==> v[j].abs_index != v[k].abs_index
}

/// No carried node stands at a requested leaf's position: what the
/// verifier already holds is never packed into the proof.
pub open spec fn nodes_avoid_leaves(v: Seq<TreeNode>, leaves: Seq<usize>) -> bool {
    forall|j: int, k: int| 0 <= j < v.len() && 0 <= k < leaves.len() ==> (
    #[trigger] v[j]).abs_index != #[trigger] leaves[k]
}

/// Merkle proofs for multiple leaves.
#[derive(Debug, Clone, PartialEq, Eq)]
pub struct MultiProofNodes {
    /// The leaves where the calculation will start.
    pub leaves: Vec<TreeNode>,
    /// The nodes needed beside them to recreate the root hash.
    pub nodes: Vec<TreeNode>,
}

/// Whether the id list `v` contains `x`.
fn indices_contain(v: &Vec<usize>, x: usize) -> (r: bool)
    ensures
        r == v@.contains(x),
{
    let n = v.len();
    let mut i: usize = 0;
    while i < n
        invariant
            n == v@.len(),
            0 <= i <= n,
            forall|j: int| 0 <= j < i ==> v@[j] != x,
        decreases n - i,
    {
        if v[i] == x {
            proof {
                assert(v@[i as int] == x);
            }
            return true;
        }
        i += 1;
    }
    proof {
        assert(!v@.contains(x)) by {
            if v@.contains(x) {
                let k = choose|k: int| 0 <= k < v@.len() && v@[k] == x;
                assert(v@[k] != x);
            }
        }
    }
    false
}

impl MultiProofNodes {
    /// Extracts the proof for the given leaves of the tree.
    ///
    /// The leaf indices must be sorted, unique and within the leaf count.
    /// Level by level, the siblings of the nodes on the leaves' paths are
    /// collected, leaving out those that stand on a path themselves and
    /// those the verifier can compute from the level below.
    pub fn from_tree_leaves(tree: &MerkleTree, leaves_indices: &[usize]) -> (r: Result<
        Self,
        MerkleTreeProofExtractionError,
    >)
        requires
            tree.wf(),
        ensures
            !spec_sorted_and_unique(leaves_indices@) ==> (r matches Err(
                MerkleTreeProofExtractionError::UnsortedOrUniqueLeavesIndices(v),
            ) && v@ == leaves_indices@),
            spec_sorted_and_unique(leaves_indices@) && (exists|k: int|
                0 <= k < leaves_indices@.len() && leaves_indices@[k] >= (tree.nodes@.len() + 1)
                    / 2) ==> (r matches Err(
                MerkleTreeProofExtractionError::IndexOutOfRange(v, c),
            ) && v@ == leaves_indices@ && c == (tree.nodes@.len() + 1) / 2),
            spec_sorted_and_unique(leaves_indices@) && (forall|k: int|
                0 <= k < leaves_indices@.len() ==> #[trigger] leaves_indices@[k] < (
                tree.nodes@.len() + 1) / 2) ==> (r matches Ok(proof_nodes) && {
                &&& proof_nodes.leaves@.len() == leaves_indices@.len()
                &&& forall|k: int| 0 <= k < leaves_indices@.len() ==> (
                #[trigger] proof_nodes.leaves@[k]).abs_index == leaves_indices@[k]
                    && proof_nodes.leaves@[k].value == tree.nodes@[leaves_indices@[k] as int]
                &&& nodes_belong_to(proof_nodes.nodes@, tree.nodes@)
                &&& nodes_distinct(proof_nodes.nodes@)
                &&& nodes_avoid_leaves(proof_nodes.nodes@, leaves_indices@)
            }),
    {
        if !is_sorted_and_unique(leaves_indices) {
            let mut copy: Vec<usize> = Vec::new();
            copy_indices(leaves_indices, &mut copy);
            return Err(MerkleTreeProofExtractionError::UnsortedOrUniqueLeavesIndices(copy));
        }

        let leaf_count = tree.leaves_count();
        let ln = leaves_indices.len();
        let mut li: usize = 0;
        while li < ln
            invariant
                tree.wf(),
                spec_sorted_and_unique(leaves_indices@),
                leaf_count == (tree.nodes@.len() + 1) / 2,
                ln == leaves_indices@.len(),
                0 <= li <= ln,
                forall|j: int| 0 <= j < li ==> #[trigger] leaves_indices@[j] < leaf_count,
            decreases ln - li,
        {
            if leaves_indices[li] >= leaf_count {
                proof {
                    assert(leaves_indices@[li as int] >= leaf_count);
                }
                let mut copy: Vec<usize> = Vec::new();
                copy_indices(leaves_indices, &mut copy);
                return Err(MerkleTreeProofExtractionError::IndexOutOfRange(copy, leaf_count));
            }
            li += 1;
        }

        proof {
            assert(tree.nodes@.len() as nat % 2 == 1);
            assert((tree.nodes@.len() as nat) / 2 == ((tree.nodes@.len() + 1) / 2 - 1) as nat);
            assert(all_ones((leaf_count - 1) as nat));
        }

        // The indices of the leaves' path nodes at the current level, and
        // the nodes the verifier can compute from the level below.
        let mut cur: Vec<usize> = Vec::new();
        copy_indices(leaves_indices, &mut cur);
        let mut computed_from_prev_level: Vec<usize> = Vec::new();
        let mut proof: Vec<TreeNode> = Vec::new();

        let total = tree.nodes.len();
        let mut level_start: usize = 0;
        let mut level_size: usize = leaf_count;
        while level_size > 1
            invariant
                tree.wf(),
                1 <= level_size,
                all_ones((level_size - 1) as nat),
                level_start + 2 * level_size - 1 == total,
                total == tree.nodes@.len() <= MAX_TREE_SIZE,
                leaf_count == (total + 1) / 2,
                level_start == 0 || level_start >= leaf_count,
                level_start == 0 ==> cur@ == leaves_indices@,
                forall|j: int| 0 <= j < leaves_indices@.len() ==> #[trigger] leaves_indices@[j]
                    < leaf_count,
                cur@.len() == leaves_indices@.len(),
                forall|k: int| 0 <= k < cur@.len() ==> #[trigger] cur@[k] < level_size,
                nodes_belong_to(proof@, tree.nodes@),
                nodes_distinct(proof@),
                nodes_avoid_leaves(proof@, leaves_indices@),
                forall|j: int| 0 <= j < proof@.len() ==> (#[trigger] proof@[j]).abs_index
                    < level_start,
            decreases level_size,
        {
            proof {
                assert((level_size - 1) as nat % 2 == 1);
            }
            let half = level_size / 2;

            // The absolute indices of the path nodes at this level.
            let mut path_abs: Vec<usize> = Vec::new();
            let cn = cur.len();
            let mut k: usize = 0;
            while k < cn
                invariant
                    cn == cur@.len(),
                    0 <= k <= cn,
                    level_start + level_size <= total,
                    forall|j: int| 0 <= j < cur@.len() ==> #[trigger] cur@[j] < level_size,
                    path_abs@.len() == k,
                    forall|j: int| 0 <= j < k ==> #[trigger] path_abs@[j] == level_start
                        + cur@[j],
                decreases cn - k,
            {
                path_abs.push(level_start + cur[k]);
                k += 1;
            }

            // The siblings that the proof must carry: those that are not
            // themselves on a path and cannot be computed from below.
            let mut kept_abs: Vec<usize> = Vec::new();
            let ghost plen0 = proof@.len();
            let mut k: usize = 0;
            while k < cn
                invariant
                    tree.wf(),
                    cn == cur@.len(),
                    0 <= k <= cn,
                    level_size == half * 2,
                    level_start + 2 * level_size - 1 == total,
                    total == tree.nodes@.len(),
                    leaf_count == (total + 1) / 2,
                    level_start == 0 || level_start >= leaf_count,
                    level_start == 0 ==> cur@ == leaves_indices@,
                    forall|j: int| 0 <= j < leaves_indices@.len() ==> #[trigger] leaves_indices@[j] < leaf_count,
                    path_abs@.len() == cn,
                    forall|j: int| 0 <= j < cn ==> #[trigger] path_abs@[j] == level_start
                        + cur@[j],
                    forall|j: int| 0 <= j < cur@.len() ==> #[trigger] cur@[j] < level_size,
                    forall|j: int| 0 <= j < kept_abs@.len() ==> level_start <= #[trigger] kept_abs@[j] < level_start + level_size,
                    forall|j: int, l: int| 0 <= j < l < kept_abs@.len() ==> kept_abs@[j]
                        != kept_abs@[l],
                    nodes_belong_to(proof@, tree.nodes@),
                    nodes_distinct(proof@),
                    nodes_avoid_leaves(proof@, leaves_indices@),
                    proof@.len() == plen0 + kept_abs@.len(),
                    forall|j: int| 0 <= j < plen0 ==> (#[trigger] proof@[j]).abs_index
                        < level_start,
                    forall|j: int| 0 <= j < kept_abs@.len() ==> (#[trigger] proof@[plen0
                        + j]).abs_index == kept_abs@[j],
                decreases cn - k,
            {
                let idx = cur[k];
                let sib = if idx % 2 == 0 {
                    idx + 1
                } else {
                    idx - 1
                };
                proof {
                    assert(cur@[k as int] < level_size);
                    assert(sib < level_size);
                }
                let sib_abs = level_start + sib;
                if !indices_contain(&path_abs, sib_abs) && !indices_contain(
                    &computed_from_prev_level,
                    sib_abs,
                ) && !indices_contain(&kept_abs, sib_abs) {
                    proof {
                        if level_start == 0 {
                            assert forall|l: int|
                                0 <= l < leaves_indices@.len() implies sib_abs
                                != leaves_indices@[l] by {
                                assert(path_abs@[l] == level_start + cur@[l]);
                                assert(!path_abs@.contains(sib_abs as usize));
                                assert(path_abs@[l] != sib_abs);
                            }
                        }
                        assert forall|j: int| 0 <= j < proof@.len() implies (
                        #[trigger] proof@[j]).abs_index != sib_abs by {
                            if j < plen0 {
                                assert(proof@[j].abs_index < level_start);
                            } else {
                                let i = j - plen0;
                                assert(proof@[plen0 + i].abs_index == kept_abs@[i]);
                                assert(!kept_abs@.contains(sib_abs as usize));
                                assert(kept_abs@[i] != sib_abs);
                            }
                        }
                    }
                    kept_abs.push(sib_abs);
                    proof.push(TreeNode { abs_index: sib_abs, value: tree.nodes[sib_abs] });
                }
                k += 1;
            }

            // The nodes the verifier can compute at the next level: the
            // parents of two kept siblings standing next to each other.
            let mut next_computed: Vec<usize> = Vec::new();
            let kn = kept_abs.len();
            if kn >= 1 {
                let mut k: usize = 0;
                while k < kn - 1
                    invariant
                        kn == kept_abs@.len(),
                        kn >= 1,
                        0 <= k <= kn - 1,
                        level_size == half * 2,
                        level_start + 2 * level_size - 1 == total,
                        total <= MAX_TREE_SIZE,
                        forall|j: int| 0 <= j < kept_abs@.len() ==> #[trigger] kept_abs@[j]
                            < total,
                    decreases kn - k,
                {
                    let a = kept_abs[k];
                    let b = kept_abs[k + 1];
                    if a >= level_start && (a - level_start) % 2 == 0 && a + 1 == b {
                        let parent = level_start + level_size + (a - level_start) / 2;
                        next_computed.push(parent);
                    }
                    k += 1;
                }
            }
            computed_from_prev_level = next_computed;

            // Climb one level: each path index halves.
            let mut k: usize = 0;
            while k < cn
                invariant
                    cn == cur@.len(),
                    0 <= k <= cn,
                    level_size == half * 2,
                    1 <= half,
                    forall|j: int| 0 <= j < cur@.len() ==> j < k ==> #[trigger] cur@[j] < half,
                    forall|j: int| 0 <= j < cur@.len() ==> j >= k ==> #[trigger] cur@[j]
                        < level_size,
                decreases cn - k,
            {
                let halved = cur[k] / 2;
                cur.set(k, halved);
                k += 1;
            }

            proof {
                assert(((level_size - 1) as nat) / 2 == (half - 1) as nat);
                assert(all_ones((half - 1) as nat));
                assert forall|j: int| 0 <= j < proof@.len() implies (
                #[trigger] proof@[j]).abs_index < level_start + level_size by {
                    if j >= plen0 {
                        let i = j - plen0;
                        assert(proof@[plen0 + i].abs_index == kept_abs@[i]);
                    }
                }
            }
            level_start = level_start + level_size;
            level_size = half;
        }

        // The leaves themselves, with their values.
        let mut leaves: Vec<TreeNode> = Vec::new();
        let mut li: usize = 0;
        while li < ln
            invariant
                tree.wf(),
                ln == leaves_indices@.len(),
                0 <= li <= ln,
                leaf_count == (tree.nodes@.len() + 1) / 2,
                forall|j: int| 0 <= j < ln ==> #[trigger] leaves_indices@[j] < leaf_count,
                leaves@.len() == li,
                forall|j: int| 0 <= j < li ==> (#[trigger] leaves@[j]).abs_index
                    == leaves_indices@[j] && leaves@[j].value == tree.nodes@[leaves_indices@[j] as int],
            decreases ln - li,
        {
            let i = leaves_indices[li];
            proof {
                assert(leaves_indices@[li as int] < leaf_count);
                assert(leaf_count <= tree.nodes@.len());
            }
            leaves.push(TreeNode { abs_index: i, value: tree.nodes[i] });
            li += 1;
        }

        Ok(MultiProofNodes { leaves, nodes: proof })
    }

    /// The proof nodes beside the leaves.
    pub fn nodes(&self) -> (r: &Vec<TreeNode>)
        ensures
            r@ == self.nodes@,
    {
        &self.nodes
    }

    /// The leaves the proof is for.
    pub fn leaves(&self) -> (r: &Vec<TreeNode>)
        ensures
            r@ == self.leaves@,
    {
        &self.leaves
    }
}

/// Copies a slice of indices into a vector.
fn copy_indices(src: &[usize], dst: &mut Vec<usize>)
    requires
        old(dst)@.len() == 0,
    ensures
        final(dst)@ == src@,
{
    let n = src.len();
    let mut i: usize = 0;
    while i < n
        invariant
            n == src@.len(),
            0 <= i <= n,
            dst@ =~= src@.subrange(0, i as int),
        decreases n - i,
    {
        dst.push(src[i]);
        proof {
            assert(dst@ =~= src@.subrange(0, i + 1 as int));
        }
        i += 1;
    }
    proof {
        assert(dst@ =~= src@);
    }
}

} // verus!
