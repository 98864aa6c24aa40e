use node_core::merkle::{
    is_sorted_and_unique, MerkleTree, MerkleTreeProofExtractionError, MultiProofNodes,
};

fn tree8() -> MerkleTree {
    MerkleTree::from_leaves((1..=8u64).collect()).unwrap()
}

#[test]
fn sorted_and_unique_check() {
    assert!(is_sorted_and_unique(&[]));
    assert!(is_sorted_and_unique(&[3]));
    assert!(is_sorted_and_unique(&[0, 1, 5]));
    assert!(!is_sorted_and_unique(&[1, 1]));
    assert!(!is_sorted_and_unique(&[2, 1]));
}

#[test]
fn tree_from_leaves_has_all_levels() {
    let tree = tree8();
    assert_eq!(tree.nodes.len(), 15);
    assert_eq!(tree.leaves_count(), 8);
    // The bottom level is the leaves themselves.
    for i in 0..8 {
        assert_eq!(tree.node_value(i), (i + 1) as u64);
    }
    assert!(MerkleTree::from_leaves(Vec::new()).is_err());
    assert!(MerkleTree::from_leaves(vec![1, 2, 3]).is_err());
}

#[test]
fn unsorted_indices_are_rejected() {
    let tree = tree8();
    assert_eq!(
        MultiProofNodes::from_tree_leaves(&tree, &[2, 1]),
        Err(MerkleTreeProofExtractionError::UnsortedOrUniqueLeavesIndices(vec![2, 1]))
    );
}

#[test]
fn out_of_range_indices_are_rejected() {
    let tree = tree8();
    assert_eq!(
        MultiProofNodes::from_tree_leaves(&tree, &[0, 8]),
        Err(MerkleTreeProofExtractionError::IndexOutOfRange(vec![0, 8], 8))
    );
}

#[test]
fn proof_for_single_leaf() {
    let tree = tree8();
    let proof = MultiProofNodes::from_tree_leaves(&tree, &[0]).unwrap();
    assert_eq!(proof.leaves().len(), 1);
    assert_eq!(proof.leaves()[0].abs_index, 0);
    assert_eq!(proof.leaves()[0].value, 1);
    // One sibling per level below the root.
    let indices: Vec<usize> = proof.nodes().iter().map(|n| n.abs_index).collect();
    assert_eq!(indices, vec![1, 9, 13]);
    for n in proof.nodes() {
        assert_eq!(n.value, tree.node_value(n.abs_index));
    }
}

#[test]
fn proof_for_adjacent_leaves_omits_their_parent_path() {
    let tree = tree8();
    // Leaves 0 and 1 are each other's siblings: the verifier has both, so
    // the proof carries only the upper siblings.
    let proof = MultiProofNodes::from_tree_leaves(&tree, &[0, 1]).unwrap();
    let indices: Vec<usize> = proof.nodes().iter().map(|n| n.abs_index).collect();
    assert_eq!(indices, vec![9, 13]);
}

#[test]
fn proof_for_all_leaves_needs_no_nodes() {
    let tree = tree8();
    let proof = MultiProofNodes::from_tree_leaves(&tree, &[0, 1, 2, 3, 4, 5, 6, 7]).unwrap();
    assert_eq!(proof.leaves().len(), 8);
    assert!(proof.nodes().is_empty());
}
