use chia_sdk_driver::bytes::Bytes32;
use chia_sdk_driver::datalayer::{get_merkle_tree, DelegatedPuzzle, HintType};
use chia_sdk_driver::merkle::{verify_proof, MerkleProof, MerkleTree};
use chia_sdk_driver::node::tree_hash_pair;

fn hash(b: u8) -> Bytes32 {
    Bytes32::new([b; 32])
}

fn sha(data: &[u8]) -> Bytes32 {
    let mut h = clvmr::sha2::Sha256::new();
    h.update(data);
    Bytes32::new(h.finalize())
}

#[test]
fn roots_of_small_trees() {
    assert_eq!(MerkleTree::new(vec![]).root, hash(0));
    assert_eq!(MerkleTree::new(vec![hash(1)]).root, hash(1));
    let two = tree_hash_pair(hash(1), hash(2));
    assert_eq!(MerkleTree::new(vec![hash(1), hash(2)]).root, two);
    // an odd level pairs its last node with itself
    let three = tree_hash_pair(two, tree_hash_pair(hash(3), hash(3)));
    assert_eq!(MerkleTree::new(vec![hash(1), hash(2), hash(3)]).root, three);
    let five = tree_hash_pair(
        tree_hash_pair(two, tree_hash_pair(hash(3), hash(4))),
        tree_hash_pair(tree_hash_pair(hash(5), hash(5)), tree_hash_pair(hash(5), hash(5))),
    );
    assert_eq!(MerkleTree::new((1..=5).map(hash).collect()).root, five);
}

#[test]
fn inner_nodes_hash_with_prefix_two() {
    let mut data = vec![2u8];
    data.extend([1; 32]);
    data.extend([2; 32]);
    assert_eq!(tree_hash_pair(hash(1), hash(2)), sha(&data));
}

#[test]
fn every_leaf_has_a_valid_proof() {
    for n in 1..=9u8 {
        let leaves: Vec<Bytes32> = (1..=n).map(hash).collect();
        let tree = MerkleTree::new(leaves.clone());
        for (i, leaf) in leaves.iter().enumerate() {
            let proof = tree.get_proof(*leaf).unwrap();
            assert_eq!(proof.index, i as u64);
            assert!(verify_proof(tree.root, *leaf, &proof));
            // the proof of one leaf is no proof of another value
            assert!(!verify_proof(tree.root, hash(0xee), &proof));
        }
        assert_eq!(tree.get_proof(hash(0xee)), None);
    }
}

#[test]
fn proof_of_three_leaves_exact() {
    let tree = MerkleTree::new(vec![hash(1), hash(2), hash(3)]);
    assert_eq!(
        tree.get_proof(hash(3)),
        Some(MerkleProof { index: 2, path: vec![hash(3), tree_hash_pair(hash(1), hash(2))] })
    );
    assert_eq!(
        tree.get_proof(hash(2)),
        Some(MerkleProof { index: 1, path: vec![hash(1), tree_hash_pair(hash(3), hash(3))] })
    );
}

#[test]
fn a_leaf_that_stands_twice_is_found_first() {
    let tree = MerkleTree::new(vec![hash(1), hash(2), hash(1)]);
    assert_eq!(tree.get_proof(hash(1)).unwrap().index, 0);
}

#[test]
fn wrong_position_or_path_is_refused() {
    let tree = MerkleTree::new((1..=4).map(hash).collect());
    let mut proof = tree.get_proof(hash(2)).unwrap();
    proof.index = 0;
    assert!(!verify_proof(tree.root, hash(2), &proof));
    let mut proof = tree.get_proof(hash(2)).unwrap();
    proof.path.pop();
    assert!(!verify_proof(tree.root, hash(2), &proof));
}

#[test]
fn leaves_of_delegated_puzzles() {
    let mut admin = vec![1u8];
    admin.extend([7; 32]);
    assert_eq!(DelegatedPuzzle::Admin(hash(7)).leaf_hash(), sha(&admin));
    let mut writer = vec![2u8];
    writer.extend([7; 32]);
    assert_eq!(DelegatedPuzzle::Writer(hash(7)).leaf_hash(), sha(&writer));
    let mut oracle = vec![3u8];
    oracle.extend([7; 32]);
    oracle.extend([0x03, 0xe8]);
    assert_eq!(DelegatedPuzzle::Oracle(hash(7), 1000).leaf_hash(), sha(&oracle));
    let mut free = vec![3u8];
    free.extend([7; 32]);
    assert_eq!(DelegatedPuzzle::Oracle(hash(7), 0).leaf_hash(), sha(&free));
}

#[test]
fn roles_with_the_same_hash_have_distinct_leaves() {
    let leaves = [
        DelegatedPuzzle::Admin(hash(7)).leaf_hash(),
        DelegatedPuzzle::Writer(hash(7)).leaf_hash(),
        DelegatedPuzzle::Oracle(hash(7), 0).leaf_hash(),
    ];
    assert_ne!(leaves[0], leaves[1]);
    assert_ne!(leaves[0], leaves[2]);
    assert_ne!(leaves[1], leaves[2]);
}

#[test]
fn order_of_delegated_puzzles_is_kept() {
    let a = DelegatedPuzzle::Admin(hash(1));
    let w = DelegatedPuzzle::Writer(hash(2));
    let one = get_merkle_tree(&vec![a, w]);
    let other = get_merkle_tree(&vec![w, a]);
    assert_eq!(one.leaves, vec![a.leaf_hash(), w.leaf_hash()]);
    assert_ne!(one.root, other.root);
    assert_eq!(one.root, tree_hash_pair(a.leaf_hash(), w.leaf_hash()));
}

#[test]
fn hint_type_values() {
    assert_eq!(HintType::AdminPuzzle.value(), 1);
    assert_eq!(HintType::WriterPuzzle.value(), 2);
    assert_eq!(HintType::OraclePuzzle.value(), 3);
    assert_eq!(HintType::from_value(2), Some(HintType::WriterPuzzle));
    assert_eq!(HintType::from_value(0), None);
    assert_eq!(HintType::from_value(4), None);
}
