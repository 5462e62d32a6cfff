use chia_sdk_driver::bytes::Bytes32;
use chia_sdk_driver::cat_layer::CATLayer;
use chia_sdk_driver::coin::{Coin, EveProof, LineageProof, Proof};
use chia_sdk_driver::datalayer::{get_merkle_tree, DelegatedPuzzle};
use chia_sdk_driver::delegated_layers::{OracleLayer, WriterLayer, WriterLayerSolution};
use chia_sdk_driver::delegation_layer::{DelegationBranch, DelegationLayer, DelegationLayerSolution};
use chia_sdk_driver::error::{DriverError, FromClvmError};
use chia_sdk_driver::layer::Layer;
use chia_sdk_driver::merkle::MerkleTree;
use chia_sdk_driver::metadata::DataStoreMetadata;
use chia_sdk_driver::modules as known;
use chia_sdk_driver::modules::{DataLayerPrograms, Module, Modules};
use chia_sdk_driver::node::Node;
use chia_sdk_driver::puzzle::Puzzle;
use chia_sdk_driver::singleton_layer::{SingletonLayer, SingletonSolution};
use chia_sdk_driver::state_layer::{NftStateLayer, NftStateLayerSolution};

fn atom(bytes: &[u8]) -> Node {
    Node::atom(bytes)
}

fn hash(b: u8) -> Bytes32 {
    Bytes32::new([b; 32])
}

fn modules() -> Modules {
    Modules::standard(DataLayerPrograms {
        delegation_layer: Node::pair(atom(&[1]), Node::nil()),
        writer_filter: Node::pair(atom(&[1]), atom(&[2])),
        oracle: Node::pair(atom(&[1]), atom(&[3])),
        dl_metadata_updater_hash: hash(0xd1),
    })
    .unwrap()
}

/// Builds a layer, reads it back, and does the same with a solution.
fn round_trip<L: Layer + PartialEq + std::fmt::Debug>(layer: L, solution: L::Solution, m: &Modules)
where
    L::Solution: PartialEq + std::fmt::Debug,
{
    let puzzle = layer.construct_puzzle(m);
    assert_eq!(L::parse_puzzle(&puzzle, m), Ok(Some(layer)));
    assert_eq!(L::parse_puzzle(&atom(&[1]), m), Ok(None));
    let node = L::construct_solution(&solution);
    assert_eq!(L::parse_solution(&node), Ok(solution));
}

#[test]
fn every_layer_reads_back_what_it_builds() {
    let m = modules();
    let inner = Node::pair(atom(&[1]), Node::nil());
    round_trip(
        SingletonLayer::new(hash(1), inner.clone()),
        SingletonSolution {
            lineage_proof: Proof::Lineage(LineageProof {
                parent_parent_coin_info: hash(2),
                parent_inner_puzzle_hash: hash(3),
                parent_amount: 5,
            }),
            amount: 5,
            inner_solution: atom(&[7]),
        },
        &m,
    );
    round_trip(
        NftStateLayer::new(DataStoreMetadata::root_hash_only(hash(4)), hash(5), inner.clone()),
        NftStateLayerSolution { inner_solution: atom(&[7]) },
        &m,
    );
    round_trip(
        DelegationLayer::new(hash(1), hash(2), hash(3)),
        DelegationLayerSolution {
            merkle_proof: MerkleTree::new(vec![hash(1), hash(2), hash(3)]).get_proof(hash(3)),
            puzzle_reveal: inner.clone(),
            puzzle_solution: Node::nil(),
        },
        &m,
    );
    round_trip(
        DelegationLayer::new(hash(1), hash(2), hash(3)),
        DelegationLayerSolution {
            merkle_proof: None,
            puzzle_reveal: inner.clone(),
            puzzle_solution: atom(&[1]),
        },
        &m,
    );
    round_trip(
        WriterLayer::new(inner.clone()),
        WriterLayerSolution { inner_solution: atom(&[7]) },
        &m,
    );
    round_trip(OracleLayer::new(hash(6), 1000), (), &m);
    round_trip(OracleLayer::new(hash(6), 0), (), &m);
    round_trip(OracleLayer::new(hash(6), u64::MAX), (), &m);
    round_trip(
        CATLayer::<Node>::new(hash(9), inner),
        chia_sdk_driver::cat_layer::CatSolution {
            lineage_proof: Proof::Eve(EveProof { parent_parent_coin_info: hash(1), parent_amount: 0 }),
            prev_coin_id: hash(2),
            inner_puzzle_solution: Node::nil(),
        },
        &m,
    );
}

#[test]
fn a_layer_of_another_module_is_not_recognised() {
    let m = modules();
    let inner = Node::pair(atom(&[1]), Node::nil());
    let cat = CATLayer::<Node>::new(hash(9), inner.clone()).construct_puzzle(&m);
    assert_eq!(SingletonLayer::parse_puzzle(&cat, &m), Ok(None));
    assert_eq!(NftStateLayer::<DataStoreMetadata>::parse_puzzle(&cat, &m), Ok(None));
    assert_eq!(DelegationLayer::parse_puzzle(&cat, &m), Ok(None));
    let singleton = SingletonLayer::new(hash(1), inner).construct_puzzle(&m);
    assert_eq!(CATLayer::<Node>::parse_puzzle(&singleton, &m), Ok(None));
}

#[test]
fn a_layer_with_foreign_hashes_is_a_mismatch() {
    let m = modules();
    let mut other = m.clone();
    other.singleton_launcher = Module::new(atom(&[5]));
    let puzzle = SingletonLayer::new(hash(1), atom(&[1])).construct_puzzle(&other);
    assert_eq!(SingletonLayer::parse_puzzle(&puzzle, &m), Err(DriverError::LayerMismatch));
    // arguments of another shape
    let short = chia_sdk_driver::curry::curry(&m.cat.program, &vec![atom(&[1; 32])]);
    assert_eq!(
        CATLayer::<Node>::parse_puzzle(&short, &m),
        Err(DriverError::FromClvm(FromClvmError::ExpectedPair))
    );
    let wrong = chia_sdk_driver::curry::curry(
        &m.cat.program,
        &vec![atom(&[1; 32]), atom(&[2; 31]), atom(&[1])],
    );
    assert_eq!(
        CATLayer::<Node>::parse_puzzle(&wrong, &m),
        Err(DriverError::FromClvm(FromClvmError::WrongAtomLength { expected: 32, found: 31 }))
    );
    let foreign = chia_sdk_driver::curry::curry(
        &m.cat.program,
        &vec![atom(&[1; 32]), atom(&[2; 32]), atom(&[1])],
    );
    assert_eq!(CATLayer::<Node>::parse_puzzle(&foreign, &m), Err(DriverError::LayerMismatch));
}

#[test]
fn proofs_as_nodes() {
    let eve = Proof::Eve(EveProof { parent_parent_coin_info: hash(1), parent_amount: 300 });
    assert_eq!(eve.to_clvm(), Node::list(&vec![atom(&[1; 32]), atom(&[0x01, 0x2c])]));
    assert_eq!(Proof::from_clvm(&eve.to_clvm()), Ok(eve));
    let lineage = Proof::Lineage(LineageProof {
        parent_parent_coin_info: hash(1),
        parent_inner_puzzle_hash: hash(2),
        parent_amount: 0,
    });
    assert_eq!(
        lineage.to_clvm(),
        Node::list(&vec![atom(&[1; 32]), atom(&[2; 32]), Node::nil()])
    );
    assert_eq!(Proof::from_clvm(&lineage.to_clvm()), Ok(lineage));
    assert_eq!(Proof::from_clvm(&Node::nil()), Err(FromClvmError::NoMatchingVariant));
    assert_eq!(
        Proof::from_clvm(&Node::list(&vec![atom(&[1; 31]), atom(&[1])])),
        Err(FromClvmError::NoMatchingVariant)
    );
    assert_eq!(
        SingletonLayer::parse_solution(&Node::list(&vec![Node::nil(), atom(&[1]), Node::nil()])),
        Err(FromClvmError::NoMatchingVariant)
    );
}

#[test]
fn parsed_puzzles() {
    let m = modules();
    let raw = Puzzle::parse(&atom(&[1]));
    assert!(!raw.is_curried());
    assert_eq!(raw.mod_hash(), atom(&[1]).tree_hash());
    assert_eq!(raw.as_curried(), Err(DriverError::NonStandardLayer));
    assert_eq!(raw.tree_hash(), atom(&[1]).tree_hash());
    let node = CATLayer::<Node>::new(hash(9), atom(&[1])).construct_puzzle(&m);
    let curried = Puzzle::parse(&node);
    assert!(curried.is_curried());
    assert_eq!(curried.mod_hash(), m.cat.hash);
    assert_eq!(curried.tree_hash(), node.tree_hash());
    assert_eq!(curried.node(), &node);
    let parts = curried.as_curried().unwrap();
    assert_eq!(parts.curried, node);
    assert_eq!(
        chia_sdk_driver::curry::curried_args_of(&parts.args, 3).unwrap()[1],
        &atom(&[9; 32])
    );
}

#[test]
fn delegation_layer_branches() {
    let puzzle = Node::pair(atom(&[1]), Node::nil());
    let other = Node::pair(atom(&[1]), atom(&[1]));
    let m = modules();
    let leaf = DelegatedPuzzle::Admin(puzzle.tree_hash()).leaf_hash();
    let tree = MerkleTree::new(vec![hash(1), leaf, hash(3)]);
    let layer = DelegationLayer::new(hash(0x11), other.tree_hash(), tree.root);
    let solution = |merkle_proof, reveal: &Node| DelegationLayerSolution {
        merkle_proof,
        puzzle_reveal: reveal.clone(),
        puzzle_solution: Node::nil(),
    };
    assert_eq!(
        layer.branch(&solution(tree.get_proof(leaf), &puzzle), &m),
        Ok(DelegationBranch::Delegated)
    );
    assert_eq!(layer.branch(&solution(None, &other), &m), Ok(DelegationBranch::Owner));
    // the owner's puzzle is no leaf, a leaf is not the owner's puzzle
    assert_eq!(layer.branch(&solution(None, &puzzle), &m), Err(DriverError::LayerMismatch));
    assert_eq!(
        layer.branch(&solution(tree.get_proof(hash(1)), &puzzle), &m),
        Err(DriverError::InvalidMerkleProof)
    );
    assert_eq!(
        layer.branch(&solution(tree.get_proof(leaf), &other), &m),
        Err(DriverError::InvalidMerkleProof)
    );
}

#[test]
fn delegated_puzzles_from_memos() {
    let mut memos = vec![vec![1], vec![7; 32], vec![3], vec![8; 32], vec![0x03, 0xe8], vec![9]];
    assert_eq!(DelegatedPuzzle::from_memos(&mut memos), Ok(DelegatedPuzzle::Admin(hash(7))));
    assert_eq!(memos.len(), 4);
    assert_eq!(DelegatedPuzzle::from_memos(&mut memos), Ok(DelegatedPuzzle::Oracle(hash(8), 1000)));
    assert_eq!(memos, vec![vec![9]]);
    assert_eq!(DelegatedPuzzle::from_memos(&mut memos), Err(DriverError::MissingMemo));
    assert_eq!(memos, vec![vec![9]]);
    let mut memos = vec![vec![2, 2], vec![7; 32]];
    assert_eq!(DelegatedPuzzle::from_memos(&mut memos), Err(DriverError::InvalidMemo));
    let mut memos = vec![vec![2], vec![7; 33]];
    assert_eq!(DelegatedPuzzle::from_memos(&mut memos), Err(DriverError::InvalidMemo));
    let mut memos = vec![vec![0], vec![7; 32]];
    assert_eq!(DelegatedPuzzle::from_memos(&mut memos), Err(DriverError::InvalidMemo));
    assert_eq!(memos.len(), 2);
    let mut memos = vec![vec![2], vec![7; 32]];
    assert_eq!(DelegatedPuzzle::from_memos(&mut memos), Ok(DelegatedPuzzle::Writer(hash(7))));
    assert!(memos.is_empty());
    let _ = get_merkle_tree(&vec![]);
    let _ = Coin::new(hash(1), hash(2), 3);
}

#[test]
fn a_known_program_is_held_against_its_hash() {
    let bytes = chia_puzzles::cat::CAT_PUZZLE.to_vec();
    let cat = known::load_known(&bytes, &known::CAT_PUZZLE_HASH).unwrap();
    assert_eq!(cat.hash.bytes, chia_puzzles::cat::CAT_PUZZLE_HASH.to_bytes());
    assert_eq!(cat.program.tree_hash(), cat.hash);
    // the same program under the hash of another
    assert_eq!(
        known::load_known(&bytes, &known::STANDARD_PUZZLE_HASH),
        Err(DriverError::LayerMismatch)
    );
    // bytes that are no program
    assert_eq!(known::load_known(&vec![0xff], &known::CAT_PUZZLE_HASH), Err(DriverError::Vm));
    // the hashes are those by which the programs are known
    assert_eq!(
        known::SINGLETON_TOP_LAYER_PUZZLE_HASH,
        chia_puzzles::singleton::SINGLETON_TOP_LAYER_PUZZLE_HASH.to_bytes()
    );
    assert_eq!(
        known::SINGLETON_LAUNCHER_PUZZLE_HASH,
        chia_puzzles::singleton::SINGLETON_LAUNCHER_PUZZLE_HASH.to_bytes()
    );
    assert_eq!(
        known::NFT_STATE_LAYER_PUZZLE_HASH,
        chia_puzzles::nft::NFT_STATE_LAYER_PUZZLE_HASH.to_bytes()
    );
    assert_eq!(known::CAT_PUZZLE_HASH, chia_puzzles::cat::CAT_PUZZLE_HASH.to_bytes());
    assert_eq!(
        known::STANDARD_PUZZLE_HASH,
        chia_puzzles::standard::STANDARD_PUZZLE_HASH.to_bytes()
    );
    assert_eq!(
        known::NFT_OWNERSHIP_LAYER_PUZZLE_HASH,
        chia_puzzles::nft::NFT_OWNERSHIP_LAYER_PUZZLE_HASH.to_bytes()
    );
    assert_eq!(
        known::NFT_ROYALTY_TRANSFER_PUZZLE_HASH,
        chia_puzzles::nft::NFT_ROYALTY_TRANSFER_PUZZLE_HASH.to_bytes()
    );
    let m = modules();
    assert_eq!(m.standard_p2.hash.bytes, known::STANDARD_PUZZLE_HASH);
    assert_eq!(m.nft_ownership_layer.hash.bytes, known::NFT_OWNERSHIP_LAYER_PUZZLE_HASH);
    assert_eq!(m.nft_royalty_transfer.hash.bytes, known::NFT_ROYALTY_TRANSFER_PUZZLE_HASH);
}

#[test]
fn writer_and_oracle_layers_as_puzzles() {
    let m = modules();
    let inner = Node::pair(atom(&[1]), Node::nil());
    // the wrapper curried with the puzzle inside
    let writer = WriterLayer::new(inner.clone()).construct_puzzle(&m);
    assert_eq!(
        writer,
        chia_sdk_driver::curry::curry(&m.writer_filter.program, &vec![inner.clone()])
    );
    assert_eq!(WriterLayer::parse_puzzle(&writer, &m), Ok(Some(WriterLayer::new(inner.clone()))));
    assert_eq!(OracleLayer::parse_puzzle(&writer, &m), Ok(None));
    // the oracle puzzle curried with the puzzle hash and the fee
    let oracle = OracleLayer::new(hash(6), 1000).construct_puzzle(&m);
    assert_eq!(
        oracle,
        chia_sdk_driver::curry::curry(
            &m.oracle.program,
            &vec![atom(&[6; 32]), atom(&[0x03, 0xe8])]
        )
    );
    assert_eq!(WriterLayer::parse_puzzle(&oracle, &m), Ok(None));
    // arguments of another shape
    let wrong = chia_sdk_driver::curry::curry(&m.oracle.program, &vec![atom(&[6; 31]), atom(&[1])]);
    assert_eq!(
        OracleLayer::parse_puzzle(&wrong, &m),
        Err(DriverError::FromClvm(FromClvmError::WrongAtomLength { expected: 32, found: 31 }))
    );
    let wrong = chia_sdk_driver::curry::curry(&m.oracle.program, &vec![atom(&[6; 32]), atom(&[1; 9])]);
    assert_eq!(
        OracleLayer::parse_puzzle(&wrong, &m),
        Err(DriverError::FromClvm(FromClvmError::WrongAtomLength { expected: 8, found: 9 }))
    );
    let wrong = chia_sdk_driver::curry::curry(&m.writer_filter.program, &vec![inner.clone(), inner]);
    assert_eq!(
        WriterLayer::parse_puzzle(&wrong, &m),
        Err(DriverError::FromClvm(FromClvmError::ExpectedAtom))
    );
    // the solution of the wrapper is a list of one item
    assert_eq!(
        WriterLayerSolution::from_clvm(&Node::nil()),
        Err(FromClvmError::ExpectedPair)
    );
    assert_eq!(OracleLayer::new(hash(6), 1000).construct_spend(&m).solution, Node::nil());
}
