use chia_sdk_driver::bytes::Bytes32;
use chia_sdk_driver::coin::{Coin, CoinSpend, EveProof, LineageProof, Proof};
use chia_sdk_driver::condition::Condition;
use chia_sdk_driver::conditions::{CreateCoin, NewMerkleRootCondition};
use chia_sdk_driver::datalayer::{get_merkle_tree, DelegatedPuzzle};
use chia_sdk_driver::datastore::{DataStore, DataStoreInfo};
use chia_sdk_driver::datastore_child::{ChildProgress, ParentSpend};
use chia_sdk_driver::datastore_launch::{DLLauncherKVList, LauncherSolution, OldDLLauncherKVList};
use chia_sdk_driver::delegated_layers::{OracleLayer, WriterLayer, WriterLayerSolution};
use chia_sdk_driver::delegation_layer::{DelegationBranch, DelegationLayer, DelegationLayerSolution};
use chia_sdk_driver::error::{DriverError, FromClvmError};
use chia_sdk_driver::launcher::Launcher;
use chia_sdk_driver::metadata::{DataStoreMetadata, MetadataWithRootHash};
use chia_sdk_driver::modules::{DataLayerPrograms, Modules};
use chia_sdk_driver::node::Node;
use chia_sdk_driver::singleton_layer::{singleton_curry_tree_hash, SingletonLayer};
use chia_sdk_driver::spend_context::{Spend, SpendContext};
use chia_sdk_driver::state_layer::{state_layer_curry_tree_hash, NftStateLayer};
use chia_sdk_driver::vm::{node_from_bytes, node_to_bytes, run_puzzle};

fn atom(bytes: &[u8]) -> Node {
    Node::atom(bytes)
}

fn hash(b: u8) -> Bytes32 {
    Bytes32::new([b; 32])
}

/// A stand-in for the delegation layer: it creates a coin of amount 1 for a
/// fixed puzzle hash, then hands on what the revealed puzzle emits:
/// `(c (q 51 <7f..> 1) (a 95 191))`.
fn delegation_stub() -> Node {
    let create = CreateCoin::new(hash(0x7f), 1, vec![]).to_clvm();
    let run = Node::list(&vec![atom(&[2]), atom(&[95]), atom(&[0, 191])]);
    Node::list(&vec![atom(&[4]), Node::pair(atom(&[1]), create), run])
}

/// A stand-in for the writer's wrapper: it runs the puzzle it is curried
/// with on the first item of its solution: `(a 2 5)`.
fn writer_stub() -> Node {
    Node::list(&vec![atom(&[2]), atom(&[2]), atom(&[5])])
}

/// A stand-in for the oracle puzzle: it pays the fee it is curried with to
/// the puzzle hash it is curried with and announces `$`:
/// `(c (c (q . 51) (c 2 (c 5 (q)))) (q (62 "$")))`.
fn oracle_stub() -> Node {
    let fee = Node::list(&vec![atom(&[4]), atom(&[5]), Node::list(&vec![atom(&[1])])]);
    let target = Node::list(&vec![atom(&[4]), atom(&[2]), fee]);
    let create = Node::list(&vec![atom(&[4]), Node::pair(atom(&[1]), atom(&[51])), target]);
    let announce = Node::list(&vec![Node::list(&vec![atom(&[62]), atom(b"$")])]);
    Node::list(&vec![atom(&[4]), create, Node::pair(atom(&[1]), announce)])
}

fn modules() -> Modules {
    Modules::standard(DataLayerPrograms {
        delegation_layer: delegation_stub(),
        writer_filter: writer_stub(),
        oracle: oracle_stub(),
        dl_metadata_updater_hash: hash(0xd1),
    })
    .unwrap()
}

/// The Merkle proof and the branch of the delegation layer in the spend of a
/// store with a delegation layer.
fn proof_and_branch(
    parent: &DataStore,
    cs: &CoinSpend,
    m: &Modules,
) -> (bool, Result<DelegationBranch, DriverError>) {
    let read = DataStore::<DataStoreMetadata>::parse_parent_spend(
        cs.coin,
        &node_from_bytes(&cs.puzzle_reveal).unwrap(),
        &node_from_bytes(&cs.solution).unwrap(),
        m,
    )
    .unwrap()
    .unwrap();
    let solution = DelegationLayerSolution::from_clvm(&read.inner_solution).unwrap();
    (solution.merkle_proof.is_some(), parent.info.delegation_layer().branch(&solution, m))
}

/// The puzzle that emits the given conditions whatever its solution.
fn quoted(conditions: Vec<Node>) -> Node {
    Node::pair(atom(&[1]), Node::list(&conditions))
}

fn metadata(root: u8) -> DataStoreMetadata {
    DataStoreMetadata {
        root_hash: hash(root),
        label: Some(b"label".to_vec()),
        description: Some(b"description".to_vec()),
        bytes: Some(1337),
    }
}

/// The puzzle inside the writer's wrapper: it emits what its solution
/// holds, the program `1`.
fn writer_inner() -> Node {
    atom(&[1])
}

fn delegated() -> Vec<DelegatedPuzzle> {
    vec![
        DelegatedPuzzle::Admin(hash(0xa1)),
        DelegatedPuzzle::Writer(writer_inner().tree_hash()),
        DelegatedPuzzle::Oracle(hash(1), 1000),
    ]
}

fn store(delegated_puzzles: Vec<DelegatedPuzzle>, owner: Bytes32) -> DataStore {
    let m = modules();
    let info = DataStoreInfo {
        launcher_id: hash(0x11),
        metadata: metadata(0),
        owner_puzzle_hash: owner,
        delegated_puzzles,
    };
    let puzzle_hash = singleton_curry_tree_hash(&m, info.launcher_id, info.inner_puzzle_hash(&m));
    DataStore::new(
        Coin::new(hash(0x22), puzzle_hash, 1),
        Proof::Eve(EveProof { parent_parent_coin_info: hash(0x33), parent_amount: 1 }),
        info,
    )
}

#[test]
fn simple_datastore_launch() {
    let m = modules();
    let launcher = Coin::new(hash(9), m.singleton_launcher.hash, 1);
    let meta = DataStoreMetadata::root_hash_only(Bytes32::new([0; 32]));
    let owner = hash(0x55);
    let list =
        DLLauncherKVList { metadata: meta.clone(), state_layer_inner_puzzle_hash: owner, memos: vec![] };
    let solution = LauncherSolution {
        singleton_puzzle_hash: hash(0x66),
        amount: 1,
        key_value_list: list.to_clvm(),
    };
    let cs = CoinSpend::new(launcher, vec![0x80], node_to_bytes(&solution.to_clvm()).unwrap());
    let got = DataStore::<DataStoreMetadata>::from_spend(&cs, vec![], &m).unwrap().unwrap();
    assert_eq!(got.info.launcher_id, launcher.coin_id());
    assert_eq!(got.info.metadata, meta);
    assert_eq!(got.info.owner_puzzle_hash, owner);
    assert_eq!(got.info.delegated_puzzles, vec![]);
    assert_eq!(
        got.proof,
        Proof::Eve(EveProof { parent_parent_coin_info: hash(9), parent_amount: 1 })
    );
    assert_eq!(got.coin, Coin::new(launcher.coin_id(), hash(0x66), 1));
}

#[test]
fn launch_with_delegated_puzzles_in_memos() {
    let m = modules();
    let launcher = Coin::new(hash(9), m.singleton_launcher.hash, 1);
    let owner = hash(0x55);
    let memos: Vec<Vec<u8>> =
        DataStore::<DataStoreMetadata>::get_recreation_memos(hash(0), owner, delegated())
            .into_iter()
            .skip(1)
            .collect();
    let list = DLLauncherKVList {
        metadata: metadata(3),
        state_layer_inner_puzzle_hash: hash(0x56),
        memos,
    };
    let solution = LauncherSolution {
        singleton_puzzle_hash: hash(0x66),
        amount: 1,
        key_value_list: list.to_clvm(),
    };
    let got =
        DataStore::<DataStoreMetadata>::from_launcher_spend(&launcher, &solution.to_clvm()).unwrap();
    assert_eq!(got.info.owner_puzzle_hash, owner);
    assert_eq!(got.info.delegated_puzzles, delegated());
    assert_eq!(got.info.metadata, metadata(3));
}

#[test]
fn legacy_launch_gives_the_same_store() {
    let m = modules();
    let launcher = Coin::new(hash(9), m.singleton_launcher.hash, 1);
    let launcher_id = launcher.coin_id();
    let root = hash(0x42);
    let owner = hash(0x55);
    for old_memos in [vec![], vec![launcher_id.to_vec(), root.to_vec(), owner.to_vec()]] {
        let new_memos: Vec<Vec<u8>> = old_memos.iter().skip(1).cloned().collect();
        let old = LauncherSolution {
            singleton_puzzle_hash: hash(0x66),
            amount: 1,
            key_value_list: OldDLLauncherKVList {
                root_hash: root,
                state_layer_inner_puzzle_hash: owner,
                memos: old_memos,
            }
            .to_clvm(),
        };
        let new = LauncherSolution {
            singleton_puzzle_hash: hash(0x66),
            amount: 1,
            key_value_list: DLLauncherKVList {
                metadata: DataStoreMetadata::root_hash_only(root),
                state_layer_inner_puzzle_hash: owner,
                memos: new_memos,
            }
            .to_clvm(),
        };
        let from_old =
            DataStore::<DataStoreMetadata>::from_launcher_spend(&launcher, &old.to_clvm()).unwrap();
        let from_new =
            DataStore::<DataStoreMetadata>::from_launcher_spend(&launcher, &new.to_clvm()).unwrap();
        assert_eq!(from_old, from_new);
        assert_eq!(from_old.info.owner_puzzle_hash, owner);
        assert_eq!(from_old.info.metadata.root_hash(), root);
    }
}

#[test]
fn launch_surfaces_other_decode_errors() {
    let m = modules();
    let launcher = Coin::new(hash(9), m.singleton_launcher.hash, 1);
    // the inner puzzle hash is one byte short, in the old format
    let list = Node::pair(atom(&[1; 32]), Node::pair(atom(&[2; 31]), Node::nil()));
    let solution =
        LauncherSolution { singleton_puzzle_hash: hash(0x66), amount: 1, key_value_list: list };
    assert_eq!(
        DataStore::<DataStoreMetadata>::from_launcher_spend(&launcher, &solution.to_clvm()),
        Err(DriverError::FromClvm(FromClvmError::WrongAtomLength { expected: 32, found: 31 }))
    );
    // a solution that is too short is not taken for the old format
    let short = Node::list(&vec![atom(&[1; 32])]);
    assert_eq!(
        DataStore::<DataStoreMetadata>::from_launcher_spend(&launcher, &short),
        Err(DriverError::FromClvm(FromClvmError::ExpectedPair))
    );
}

#[test]
fn memo_round_trip() {
    for dps in [delegated(), vec![], vec![DelegatedPuzzle::Oracle(hash(4), 0)]] {
        let memos =
            DataStore::<DataStoreMetadata>::get_recreation_memos(hash(0x11), hash(0x55), dps.clone());
        let built = DataStore::build_datastore(
            Coin::new(hash(1), hash(2), 1),
            hash(0x11),
            Proof::Eve(EveProof { parent_parent_coin_info: hash(3), parent_amount: 1 }),
            metadata(7),
            hash(0x99),
            memos,
        )
        .unwrap();
        assert_eq!(built.info.owner_puzzle_hash, hash(0x55));
        assert_eq!(built.info.delegated_puzzles, dps);
        assert_eq!(built.info.metadata, metadata(7));
    }
}

#[test]
fn recreation_memos_exact_bytes() {
    let memos = DataStore::<DataStoreMetadata>::get_recreation_memos(
        hash(0x11),
        hash(0x55),
        vec![
            DelegatedPuzzle::Admin(hash(0xa1)),
            DelegatedPuzzle::Oracle(hash(1), 1000),
            DelegatedPuzzle::Oracle(hash(2), 0),
            DelegatedPuzzle::Oracle(hash(3), 128),
            DelegatedPuzzle::Writer(hash(0xa2)),
        ],
    );
    assert_eq!(
        memos,
        vec![
            vec![0x11; 32],
            vec![0x55; 32],
            vec![1],
            vec![0xa1; 32],
            vec![3],
            vec![1; 32],
            vec![0x03, 0xe8],
            vec![3],
            vec![2; 32],
            vec![],
            vec![3],
            vec![3; 32],
            vec![0x00, 0x80],
            vec![2],
            vec![0xa2; 32],
        ]
    );
}

fn build(memos: Vec<Vec<u8>>) -> Result<DataStore, DriverError> {
    DataStore::build_datastore(
        Coin::new(hash(1), hash(2), 1),
        hash(0x11),
        Proof::Eve(EveProof { parent_parent_coin_info: hash(3), parent_amount: 1 }),
        metadata(7),
        hash(0x99),
        memos,
    )
}

#[test]
fn build_datastore_memo_forms() {
    // no memos: the fallback owner
    let s = build(vec![]).unwrap();
    assert_eq!(s.info.owner_puzzle_hash, hash(0x99));
    assert!(s.info.delegated_puzzles.is_empty());
    // the launcher id alone
    let s = build(vec![vec![0x11; 32]]).unwrap();
    assert_eq!(s.info.owner_puzzle_hash, hash(0x99));
    // the old form: launcher id, root hash, owner
    let s = build(vec![vec![0x11; 32], vec![7; 32], vec![0x44; 32]]).unwrap();
    assert_eq!(s.info.owner_puzzle_hash, hash(0x44));
    assert!(s.info.delegated_puzzles.is_empty());
    // launcher id and owner, nothing delegated
    let s = build(vec![vec![0x11; 32], vec![0x44; 32]]).unwrap();
    assert_eq!(s.info.owner_puzzle_hash, hash(0x44));
    assert!(s.info.delegated_puzzles.is_empty());
}

#[test]
fn a_memo_left_over_is_a_missing_memo() {
    // the byte of a kind with nothing after it
    assert_eq!(
        build(vec![vec![0x11; 32], vec![0x44; 32], vec![1]]),
        Err(DriverError::MissingMemo)
    );
    // the same after a whole puzzle
    assert_eq!(
        build(vec![vec![0x11; 32], vec![0x44; 32], vec![2], vec![7; 32], vec![1]]),
        Err(DriverError::MissingMemo)
    );
    // a memo left over that is no kind at all
    assert_eq!(
        build(vec![vec![0x11; 32], vec![0x44; 32], vec![9, 9]]),
        Err(DriverError::MissingMemo)
    );
}

#[test]
fn build_datastore_errors() {
    // another launcher id
    assert_eq!(build(vec![vec![0x12; 32]]), Err(DriverError::InvalidMemo));
    // an owner that is no hash
    assert_eq!(build(vec![vec![0x11; 32], vec![1, 2]]), Err(DriverError::InvalidMemo));
    // the old form with an owner that is no hash
    assert_eq!(
        build(vec![vec![0x11; 32], vec![7; 32], vec![0x44; 31]]),
        Err(DriverError::InvalidMemo)
    );
    // an unknown kind
    assert_eq!(
        build(vec![vec![0x11; 32], vec![0x44; 32], vec![9], vec![1; 32]]),
        Err(DriverError::InvalidMemo)
    );
    // an oracle without its fee
    assert_eq!(
        build(vec![vec![0x11; 32], vec![0x44; 32], vec![3], vec![1; 32]]),
        Err(DriverError::MissingMemo)
    );
    // a negative fee
    assert_eq!(
        build(vec![vec![0x11; 32], vec![0x44; 32], vec![3], vec![1; 32], vec![0xff]]),
        Err(DriverError::InvalidMemo)
    );
    // a fee beyond 64 bits
    assert_eq!(
        build(vec![vec![0x11; 32], vec![0x44; 32], vec![3], vec![1; 32], vec![1; 9]]),
        Err(DriverError::InvalidMemo)
    );
}

#[test]
fn puzzle_hashes_match_the_puzzle_crates() {
    let m = modules();
    assert_eq!(
        m.singleton_top_layer.hash.bytes,
        chia_puzzles::singleton::SINGLETON_TOP_LAYER_PUZZLE_HASH.to_bytes()
    );
    assert_eq!(
        m.singleton_launcher.hash.bytes,
        chia_puzzles::singleton::SINGLETON_LAUNCHER_PUZZLE_HASH.to_bytes()
    );
    assert_eq!(
        m.nft_state_layer.hash.bytes,
        chia_puzzles::nft::NFT_STATE_LAYER_PUZZLE_HASH.to_bytes()
    );
    assert_eq!(m.cat.hash.bytes, chia_puzzles::cat::CAT_PUZZLE_HASH.to_bytes());
    let inner = hash(0x31);
    let expected = chia_puzzles::singleton::SingletonArgs::curry_tree_hash(
        chia_protocol::Bytes32::new([0x11; 32]),
        clvm_utils::TreeHash::new(inner.bytes),
    );
    assert_eq!(singleton_curry_tree_hash(&m, hash(0x11), inner).bytes, expected.to_bytes());
    let expected = clvm_utils::curry_tree_hash(
        chia_puzzles::nft::NFT_STATE_LAYER_PUZZLE_HASH,
        &[
            clvm_utils::tree_hash_atom(&chia_puzzles::nft::NFT_STATE_LAYER_PUZZLE_HASH.to_bytes()),
            clvm_utils::TreeHash::new([5; 32]),
            clvm_utils::tree_hash_atom(&[6; 32]),
            clvm_utils::TreeHash::new(inner.bytes),
        ],
    );
    assert_eq!(state_layer_curry_tree_hash(&m, hash(5), hash(6), inner).bytes, expected.to_bytes());
}

#[test]
fn constructed_puzzle_hashes_to_the_predicted_hash() {
    let m = modules();
    let inner = quoted(vec![]);
    let state = NftStateLayer::new(metadata(1), hash(0xd1), inner.clone());
    let singleton = SingletonLayer::new(hash(0x11), state.construct_puzzle(&m));
    let puzzle = singleton.construct_puzzle(&m);
    let predicted = singleton_curry_tree_hash(
        &m,
        hash(0x11),
        state_layer_curry_tree_hash(
            &m,
            metadata(1).to_clvm().tree_hash(),
            hash(0xd1),
            inner.tree_hash(),
        ),
    );
    assert_eq!(puzzle.tree_hash(), predicted);
    assert_eq!(SingletonLayer::parse_puzzle(&puzzle, &m), Ok(Some(singleton.clone())));
    assert_eq!(
        NftStateLayer::<DataStoreMetadata>::parse_puzzle(&singleton.inner_puzzle, &m),
        Ok(Some(state))
    );
    // a puzzle that is no singleton is not recognised
    assert_eq!(SingletonLayer::parse_puzzle(&inner, &m), Ok(None));
    assert_eq!(SingletonLayer::parse_puzzle(&singleton.inner_puzzle, &m), Ok(None));
}

#[test]
fn vanilla_spend_round_trip() {
    let m = modules();
    let owner_puzzle =
        quoted(vec![CreateCoin::new(hash(0x77), 1, vec![]).to_clvm()]);
    let parent = store(vec![], owner_puzzle.tree_hash());
    let ctx = SpendContext::new(m.clone());
    let expected_proof = parent.child_lineage_proof(&ctx).unwrap();
    let cs = parent.clone().spend(&ctx, Spend::new(owner_puzzle.clone(), Node::nil())).unwrap();
    // the revealed puzzle hashes to the coin's puzzle hash
    assert_eq!(node_from_bytes(&cs.puzzle_reveal).unwrap().tree_hash(), parent.coin.puzzle_hash);
    let child = DataStore::<DataStoreMetadata>::from_spend(&cs, vec![], &m).unwrap().unwrap();
    assert_eq!(child.proof, Proof::Lineage(expected_proof));
    assert_eq!(child.info.metadata, parent.info.metadata);
    assert_eq!(child.info.launcher_id, parent.info.launcher_id);
    // without memos the child is owned by the parent's inner puzzle
    assert_eq!(child.info.owner_puzzle_hash, owner_puzzle.tree_hash());
    assert!(child.info.delegated_puzzles.is_empty());
    assert_eq!(child.coin.parent_coin_info, parent.coin.coin_id());
    assert_eq!(child.coin.amount, 1);
    let predicted = singleton_curry_tree_hash(
        &m,
        hash(0x11),
        state_layer_curry_tree_hash(
            &m,
            parent.info.metadata.to_clvm().tree_hash(),
            hash(0xd1),
            hash(0x77),
        ),
    );
    assert_eq!(child.coin.puzzle_hash, predicted);
}

#[test]
fn spend_without_odd_coin_has_no_child() {
    let m = modules();
    let owner_puzzle = quoted(vec![CreateCoin::new(hash(0x77), 2, vec![]).to_clvm()]);
    let parent = store(vec![], owner_puzzle.tree_hash());
    let ctx = SpendContext::new(m.clone());
    let cs = parent.spend(&ctx, Spend::new(owner_puzzle, Node::nil())).unwrap();
    assert_eq!(
        DataStore::<DataStoreMetadata>::from_spend(&cs, vec![], &m),
        Err(DriverError::MissingChild)
    );
}

#[test]
fn spend_of_another_puzzle_is_not_a_datastore() {
    let m = modules();
    let puzzle = quoted(vec![]);
    let cs = CoinSpend::new(
        Coin::new(hash(1), puzzle.tree_hash(), 1),
        node_to_bytes(&puzzle).unwrap(),
        vec![0x80],
    );
    assert_eq!(DataStore::<DataStoreMetadata>::from_spend(&cs, vec![], &m), Ok(None));
    // bytes that are no program
    let cs = CoinSpend::new(Coin::new(hash(1), hash(2), 1), vec![0xff], vec![0x80]);
    assert_eq!(DataStore::<DataStoreMetadata>::from_spend(&cs, vec![], &m), Err(DriverError::Vm));
}

#[test]
fn writer_metadata_update() {
    let m = modules();
    let ctx = SpendContext::new(m.clone());
    let parent = store(delegated(), hash(0x55));
    let new_metadata = DataStoreMetadata {
        root_hash: hash(1),
        label: Some(b"new_label".to_vec()),
        description: None,
        bytes: Some(42),
    };
    let condition =
        DataStore::new_metadata_condition(&ctx, new_metadata.clone()).unwrap().to_clvm();
    let writer = WriterLayer::new(writer_inner());
    assert_eq!(writer.delegated_puzzle(), delegated()[1]);
    // the writer's puzzle hands the conditions on that its solution quotes
    let spend = Spend::new(
        writer.construct_puzzle(&m),
        WriterLayerSolution { inner_solution: Node::list(&vec![condition]) }.to_clvm(),
    );
    let cs = parent.clone().spend(&ctx, spend).unwrap();
    // the writer gets its Merkle proof, and the layer runs it as delegated
    assert_eq!(proof_and_branch(&parent, &cs, &m), (true, Ok(DelegationBranch::Delegated)));
    let child = DataStore::<DataStoreMetadata>::from_spend(&cs, delegated(), &m).unwrap().unwrap();
    assert_eq!(child.info.metadata, new_metadata);
    assert_eq!(child.info.delegated_puzzles, delegated());
    assert_eq!(child.info.owner_puzzle_hash, hash(0x55));
    assert_eq!(child.proof, Proof::Lineage(parent.child_lineage_proof(&ctx).unwrap()));
}

#[test]
fn admin_metadata_update() {
    let m = modules();
    let ctx = SpendContext::new(m.clone());
    let parent = store(delegated(), hash(0x55));
    let new_metadata = DataStoreMetadata::root_hash_only(hash(9));
    let condition =
        DataStore::new_metadata_condition(&ctx, new_metadata.clone()).unwrap().to_clvm();
    // the metadata is asked for twice: the last request counts
    let other = DataStore::new_metadata_condition(&ctx, metadata(8)).unwrap().to_clvm();
    let admin_puzzle = quoted(vec![other, condition]);
    let parent = store(
        vec![DelegatedPuzzle::Admin(admin_puzzle.tree_hash()), delegated()[1], delegated()[2]],
        hash(0x55),
    );
    let cs = parent.clone().spend(&ctx, Spend::new(admin_puzzle, Node::nil())).unwrap();
    assert_eq!(proof_and_branch(&parent, &cs, &m), (true, Ok(DelegationBranch::Delegated)));
    let child = DataStore::<DataStoreMetadata>::from_spend(&cs, delegated(), &m).unwrap().unwrap();
    assert_eq!(child.info.metadata, new_metadata);
    assert_eq!(child.info.delegated_puzzles, delegated());
    assert_eq!(child.info.owner_puzzle_hash, hash(0x55));
    // the coin commits to the new metadata
    let mut expected = parent.info.clone();
    expected.metadata = new_metadata;
    assert_eq!(
        child.coin.puzzle_hash,
        singleton_curry_tree_hash(
            &m,
            hash(0x11),
            state_layer_curry_tree_hash(
                &m,
                expected.metadata.to_clvm().tree_hash(),
                hash(0xd1),
                hash(0x7f)
            )
        )
    );
}

#[test]
fn metadata_that_does_not_read_is_an_error() {
    let m = modules();
    let ctx = SpendContext::new(m.clone());
    let parent = store(delegated(), hash(0x55));
    let condition = Node::list(&vec![
        atom(&[0xe8]),
        atom(&[11]),
        Node::list(&vec![Node::list(&vec![atom(&[1; 32]), atom(&[2; 32])]), Node::nil()]),
    ]);
    let cs = parent.spend(&ctx, Spend::new(quoted(vec![condition]), Node::nil())).unwrap();
    assert_eq!(
        DataStore::<DataStoreMetadata>::from_spend(&cs, delegated(), &m),
        Err(DriverError::FromClvm(FromClvmError::ExpectedPair))
    );
}

#[test]
fn oracle_passthrough() {
    let m = modules();
    let ctx = SpendContext::new(m.clone());
    let parent = store(delegated(), hash(0x55));
    let oracle = OracleLayer::new(hash(1), 1000);
    assert_eq!(oracle.delegated_puzzle(), delegated()[2]);
    let spend = oracle.construct_spend(&m);
    // the oracle puzzle pays the fee and announces the store
    assert_eq!(
        run_puzzle(&spend.puzzle, &spend.solution).unwrap(),
        Node::list(&vec![
            CreateCoin::new(hash(1), 1000, vec![]).to_clvm(),
            Node::list(&vec![atom(&[62]), atom(b"$")]),
        ])
    );
    let cs = parent.clone().spend(&ctx, spend).unwrap();
    assert_eq!(proof_and_branch(&parent, &cs, &m), (true, Ok(DelegationBranch::Delegated)));
    let child = DataStore::<DataStoreMetadata>::from_spend(&cs, delegated(), &m).unwrap().unwrap();
    assert_eq!(child.info, parent.info);
    assert_eq!(child.coin.parent_coin_info, parent.coin.coin_id());
    assert_eq!(
        child.proof,
        Proof::Lineage(LineageProof {
            parent_parent_coin_info: parent.coin.parent_coin_info,
            parent_inner_puzzle_hash: parent.info.inner_puzzle_hash(&m),
            parent_amount: 1,
        })
    );
}

#[test]
fn owner_exit() {
    let m = modules();
    let ctx = SpendContext::new(m.clone());
    let parent = store(delegated(), hash(0x55));
    let target = hash(0x99);
    let condition = DataStore::<DataStoreMetadata>::owner_create_coin_condition(
        &ctx,
        parent.info.launcher_id,
        target,
        vec![],
        false,
    )
    .unwrap();
    assert_eq!(
        condition,
        Condition::CreateCoin(CreateCoin::new(target, 1, vec![vec![0x11; 32]]))
    );
    let owner_puzzle = quoted(vec![condition.to_clvm()]);
    let cs = parent.clone().spend(&ctx, Spend::new(owner_puzzle, Node::nil())).unwrap();
    let child = DataStore::<DataStoreMetadata>::from_spend(&cs, delegated(), &m).unwrap().unwrap();
    assert!(child.info.delegated_puzzles.is_empty());
    assert_eq!(child.info.owner_puzzle_hash, target);
    assert_eq!(child.info.metadata, parent.info.metadata);
}

#[test]
fn owner_stay() {
    let m = modules();
    let ctx = SpendContext::new(m.clone());
    let parent = store(delegated(), hash(0x55));
    let layer_hash = parent.info.delegation_layer().curry_tree_hash(&m);
    let condition = DataStore::<DataStoreMetadata>::owner_create_coin_condition(
        &ctx,
        parent.info.launcher_id,
        hash(0x55),
        delegated(),
        false,
    )
    .unwrap();
    assert_eq!(
        condition,
        Condition::CreateCoin(CreateCoin::new(layer_hash, 1, vec![vec![0x11; 32]]))
    );
    let owner_puzzle = quoted(vec![condition.to_clvm()]);
    let cs = parent.clone().spend(&ctx, Spend::new(owner_puzzle, Node::nil())).unwrap();
    let child = DataStore::<DataStoreMetadata>::from_spend(&cs, delegated(), &m).unwrap().unwrap();
    assert_eq!(child.info, parent.info);
}

#[test]
fn owner_rekey_with_hints() {
    let m = modules();
    let ctx = SpendContext::new(m.clone());
    let parent = store(delegated(), hash(0x55));
    let new_set = vec![DelegatedPuzzle::Writer(hash(0xb2))];
    let condition = DataStore::<DataStoreMetadata>::owner_create_coin_condition(
        &ctx,
        parent.info.launcher_id,
        hash(0x56),
        new_set.clone(),
        true,
    )
    .unwrap();
    let owner_puzzle = quoted(vec![condition.to_clvm()]);
    let cs = parent.clone().spend(&ctx, Spend::new(owner_puzzle, Node::nil())).unwrap();
    let child = DataStore::<DataStoreMetadata>::from_spend(&cs, delegated(), &m).unwrap().unwrap();
    assert_eq!(child.info.delegated_puzzles, new_set);
    assert_eq!(child.info.owner_puzzle_hash, hash(0x56));
    // the coin is the one the delegation layer of the new state commits to
    let expected = DataStoreInfo {
        launcher_id: hash(0x11),
        metadata: metadata(0),
        owner_puzzle_hash: hash(0x56),
        delegated_puzzles: new_set,
    };
    assert_eq!(
        child.coin.puzzle_hash,
        singleton_curry_tree_hash(&m, hash(0x11), expected.inner_puzzle_hash(&m))
    );
}

/// The parent spend of a store with a delegation layer, as `from_spend` reads it.
fn delegated_parent(m: &Modules) -> ParentSpend {
    let parent = store(delegated(), hash(0x55));
    let ctx = SpendContext::new(m.clone());
    let cs = parent.spend(&ctx, Spend::new(quoted(vec![]), Node::nil())).unwrap();
    DataStore::<DataStoreMetadata>::parse_parent_spend(
        cs.coin,
        &node_from_bytes(&cs.puzzle_reveal).unwrap(),
        &node_from_bytes(&cs.solution).unwrap(),
        m,
    )
    .unwrap()
    .unwrap()
}

#[test]
fn admin_rotation() {
    let m = modules();
    let parent = delegated_parent(&m);
    // admin drops the writer: the delegation layer recreates itself under the
    // new root, with the memos of the new state
    let new_set = vec![DelegatedPuzzle::Admin(hash(0xa1)), DelegatedPuzzle::Oracle(hash(1), 1000)];
    let memos =
        DataStore::<DataStoreMetadata>::get_recreation_memos(hash(0x11), hash(0x55), new_set.clone());
    let new_layer = DelegationLayer::new(hash(0x11), hash(0x55), get_merkle_tree(&new_set).root);
    let output =
        Node::list(&vec![CreateCoin::new(new_layer.curry_tree_hash(&m), 1, memos).to_clvm()]);
    let progress =
        DataStore::<DataStoreMetadata>::child_from_inner_output(parent, &output, &m).unwrap();
    let ChildProgress::Done(child) = progress else {
        panic!("expected a finished child");
    };
    assert_eq!(child.info.delegated_puzzles, new_set);
    assert_eq!(child.info.metadata, metadata(0));
    assert_eq!(child.info.owner_puzzle_hash, hash(0x55));
}

#[test]
fn new_merkle_root_condition_round_trip() {
    let condition = NewMerkleRootCondition::new(hash(5), vec![vec![1u8, 2], vec![3]]);
    let node = condition.to_clvm();
    assert_eq!(
        node_to_bytes(&node).unwrap(),
        [vec![0xff, 0x81, 0xf3, 0xff, 0xa0], vec![5; 32], vec![0xff, 0x82, 1, 2, 0xff, 3, 0x80]]
            .concat()
    );
    assert_eq!(NewMerkleRootCondition::<Vec<u8>>::from_clvm(&node), Ok(condition));
}

#[test]
fn delegated_output_truth_table() {
    let m = modules();
    let pending = store(vec![], hash(0x55));
    let layer_hash = hash(0xde);
    let kept = {
        let mut s = pending.clone();
        s.info.delegated_puzzles = delegated();
        s
    };
    let run = |conditions: Vec<Node>| {
        DataStore::<DataStoreMetadata>::child_from_delegated_output(
            pending.clone(),
            layer_hash,
            &Node::list(&conditions),
            delegated(),
        )
    };
    let _ = &m;
    // admin or writer changes the metadata, or the oracle is paid: no odd coin
    assert_eq!(run(vec![]), Ok(kept.clone()));
    assert_eq!(run(vec![CreateCoin::new(hash(1), 1000, vec![]).to_clvm()]), Ok(kept.clone()));
    // the owner stays
    assert_eq!(run(vec![CreateCoin::new(layer_hash, 1, vec![]).to_clvm()]), Ok(kept));
    // the owner leaves: the first odd coin decides
    let mut left = pending.clone();
    left.info.owner_puzzle_hash = hash(0x99);
    assert_eq!(
        run(vec![
            CreateCoin::new(hash(1), 2, vec![]).to_clvm(),
            CreateCoin::new(hash(0x99), 1, vec![]).to_clvm(),
            CreateCoin::new(layer_hash, 3, vec![]).to_clvm(),
        ]),
        Ok(left)
    );
    // an output that is no list
    assert_eq!(
        DataStore::<DataStoreMetadata>::child_from_delegated_output(
            pending.clone(),
            layer_hash,
            &atom(&[1]),
            delegated(),
        ),
        Err(DriverError::FromClvm(FromClvmError::WrongAtomLength { expected: 0, found: 1 }))
    );
}

#[test]
fn metadata_node_round_trip() {
    let m = metadata(4);
    let node = m.to_clvm();
    assert_eq!(DataStoreMetadata::from_clvm(&node), Ok(m));
    let only = DataStoreMetadata::root_hash_only(hash(4));
    assert_eq!(node_to_bytes(&only.to_clvm()).unwrap(), [vec![0xff, 0xa0], vec![4; 32], vec![0x80]].concat());
    assert_eq!(DataStoreMetadata::from_clvm(&atom(&[4; 32])), Err(FromClvmError::ExpectedPair));
}

#[test]
fn minted_store_is_read_from_the_launcher_spend() {
    let m = modules();
    for dps in [vec![], delegated(), vec![DelegatedPuzzle::Oracle(hash(3), 0)]] {
        let mut ctx = SpendContext::new(m.clone());
        let launcher = Launcher::new(&m, hash(1), 1);
        let launcher_coin = launcher.coin();
        let (conditions, datastore) =
            launcher.mint_datastore(&mut ctx, metadata(0), hash(0x55), dps.clone()).unwrap();
        assert_eq!(datastore.info.launcher_id, launcher_coin.coin_id());
        assert_eq!(datastore.info.delegated_puzzles, dps);
        assert_eq!(datastore.info.owner_puzzle_hash, hash(0x55));
        assert_eq!(
            datastore.proof,
            Proof::Eve(EveProof { parent_parent_coin_info: hash(1), parent_amount: 1 })
        );
        assert_eq!(
            datastore.coin,
            Coin::new(
                launcher_coin.coin_id(),
                singleton_curry_tree_hash(&m, launcher_coin.coin_id(), datastore.info.inner_puzzle_hash(&m)),
                1
            )
        );
        assert_eq!(conditions.items.len(), 2);
        let spends = ctx.take();
        assert_eq!(spends.len(), 1);
        for spend in spends {
            assert_eq!(spend.coin.coin_id(), datastore.info.launcher_id);
            let new_datastore = DataStore::from_spend(&spend, vec![], &m).unwrap().unwrap();
            assert_eq!(datastore, new_datastore);
        }
    }
}

#[test]
fn minted_store_is_spent_by_its_owner() {
    let m = modules();
    let mut ctx = SpendContext::new(m.clone());
    let owner_puzzle = quoted(vec![CreateCoin::new(hash(0x77), 1, vec![]).to_clvm()]);
    let (_, datastore) = Launcher::new(&m, hash(1), 1)
        .mint_datastore(
            &mut ctx,
            DataStoreMetadata::root_hash_only(Bytes32::new([0; 32])),
            owner_puzzle.tree_hash(),
            vec![],
        )
        .unwrap();
    let old_datastore_coin = datastore.coin;
    let new_spend = datastore.clone().spend(&ctx, Spend::new(owner_puzzle, Node::nil())).unwrap();
    assert_eq!(new_spend.coin, old_datastore_coin);
    // the puzzles of the store create the coin that is read from the spend
    let out = chia_sdk_driver::vm::run_puzzle(
        &node_from_bytes(&new_spend.puzzle_reveal).unwrap(),
        &node_from_bytes(&new_spend.solution).unwrap(),
    )
    .unwrap();
    let created: Vec<CreateCoin> = out
        .items()
        .iter()
        .filter_map(|c| CreateCoin::from_clvm(c).ok())
        .filter(|c| c.amount % 2 == 1)
        .collect();
    let child = DataStore::<DataStoreMetadata>::from_spend(&new_spend, vec![], &m).unwrap().unwrap();
    assert_eq!(created.len(), 1);
    assert_eq!(created[0].puzzle_hash, child.coin.puzzle_hash);
    assert_eq!(child.coin.parent_coin_info, old_datastore_coin.coin_id());
}

#[test]
fn a_puzzle_that_is_not_delegated_gets_no_proof() {
    let m = modules();
    let ctx = SpendContext::new(m.clone());
    let owner_puzzle = quoted(vec![]);
    let parent = store(delegated(), owner_puzzle.tree_hash());
    // the owner's puzzle: no proof, run as the owner's
    let cs = parent.clone().spend(&ctx, Spend::new(owner_puzzle, Node::nil())).unwrap();
    assert_eq!(proof_and_branch(&parent, &cs, &m), (false, Ok(DelegationBranch::Owner)));
    // a writer that the store does not hold: no proof, and not the owner
    let stranger = WriterLayer::new(atom(&[7])).construct_puzzle(&m);
    let cs = parent.clone().spend(&ctx, Spend::new(stranger, Node::nil())).unwrap();
    assert_eq!(proof_and_branch(&parent, &cs, &m), (false, Err(DriverError::LayerMismatch)));
    // an oracle with another fee than the store holds
    let spend = OracleLayer::new(hash(1), 1001).construct_spend(&m);
    let cs = parent.clone().spend(&ctx, spend).unwrap();
    assert_eq!(proof_and_branch(&parent, &cs, &m), (false, Err(DriverError::LayerMismatch)));
}

#[test]
fn revealed_puzzles_stand_for_their_delegated_puzzles() {
    let m = modules();
    let inner = quoted(vec![]);
    let writer = WriterLayer::new(inner.clone()).construct_puzzle(&m);
    assert_eq!(DelegatedPuzzle::of_reveal(&writer, &m), DelegatedPuzzle::Writer(inner.tree_hash()));
    let oracle = OracleLayer::new(hash(7), 0).construct_puzzle(&m);
    assert_eq!(DelegatedPuzzle::of_reveal(&oracle, &m), DelegatedPuzzle::Oracle(hash(7), 0));
    let oracle = OracleLayer::new(hash(7), u64::MAX).construct_puzzle(&m);
    assert_eq!(DelegatedPuzzle::of_reveal(&oracle, &m), DelegatedPuzzle::Oracle(hash(7), u64::MAX));
    // any other puzzle stands for the admin of its own hash
    assert_eq!(DelegatedPuzzle::of_reveal(&inner, &m), DelegatedPuzzle::Admin(inner.tree_hash()));
    let other = SingletonLayer::new(hash(1), inner.clone()).construct_puzzle(&m);
    assert_eq!(DelegatedPuzzle::of_reveal(&other, &m), DelegatedPuzzle::Admin(other.tree_hash()));
    assert_eq!(
        WriterLayerSolution { inner_solution: atom(&[5]) }.to_clvm(),
        Node::list(&vec![atom(&[5])])
    );
}

#[test]
fn roles_with_the_same_hash_are_recreated_on_distinct_coins() {
    let ctx = SpendContext::new(modules());
    let coin_for = |p: DelegatedPuzzle| {
        let condition = DataStore::<DataStoreMetadata>::owner_create_coin_condition(
            &ctx,
            hash(0x11),
            hash(0x55),
            vec![p],
            true,
        )
        .unwrap();
        let Condition::CreateCoin(c) = condition else {
            panic!("expected a coin");
        };
        c.puzzle_hash
    };
    let admin = coin_for(DelegatedPuzzle::Admin(hash(7)));
    let writer = coin_for(DelegatedPuzzle::Writer(hash(7)));
    let oracle = coin_for(DelegatedPuzzle::Oracle(hash(7), 0));
    assert_ne!(admin, writer);
    assert_ne!(writer, oracle);
    assert_ne!(oracle, admin);
    // each is the delegation layer over the one leaf
    let m = modules();
    let layer = DelegationLayer::new(
        hash(0x11),
        hash(0x55),
        DelegatedPuzzle::Writer(hash(7)).leaf_hash(),
    );
    assert_eq!(writer, layer.curry_tree_hash(&m));
}
