use chia_sdk_driver::bytes::Bytes32;
use chia_sdk_driver::cat::CAT;
use chia_sdk_driver::cat_layer::{cat_curry_tree_hash, CATLayer, CatSolution};
use chia_sdk_driver::coin::{Coin, CoinSpend, EveProof, LineageProof, Proof};
use chia_sdk_driver::conditions::CreateCoin;
use chia_sdk_driver::error::{DriverError, FromClvmError};
use chia_sdk_driver::from_spend::FromSpend;
use chia_sdk_driver::modules::{DataLayerPrograms, Modules};
use chia_sdk_driver::node::Node;
use chia_sdk_driver::spend_context::{Spend, SpendContext};
use chia_sdk_driver::vm::{node_from_bytes, node_to_bytes};

fn atom(bytes: &[u8]) -> Node {
    Node::atom(bytes)
}

fn hash(b: u8) -> Bytes32 {
    Bytes32::new([b; 32])
}

fn modules() -> Modules {
    Modules::standard(DataLayerPrograms {
        delegation_layer: Node::nil(),
        writer_filter: Node::nil(),
        oracle: Node::nil(),
        dl_metadata_updater_hash: hash(0xd1),
    })
    .unwrap()
}

fn quoted(conditions: Vec<Node>) -> Node {
    Node::pair(atom(&[1]), Node::list(&conditions))
}

fn lineage() -> Proof {
    Proof::Lineage(LineageProof {
        parent_parent_coin_info: hash(1),
        parent_inner_puzzle_hash: hash(2),
        parent_amount: 1000,
    })
}

#[test]
fn cat_issuance() {
    let m = modules();
    let ctx = SpendContext::new(m.clone());
    let asset_id = hash(0xaa);
    let owner_puzzle = quoted(vec![CreateCoin::new(hash(0x0f), 1000, vec![]).to_clvm()]);
    let owner = owner_puzzle.tree_hash();
    let coin = Coin::new(hash(3), cat_curry_tree_hash(&m, asset_id, owner), 1000);
    let cat = CAT::new(coin, asset_id, owner, None);
    let (cs, child, child_proof) =
        cat.spend(&ctx, lineage(), Spend::new(owner_puzzle.clone(), Node::nil())).unwrap();
    // the revealed puzzle hashes to the puzzle hash of the coin
    assert_eq!(cs.coin, coin);
    assert_eq!(node_from_bytes(&cs.puzzle_reveal).unwrap().tree_hash(), coin.puzzle_hash);
    // the child is what is read from the spend
    assert_eq!(CAT::from_parent_spend(&cs, &m), Ok(Some(child.clone())));
    assert_eq!(<CAT as FromSpend<Option<CAT>, ()>>::from_spend(&m, &cs, ()), Ok(Some(child.clone())));
    assert_eq!(child.asset_id, asset_id);
    assert_eq!(child.p2_puzzle_hash, hash(0x0f));
    assert_eq!(child.p2_puzzle, None);
    assert_eq!(
        child.coin,
        Coin::new(coin.coin_id(), cat_curry_tree_hash(&m, asset_id, hash(0x0f)), 1000)
    );
    assert_eq!(
        child_proof,
        Proof::Lineage(LineageProof {
            parent_parent_coin_info: hash(3),
            parent_inner_puzzle_hash: owner,
            parent_amount: 1000,
        })
    );
}

#[test]
fn cat_child_prefers_the_coin_of_odd_amount() {
    let m = modules();
    let output = Node::list(&vec![
        CreateCoin::new(hash(1), 10, vec![]).to_clvm(),
        CreateCoin::new(hash(2), 7, vec![]).to_clvm(),
        CreateCoin::new(hash(3), 5, vec![]).to_clvm(),
        CreateCoin::new(hash(4), 4, vec![]).to_clvm(),
    ]);
    let parent = Coin::new(hash(9), hash(8), 26);
    let child = CAT::child_from_inner_output(parent, hash(0xaa), &output, &m).unwrap();
    assert_eq!(child.p2_puzzle_hash, hash(3));
    assert_eq!(child.coin.amount, 5);
    let even = Node::list(&vec![
        atom(&[1]),
        CreateCoin::new(hash(1), 10, vec![]).to_clvm(),
        CreateCoin::new(hash(4), 4, vec![]).to_clvm(),
    ]);
    let child = CAT::child_from_inner_output(parent, hash(0xaa), &even, &m).unwrap();
    assert_eq!(child.p2_puzzle_hash, hash(1));
    assert_eq!(child.coin.amount, 10);
    // a spend that creates no coin has no child: that is an error
    assert_eq!(
        CAT::child_from_inner_output(parent, hash(0xaa), &Node::nil(), &m),
        Err(DriverError::MissingChild)
    );
    assert_eq!(
        CAT::child_from_inner_output(parent, hash(0xaa), &atom(&[5]), &m),
        Err(DriverError::FromClvm(FromClvmError::WrongAtomLength { expected: 0, found: 1 }))
    );
}

#[test]
fn cat_spend_without_a_coin_has_no_child() {
    let m = modules();
    let ctx = SpendContext::new(m.clone());
    let owner_puzzle = quoted(vec![]);
    let cat = CAT::new(Coin::new(hash(3), hash(4), 10), hash(0xaa), owner_puzzle.tree_hash(), None);
    assert_eq!(
        cat.spend(&ctx, lineage(), Spend::new(owner_puzzle, Node::nil())),
        Err(DriverError::MissingChild)
    );
}

#[test]
fn cat_from_puzzle() {
    let m = modules();
    let inner = quoted(vec![]);
    let puzzle = CATLayer::<Node>::new(hash(0xaa), inner.clone()).construct_puzzle(&m);
    let coin = Coin::new(hash(3), puzzle.tree_hash(), 10);
    let cat = CAT::from_puzzle(coin, &puzzle, &m).unwrap().unwrap();
    assert_eq!(cat, CAT::new(coin, hash(0xaa), inner.tree_hash(), Some(inner.clone())));
    assert_eq!(CAT::from_puzzle(coin, &inner, &m), Ok(None));
    // the hash is the one the puzzle crate predicts
    let expected = chia_puzzles::cat::CatArgs::curry_tree_hash(
        chia_protocol::Bytes32::new([0xaa; 32]),
        clvm_utils::TreeHash::new(inner.tree_hash().bytes),
    );
    assert_eq!(puzzle.tree_hash().bytes, expected.to_bytes());
}

#[test]
fn cat_builders() {
    let coin = Coin::new(hash(3), hash(4), 10);
    let cat = CAT::new(coin, hash(0xaa), hash(5), None);
    let other = Coin::new(hash(6), hash(7), 11);
    assert_eq!(cat.clone().with_coin(other), CAT::new(other, hash(0xaa), hash(5), None));
    let owner_puzzle = quoted(vec![]);
    let revealed = cat.clone().with_p2_puzzle(owner_puzzle.clone());
    assert_eq!(revealed, CAT::new(coin, hash(0xaa), hash(5), Some(owner_puzzle.clone())));
    // the CAT's own puzzle goes before the one that is handed in
    let layers = revealed.get_layered_object(Some(atom(&[9])));
    assert_eq!(layers.inner_puzzle.puzzle, Some(owner_puzzle));
    assert_eq!(layers.inner_puzzle.puzzle_hash, hash(5));
    assert_eq!(layers.asset_id, hash(0xaa));
    let layers = cat.get_layered_object(Some(atom(&[9])));
    assert_eq!(layers.inner_puzzle.puzzle, Some(atom(&[9])));
    let layers = cat.get_layered_object(None);
    assert_eq!(layers.inner_puzzle.puzzle, None);
    assert_eq!(layers.construct_puzzle(&modules()), None);
}

#[test]
fn cat_solution_round_trip() {
    let solution = CatSolution {
        lineage_proof: Proof::Eve(EveProof { parent_parent_coin_info: hash(1), parent_amount: 5 }),
        prev_coin_id: hash(2),
        inner_puzzle_solution: Node::list(&vec![atom(&[1])]),
    };
    let node = CATLayer::<Node>::construct_solution(&solution);
    assert_eq!(CATLayer::<Node>::parse_solution(&node), Ok(solution));
    assert_eq!(
        CATLayer::<Node>::parse_solution(&Node::nil()),
        Err(FromClvmError::ExpectedPair)
    );
}

#[test]
fn spend_of_no_cat_is_no_cat() {
    let m = modules();
    let puzzle = quoted(vec![]);
    let cs = CoinSpend::new(
        Coin::new(hash(1), puzzle.tree_hash(), 1),
        node_to_bytes(&puzzle).unwrap(),
        vec![0x80],
    );
    assert_eq!(CAT::from_parent_spend(&cs, &m), Ok(None));
}

#[test]
fn cat_parent_spend_without_a_coin_is_an_error() {
    // the spend of a CAT whose inner puzzle creates no coin: the puzzle is a
    // CAT layer, so the answer is not "no CAT" but the missing child
    let m = modules();
    let inner = quoted(vec![]);
    let puzzle = CATLayer::<Node>::new(hash(0xaa), inner.clone()).construct_puzzle(&m);
    let coin = Coin::new(hash(3), puzzle.tree_hash(), 10);
    let solution = CATLayer::<Node>::construct_solution(&CatSolution {
        lineage_proof: lineage(),
        prev_coin_id: coin.coin_id(),
        inner_puzzle_solution: Node::nil(),
    });
    let cs = CoinSpend::new(
        coin,
        node_to_bytes(&puzzle).unwrap(),
        node_to_bytes(&solution).unwrap(),
    );
    assert_eq!(CAT::from_parent_spend(&cs, &m), Err(DriverError::MissingChild));
    assert_eq!(
        <CAT as FromSpend<Option<CAT>, ()>>::from_spend(&m, &cs, ()),
        Err(DriverError::MissingChild)
    );
    // the same coin with a puzzle that is no CAT layer
    let plain = CoinSpend::new(
        Coin::new(hash(3), inner.tree_hash(), 10),
        node_to_bytes(&inner).unwrap(),
        node_to_bytes(&Node::nil()).unwrap(),
    );
    assert_eq!(CAT::from_parent_spend(&plain, &m), Ok(None));
}
