use chia_sdk_driver::bytes::Bytes32;
use chia_sdk_driver::coin::{Coin, EveProof, LineageProof, Proof};
use chia_sdk_driver::condition::Condition;
use chia_sdk_driver::conditions::{CreateCoin, NewNftOwner, NftTradePrice};
use chia_sdk_driver::launcher::{announcement_id_of, Conditions, Launcher};
use chia_sdk_driver::metadata::DataStoreMetadata;
use chia_sdk_driver::modules::{DataLayerPrograms, Modules};
use chia_sdk_driver::nft::{Nft, NftInfo};
use chia_sdk_driver::nft_child::NftChildProgress;
use chia_sdk_driver::conditions::NewMetadataCondition;
use chia_sdk_driver::error::FromClvmError;
use chia_sdk_driver::error::DriverError;
use chia_sdk_driver::layer::Layer;
use chia_sdk_driver::nft_launcher::{did_puzzle_assertion, NftMint};
use chia_sdk_driver::nft_layers::{
    NftOwnershipLayer, NftOwnershipLayerSolution, RoyaltyTransferLayer,
};
use chia_sdk_driver::node::Node;
use chia_sdk_driver::singleton_layer::singleton_curry_tree_hash;
use chia_sdk_driver::spend_context::{Spend, SpendContext};
use chia_sdk_driver::vm::{node_from_bytes, run_puzzle};

fn atom(bytes: &[u8]) -> Node {
    Node::atom(bytes)
}

fn hash(b: u8) -> Bytes32 {
    Bytes32::new([b; 32])
}

fn modules() -> Modules {
    Modules::standard(DataLayerPrograms {
        delegation_layer: Node::nil(),
        writer_filter: Node::nil(),
        oracle: Node::nil(),
        dl_metadata_updater_hash: hash(0xd1),
    })
    .unwrap()
}

fn updater() -> Bytes32 {
    Bytes32::new(chia_puzzles::nft::NFT_METADATA_UPDATER_PUZZLE_HASH.to_bytes())
}

fn nft_mint(owner: NewNftOwner) -> NftMint<Node> {
    NftMint {
        metadata: Node::list(&vec![Node::pair(atom(b"u"), atom(b"https://example.com/data"))]),
        metadata_updater_puzzle_hash: updater(),
        royalty_puzzle_hash: hash(4),
        royalty_ten_thousandths: 300,
        p2_puzzle_hash: hash(0x55),
        owner,
    }
}

fn unary(opcode: u8, argument: &[u8]) -> Condition {
    Condition::Other(Node::list(&vec![atom(&[opcode]), atom(argument)]))
}

/// The coins of odd amount among the conditions that a spend emits.
fn odd_coins(puzzle: &[u8], solution: &[u8]) -> Vec<CreateCoin> {
    let out = run_puzzle(&node_from_bytes(puzzle).unwrap(), &node_from_bytes(solution).unwrap())
        .unwrap();
    out.items()
        .iter()
        .filter_map(|c| CreateCoin::from_clvm(c).ok())
        .filter(|c| c.amount % 2 == 1)
        .collect()
}

#[test]
fn launcher_spend_creates_the_eve_coin() {
    let m = modules();
    let mut ctx = SpendContext::new(m.clone());
    let launcher = Launcher::new(&m, hash(1), 1);
    let launcher_coin = launcher.coin();
    assert_eq!(launcher_coin, Coin::new(hash(1), m.singleton_launcher.hash, 1));
    assert_eq!(
        launcher.conditions,
        Conditions::new().create_coin(m.singleton_launcher.hash, 1, vec![])
    );
    let (conditions, eve) = launcher.spend(&mut ctx, hash(0x31), Node::nil()).unwrap();
    assert_eq!(
        eve,
        Coin::new(
            launcher_coin.coin_id(),
            singleton_curry_tree_hash(&m, launcher_coin.coin_id(), hash(0x31)),
            1
        )
    );
    let spends = ctx.take();
    assert_eq!(spends.len(), 1);
    assert_eq!(spends[0].coin, launcher_coin);
    // the launcher program creates that coin and announces its solution
    let out = run_puzzle(
        &node_from_bytes(&spends[0].puzzle_reveal).unwrap(),
        &node_from_bytes(&spends[0].solution).unwrap(),
    )
    .unwrap();
    let emitted = out.items();
    assert_eq!(
        CreateCoin::from_clvm(&emitted[0]),
        Ok(CreateCoin::new(eve.puzzle_hash, 1, vec![]))
    );
    let message = emitted[1].items()[1].clone();
    let Node::Atom(message) = message else { panic!("expected an atom") };
    assert_eq!(emitted[1].items()[0], atom(&[60]));
    assert_eq!(
        conditions.items[1],
        unary(61, &announcement_id_of(launcher_coin.coin_id(), &message).bytes)
    );
    assert_eq!(conditions.items.len(), 2);
}

#[test]
fn mint_nft_without_owner() {
    let m = modules();
    let mut ctx = SpendContext::new(m.clone());
    let launcher = Launcher::new(&m, hash(1), 1);
    let launcher_coin = launcher.coin();
    let (conditions, nft) = launcher.mint_nft(&mut ctx, nft_mint(NewNftOwner::default())).unwrap();
    let spends = ctx.take();
    assert_eq!(spends.len(), 2);
    assert_eq!(spends[0].coin, launcher_coin);
    // the launcher creates the coin that is spent next
    assert_eq!(
        odd_coins(&spends[0].puzzle_reveal, &spends[0].solution),
        vec![CreateCoin::new(spends[1].coin.puzzle_hash, 1, vec![])]
    );
    assert_eq!(spends[1].coin.parent_coin_info, launcher_coin.coin_id());
    assert_eq!(
        node_from_bytes(&spends[1].puzzle_reveal).unwrap().tree_hash(),
        spends[1].coin.puzzle_hash
    );
    // the puzzles of the first NFT create the coin of the minted NFT
    assert_eq!(
        odd_coins(&spends[1].puzzle_reveal, &spends[1].solution),
        vec![CreateCoin::new(nft.coin.puzzle_hash, 1, vec![vec![0x55; 32]])]
    );
    assert_eq!(nft.coin.parent_coin_info, spends[1].coin.coin_id());
    assert_eq!(nft.coin.amount, 1);
    assert_eq!(nft.info.p2_puzzle_hash, hash(0x55));
    assert_eq!(nft.info.current_owner, None);
    assert_eq!(nft.info.launcher_id, launcher_coin.coin_id());
    assert_eq!(nft.info.royalty_ten_thousandths, 300);
    assert_eq!(nft.info.metadata, nft_mint(NewNftOwner::default()).metadata);
    let Proof::Lineage(lineage) = nft.proof else { panic!("expected a lineage proof") };
    assert_eq!(lineage.parent_parent_coin_info, launcher_coin.coin_id());
    assert_eq!(lineage.parent_amount, 1);
    assert_eq!(
        singleton_curry_tree_hash(&m, launcher_coin.coin_id(), lineage.parent_inner_puzzle_hash),
        spends[1].coin.puzzle_hash
    );
    // create the launcher, assert its announcement, announce the launcher id
    assert_eq!(conditions.items.len(), 3);
    assert_eq!(
        conditions.items[0],
        Condition::CreateCoin(CreateCoin::new(m.singleton_launcher.hash, 1, vec![]))
    );
    assert_eq!(conditions.items[2], unary(62, &launcher_coin.coin_id().bytes));
}

#[test]
fn mint_nft_with_owner() {
    let m = modules();
    let mut ctx = SpendContext::new(m.clone());
    let launcher = Launcher::new(&m, hash(1), 1);
    let owner = NewNftOwner::new(Some(hash(0xd0)), vec![], Some(hash(0xd2)));
    let (conditions, nft) = launcher.mint_nft(&mut ctx, nft_mint(owner.clone())).unwrap();
    let spends = ctx.take();
    assert_eq!(spends.len(), 2);
    assert_eq!(
        odd_coins(&spends[1].puzzle_reveal, &spends[1].solution),
        vec![CreateCoin::new(nft.coin.puzzle_hash, 1, vec![vec![0x55; 32]])]
    );
    assert_eq!(nft.info.current_owner, Some(hash(0xd0)));
    assert_eq!(conditions.items.len(), 4);
    assert_eq!(
        conditions.items[3],
        unary(63, &did_puzzle_assertion(spends[1].coin.puzzle_hash, &owner).bytes)
    );
    // the first NFT announces its new owner under that id
    let out = run_puzzle(
        &node_from_bytes(&spends[1].puzzle_reveal).unwrap(),
        &node_from_bytes(&spends[1].solution).unwrap(),
    )
    .unwrap();
    let announced: Vec<Vec<u8>> = out
        .items()
        .iter()
        .filter(|c| c.items().first() == Some(&atom(&[62])))
        .map(|c| match &c.items()[1] {
            Node::Atom(bytes) => bytes.clone(),
            Node::Pair(_, _) => panic!("expected an atom"),
        })
        .collect();
    let ids: Vec<Bytes32> =
        announced.iter().map(|a| announcement_id_of(spends[1].coin.puzzle_hash, a)).collect();
    assert!(ids.contains(&did_puzzle_assertion(spends[1].coin.puzzle_hash, &owner)));
}

#[test]
fn mint_eve_nft() {
    let m = modules();
    let mut ctx = SpendContext::new(m.clone());
    let launcher = Launcher::new(&m, hash(1), 1);
    let launcher_coin = launcher.coin();
    let (conditions, eve) = launcher
        .mint_eve_nft(&mut ctx, hash(0x55), DataStoreMetadata::root_hash_only(hash(2)), updater(), hash(4), 300)
        .unwrap();
    let info = NftInfo::new(
        launcher_coin.coin_id(),
        DataStoreMetadata::root_hash_only(hash(2)),
        updater(),
        None,
        hash(4),
        300,
        hash(0x55),
    );
    assert_eq!(
        eve,
        Nft::new(
            Coin::new(
                launcher_coin.coin_id(),
                singleton_curry_tree_hash(&m, launcher_coin.coin_id(), info.inner_puzzle_hash(&m)),
                1
            ),
            Proof::Eve(EveProof { parent_parent_coin_info: hash(1), parent_amount: 1 }),
            info,
        )
    );
    assert_eq!(conditions.items.len(), 3);
    assert_eq!(ctx.take().len(), 1);
}

#[test]
fn nft_hashes_match_the_puzzle_crates() {
    let m = modules();
    let info = NftInfo::new(hash(0x11), Node::nil(), updater(), Some(hash(9)), hash(4), 300, hash(0x55));
    let royalty = chia_puzzles::nft::NftRoyaltyTransferPuzzleArgs::curry_tree_hash(
        chia_protocol::Bytes32::new([0x11; 32]),
        chia_protocol::Bytes32::new([4; 32]),
        300,
    );
    assert_eq!(info.transfer_program_hash(&m).bytes, royalty.to_bytes());
    let ownership = chia_puzzles::nft::NftOwnershipLayerArgs::curry_tree_hash(
        Some(chia_protocol::Bytes32::new([9; 32])),
        royalty,
        clvm_utils::TreeHash::new([0x55; 32]),
    );
    let state = chia_puzzles::nft::NftStateLayerArgs::curry_tree_hash(
        clvm_utils::TreeHash::new(Node::nil().tree_hash().bytes),
        ownership,
    );
    assert_eq!(info.inner_puzzle_hash(&m).bytes, state.to_bytes());
    // the puzzle that is built hashes to the hash that is predicted
    let owner_puzzle = Node::pair(atom(&[1]), Node::nil());
    let mut revealed = info.clone();
    revealed.p2_puzzle_hash = owner_puzzle.tree_hash();
    assert_eq!(
        revealed.construct_puzzle(&owner_puzzle, &m).tree_hash(),
        singleton_curry_tree_hash(&m, hash(0x11), revealed.inner_puzzle_hash(&m))
    );
}

#[test]
fn nft_child() {
    let m = modules();
    let info = NftInfo::new(hash(0x11), Node::nil(), updater(), None, hash(4), 300, hash(0x55));
    let coin = Coin::new(hash(1), hash(2), 1);
    let nft = Nft::new(
        coin,
        Proof::Eve(EveProof { parent_parent_coin_info: hash(3), parent_amount: 1 }),
        info.clone(),
    );
    let kept = nft.clone().create_child(&m, hash(0x56), None);
    assert_eq!(kept.info.current_owner, None);
    assert_eq!(kept.info.p2_puzzle_hash, hash(0x56));
    assert_eq!(
        kept.proof,
        Proof::Lineage(LineageProof {
            parent_parent_coin_info: hash(1),
            parent_inner_puzzle_hash: info.inner_puzzle_hash(&m),
            parent_amount: 1,
        })
    );
    assert_eq!(kept.coin.parent_coin_info, coin.coin_id());
    let moved = nft.create_child(&m, hash(0x56), Some(Some(hash(7))));
    assert_eq!(moved.info.current_owner, Some(hash(7)));
    assert_ne!(moved.coin.puzzle_hash, kept.coin.puzzle_hash);
    assert_eq!(
        moved.coin.puzzle_hash,
        singleton_curry_tree_hash(&m, hash(0x11), moved.info.inner_puzzle_hash(&m))
    );
}

#[test]
fn nft_spend_reveals_the_puzzle_of_the_coin() {
    let m = modules();
    let ctx = SpendContext::new(m.clone());
    let owner_puzzle = Node::pair(atom(&[1]), Node::nil());
    let info =
        NftInfo::new(hash(0x11), Node::nil(), updater(), None, hash(4), 300, owner_puzzle.tree_hash());
    let coin =
        Coin::new(hash(1), singleton_curry_tree_hash(&m, hash(0x11), info.inner_puzzle_hash(&m)), 1);
    let nft = Nft::new(
        coin,
        Proof::Eve(EveProof { parent_parent_coin_info: hash(3), parent_amount: 1 }),
        info,
    );
    let cs = nft.spend(&ctx, Spend::new(owner_puzzle, Node::nil())).unwrap();
    assert_eq!(cs.coin, coin);
    assert_eq!(node_from_bytes(&cs.puzzle_reveal).unwrap().tree_hash(), coin.puzzle_hash);
}

#[test]
fn trade_prices_in_transfers() {
    let owner = NewNftOwner::new(
        Some(hash(1)),
        vec![NftTradePrice::new(300, hash(2)), NftTradePrice::new(0, hash(3))],
        None,
    );
    let node = owner.to_clvm();
    assert_eq!(NewNftOwner::from_clvm(&node), Ok(owner.clone()));
    assert!(!owner.is_default());
    assert!(NewNftOwner::default().is_default());
    assert_eq!(
        NftTradePrice::new(300, hash(2)).to_clvm(),
        Node::list(&vec![atom(&[0x01, 0x2c]), atom(&[2; 32])])
    );
    assert_eq!(
        NewNftOwner::default().to_clvm(),
        Node::list(&vec![atom(&[0xf6]), Node::nil(), Node::nil(), Node::nil()])
    );
}

#[test]
fn nft_puzzle_reads_back() {
    let m = modules();
    let owner_puzzle = Node::pair(atom(&[1]), Node::nil());
    for owner in [None, Some(hash(9))] {
        let info = NftInfo::new(
            hash(0x11),
            DataStoreMetadata::root_hash_only(hash(2)),
            updater(),
            owner,
            hash(4),
            300,
            owner_puzzle.tree_hash(),
        );
        let puzzle = info.construct_puzzle(&owner_puzzle, &m);
        assert_eq!(
            NftInfo::<DataStoreMetadata>::parse_puzzle(&puzzle, &m),
            Ok(Some((info, owner_puzzle.clone())))
        );
    }
    // the minted NFT's parent reads back too, with any metadata
    let mut ctx = SpendContext::new(m.clone());
    let (_, nft) = Launcher::new(&m, hash(1), 1)
        .mint_nft(&mut ctx, nft_mint(NewNftOwner::default()))
        .unwrap();
    let spends = ctx.take();
    let (eve, _) = NftInfo::<Node>::parse_puzzle(
        &node_from_bytes(&spends[1].puzzle_reveal).unwrap(),
        &m,
    )
    .unwrap()
    .unwrap();
    assert_eq!(eve.launcher_id, nft.info.launcher_id);
    assert_eq!(eve.metadata, nft.info.metadata);
    assert_eq!(eve.current_owner, None);
    assert_eq!(eve.royalty_puzzle_hash, hash(4));
    assert_eq!(eve.royalty_ten_thousandths, 300);
    // what is no NFT
    assert_eq!(NftInfo::<Node>::parse_puzzle(&owner_puzzle, &m), Ok(None));
    let bare = chia_sdk_driver::singleton_layer::SingletonLayer::new(hash(1), owner_puzzle.clone())
        .construct_puzzle(&m);
    assert_eq!(NftInfo::<Node>::parse_puzzle(&bare, &m), Ok(None));
}

#[test]
fn royalty_rule_of_another_singleton_is_a_mismatch() {
    let m = modules();
    let owner_puzzle = Node::pair(atom(&[1]), Node::nil());
    let royalty = RoyaltyTransferLayer::new(hash(0x12), hash(4), 300);
    assert_eq!(
        RoyaltyTransferLayer::parse_puzzle(&royalty.construct_puzzle(&m), &m),
        Ok(Some(royalty))
    );
    let ownership =
        NftOwnershipLayer::new(Some(hash(9)), royalty.construct_puzzle(&m), owner_puzzle.clone());
    assert_eq!(
        NftOwnershipLayer::parse_puzzle(&ownership.construct_puzzle(&m), &m),
        Ok(Some(ownership.clone()))
    );
    let solution = NftOwnershipLayerSolution { inner_solution: atom(&[5]) };
    let node = NftOwnershipLayer::construct_solution(&solution);
    assert_eq!(node, Node::list(&vec![atom(&[5])]));
    assert_eq!(NftOwnershipLayer::parse_solution(&node), Ok(solution));
    let state = chia_sdk_driver::state_layer::NftStateLayer::new(
        Node::nil(),
        updater(),
        ownership.construct_puzzle(&m),
    );
    let puzzle = chia_sdk_driver::singleton_layer::SingletonLayer::new(
        hash(0x11),
        state.construct_puzzle(&m),
    )
    .construct_puzzle(&m);
    assert_eq!(NftInfo::<Node>::parse_puzzle(&puzzle, &m), Err(DriverError::LayerMismatch));
}

#[test]
fn minted_nft_is_read_from_the_spend_of_the_first() {
    let m = modules();
    for owner in [NewNftOwner::default(), NewNftOwner::new(Some(hash(0xd0)), vec![], Some(hash(0xd2)))]
    {
        let mut ctx = SpendContext::new(m.clone());
        let (_, nft) = Launcher::new(&m, hash(1), 1).mint_nft(&mut ctx, nft_mint(owner)).unwrap();
        let spends = ctx.take();
        assert_eq!(Nft::<Node>::from_spend(&spends[1], &m), Ok(Some(nft)));
        // the launcher is no NFT
        assert_eq!(Nft::<Node>::from_spend(&spends[0], &m), Ok(None));
    }
}

/// An NFT on a coin of its own puzzle hash, owned by the puzzle that emits
/// the given conditions.
fn nft_with(conditions: Vec<Node>, m: &Modules) -> (Nft<Node>, Node) {
    let owner_puzzle = Node::pair(atom(&[1]), Node::list(&conditions));
    let metadata = Node::list(&vec![
        Node::pair(atom(b"u"), Node::list(&vec![atom(b"https://example.com/data")])),
        Node::pair(atom(b"h"), atom(&[1; 32])),
    ]);
    let info =
        NftInfo::new(hash(0x11), metadata, updater(), None, hash(4), 300, owner_puzzle.tree_hash());
    let coin =
        Coin::new(hash(1), singleton_curry_tree_hash(m, hash(0x11), info.inner_puzzle_hash(m)), 1);
    let proof = Proof::Lineage(LineageProof {
        parent_parent_coin_info: hash(3),
        parent_inner_puzzle_hash: hash(5),
        parent_amount: 1,
    });
    (Nft::new(coin, proof, info), owner_puzzle)
}

#[test]
fn metadata_updater_decides_the_new_metadata() {
    let m = modules();
    let ctx = SpendContext::new(m.clone());
    let updater_program =
        node_from_bytes(&chia_puzzles::nft::NFT_METADATA_UPDATER_PUZZLE).unwrap();
    assert_eq!(updater_program.tree_hash(), updater());
    let update = NewMetadataCondition::new(
        updater_program,
        Node::pair(atom(b"u"), atom(b"https://example.com/new")),
    );
    let (nft, owner_puzzle) = nft_with(
        vec![CreateCoin::new(hash(0x56), 1, vec![vec![0x56; 32]]).to_clvm(), update.to_clvm()],
        &m,
    );
    let cs = nft.spend(&ctx, Spend::new(owner_puzzle, Node::nil())).unwrap();
    let child = Nft::<Node>::from_spend(&cs, &m).unwrap().unwrap();
    assert_eq!(
        child.info.metadata,
        Node::list(&vec![
            Node::pair(
                atom(b"u"),
                Node::list(&vec![atom(b"https://example.com/new"), atom(b"https://example.com/data")])
            ),
            Node::pair(atom(b"h"), atom(&[1; 32])),
        ])
    );
    assert_eq!(child.info.metadata_updater_puzzle_hash, updater());
    assert_eq!(child.info.p2_puzzle_hash, hash(0x56));
    // the puzzles of the NFT create the coin that was worked out
    assert_eq!(
        odd_coins(&cs.puzzle_reveal, &cs.solution),
        vec![CreateCoin::new(child.coin.puzzle_hash, 1, vec![vec![0x56; 32]])]
    );
    assert_eq!(child.coin.parent_coin_info, nft.coin.coin_id());
}

#[test]
fn nft_child_rows() {
    let m = modules();
    let (nft, owner_puzzle) = nft_with(vec![], &m);
    let ctx = SpendContext::new(m.clone());
    let cs = nft.spend(&ctx, Spend::new(owner_puzzle, Node::nil())).unwrap();
    assert_eq!(Nft::<Node>::from_spend(&cs, &m), Err(DriverError::MissingChild));
    let parent = Nft::<Node>::parse_parent_spend(
        cs.coin,
        &node_from_bytes(&cs.puzzle_reveal).unwrap(),
        &node_from_bytes(&cs.solution).unwrap(),
        &m,
    )
    .unwrap()
    .unwrap();
    assert_eq!(parent.info, nft.info);
    // the last transfer names the owner, the last odd coin the holder
    let output = Node::list(&vec![
        NewNftOwner::new(Some(hash(7)), vec![], None).to_clvm(),
        CreateCoin::new(hash(0x57), 3, vec![]).to_clvm(),
        NewNftOwner::new(Some(hash(8)), vec![], None).to_clvm(),
        CreateCoin::new(hash(0x58), 5, vec![]).to_clvm(),
        CreateCoin::new(hash(0x59), 4, vec![]).to_clvm(),
    ]);
    let NftChildProgress::Done(child) =
        Nft::<Node>::child_from_output(parent.clone(), &output, &m).unwrap()
    else {
        panic!("expected a finished child");
    };
    let mut expected = nft.clone().create_child(&m, hash(0x58), Some(Some(hash(8))));
    expected.coin.amount = 5;
    assert_eq!(child, expected);
    // an updater that returns something else
    let NftChildProgress::Done(pending) = Nft::<Node>::child_from_output(
        parent,
        &Node::list(&vec![CreateCoin::new(hash(0x58), 1, vec![]).to_clvm()]),
        &m,
    )
    .unwrap() else {
        panic!("expected a finished child");
    };
    assert_eq!(
        Nft::<Node>::child_from_updater_output(pending.clone(), &Node::nil(), &m),
        Err(DriverError::FromClvm(FromClvmError::ExpectedPair))
    );
    let returned = Node::list(&vec![Node::list(&vec![atom(&[9]), atom(&[6; 32])]), Node::nil()]);
    let child = Nft::<Node>::child_from_updater_output(pending.clone(), &returned, &m).unwrap();
    assert_eq!(child.info.metadata, atom(&[9]));
    assert_eq!(child.info.metadata_updater_puzzle_hash, hash(6));
    assert_eq!(
        child.coin.puzzle_hash,
        singleton_curry_tree_hash(&m, hash(0x11), child.info.inner_puzzle_hash(&m))
    );
    assert_ne!(child.coin.puzzle_hash, pending.coin.puzzle_hash);
}
