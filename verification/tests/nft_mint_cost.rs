use chia_bls::{PublicKey, SecretKey};
use chia_consensus::consensus_constants::TEST_CONSTANTS;
use chia_consensus::gen::conditions::EmptyVisitor;
use chia_consensus::gen::run_block_generator::run_block_generator;
use chia_consensus::gen::solution_generator::solution_generator;
use chia_puzzles::did::{DidArgs, DidSolution, DID_INNER_PUZZLE};
use chia_puzzles::nft::{
    NftIntermediateLauncherArgs, NftMetadata, NFT_INTERMEDIATE_LAUNCHER_PUZZLE,
    NFT_METADATA_UPDATER_PUZZLE_HASH,
};
use chia_puzzles::singleton::{
    SingletonArgs, SingletonSolution, SingletonStruct, SINGLETON_TOP_LAYER_PUZZLE,
};
use chia_puzzles::standard::{StandardArgs, StandardSolution, STANDARD_PUZZLE};
use chia_puzzles::DeriveSynthetic;
use chia_sdk_driver::bytes::Bytes32;
use chia_sdk_driver::coin::{Coin, CoinSpend};
use chia_sdk_driver::condition::Condition;
use chia_sdk_driver::conditions::NewNftOwner;
use chia_sdk_driver::launcher::{announcement_id_of, Conditions, Launcher};
use chia_sdk_driver::modules::{DataLayerPrograms, Modules};
use chia_sdk_driver::nft_launcher::NftMint;
use chia_sdk_driver::node::Node;
use chia_sdk_driver::spend_context::SpendContext;
use chia_sdk_driver::vm::{node_from_bytes, node_to_bytes};
use clvm_traits::ToClvm;
use clvm_utils::{tree_hash, CurriedProgram};
use clvmr::serde::node_from_bytes as vm_from_bytes;
use clvmr::serde::node_to_bytes as vm_to_bytes;
use clvmr::{Allocator, NodePtr};

fn protocol_hash(h: Bytes32) -> chia_protocol::Bytes32 {
    chia_protocol::Bytes32::new(h.bytes)
}

fn library_hash(h: clvm_utils::TreeHash) -> Bytes32 {
    Bytes32::new(h.to_bytes())
}

fn nft_mint(a: &mut Allocator, p2_puzzle_hash: Bytes32) -> NftMint<Node> {
    let metadata = NftMetadata {
        edition_number: 1,
        edition_total: 1,
        data_uris: vec!["https://example.com/data".to_string()],
        data_hash: Some(chia_protocol::Bytes32::new([1; 32])),
        metadata_uris: vec!["https://example.com/metadata".to_string()],
        metadata_hash: Some(chia_protocol::Bytes32::new([2; 32])),
        license_uris: vec!["https://example.com/license".to_string()],
        license_hash: Some(chia_protocol::Bytes32::new([3; 32])),
    };
    let ptr = metadata.to_clvm(a).unwrap();
    NftMint {
        metadata: node_from_bytes(&vm_to_bytes(a, ptr).unwrap()).unwrap(),
        metadata_updater_puzzle_hash: library_hash(NFT_METADATA_UPDATER_PUZZLE_HASH),
        royalty_puzzle_hash: Bytes32::new([4; 32]),
        royalty_ten_thousandths: 300,
        p2_puzzle_hash,
        owner: NewNftOwner::new(None, Vec::new(), None),
    }
}

/// The spend of a coin of the standard puzzle that emits the given conditions.
fn standard_spend(a: &mut Allocator, pk: PublicKey, conditions: &Conditions) -> (NodePtr, NodePtr) {
    let program = vm_from_bytes(a, &STANDARD_PUZZLE).unwrap();
    let puzzle = CurriedProgram { program, args: StandardArgs::new(pk) }.to_clvm(a).unwrap();
    let quoted = node_to_bytes(&Node::pair(Node::atom(&[1]), conditions.to_clvm())).unwrap();
    let delegated_puzzle = vm_from_bytes(a, &quoted).unwrap();
    let solution =
        StandardSolution { original_public_key: None, delegated_puzzle, solution: () }
            .to_clvm(a)
            .unwrap();
    (puzzle, solution)
}

fn coin_spend(a: &Allocator, coin: Coin, puzzle: NodePtr, solution: NodePtr) -> CoinSpend {
    CoinSpend::new(coin, vm_to_bytes(a, puzzle).unwrap(), vm_to_bytes(a, solution).unwrap())
}

#[test]
fn test_nft_mint_cost() {
    let mut a = Allocator::new();
    let pk = SecretKey::from_seed(&[0; 32]).public_key().derive_synthetic();
    let modules = Modules::standard(DataLayerPrograms {
        delegation_layer: Node::nil(),
        writer_filter: Node::nil(),
        oracle: Node::nil(),
        dl_metadata_updater_hash: Bytes32::new([0; 32]),
    })
    .unwrap();
    let mut ctx = SpendContext::new(modules.clone());
    let puzzle_hash = library_hash(StandardArgs::curry_tree_hash(pk));

    // The DID that mints: a singleton around the DID puzzle around the
    // standard puzzle, one spend after its launch. Its creation is not counted.
    let coin = Coin::new(Bytes32::new([0; 32]), puzzle_hash, 1);
    let did_launcher = Coin::new(coin.coin_id(), modules.singleton_launcher.hash, 1);
    let did_launcher_id = did_launcher.coin_id();
    let recovery_list_hash =
        Some(chia_protocol::Bytes32::new(clvm_utils::tree_hash_atom(&[]).to_bytes()));
    let standard_program = vm_from_bytes(&mut a, &STANDARD_PUZZLE).unwrap();
    let standard_puzzle = CurriedProgram { program: standard_program, args: StandardArgs::new(pk) }
        .to_clvm(&mut a)
        .unwrap();
    let did_program = vm_from_bytes(&mut a, &DID_INNER_PUZZLE).unwrap();
    let did_inner = CurriedProgram {
        program: did_program,
        args: DidArgs::new(
            standard_puzzle,
            recovery_list_hash,
            1,
            SingletonStruct::new(protocol_hash(did_launcher_id)),
            (),
        ),
    }
    .to_clvm(&mut a)
    .unwrap();
    let did_inner_hash = tree_hash(&a, did_inner);
    let did_puzzle_hash =
        library_hash(SingletonArgs::curry_tree_hash(protocol_hash(did_launcher_id), did_inner_hash));
    let eve_did = Coin::new(did_launcher_id, did_puzzle_hash, 1);
    let did_coin = Coin::new(eve_did.coin_id(), did_puzzle_hash, 1);
    let did_proof = chia_puzzles::Proof::Lineage(chia_puzzles::LineageProof {
        parent_parent_coin_info: protocol_hash(did_launcher_id),
        parent_inner_puzzle_hash: did_inner_hash.into(),
        parent_amount: 1,
    });

    // The intermediate coin, which creates the launcher.
    let coin = Coin::new(Bytes32::new([1; 32]), puzzle_hash, 1);
    let intermediate_hash = library_hash(NftIntermediateLauncherArgs::curry_tree_hash(0, 1));
    let intermediate = Coin::new(did_coin.coin_id(), intermediate_hash, 0);
    let intermediate_program = vm_from_bytes(&mut a, &NFT_INTERMEDIATE_LAUNCHER_PUZZLE).unwrap();
    let intermediate_puzzle = CurriedProgram {
        program: intermediate_program,
        args: NftIntermediateLauncherArgs::new(0, 1),
    }
    .to_clvm(&mut a)
    .unwrap();
    let nil = a.nil();
    ctx.insert(coin_spend(&a, intermediate, intermediate_puzzle, nil));
    // the intermediate coin announces the hash of the mint number and total
    let mut index_message = clvmr::sha2::Sha256::new();
    index_message.update([0u8; 0]);
    index_message.update([1u8]);
    let launcher = Launcher {
        coin: Coin::new(intermediate.coin_id(), modules.singleton_launcher.hash, 1),
        conditions: Conditions::new().create_coin(intermediate_hash, 0, vec![]).assert_coin_announcement(
            announcement_id_of(intermediate.coin_id(), &index_message.finalize()),
        ),
    };

    let mint = nft_mint(&mut a, puzzle_hash);
    let (mint_nft, _nft) = launcher.mint_nft(&mut ctx, mint).unwrap();

    // The DID emits what the mint asks for, announces itself and recreates
    // itself.
    let did_conditions = mint_nft
        .with(Condition::Other(Node::list(&vec![Node::atom(&[60]), Node::atom(b"$")])))
        .create_coin(library_hash(did_inner_hash), 1, vec![puzzle_hash.to_vec()]);
    let (_, inner_solution) = standard_spend(&mut a, pk, &did_conditions);
    let singleton_program = vm_from_bytes(&mut a, &SINGLETON_TOP_LAYER_PUZZLE).unwrap();
    let did_puzzle = CurriedProgram {
        program: singleton_program,
        args: SingletonArgs::new(protocol_hash(did_launcher_id), did_inner),
    }
    .to_clvm(&mut a)
    .unwrap();
    let did_solution = SingletonSolution {
        lineage_proof: did_proof,
        amount: 1,
        inner_solution: DidSolution::Spend(inner_solution),
    }
    .to_clvm(&mut a)
    .unwrap();
    ctx.insert(coin_spend(&a, did_coin, did_puzzle, did_solution));

    let assertion =
        Conditions::new().assert_coin_announcement(announcement_id_of(did_coin.coin_id(), b"$"));
    let (puzzle, solution) = standard_spend(&mut a, pk, &assertion);
    ctx.insert(coin_spend(&a, coin, puzzle, solution));

    let coin_spends = ctx.take();
    assert_eq!(coin_spends.len(), 5);

    let generator = solution_generator(coin_spends.iter().map(|cs| {
        (
            chia_protocol::Coin::new(
                protocol_hash(cs.coin.parent_coin_info),
                protocol_hash(cs.coin.puzzle_hash),
                cs.coin.amount,
            ),
            cs.puzzle_reveal.clone(),
            cs.solution.clone(),
        )
    }))
    .unwrap();
    let mut allocator = Allocator::new();
    let conds = run_block_generator::<Vec<u8>, EmptyVisitor, _>(
        &mut allocator,
        &generator,
        [],
        11_000_000_000,
        0,
        &TEST_CONSTANTS,
    )
    .unwrap();

    assert_eq!(conds.cost, 122_646_589);
}
