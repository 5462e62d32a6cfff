use chia_sdk_driver::bytes::Bytes32;
use chia_sdk_driver::condition::Condition;
use chia_sdk_driver::conditions::{
    CreateCoin, MeltSingleton, NewMetadataCondition, NewMetadataInfo, NewMetadataOutput, Remark,
    RunTail, Softfork,
};
use chia_sdk_driver::coin::{Coin, CoinSpend};
use chia_sdk_driver::error::FromClvmError;
use chia_sdk_driver::launcher::Conditions;
use chia_sdk_driver::node::Node;
use chia_sdk_driver::secp::Secp256r1Signature;
use chia_sdk_driver::spend_context::SpendContext;
use chia_sdk_driver::modules::{DataLayerPrograms, Modules};
use chia_sdk_driver::vm::node_to_bytes;

fn atom(bytes: &[u8]) -> Node {
    Node::atom(bytes)
}

fn hash(b: u8) -> Bytes32 {
    Bytes32::new([b; 32])
}

#[test]
fn create_coin_exact_nodes() {
    assert_eq!(
        CreateCoin::new(hash(1), 1000, vec![]).to_clvm(),
        Node::list(&vec![atom(&[51]), atom(&[1; 32]), atom(&[0x03, 0xe8])])
    );
    assert_eq!(
        CreateCoin::new(hash(1), 0, vec![vec![7], vec![]]).to_clvm(),
        Node::list(&vec![
            atom(&[51]),
            atom(&[1; 32]),
            Node::nil(),
            Node::list(&vec![atom(&[7]), Node::nil()]),
        ])
    );
}

#[test]
fn create_coin_errors() {
    let ok = vec![atom(&[51]), atom(&[1; 32]), atom(&[1])];
    assert_eq!(CreateCoin::from_clvm(&Node::list(&ok)), Ok(CreateCoin::new(hash(1), 1, vec![])));
    assert_eq!(CreateCoin::from_clvm(&Node::nil()), Err(FromClvmError::ExpectedPair));
    assert_eq!(CreateCoin::from_clvm(&Node::list(&ok[..2].to_vec())), Err(FromClvmError::ExpectedPair));
    let mut wrong = ok.clone();
    wrong[0] = atom(&[52]);
    assert_eq!(CreateCoin::from_clvm(&Node::list(&wrong)), Err(FromClvmError::WrongConstant));
    let mut wrong = ok.clone();
    wrong[1] = atom(&[1; 31]);
    assert_eq!(CreateCoin::from_clvm(&Node::list(&wrong)), Err(FromClvmError::WrongAtomLength { expected: 32, found: 31 }));
    let mut wrong = ok.clone();
    wrong[1] = Node::list(&vec![atom(&[1])]);
    assert_eq!(CreateCoin::from_clvm(&Node::list(&wrong)), Err(FromClvmError::ExpectedAtom));
    let mut wrong = ok.clone();
    wrong[2] = atom(&[1; 9]);
    assert_eq!(CreateCoin::from_clvm(&Node::list(&wrong)), Err(FromClvmError::WrongAtomLength { expected: 8, found: 9 }));
    // something after the memos
    let mut long = ok.clone();
    long.push(Node::nil());
    long.push(Node::nil());
    assert_eq!(CreateCoin::from_clvm(&Node::list(&long)), Err(FromClvmError::ExpectedAtom));
    // memos that are no list of atoms
    let mut wrong = ok.clone();
    wrong.push(atom(&[1]));
    assert_eq!(CreateCoin::from_clvm(&Node::list(&wrong)), Err(FromClvmError::WrongAtomLength { expected: 0, found: 1 }));
    // an end of the list that is not empty
    assert_eq!(
        CreateCoin::from_clvm(&Node::list_with_tail(&ok, atom(&[1]))),
        Err(FromClvmError::WrongAtomLength { expected: 0, found: 1 })
    );
}

#[test]
fn conditions_with_opcodes() {
    assert_eq!(
        Softfork::new(5, Node::list(&vec![atom(&[1])])).to_clvm(),
        Node::list(&vec![atom(&[90]), atom(&[5]), atom(&[1])])
    );
    assert_eq!(Remark::new(atom(&[9])).to_clvm(), Node::pair(atom(&[1]), atom(&[9])));
    assert_eq!(
        MeltSingleton::new().to_clvm(),
        Node::list(&vec![atom(&[51]), Node::nil(), atom(&[0x8f])])
    );
    assert_eq!(
        RunTail::new(atom(&[2]), atom(&[3])).to_clvm(),
        Node::list(&vec![atom(&[51]), Node::nil(), atom(&[0x8f]), atom(&[2]), atom(&[3])])
    );
    assert_eq!(
        NewMetadataCondition::new(atom(&[11]), atom(&[3])).to_clvm(),
        Node::list(&vec![atom(&[0xe8]), atom(&[11]), atom(&[3])])
    );
    assert_eq!(
        NewMetadataOutput::new(NewMetadataInfo::new(atom(&[5]), hash(6)), Node::nil()).to_clvm(),
        Node::list(&vec![Node::list(&vec![atom(&[5]), atom(&[6; 32])]), Node::nil()])
    );
}

#[test]
fn conditions_read_back() {
    let all = vec![
        Condition::Remark(Remark::new(atom(&[9]))),
        Condition::CreateCoin(CreateCoin::new(hash(1), 3, vec![vec![1]])),
        Condition::Softfork(Softfork::new(7, Node::nil())),
        Condition::MeltSingleton(MeltSingleton::new()),
        Condition::RunTail(RunTail::new(atom(&[2]), Node::nil())),
        Condition::Other(Node::list(&vec![atom(&[60]), atom(&[1, 2, 3])])),
        Condition::Other(Node::nil()),
    ];
    for condition in all {
        assert_eq!(Condition::from_clvm(&condition.to_clvm()), condition);
    }
    let node = NewMetadataCondition::new(atom(&[11]), atom(&[3])).to_clvm();
    assert_eq!(
        NewMetadataCondition::<Node, Node>::from_clvm(&node),
        Ok(NewMetadataCondition::new(atom(&[11]), atom(&[3])))
    );
    assert_eq!(Condition::from_clvm(&node), Condition::Other(node.clone()));
    let output = NewMetadataOutput::new(NewMetadataInfo::new(atom(&[5]), hash(6)), atom(&[1]));
    assert_eq!(NewMetadataOutput::<Node, Node>::from_clvm(&output.to_clvm()), Ok(output));
    assert_eq!(MeltSingleton::from_clvm(&Node::nil()), Err(FromClvmError::ExpectedPair));
    assert_eq!(
        Softfork::<Node>::from_clvm(&Node::list(&vec![atom(&[91]), atom(&[1])])),
        Err(FromClvmError::WrongConstant)
    );
}

#[test]
fn conditions_list() {
    let list = Conditions::new()
        .create_coin(hash(1), 1, vec![])
        .with(Condition::Other(atom(&[5])))
        .extend(Conditions::new().assert_puzzle_announcement(hash(2)).create_puzzle_announcement(vec![1]))
        .assert_coin_announcement(hash(3));
    assert_eq!(
        list.to_clvm(),
        Node::list(&vec![
            CreateCoin::new(hash(1), 1, vec![]).to_clvm(),
            atom(&[5]),
            Node::list(&vec![atom(&[63]), atom(&[2; 32])]),
            Node::list(&vec![atom(&[62]), atom(&[1])]),
            Node::list(&vec![atom(&[61]), atom(&[3; 32])]),
        ])
    );
}

#[test]
fn coin_id_matches_the_protocol_crate() {
    for amount in [0u64, 1, 127, 128, 1000, 1 << 31, (1 << 63) - 1, 1 << 63, u64::MAX] {
        let coin = Coin::new(hash(1), hash(2), amount);
        let expected = chia_protocol::Coin::new(
            chia_protocol::Bytes32::new([1; 32]),
            chia_protocol::Bytes32::new([2; 32]),
            amount,
        )
        .coin_id();
        assert_eq!(coin.coin_id().bytes, expected.to_bytes());
        let mut data = vec![1u8; 32];
        data.extend([2; 32]);
        data.extend(chia_sdk_driver::number::encode_u64(amount));
        let mut h = clvmr::sha2::Sha256::new();
        h.update(&data);
        assert_eq!(coin.coin_id().bytes, h.finalize());
    }
}

#[test]
fn spends_are_taken_in_the_order_of_insertion() {
    let programs = DataLayerPrograms {
        delegation_layer: Node::nil(),
        writer_filter: Node::nil(),
        oracle: Node::nil(),
        dl_metadata_updater_hash: hash(0),
    };
    let mut ctx = SpendContext::new(Modules::standard(programs).unwrap());
    let spends: Vec<CoinSpend> = (0..4u8)
        .map(|i| CoinSpend::new(Coin::new(hash(i), hash(i), i as u64), vec![i], vec![0x80]))
        .collect();
    for s in &spends {
        ctx.insert(s.clone());
    }
    assert_eq!(ctx.take(), spends);
    assert_eq!(ctx.take(), vec![]);
    ctx.insert(spends[2].clone());
    assert_eq!(ctx.take(), vec![spends[2].clone()]);
    let node = Node::pair(atom(&[1]), Node::nil());
    assert_eq!(ctx.encode(&node), node);
    assert_eq!(
        ctx.standard_puzzle().tree_hash().bytes,
        chia_puzzles::standard::STANDARD_PUZZLE_HASH.to_bytes()
    );
    assert_eq!(ctx.serialize(&node), Ok(vec![0xff, 0x01, 0x80]));
    assert_eq!(ctx.tree_hash(&node), node.tree_hash());
    assert_eq!(node_to_bytes(&node), Ok(vec![0xff, 0x01, 0x80]));
}

#[test]
fn secp256r1_signatures() {
    let mut bytes = [0u8; 64];
    bytes[31] = 1;
    bytes[63] = 1;
    let signature = Secp256r1Signature::from_bytes(bytes).unwrap();
    assert_eq!(signature.to_bytes(), bytes);
    assert_eq!(signature.to_clvm(), atom(&bytes));
    assert_eq!(Secp256r1Signature::from_clvm(&atom(&bytes)), Ok(signature));
    // a scalar that is zero, or beyond the order of the group
    assert!(Secp256r1Signature::from_bytes([0u8; 64]).is_err());
    assert!(Secp256r1Signature::from_bytes([0xffu8; 64]).is_err());
    assert_eq!(Secp256r1Signature::from_clvm(&atom(&[0; 64])), Err(FromClvmError::InvalidValue));
    assert_eq!(
        Secp256r1Signature::from_clvm(&atom(&[1; 63])),
        Err(FromClvmError::WrongAtomLength { expected: 64, found: 63 })
    );
    assert_eq!(
        Secp256r1Signature::from_clvm(&Node::pair(Node::nil(), Node::nil())),
        Err(FromClvmError::ExpectedAtom)
    );
    assert_eq!(Secp256r1Signature::SIZE, 64);
}

#[test]
fn secp256r1_scalars_at_the_order_of_the_group() {
    let order: [u8; 32] = [
        0xff, 0xff, 0xff, 0xff, 0x00, 0x00, 0x00, 0x00, 0xff, 0xff, 0xff, 0xff, 0xff, 0xff, 0xff,
        0xff, 0xbc, 0xe6, 0xfa, 0xad, 0xa7, 0x17, 0x9e, 0x84, 0xf3, 0xb9, 0xca, 0xc2, 0xfc, 0x63,
        0x25, 0x51,
    ];
    let mut below = order;
    below[31] = 0x50;
    let mut one = [0u8; 32];
    one[31] = 1;
    let join = |r: &[u8; 32], s: &[u8; 32]| {
        let mut bytes = [0u8; 64];
        bytes[..32].copy_from_slice(r);
        bytes[32..].copy_from_slice(s);
        bytes
    };
    // the greatest scalar below the order is taken, in either half
    assert!(Secp256r1Signature::from_bytes(join(&below, &one)).is_ok());
    assert!(Secp256r1Signature::from_bytes(join(&one, &below)).is_ok());
    assert!(Secp256r1Signature::from_bytes(join(&below, &below)).is_ok());
    // the order itself is not, in either half
    assert!(Secp256r1Signature::from_bytes(join(&order, &one)).is_err());
    assert!(Secp256r1Signature::from_bytes(join(&one, &order)).is_err());
    // nor is zero in one half
    assert!(Secp256r1Signature::from_bytes(join(&[0u8; 32], &one)).is_err());
    assert!(Secp256r1Signature::from_bytes(join(&one, &[0u8; 32])).is_err());
}
