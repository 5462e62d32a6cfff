use chia_sdk_driver::bytes::Bytes32;
use chia_sdk_driver::conditions::{CreateCoin, MeltSingleton, RunTail, Softfork};
use chia_sdk_driver::node::Node;
use chia_sdk_driver::vm::{node_from_bytes, node_to_bytes, run_puzzle};

fn atom(bytes: &[u8]) -> Node {
    Node::atom(bytes)
}

#[test]
fn tree_hash_matches_the_vm_crates() {
    let node = Node::pair(atom(&[1, 2, 3]), Node::pair(Node::nil(), atom(&[0xff; 40])));
    let bytes = node_to_bytes(&node).unwrap();
    let expected = clvm_utils::tree_hash_from_bytes(&bytes).unwrap();
    assert_eq!(node.tree_hash().bytes, expected.to_bytes());
}

#[test]
fn serialized_nodes_read_back() {
    let node = Node::pair(atom(&[1]), Node::pair(atom(&[7, 7]), Node::nil()));
    let bytes = node_to_bytes(&node).unwrap();
    assert_eq!(bytes, vec![0xff, 0x01, 0xff, 0x82, 0x07, 0x07, 0x80]);
    assert_eq!(node_from_bytes(&bytes).unwrap(), node);
}

#[test]
fn quoted_program_returns_its_body() {
    // (q . (1 2)) run on anything gives (1 2)
    let body = Node::list(&vec![atom(&[1]), atom(&[2])]);
    let program = Node::pair(atom(&[1]), body.clone());
    let out = run_puzzle(&program, &Node::nil()).unwrap();
    assert_eq!(out, body);
}

#[test]
fn program_one_returns_its_solution() {
    let solution = Node::list(&vec![atom(&[9]), atom(&[8])]);
    let out = run_puzzle(&atom(&[1]), &solution).unwrap();
    assert_eq!(out, solution);
}

#[test]
fn create_coin_round_trip() {
    let cc = CreateCoin::new(Bytes32::new([3; 32]), 1000, vec![vec![1, 2], vec![]]);
    let node = cc.to_clvm();
    assert_eq!(CreateCoin::from_clvm(&node).unwrap(), cc);
}

#[test]
fn simple_constructors() {
    assert_eq!(Softfork::new(5, 7u8).cost, 5);
    assert_eq!(RunTail::new(1u8, 2u8).solution, 2);
    assert_eq!(MeltSingleton::new(), MeltSingleton::default());
}

#[test]
fn values_beyond_the_depth_limit_are_refused() {
    // a list of n empty atoms: n times ff 80, then 80
    let list = |n: usize| {
        let mut bytes = Vec::new();
        for _ in 0..n {
            bytes.extend([0xff, 0x80]);
        }
        bytes.push(0x80);
        bytes
    };
    assert_eq!(node_from_bytes(&list(5_000)).unwrap().items().len(), 5_000);
    assert_eq!(node_from_bytes(&list(5_001)), Err(chia_sdk_driver::error::DriverError::Vm));
    // what the VM does not read
    assert_eq!(node_from_bytes(&[]), Err(chia_sdk_driver::error::DriverError::Vm));
    assert_eq!(node_from_bytes(&[0xff, 0x01]), Err(chia_sdk_driver::error::DriverError::Vm));
    // a program that fails
    assert_eq!(
        run_puzzle(&Node::list(&vec![atom(&[8])]), &Node::nil()),
        Err(chia_sdk_driver::error::DriverError::Vm)
    );
}
