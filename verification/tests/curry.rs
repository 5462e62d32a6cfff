use chia_sdk_driver::bytes::Bytes32;
use chia_sdk_driver::curry::{curried_args_of, curry, curry_tree_hash, uncurry};
use chia_sdk_driver::error::FromClvmError;
use chia_sdk_driver::node::{tree_hash_atom, Node};
use chia_sdk_driver::vm::{node_from_bytes, node_to_bytes, run_puzzle};

fn atom(bytes: &[u8]) -> Node {
    Node::atom(bytes)
}

#[test]
fn curried_program_exact_bytes() {
    // "xyz" curried with "a", "b", "c"
    let node = curry(&atom(b"xyz"), &vec![atom(b"a"), atom(b"b"), atom(b"c")]);
    let expected: Vec<u8> = vec![
        0xff, 0x02, 0xff, 0xff, 0x01, 0x83, 0x78, 0x79, 0x7a, 0xff, 0xff, 0x04, 0xff, 0xff, 0x01,
        0x61, 0xff, 0xff, 0x04, 0xff, 0xff, 0x01, 0x62, 0xff, 0xff, 0x04, 0xff, 0xff, 0x01, 0x63,
        0xff, 0x01, 0x80, 0x80, 0x80, 0x80,
    ];
    assert_eq!(node_to_bytes(&node).unwrap(), expected);
}

#[test]
fn curry_hash_matches_the_hash_of_the_curried_program() {
    let program = Node::pair(atom(&[2]), atom(&[5]));
    let args = vec![atom(&[5; 32]), Node::pair(atom(&[1]), Node::nil()), Node::nil()];
    let node = curry(&program, &args);
    let hashes: Vec<Bytes32> = args.iter().map(|a| a.tree_hash()).collect();
    assert_eq!(node.tree_hash(), curry_tree_hash(program.tree_hash(), &hashes));
    let expected = clvm_utils::curry_tree_hash(
        clvm_utils::TreeHash::new(program.tree_hash().bytes),
        &hashes.iter().map(|h| clvm_utils::TreeHash::new(h.bytes)).collect::<Vec<_>>(),
    );
    assert_eq!(node.tree_hash().bytes, expected.to_bytes());
    assert_eq!(tree_hash_atom(&[1, 2]).bytes, clvm_utils::tree_hash_atom(&[1, 2]).to_bytes());
}

#[test]
fn curried_arguments_come_before_the_solution() {
    // the program 1 returns all its arguments
    let node = curry(&atom(&[1]), &vec![atom(&[7]), atom(&[8])]);
    let out = run_puzzle(&node, &Node::list(&vec![atom(&[9])])).unwrap();
    assert_eq!(out, Node::list(&vec![atom(&[7]), atom(&[8]), atom(&[9])]));
}

#[test]
fn uncurry_gives_module_and_arguments() {
    let program = atom(b"xyz");
    let args = vec![atom(b"a"), Node::pair(atom(b"b"), atom(b"c"))];
    let node = curry(&program, &args);
    let (module, rest) = uncurry(&node).unwrap();
    assert_eq!(module, &program);
    let read = curried_args_of(rest, 2).unwrap();
    assert_eq!(read, vec![&args[0], &args[1]]);
    // fewer or more arguments than there are
    assert_eq!(curried_args_of(rest, 1), Err(FromClvmError::ExpectedAtom));
    assert_eq!(curried_args_of(rest, 3), Err(FromClvmError::ExpectedPair));
}

#[test]
fn what_is_not_curried_is_not_uncurried() {
    assert_eq!(uncurry(&atom(&[1])), None);
    assert_eq!(uncurry(&Node::list(&vec![atom(&[2]), atom(&[1]), atom(&[1])])), None);
    // (a (q . 1) 1 . 1)
    let improper = Node::pair(
        atom(&[2]),
        Node::pair(Node::pair(atom(&[1]), atom(&[1])), Node::pair(atom(&[1]), atom(&[1]))),
    );
    assert_eq!(uncurry(&improper), None);
    // a compiled module has the shape of a program curried with its constants
    let launcher =
        node_from_bytes(&chia_puzzles::singleton::SINGLETON_LAUNCHER_PUZZLE).unwrap();
    let (_, constants) = uncurry(&launcher).unwrap();
    assert_eq!(curried_args_of(constants, 1).map(|a| a.len()), Ok(1));
}
