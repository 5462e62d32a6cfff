//! The script VM: running programs, and reading and writing serialized nodes.
//!
//! The VM keeps its nodes in an allocator and hands out handles to them. The
//! library keeps values of its own ([`Node`]) and moves them into and out of an
//! allocator around each call.
use vstd::prelude::*;
use clvmr::{Allocator, NodePtr};
use crate::error::DriverError;
use crate::node::{tree_of, Node, Tree};

verus! {

/// `clvmr::Allocator`, the VM's store of nodes. Nothing is known of what is
/// inside but what `arena` names.
#[verifier::external_type_specification]
#[verifier::external_body]
pub struct ExAllocator(clvmr::Allocator);

/// `clvmr::NodePtr`, the handle of a node in an allocator. Nothing is known
/// of what is inside.
#[verifier::external_type_specification]
#[verifier::external_body]
pub struct ExNodePtr(clvmr::NodePtr);

/// The nodes that an allocator holds: each handle with the value it stands for.
pub uninterp spec fn arena(a: Allocator) -> Map<NodePtr, Tree>;

/// What the VM returns when it runs `program` on `solution` within `max_cost`
/// and does not fail.
pub uninterp spec fn run_output(program: Tree, solution: Tree, max_cost: u64) -> Tree;

/// The value that the VM reads from a serialized node.
pub uninterp spec fn deserialized(bytes: Seq<u8>) -> Tree;

/// The serialized form that the VM writes for a value.
pub uninterp spec fn serialized(tree: Tree) -> Seq<u8>;

/// Whether every handle of `before` is still held in `after`, with its value.
pub open spec fn keeps(before: Map<NodePtr, Tree>, after: Map<NodePtr, Tree>) -> bool {
    forall|n: NodePtr| #[trigger]
        before.contains_key(n) ==> after.contains_key(n) && after[n] == before[n]
}

/// The deepest value that the library takes from the VM, in pairs from the
/// root to a leaf. Deeper values are refused as a failure of the VM.
///
/// The VM itself sets no bound on depth, only on the number of pairs. The
/// bound is the library's own: it walks its trees by recursion, one call for
/// each pair on the way down, and the bound keeps those walks within the
/// stack of a thread.
pub const MAX_DEPTH: usize = 5_000;

/// The cost limit of one puzzle run.
pub const MAX_PUZZLE_COST: u64 = 11_000_000_000;

/// `Allocator::new`. Nothing is claimed of the new allocator.
#[verifier::external_body]
fn vm_new() -> (a: Allocator) {
    Allocator::new()
}

/// `Allocator::new_atom`: on success the handle stands for an atom with the
/// given bytes. Nodes are never changed or removed, so every handle that was
/// held before stands for the same value after.
#[verifier::external_body]
fn vm_new_atom(a: &mut Allocator, bytes: &[u8]) -> (r: Option<NodePtr>)
    ensures
        keeps(arena(*old(a)), arena(*final(a))),
        r is Some ==> arena(*final(a)).contains_key(r->0) && arena(*final(a))[r->0]
            == Tree::Atom(bytes@),
{
    a.new_atom(bytes).ok()
}

/// `Allocator::new_pair`: on success the handle stands for the pair of the two
/// given nodes; earlier handles keep their values.
#[verifier::external_body]
fn vm_new_pair(a: &mut Allocator, first: NodePtr, rest: NodePtr) -> (r: Option<NodePtr>)
    requires
        arena(*old(a)).contains_key(first),
        arena(*old(a)).contains_key(rest),
    ensures
        keeps(arena(*old(a)), arena(*final(a))),
        r is Some ==> arena(*final(a)).contains_key(r->0) && arena(*final(a))[r->0] == Tree::cons(
            arena(*old(a))[first],
            arena(*old(a))[rest],
        ),
{
    a.new_pair(first, rest).ok()
}

/// `Allocator::next`: the two halves of a pair, or `None` for an atom.
#[verifier::external_body]
fn vm_next(a: &Allocator, node: NodePtr) -> (r: Option<(NodePtr, NodePtr)>)
    requires
        arena(*a).contains_key(node),
    ensures
        match r {
            Some((first, rest)) => arena(*a).contains_key(first) && arena(*a).contains_key(rest)
                && arena(*a)[node] == Tree::cons(arena(*a)[first], arena(*a)[rest]),
            None => arena(*a)[node] is Atom,
        },
{
    a.next(node)
}

/// `Allocator::atom`: the bytes of an atom. The outside function panics on a
/// pair, which the precondition leaves out.
#[verifier::external_body]
fn vm_atom(a: &Allocator, node: NodePtr) -> (r: Vec<u8>)
    requires
        arena(*a).contains_key(node),
        arena(*a)[node] is Atom,
    ensures
        arena(*a)[node] == Tree::Atom(r@),
{
    a.atom(node).as_ref().to_vec()
}

/// `clvmr::run_program` with `ChiaDialect::new(0)`: on success the handle
/// stands for the program's output, which depends on the two values and the
/// cost limit alone; earlier handles keep their values.
#[verifier::external_body]
fn vm_run(a: &mut Allocator, program: NodePtr, solution: NodePtr, max_cost: u64) -> (r: Option<
    NodePtr,
>)
    requires
        arena(*old(a)).contains_key(program),
        arena(*old(a)).contains_key(solution),
    ensures
        keeps(arena(*old(a)), arena(*final(a))),
        r is Some ==> arena(*final(a)).contains_key(r->0) && arena(*final(a))[r->0] == run_output(
            arena(*old(a))[program],
            arena(*old(a))[solution],
            max_cost,
        ),
{
    clvmr::run_program(a, &clvmr::ChiaDialect::new(0), program, solution, max_cost).ok().map(|r| r.1)
}

/// `clvmr::serde::node_from_bytes`: on success the handle stands for the value
/// that the bytes encode; earlier handles keep their values.
#[verifier::external_body]
fn vm_node_from_bytes(a: &mut Allocator, bytes: &[u8]) -> (r: Option<NodePtr>)
    ensures
        keeps(arena(*old(a)), arena(*final(a))),
        r is Some ==> arena(*final(a)).contains_key(r->0) && arena(*final(a))[r->0]
            == deserialized(bytes@),
{
    clvmr::serde::node_from_bytes(a, bytes).ok()
}

/// `clvmr::serde::node_to_bytes`: the serialized form of a value, which reads
/// back as the same value.
#[verifier::external_body]
fn vm_node_to_bytes(a: &Allocator, node: NodePtr) -> (r: Option<Vec<u8>>)
    requires
        arena(*a).contains_key(node),
    ensures
        r is Some ==> r->0@ == serialized(arena(*a)[node]) && deserialized(r->0@) == arena(
            *a,
        )[node],
{
    clvmr::serde::node_to_bytes(a, node).ok()
}


/// Copies a value out of an allocator, down to `depth` pairs below the node.
/// A value is copied exactly when it goes no deeper than that.
fn load(a: &Allocator, node: NodePtr, depth: usize) -> (r: Option<Node>)
    requires
        arena(*a).contains_key(node),
    ensures
        r is Some <==> arena(*a)[node].height() <= depth,
        r is Some ==> r->0@ == arena(*a)[node],
    decreases depth,
{
    match vm_next(a, node) {
        Some((first, rest)) => {
            if depth == 0 {
                return None;
            }
            let f = match load(a, first, depth - 1) {
                Some(f) => f,
                None => {
                    return None;
                },
            };
            let s = match load(a, rest, depth - 1) {
                Some(s) => s,
                None => {
                    return None;
                },
            };
            Some(Node::Pair(Box::new(f), Box::new(s)))
        },
        None => Some(Node::Atom(vm_atom(a, node))),
    }
}

/// Copies a value into an allocator. Fails when the allocator is full.
fn store(a: &mut Allocator, node: &Node) -> (r: Option<NodePtr>)
    ensures
        keeps(arena(*old(a)), arena(*final(a))),
        r is Some ==> arena(*final(a)).contains_key(r->0) && arena(*final(a))[r->0] == node@,
    decreases node,
{
    match node {
        Node::Atom(bytes) => vm_new_atom(a, bytes.as_slice()),
        Node::Pair(first, rest) => {
            let f = match store(a, first) {
                Some(f) => f,
                None => {
                    return None;
                },
            };
            let ghost mid = *a;
            let s = match store(a, rest) {
                Some(s) => s,
                None => {
                    proof {
                        assert(keeps(arena(*old(a)), arena(*a)));
                    }
                    return None;
                },
            };
            let ghost late = *a;
            let r = vm_new_pair(a, f, s);
            proof {
                assert(arena(mid).contains_key(f));
                assert(node@ == Tree::cons(tree_of(**first), tree_of(**rest)));
                assert(keeps(arena(*old(a)), arena(late)));
            }
            r
        },
    }
}

/// Runs `puzzle` on `solution` in a fresh allocator, within the cost limit of
/// one puzzle run.
///
/// Whether the VM accepts the program is the VM's to decide; whenever it does
/// and the output is no deeper than `MAX_DEPTH`, the output is the one the VM
/// defines for these two values.
pub fn run_puzzle(puzzle: &Node, solution: &Node) -> (r: Result<Node, DriverError>)
    ensures
        match r {
            Ok(output) => output@ == run_output(puzzle@, solution@, MAX_PUZZLE_COST)
                && output@.height() <= MAX_DEPTH,
            Err(e) => e == DriverError::Vm,
        },
{
    let mut a = vm_new();
    let p = match store(&mut a, puzzle) {
        Some(p) => p,
        None => {
            return Err(DriverError::Vm);
        },
    };
    let ghost mid = a;
    let s = match store(&mut a, solution) {
        Some(s) => s,
        None => {
            return Err(DriverError::Vm);
        },
    };
    assert(arena(mid).contains_key(p));
    match vm_run(&mut a, p, s, MAX_PUZZLE_COST) {
        Some(out) => match load(&a, out, MAX_DEPTH) {
            Some(output) => Ok(output),
            None => Err(DriverError::Vm),
        },
        None => Err(DriverError::Vm),
    }
}

/// Reads a serialized node. Bytes that the VM does not read as a node, and
/// nodes deeper than `MAX_DEPTH`, are refused.
pub fn node_from_bytes(bytes: &[u8]) -> (r: Result<Node, DriverError>)
    ensures
        match r {
            Ok(node) => node@ == deserialized(bytes@) && node@.height() <= MAX_DEPTH,
            Err(e) => e == DriverError::Vm,
        },
{
    let mut a = vm_new();
    match vm_node_from_bytes(&mut a, bytes) {
        Some(n) => match load(&a, n, MAX_DEPTH) {
            Some(node) => Ok(node),
            None => Err(DriverError::Vm),
        },
        None => Err(DriverError::Vm),
    }
}

/// Writes a value in serialized form. The bytes read back as the same value.
pub fn node_to_bytes(node: &Node) -> (r: Result<Vec<u8>, DriverError>)
    ensures
        match r {
            Ok(bytes) => bytes@ == serialized(node@) && deserialized(bytes@) == node@,
            Err(e) => e == DriverError::Vm,
        },
{
    let mut a = vm_new();
    let n = match store(&mut a, node) {
        Some(n) => n,
        None => {
            return Err(DriverError::Vm);
        },
    };
    match vm_node_to_bytes(&a, n) {
        Some(bytes) => Ok(bytes),
        None => Err(DriverError::Vm),
    }
}

} // verus!
