//! Currying: fixing the first arguments of a program.
//!
//! `curry(program, [a, b])` is the program `(a (q . program) (c (q . a) (c (q . b) 1)))`.
//! Its hash can be computed from the hashes of the program and the arguments
//! alone, which is how puzzle hashes are predicted without building puzzles.
use vstd::prelude::*;
use crate::bytes::Bytes32;
use crate::codec::{lemma_parse_fields_list, parse_fields, parse_nil, ref_trees};
use crate::conditions::byte_tree;
use crate::error::{wrong_length, FromClvmError};
use crate::node::{
    hash_atom, hash_pair, lemma_view, tree_hash_atom, tree_hash_pair, trees, Node, Tree,
};

verus! {

/// The operator that applies a program to arguments.
pub const OP_APPLY: u8 = 2;

/// The operator that quotes a value.
pub const OP_QUOTE: u8 = 1;

/// The operator that builds a pair.
pub const OP_CONS: u8 = 4;

/// The quoted form of a value.
pub open spec fn quoted(t: Tree) -> Tree {
    Tree::cons(byte_tree(OP_QUOTE), t)
}

/// The argument list that puts `args` in front of the arguments of a call.
pub open spec fn curried_args(args: Seq<Tree>) -> Tree
    decreases args.len(),
{
    if args.len() == 0 {
        byte_tree(1)
    } else {
        Tree::list(seq![byte_tree(OP_CONS), quoted(args[0]), curried_args(args.drop_first())])
    }
}

/// The program that runs `program` with `args` in front of its arguments.
pub open spec fn curried(program: Tree, args: Seq<Tree>) -> Tree {
    Tree::list(seq![byte_tree(OP_APPLY), quoted(program), curried_args(args)])
}

/// The hash of a proper list of three values with the given hashes.
pub open spec fn hash_list3(a: Bytes32, b: Bytes32, c: Bytes32) -> Bytes32 {
    hash_pair(a, hash_pair(b, hash_pair(c, hash_atom(Seq::empty()))))
}

/// The hash of `curried_args` of values with the given hashes.
pub open spec fn curried_args_hash(hashes: Seq<Bytes32>) -> Bytes32
    decreases hashes.len(),
{
    if hashes.len() == 0 {
        hash_atom(seq![1u8])
    } else {
        hash_list3(
            hash_atom(seq![OP_CONS]),
            hash_pair(hash_atom(seq![OP_QUOTE]), hashes[0]),
            curried_args_hash(hashes.drop_first()),
        )
    }
}

/// The hash of a program with the given hash curried with arguments of the
/// given hashes.
pub open spec fn curry_hash(program_hash: Bytes32, hashes: Seq<Bytes32>) -> Bytes32 {
    hash_list3(
        hash_atom(seq![OP_APPLY]),
        hash_pair(hash_atom(seq![OP_QUOTE]), program_hash),
        curried_args_hash(hashes),
    )
}

/// The hashes of a sequence of values.
pub open spec fn tree_hashes(args: Seq<Tree>) -> Seq<Bytes32> {
    args.map_values(|t: Tree| t.tree_hash())
}

/// The hash of a list of three values.
pub proof fn lemma_hash_list3(a: Tree, b: Tree, c: Tree)
    ensures
        Tree::list(seq![a, b, c]).tree_hash() == hash_list3(
            a.tree_hash(),
            b.tree_hash(),
            c.tree_hash(),
        ),
{
    let s = seq![a, b, c];
    reveal_with_fuel(Tree::list_with_tail, 4);
    assert(s.drop_first() =~= seq![b, c]);
    assert(s.drop_first().drop_first() =~= seq![c]);
    assert(s.drop_first().drop_first().drop_first() =~= Seq::<Tree>::empty());
    assert(Tree::list(s) == Tree::cons(a, Tree::cons(b, Tree::cons(c, Tree::nil()))));
    reveal_with_fuel(Tree::tree_hash, 5);
}

/// The hash of curried arguments follows from the hashes of the arguments.
pub proof fn lemma_curried_args_hash(args: Seq<Tree>)
    ensures
        curried_args(args).tree_hash() == curried_args_hash(tree_hashes(args)),
    decreases args.len(),
{
    if args.len() > 0 {
        lemma_curried_args_hash(args.drop_first());
        lemma_hash_list3(byte_tree(OP_CONS), quoted(args[0]), curried_args(args.drop_first()));
        assert(tree_hashes(args).drop_first() =~= tree_hashes(args.drop_first()));
        reveal_with_fuel(Tree::tree_hash, 3);
    }
}

/// The hash of a curried program follows from the hashes of its parts: the
/// tree hash of `curried(program, args)` is `curry_hash` of their hashes.
pub proof fn lemma_curry_hash(program: Tree, args: Seq<Tree>)
    ensures
        curried(program, args).tree_hash() == curry_hash(program.tree_hash(), tree_hashes(args)),
{
    lemma_curried_args_hash(args);
    lemma_hash_list3(byte_tree(OP_APPLY), quoted(program), curried_args(args));
    reveal_with_fuel(Tree::tree_hash, 3);
}

/// The module and the argument list of a curried program: the value must be
/// the proper list `(a (q . module) args)`.
pub open spec fn uncurried(t: Tree) -> Option<(Tree, Tree)> {
    match parse_fields(t, 3) {
        Err(_) => None,
        Ok((f, tail)) => if tail == Tree::nil() && f[0] == byte_tree(OP_APPLY) {
            match f[1] {
                Tree::Pair(q, module) => if *q == byte_tree(OP_QUOTE) {
                    Some((*module, f[2]))
                } else {
                    None
                },
                Tree::Atom(_) => None,
            }
        } else {
            None
        },
    }
}

/// One curried argument and the arguments after it: the value must be the
/// proper list `(c (q . arg) more)`.
pub open spec fn parse_curried_arg(t: Tree) -> Result<(Tree, Tree), FromClvmError> {
    match t {
        Tree::Atom(_) => Err(FromClvmError::ExpectedPair),
        Tree::Pair(op, t1) => match *op {
            Tree::Pair(_, _) => Err(FromClvmError::ExpectedAtom),
            Tree::Atom(b) => if b != seq![OP_CONS] {
                Err(FromClvmError::WrongConstant)
            } else {
                match *t1 {
                    Tree::Atom(_) => Err(FromClvmError::ExpectedPair),
                    Tree::Pair(q, t2) => match *q {
                        Tree::Atom(_) => Err(FromClvmError::ExpectedPair),
                        Tree::Pair(qop, arg) => match *qop {
                            Tree::Pair(_, _) => Err(FromClvmError::ExpectedAtom),
                            Tree::Atom(qb) => if qb != seq![OP_QUOTE] {
                                Err(FromClvmError::WrongConstant)
                            } else {
                                match *t2 {
                                    Tree::Atom(_) => Err(FromClvmError::ExpectedPair),
                                    Tree::Pair(more, end) => match parse_nil(*end) {
                                        Err(e) => Err(e),
                                        Ok(_) => Ok((*arg, *more)),
                                    },
                                }
                            },
                        },
                    },
                }
            },
        },
    }
}

/// The end of a curried argument list: the atom `1`.
pub open spec fn parse_curry_end(t: Tree) -> Result<(), FromClvmError> {
    match t {
        Tree::Pair(_, _) => Err(FromClvmError::ExpectedAtom),
        Tree::Atom(b) => if b.len() != 1 {
            Err(wrong_length(1, b.len()))
        } else if b != seq![1u8] {
            Err(FromClvmError::WrongConstant)
        } else {
            Ok(())
        },
    }
}

/// The first `n` curried arguments and what follows them.
pub open spec fn parse_curried_fields(t: Tree, n: nat) -> Result<(Seq<Tree>, Tree), FromClvmError>
    decreases n,
{
    if n == 0 {
        Ok((Seq::empty(), t))
    } else {
        match parse_curried_arg(t) {
            Err(e) => Err(e),
            Ok((arg, more)) => match parse_curried_fields(more, (n - 1) as nat) {
                Err(e) => Err(e),
                Ok((args, tail)) => Ok((seq![arg] + args, tail)),
            },
        }
    }
}

/// The `n` arguments of a curried argument list of exactly that length.
pub open spec fn parse_curried_args(t: Tree, n: nat) -> Result<Seq<Tree>, FromClvmError> {
    match parse_curried_fields(t, n) {
        Err(e) => Err(e),
        Ok((args, tail)) => match parse_curry_end(tail) {
            Err(e) => Err(e),
            Ok(_) => Ok(args),
        },
    }
}

/// Curried arguments are read back as they were written.
pub proof fn lemma_parse_curried_args(args: Seq<Tree>)
    ensures
        parse_curried_fields(curried_args(args), args.len()) == Ok::<
            (Seq<Tree>, Tree),
            FromClvmError,
        >((args, byte_tree(1))),
        parse_curried_args(curried_args(args), args.len()) == Ok::<Seq<Tree>, FromClvmError>(
            args,
        ),
    decreases args.len(),
{
    if args.len() > 0 {
        let rest = args.drop_first();
        lemma_parse_curried_args(rest);
        let s = seq![byte_tree(OP_CONS), quoted(args[0]), curried_args(rest)];
        reveal_with_fuel(Tree::list_with_tail, 4);
        assert(s.drop_first() =~= seq![quoted(args[0]), curried_args(rest)]);
        assert(s.drop_first().drop_first() =~= seq![curried_args(rest)]);
        assert(s.drop_first().drop_first().drop_first() =~= Seq::<Tree>::empty());
        assert(curried_args(args) == Tree::cons(
            byte_tree(OP_CONS),
            Tree::cons(quoted(args[0]), Tree::cons(curried_args(rest), Tree::nil())),
        ));
        assert(parse_curried_arg(curried_args(args)) == Ok::<(Tree, Tree), FromClvmError>(
            (args[0], curried_args(rest)),
        ));
        assert(seq![args[0]] + rest =~= args);
    } else {
        assert(args =~= Seq::empty());
    }
}

/// A curried program is taken apart into the module and the arguments it was
/// built from.
pub proof fn lemma_uncurry_curried(program: Tree, args: Seq<Tree>)
    ensures
        uncurried(curried(program, args)) == Some((program, curried_args(args))),
{
    let s = seq![byte_tree(OP_APPLY), quoted(program), curried_args(args)];
    lemma_parse_fields_list(s, Tree::nil());
}

/// Builds the quoted form of a value.
fn quote(node: Node) -> (r: Node)
    ensures
        r@ == quoted(node@),
{
    Node::pair(op_node(OP_QUOTE), node)
}

/// The atom of an operator.
fn op_node(op: u8) -> (r: Node)
    ensures
        r@ == byte_tree(op),
{
    let mut bytes: Vec<u8> = Vec::new();
    bytes.push(op);
    assert(bytes@ =~= seq![op]);
    Node::Atom(bytes)
}

/// Builds the list of three nodes.
fn list3(a: Node, b: Node, c: Node) -> (r: Node)
    ensures
        r@ == Tree::list(seq![a@, b@, c@]),
{
    let mut items: Vec<Node> = Vec::new();
    items.push(a);
    items.push(b);
    items.push(c);
    assert(trees(items@) =~= seq![a@, b@, c@]);
    Node::list(&items)
}

/// Builds the program that runs `program` with `args` in front of its
/// arguments.
pub fn curry(program: &Node, args: &Vec<Node>) -> (r: Node)
    ensures
        r@ == curried(program@, trees(args@)),
{
    let mut acc = op_node(1);
    let mut i: usize = args.len();
    assert(trees(args@).skip(i as int) =~= Seq::<Tree>::empty());
    while i > 0
        invariant
            i <= args.len(),
            acc@ == curried_args(trees(args@).skip(i as int)),
        decreases i,
    {
        i -= 1;
        proof {
            let s = trees(args@).skip(i as int);
            assert(s[0] == args@[i as int]@);
            assert(s.drop_first() =~= trees(args@).skip(i + 1));
        }
        acc = list3(op_node(OP_CONS), quote(args[i].clone()), acc);
    }
    assert(trees(args@).skip(0) =~= trees(args@));
    list3(op_node(OP_APPLY), quote(program.clone()), acc)
}

/// Computes the hash of a list of three values from their hashes.
fn tree_hash_list3(a: Bytes32, b: Bytes32, c: Bytes32) -> (r: Bytes32)
    ensures
        r == hash_list3(a, b, c),
{
    let nil: Vec<u8> = Vec::new();
    assert(nil@ =~= Seq::<u8>::empty());
    let end = tree_hash_atom(nil.as_slice());
    tree_hash_pair(a, tree_hash_pair(b, tree_hash_pair(c, end)))
}

/// The hash of the atom of an operator.
fn op_hash(op: u8) -> (r: Bytes32)
    ensures
        r == hash_atom(seq![op]),
{
    let mut bytes: Vec<u8> = Vec::new();
    bytes.push(op);
    assert(bytes@ =~= seq![op]);
    tree_hash_atom(bytes.as_slice())
}

/// Computes the hash of a curried program from the hash of the program and
/// the hashes of the arguments.
pub fn curry_tree_hash(program_hash: Bytes32, arg_hashes: &Vec<Bytes32>) -> (r: Bytes32)
    ensures
        r == curry_hash(program_hash, arg_hashes@),
{
    let mut acc = op_hash(1);
    let mut i: usize = arg_hashes.len();
    assert(arg_hashes@.skip(i as int) =~= Seq::<Bytes32>::empty());
    while i > 0
        invariant
            i <= arg_hashes.len(),
            acc == curried_args_hash(arg_hashes@.skip(i as int)),
        decreases i,
    {
        i -= 1;
        proof {
            let s = arg_hashes@.skip(i as int);
            assert(s[0] == arg_hashes@[i as int]);
            assert(s.drop_first() =~= arg_hashes@.skip(i + 1));
        }
        let q = tree_hash_pair(op_hash(OP_QUOTE), arg_hashes[i]);
        acc = tree_hash_list3(op_hash(OP_CONS), q, acc);
    }
    assert(arg_hashes@.skip(0) =~= arg_hashes@);
    let q = tree_hash_pair(op_hash(OP_QUOTE), program_hash);
    tree_hash_list3(op_hash(OP_APPLY), q, acc)
}

/// Whether a node is the atom of one given byte.
fn is_byte(node: &Node, b: u8) -> (r: bool)
    ensures
        r == (node@ == byte_tree(b)),
{
    match node {
        Node::Atom(bytes) => {
            if bytes.len() == 1 && bytes[0] == b {
                assert(bytes@ =~= seq![b]);
                true
            } else {
                assert(bytes@ != seq![b]) by {
                    if bytes@ == seq![b] {
                        assert(bytes@.len() == 1);
                        assert(bytes@[0] == b);
                    }
                }
                false
            }
        },
        Node::Pair(_, _) => false,
    }
}

/// Takes a curried program apart into its module and its argument list.
pub fn uncurry(node: &Node) -> (r: Option<(&Node, &Node)>)
    ensures
        match r {
            Some((module, args)) => uncurried(node@) == Some((module@, args@)),
            None => uncurried(node@) is None,
        },
{
    let (f, tail) = match node.fields(3) {
        Ok(x) => x,
        Err(_) => {
            return None;
        },
    };
    assert(ref_trees(f@)[0] == f@[0]@);
    assert(ref_trees(f@)[1] == f@[1]@);
    assert(ref_trees(f@)[2] == f@[2]@);
    if !tail.is_nil() || !is_byte(f[0], OP_APPLY) {
        return None;
    }
    match f[1] {
        Node::Pair(q, module) => {
            if is_byte(q, OP_QUOTE) {
                Some((&**module, f[2]))
            } else {
                None
            }
        },
        Node::Atom(_) => None,
    }
}

/// Reads one curried argument and the arguments after it.
fn curried_arg(node: &Node) -> (r: Result<(&Node, &Node), FromClvmError>)
    ensures
        match r {
            Ok((arg, more)) => parse_curried_arg(node@) == Ok::<(Tree, Tree), FromClvmError>(
                (arg@, more@),
            ),
            Err(e) => parse_curried_arg(node@) == Err::<(Tree, Tree), FromClvmError>(e),
        },
{
    let (op, t1) = match node {
        Node::Atom(_) => {
            return Err(FromClvmError::ExpectedPair);
        },
        Node::Pair(op, t1) => (&**op, &**t1),
    };
    proof {
        lemma_view(node);
        lemma_view(op);
        lemma_view(t1);
    }
    match op {
        Node::Pair(_, _) => {
            return Err(FromClvmError::ExpectedAtom);
        },
        Node::Atom(_) => {},
    }
    if !is_byte(op, OP_CONS) {
        return Err(FromClvmError::WrongConstant);
    }
    let (q, t2) = match t1 {
        Node::Atom(_) => {
            return Err(FromClvmError::ExpectedPair);
        },
        Node::Pair(q, t2) => (&**q, &**t2),
    };
    proof {
        lemma_view(q);
        lemma_view(t2);
    }
    let (qop, arg) = match q {
        Node::Atom(_) => {
            return Err(FromClvmError::ExpectedPair);
        },
        Node::Pair(qop, arg) => (&**qop, &**arg),
    };
    proof {
        lemma_view(qop);
    }
    match qop {
        Node::Pair(_, _) => {
            return Err(FromClvmError::ExpectedAtom);
        },
        Node::Atom(_) => {},
    }
    if !is_byte(qop, OP_QUOTE) {
        return Err(FromClvmError::WrongConstant);
    }
    let (more, end) = match t2 {
        Node::Atom(_) => {
            return Err(FromClvmError::ExpectedPair);
        },
        Node::Pair(more, end) => (&**more, &**end),
    };
    match end.as_nil() {
        Err(e) => Err(e),
        Ok(_) => Ok((arg, more)),
    }
}

/// Reads the `n` arguments of a curried argument list of exactly that length.
pub fn curried_args_of(node: &Node, n: usize) -> (r: Result<Vec<&Node>, FromClvmError>)
    ensures
        match r {
            Ok(args) => parse_curried_args(node@, n as nat) == Ok::<Seq<Tree>, FromClvmError>(
                ref_trees(args@),
            ) && args@.len() == n,
            Err(e) => parse_curried_args(node@, n as nat) == Err::<Seq<Tree>, FromClvmError>(e),
        },
{
    let mut out: Vec<&Node> = Vec::new();
    let mut cur: &Node = node;
    let mut i: usize = 0;
    assert(ref_trees(out@) =~= Seq::<Tree>::empty());
    while i < n
        invariant
            i <= n,
            out@.len() == i,
            match parse_curried_fields(cur@, (n - i) as nat) {
                Ok((more, tail)) => parse_curried_fields(node@, n as nat) == Ok::<
                    (Seq<Tree>, Tree),
                    FromClvmError,
                >((ref_trees(out@) + more, tail)),
                Err(e) => parse_curried_fields(node@, n as nat) == Err::<
                    (Seq<Tree>, Tree),
                    FromClvmError,
                >(e),
            },
        decreases n - i,
    {
        match curried_arg(cur) {
            Err(e) => {
                return Err(e);
            },
            Ok((arg, more)) => {
                let ghost before = ref_trees(out@);
                out.push(arg);
                proof {
                    assert(ref_trees(out@) =~= before + seq![arg@]);
                    match parse_curried_fields(more@, (n - i - 1) as nat) {
                        Ok((rest, tail)) => {
                            assert(before + (seq![arg@] + rest) =~= ref_trees(out@) + rest);
                        },
                        Err(_) => {},
                    }
                }
                cur = more;
                i += 1;
            },
        }
    }
    assert(ref_trees(out@) + Seq::<Tree>::empty() =~= ref_trees(out@));
    match cur {
        Node::Pair(_, _) => Err(FromClvmError::ExpectedAtom),
        Node::Atom(b) => {
            if b.len() != 1 {
                Err(FromClvmError::WrongAtomLength { expected: 1, found: b.len() })
            } else if b[0] != 1 {
                assert(b@ != seq![1u8]) by {
                    if b@ == seq![1u8] {
                        assert(b@[0] == 1u8);
                    }
                }
                Err(FromClvmError::WrongConstant)
            } else {
                assert(b@ =~= seq![1u8]);
                Ok(out)
            }
        },
    }
}

} // verus!
