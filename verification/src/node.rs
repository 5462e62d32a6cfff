//! Values of the script VM: binary trees with byte strings at the leaves.
use vstd::prelude::*;
use crate::bytes::{append_bytes, bytes_clone, bytes_eq, Bytes32};
use crate::sha::{sha256, sha256_digest};

verus! {

/// The mathematical value of a VM node.
pub enum Tree {
    Atom(Seq<u8>),
    Pair(Box<Tree>, Box<Tree>),
}

/// A VM value held by the library.
#[derive(Debug, PartialEq, Eq)]
pub enum Node {
    Atom(Vec<u8>),
    Pair(Box<Node>, Box<Node>),
}

/// The value that a node stands for.
pub open spec fn tree_of(node: Node) -> Tree
    decreases node,
{
    match node {
        Node::Atom(bytes) => Tree::Atom(bytes@),
        Node::Pair(first, rest) => Tree::Pair(Box::new(tree_of(*first)), Box::new(tree_of(*rest))),
    }
}

impl View for Node {
    type V = Tree;

    open spec fn view(&self) -> Tree {
        tree_of(*self)
    }
}

impl Tree {
    /// The empty atom, which ends every list.
    pub open spec fn nil() -> Tree {
        Tree::Atom(Seq::empty())
    }

    /// A pair of two values.
    pub open spec fn cons(first: Tree, rest: Tree) -> Tree {
        Tree::Pair(Box::new(first), Box::new(rest))
    }

    /// The list of `items`, ended by `tail`.
    pub open spec fn list_with_tail(items: Seq<Tree>, tail: Tree) -> Tree
        decreases items.len(),
    {
        if items.len() == 0 {
            tail
        } else {
            Tree::cons(items[0], Tree::list_with_tail(items.drop_first(), tail))
        }
    }

    /// The proper list of `items`.
    pub open spec fn list(items: Seq<Tree>) -> Tree {
        Tree::list_with_tail(items, Tree::nil())
    }

    /// The items of a list, whatever atom ends it.
    pub open spec fn items(self) -> Seq<Tree>
        decreases self,
    {
        match self {
            Tree::Atom(_) => Seq::empty(),
            Tree::Pair(first, rest) => seq![*first] + rest.items(),
        }
    }

    /// The atom that ends a list.
    pub open spec fn tail(self) -> Seq<u8>
        decreases self,
    {
        match self {
            Tree::Atom(bytes) => bytes,
            Tree::Pair(_, rest) => rest.tail(),
        }
    }

    /// Whether the value is a list ended by the empty atom.
    pub open spec fn is_proper_list(self) -> bool {
        self.tail().len() == 0
    }

    /// The number of pairs on the longest path from the value to a leaf.
    pub open spec fn height(self) -> nat
        decreases self,
    {
        match self {
            Tree::Atom(_) => 0,
            Tree::Pair(first, rest) => {
                let f = first.height();
                let r = rest.height();
                if f >= r {
                    f + 1
                } else {
                    r + 1
                }
            },
        }
    }

    /// The canonical hash of a value: an atom hashes as `1 || bytes`,
    /// a pair as `2 || hash(first) || hash(rest)`.
    pub open spec fn tree_hash(self) -> Bytes32
        decreases self,
    {
        match self {
            Tree::Atom(bytes) => hash_atom(bytes),
            Tree::Pair(first, rest) => hash_pair(first.tree_hash(), rest.tree_hash()),
        }
    }
}

/// The values of a sequence of nodes.
pub open spec fn trees(nodes: Seq<Node>) -> Seq<Tree> {
    nodes.map_values(|n: Node| n@)
}

/// The contents of a sequence of byte strings.
pub open spec fn byte_views(items: Seq<Vec<u8>>) -> Seq<Seq<u8>> {
    items.map_values(|b: Vec<u8>| b@)
}

/// The hash of an atom.
pub open spec fn hash_atom(bytes: Seq<u8>) -> Bytes32 {
    sha256(seq![1u8] + bytes)
}

/// The hash of a pair whose halves hash to `first` and `rest`.
pub open spec fn hash_pair(first: Bytes32, rest: Bytes32) -> Bytes32 {
    sha256(seq![2u8] + first@ + rest@)
}

/// The value of a node, one level down.
pub proof fn lemma_view(node: &Node)
    ensures
        match node {
            Node::Atom(bytes) => node@ == Tree::Atom(bytes@),
            Node::Pair(first, rest) => node@ == Tree::cons(first@, rest@),
        },
{
}

/// Computes the hash of an atom.
pub fn tree_hash_atom(bytes: &[u8]) -> (r: Bytes32)
    ensures
        r == hash_atom(bytes@),
{
    let mut data: Vec<u8> = Vec::new();
    data.push(1u8);
    append_bytes(&mut data, bytes);
    assert(data@ =~= seq![1u8] + bytes@);
    sha256_digest(&data)
}

/// Computes the hash of a pair from the hashes of its halves.
pub fn tree_hash_pair(first: Bytes32, rest: Bytes32) -> (r: Bytes32)
    ensures
        r == hash_pair(first, rest),
{
    let mut data: Vec<u8> = Vec::new();
    data.push(2u8);
    append_bytes(&mut data, first.bytes.as_slice());
    append_bytes(&mut data, rest.bytes.as_slice());
    assert(data@ =~= seq![2u8] + first@ + rest@);
    sha256_digest(&data)
}

impl Clone for Node {
    fn clone(&self) -> (r: Self)
        ensures
            r@ == self@,
        decreases self,
    {
        match self {
            Node::Atom(bytes) => Node::Atom(bytes_clone(bytes.as_slice())),
            Node::Pair(first, rest) => {
                let f = (**first).clone();
                let s = (**rest).clone();
                Node::Pair(Box::new(f), Box::new(s))
            },
        }
    }
}

impl Node {
    /// The empty atom.
    pub fn nil() -> (r: Node)
        ensures
            r@ == Tree::nil(),
    {
        Node::Atom(Vec::new())
    }

    /// An atom holding a copy of `bytes`.
    pub fn atom(bytes: &[u8]) -> (r: Node)
        ensures
            r@ == Tree::Atom(bytes@),
    {
        Node::Atom(bytes_clone(bytes))
    }

    /// The pair of `first` and `rest`.
    pub fn pair(first: Node, rest: Node) -> (r: Node)
        ensures
            r@ == Tree::cons(first@, rest@),
    {
        Node::Pair(Box::new(first), Box::new(rest))
    }

    /// Whether this is the empty atom.
    pub fn is_nil(&self) -> (r: bool)
        ensures
            r == (self@ == Tree::nil()),
    {
        match self {
            Node::Atom(bytes) => {
                assert(bytes@.len() == 0 ==> bytes@ =~= Seq::<u8>::empty());
                bytes.len() == 0
            },
            Node::Pair(_, _) => false,
        }
    }

    /// Whether two values are the same tree.
    pub fn same(&self, other: &Node) -> (r: bool)
        ensures
            r == (self@ == other@),
        decreases self,
    {
        match self {
            Node::Atom(a) => match other {
                Node::Atom(b) => bytes_eq(a.as_slice(), b.as_slice()),
                Node::Pair(_, _) => false,
            },
            Node::Pair(f1, r1) => match other {
                Node::Atom(_) => false,
                Node::Pair(f2, r2) => f1.same(f2) && r1.same(r2),
            },
        }
    }

    /// The canonical hash of the value.
    pub fn tree_hash(&self) -> (r: Bytes32)
        ensures
            r == self@.tree_hash(),
        decreases self,
    {
        match self {
            Node::Atom(bytes) => tree_hash_atom(bytes.as_slice()),
            Node::Pair(first, rest) => {
                let f = first.tree_hash();
                let s = rest.tree_hash();
                tree_hash_pair(f, s)
            },
        }
    }

    /// The list of `items`, ended by `tail`.
    pub fn list_with_tail(items: &Vec<Node>, tail: Node) -> (r: Node)
        ensures
            r@ == Tree::list_with_tail(trees(items@), tail@),
    {
        let ghost views = trees(items@);
        let mut out = tail;
        let mut i: usize = items.len();
        assert(views.skip(i as int) =~= Seq::<Tree>::empty());
        while i > 0
            invariant
                i <= items.len(),
                views == trees(items@),
                out@ == Tree::list_with_tail(views.skip(i as int), tail@),
            decreases i,
        {
            i -= 1;
            let item = items[i].clone();
            proof {
                let s = views.skip(i as int);
                assert(s[0] == item@);
                assert(s.drop_first() =~= views.skip(i + 1));
            }
            out = Node::Pair(Box::new(item), Box::new(out));
        }
        assert(views.skip(0) =~= views);
        out
    }

    /// The proper list of `items`.
    pub fn list(items: &Vec<Node>) -> (r: Node)
        ensures
            r@ == Tree::list(trees(items@)),
    {
        Node::list_with_tail(items, Node::nil())
    }

    /// The items of a list, whatever atom ends it.
    pub fn items(&self) -> (r: Vec<Node>)
        ensures
            trees(r@) == self@.items(),
    {
        let mut out: Vec<Node> = Vec::new();
        let mut cur: &Node = self;
        assert(trees(out@) =~= Seq::<Tree>::empty());
        loop
            invariant
                trees(out@) + cur@.items() == self@.items(),
            decreases cur,
        {
            match cur {
                Node::Atom(_) => {
                    assert(trees(out@) + cur@.items() =~= trees(out@));
                    return out;
                },
                Node::Pair(first, rest) => {
                    let ghost before = trees(out@);
                    out.push((**first).clone());
                    assert(trees(out@) =~= before + seq![first@]);
                    assert(before + cur@.items() =~= before + seq![first@] + rest@.items());
                    cur = &**rest;
                },
            }
        }
    }

    /// The number of bytes of the atom that ends a list.
    pub fn tail_len(&self) -> (r: usize)
        ensures
            r == self@.tail().len(),
    {
        let mut cur: &Node = self;
        loop
            invariant
                cur@.tail() == self@.tail(),
            decreases cur,
        {
            match cur {
                Node::Atom(bytes) => {
                    return bytes.len();
                },
                Node::Pair(_, rest) => {
                    cur = &**rest;
                },
            }
        }
    }

    /// Whether the value is a list ended by the empty atom.
    pub fn is_proper_list(&self) -> (r: bool)
        ensures
            r == self@.is_proper_list(),
    {
        let mut cur: &Node = self;
        loop
            invariant
                cur@.tail() == self@.tail(),
            decreases cur,
        {
            match cur {
                Node::Atom(bytes) => {
                    return bytes.len() == 0;
                },
                Node::Pair(_, rest) => {
                    cur = &**rest;
                },
            }
        }
    }
}

} // verus!
