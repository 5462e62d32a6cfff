//! Reading and writing typed values as VM nodes.
//!
//! A list is read in two passes: first its shape (one pair for each field,
//! then the end of the list), then each field in order. The first failure is
//! the one reported.
use vstd::prelude::*;
use crate::bytes::{bytes_clone, lemma_bytes32_ext, Bytes32};
use crate::error::{wrong_length, FromClvmError};
use crate::node::{byte_views, trees, Node, Tree};
use crate::number::{
    decode_i32, decode_i8, decode_u16, decode_u64, decode_u8, decoded_signed, decoded_unsigned,
    encode_u64, uint_atom,
};

verus! {

/// A value that can be written as a VM node.
pub trait ToClvm {
    /// The value as a VM value.
    spec fn tree(&self) -> Tree;

    /// Writes the value as a VM node.
    fn to_clvm(&self) -> (r: Node)
        ensures
            r@ == self.tree(),
    ;
}

/// A value that can be read from a VM node.
pub trait FromClvm: ToClvm + Sized {
    /// The value that a VM value is read as, itself as a VM value.
    spec fn parsed(t: Tree) -> Result<Tree, FromClvmError>;

    /// Reads a value from a VM node.
    fn from_clvm(node: &Node) -> (r: Result<Self, FromClvmError>)
        ensures
            match r {
                Ok(v) => Self::parsed(node@) == Ok::<Tree, FromClvmError>(v.tree()),
                Err(e) => Self::parsed(node@) == Err::<Tree, FromClvmError>(e),
            },
    ;

    /// What is written is read back.
    proof fn lemma_round_trip(&self)
        ensures
            Self::parsed(self.tree()) == Ok::<Tree, FromClvmError>(self.tree()),
    ;
}

impl ToClvm for Node {
    open spec fn tree(&self) -> Tree {
        self@
    }

    fn to_clvm(&self) -> (r: Node) {
        self.clone()
    }
}

impl FromClvm for Node {
    open spec fn parsed(t: Tree) -> Result<Tree, FromClvmError> {
        Ok(t)
    }

    fn from_clvm(node: &Node) -> (r: Result<Self, FromClvmError>) {
        Ok(node.clone())
    }

    proof fn lemma_round_trip(&self) {
    }
}

/// The hash with the given 32 bytes.
pub open spec fn bytes32_of(s: Seq<u8>) -> Bytes32 {
    choose|b: Bytes32| b@ == s
}

/// A hash is found again from its bytes.
pub broadcast proof fn lemma_bytes32_of(b: Bytes32)
    ensures
        #[trigger] bytes32_of(b@) == b,
{
    lemma_bytes32_ext(bytes32_of(b@), b);
}

/// The two halves of a pair.
pub open spec fn parse_pair(t: Tree) -> Result<(Tree, Tree), FromClvmError> {
    match t {
        Tree::Pair(first, rest) => Ok((*first, *rest)),
        Tree::Atom(_) => Err(FromClvmError::ExpectedPair),
    }
}

/// The bytes of an atom.
pub open spec fn parse_atom(t: Tree) -> Result<Seq<u8>, FromClvmError> {
    match t {
        Tree::Atom(bytes) => Ok(bytes),
        Tree::Pair(_, _) => Err(FromClvmError::ExpectedAtom),
    }
}

/// The end of a list: the empty atom.
pub open spec fn parse_nil(t: Tree) -> Result<(), FromClvmError> {
    match t {
        Tree::Atom(bytes) => if bytes.len() == 0 {
            Ok(())
        } else {
            Err(wrong_length(0, bytes.len()))
        },
        Tree::Pair(_, _) => Err(FromClvmError::ExpectedAtom),
    }
}

/// A hash: an atom of 32 bytes.
pub open spec fn parse_bytes32(t: Tree) -> Result<Bytes32, FromClvmError> {
    match t {
        Tree::Atom(bytes) => if bytes.len() == 32 {
            Ok(bytes32_of(bytes))
        } else {
            Err(wrong_length(32, bytes.len()))
        },
        Tree::Pair(_, _) => Err(FromClvmError::ExpectedAtom),
    }
}

/// A hash or nothing: the empty atom stands for nothing.
pub open spec fn parse_opt_bytes32(t: Tree) -> Result<Option<Bytes32>, FromClvmError> {
    if t == Tree::nil() {
        Ok(None)
    } else {
        match parse_bytes32(t) {
            Ok(b) => Ok(Some(b)),
            Err(e) => Err(e),
        }
    }
}

/// An unsigned number of at most `len` bytes.
pub open spec fn parse_unsigned(t: Tree, len: nat) -> Result<nat, FromClvmError> {
    match t {
        Tree::Atom(bytes) => match decoded_unsigned(bytes, len) {
            Some(v) => Ok(v),
            None => Err(wrong_length(len, bytes.len())),
        },
        Tree::Pair(_, _) => Err(FromClvmError::ExpectedAtom),
    }
}

/// A signed number of at most `len` bytes.
pub open spec fn parse_signed(t: Tree, len: nat) -> Result<int, FromClvmError> {
    match t {
        Tree::Atom(bytes) => match decoded_signed(bytes, len) {
            Some(v) => Ok(v),
            None => Err(wrong_length(len, bytes.len())),
        },
        Tree::Pair(_, _) => Err(FromClvmError::ExpectedAtom),
    }
}

/// A field that must hold the unsigned number `value`.
pub open spec fn parse_unsigned_const(t: Tree, len: nat, value: nat) -> Result<
    (),
    FromClvmError,
> {
    match parse_unsigned(t, len) {
        Ok(v) => if v == value {
            Ok(())
        } else {
            Err(FromClvmError::WrongConstant)
        },
        Err(e) => Err(e),
    }
}

/// A field that must hold the signed number `value`.
pub open spec fn parse_signed_const(t: Tree, len: nat, value: int) -> Result<(), FromClvmError> {
    match parse_signed(t, len) {
        Ok(v) => if v == value {
            Ok(())
        } else {
            Err(FromClvmError::WrongConstant)
        },
        Err(e) => Err(e),
    }
}

/// A proper list of atoms.
pub open spec fn parse_atoms(t: Tree) -> Result<Seq<Seq<u8>>, FromClvmError>
    decreases t,
{
    match t {
        Tree::Atom(bytes) => if bytes.len() == 0 {
            Ok(Seq::empty())
        } else {
            Err(wrong_length(0, bytes.len()))
        },
        Tree::Pair(first, rest) => match parse_atom(*first) {
            Err(e) => Err(e),
            Ok(bytes) => match parse_atoms(*rest) {
                Err(e) => Err(e),
                Ok(more) => Ok(seq![bytes] + more),
            },
        },
    }
}

/// The first `n` items of a list and what follows them.
pub open spec fn parse_fields(t: Tree, n: nat) -> Result<(Seq<Tree>, Tree), FromClvmError>
    decreases n,
{
    if n == 0 {
        Ok((Seq::empty(), t))
    } else {
        match t {
            Tree::Atom(_) => Err(FromClvmError::ExpectedPair),
            Tree::Pair(first, rest) => match parse_fields(*rest, (n - 1) as nat) {
                Err(e) => Err(e),
                Ok((more, tail)) => Ok((seq![*first] + more, tail)),
            },
        }
    }
}

/// The `n` items of a proper list of exactly that length.
pub open spec fn parse_list(t: Tree, n: nat) -> Result<Seq<Tree>, FromClvmError> {
    match parse_fields(t, n) {
        Err(e) => Err(e),
        Ok((fields, tail)) => match parse_nil(tail) {
            Err(e) => Err(e),
            Ok(_) => Ok(fields),
        },
    }
}

/// The atom of an unsigned number, as a value.
pub open spec fn uint_tree(v: nat) -> Tree {
    Tree::Atom(uint_atom(v))
}

/// The atoms that hold the given byte strings.
pub open spec fn atom_trees(items: Seq<Seq<u8>>) -> Seq<Tree> {
    items.map_values(|b: Seq<u8>| Tree::Atom(b))
}

/// The value of a list of atoms.
pub open spec fn atoms_tree(items: Seq<Seq<u8>>) -> Tree {
    Tree::list(atom_trees(items))
}

/// A list built from fields gives the fields back.
pub proof fn lemma_parse_fields_list(fields: Seq<Tree>, tail: Tree)
    ensures
        parse_fields(Tree::list_with_tail(fields, tail), fields.len()) == Ok::<
            (Seq<Tree>, Tree),
            FromClvmError,
        >((fields, tail)),
    decreases fields.len(),
{
    if fields.len() > 0 {
        lemma_parse_fields_list(fields.drop_first(), tail);
        assert(seq![fields[0]] + fields.drop_first() =~= fields);
    } else {
        assert(fields =~= Seq::empty());
    }
}

/// A list of atoms reads back as the atoms it was built from.
pub proof fn lemma_parse_atoms_tree(items: Seq<Seq<u8>>)
    ensures
        parse_atoms(atoms_tree(items)) == Ok::<Seq<Seq<u8>>, FromClvmError>(items),
    decreases items.len(),
{
    if items.len() > 0 {
        lemma_parse_atoms_tree(items.drop_first());
        assert(atom_trees(items).drop_first() =~= atom_trees(items.drop_first()));
        assert(seq![items[0]] + items.drop_first() =~= items);
    } else {
        assert(items =~= Seq::empty());
    }
}

impl Node {
    /// The two halves of a pair.
    pub fn as_pair(&self) -> (r: Result<(&Node, &Node), FromClvmError>)
        ensures
            match r {
                Ok((first, rest)) => parse_pair(self@) == Ok::<(Tree, Tree), FromClvmError>(
                    (first@, rest@),
                ),
                Err(e) => parse_pair(self@) == Err::<(Tree, Tree), FromClvmError>(e),
            },
    {
        match self {
            Node::Pair(first, rest) => Ok((&**first, &**rest)),
            Node::Atom(_) => Err(FromClvmError::ExpectedPair),
        }
    }

    /// The bytes of an atom.
    pub fn as_atom(&self) -> (r: Result<&Vec<u8>, FromClvmError>)
        ensures
            match r {
                Ok(bytes) => parse_atom(self@) == Ok::<Seq<u8>, FromClvmError>(bytes@),
                Err(e) => parse_atom(self@) == Err::<Seq<u8>, FromClvmError>(e),
            },
    {
        match self {
            Node::Atom(bytes) => Ok(bytes),
            Node::Pair(_, _) => Err(FromClvmError::ExpectedAtom),
        }
    }

    /// Checks for the end of a list.
    pub fn as_nil(&self) -> (r: Result<(), FromClvmError>)
        ensures
            r == parse_nil(self@),
    {
        match self {
            Node::Atom(bytes) => if bytes.len() == 0 {
                Ok(())
            } else {
                Err(FromClvmError::WrongAtomLength { expected: 0, found: bytes.len() })
            },
            Node::Pair(_, _) => Err(FromClvmError::ExpectedAtom),
        }
    }

    /// Reads a hash.
    pub fn as_bytes32(&self) -> (r: Result<Bytes32, FromClvmError>)
        ensures
            r == parse_bytes32(self@),
    {
        match self {
            Node::Atom(bytes) => match Bytes32::from_slice(bytes.as_slice()) {
                Some(b) => {
                    proof {
                        lemma_bytes32_of(b);
                    }
                    Ok(b)
                },
                None => Err(FromClvmError::WrongAtomLength { expected: 32, found: bytes.len() }),
            },
            Node::Pair(_, _) => Err(FromClvmError::ExpectedAtom),
        }
    }

    /// Reads a hash or nothing.
    pub fn as_opt_bytes32(&self) -> (r: Result<Option<Bytes32>, FromClvmError>)
        ensures
            r == parse_opt_bytes32(self@),
    {
        if self.is_nil() {
            Ok(None)
        } else {
            match self.as_bytes32() {
                Ok(b) => Ok(Some(b)),
                Err(e) => Err(e),
            }
        }
    }

    /// Reads a `u64`.
    pub fn as_u64(&self) -> (r: Result<u64, FromClvmError>)
        ensures
            match r {
                Ok(v) => parse_unsigned(self@, 8) == Ok::<nat, FromClvmError>(v as nat),
                Err(e) => parse_unsigned(self@, 8) == Err::<nat, FromClvmError>(e),
            },
    {
        match self {
            Node::Atom(bytes) => match decode_u64(bytes.as_slice()) {
                Some(v) => Ok(v),
                None => Err(FromClvmError::WrongAtomLength { expected: 8, found: bytes.len() }),
            },
            Node::Pair(_, _) => Err(FromClvmError::ExpectedAtom),
        }
    }

    /// Reads a `u16`.
    pub fn as_u16(&self) -> (r: Result<u16, FromClvmError>)
        ensures
            match r {
                Ok(v) => parse_unsigned(self@, 2) == Ok::<nat, FromClvmError>(v as nat),
                Err(e) => parse_unsigned(self@, 2) == Err::<nat, FromClvmError>(e),
            },
    {
        match self {
            Node::Atom(bytes) => match decode_u16(bytes.as_slice()) {
                Some(v) => Ok(v),
                None => Err(FromClvmError::WrongAtomLength { expected: 2, found: bytes.len() }),
            },
            Node::Pair(_, _) => Err(FromClvmError::ExpectedAtom),
        }
    }

    /// Checks a field that must hold the one-byte unsigned number `value`.
    pub fn expect_u8(&self, value: u8) -> (r: Result<(), FromClvmError>)
        ensures
            r == parse_unsigned_const(self@, 1, value as nat),
    {
        match self {
            Node::Atom(bytes) => match decode_u8(bytes.as_slice()) {
                Some(v) => if v == value {
                    Ok(())
                } else {
                    Err(FromClvmError::WrongConstant)
                },
                None => Err(FromClvmError::WrongAtomLength { expected: 1, found: bytes.len() }),
            },
            Node::Pair(_, _) => Err(FromClvmError::ExpectedAtom),
        }
    }

    /// Checks a field that must hold the one-byte signed number `value`.
    pub fn expect_i8(&self, value: i8) -> (r: Result<(), FromClvmError>)
        ensures
            r == parse_signed_const(self@, 1, value as int),
    {
        match self {
            Node::Atom(bytes) => match decode_i8(bytes.as_slice()) {
                Some(v) => if v == value {
                    Ok(())
                } else {
                    Err(FromClvmError::WrongConstant)
                },
                None => Err(FromClvmError::WrongAtomLength { expected: 1, found: bytes.len() }),
            },
            Node::Pair(_, _) => Err(FromClvmError::ExpectedAtom),
        }
    }

    /// Checks a field that must hold the four-byte signed number `value`.
    pub fn expect_i32(&self, value: i32) -> (r: Result<(), FromClvmError>)
        ensures
            r == parse_signed_const(self@, 4, value as int),
    {
        match self {
            Node::Atom(bytes) => match decode_i32(bytes.as_slice()) {
                Some(v) => if v == value {
                    Ok(())
                } else {
                    Err(FromClvmError::WrongConstant)
                },
                None => Err(FromClvmError::WrongAtomLength { expected: 4, found: bytes.len() }),
            },
            Node::Pair(_, _) => Err(FromClvmError::ExpectedAtom),
        }
    }

    /// Reads a proper list of atoms.
    pub fn as_atoms(&self) -> (r: Result<Vec<Vec<u8>>, FromClvmError>)
        ensures
            match r {
                Ok(items) => parse_atoms(self@) == Ok::<Seq<Seq<u8>>, FromClvmError>(
                    byte_views(items@),
                ),
                Err(e) => parse_atoms(self@) == Err::<Seq<Seq<u8>>, FromClvmError>(e),
            },
    {
        let mut out: Vec<Vec<u8>> = Vec::new();
        let mut cur: &Node = self;
        assert(byte_views(out@) =~= Seq::<Seq<u8>>::empty());
        loop
            invariant
                match parse_atoms(cur@) {
                    Ok(more) => parse_atoms(self@) == Ok::<Seq<Seq<u8>>, FromClvmError>(
                        byte_views(out@) + more,
                    ),
                    Err(e) => parse_atoms(self@) == Err::<Seq<Seq<u8>>, FromClvmError>(e),
                },
            decreases cur,
        {
            proof {
                match cur {
                    Node::Atom(_) => {},
                    Node::Pair(first, rest) => {
                        assert(cur@ == Tree::cons(first@, rest@));
                    },
                }
            }
            match cur {
                Node::Atom(bytes) => {
                    if bytes.len() == 0 {
                        assert(byte_views(out@) + Seq::<Seq<u8>>::empty() =~= byte_views(out@));
                        return Ok(out);
                    } else {
                        return Err(
                            FromClvmError::WrongAtomLength { expected: 0, found: bytes.len() },
                        );
                    }
                },
                Node::Pair(first, rest) => {
                    match &**first {
                        Node::Atom(bytes) => {
                            let ghost before = byte_views(out@);
                            out.push(bytes_clone(bytes.as_slice()));
                            proof {
                                assert(byte_views(out@) =~= before + seq![bytes@]);
                                match parse_atoms(rest@) {
                                    Ok(more) => {
                                        assert(before + (seq![bytes@] + more) =~= byte_views(out@)
                                            + more);
                                    },
                                    Err(_) => {},
                                }
                            }
                            cur = &**rest;
                        },
                        Node::Pair(_, _) => {
                            return Err(FromClvmError::ExpectedAtom);
                        },
                    }
                },
            }
        }
    }

    /// Reads the first `n` items of a list and what follows them.
    pub fn fields(&self, n: usize) -> (r: Result<(Vec<&Node>, &Node), FromClvmError>)
        ensures
            match r {
                Ok((fields, tail)) => parse_fields(self@, n as nat) == Ok::<
                    (Seq<Tree>, Tree),
                    FromClvmError,
                >((ref_trees(fields@), tail@)) && fields@.len() == n,
                Err(e) => parse_fields(self@, n as nat) == Err::<(Seq<Tree>, Tree), FromClvmError>(
                    e,
                ),
            },
    {
        let mut out: Vec<&Node> = Vec::new();
        let mut cur: &Node = self;
        let mut i: usize = 0;
        assert(ref_trees(out@) =~= Seq::<Tree>::empty());
        while i < n
            invariant
                i <= n,
                out@.len() == i,
                match parse_fields(cur@, (n - i) as nat) {
                    Ok((more, tail)) => parse_fields(self@, n as nat) == Ok::<
                        (Seq<Tree>, Tree),
                        FromClvmError,
                    >((ref_trees(out@) + more, tail)),
                    Err(e) => parse_fields(self@, n as nat) == Err::<
                        (Seq<Tree>, Tree),
                        FromClvmError,
                    >(e),
                },
            decreases n - i,
        {
            match cur {
                Node::Atom(_) => {
                    return Err(FromClvmError::ExpectedPair);
                },
                Node::Pair(first, rest) => {
                    let ghost before = ref_trees(out@);
                    out.push(&**first);
                    proof {
                        assert(ref_trees(out@) =~= before + seq![first@]);
                        match parse_fields(rest@, (n - i - 1) as nat) {
                            Ok((more, tail)) => {
                                assert(before + (seq![first@] + more) =~= ref_trees(out@) + more);
                            },
                            Err(_) => {},
                        }
                    }
                    cur = &**rest;
                    i += 1;
                },
            }
        }
        assert(ref_trees(out@) + Seq::<Tree>::empty() =~= ref_trees(out@));
        Ok((out, cur))
    }

    /// Reads the `n` items of a proper list of exactly that length.
    pub fn list_of(&self, n: usize) -> (r: Result<Vec<&Node>, FromClvmError>)
        ensures
            match r {
                Ok(fields) => parse_list(self@, n as nat) == Ok::<Seq<Tree>, FromClvmError>(
                    ref_trees(fields@),
                ) && fields@.len() == n,
                Err(e) => parse_list(self@, n as nat) == Err::<Seq<Tree>, FromClvmError>(e),
            },
    {
        match self.fields(n) {
            Err(e) => Err(e),
            Ok((fields, tail)) => match tail.as_nil() {
                Err(e) => Err(e),
                Ok(_) => Ok(fields),
            },
        }
    }

    /// The atom of an unsigned number.
    pub fn from_u64(v: u64) -> (r: Node)
        ensures
            r@ == uint_tree(v as nat),
    {
        Node::Atom(encode_u64(v))
    }

    /// The atom of a hash.
    pub fn from_bytes32(b: &Bytes32) -> (r: Node)
        ensures
            r@ == Tree::Atom(b@),
    {
        Node::Atom(b.to_vec())
    }

    /// The proper list of the given atoms.
    pub fn from_atoms(items: &Vec<Vec<u8>>) -> (r: Node)
        ensures
            r@ == atoms_tree(byte_views(items@)),
    {
        let mut nodes: Vec<Node> = Vec::new();
        let mut i: usize = 0;
        assert(trees(nodes@) =~= atom_trees(byte_views(items@).subrange(0, 0)));
        while i < items.len()
            invariant
                i <= items.len(),
                trees(nodes@) == atom_trees(byte_views(items@).subrange(0, i as int)),
            decreases items.len() - i,
        {
            let ghost before = trees(nodes@);
            let node = Node::atom(items[i].as_slice());
            nodes.push(node);
            proof {
                assert(trees(nodes@) =~= before.push(Tree::Atom(items@[i as int]@)));
                assert(atom_trees(byte_views(items@).subrange(0, i + 1)) =~= atom_trees(
                    byte_views(items@).subrange(0, i as int),
                ).push(Tree::Atom(items@[i as int]@)));
            }
            i += 1;
        }
        assert(byte_views(items@).subrange(0, items@.len() as int) =~= byte_views(items@));
        Node::list(&nodes)
    }
}

/// The values of a sequence of borrowed nodes.
pub open spec fn ref_trees(nodes: Seq<&Node>) -> Seq<Tree> {
    nodes.map_values(|n: &Node| n@)
}

} // verus!
