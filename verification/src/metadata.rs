//! The metadata of a data store and its form as a VM node.
use vstd::prelude::*;
use crate::bytes::{bytes_clone, Bytes32};
use crate::codec::{
    lemma_bytes32_of, parse_atom, parse_bytes32, parse_unsigned, uint_tree, FromClvm, ToClvm,
};
use crate::conditions::byte_tree;
use crate::error::{wrong_length, FromClvmError};
use crate::node::{lemma_view, Node, Tree};
use crate::number::lemma_decode_uint_atom;

verus! {

/// Metadata that a data store can carry: a value with a root hash that the VM
/// can hold.
///
/// The store commits to the metadata by the hash of its node, so two values
/// with the same node are the same metadata: contracts speak of `tree`.
pub trait MetadataWithRootHash: FromClvm {
    /// The root hash of the metadata with the given VM value.
    spec fn tree_root_hash(t: Tree) -> Bytes32;

    /// The VM value of the metadata that holds a root hash and nothing else.
    spec fn root_hash_only_tree(root_hash: Bytes32) -> Tree;

    /// The root hash of the data that the store stands for.
    fn root_hash(&self) -> (r: Bytes32)
        ensures
            r == Self::tree_root_hash(self.tree()),
    ;

    /// The metadata that holds `root_hash` and nothing else.
    fn root_hash_only(root_hash: Bytes32) -> (r: Self)
        ensures
            r.tree() == Self::root_hash_only_tree(root_hash),
    ;

    /// A copy of the metadata.
    fn duplicate(&self) -> (r: Self)
        ensures
            r.tree() == self.tree(),
    ;

    /// The metadata made of a root hash has that root hash, and is read back
    /// as it is written.
    proof fn lemma_root_hash_only(root_hash: Bytes32)
        ensures
            Self::tree_root_hash(Self::root_hash_only_tree(root_hash)) == root_hash,
            Self::parsed(Self::root_hash_only_tree(root_hash)) == Ok::<Tree, FromClvmError>(
                Self::root_hash_only_tree(root_hash),
            ),
    ;

    /// Metadata is never read from an atom: the reading fails for want of a
    /// pair. By this a launch in the old format, which has the root hash
    /// where the current format has the metadata, is told from a launch in
    /// the current format.
    proof fn lemma_atom_needs_pair(bytes: Seq<u8>)
        ensures
            Self::parsed(Tree::Atom(bytes)) == Err::<Tree, FromClvmError>(
                FromClvmError::ExpectedPair,
            ),
    ;
}

/// The key of the label.
pub const KEY_LABEL: u8 = 0x6c;

/// The key of the description.
pub const KEY_DESCRIPTION: u8 = 0x64;

/// The key of the size in bytes.
pub const KEY_BYTES: u8 = 0x62;

/// What a data store says of the data it stands for. Label and description
/// are text, held as the bytes of the text.
#[derive(Debug, Clone, PartialEq, Eq)]
pub struct DataStoreMetadata {
    pub root_hash: Bytes32,
    pub label: Option<Vec<u8>>,
    pub description: Option<Vec<u8>>,
    pub bytes: Option<u64>,
}

/// The mathematical value of a `DataStoreMetadata`.
pub struct DataStoreMetadataView {
    pub root_hash: Bytes32,
    pub label: Option<Seq<u8>>,
    pub description: Option<Seq<u8>>,
    pub bytes: Option<u64>,
}

impl View for DataStoreMetadata {
    type V = DataStoreMetadataView;

    open spec fn view(&self) -> DataStoreMetadataView {
        DataStoreMetadataView {
            root_hash: self.root_hash,
            label: match self.label {
                Some(l) => Some(l@),
                None => None,
            },
            description: match self.description {
                Some(d) => Some(d@),
                None => None,
            },
            bytes: self.bytes,
        }
    }
}

/// One entry of the metadata: a key and a value.
pub open spec fn entry(key: u8, value: Tree) -> Tree {
    Tree::cons(byte_tree(key), value)
}

impl DataStoreMetadataView {
    /// The entries after the root hash: label, description and size, each
    /// where it is there.
    pub open spec fn entries(self) -> Tree {
        let size = match self.bytes {
            Some(b) => Tree::cons(entry(KEY_BYTES, uint_tree(b as nat)), Tree::nil()),
            None => Tree::nil(),
        };
        let description = match self.description {
            Some(d) => Tree::cons(entry(KEY_DESCRIPTION, Tree::Atom(d)), size),
            None => size,
        };
        match self.label {
            Some(l) => Tree::cons(entry(KEY_LABEL, Tree::Atom(l)), description),
            None => description,
        }
    }

    /// The metadata as a VM value: the root hash paired with the entries.
    pub open spec fn tree(self) -> Tree {
        Tree::cons(Tree::Atom(self.root_hash@), self.entries())
    }

    /// The metadata after reading the entries of `t` into `self`, first to
    /// last. An entry with a key that is not known is passed over.
    pub open spec fn read_entries(self, t: Tree) -> Result<DataStoreMetadataView, FromClvmError>
        decreases t,
    {
        match t {
            Tree::Atom(b) => if b.len() == 0 {
                Ok(self)
            } else {
                Err(wrong_length(0, b.len()))
            },
            Tree::Pair(item, rest) => match *item {
                Tree::Atom(_) => Err(FromClvmError::ExpectedPair),
                Tree::Pair(key, value) => match *key {
                    Tree::Pair(_, _) => Err(FromClvmError::ExpectedAtom),
                    Tree::Atom(k) => match self.read_entry(k, *value) {
                        Err(e) => Err(e),
                        Ok(next) => next.read_entries(*rest),
                    },
                },
            },
        }
    }

    /// The metadata after reading one entry into `self`.
    pub open spec fn read_entry(self, key: Seq<u8>, value: Tree) -> Result<
        DataStoreMetadataView,
        FromClvmError,
    > {
        if key == seq![KEY_LABEL] {
            match parse_atom(value) {
                Err(e) => Err(e),
                Ok(l) => Ok(DataStoreMetadataView { label: Some(l), ..self }),
            }
        } else if key == seq![KEY_DESCRIPTION] {
            match parse_atom(value) {
                Err(e) => Err(e),
                Ok(d) => Ok(DataStoreMetadataView { description: Some(d), ..self }),
            }
        } else if key == seq![KEY_BYTES] {
            match parse_unsigned(value, 8) {
                Err(e) => Err(e),
                Ok(b) => Ok(DataStoreMetadataView { bytes: Some(b as u64), ..self }),
            }
        } else {
            Ok(self)
        }
    }

    /// The metadata with the given root hash and nothing else.
    pub open spec fn root_hash_only(root_hash: Bytes32) -> DataStoreMetadataView {
        DataStoreMetadataView { root_hash, label: None, description: None, bytes: None }
    }

    /// Reads metadata from a VM value: a pair of the root hash and the entries.
    pub open spec fn parse(t: Tree) -> Result<DataStoreMetadataView, FromClvmError> {
        match t {
            Tree::Atom(_) => Err(FromClvmError::ExpectedPair),
            Tree::Pair(root, entries) => match parse_bytes32(*root) {
                Err(e) => Err(e),
                Ok(root_hash) => DataStoreMetadataView::root_hash_only(root_hash).read_entries(
                    *entries,
                ),
            },
        }
    }

    /// What is written is read back.
    pub proof fn lemma_parse_tree(self)
        ensures
            DataStoreMetadataView::parse(self.tree()) == Ok::<DataStoreMetadataView, FromClvmError>(
                self,
            ),
    {
        lemma_bytes32_of(self.root_hash);
        let start = DataStoreMetadataView::root_hash_only(self.root_hash);
        let with_label = DataStoreMetadataView { label: self.label, ..start };
        let with_description = DataStoreMetadataView {
            description: self.description,
            ..with_label
        };
        let size = match self.bytes {
            Some(b) => Tree::cons(entry(KEY_BYTES, uint_tree(b as nat)), Tree::nil()),
            None => Tree::nil(),
        };
        let description = match self.description {
            Some(d) => Tree::cons(entry(KEY_DESCRIPTION, Tree::Atom(d)), size),
            None => size,
        };
        assert(seq![KEY_BYTES] != seq![KEY_LABEL]) by {
            assert(seq![KEY_BYTES][0] != seq![KEY_LABEL][0]);
        }
        assert(seq![KEY_BYTES] != seq![KEY_DESCRIPTION]) by {
            assert(seq![KEY_BYTES][0] != seq![KEY_DESCRIPTION][0]);
        }
        assert(seq![KEY_DESCRIPTION] != seq![KEY_LABEL]) by {
            assert(seq![KEY_DESCRIPTION][0] != seq![KEY_LABEL][0]);
        }
        assert(with_description.read_entries(size) == Ok::<DataStoreMetadataView, FromClvmError>(
            self,
        )) by {
            reveal_with_fuel(DataStoreMetadataView::read_entries, 3);
            match self.bytes {
                Some(b) => {
                    lemma_decode_uint_atom(b);
                },
                None => {},
            }
        }
        assert(with_label.read_entries(description) == Ok::<DataStoreMetadataView, FromClvmError>(
            self,
        )) by {
            reveal_with_fuel(DataStoreMetadataView::read_entries, 2);
        }
        assert(start.read_entries(self.entries()) == Ok::<DataStoreMetadataView, FromClvmError>(
            self,
        )) by {
            reveal_with_fuel(DataStoreMetadataView::read_entries, 2);
        }
    }
}

/// The entry with the given key and value.
fn entry_node(key: u8, value: Node) -> (r: Node)
    ensures
        r@ == entry(key, value@),
{
    let mut k: Vec<u8> = Vec::new();
    k.push(key);
    assert(k@ =~= seq![key]);
    Node::pair(Node::Atom(k), value)
}

/// Whether a key is the one given byte.
fn key_is(key: &Vec<u8>, b: u8) -> (r: bool)
    ensures
        r == (key@ == seq![b]),
{
    if key.len() == 1 && key[0] == b {
        assert(key@ =~= seq![b]);
        true
    } else {
        assert(key@ != seq![b]) by {
            if key@ == seq![b] {
                assert(key@.len() == 1);
                assert(key@[0] == b);
            }
        }
        false
    }
}

impl DataStoreMetadata {
    /// The metadata that holds `root_hash` and nothing else.
    pub fn root_hash_only(root_hash: Bytes32) -> (r: Self)
        ensures
            r@ == DataStoreMetadataView::root_hash_only(root_hash),
    {
        DataStoreMetadata { root_hash, label: None, description: None, bytes: None }
    }

    /// A copy of the metadata.
    pub fn duplicate(&self) -> (r: Self)
        ensures
            r@ == self@,
    {
        DataStoreMetadata {
            root_hash: self.root_hash,
            label: match &self.label {
                Some(l) => Some(bytes_clone(l.as_slice())),
                None => None,
            },
            description: match &self.description {
                Some(d) => Some(bytes_clone(d.as_slice())),
                None => None,
            },
            bytes: self.bytes,
        }
    }

    /// Writes the metadata as a VM node.
    pub fn to_clvm(&self) -> (r: Node)
        ensures
            r@ == self@.tree(),
    {
        let mut entries = Node::nil();
        match self.bytes {
            Some(b) => {
                entries = Node::pair(entry_node(KEY_BYTES, Node::from_u64(b)), entries);
            },
            None => {},
        }
        match &self.description {
            Some(d) => {
                entries = Node::pair(entry_node(KEY_DESCRIPTION, Node::atom(d.as_slice())), entries);
            },
            None => {},
        }
        match &self.label {
            Some(l) => {
                entries = Node::pair(entry_node(KEY_LABEL, Node::atom(l.as_slice())), entries);
            },
            None => {},
        }
        Node::pair(Node::from_bytes32(&self.root_hash), entries)
    }

    /// Reads metadata from a VM node.
    pub fn from_clvm(node: &Node) -> (r: Result<Self, FromClvmError>)
        ensures
            match r {
                Ok(m) => DataStoreMetadataView::parse(node@) == Ok::<
                    DataStoreMetadataView,
                    FromClvmError,
                >(m@),
                Err(e) => DataStoreMetadataView::parse(node@) == Err::<
                    DataStoreMetadataView,
                    FromClvmError,
                >(e),
            },
    {
        let (root, entries) = match node {
            Node::Atom(_) => {
                return Err(FromClvmError::ExpectedPair);
            },
            Node::Pair(root, entries) => (&**root, &**entries),
        };
        proof {
            lemma_view(node);
        }
        let root_hash = match root.as_bytes32() {
            Err(e) => {
                return Err(e);
            },
            Ok(h) => h,
        };
        let mut out = DataStoreMetadata::root_hash_only(root_hash);
        let mut cur: &Node = entries;
        loop
            invariant
                out@.read_entries(cur@) == DataStoreMetadataView::parse(node@),
            decreases cur,
        {
            proof {
                lemma_view(cur);
            }
            match cur {
                Node::Atom(b) => {
                    if b.len() == 0 {
                        return Ok(out);
                    } else {
                        return Err(FromClvmError::WrongAtomLength { expected: 0, found: b.len() });
                    }
                },
                Node::Pair(item, rest) => {
                    proof {
                        lemma_view(item);
                    }
                    let (key, value) = match &**item {
                        Node::Atom(_) => {
                            return Err(FromClvmError::ExpectedPair);
                        },
                        Node::Pair(key, value) => (&**key, &**value),
                    };
                    proof {
                        lemma_view(key);
                        lemma_view(value);
                    }
                    let k = match key {
                        Node::Pair(_, _) => {
                            return Err(FromClvmError::ExpectedAtom);
                        },
                        Node::Atom(k) => k,
                    };
                    if key_is(k, KEY_LABEL) {
                        match value.as_atom() {
                            Err(e) => {
                                return Err(e);
                            },
                            Ok(l) => {
                                out.label = Some(bytes_clone(l.as_slice()));
                            },
                        }
                    } else if key_is(k, KEY_DESCRIPTION) {
                        match value.as_atom() {
                            Err(e) => {
                                return Err(e);
                            },
                            Ok(d) => {
                                out.description = Some(bytes_clone(d.as_slice()));
                            },
                        }
                    } else if key_is(k, KEY_BYTES) {
                        match value.as_u64() {
                            Err(e) => {
                                return Err(e);
                            },
                            Ok(b) => {
                                out.bytes = Some(b);
                            },
                        }
                    }
                    cur = &**rest;
                },
            }
        }
    }
}

impl ToClvm for DataStoreMetadata {
    open spec fn tree(&self) -> Tree {
        self@.tree()
    }

    fn to_clvm(&self) -> (r: Node) {
        DataStoreMetadata::to_clvm(self)
    }
}

impl FromClvm for DataStoreMetadata {
    open spec fn parsed(t: Tree) -> Result<Tree, FromClvmError> {
        match DataStoreMetadataView::parse(t) {
            Ok(v) => Ok(v.tree()),
            Err(e) => Err(e),
        }
    }

    fn from_clvm(node: &Node) -> (r: Result<Self, FromClvmError>) {
        DataStoreMetadata::from_clvm(node)
    }

    proof fn lemma_round_trip(&self) {
        self@.lemma_parse_tree();
    }
}

impl MetadataWithRootHash for DataStoreMetadata {
    open spec fn tree_root_hash(t: Tree) -> Bytes32 {
        match DataStoreMetadataView::parse(t) {
            Ok(v) => v.root_hash,
            Err(_) => arbitrary(),
        }
    }

    open spec fn root_hash_only_tree(root_hash: Bytes32) -> Tree {
        DataStoreMetadataView::root_hash_only(root_hash).tree()
    }

    fn root_hash(&self) -> (r: Bytes32) {
        proof {
            self@.lemma_parse_tree();
        }
        self.root_hash
    }

    fn root_hash_only(root_hash: Bytes32) -> (r: Self) {
        DataStoreMetadata::root_hash_only(root_hash)
    }

    fn duplicate(&self) -> (r: Self) {
        DataStoreMetadata::duplicate(self)
    }

    proof fn lemma_root_hash_only(root_hash: Bytes32) {
        DataStoreMetadataView::root_hash_only(root_hash).lemma_parse_tree();
    }

    proof fn lemma_atom_needs_pair(bytes: Seq<u8>) {
    }
}

} // verus!
