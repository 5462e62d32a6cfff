//! The Merkle tree over a sequence of leaf hashes.
//!
//! The tree is built level by level. Two neighbours hash to their parent as
//! `sha256(2 || left || right)`; a node without a right neighbour is paired
//! with itself. The root of a single leaf is the leaf; the root of no leaves
//! is 32 zero bytes. A proof names the position of a leaf and the sibling met
//! at each level on the way up.
use vstd::prelude::*;
use crate::bytes::Bytes32;
use crate::codec::{bytes32_of, lemma_bytes32_of};
use crate::node::{hash_pair, tree_hash_pair};

verus! {

/// The node beside position `i` of a level: its right neighbour for an even
/// position (itself where there is none), its left neighbour for an odd one.
pub open spec fn sibling(level: Seq<Bytes32>, i: int) -> Bytes32 {
    if i % 2 == 0 {
        if i + 1 < level.len() {
            level[i + 1]
        } else {
            level[i]
        }
    } else {
        level[i - 1]
    }
}

/// The parent of the node at position `i`.
pub open spec fn parent(level: Seq<Bytes32>, i: int) -> Bytes32 {
    if i % 2 == 0 {
        hash_pair(level[i], sibling(level, i))
    } else {
        hash_pair(sibling(level, i), level[i])
    }
}

/// The level above `level`.
pub open spec fn next_level(level: Seq<Bytes32>) -> Seq<Bytes32> {
    Seq::new(((level.len() + 1) / 2) as nat, |j: int| parent(level, 2 * j))
}

/// The root of no leaves.
pub open spec fn empty_root() -> Bytes32 {
    bytes32_of(Seq::new(32, |i: int| 0u8))
}

/// The root of the tree over `leaves`.
pub open spec fn merkle_root(leaves: Seq<Bytes32>) -> Bytes32
    decreases leaves.len(),
{
    if leaves.len() == 0 {
        empty_root()
    } else if leaves.len() == 1 {
        leaves[0]
    } else {
        merkle_root(next_level(leaves))
    }
}

/// The siblings met on the way from position `i` to the root.
pub open spec fn merkle_path(leaves: Seq<Bytes32>, i: int) -> Seq<Bytes32>
    decreases leaves.len(),
{
    if leaves.len() <= 1 {
        Seq::empty()
    } else {
        seq![sibling(leaves, i)] + merkle_path(next_level(leaves), i / 2)
    }
}

/// The hash reached from `node` at position `i` by the siblings of `path`.
pub open spec fn climb(node: Bytes32, i: int, path: Seq<Bytes32>) -> Bytes32
    decreases path.len(),
{
    if path.len() == 0 {
        node
    } else {
        let up = if i % 2 == 0 {
            hash_pair(node, path[0])
        } else {
            hash_pair(path[0], node)
        };
        climb(up, i / 2, path.drop_first())
    }
}

/// Whether a proof leads from `leaf` to `root`.
pub open spec fn proof_valid(root: Bytes32, leaf: Bytes32, index: int, path: Seq<Bytes32>) -> bool {
    climb(leaf, index, path) == root
}

/// The first position at which `leaf` stands among `leaves`, if any.
pub open spec fn first_index(leaves: Seq<Bytes32>, leaf: Bytes32) -> Option<int> {
    if leaves.contains(leaf) {
        Some(leaves.index_of_first(leaf)->0)
    } else {
        None
    }
}

/// The path of every position leads to the root.
pub proof fn lemma_path_leads_to_root(leaves: Seq<Bytes32>, i: int)
    requires
        0 <= i < leaves.len(),
    ensures
        climb(leaves[i], i, merkle_path(leaves, i)) == merkle_root(leaves),
    decreases leaves.len(),
{
    if leaves.len() > 1 {
        let up = next_level(leaves);
        let path = merkle_path(leaves, i);
        assert(path.drop_first() =~= merkle_path(up, i / 2));
        assert(path[0] == sibling(leaves, i));
        lemma_path_leads_to_root(up, i / 2);
        assert(up[i / 2] == parent(leaves, 2 * (i / 2)));
        if i % 2 == 0 {
            assert(2 * (i / 2) == i);
        } else {
            assert(2 * (i / 2) == i - 1);
            assert(sibling(leaves, i - 1) == leaves[i]);
        }
    }
}

/// A proof: the position of a leaf and the siblings from the leaf to the root.
#[derive(Clone, Debug, PartialEq, Eq)]
pub struct MerkleProof {
    pub index: u64,
    pub path: Vec<Bytes32>,
}

/// The tree over a sequence of leaves, with its root.
#[derive(Clone, Debug, PartialEq, Eq)]
pub struct MerkleTree {
    pub root: Bytes32,
    pub leaves: Vec<Bytes32>,
}

/// Computes the level above `level`.
fn level_up(level: &Vec<Bytes32>) -> (r: Vec<Bytes32>)
    ensures
        r@ == next_level(level@),
{
    let mut out: Vec<Bytes32> = Vec::new();
    let n = level.len();
    let mut j: usize = 0;
    while j < n / 2 + n % 2
        invariant
            n == level.len(),
            j <= n / 2 + n % 2,
            out@.len() == j,
            forall|k: int| 0 <= k < j ==> out@[k] == parent(level@, 2 * k),
        decreases n / 2 + n % 2 - j,
    {
        let left = level[2 * j];
        let right = if 2 * j + 1 < n {
            level[2 * j + 1]
        } else {
            level[2 * j]
        };
        out.push(tree_hash_pair(left, right));
        j += 1;
    }
    assert(out@ =~= next_level(level@));
    out
}

/// A copy of a sequence of hashes.
fn copy_hashes(items: &Vec<Bytes32>) -> (r: Vec<Bytes32>)
    ensures
        r@ == items@,
{
    let mut out: Vec<Bytes32> = Vec::new();
    let mut i: usize = 0;
    while i < items.len()
        invariant
            i <= items.len(),
            out@ == items@.subrange(0, i as int),
        decreases items.len() - i,
    {
        out.push(items[i]);
        assert(out@ =~= items@.subrange(0, i + 1));
        i += 1;
    }
    assert(items@.subrange(0, items@.len() as int) =~= items@);
    out
}

/// The hash of 32 zero bytes.
fn zero_hash() -> (r: Bytes32)
    ensures
        r == empty_root(),
{
    let r = Bytes32 { bytes: [0u8; 32] };
    proof {
        assert(r@ =~= Seq::new(32, |i: int| 0u8));
        lemma_bytes32_of(r);
    }
    r
}

impl MerkleTree {
    /// Whether the root is the root of the leaves.
    pub open spec fn wf(&self) -> bool {
        self.root == merkle_root(self.leaves@)
    }

    /// Builds the tree over `leaves`, in the order given.
    pub fn new(leaves: Vec<Bytes32>) -> (r: MerkleTree)
        ensures
            r.leaves@ == leaves@,
            r.root == merkle_root(leaves@),
            r.wf(),
    {
        if leaves.len() == 0 {
            return MerkleTree { root: zero_hash(), leaves };
        }
        let mut level = copy_hashes(&leaves);
        while level.len() > 1
            invariant
                level@.len() >= 1,
                merkle_root(level@) == merkle_root(leaves@),
            decreases level@.len(),
        {
            level = level_up(&level);
        }
        MerkleTree { root: level[0], leaves }
    }

    /// The proof of the first leaf equal to `leaf`: `Some` exactly when `leaf`
    /// is among the leaves, and then a proof that leads to the root.
    pub fn get_proof(&self, leaf: Bytes32) -> (r: Option<MerkleProof>)
        ensures
            r is Some <==> self.leaves@.contains(leaf),
            match r {
                Some(p) => first_index(self.leaves@, leaf) == Some(p.index as int) && p.path@
                    == merkle_path(self.leaves@, p.index as int) && proof_valid(
                    merkle_root(self.leaves@),
                    leaf,
                    p.index as int,
                    p.path@,
                ),
                None => true,
            },
    {
        let mut index: usize = 0;
        while index < self.leaves.len() && self.leaves[index] != leaf
            invariant
                index <= self.leaves.len(),
                forall|k: int| 0 <= k < index ==> self.leaves@[k] != leaf,
            decreases self.leaves.len() - index,
        {
            index += 1;
        }
        if index == self.leaves.len() {
            assert(!self.leaves@.contains(leaf));
            return None;
        }
        proof {
            assert(self.leaves@[index as int] == leaf);
            assert(self.leaves@.contains(leaf));
            self.leaves@.index_of_first_ensures(leaf);
            lemma_path_leads_to_root(self.leaves@, index as int);
        }
        let mut path: Vec<Bytes32> = Vec::new();
        let mut level = copy_hashes(&self.leaves);
        let mut i: usize = index;
        assert(path@ + merkle_path(level@, i as int) =~= merkle_path(self.leaves@, index as int));
        while level.len() > 1
            invariant
                i < level@.len(),
                path@ + merkle_path(level@, i as int) == merkle_path(self.leaves@, index as int),
            decreases level@.len(),
        {
            let sib = if i % 2 == 0 {
                if i + 1 < level.len() {
                    level[i + 1]
                } else {
                    level[i]
                }
            } else {
                level[i - 1]
            };
            let ghost before = path@;
            let ghost old_level = level@;
            path.push(sib);
            level = level_up(&level);
            proof {
                assert(before + (seq![sib] + merkle_path(level@, (i / 2) as int)) =~= path@
                    + merkle_path(level@, (i / 2) as int));
            }
            i = i / 2;
        }
        assert(path@ + Seq::<Bytes32>::empty() =~= path@);
        Some(MerkleProof { index: index as u64, path })
    }
}

/// Checks whether a proof leads from `leaf` to `root`.
pub fn verify_proof(root: Bytes32, leaf: Bytes32, proof: &MerkleProof) -> (r: bool)
    ensures
        r == proof_valid(root, leaf, proof.index as int, proof.path@),
{
    let mut node = leaf;
    let mut i: u64 = proof.index;
    let mut k: usize = 0;
    assert(proof.path@.skip(0) =~= proof.path@);
    while k < proof.path.len()
        invariant
            k <= proof.path.len(),
            climb(node, i as int, proof.path@.skip(k as int)) == climb(
                leaf,
                proof.index as int,
                proof.path@,
            ),
        decreases proof.path.len() - k,
    {
        proof {
            let s = proof.path@.skip(k as int);
            assert(s[0] == proof.path@[k as int]);
            assert(s.drop_first() =~= proof.path@.skip(k + 1));
        }
        node = if i % 2 == 0 {
            tree_hash_pair(node, proof.path[k])
        } else {
            tree_hash_pair(proof.path[k], node)
        };
        i = i / 2;
        k += 1;
    }
    node == root
}

/// A leaf has a valid proof exactly when it is in the tree: for a leaf of the
/// tree `get_proof` gives a proof that `verify_proof` accepts against the
/// root, and for any other value it gives none.
pub proof fn lemma_proof_soundness(leaves: Seq<Bytes32>, leaf: Bytes32)
    ensures
        leaves.contains(leaf) ==> {
            let i = first_index(leaves, leaf)->0;
            0 <= i < leaves.len() && proof_valid(
                merkle_root(leaves),
                leaf,
                i,
                merkle_path(leaves, i),
            )
        },
        !leaves.contains(leaf) ==> first_index(leaves, leaf) is None,
{
    if leaves.contains(leaf) {
        leaves.index_of_first_ensures(leaf);
        let i = first_index(leaves, leaf)->0;
        lemma_path_leads_to_root(leaves, i);
    }
}

} // verus!
