//! The delegation layer: the layer that lets the owner or one of a committed
//! set of delegated puzzles spend a data store.
use vstd::prelude::*;
use crate::bytes::Bytes32;
use crate::codec::{
    lemma_bytes32_of, lemma_parse_fields_list, parse_bytes32, parse_list, parse_unsigned,
    ref_trees, uint_tree,
};
use crate::curry::{
    curried, curried_args_of, curry, curry_tree_hash, lemma_curry_hash, lemma_parse_curried_args,
    lemma_uncurry_curried, parse_curried_args, tree_hashes, uncurried, uncurry,
};
use crate::datalayer::DelegatedPuzzle;
use crate::error::{wrong_length, DriverError, FromClvmError};
use crate::merkle::{proof_valid, verify_proof, MerkleProof};
use crate::modules::Modules;
use crate::number::lemma_decode_uint_atom;
use crate::node::{hash_atom, lemma_view, tree_hash_atom, trees, Node, Tree};
use crate::singleton_layer::layer_hash;

verus! {

/// The parameters of the delegation layer.
#[derive(Debug, Clone, Copy, PartialEq, Eq)]
pub struct DelegationLayer {
    pub launcher_id: Bytes32,
    pub owner_puzzle_hash: Bytes32,
    pub merkle_root: Bytes32,
}

impl View for DelegationLayer {
    type V = DelegationLayer;

    open spec fn view(&self) -> DelegationLayer {
        *self
    }
}

/// The solution of the delegation layer: the puzzle to run with its solution,
/// and the proof that it is one of the delegated puzzles. Without a proof the
/// puzzle is run as the owner's.
#[derive(Debug, Clone, PartialEq, Eq)]
pub struct DelegationLayerSolution<P, S> {
    pub merkle_proof: Option<MerkleProof>,
    pub puzzle_reveal: P,
    pub puzzle_solution: S,
}

/// As whose puzzle the delegation layer runs the revealed puzzle.
#[derive(Debug, Clone, Copy, PartialEq, Eq)]
pub enum DelegationBranch {
    /// As the owner's.
    Owner,
    /// As one of the delegated puzzles.
    Delegated,
}

/// The mathematical value of a `DelegationLayerSolution`.
pub struct DelegationLayerSolutionView {
    pub merkle_proof: Option<(u64, Seq<Bytes32>)>,
    pub puzzle_reveal: Tree,
    pub puzzle_solution: Tree,
}

impl View for DelegationLayerSolution<Node, Node> {
    type V = DelegationLayerSolutionView;

    open spec fn view(&self) -> DelegationLayerSolutionView {
        DelegationLayerSolutionView {
            merkle_proof: match self.merkle_proof {
                Some(p) => Some((p.index, p.path@)),
                None => None,
            },
            puzzle_reveal: self.puzzle_reveal@,
            puzzle_solution: self.puzzle_solution@,
        }
    }
}

/// The list of the atoms of the given hashes.
pub open spec fn hashes_tree(hashes: Seq<Bytes32>) -> Tree
    decreases hashes.len(),
{
    if hashes.len() == 0 {
        Tree::nil()
    } else {
        Tree::cons(Tree::Atom(hashes[0]@), hashes_tree(hashes.drop_first()))
    }
}

/// Reads a proper list of hashes.
pub open spec fn parse_hashes(t: Tree) -> Result<Seq<Bytes32>, FromClvmError>
    decreases t,
{
    match t {
        Tree::Atom(b) => if b.len() == 0 {
            Ok(Seq::empty())
        } else {
            Err(wrong_length(0, b.len()))
        },
        Tree::Pair(first, rest) => match parse_bytes32(*first) {
            Err(e) => Err(e),
            Ok(h) => match parse_hashes(*rest) {
                Err(e) => Err(e),
                Ok(more) => Ok(seq![h] + more),
            },
        },
    }
}

/// A list of hashes reads back as the hashes it was built from.
pub proof fn lemma_parse_hashes(hashes: Seq<Bytes32>)
    ensures
        parse_hashes(hashes_tree(hashes)) == Ok::<Seq<Bytes32>, FromClvmError>(hashes),
    decreases hashes.len(),
{
    if hashes.len() > 0 {
        lemma_parse_hashes(hashes.drop_first());
        lemma_bytes32_of(hashes[0]);
        assert(seq![hashes[0]] + hashes.drop_first() =~= hashes);
    } else {
        assert(hashes =~= Seq::empty());
    }
}

/// A Merkle proof or none as a VM value: the empty atom for none, else the
/// position paired with the list of siblings.
pub open spec fn proof_tree(merkle_proof: Option<(u64, Seq<Bytes32>)>) -> Tree {
    match merkle_proof {
        None => Tree::nil(),
        Some((index, path)) => Tree::cons(uint_tree(index as nat), hashes_tree(path)),
    }
}

/// Reads a Merkle proof or none from a VM value.
pub open spec fn parse_proof(t: Tree) -> Result<Option<(u64, Seq<Bytes32>)>, FromClvmError> {
    match t {
        Tree::Atom(b) => if b.len() == 0 {
            Ok(None)
        } else {
            Err(FromClvmError::ExpectedPair)
        },
        Tree::Pair(index, path) => match parse_unsigned(*index, 8) {
            Err(e) => Err(e),
            Ok(i) => match parse_hashes(*path) {
                Err(e) => Err(e),
                Ok(p) => Ok(Some((i as u64, p))),
            },
        },
    }
}

/// The hash of the delegation layer with the given parameters.
pub open spec fn delegation_layer_puzzle_hash(modules: Modules, layer: DelegationLayer) -> Bytes32 {
    layer_hash(
        modules.delegation_layer.hash,
        seq![
            hash_atom(modules.delegation_layer.hash@),
            hash_atom(layer.launcher_id@),
            hash_atom(layer.owner_puzzle_hash@),
            hash_atom(layer.merkle_root@),
        ],
    )
}

impl DelegationLayer {
    /// The curried arguments of the layer.
    pub open spec fn args(self, modules: Modules) -> Seq<Tree> {
        seq![
            Tree::Atom(modules.delegation_layer.hash@),
            Tree::Atom(self.launcher_id@),
            Tree::Atom(self.owner_puzzle_hash@),
            Tree::Atom(self.merkle_root@),
        ]
    }

    /// The puzzle of the layer.
    pub open spec fn puzzle(self, modules: Modules) -> Tree {
        curried(modules.delegation_layer.program@, self.args(modules))
    }

    /// Reads the layer from a puzzle. `Ok(None)` where the puzzle is not the
    /// delegation module curried.
    pub open spec fn parse(t: Tree, modules: Modules) -> Result<Option<DelegationLayer>, DriverError> {
        match uncurried(t) {
            None => Ok(None),
            Some((module, args)) => if module.tree_hash() != modules.delegation_layer.hash {
                Ok(None)
            } else {
                match parse_curried_args(args, 4) {
                    Err(e) => Err(DriverError::FromClvm(e)),
                    Ok(a) => match parse_bytes32(a[0]) {
                        Err(e) => Err(DriverError::FromClvm(e)),
                        Ok(_) => match parse_bytes32(a[1]) {
                            Err(e) => Err(DriverError::FromClvm(e)),
                            Ok(launcher_id) => match parse_bytes32(a[2]) {
                                Err(e) => Err(DriverError::FromClvm(e)),
                                Ok(owner_puzzle_hash) => match parse_bytes32(a[3]) {
                                    Err(e) => Err(DriverError::FromClvm(e)),
                                    Ok(merkle_root) => Ok(
                                        Some(
                                            DelegationLayer {
                                                launcher_id,
                                                owner_puzzle_hash,
                                                merkle_root,
                                            },
                                        ),
                                    ),
                                },
                            },
                        },
                    },
                }
            },
        }
    }

    /// As whose puzzle the layer runs the puzzle that a solution reveals.
    ///
    /// Without a proof the puzzle is run as the owner's and must hash to the
    /// owner's puzzle hash. With a proof it is run as a delegated puzzle, and
    /// the proof must lead from the leaf of the delegated puzzle that it
    /// stands for to the Merkle root.
    pub open spec fn branch_of(
        self,
        solution: DelegationLayerSolutionView,
        modules: Modules,
    ) -> Result<DelegationBranch, DriverError> {
        let revealed = solution.puzzle_reveal.tree_hash();
        let leaf = DelegatedPuzzle::revealed_leaf(solution.puzzle_reveal, modules);
        match solution.merkle_proof {
            None => if revealed == self.owner_puzzle_hash {
                Ok(DelegationBranch::Owner)
            } else {
                Err(DriverError::LayerMismatch)
            },
            Some((index, path)) => if proof_valid(self.merkle_root, leaf, index as int, path) {
                Ok(DelegationBranch::Delegated)
            } else {
                Err(DriverError::InvalidMerkleProof)
            },
        }
    }

    /// The hash of the puzzle is the one predicted from the parameters.
    pub proof fn lemma_puzzle_hash(self, modules: Modules)
        requires
            modules.delegation_layer.wf(),
        ensures
            self.puzzle(modules).tree_hash() == delegation_layer_puzzle_hash(modules, self),
    {
        lemma_curry_hash(modules.delegation_layer.program@, self.args(modules));
        reveal_with_fuel(Tree::tree_hash, 2);
        assert(tree_hashes(self.args(modules)) =~= seq![
            hash_atom(modules.delegation_layer.hash@),
            hash_atom(self.launcher_id@),
            hash_atom(self.owner_puzzle_hash@),
            hash_atom(self.merkle_root@),
        ]);
    }

    /// The puzzle built from a layer is read back as that layer.
    pub proof fn lemma_parse_puzzle(self, modules: Modules)
        requires
            modules.delegation_layer.wf(),
        ensures
            DelegationLayer::parse(self.puzzle(modules), modules) == Ok::<
                Option<DelegationLayer>,
                DriverError,
            >(Some(self)),
    {
        let args = self.args(modules);
        lemma_uncurry_curried(modules.delegation_layer.program@, args);
        lemma_parse_curried_args(args);
        lemma_bytes32_of(modules.delegation_layer.hash);
        lemma_bytes32_of(self.launcher_id);
        lemma_bytes32_of(self.owner_puzzle_hash);
        lemma_bytes32_of(self.merkle_root);
    }

    /// A delegation layer with the given parameters.
    pub fn new(launcher_id: Bytes32, owner_puzzle_hash: Bytes32, merkle_root: Bytes32) -> (r: Self)
        ensures
            r == (DelegationLayer { launcher_id, owner_puzzle_hash, merkle_root }),
    {
        DelegationLayer { launcher_id, owner_puzzle_hash, merkle_root }
    }

    /// Computes the hash of the puzzle of the layer.
    pub fn curry_tree_hash(&self, modules: &Modules) -> (r: Bytes32)
        ensures
            r == delegation_layer_puzzle_hash(*modules, *self),
    {
        let mut hashes: Vec<Bytes32> = Vec::new();
        hashes.push(tree_hash_atom(modules.delegation_layer.hash.bytes.as_slice()));
        hashes.push(tree_hash_atom(self.launcher_id.bytes.as_slice()));
        hashes.push(tree_hash_atom(self.owner_puzzle_hash.bytes.as_slice()));
        hashes.push(tree_hash_atom(self.merkle_root.bytes.as_slice()));
        assert(hashes@ =~= seq![
            hash_atom(modules.delegation_layer.hash@),
            hash_atom(self.launcher_id@),
            hash_atom(self.owner_puzzle_hash@),
            hash_atom(self.merkle_root@),
        ]);
        curry_tree_hash(modules.delegation_layer.hash, &hashes)
    }

    /// Tells as whose puzzle the layer runs the puzzle that a solution
    /// reveals, or why it refuses the solution.
    pub fn branch(
        &self,
        solution: &DelegationLayerSolution<Node, Node>,
        modules: &Modules,
    ) -> (r: Result<DelegationBranch, DriverError>)
        ensures
            r == self.branch_of(solution@, *modules),
    {
        match &solution.merkle_proof {
            None => if solution.puzzle_reveal.tree_hash() == self.owner_puzzle_hash {
                Ok(DelegationBranch::Owner)
            } else {
                Err(DriverError::LayerMismatch)
            },
            Some(p) => if verify_proof(
                self.merkle_root,
                DelegatedPuzzle::of_reveal(&solution.puzzle_reveal, modules).leaf_hash(),
                p,
            ) {
                Ok(DelegationBranch::Delegated)
            } else {
                Err(DriverError::InvalidMerkleProof)
            },
        }
    }

    /// Builds the puzzle of the layer.
    pub fn construct_puzzle(&self, modules: &Modules) -> (r: Node)
        ensures
            r@ == self.puzzle(*modules),
    {
        let mut args: Vec<Node> = Vec::new();
        args.push(Node::from_bytes32(&modules.delegation_layer.hash));
        args.push(Node::from_bytes32(&self.launcher_id));
        args.push(Node::from_bytes32(&self.owner_puzzle_hash));
        args.push(Node::from_bytes32(&self.merkle_root));
        assert(trees(args@) =~= self.args(*modules));
        curry(&modules.delegation_layer.program, &args)
    }

    /// Reads the layer from a puzzle.
    pub fn parse_puzzle(puzzle: &Node, modules: &Modules) -> (r: Result<Option<Self>, DriverError>)
        ensures
            r == DelegationLayer::parse(puzzle@, *modules),
    {
        let (module, args) = match uncurry(puzzle) {
            None => {
                return Ok(None);
            },
            Some(x) => x,
        };
        if module.tree_hash() != modules.delegation_layer.hash {
            return Ok(None);
        }
        let a = match curried_args_of(args, 4) {
            Err(e) => {
                return Err(DriverError::FromClvm(e));
            },
            Ok(a) => a,
        };
        assert(ref_trees(a@)[0] == a@[0]@);
        assert(ref_trees(a@)[1] == a@[1]@);
        assert(ref_trees(a@)[2] == a@[2]@);
        assert(ref_trees(a@)[3] == a@[3]@);
        match a[0].as_bytes32() {
            Err(e) => {
                return Err(DriverError::FromClvm(e));
            },
            Ok(_) => {},
        }
        let launcher_id = match a[1].as_bytes32() {
            Err(e) => {
                return Err(DriverError::FromClvm(e));
            },
            Ok(b) => b,
        };
        let owner_puzzle_hash = match a[2].as_bytes32() {
            Err(e) => {
                return Err(DriverError::FromClvm(e));
            },
            Ok(b) => b,
        };
        let merkle_root = match a[3].as_bytes32() {
            Err(e) => {
                return Err(DriverError::FromClvm(e));
            },
            Ok(b) => b,
        };
        Ok(Some(DelegationLayer { launcher_id, owner_puzzle_hash, merkle_root }))
    }
}

impl DelegationLayerSolutionView {
    /// The solution as a VM value: the list of its three fields.
    pub open spec fn tree(self) -> Tree {
        Tree::list(seq![proof_tree(self.merkle_proof), self.puzzle_reveal, self.puzzle_solution])
    }

    /// Reads a solution from a VM value.
    pub open spec fn parse(t: Tree) -> Result<DelegationLayerSolutionView, FromClvmError> {
        match parse_list(t, 3) {
            Err(e) => Err(e),
            Ok(f) => match parse_proof(f[0]) {
                Err(e) => Err(e),
                Ok(merkle_proof) => Ok(
                    DelegationLayerSolutionView {
                        merkle_proof,
                        puzzle_reveal: f[1],
                        puzzle_solution: f[2],
                    },
                ),
            },
        }
    }

    /// What is written is read back.
    pub proof fn lemma_round_trip(self)
        ensures
            DelegationLayerSolutionView::parse(self.tree()) == Ok::<
                DelegationLayerSolutionView,
                FromClvmError,
            >(self),
    {
        let f = seq![proof_tree(self.merkle_proof), self.puzzle_reveal, self.puzzle_solution];
        lemma_parse_fields_list(f, Tree::nil());
        match self.merkle_proof {
            None => {},
            Some((index, path)) => {
                lemma_decode_uint_atom(index);
                lemma_parse_hashes(path);
            },
        }
    }
}

/// Builds the list of the atoms of the given hashes.
fn hashes_node(hashes: &Vec<Bytes32>) -> (r: Node)
    ensures
        r@ == hashes_tree(hashes@),
{
    let mut out = Node::nil();
    let mut i: usize = hashes.len();
    assert(hashes@.skip(i as int) =~= Seq::<Bytes32>::empty());
    while i > 0
        invariant
            i <= hashes.len(),
            out@ == hashes_tree(hashes@.skip(i as int)),
        decreases i,
    {
        i -= 1;
        proof {
            let s = hashes@.skip(i as int);
            assert(s[0] == hashes@[i as int]);
            assert(s.drop_first() =~= hashes@.skip(i + 1));
        }
        out = Node::pair(Node::from_bytes32(&hashes[i]), out);
    }
    assert(hashes@.skip(0) =~= hashes@);
    out
}

/// Reads a proper list of hashes.
fn hashes_of(node: &Node) -> (r: Result<Vec<Bytes32>, FromClvmError>)
    ensures
        match r {
            Ok(h) => parse_hashes(node@) == Ok::<Seq<Bytes32>, FromClvmError>(h@),
            Err(e) => parse_hashes(node@) == Err::<Seq<Bytes32>, FromClvmError>(e),
        },
{
    let mut out: Vec<Bytes32> = Vec::new();
    let mut cur: &Node = node;
    loop
        invariant
            match parse_hashes(cur@) {
                Ok(more) => parse_hashes(node@) == Ok::<Seq<Bytes32>, FromClvmError>(out@ + more),
                Err(e) => parse_hashes(node@) == Err::<Seq<Bytes32>, FromClvmError>(e),
            },
        decreases cur,
    {
        proof {
            lemma_view(cur);
        }
        match cur {
            Node::Atom(b) => {
                if b.len() == 0 {
                    assert(out@ + Seq::<Bytes32>::empty() =~= out@);
                    return Ok(out);
                } else {
                    return Err(FromClvmError::WrongAtomLength { expected: 0, found: b.len() });
                }
            },
            Node::Pair(first, rest) => {
                match first.as_bytes32() {
                    Err(e) => {
                        return Err(e);
                    },
                    Ok(h) => {
                        let ghost before = out@;
                        out.push(h);
                        proof {
                            match parse_hashes(rest@) {
                                Ok(more) => {
                                    assert(before + (seq![h] + more) =~= out@ + more);
                                },
                                Err(_) => {},
                            }
                        }
                        cur = &**rest;
                    },
                }
            },
        }
    }
}

impl DelegationLayerSolution<Node, Node> {
    /// Writes the solution as a VM node.
    pub fn to_clvm(&self) -> (r: Node)
        ensures
            r@ == self@.tree(),
    {
        let first = match &self.merkle_proof {
            None => Node::nil(),
            Some(p) => Node::pair(Node::from_u64(p.index), hashes_node(&p.path)),
        };
        let mut items: Vec<Node> = Vec::new();
        items.push(first);
        items.push(self.puzzle_reveal.clone());
        items.push(self.puzzle_solution.clone());
        assert(trees(items@) =~= seq![
            proof_tree(self@.merkle_proof),
            self.puzzle_reveal@,
            self.puzzle_solution@,
        ]);
        Node::list(&items)
    }

    /// Reads the solution from a VM node.
    pub fn from_clvm(node: &Node) -> (r: Result<Self, FromClvmError>)
        ensures
            match r {
                Ok(s) => DelegationLayerSolutionView::parse(node@) == Ok::<
                    DelegationLayerSolutionView,
                    FromClvmError,
                >(s@),
                Err(e) => DelegationLayerSolutionView::parse(node@) == Err::<
                    DelegationLayerSolutionView,
                    FromClvmError,
                >(e),
            },
    {
        let f = match node.list_of(3) {
            Err(e) => {
                return Err(e);
            },
            Ok(f) => f,
        };
        assert(ref_trees(f@)[0] == f@[0]@);
        assert(ref_trees(f@)[1] == f@[1]@);
        assert(ref_trees(f@)[2] == f@[2]@);
        proof {
            lemma_view(f@[0]);
        }
        let merkle_proof = match f[0] {
            Node::Atom(b) => {
                if b.len() == 0 {
                    None
                } else {
                    return Err(FromClvmError::ExpectedPair);
                }
            },
            Node::Pair(index, path) => {
                let index = match index.as_u64() {
                    Err(e) => {
                        return Err(e);
                    },
                    Ok(i) => i,
                };
                let path = match hashes_of(path) {
                    Err(e) => {
                        return Err(e);
                    },
                    Ok(p) => p,
                };
                Some(MerkleProof { index, path })
            },
        };
        Ok(
            DelegationLayerSolution {
                merkle_proof,
                puzzle_reveal: f[1].clone(),
                puzzle_solution: f[2].clone(),
            },
        )
    }
}

} // verus!
