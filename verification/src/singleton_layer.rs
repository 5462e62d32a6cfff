//! The singleton layer and the lineage proofs that its solution carries.
//!
//! A layer is a module curried with its parameters, the last of which is the
//! puzzle it wraps. A layer can be built from its parameters and read back
//! from a puzzle, and has a solution that it can write and read.
use vstd::prelude::*;
use crate::bytes::Bytes32;
use crate::codec::{
    lemma_bytes32_of, lemma_parse_fields_list, parse_bytes32, parse_fields, parse_list,
    parse_unsigned, ref_trees, uint_tree,
};
use crate::coin::{Coin, EveProof, LineageProof, Proof};
use crate::curry::{
    curried, curried_args_of, curry, curry_hash, curry_tree_hash, lemma_curry_hash,
    lemma_parse_curried_args, lemma_uncurry_curried, parse_curried_args, tree_hashes, uncurried,
    uncurry,
};
use crate::error::{DriverError, FromClvmError};
use crate::modules::Modules;
use crate::node::{hash_atom, hash_pair, tree_hash_atom, tree_hash_pair, trees, Node, Tree};
use crate::number::lemma_decode_uint_atom;

verus! {

impl LineageProof {
    /// The proof as a VM value: the list of its three fields.
    pub open spec fn tree(self) -> Tree {
        Tree::list(
            seq![
                Tree::Atom(self.parent_parent_coin_info@),
                Tree::Atom(self.parent_inner_puzzle_hash@),
                uint_tree(self.parent_amount as nat),
            ],
        )
    }

    /// Reads a lineage proof from a VM value.
    pub open spec fn parse(t: Tree) -> Result<LineageProof, FromClvmError> {
        match parse_list(t, 3) {
            Err(e) => Err(e),
            Ok(f) => match parse_bytes32(f[0]) {
                Err(e) => Err(e),
                Ok(parent_parent_coin_info) => match parse_bytes32(f[1]) {
                    Err(e) => Err(e),
                    Ok(parent_inner_puzzle_hash) => match parse_unsigned(f[2], 8) {
                        Err(e) => Err(e),
                        Ok(amount) => Ok(
                            LineageProof {
                                parent_parent_coin_info,
                                parent_inner_puzzle_hash,
                                parent_amount: amount as u64,
                            },
                        ),
                    },
                },
            },
        }
    }

    /// What is written is read back.
    pub proof fn lemma_round_trip(self)
        ensures
            LineageProof::parse(self.tree()) == Ok::<LineageProof, FromClvmError>(self),
    {
        let f = seq![
            Tree::Atom(self.parent_parent_coin_info@),
            Tree::Atom(self.parent_inner_puzzle_hash@),
            uint_tree(self.parent_amount as nat),
        ];
        lemma_parse_fields_list(f, Tree::nil());
        lemma_bytes32_of(self.parent_parent_coin_info);
        lemma_bytes32_of(self.parent_inner_puzzle_hash);
        lemma_decode_uint_atom(self.parent_amount);
    }

    /// Writes the proof as a VM node.
    pub fn to_clvm(&self) -> (r: Node)
        ensures
            r@ == self.tree(),
    {
        let mut items: Vec<Node> = Vec::new();
        items.push(Node::from_bytes32(&self.parent_parent_coin_info));
        items.push(Node::from_bytes32(&self.parent_inner_puzzle_hash));
        items.push(Node::from_u64(self.parent_amount));
        assert(trees(items@) =~= seq![
            Tree::Atom(self.parent_parent_coin_info@),
            Tree::Atom(self.parent_inner_puzzle_hash@),
            uint_tree(self.parent_amount as nat),
        ]);
        Node::list(&items)
    }

    /// Reads the proof from a VM node.
    pub fn from_clvm(node: &Node) -> (r: Result<LineageProof, FromClvmError>)
        ensures
            r == LineageProof::parse(node@),
    {
        let f = match node.list_of(3) {
            Err(e) => {
                return Err(e);
            },
            Ok(f) => f,
        };
        assert(ref_trees(f@)[0] == f@[0]@);
        assert(ref_trees(f@)[1] == f@[1]@);
        assert(ref_trees(f@)[2] == f@[2]@);
        let parent_parent_coin_info = match f[0].as_bytes32() {
            Err(e) => {
                return Err(e);
            },
            Ok(b) => b,
        };
        let parent_inner_puzzle_hash = match f[1].as_bytes32() {
            Err(e) => {
                return Err(e);
            },
            Ok(b) => b,
        };
        let parent_amount = match f[2].as_u64() {
            Err(e) => {
                return Err(e);
            },
            Ok(v) => v,
        };
        Ok(LineageProof { parent_parent_coin_info, parent_inner_puzzle_hash, parent_amount })
    }
}

impl EveProof {
    /// The proof as a VM value: the list of its two fields.
    pub open spec fn tree(self) -> Tree {
        Tree::list(
            seq![Tree::Atom(self.parent_parent_coin_info@), uint_tree(self.parent_amount as nat)],
        )
    }

    /// Reads an eve proof from a VM value.
    pub open spec fn parse(t: Tree) -> Result<EveProof, FromClvmError> {
        match parse_list(t, 2) {
            Err(e) => Err(e),
            Ok(f) => match parse_bytes32(f[0]) {
                Err(e) => Err(e),
                Ok(parent_parent_coin_info) => match parse_unsigned(f[1], 8) {
                    Err(e) => Err(e),
                    Ok(amount) => Ok(
                        EveProof { parent_parent_coin_info, parent_amount: amount as u64 },
                    ),
                },
            },
        }
    }

    /// Writes the proof as a VM node.
    pub fn to_clvm(&self) -> (r: Node)
        ensures
            r@ == self.tree(),
    {
        let mut items: Vec<Node> = Vec::new();
        items.push(Node::from_bytes32(&self.parent_parent_coin_info));
        items.push(Node::from_u64(self.parent_amount));
        assert(trees(items@) =~= seq![
            Tree::Atom(self.parent_parent_coin_info@),
            uint_tree(self.parent_amount as nat),
        ]);
        Node::list(&items)
    }

    /// Reads the proof from a VM node.
    pub fn from_clvm(node: &Node) -> (r: Result<EveProof, FromClvmError>)
        ensures
            r == EveProof::parse(node@),
    {
        let f = match node.list_of(2) {
            Err(e) => {
                return Err(e);
            },
            Ok(f) => f,
        };
        assert(ref_trees(f@)[0] == f@[0]@);
        assert(ref_trees(f@)[1] == f@[1]@);
        let parent_parent_coin_info = match f[0].as_bytes32() {
            Err(e) => {
                return Err(e);
            },
            Ok(b) => b,
        };
        let parent_amount = match f[1].as_u64() {
            Err(e) => {
                return Err(e);
            },
            Ok(v) => v,
        };
        Ok(EveProof { parent_parent_coin_info, parent_amount })
    }
}

impl Proof {
    /// The proof as a VM value.
    pub open spec fn tree(self) -> Tree {
        match self {
            Proof::Lineage(p) => p.tree(),
            Proof::Eve(p) => p.tree(),
        }
    }

    /// Reads a proof from a VM value: a lineage proof where the value is one,
    /// else an eve proof.
    pub open spec fn parse(t: Tree) -> Result<Proof, FromClvmError> {
        match LineageProof::parse(t) {
            Ok(p) => Ok(Proof::Lineage(p)),
            Err(_) => match EveProof::parse(t) {
                Ok(p) => Ok(Proof::Eve(p)),
                Err(_) => Err(FromClvmError::NoMatchingVariant),
            },
        }
    }

    /// Writes the proof as a VM node.
    pub fn to_clvm(&self) -> (r: Node)
        ensures
            r@ == self.tree(),
    {
        match self {
            Proof::Lineage(p) => p.to_clvm(),
            Proof::Eve(p) => p.to_clvm(),
        }
    }

    /// Reads the proof from a VM node.
    pub fn from_clvm(node: &Node) -> (r: Result<Proof, FromClvmError>)
        ensures
            r == Proof::parse(node@),
    {
        match LineageProof::from_clvm(node) {
            Ok(p) => Ok(Proof::Lineage(p)),
            Err(_) => match EveProof::from_clvm(node) {
                Ok(p) => Ok(Proof::Eve(p)),
                Err(_) => Err(FromClvmError::NoMatchingVariant),
            },
        }
    }
}

/// The puzzle hash of a module curried with arguments of the given hashes.
pub open spec fn layer_hash(module_hash: Bytes32, arg_hashes: Seq<Bytes32>) -> Bytes32 {
    curry_hash(module_hash, arg_hashes)
}

/// The layer that proves a coin to be the one live coin of its lineage.
#[derive(Debug, Clone, PartialEq, Eq)]
pub struct SingletonLayer {
    pub launcher_id: Bytes32,
    pub inner_puzzle: Node,
}

/// The mathematical value of a `SingletonLayer`.
pub struct SingletonLayerView {
    pub launcher_id: Bytes32,
    pub inner_puzzle: Tree,
}

impl View for SingletonLayer {
    type V = SingletonLayerView;

    open spec fn view(&self) -> SingletonLayerView {
        SingletonLayerView { launcher_id: self.launcher_id, inner_puzzle: self.inner_puzzle@ }
    }
}

/// The solution of the singleton layer.
#[derive(Debug, Clone, PartialEq, Eq)]
pub struct SingletonSolution<I> {
    pub lineage_proof: Proof,
    pub amount: u64,
    pub inner_solution: I,
}

impl View for SingletonSolution<Node> {
    type V = SingletonSolution<Tree>;

    open spec fn view(&self) -> SingletonSolution<Tree> {
        SingletonSolution {
            lineage_proof: self.lineage_proof,
            amount: self.amount,
            inner_solution: self.inner_solution@,
        }
    }
}

/// The first curried argument of the singleton layer: the hash of the layer's
/// own module, the launcher id and the hash of the launcher.
pub open spec fn singleton_struct(
    mod_hash: Bytes32,
    launcher_id: Bytes32,
    launcher_hash: Bytes32,
) -> Tree {
    Tree::cons(
        Tree::Atom(mod_hash@),
        Tree::cons(Tree::Atom(launcher_id@), Tree::Atom(launcher_hash@)),
    )
}

/// Reads the first curried argument of the singleton layer.
pub open spec fn parse_singleton_struct(t: Tree) -> Result<(Bytes32, Bytes32, Bytes32), FromClvmError> {
    match parse_fields(t, 2) {
        Err(e) => Err(e),
        Ok((f, tail)) => match parse_bytes32(f[0]) {
            Err(e) => Err(e),
            Ok(mod_hash) => match parse_bytes32(f[1]) {
                Err(e) => Err(e),
                Ok(launcher_id) => match parse_bytes32(tail) {
                    Err(e) => Err(e),
                    Ok(launcher_hash) => Ok((mod_hash, launcher_id, launcher_hash)),
                },
            },
        },
    }
}

/// The hash of the singleton layer around an inner puzzle of the given hash.
pub open spec fn singleton_puzzle_hash(
    modules: Modules,
    launcher_id: Bytes32,
    inner_puzzle_hash: Bytes32,
) -> Bytes32 {
    layer_hash(
        modules.singleton_top_layer.hash,
        seq![
            hash_pair(
                hash_atom(modules.singleton_top_layer.hash@),
                hash_pair(hash_atom(launcher_id@), hash_atom(modules.singleton_launcher.hash@)),
            ),
            inner_puzzle_hash,
        ],
    )
}

impl SingletonLayerView {
    /// The curried arguments of the layer.
    pub open spec fn args(self, modules: Modules) -> Seq<Tree> {
        seq![
            singleton_struct(
                modules.singleton_top_layer.hash,
                self.launcher_id,
                modules.singleton_launcher.hash,
            ),
            self.inner_puzzle,
        ]
    }

    /// The puzzle of the layer.
    pub open spec fn puzzle(self, modules: Modules) -> Tree {
        curried(modules.singleton_top_layer.program@, self.args(modules))
    }

    /// Reads the layer from a puzzle. `Ok(None)` where the puzzle is not the
    /// singleton module curried; an error where it is, with arguments that
    /// are not those of a singleton.
    pub open spec fn parse(t: Tree, modules: Modules) -> Result<
        Option<SingletonLayerView>,
        DriverError,
    > {
        match uncurried(t) {
            None => Ok(None),
            Some((module, args)) => if module.tree_hash() != modules.singleton_top_layer.hash {
                Ok(None)
            } else {
                match parse_curried_args(args, 2) {
                    Err(e) => Err(DriverError::FromClvm(e)),
                    Ok(a) => match parse_singleton_struct(a[0]) {
                        Err(e) => Err(DriverError::FromClvm(e)),
                        Ok((mod_hash, launcher_id, launcher_hash)) => if mod_hash
                            != modules.singleton_top_layer.hash || launcher_hash
                            != modules.singleton_launcher.hash {
                            Err(DriverError::LayerMismatch)
                        } else {
                            Ok(Some(SingletonLayerView { launcher_id, inner_puzzle: a[1] }))
                        },
                    },
                }
            },
        }
    }

    /// The proof that a child of `coin` carries, where `coin` holds this layer.
    pub open spec fn lineage_proof(self, coin: Coin) -> LineageProof {
        LineageProof {
            parent_parent_coin_info: coin.parent_coin_info,
            parent_inner_puzzle_hash: self.inner_puzzle.tree_hash(),
            parent_amount: coin.amount,
        }
    }

    /// The hash of the puzzle is the one predicted from the hash of the inner
    /// puzzle.
    pub proof fn lemma_puzzle_hash(self, modules: Modules)
        requires
            modules.singleton_top_layer.wf(),
        ensures
            self.puzzle(modules).tree_hash() == singleton_puzzle_hash(
                modules,
                self.launcher_id,
                self.inner_puzzle.tree_hash(),
            ),
    {
        lemma_curry_hash(modules.singleton_top_layer.program@, self.args(modules));
        reveal_with_fuel(Tree::tree_hash, 4);
        assert(tree_hashes(self.args(modules)) =~= seq![
            hash_pair(
                hash_atom(modules.singleton_top_layer.hash@),
                hash_pair(
                    hash_atom(self.launcher_id@),
                    hash_atom(modules.singleton_launcher.hash@),
                ),
            ),
            self.inner_puzzle.tree_hash(),
        ]);
    }

    /// The puzzle built from a layer is read back as that layer.
    pub proof fn lemma_parse_puzzle(self, modules: Modules)
        requires
            modules.singleton_top_layer.wf(),
        ensures
            SingletonLayerView::parse(self.puzzle(modules), modules) == Ok::<
                Option<SingletonLayerView>,
                DriverError,
            >(Some(self)),
    {
        let args = self.args(modules);
        lemma_uncurry_curried(modules.singleton_top_layer.program@, args);
        lemma_parse_curried_args(args);
        lemma_bytes32_of(modules.singleton_top_layer.hash);
        lemma_bytes32_of(modules.singleton_launcher.hash);
        lemma_bytes32_of(self.launcher_id);
        let f = seq![Tree::Atom(modules.singleton_top_layer.hash@), Tree::Atom(self.launcher_id@)];
        lemma_parse_fields_list(f, Tree::Atom(modules.singleton_launcher.hash@));
        reveal_with_fuel(Tree::list_with_tail, 3);
        assert(f.drop_first() =~= seq![Tree::Atom(self.launcher_id@)]);
        assert(f.drop_first().drop_first() =~= Seq::<Tree>::empty());
        assert(Tree::list_with_tail(f, Tree::Atom(modules.singleton_launcher.hash@))
            == args[0]);
    }
}

impl SingletonSolution<Tree> {
    /// The solution as a VM value: the list of its three fields.
    pub open spec fn tree(self) -> Tree {
        Tree::list(
            seq![self.lineage_proof.tree(), uint_tree(self.amount as nat), self.inner_solution],
        )
    }

    /// Reads a solution from a VM value. What follows the three fields is not
    /// looked at.
    pub open spec fn parse(t: Tree) -> Result<SingletonSolution<Tree>, FromClvmError> {
        match parse_fields(t, 3) {
            Err(e) => Err(e),
            Ok((f, _)) => match Proof::parse(f[0]) {
                Err(e) => Err(e),
                Ok(lineage_proof) => match parse_unsigned(f[1], 8) {
                    Err(e) => Err(e),
                    Ok(amount) => Ok(
                        SingletonSolution {
                            lineage_proof,
                            amount: amount as u64,
                            inner_solution: f[2],
                        },
                    ),
                },
            },
        }
    }
}

/// Computes the hash of the singleton layer around an inner puzzle of the
/// given hash.
pub fn singleton_curry_tree_hash(
    modules: &Modules,
    launcher_id: Bytes32,
    inner_puzzle_hash: Bytes32,
) -> (r: Bytes32)
    ensures
        r == singleton_puzzle_hash(*modules, launcher_id, inner_puzzle_hash),
{
    let struct_hash = tree_hash_pair(
        tree_hash_atom(modules.singleton_top_layer.hash.bytes.as_slice()),
        tree_hash_pair(
            tree_hash_atom(launcher_id.bytes.as_slice()),
            tree_hash_atom(modules.singleton_launcher.hash.bytes.as_slice()),
        ),
    );
    let mut hashes: Vec<Bytes32> = Vec::new();
    hashes.push(struct_hash);
    hashes.push(inner_puzzle_hash);
    assert(hashes@ =~= seq![struct_hash, inner_puzzle_hash]);
    curry_tree_hash(modules.singleton_top_layer.hash, &hashes)
}

impl SingletonLayer {
    /// A singleton layer around `inner_puzzle`.
    pub fn new(launcher_id: Bytes32, inner_puzzle: Node) -> (r: SingletonLayer)
        ensures
            r.launcher_id == launcher_id,
            r.inner_puzzle == inner_puzzle,
    {
        SingletonLayer { launcher_id, inner_puzzle }
    }

    /// Builds the puzzle of the layer.
    pub fn construct_puzzle(&self, modules: &Modules) -> (r: Node)
        ensures
            r@ == self@.puzzle(*modules),
    {
        let structure = Node::pair(
            Node::from_bytes32(&modules.singleton_top_layer.hash),
            Node::pair(
                Node::from_bytes32(&self.launcher_id),
                Node::from_bytes32(&modules.singleton_launcher.hash),
            ),
        );
        let mut args: Vec<Node> = Vec::new();
        args.push(structure);
        args.push(self.inner_puzzle.clone());
        assert(trees(args@) =~= self@.args(*modules));
        curry(&modules.singleton_top_layer.program, &args)
    }

    /// Reads the layer from a puzzle.
    pub fn parse_puzzle(puzzle: &Node, modules: &Modules) -> (r: Result<
        Option<SingletonLayer>,
        DriverError,
    >)
        ensures
            match r {
                Ok(Some(layer)) => SingletonLayerView::parse(puzzle@, *modules) == Ok::<
                    Option<SingletonLayerView>,
                    DriverError,
                >(Some(layer@)),
                Ok(None) => SingletonLayerView::parse(puzzle@, *modules) == Ok::<
                    Option<SingletonLayerView>,
                    DriverError,
                >(None),
                Err(e) => SingletonLayerView::parse(puzzle@, *modules) == Err::<
                    Option<SingletonLayerView>,
                    DriverError,
                >(e),
            },
    {
        let (module, args) = match uncurry(puzzle) {
            None => {
                return Ok(None);
            },
            Some(x) => x,
        };
        if module.tree_hash() != modules.singleton_top_layer.hash {
            return Ok(None);
        }
        let a = match curried_args_of(args, 2) {
            Err(e) => {
                return Err(DriverError::FromClvm(e));
            },
            Ok(a) => a,
        };
        assert(ref_trees(a@)[0] == a@[0]@);
        assert(ref_trees(a@)[1] == a@[1]@);
        let (f, tail) = match a[0].fields(2) {
            Err(e) => {
                return Err(DriverError::FromClvm(e));
            },
            Ok(x) => x,
        };
        assert(ref_trees(f@)[0] == f@[0]@);
        assert(ref_trees(f@)[1] == f@[1]@);
        let mod_hash = match f[0].as_bytes32() {
            Err(e) => {
                return Err(DriverError::FromClvm(e));
            },
            Ok(b) => b,
        };
        let launcher_id = match f[1].as_bytes32() {
            Err(e) => {
                return Err(DriverError::FromClvm(e));
            },
            Ok(b) => b,
        };
        let launcher_hash = match tail.as_bytes32() {
            Err(e) => {
                return Err(DriverError::FromClvm(e));
            },
            Ok(b) => b,
        };
        if mod_hash != modules.singleton_top_layer.hash || launcher_hash
            != modules.singleton_launcher.hash {
            return Err(DriverError::LayerMismatch);
        }
        Ok(Some(SingletonLayer { launcher_id, inner_puzzle: a[1].clone() }))
    }

    /// Builds the solution of the layer.
    pub fn construct_solution(solution: &SingletonSolution<Node>) -> (r: Node)
        ensures
            r@ == solution@.tree(),
    {
        let mut items: Vec<Node> = Vec::new();
        items.push(solution.lineage_proof.to_clvm());
        items.push(Node::from_u64(solution.amount));
        items.push(solution.inner_solution.clone());
        assert(trees(items@) =~= seq![
            solution.lineage_proof.tree(),
            uint_tree(solution.amount as nat),
            solution.inner_solution@,
        ]);
        Node::list(&items)
    }

    /// Reads the solution of the layer.
    pub fn parse_solution(solution: &Node) -> (r: Result<SingletonSolution<Node>, FromClvmError>)
        ensures
            match r {
                Ok(s) => SingletonSolution::<Tree>::parse(solution@) == Ok::<
                    SingletonSolution<Tree>,
                    FromClvmError,
                >(s@),
                Err(e) => SingletonSolution::<Tree>::parse(solution@) == Err::<
                    SingletonSolution<Tree>,
                    FromClvmError,
                >(e),
            },
    {
        let (f, _tail) = match solution.fields(3) {
            Err(e) => {
                return Err(e);
            },
            Ok(x) => x,
        };
        assert(ref_trees(f@)[0] == f@[0]@);
        assert(ref_trees(f@)[1] == f@[1]@);
        assert(ref_trees(f@)[2] == f@[2]@);
        let lineage_proof = match Proof::from_clvm(f[0]) {
            Err(e) => {
                return Err(e);
            },
            Ok(p) => p,
        };
        let amount = match f[1].as_u64() {
            Err(e) => {
                return Err(e);
            },
            Ok(v) => v,
        };
        Ok(SingletonSolution { lineage_proof, amount, inner_solution: f[2].clone() })
    }

    /// The proof that a child of `coin` carries, where `coin` holds this layer.
    pub fn lineage_proof(&self, coin: Coin) -> (r: LineageProof)
        ensures
            r == self@.lineage_proof(coin),
    {
        LineageProof {
            parent_parent_coin_info: coin.parent_coin_info,
            parent_inner_puzzle_hash: self.inner_puzzle.tree_hash(),
            parent_amount: coin.amount,
        }
    }
}

} // verus!
