//! The CAT layer: the layer that ties a coin to the asset it is a token of.
use vstd::prelude::*;
use crate::bytes::Bytes32;
use crate::codec::{lemma_bytes32_of, parse_bytes32, parse_fields, ref_trees};
use crate::coin::Proof;
use crate::curry::{
    curried, curried_args_of, curry, curry_tree_hash, lemma_curry_hash, lemma_parse_curried_args,
    lemma_uncurry_curried, parse_curried_args, tree_hashes, uncurried, uncurry,
};
use crate::error::{DriverError, FromClvmError};
use crate::modules::Modules;
use crate::node::{hash_atom, tree_hash_atom, trees, Node, Tree};
use crate::singleton_layer::layer_hash;

verus! {

/// The layer that holds the asset id of a token.
#[derive(Debug, Clone, PartialEq, Eq)]
pub struct CATLayer<I> {
    pub asset_id: Bytes32,
    pub inner_puzzle: I,
}

/// A puzzle known by its hash, and in full where it has been revealed.
#[derive(Debug, Clone, PartialEq, Eq)]
pub struct TransparentLayer {
    pub puzzle_hash: Bytes32,
    pub puzzle: Option<Node>,
}

/// The mathematical value of a `CATLayer` around a revealed puzzle.
pub struct CATLayerView {
    pub asset_id: Bytes32,
    pub inner_puzzle: Tree,
}

impl View for CATLayer<Node> {
    type V = CATLayerView;

    open spec fn view(&self) -> CATLayerView {
        CATLayerView { asset_id: self.asset_id, inner_puzzle: self.inner_puzzle@ }
    }
}

/// The solution of the CAT layer.
#[derive(Debug, Clone, PartialEq, Eq)]
pub struct CatSolution<I> {
    pub lineage_proof: Proof,
    pub prev_coin_id: Bytes32,
    pub inner_puzzle_solution: I,
}

impl View for CatSolution<Node> {
    type V = CatSolution<Tree>;

    open spec fn view(&self) -> CatSolution<Tree> {
        CatSolution {
            lineage_proof: self.lineage_proof,
            prev_coin_id: self.prev_coin_id,
            inner_puzzle_solution: self.inner_puzzle_solution@,
        }
    }
}

/// The hash of the CAT layer around an inner puzzle of the given hash.
pub open spec fn cat_puzzle_hash(
    modules: Modules,
    asset_id: Bytes32,
    inner_puzzle_hash: Bytes32,
) -> Bytes32 {
    layer_hash(
        modules.cat.hash,
        seq![hash_atom(modules.cat.hash@), hash_atom(asset_id@), inner_puzzle_hash],
    )
}

impl CATLayerView {
    /// The curried arguments of the layer.
    pub open spec fn args(self, modules: Modules) -> Seq<Tree> {
        seq![Tree::Atom(modules.cat.hash@), Tree::Atom(self.asset_id@), self.inner_puzzle]
    }

    /// The puzzle of the layer.
    pub open spec fn puzzle(self, modules: Modules) -> Tree {
        curried(modules.cat.program@, self.args(modules))
    }

    /// Reads the layer from a puzzle. `Ok(None)` where the puzzle is not the
    /// CAT module curried.
    pub open spec fn parse(t: Tree, modules: Modules) -> Result<Option<CATLayerView>, DriverError> {
        match uncurried(t) {
            None => Ok(None),
            Some((module, args)) => if module.tree_hash() != modules.cat.hash {
                Ok(None)
            } else {
                match parse_curried_args(args, 3) {
                    Err(e) => Err(DriverError::FromClvm(e)),
                    Ok(a) => match parse_bytes32(a[0]) {
                        Err(e) => Err(DriverError::FromClvm(e)),
                        Ok(mod_hash) => match parse_bytes32(a[1]) {
                            Err(e) => Err(DriverError::FromClvm(e)),
                            Ok(asset_id) => if mod_hash != modules.cat.hash {
                                Err(DriverError::LayerMismatch)
                            } else {
                                Ok(Some(CATLayerView { asset_id, inner_puzzle: a[2] }))
                            },
                        },
                    },
                }
            },
        }
    }

    /// The hash of the puzzle is the one predicted from the hash of the inner
    /// puzzle.
    pub proof fn lemma_puzzle_hash(self, modules: Modules)
        requires
            modules.cat.wf(),
        ensures
            self.puzzle(modules).tree_hash() == cat_puzzle_hash(
                modules,
                self.asset_id,
                self.inner_puzzle.tree_hash(),
            ),
    {
        lemma_curry_hash(modules.cat.program@, self.args(modules));
        reveal_with_fuel(Tree::tree_hash, 2);
        assert(tree_hashes(self.args(modules)) =~= seq![
            hash_atom(modules.cat.hash@),
            hash_atom(self.asset_id@),
            self.inner_puzzle.tree_hash(),
        ]);
    }

    /// The puzzle built from a layer is read back as that layer.
    pub proof fn lemma_parse_puzzle(self, modules: Modules)
        requires
            modules.cat.wf(),
        ensures
            CATLayerView::parse(self.puzzle(modules), modules) == Ok::<
                Option<CATLayerView>,
                DriverError,
            >(Some(self)),
    {
        let args = self.args(modules);
        lemma_uncurry_curried(modules.cat.program@, args);
        lemma_parse_curried_args(args);
        lemma_bytes32_of(modules.cat.hash);
        lemma_bytes32_of(self.asset_id);
    }
}

impl CatSolution<Tree> {
    /// The solution as a VM value: the inner solution, the lineage proof and
    /// the id of the previous coin of the ring.
    pub open spec fn tree(self) -> Tree {
        Tree::list(
            seq![self.inner_puzzle_solution, self.lineage_proof.tree(), Tree::Atom(self.prev_coin_id@)],
        )
    }

    /// Reads a solution from a VM value. What follows the three fields is not
    /// looked at.
    pub open spec fn parse(t: Tree) -> Result<CatSolution<Tree>, FromClvmError> {
        match parse_fields(t, 3) {
            Err(e) => Err(e),
            Ok((f, _)) => match Proof::parse(f[1]) {
                Err(e) => Err(e),
                Ok(lineage_proof) => match parse_bytes32(f[2]) {
                    Err(e) => Err(e),
                    Ok(prev_coin_id) => Ok(
                        CatSolution { lineage_proof, prev_coin_id, inner_puzzle_solution: f[0] },
                    ),
                },
            },
        }
    }
}

/// Computes the hash of the CAT layer around an inner puzzle of the given hash.
pub fn cat_curry_tree_hash(modules: &Modules, asset_id: Bytes32, inner_puzzle_hash: Bytes32) -> (r:
    Bytes32)
    ensures
        r == cat_puzzle_hash(*modules, asset_id, inner_puzzle_hash),
{
    let mut hashes: Vec<Bytes32> = Vec::new();
    hashes.push(tree_hash_atom(modules.cat.hash.bytes.as_slice()));
    hashes.push(tree_hash_atom(asset_id.bytes.as_slice()));
    hashes.push(inner_puzzle_hash);
    assert(hashes@ =~= seq![hash_atom(modules.cat.hash@), hash_atom(asset_id@), inner_puzzle_hash]);
    curry_tree_hash(modules.cat.hash, &hashes)
}

impl CATLayer<Node> {
    /// A CAT layer around `inner_puzzle`.
    pub fn new(asset_id: Bytes32, inner_puzzle: Node) -> (r: Self)
        ensures
            r.asset_id == asset_id,
            r.inner_puzzle == inner_puzzle,
    {
        CATLayer { asset_id, inner_puzzle }
    }

    /// Builds the puzzle of the layer.
    pub fn construct_puzzle(&self, modules: &Modules) -> (r: Node)
        ensures
            r@ == self@.puzzle(*modules),
    {
        let mut args: Vec<Node> = Vec::new();
        args.push(Node::from_bytes32(&modules.cat.hash));
        args.push(Node::from_bytes32(&self.asset_id));
        args.push(self.inner_puzzle.clone());
        assert(trees(args@) =~= self@.args(*modules));
        curry(&modules.cat.program, &args)
    }

    /// Reads the layer from a puzzle.
    pub fn parse_puzzle(puzzle: &Node, modules: &Modules) -> (r: Result<Option<Self>, DriverError>)
        ensures
            match r {
                Ok(Some(layer)) => CATLayerView::parse(puzzle@, *modules) == Ok::<
                    Option<CATLayerView>,
                    DriverError,
                >(Some(layer@)),
                Ok(None) => CATLayerView::parse(puzzle@, *modules) == Ok::<
                    Option<CATLayerView>,
                    DriverError,
                >(None),
                Err(e) => CATLayerView::parse(puzzle@, *modules) == Err::<
                    Option<CATLayerView>,
                    DriverError,
                >(e),
            },
    {
        let (module, args) = match uncurry(puzzle) {
            None => {
                return Ok(None);
            },
            Some(x) => x,
        };
        if module.tree_hash() != modules.cat.hash {
            return Ok(None);
        }
        let a = match curried_args_of(args, 3) {
            Err(e) => {
                return Err(DriverError::FromClvm(e));
            },
            Ok(a) => a,
        };
        assert(ref_trees(a@)[0] == a@[0]@);
        assert(ref_trees(a@)[1] == a@[1]@);
        assert(ref_trees(a@)[2] == a@[2]@);
        let mod_hash = match a[0].as_bytes32() {
            Err(e) => {
                return Err(DriverError::FromClvm(e));
            },
            Ok(b) => b,
        };
        let asset_id = match a[1].as_bytes32() {
            Err(e) => {
                return Err(DriverError::FromClvm(e));
            },
            Ok(b) => b,
        };
        if mod_hash != modules.cat.hash {
            return Err(DriverError::LayerMismatch);
        }
        Ok(Some(CATLayer { asset_id, inner_puzzle: a[2].clone() }))
    }

    /// Builds the solution of the layer.
    pub fn construct_solution(solution: &CatSolution<Node>) -> (r: Node)
        ensures
            r@ == solution@.tree(),
    {
        let mut items: Vec<Node> = Vec::new();
        items.push(solution.inner_puzzle_solution.clone());
        items.push(solution.lineage_proof.to_clvm());
        items.push(Node::from_bytes32(&solution.prev_coin_id));
        assert(trees(items@) =~= seq![
            solution.inner_puzzle_solution@,
            solution.lineage_proof.tree(),
            Tree::Atom(solution.prev_coin_id@),
        ]);
        Node::list(&items)
    }

    /// Reads the solution of the layer.
    pub fn parse_solution(solution: &Node) -> (r: Result<CatSolution<Node>, FromClvmError>)
        ensures
            match r {
                Ok(s) => CatSolution::<Tree>::parse(solution@) == Ok::<
                    CatSolution<Tree>,
                    FromClvmError,
                >(s@),
                Err(e) => CatSolution::<Tree>::parse(solution@) == Err::<
                    CatSolution<Tree>,
                    FromClvmError,
                >(e),
            },
    {
        let (f, _tail) = match solution.fields(3) {
            Err(e) => {
                return Err(e);
            },
            Ok(x) => x,
        };
        assert(ref_trees(f@)[0] == f@[0]@);
        assert(ref_trees(f@)[1] == f@[1]@);
        assert(ref_trees(f@)[2] == f@[2]@);
        let lineage_proof = match Proof::from_clvm(f[1]) {
            Err(e) => {
                return Err(e);
            },
            Ok(p) => p,
        };
        let prev_coin_id = match f[2].as_bytes32() {
            Err(e) => {
                return Err(e);
            },
            Ok(b) => b,
        };
        Ok(CatSolution { lineage_proof, prev_coin_id, inner_puzzle_solution: f[0].clone() })
    }
}

} // verus!
