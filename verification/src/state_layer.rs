//! The state layer: the layer that holds the metadata of a singleton.
use vstd::prelude::*;
use crate::bytes::Bytes32;
use crate::codec::{
    lemma_bytes32_of, lemma_parse_fields_list, parse_bytes32, parse_fields, ref_trees, FromClvm,
};
use crate::curry::{
    curried, curried_args_of, curry, curry_tree_hash, lemma_curry_hash, lemma_parse_curried_args,
    lemma_uncurry_curried, parse_curried_args, tree_hashes, uncurried, uncurry,
};
use crate::error::{DriverError, FromClvmError};
use crate::modules::Modules;
use crate::node::{hash_atom, tree_hash_atom, trees, Node, Tree};
use crate::singleton_layer::layer_hash;

verus! {

/// The layer that holds metadata and the hash of the program that may change it.
#[derive(Debug, Clone, PartialEq, Eq)]
pub struct NftStateLayer<M> {
    pub metadata: M,
    pub metadata_updater_puzzle_hash: Bytes32,
    pub inner_puzzle: Node,
}

/// The mathematical value of an `NftStateLayer`.
pub struct NftStateLayerView {
    pub metadata: Tree,
    pub metadata_updater_puzzle_hash: Bytes32,
    pub inner_puzzle: Tree,
}

impl<M: FromClvm> View for NftStateLayer<M> {
    type V = NftStateLayerView;

    open spec fn view(&self) -> NftStateLayerView {
        NftStateLayerView {
            metadata: self.metadata.tree(),
            metadata_updater_puzzle_hash: self.metadata_updater_puzzle_hash,
            inner_puzzle: self.inner_puzzle@,
        }
    }
}

/// The solution of the state layer.
#[derive(Debug, Clone, PartialEq, Eq)]
pub struct NftStateLayerSolution<I> {
    pub inner_solution: I,
}

impl View for NftStateLayerSolution<Node> {
    type V = NftStateLayerSolution<Tree>;

    open spec fn view(&self) -> NftStateLayerSolution<Tree> {
        NftStateLayerSolution { inner_solution: self.inner_solution@ }
    }
}

/// The hash of the state layer around an inner puzzle of the given hash, with
/// metadata of the given hash.
pub open spec fn state_layer_puzzle_hash(
    modules: Modules,
    metadata_hash: Bytes32,
    metadata_updater_puzzle_hash: Bytes32,
    inner_puzzle_hash: Bytes32,
) -> Bytes32 {
    layer_hash(
        modules.nft_state_layer.hash,
        seq![
            hash_atom(modules.nft_state_layer.hash@),
            metadata_hash,
            hash_atom(metadata_updater_puzzle_hash@),
            inner_puzzle_hash,
        ],
    )
}

impl NftStateLayerView {
    /// The curried arguments of the layer.
    pub open spec fn args(self, modules: Modules) -> Seq<Tree> {
        seq![
            Tree::Atom(modules.nft_state_layer.hash@),
            self.metadata,
            Tree::Atom(self.metadata_updater_puzzle_hash@),
            self.inner_puzzle,
        ]
    }

    /// The puzzle of the layer.
    pub open spec fn puzzle(self, modules: Modules) -> Tree {
        curried(modules.nft_state_layer.program@, self.args(modules))
    }

    /// Reads the layer from a puzzle, with metadata of type `M`. `Ok(None)`
    /// where the puzzle is not the state layer module curried.
    pub open spec fn parse<M: FromClvm>(t: Tree, modules: Modules) -> Result<
        Option<NftStateLayerView>,
        DriverError,
    > {
        match uncurried(t) {
            None => Ok(None),
            Some((module, args)) => if module.tree_hash() != modules.nft_state_layer.hash {
                Ok(None)
            } else {
                match parse_curried_args(args, 4) {
                    Err(e) => Err(DriverError::FromClvm(e)),
                    Ok(a) => match parse_bytes32(a[0]) {
                        Err(e) => Err(DriverError::FromClvm(e)),
                        Ok(mod_hash) => match M::parsed(a[1]) {
                            Err(e) => Err(DriverError::FromClvm(e)),
                            Ok(metadata) => match parse_bytes32(a[2]) {
                                Err(e) => Err(DriverError::FromClvm(e)),
                                Ok(metadata_updater_puzzle_hash) => if mod_hash
                                    != modules.nft_state_layer.hash {
                                    Err(DriverError::LayerMismatch)
                                } else {
                                    Ok(
                                        Some(
                                            NftStateLayerView {
                                                metadata,
                                                metadata_updater_puzzle_hash,
                                                inner_puzzle: a[3],
                                            },
                                        ),
                                    )
                                },
                            },
                        },
                    },
                }
            },
        }
    }

    /// The solution of the layer as a VM value: the list of the inner solution.
    pub open spec fn solution(inner_solution: Tree) -> Tree {
        Tree::list(seq![inner_solution])
    }

    /// Reads the inner solution from a solution of the layer. What follows it
    /// is not looked at.
    pub open spec fn parse_solution(t: Tree) -> Result<Tree, FromClvmError> {
        match parse_fields(t, 1) {
            Err(e) => Err(e),
            Ok((f, _)) => Ok(f[0]),
        }
    }

    /// The hash of the puzzle is the one predicted from the hashes of the
    /// metadata and the inner puzzle.
    pub proof fn lemma_puzzle_hash(self, modules: Modules)
        requires
            modules.nft_state_layer.wf(),
        ensures
            self.puzzle(modules).tree_hash() == state_layer_puzzle_hash(
                modules,
                self.metadata.tree_hash(),
                self.metadata_updater_puzzle_hash,
                self.inner_puzzle.tree_hash(),
            ),
    {
        lemma_curry_hash(modules.nft_state_layer.program@, self.args(modules));
        reveal_with_fuel(Tree::tree_hash, 2);
        assert(tree_hashes(self.args(modules)) =~= seq![
            hash_atom(modules.nft_state_layer.hash@),
            self.metadata.tree_hash(),
            hash_atom(self.metadata_updater_puzzle_hash@),
            self.inner_puzzle.tree_hash(),
        ]);
    }

    /// The solution built around an inner solution gives it back.
    pub proof fn lemma_parse_solution(inner_solution: Tree)
        ensures
            NftStateLayerView::parse_solution(NftStateLayerView::solution(inner_solution)) == Ok::<
                Tree,
                FromClvmError,
            >(inner_solution),
    {
        lemma_parse_fields_list(seq![inner_solution], Tree::nil());
    }
}

/// The puzzle built from a layer is read back as that layer.
pub proof fn lemma_parse_state_layer<M: FromClvm>(
    metadata: M,
    metadata_updater_puzzle_hash: Bytes32,
    inner_puzzle: Tree,
    modules: Modules,
)
    requires
        modules.nft_state_layer.wf(),
    ensures
        ({
            let layer = NftStateLayerView {
                metadata: metadata.tree(),
                metadata_updater_puzzle_hash,
                inner_puzzle,
            };
            NftStateLayerView::parse::<M>(layer.puzzle(modules), modules) == Ok::<
                Option<NftStateLayerView>,
                DriverError,
            >(Some(layer))
        }),
{
    let layer = NftStateLayerView {
        metadata: metadata.tree(),
        metadata_updater_puzzle_hash,
        inner_puzzle,
    };
    let args = layer.args(modules);
    lemma_uncurry_curried(modules.nft_state_layer.program@, args);
    lemma_parse_curried_args(args);
    lemma_bytes32_of(modules.nft_state_layer.hash);
    lemma_bytes32_of(metadata_updater_puzzle_hash);
    metadata.lemma_round_trip();
}

/// Computes the hash of the state layer around an inner puzzle of the given
/// hash, with metadata of the given hash.
pub fn state_layer_curry_tree_hash(
    modules: &Modules,
    metadata_hash: Bytes32,
    metadata_updater_puzzle_hash: Bytes32,
    inner_puzzle_hash: Bytes32,
) -> (r: Bytes32)
    ensures
        r == state_layer_puzzle_hash(
            *modules,
            metadata_hash,
            metadata_updater_puzzle_hash,
            inner_puzzle_hash,
        ),
{
    let mut hashes: Vec<Bytes32> = Vec::new();
    hashes.push(tree_hash_atom(modules.nft_state_layer.hash.bytes.as_slice()));
    hashes.push(metadata_hash);
    hashes.push(tree_hash_atom(metadata_updater_puzzle_hash.bytes.as_slice()));
    hashes.push(inner_puzzle_hash);
    assert(hashes@ =~= seq![
        hash_atom(modules.nft_state_layer.hash@),
        metadata_hash,
        hash_atom(metadata_updater_puzzle_hash@),
        inner_puzzle_hash,
    ]);
    curry_tree_hash(modules.nft_state_layer.hash, &hashes)
}

impl<M: FromClvm> NftStateLayer<M> {
    /// A state layer around `inner_puzzle`.
    pub fn new(metadata: M, metadata_updater_puzzle_hash: Bytes32, inner_puzzle: Node) -> (r: Self)
        ensures
            r.metadata == metadata,
            r.metadata_updater_puzzle_hash == metadata_updater_puzzle_hash,
            r.inner_puzzle == inner_puzzle,
    {
        NftStateLayer { metadata, metadata_updater_puzzle_hash, inner_puzzle }
    }

    /// Builds the puzzle of the layer.
    pub fn construct_puzzle(&self, modules: &Modules) -> (r: Node)
        ensures
            r@ == self@.puzzle(*modules),
    {
        let mut args: Vec<Node> = Vec::new();
        args.push(Node::from_bytes32(&modules.nft_state_layer.hash));
        args.push(self.metadata.to_clvm());
        args.push(Node::from_bytes32(&self.metadata_updater_puzzle_hash));
        args.push(self.inner_puzzle.clone());
        assert(trees(args@) =~= self@.args(*modules));
        curry(&modules.nft_state_layer.program, &args)
    }

    /// Reads the layer from a puzzle.
    pub fn parse_puzzle(puzzle: &Node, modules: &Modules) -> (r: Result<Option<Self>, DriverError>)
        ensures
            match r {
                Ok(Some(layer)) => NftStateLayerView::parse::<M>(puzzle@, *modules) == Ok::<
                    Option<NftStateLayerView>,
                    DriverError,
                >(Some(layer@)),
                Ok(None) => NftStateLayerView::parse::<M>(puzzle@, *modules) == Ok::<
                    Option<NftStateLayerView>,
                    DriverError,
                >(None),
                Err(e) => NftStateLayerView::parse::<M>(puzzle@, *modules) == Err::<
                    Option<NftStateLayerView>,
                    DriverError,
                >(e),
            },
    {
        let (module, args) = match uncurry(puzzle) {
            None => {
                return Ok(None);
            },
            Some(x) => x,
        };
        if module.tree_hash() != modules.nft_state_layer.hash {
            return Ok(None);
        }
        let a = match curried_args_of(args, 4) {
            Err(e) => {
                return Err(DriverError::FromClvm(e));
            },
            Ok(a) => a,
        };
        assert(ref_trees(a@)[0] == a@[0]@);
        assert(ref_trees(a@)[1] == a@[1]@);
        assert(ref_trees(a@)[2] == a@[2]@);
        assert(ref_trees(a@)[3] == a@[3]@);
        let mod_hash = match a[0].as_bytes32() {
            Err(e) => {
                return Err(DriverError::FromClvm(e));
            },
            Ok(b) => b,
        };
        let metadata = match M::from_clvm(a[1]) {
            Err(e) => {
                return Err(DriverError::FromClvm(e));
            },
            Ok(m) => m,
        };
        let metadata_updater_puzzle_hash = match a[2].as_bytes32() {
            Err(e) => {
                return Err(DriverError::FromClvm(e));
            },
            Ok(b) => b,
        };
        if mod_hash != modules.nft_state_layer.hash {
            return Err(DriverError::LayerMismatch);
        }
        Ok(
            Some(
                NftStateLayer {
                    metadata,
                    metadata_updater_puzzle_hash,
                    inner_puzzle: a[3].clone(),
                },
            ),
        )
    }

    /// Builds the solution of the layer.
    pub fn construct_solution(solution: &NftStateLayerSolution<Node>) -> (r: Node)
        ensures
            r@ == NftStateLayerView::solution(solution.inner_solution@),
    {
        let mut items: Vec<Node> = Vec::new();
        items.push(solution.inner_solution.clone());
        assert(trees(items@) =~= seq![solution.inner_solution@]);
        Node::list(&items)
    }

    /// Reads the solution of the layer.
    pub fn parse_solution(solution: &Node) -> (r: Result<NftStateLayerSolution<Node>, FromClvmError>)
        ensures
            match r {
                Ok(s) => NftStateLayerView::parse_solution(solution@) == Ok::<Tree, FromClvmError>(
                    s.inner_solution@,
                ),
                Err(e) => NftStateLayerView::parse_solution(solution@) == Err::<
                    Tree,
                    FromClvmError,
                >(e),
            },
    {
        let (f, _tail) = match solution.fields(1) {
            Err(e) => {
                return Err(e);
            },
            Ok(x) => x,
        };
        assert(ref_trees(f@)[0] == f@[0]@);
        Ok(NftStateLayerSolution { inner_solution: f[0].clone() })
    }
}

} // verus!
