//! What every puzzle layer can do.
use vstd::prelude::*;
use crate::bytes::Bytes32;
use crate::cat_layer::{CATLayer, CATLayerView, CatSolution};
use crate::curry::uncurried;
use crate::delegation_layer::{
    DelegationLayer, DelegationLayerSolution, DelegationLayerSolutionView,
};
use crate::error::{DriverError, FromClvmError};
use crate::codec::FromClvm;
use crate::modules::Modules;
use crate::node::{Node, Tree};
use crate::singleton_layer::{SingletonLayer, SingletonLayerView, SingletonSolution};
use crate::state_layer::{NftStateLayer, NftStateLayerSolution, NftStateLayerView};

verus! {

/// A puzzle layer: a module curried with parameters, which can be built from
/// its parameters and read back from a puzzle, with a solution that can be
/// written and read.
pub trait Layer: Sized + View {
    /// The solution of the layer.
    type Solution: View;

    /// The hash of the module of the layer.
    spec fn module_hash(modules: Modules) -> Bytes32;

    /// The puzzle of a layer.
    spec fn puzzle_of(layer: Self::V, modules: Modules) -> Tree;

    /// The layer that a puzzle is read as.
    spec fn parsed_puzzle(t: Tree, modules: Modules) -> Result<Option<Self::V>, DriverError>;

    /// A solution as a VM value.
    spec fn solution_of(solution: <Self::Solution as View>::V) -> Tree;

    /// The solution that a VM value is read as.
    spec fn parsed_solution(t: Tree) -> Result<<Self::Solution as View>::V, FromClvmError>;

    /// Reads the layer from a puzzle. `Ok(None)` where the puzzle is not the
    /// module of the layer curried.
    fn parse_puzzle(puzzle: &Node, modules: &Modules) -> (r: Result<Option<Self>, DriverError>)
        ensures
            match r {
                Ok(Some(layer)) => Self::parsed_puzzle(puzzle@, *modules) == Ok::<
                    Option<Self::V>,
                    DriverError,
                >(Some(layer@)),
                Ok(None) => Self::parsed_puzzle(puzzle@, *modules) == Ok::<
                    Option<Self::V>,
                    DriverError,
                >(None),
                Err(e) => Self::parsed_puzzle(puzzle@, *modules) == Err::<
                    Option<Self::V>,
                    DriverError,
                >(e),
            },
    ;

    /// Reads the solution of the layer.
    fn parse_solution(solution: &Node) -> (r: Result<Self::Solution, FromClvmError>)
        ensures
            match r {
                Ok(s) => Self::parsed_solution(solution@) == Ok::<
                    <Self::Solution as View>::V,
                    FromClvmError,
                >(s@),
                Err(e) => Self::parsed_solution(solution@) == Err::<
                    <Self::Solution as View>::V,
                    FromClvmError,
                >(e),
            },
    ;

    /// Builds the puzzle of the layer.
    fn construct_puzzle(&self, modules: &Modules) -> (r: Node)
        ensures
            r@ == Self::puzzle_of(self@, *modules),
    ;

    /// Builds a solution of the layer.
    fn construct_solution(solution: &Self::Solution) -> (r: Node)
        ensures
            r@ == Self::solution_of(solution@),
    ;

    /// A puzzle is read as no layer exactly when it is not the module of the
    /// layer curried.
    proof fn lemma_none_iff_other_module(t: Tree, modules: Modules)
        ensures
            Self::parsed_puzzle(t, modules) == Ok::<Option<Self::V>, DriverError>(None) <==> (
            match uncurried(t) {
                Some((module, _)) => module.tree_hash() != Self::module_hash(modules),
                None => true,
            }),
    ;
}

impl Layer for SingletonLayer {
    type Solution = SingletonSolution<Node>;

    open spec fn module_hash(modules: Modules) -> Bytes32 {
        modules.singleton_top_layer.hash
    }

    open spec fn puzzle_of(layer: SingletonLayerView, modules: Modules) -> Tree {
        layer.puzzle(modules)
    }

    open spec fn parsed_puzzle(t: Tree, modules: Modules) -> Result<
        Option<SingletonLayerView>,
        DriverError,
    > {
        SingletonLayerView::parse(t, modules)
    }

    open spec fn solution_of(solution: SingletonSolution<Tree>) -> Tree {
        solution.tree()
    }

    open spec fn parsed_solution(t: Tree) -> Result<SingletonSolution<Tree>, FromClvmError> {
        SingletonSolution::<Tree>::parse(t)
    }

    fn parse_puzzle(puzzle: &Node, modules: &Modules) -> (r: Result<Option<Self>, DriverError>) {
        SingletonLayer::parse_puzzle(puzzle, modules)
    }

    fn parse_solution(solution: &Node) -> (r: Result<SingletonSolution<Node>, FromClvmError>) {
        SingletonLayer::parse_solution(solution)
    }

    fn construct_puzzle(&self, modules: &Modules) -> (r: Node) {
        SingletonLayer::construct_puzzle(self, modules)
    }

    fn construct_solution(solution: &SingletonSolution<Node>) -> (r: Node) {
        SingletonLayer::construct_solution(solution)
    }

    proof fn lemma_none_iff_other_module(t: Tree, modules: Modules) {
    }
}

impl<M: FromClvm> Layer for NftStateLayer<M> {
    type Solution = NftStateLayerSolution<Node>;

    open spec fn module_hash(modules: Modules) -> Bytes32 {
        modules.nft_state_layer.hash
    }

    open spec fn puzzle_of(layer: NftStateLayerView, modules: Modules) -> Tree {
        layer.puzzle(modules)
    }

    open spec fn parsed_puzzle(t: Tree, modules: Modules) -> Result<
        Option<NftStateLayerView>,
        DriverError,
    > {
        NftStateLayerView::parse::<M>(t, modules)
    }

    open spec fn solution_of(solution: NftStateLayerSolution<Tree>) -> Tree {
        NftStateLayerView::solution(solution.inner_solution)
    }

    open spec fn parsed_solution(t: Tree) -> Result<NftStateLayerSolution<Tree>, FromClvmError> {
        match NftStateLayerView::parse_solution(t) {
            Ok(inner_solution) => Ok(NftStateLayerSolution { inner_solution }),
            Err(e) => Err(e),
        }
    }

    fn parse_puzzle(puzzle: &Node, modules: &Modules) -> (r: Result<Option<Self>, DriverError>) {
        NftStateLayer::<M>::parse_puzzle(puzzle, modules)
    }

    fn parse_solution(solution: &Node) -> (r: Result<NftStateLayerSolution<Node>, FromClvmError>) {
        NftStateLayer::<M>::parse_solution(solution)
    }

    fn construct_puzzle(&self, modules: &Modules) -> (r: Node) {
        NftStateLayer::<M>::construct_puzzle(self, modules)
    }

    fn construct_solution(solution: &NftStateLayerSolution<Node>) -> (r: Node) {
        NftStateLayer::<M>::construct_solution(solution)
    }

    proof fn lemma_none_iff_other_module(t: Tree, modules: Modules) {
    }
}

impl Layer for DelegationLayer {
    type Solution = DelegationLayerSolution<Node, Node>;

    open spec fn module_hash(modules: Modules) -> Bytes32 {
        modules.delegation_layer.hash
    }

    open spec fn puzzle_of(layer: DelegationLayer, modules: Modules) -> Tree {
        layer.puzzle(modules)
    }

    open spec fn parsed_puzzle(t: Tree, modules: Modules) -> Result<
        Option<DelegationLayer>,
        DriverError,
    > {
        DelegationLayer::parse(t, modules)
    }

    open spec fn solution_of(solution: DelegationLayerSolutionView) -> Tree {
        solution.tree()
    }

    open spec fn parsed_solution(t: Tree) -> Result<DelegationLayerSolutionView, FromClvmError> {
        DelegationLayerSolutionView::parse(t)
    }

    fn parse_puzzle(puzzle: &Node, modules: &Modules) -> (r: Result<Option<Self>, DriverError>) {
        DelegationLayer::parse_puzzle(puzzle, modules)
    }

    fn parse_solution(solution: &Node) -> (r: Result<
        DelegationLayerSolution<Node, Node>,
        FromClvmError,
    >) {
        DelegationLayerSolution::<Node, Node>::from_clvm(solution)
    }

    fn construct_puzzle(&self, modules: &Modules) -> (r: Node) {
        DelegationLayer::construct_puzzle(self, modules)
    }

    fn construct_solution(solution: &DelegationLayerSolution<Node, Node>) -> (r: Node) {
        solution.to_clvm()
    }

    proof fn lemma_none_iff_other_module(t: Tree, modules: Modules) {
    }
}

impl Layer for CATLayer<Node> {
    type Solution = CatSolution<Node>;

    open spec fn module_hash(modules: Modules) -> Bytes32 {
        modules.cat.hash
    }

    open spec fn puzzle_of(layer: CATLayerView, modules: Modules) -> Tree {
        layer.puzzle(modules)
    }

    open spec fn parsed_puzzle(t: Tree, modules: Modules) -> Result<
        Option<CATLayerView>,
        DriverError,
    > {
        CATLayerView::parse(t, modules)
    }

    open spec fn solution_of(solution: CatSolution<Tree>) -> Tree {
        solution.tree()
    }

    open spec fn parsed_solution(t: Tree) -> Result<CatSolution<Tree>, FromClvmError> {
        CatSolution::<Tree>::parse(t)
    }

    fn parse_puzzle(puzzle: &Node, modules: &Modules) -> (r: Result<Option<Self>, DriverError>) {
        CATLayer::<Node>::parse_puzzle(puzzle, modules)
    }

    fn parse_solution(solution: &Node) -> (r: Result<CatSolution<Node>, FromClvmError>) {
        CATLayer::<Node>::parse_solution(solution)
    }

    fn construct_puzzle(&self, modules: &Modules) -> (r: Node) {
        CATLayer::<Node>::construct_puzzle(self, modules)
    }

    fn construct_solution(solution: &CatSolution<Node>) -> (r: Node) {
        CATLayer::<Node>::construct_solution(solution)
    }

    proof fn lemma_none_iff_other_module(t: Tree, modules: Modules) {
    }
}

} // verus!
