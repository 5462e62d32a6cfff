//! The puzzles that the writers and the oracles of a store reveal.
use vstd::prelude::*;
use crate::bytes::Bytes32;
use crate::codec::{
    lemma_bytes32_of, lemma_parse_fields_list, parse_bytes32, parse_list, parse_unsigned,
    ref_trees, uint_tree,
};
use crate::curry::{
    curried, curried_args_of, curry, lemma_parse_curried_args, lemma_uncurry_curried,
    parse_curried_args, uncurried, uncurry,
};
use crate::datalayer::DelegatedPuzzle;
use crate::error::{DriverError, FromClvmError};
use crate::layer::Layer;
use crate::modules::Modules;
use crate::node::{trees, Node, Tree};
use crate::number::lemma_decode_uint_atom;
use crate::spend_context::Spend;

verus! {

/// The writer's wrapper around a puzzle: it runs the puzzle and lets pass
/// what a writer may emit.
#[derive(Debug, Clone, PartialEq, Eq)]
pub struct WriterLayer {
    pub inner_puzzle: Node,
}

/// The mathematical value of a `WriterLayer`.
pub struct WriterLayerView {
    pub inner_puzzle: Tree,
}

impl View for WriterLayer {
    type V = WriterLayerView;

    open spec fn view(&self) -> WriterLayerView {
        WriterLayerView { inner_puzzle: self.inner_puzzle@ }
    }
}

/// The solution of the writer's wrapper: the solution of the puzzle inside.
#[derive(Debug, Clone, PartialEq, Eq)]
pub struct WriterLayerSolution {
    pub inner_solution: Node,
}

/// The mathematical value of a `WriterLayerSolution`.
pub struct WriterLayerSolutionView {
    pub inner_solution: Tree,
}

impl View for WriterLayerSolution {
    type V = WriterLayerSolutionView;

    open spec fn view(&self) -> WriterLayerSolutionView {
        WriterLayerSolutionView { inner_solution: self.inner_solution@ }
    }
}

/// The oracle puzzle: it pays the fee to a puzzle hash and has the store
/// announce itself. It takes no solution.
#[derive(Debug, Clone, Copy, PartialEq, Eq)]
pub struct OracleLayer {
    pub oracle_puzzle_hash: Bytes32,
    pub oracle_fee: u64,
}

impl View for OracleLayer {
    type V = OracleLayer;

    open spec fn view(&self) -> OracleLayer {
        *self
    }
}

impl WriterLayerView {
    /// The puzzle of the layer: the wrapper curried with the puzzle inside.
    pub open spec fn puzzle(self, modules: Modules) -> Tree {
        curried(modules.writer_filter.program@, seq![self.inner_puzzle])
    }

    /// The layer that a puzzle is: `Ok(None)` where the puzzle is not the
    /// wrapper curried.
    pub open spec fn parse(t: Tree, modules: Modules) -> Result<Option<WriterLayerView>, DriverError> {
        match uncurried(t) {
            None => Ok(None),
            Some((module, args)) => if module.tree_hash() != modules.writer_filter.hash {
                Ok(None)
            } else {
                match parse_curried_args(args, 1) {
                    Err(e) => Err(DriverError::FromClvm(e)),
                    Ok(a) => Ok(Some(WriterLayerView { inner_puzzle: a[0] })),
                }
            },
        }
    }

    /// The delegated puzzle that a store holds for the writer.
    pub open spec fn delegated(self) -> DelegatedPuzzle {
        DelegatedPuzzle::Writer(self.inner_puzzle.tree_hash())
    }

    /// The puzzle built from a layer is read back as that layer.
    pub proof fn lemma_parse_puzzle(self, modules: Modules)
        requires
            modules.writer_filter.wf(),
        ensures
            WriterLayerView::parse(self.puzzle(modules), modules) == Ok::<
                Option<WriterLayerView>,
                DriverError,
            >(Some(self)),
    {
        lemma_uncurry_curried(modules.writer_filter.program@, seq![self.inner_puzzle]);
        lemma_parse_curried_args(seq![self.inner_puzzle]);
    }
}

impl WriterLayerSolutionView {
    /// The solution as a VM value: `(inner_solution)`.
    pub open spec fn tree(self) -> Tree {
        Tree::list(seq![self.inner_solution])
    }

    /// Reads the solution from a VM value.
    pub open spec fn parse(t: Tree) -> Result<WriterLayerSolutionView, FromClvmError> {
        match parse_list(t, 1) {
            Err(e) => Err(e),
            Ok(f) => Ok(WriterLayerSolutionView { inner_solution: f[0] }),
        }
    }

    /// What is written is read back.
    pub proof fn lemma_round_trip(self)
        ensures
            WriterLayerSolutionView::parse(self.tree()) == Ok::<
                WriterLayerSolutionView,
                FromClvmError,
            >(self),
    {
        lemma_parse_fields_list(seq![self.inner_solution], Tree::nil());
    }
}

impl WriterLayer {
    /// The layer around `inner_puzzle`.
    pub fn new(inner_puzzle: Node) -> (r: Self)
        ensures
            r.inner_puzzle == inner_puzzle,
    {
        WriterLayer { inner_puzzle }
    }

    /// Builds the puzzle of the layer.
    pub fn construct_puzzle(&self, modules: &Modules) -> (r: Node)
        ensures
            r@ == self@.puzzle(*modules),
    {
        let mut args: Vec<Node> = Vec::new();
        args.push(self.inner_puzzle.clone());
        assert(trees(args@) =~= seq![self.inner_puzzle@]);
        curry(&modules.writer_filter.program, &args)
    }

    /// Reads the layer from a puzzle.
    pub fn parse_puzzle(puzzle: &Node, modules: &Modules) -> (r: Result<Option<Self>, DriverError>)
        ensures
            match r {
                Ok(Some(layer)) => WriterLayerView::parse(puzzle@, *modules) == Ok::<
                    Option<WriterLayerView>,
                    DriverError,
                >(Some(layer@)),
                Ok(None) => WriterLayerView::parse(puzzle@, *modules) == Ok::<
                    Option<WriterLayerView>,
                    DriverError,
                >(None),
                Err(e) => WriterLayerView::parse(puzzle@, *modules) == Err::<
                    Option<WriterLayerView>,
                    DriverError,
                >(e),
            },
    {
        let (module, args) = match uncurry(puzzle) {
            None => {
                return Ok(None);
            },
            Some(x) => x,
        };
        if module.tree_hash() != modules.writer_filter.hash {
            return Ok(None);
        }
        match curried_args_of(args, 1) {
            Err(e) => Err(DriverError::FromClvm(e)),
            Ok(a) => {
                assert(ref_trees(a@)[0] == a@[0]@);
                Ok(Some(WriterLayer { inner_puzzle: a[0].clone() }))
            },
        }
    }

    /// The delegated puzzle that a store holds for the writer.
    pub fn delegated_puzzle(&self) -> (r: DelegatedPuzzle)
        ensures
            r == self@.delegated(),
    {
        DelegatedPuzzle::Writer(self.inner_puzzle.tree_hash())
    }
}

impl WriterLayerSolution {
    /// Writes the solution as a VM node.
    pub fn to_clvm(&self) -> (r: Node)
        ensures
            r@ == self@.tree(),
    {
        let mut items: Vec<Node> = Vec::new();
        items.push(self.inner_solution.clone());
        assert(trees(items@) =~= seq![self.inner_solution@]);
        Node::list(&items)
    }

    /// Reads the solution from a VM node.
    pub fn from_clvm(node: &Node) -> (r: Result<Self, FromClvmError>)
        ensures
            match r {
                Ok(s) => WriterLayerSolutionView::parse(node@) == Ok::<
                    WriterLayerSolutionView,
                    FromClvmError,
                >(s@),
                Err(e) => WriterLayerSolutionView::parse(node@) == Err::<
                    WriterLayerSolutionView,
                    FromClvmError,
                >(e),
            },
    {
        match node.list_of(1) {
            Err(e) => Err(e),
            Ok(f) => {
                assert(ref_trees(f@)[0] == f@[0]@);
                Ok(WriterLayerSolution { inner_solution: f[0].clone() })
            },
        }
    }
}

impl OracleLayer {
    /// The puzzle of the layer: the oracle puzzle curried with the puzzle
    /// hash that is paid and the fee.
    pub open spec fn puzzle(self, modules: Modules) -> Tree {
        curried(
            modules.oracle.program@,
            seq![Tree::Atom(self.oracle_puzzle_hash@), uint_tree(self.oracle_fee as nat)],
        )
    }

    /// The layer that a puzzle is: `Ok(None)` where the puzzle is not the
    /// oracle puzzle curried.
    pub open spec fn parse(t: Tree, modules: Modules) -> Result<Option<OracleLayer>, DriverError> {
        match uncurried(t) {
            None => Ok(None),
            Some((module, args)) => if module.tree_hash() != modules.oracle.hash {
                Ok(None)
            } else {
                match parse_curried_args(args, 2) {
                    Err(e) => Err(DriverError::FromClvm(e)),
                    Ok(a) => match parse_bytes32(a[0]) {
                        Err(e) => Err(DriverError::FromClvm(e)),
                        Ok(oracle_puzzle_hash) => match parse_unsigned(a[1], 8) {
                            Err(e) => Err(DriverError::FromClvm(e)),
                            Ok(fee) => Ok(
                                Some(OracleLayer { oracle_puzzle_hash, oracle_fee: fee as u64 }),
                            ),
                        },
                    },
                }
            },
        }
    }

    /// The delegated puzzle that a store holds for the oracle.
    pub open spec fn delegated(self) -> DelegatedPuzzle {
        DelegatedPuzzle::Oracle(self.oracle_puzzle_hash, self.oracle_fee)
    }

    /// The puzzle built from a layer is read back as that layer.
    pub proof fn lemma_parse_puzzle(self, modules: Modules)
        requires
            modules.oracle.wf(),
        ensures
            OracleLayer::parse(self.puzzle(modules), modules) == Ok::<
                Option<OracleLayer>,
                DriverError,
            >(Some(self)),
    {
        let args = seq![Tree::Atom(self.oracle_puzzle_hash@), uint_tree(self.oracle_fee as nat)];
        lemma_uncurry_curried(modules.oracle.program@, args);
        lemma_parse_curried_args(args);
        lemma_bytes32_of(self.oracle_puzzle_hash);
        lemma_decode_uint_atom(self.oracle_fee);
    }

    /// The layer that pays `oracle_fee` to `oracle_puzzle_hash`.
    pub fn new(oracle_puzzle_hash: Bytes32, oracle_fee: u64) -> (r: Self)
        ensures
            r.oracle_puzzle_hash == oracle_puzzle_hash,
            r.oracle_fee == oracle_fee,
    {
        OracleLayer { oracle_puzzle_hash, oracle_fee }
    }

    /// Builds the puzzle of the layer.
    pub fn construct_puzzle(&self, modules: &Modules) -> (r: Node)
        ensures
            r@ == self.puzzle(*modules),
    {
        let mut args: Vec<Node> = Vec::new();
        args.push(Node::from_bytes32(&self.oracle_puzzle_hash));
        args.push(Node::from_u64(self.oracle_fee));
        assert(trees(args@) =~= seq![
            Tree::Atom(self.oracle_puzzle_hash@),
            uint_tree(self.oracle_fee as nat),
        ]);
        curry(&modules.oracle.program, &args)
    }

    /// Reads the layer from a puzzle.
    pub fn parse_puzzle(puzzle: &Node, modules: &Modules) -> (r: Result<Option<Self>, DriverError>)
        ensures
            r == OracleLayer::parse(puzzle@, *modules),
    {
        let (module, args) = match uncurry(puzzle) {
            None => {
                return Ok(None);
            },
            Some(x) => x,
        };
        if module.tree_hash() != modules.oracle.hash {
            return Ok(None);
        }
        let a = match curried_args_of(args, 2) {
            Err(e) => {
                return Err(DriverError::FromClvm(e));
            },
            Ok(a) => a,
        };
        assert(ref_trees(a@)[0] == a@[0]@);
        assert(ref_trees(a@)[1] == a@[1]@);
        let oracle_puzzle_hash = match a[0].as_bytes32() {
            Err(e) => {
                return Err(DriverError::FromClvm(e));
            },
            Ok(b) => b,
        };
        match a[1].as_u64() {
            Err(e) => Err(DriverError::FromClvm(e)),
            Ok(oracle_fee) => Ok(Some(OracleLayer { oracle_puzzle_hash, oracle_fee })),
        }
    }

    /// Builds the spend of the layer: its puzzle, which takes no solution.
    pub fn construct_spend(&self, modules: &Modules) -> (r: Spend)
        ensures
            r.puzzle@ == self.puzzle(*modules),
            r.solution@ == Tree::nil(),
    {
        Spend::new(self.construct_puzzle(modules), Node::nil())
    }

    /// The delegated puzzle that a store holds for the oracle.
    pub fn delegated_puzzle(&self) -> (r: DelegatedPuzzle)
        ensures
            r == self.delegated(),
    {
        DelegatedPuzzle::Oracle(self.oracle_puzzle_hash, self.oracle_fee)
    }
}

impl Layer for WriterLayer {
    type Solution = WriterLayerSolution;

    open spec fn module_hash(modules: Modules) -> Bytes32 {
        modules.writer_filter.hash
    }

    open spec fn puzzle_of(layer: WriterLayerView, modules: Modules) -> Tree {
        layer.puzzle(modules)
    }

    open spec fn parsed_puzzle(t: Tree, modules: Modules) -> Result<
        Option<WriterLayerView>,
        DriverError,
    > {
        WriterLayerView::parse(t, modules)
    }

    open spec fn solution_of(solution: WriterLayerSolutionView) -> Tree {
        solution.tree()
    }

    open spec fn parsed_solution(t: Tree) -> Result<WriterLayerSolutionView, FromClvmError> {
        WriterLayerSolutionView::parse(t)
    }

    fn parse_puzzle(puzzle: &Node, modules: &Modules) -> (r: Result<Option<Self>, DriverError>) {
        WriterLayer::parse_puzzle(puzzle, modules)
    }

    fn parse_solution(solution: &Node) -> (r: Result<WriterLayerSolution, FromClvmError>) {
        WriterLayerSolution::from_clvm(solution)
    }

    fn construct_puzzle(&self, modules: &Modules) -> (r: Node) {
        WriterLayer::construct_puzzle(self, modules)
    }

    fn construct_solution(solution: &WriterLayerSolution) -> (r: Node) {
        solution.to_clvm()
    }

    proof fn lemma_none_iff_other_module(t: Tree, modules: Modules) {
    }
}

impl Layer for OracleLayer {
    type Solution = ();

    open spec fn module_hash(modules: Modules) -> Bytes32 {
        modules.oracle.hash
    }

    open spec fn puzzle_of(layer: OracleLayer, modules: Modules) -> Tree {
        layer.puzzle(modules)
    }

    open spec fn parsed_puzzle(t: Tree, modules: Modules) -> Result<
        Option<OracleLayer>,
        DriverError,
    > {
        OracleLayer::parse(t, modules)
    }

    open spec fn solution_of(solution: ()) -> Tree {
        Tree::nil()
    }

    /// The oracle puzzle looks at no solution: every value is read as one.
    open spec fn parsed_solution(t: Tree) -> Result<(), FromClvmError> {
        Ok(())
    }

    fn parse_puzzle(puzzle: &Node, modules: &Modules) -> (r: Result<Option<Self>, DriverError>) {
        OracleLayer::parse_puzzle(puzzle, modules)
    }

    fn parse_solution(solution: &Node) -> (r: Result<(), FromClvmError>) {
        Ok(())
    }

    fn construct_puzzle(&self, modules: &Modules) -> (r: Node) {
        OracleLayer::construct_puzzle(self, modules)
    }

    fn construct_solution(solution: &()) -> (r: Node) {
        Node::nil()
    }

    proof fn lemma_none_iff_other_module(t: Tree, modules: Modules) {
    }
}

} // verus!
