//! The layers of an NFT below the state layer: the ownership layer and the
//! transfer program that pays royalties.
use vstd::prelude::*;
use crate::bytes::Bytes32;
use crate::codec::{
    lemma_bytes32_of, lemma_parse_fields_list, parse_bytes32, parse_fields, parse_opt_bytes32,
    parse_unsigned, ref_trees, uint_tree,
};
use crate::conditions::opt_hash_tree;
use crate::curry::{
    curried, curried_args_of, curry, lemma_parse_curried_args, lemma_uncurry_curried,
    parse_curried_args, uncurried, uncurry,
};
use crate::error::{DriverError, FromClvmError};
use crate::layer::Layer;
use crate::modules::Modules;
use crate::node::{trees, Node, Tree};
use crate::number::lemma_decode_uint_atom_u16;
use crate::singleton_layer::{parse_singleton_struct, singleton_struct};

verus! {

/// The layer that holds the owner of an NFT and the program that rules how
/// the NFT changes hands.
#[derive(Debug, Clone, PartialEq, Eq)]
pub struct NftOwnershipLayer {
    pub current_owner: Option<Bytes32>,
    pub transfer_program: Node,
    pub inner_puzzle: Node,
}

/// The mathematical value of an `NftOwnershipLayer`.
pub struct NftOwnershipLayerView {
    pub current_owner: Option<Bytes32>,
    pub transfer_program: Tree,
    pub inner_puzzle: Tree,
}

impl View for NftOwnershipLayer {
    type V = NftOwnershipLayerView;

    open spec fn view(&self) -> NftOwnershipLayerView {
        NftOwnershipLayerView {
            current_owner: self.current_owner,
            transfer_program: self.transfer_program@,
            inner_puzzle: self.inner_puzzle@,
        }
    }
}

/// The solution of the ownership layer.
#[derive(Debug, Clone, PartialEq, Eq)]
pub struct NftOwnershipLayerSolution<I> {
    pub inner_solution: I,
}

impl View for NftOwnershipLayerSolution<Node> {
    type V = NftOwnershipLayerSolution<Tree>;

    open spec fn view(&self) -> NftOwnershipLayerSolution<Tree> {
        NftOwnershipLayerSolution { inner_solution: self.inner_solution@ }
    }
}

impl NftOwnershipLayerView {
    /// The curried arguments of the layer.
    pub open spec fn args(self, modules: Modules) -> Seq<Tree> {
        seq![
            Tree::Atom(modules.nft_ownership_layer.hash@),
            opt_hash_tree(self.current_owner),
            self.transfer_program,
            self.inner_puzzle,
        ]
    }

    /// The puzzle of the layer.
    pub open spec fn puzzle(self, modules: Modules) -> Tree {
        curried(modules.nft_ownership_layer.program@, self.args(modules))
    }

    /// Reads the layer from a puzzle. `Ok(None)` where the puzzle is not the
    /// ownership module curried.
    pub open spec fn parse(t: Tree, modules: Modules) -> Result<
        Option<NftOwnershipLayerView>,
        DriverError,
    > {
        match uncurried(t) {
            None => Ok(None),
            Some((module, args)) => if module.tree_hash() != modules.nft_ownership_layer.hash {
                Ok(None)
            } else {
                match parse_curried_args(args, 4) {
                    Err(e) => Err(DriverError::FromClvm(e)),
                    Ok(a) => match parse_bytes32(a[0]) {
                        Err(e) => Err(DriverError::FromClvm(e)),
                        Ok(mod_hash) => match parse_opt_bytes32(a[1]) {
                            Err(e) => Err(DriverError::FromClvm(e)),
                            Ok(current_owner) => if mod_hash != modules.nft_ownership_layer.hash {
                                Err(DriverError::LayerMismatch)
                            } else {
                                Ok(
                                    Some(
                                        NftOwnershipLayerView {
                                            current_owner,
                                            transfer_program: a[2],
                                            inner_puzzle: a[3],
                                        },
                                    ),
                                )
                            },
                        },
                    },
                }
            },
        }
    }

    /// The puzzle built from a layer is read back as that layer.
    pub proof fn lemma_parse_puzzle(self, modules: Modules)
        requires
            modules.nft_ownership_layer.wf(),
        ensures
            NftOwnershipLayerView::parse(self.puzzle(modules), modules) == Ok::<
                Option<NftOwnershipLayerView>,
                DriverError,
            >(Some(self)),
    {
        let args = self.args(modules);
        lemma_uncurry_curried(modules.nft_ownership_layer.program@, args);
        lemma_parse_curried_args(args);
        lemma_bytes32_of(modules.nft_ownership_layer.hash);
        match self.current_owner {
            Some(o) => {
                lemma_bytes32_of(o);
                assert(o@.len() == 32);
            },
            None => {},
        }
    }
}

impl NftOwnershipLayerSolution<Tree> {
    /// The solution as a VM value: the list of the inner solution.
    pub open spec fn tree(self) -> Tree {
        Tree::list(seq![self.inner_solution])
    }

    /// Reads a solution from a VM value. What follows the inner solution is
    /// not looked at.
    pub open spec fn parse(t: Tree) -> Result<NftOwnershipLayerSolution<Tree>, FromClvmError> {
        match parse_fields(t, 1) {
            Err(e) => Err(e),
            Ok((f, _)) => Ok(NftOwnershipLayerSolution { inner_solution: f[0] }),
        }
    }
}

impl NftOwnershipLayer {
    /// An ownership layer around `inner_puzzle`.
    pub fn new(current_owner: Option<Bytes32>, transfer_program: Node, inner_puzzle: Node) -> (r:
        Self)
        ensures
            r.current_owner == current_owner,
            r.transfer_program == transfer_program,
            r.inner_puzzle == inner_puzzle,
    {
        NftOwnershipLayer { current_owner, transfer_program, inner_puzzle }
    }
}

impl Layer for NftOwnershipLayer {
    type Solution = NftOwnershipLayerSolution<Node>;

    open spec fn module_hash(modules: Modules) -> Bytes32 {
        modules.nft_ownership_layer.hash
    }

    open spec fn puzzle_of(layer: NftOwnershipLayerView, modules: Modules) -> Tree {
        layer.puzzle(modules)
    }

    open spec fn parsed_puzzle(t: Tree, modules: Modules) -> Result<
        Option<NftOwnershipLayerView>,
        DriverError,
    > {
        NftOwnershipLayerView::parse(t, modules)
    }

    open spec fn solution_of(solution: NftOwnershipLayerSolution<Tree>) -> Tree {
        solution.tree()
    }

    open spec fn parsed_solution(t: Tree) -> Result<NftOwnershipLayerSolution<Tree>, FromClvmError> {
        NftOwnershipLayerSolution::<Tree>::parse(t)
    }

    fn parse_puzzle(puzzle: &Node, modules: &Modules) -> (r: Result<Option<Self>, DriverError>) {
        let (module, args) = match uncurry(puzzle) {
            None => {
                return Ok(None);
            },
            Some(x) => x,
        };
        if module.tree_hash() != modules.nft_ownership_layer.hash {
            return Ok(None);
        }
        let a = match curried_args_of(args, 4) {
            Err(e) => {
                return Err(DriverError::FromClvm(e));
            },
            Ok(a) => a,
        };
        assert(ref_trees(a@)[0] == a@[0]@);
        assert(ref_trees(a@)[1] == a@[1]@);
        assert(ref_trees(a@)[2] == a@[2]@);
        assert(ref_trees(a@)[3] == a@[3]@);
        let mod_hash = match a[0].as_bytes32() {
            Err(e) => {
                return Err(DriverError::FromClvm(e));
            },
            Ok(b) => b,
        };
        let current_owner = match a[1].as_opt_bytes32() {
            Err(e) => {
                return Err(DriverError::FromClvm(e));
            },
            Ok(b) => b,
        };
        if mod_hash != modules.nft_ownership_layer.hash {
            return Err(DriverError::LayerMismatch);
        }
        Ok(
            Some(
                NftOwnershipLayer {
                    current_owner,
                    transfer_program: a[2].clone(),
                    inner_puzzle: a[3].clone(),
                },
            ),
        )
    }

    fn parse_solution(solution: &Node) -> (r: Result<
        NftOwnershipLayerSolution<Node>,
        FromClvmError,
    >) {
        let (f, _tail) = match solution.fields(1) {
            Err(e) => {
                return Err(e);
            },
            Ok(x) => x,
        };
        assert(ref_trees(f@)[0] == f@[0]@);
        Ok(NftOwnershipLayerSolution { inner_solution: f[0].clone() })
    }

    fn construct_puzzle(&self, modules: &Modules) -> (r: Node) {
        let owner = match &self.current_owner {
            Some(o) => Node::from_bytes32(o),
            None => Node::nil(),
        };
        let mut args: Vec<Node> = Vec::new();
        args.push(Node::from_bytes32(&modules.nft_ownership_layer.hash));
        args.push(owner);
        args.push(self.transfer_program.clone());
        args.push(self.inner_puzzle.clone());
        assert(trees(args@) =~= self@.args(*modules));
        curry(&modules.nft_ownership_layer.program, &args)
    }

    fn construct_solution(solution: &NftOwnershipLayerSolution<Node>) -> (r: Node) {
        let mut items: Vec<Node> = Vec::new();
        items.push(solution.inner_solution.clone());
        assert(trees(items@) =~= seq![solution.inner_solution@]);
        Node::list(&items)
    }

    proof fn lemma_none_iff_other_module(t: Tree, modules: Modules) {
    }
}

/// The transfer program that pays royalties: its parameters.
#[derive(Debug, Clone, Copy, PartialEq, Eq)]
pub struct RoyaltyTransferLayer {
    pub launcher_id: Bytes32,
    pub royalty_puzzle_hash: Bytes32,
    pub royalty_ten_thousandths: u16,
}

impl RoyaltyTransferLayer {
    /// The curried arguments of the program.
    pub open spec fn args(self, modules: Modules) -> Seq<Tree> {
        seq![
            singleton_struct(
                modules.singleton_top_layer.hash,
                self.launcher_id,
                modules.singleton_launcher.hash,
            ),
            Tree::Atom(self.royalty_puzzle_hash@),
            uint_tree(self.royalty_ten_thousandths as nat),
        ]
    }

    /// The program.
    pub open spec fn puzzle(self, modules: Modules) -> Tree {
        curried(modules.nft_royalty_transfer.program@, self.args(modules))
    }

    /// Reads the parameters from a program. `Ok(None)` where the program is
    /// not the royalty module curried.
    pub open spec fn parse(t: Tree, modules: Modules) -> Result<
        Option<RoyaltyTransferLayer>,
        DriverError,
    > {
        match uncurried(t) {
            None => Ok(None),
            Some((module, args)) => if module.tree_hash() != modules.nft_royalty_transfer.hash {
                Ok(None)
            } else {
                match parse_curried_args(args, 3) {
                    Err(e) => Err(DriverError::FromClvm(e)),
                    Ok(a) => match parse_singleton_struct(a[0]) {
                        Err(e) => Err(DriverError::FromClvm(e)),
                        Ok((mod_hash, launcher_id, launcher_hash)) => match parse_bytes32(a[1]) {
                            Err(e) => Err(DriverError::FromClvm(e)),
                            Ok(royalty_puzzle_hash) => match parse_unsigned(a[2], 2) {
                                Err(e) => Err(DriverError::FromClvm(e)),
                                Ok(royalty) => if mod_hash != modules.singleton_top_layer.hash
                                    || launcher_hash != modules.singleton_launcher.hash {
                                    Err(DriverError::LayerMismatch)
                                } else {
                                    Ok(
                                        Some(
                                            RoyaltyTransferLayer {
                                                launcher_id,
                                                royalty_puzzle_hash,
                                                royalty_ten_thousandths: royalty as u16,
                                            },
                                        ),
                                    )
                                },
                            },
                        },
                    },
                }
            },
        }
    }

    /// The program built from parameters is read back as those parameters.
    pub proof fn lemma_parse_puzzle(self, modules: Modules)
        requires
            modules.nft_royalty_transfer.wf(),
        ensures
            RoyaltyTransferLayer::parse(self.puzzle(modules), modules) == Ok::<
                Option<RoyaltyTransferLayer>,
                DriverError,
            >(Some(self)),
    {
        let args = self.args(modules);
        lemma_uncurry_curried(modules.nft_royalty_transfer.program@, args);
        lemma_parse_curried_args(args);
        lemma_bytes32_of(modules.singleton_top_layer.hash);
        lemma_bytes32_of(modules.singleton_launcher.hash);
        lemma_bytes32_of(self.launcher_id);
        lemma_bytes32_of(self.royalty_puzzle_hash);
        lemma_decode_uint_atom_u16(self.royalty_ten_thousandths);
        let f = seq![Tree::Atom(modules.singleton_top_layer.hash@), Tree::Atom(self.launcher_id@)];
        lemma_parse_fields_list(f, Tree::Atom(modules.singleton_launcher.hash@));
        reveal_with_fuel(Tree::list_with_tail, 3);
        assert(f.drop_first() =~= seq![Tree::Atom(self.launcher_id@)]);
        assert(f.drop_first().drop_first() =~= Seq::<Tree>::empty());
        assert(Tree::list_with_tail(f, Tree::Atom(modules.singleton_launcher.hash@)) == args[0]);
    }

    /// A transfer program with the given parameters.
    pub fn new(launcher_id: Bytes32, royalty_puzzle_hash: Bytes32, royalty_ten_thousandths: u16) -> (r:
        Self)
        ensures
            r == (RoyaltyTransferLayer {
                launcher_id,
                royalty_puzzle_hash,
                royalty_ten_thousandths,
            }),
    {
        RoyaltyTransferLayer { launcher_id, royalty_puzzle_hash, royalty_ten_thousandths }
    }

    /// Builds the program.
    pub fn construct_puzzle(&self, modules: &Modules) -> (r: Node)
        ensures
            r@ == self.puzzle(*modules),
    {
        let structure = Node::pair(
            Node::from_bytes32(&modules.singleton_top_layer.hash),
            Node::pair(
                Node::from_bytes32(&self.launcher_id),
                Node::from_bytes32(&modules.singleton_launcher.hash),
            ),
        );
        let mut args: Vec<Node> = Vec::new();
        args.push(structure);
        args.push(Node::from_bytes32(&self.royalty_puzzle_hash));
        args.push(Node::from_u64(self.royalty_ten_thousandths as u64));
        assert(trees(args@) =~= self.args(*modules));
        curry(&modules.nft_royalty_transfer.program, &args)
    }

    /// Reads the parameters from a program.
    pub fn parse_puzzle(puzzle: &Node, modules: &Modules) -> (r: Result<Option<Self>, DriverError>)
        ensures
            r == RoyaltyTransferLayer::parse(puzzle@, *modules),
    {
        let (module, args) = match uncurry(puzzle) {
            None => {
                return Ok(None);
            },
            Some(x) => x,
        };
        if module.tree_hash() != modules.nft_royalty_transfer.hash {
            return Ok(None);
        }
        let a = match curried_args_of(args, 3) {
            Err(e) => {
                return Err(DriverError::FromClvm(e));
            },
            Ok(a) => a,
        };
        assert(ref_trees(a@)[0] == a@[0]@);
        assert(ref_trees(a@)[1] == a@[1]@);
        assert(ref_trees(a@)[2] == a@[2]@);
        let (f, tail) = match a[0].fields(2) {
            Err(e) => {
                return Err(DriverError::FromClvm(e));
            },
            Ok(x) => x,
        };
        assert(ref_trees(f@)[0] == f@[0]@);
        assert(ref_trees(f@)[1] == f@[1]@);
        let mod_hash = match f[0].as_bytes32() {
            Err(e) => {
                return Err(DriverError::FromClvm(e));
            },
            Ok(b) => b,
        };
        let launcher_id = match f[1].as_bytes32() {
            Err(e) => {
                return Err(DriverError::FromClvm(e));
            },
            Ok(b) => b,
        };
        let launcher_hash = match tail.as_bytes32() {
            Err(e) => {
                return Err(DriverError::FromClvm(e));
            },
            Ok(b) => b,
        };
        let royalty_puzzle_hash = match a[1].as_bytes32() {
            Err(e) => {
                return Err(DriverError::FromClvm(e));
            },
            Ok(b) => b,
        };
        let royalty_ten_thousandths = match a[2].as_u16() {
            Err(e) => {
                return Err(DriverError::FromClvm(e));
            },
            Ok(v) => v,
        };
        if mod_hash != modules.singleton_top_layer.hash || launcher_hash
            != modules.singleton_launcher.hash {
            return Err(DriverError::LayerMismatch);
        }
        Ok(Some(RoyaltyTransferLayer { launcher_id, royalty_puzzle_hash, royalty_ten_thousandths }))
    }
}

} // verus!
