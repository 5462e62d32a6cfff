//! The NFT primitive: a singleton that holds metadata and an owner under a
//! royalty rule.
use vstd::prelude::*;
use crate::bytes::Bytes32;
use crate::codec::{uint_tree, FromClvm, ToClvm};
use crate::coin::{coin_id_of, Coin, CoinSpend, LineageProof, Proof};
use crate::conditions::opt_hash_tree;
use crate::curry::{curried, curry, curry_tree_hash, lemma_curry_hash, tree_hashes};
use crate::error::DriverError;
use crate::layer::Layer;
use crate::modules::Modules;
use crate::nft_layers::{NftOwnershipLayer, NftOwnershipLayerView, RoyaltyTransferLayer};
use crate::node::{hash_atom, hash_pair, tree_hash_atom, tree_hash_pair, trees, Node, Tree};
use crate::number::{encode_u64, uint_atom};
use crate::singleton_layer::{
    layer_hash, singleton_curry_tree_hash, singleton_puzzle_hash, singleton_struct,
    SingletonLayer, SingletonLayerView, SingletonSolution,
};
use crate::spend_context::{Spend, SpendContext};
use crate::state_layer::{
    lemma_parse_state_layer, state_layer_curry_tree_hash, state_layer_puzzle_hash, NftStateLayer,
    NftStateLayerView,
};
use crate::vm::{deserialized, serialized};

verus! {

/// What an NFT is, apart from the coin that holds it.
#[derive(Debug, Clone, PartialEq, Eq)]
pub struct NftInfo<M> {
    pub launcher_id: Bytes32,
    pub metadata: M,
    pub metadata_updater_puzzle_hash: Bytes32,
    pub current_owner: Option<Bytes32>,
    pub royalty_puzzle_hash: Bytes32,
    pub royalty_ten_thousandths: u16,
    pub p2_puzzle_hash: Bytes32,
}

/// The mathematical value of an `NftInfo`. The metadata stands as the VM
/// value that the NFT commits to.
pub struct NftInfoView {
    pub launcher_id: Bytes32,
    pub metadata: Tree,
    pub metadata_updater_puzzle_hash: Bytes32,
    pub current_owner: Option<Bytes32>,
    pub royalty_puzzle_hash: Bytes32,
    pub royalty_ten_thousandths: u16,
    pub p2_puzzle_hash: Bytes32,
}

impl<M: ToClvm> View for NftInfo<M> {
    type V = NftInfoView;

    open spec fn view(&self) -> NftInfoView {
        NftInfoView {
            launcher_id: self.launcher_id,
            metadata: self.metadata.tree(),
            metadata_updater_puzzle_hash: self.metadata_updater_puzzle_hash,
            current_owner: self.current_owner,
            royalty_puzzle_hash: self.royalty_puzzle_hash,
            royalty_ten_thousandths: self.royalty_ten_thousandths,
            p2_puzzle_hash: self.p2_puzzle_hash,
        }
    }
}

/// Everything that is required to spend an NFT coin.
#[derive(Debug, Clone, PartialEq, Eq)]
pub struct Nft<M> {
    pub coin: Coin,
    pub proof: Proof,
    pub info: NftInfo<M>,
}

/// The mathematical value of an `Nft`.
pub struct NftView {
    pub coin: Coin,
    pub proof: Proof,
    pub info: NftInfoView,
}

impl<M: ToClvm> View for Nft<M> {
    type V = NftView;

    open spec fn view(&self) -> NftView {
        NftView { coin: self.coin, proof: self.proof, info: self.info@ }
    }
}

/// The bytes of an owner or of none.
pub open spec fn owner_bytes(owner: Option<Bytes32>) -> Seq<u8> {
    match owner {
        Some(o) => o@,
        None => Seq::empty(),
    }
}

impl NftInfoView {
    /// The curried arguments of the transfer program.
    pub open spec fn transfer_program_args(self, modules: Modules) -> Seq<Tree> {
        seq![
            singleton_struct(
                modules.singleton_top_layer.hash,
                self.launcher_id,
                modules.singleton_launcher.hash,
            ),
            Tree::Atom(self.royalty_puzzle_hash@),
            uint_tree(self.royalty_ten_thousandths as nat),
        ]
    }

    /// The transfer program: the royalty rule of this NFT.
    pub open spec fn transfer_program(self, modules: Modules) -> Tree {
        curried(modules.nft_royalty_transfer.program@, self.transfer_program_args(modules))
    }

    /// The hash of the transfer program.
    pub open spec fn transfer_program_hash(self, modules: Modules) -> Bytes32 {
        layer_hash(
            modules.nft_royalty_transfer.hash,
            seq![
                hash_pair(
                    hash_atom(modules.singleton_top_layer.hash@),
                    hash_pair(
                        hash_atom(self.launcher_id@),
                        hash_atom(modules.singleton_launcher.hash@),
                    ),
                ),
                hash_atom(self.royalty_puzzle_hash@),
                hash_atom(uint_atom(self.royalty_ten_thousandths as nat)),
            ],
        )
    }

    /// The curried arguments of the ownership layer around `p2_puzzle`.
    pub open spec fn ownership_args(self, p2_puzzle: Tree, modules: Modules) -> Seq<Tree> {
        seq![
            Tree::Atom(modules.nft_ownership_layer.hash@),
            opt_hash_tree(self.current_owner),
            self.transfer_program(modules),
            p2_puzzle,
        ]
    }

    /// The ownership layer around `p2_puzzle`.
    pub open spec fn ownership_layer(self, p2_puzzle: Tree, modules: Modules) -> Tree {
        curried(modules.nft_ownership_layer.program@, self.ownership_args(p2_puzzle, modules))
    }

    /// The hash of the ownership layer around the owner's puzzle.
    pub open spec fn ownership_layer_hash(self, modules: Modules) -> Bytes32 {
        layer_hash(
            modules.nft_ownership_layer.hash,
            seq![
                hash_atom(modules.nft_ownership_layer.hash@),
                hash_atom(owner_bytes(self.current_owner)),
                self.transfer_program_hash(modules),
                self.p2_puzzle_hash,
            ],
        )
    }

    /// The hash of the puzzle inside the singleton layer: the state layer
    /// around the ownership layer.
    pub open spec fn inner_puzzle_hash(self, modules: Modules) -> Bytes32 {
        state_layer_puzzle_hash(
            modules,
            self.metadata.tree_hash(),
            self.metadata_updater_puzzle_hash,
            self.ownership_layer_hash(modules),
        )
    }

    /// The hash of the puzzle of the coin.
    pub open spec fn puzzle_hash(self, modules: Modules) -> Bytes32 {
        singleton_puzzle_hash(modules, self.launcher_id, self.inner_puzzle_hash(modules))
    }

    /// The state layer around the ownership layer around `p2_puzzle`.
    pub open spec fn state_layer(self, p2_puzzle: Tree, modules: Modules) -> NftStateLayerView {
        NftStateLayerView {
            metadata: self.metadata,
            metadata_updater_puzzle_hash: self.metadata_updater_puzzle_hash,
            inner_puzzle: self.ownership_layer(p2_puzzle, modules),
        }
    }

    /// The puzzle that is revealed when the NFT is spent with `p2_puzzle`.
    pub open spec fn puzzle(self, p2_puzzle: Tree, modules: Modules) -> Tree {
        (SingletonLayerView {
            launcher_id: self.launcher_id,
            inner_puzzle: self.state_layer(p2_puzzle, modules).puzzle(modules),
        }).puzzle(modules)
    }

    /// The puzzle of an NFT hashes to the puzzle hash predicted from its
    /// info, where the puzzle that is run is the owner's.
    pub proof fn lemma_puzzle_hash(self, p2_puzzle: Tree, modules: Modules)
        requires
            modules.wf(),
            p2_puzzle.tree_hash() == self.p2_puzzle_hash,
        ensures
            self.puzzle(p2_puzzle, modules).tree_hash() == self.puzzle_hash(modules),
    {
        (SingletonLayerView {
            launcher_id: self.launcher_id,
            inner_puzzle: self.state_layer(p2_puzzle, modules).puzzle(modules),
        }).lemma_puzzle_hash(modules);
        self.state_layer(p2_puzzle, modules).lemma_puzzle_hash(modules);
        lemma_curry_hash(
            modules.nft_ownership_layer.program@,
            self.ownership_args(p2_puzzle, modules),
        );
        lemma_curry_hash(
            modules.nft_royalty_transfer.program@,
            self.transfer_program_args(modules),
        );
        reveal_with_fuel(Tree::tree_hash, 4);
        assert(tree_hashes(self.transfer_program_args(modules)) =~= seq![
            hash_pair(
                hash_atom(modules.singleton_top_layer.hash@),
                hash_pair(
                    hash_atom(self.launcher_id@),
                    hash_atom(modules.singleton_launcher.hash@),
                ),
            ),
            hash_atom(self.royalty_puzzle_hash@),
            hash_atom(uint_atom(self.royalty_ten_thousandths as nat)),
        ]);
        assert(tree_hashes(self.ownership_args(p2_puzzle, modules)) =~= seq![
            hash_atom(modules.nft_ownership_layer.hash@),
            hash_atom(owner_bytes(self.current_owner)),
            self.transfer_program_hash(modules),
            self.p2_puzzle_hash,
        ]);
    }
}

impl NftInfoView {
    /// The royalty rule of the NFT.
    pub open spec fn royalty_layer(self) -> RoyaltyTransferLayer {
        RoyaltyTransferLayer {
            launcher_id: self.launcher_id,
            royalty_puzzle_hash: self.royalty_puzzle_hash,
            royalty_ten_thousandths: self.royalty_ten_thousandths,
        }
    }

    /// Reads an NFT from its puzzle, with metadata of type `M`: the info and
    /// the owner's puzzle. `Ok(None)` where the puzzle is not an ownership
    /// layer with a royalty rule inside a state layer inside a singleton
    /// layer. A royalty rule for another singleton is a mismatch.
    pub open spec fn parse<M: FromClvm>(t: Tree, modules: Modules) -> Result<
        Option<(NftInfoView, Tree)>,
        DriverError,
    > {
        match SingletonLayerView::parse(t, modules) {
            Err(e) => Err(e),
            Ok(None) => Ok(None),
            Ok(Some(singleton)) => match NftStateLayerView::parse::<M>(
                singleton.inner_puzzle,
                modules,
            ) {
                Err(e) => Err(e),
                Ok(None) => Ok(None),
                Ok(Some(state)) => match NftOwnershipLayerView::parse(state.inner_puzzle, modules) {
                    Err(e) => Err(e),
                    Ok(None) => Ok(None),
                    Ok(Some(ownership)) => match RoyaltyTransferLayer::parse(
                        ownership.transfer_program,
                        modules,
                    ) {
                        Err(e) => Err(e),
                        Ok(None) => Ok(None),
                        Ok(Some(royalty)) => if royalty.launcher_id != singleton.launcher_id {
                            Err(DriverError::LayerMismatch)
                        } else {
                            Ok(
                                Some(
                                    (
                                        NftInfoView {
                                            launcher_id: singleton.launcher_id,
                                            metadata: state.metadata,
                                            metadata_updater_puzzle_hash: state.metadata_updater_puzzle_hash,
                                            current_owner: ownership.current_owner,
                                            royalty_puzzle_hash: royalty.royalty_puzzle_hash,
                                            royalty_ten_thousandths: royalty.royalty_ten_thousandths,
                                            p2_puzzle_hash: ownership.inner_puzzle.tree_hash(),
                                        },
                                        ownership.inner_puzzle,
                                    ),
                                ),
                            )
                        },
                    },
                },
            },
        }
    }
}

/// The puzzle built from the info of an NFT is read back as that info and the
/// owner's puzzle, where the puzzle that was built around is the owner's.
pub proof fn lemma_parse_nft<M: FromClvm>(info: NftInfo<M>, p2_puzzle: Tree, modules: Modules)
    requires
        modules.wf(),
        p2_puzzle.tree_hash() == info.p2_puzzle_hash,
    ensures
        NftInfoView::parse::<M>(info@.puzzle(p2_puzzle, modules), modules) == Ok::<
            Option<(NftInfoView, Tree)>,
            DriverError,
        >(Some((info@, p2_puzzle))),
{
    let view = info@;
    let royalty = view.royalty_layer();
    let ownership = NftOwnershipLayerView {
        current_owner: view.current_owner,
        transfer_program: view.transfer_program(modules),
        inner_puzzle: p2_puzzle,
    };
    assert(royalty.puzzle(modules) == view.transfer_program(modules));
    assert(ownership.puzzle(modules) == view.ownership_layer(p2_puzzle, modules));
    royalty.lemma_parse_puzzle(modules);
    ownership.lemma_parse_puzzle(modules);
    lemma_parse_state_layer::<M>(
        info.metadata,
        info.metadata_updater_puzzle_hash,
        view.ownership_layer(p2_puzzle, modules),
        modules,
    );
    (SingletonLayerView {
        launcher_id: view.launcher_id,
        inner_puzzle: view.state_layer(p2_puzzle, modules).puzzle(modules),
    }).lemma_parse_puzzle(modules);
}

impl<M: FromClvm> NftInfo<M> {
    /// Reads an NFT from its puzzle: the info and the owner's puzzle.
    pub fn parse_puzzle(puzzle: &Node, modules: &Modules) -> (r: Result<
        Option<(NftInfo<M>, Node)>,
        DriverError,
    >)
        ensures
            match r {
                Ok(Some((info, p2_puzzle))) => NftInfoView::parse::<M>(puzzle@, *modules) == Ok::<
                    Option<(NftInfoView, Tree)>,
                    DriverError,
                >(Some((info@, p2_puzzle@))),
                Ok(None) => NftInfoView::parse::<M>(puzzle@, *modules) == Ok::<
                    Option<(NftInfoView, Tree)>,
                    DriverError,
                >(None),
                Err(e) => NftInfoView::parse::<M>(puzzle@, *modules) == Err::<
                    Option<(NftInfoView, Tree)>,
                    DriverError,
                >(e),
            },
    {
        let singleton = match SingletonLayer::parse_puzzle(puzzle, modules) {
            Err(e) => {
                return Err(e);
            },
            Ok(None) => {
                return Ok(None);
            },
            Ok(Some(l)) => l,
        };
        let state = match NftStateLayer::<M>::parse_puzzle(&singleton.inner_puzzle, modules) {
            Err(e) => {
                return Err(e);
            },
            Ok(None) => {
                return Ok(None);
            },
            Ok(Some(l)) => l,
        };
        let ownership = match <NftOwnershipLayer as Layer>::parse_puzzle(
            &state.inner_puzzle,
            modules,
        ) {
            Err(e) => {
                return Err(e);
            },
            Ok(None) => {
                return Ok(None);
            },
            Ok(Some(l)) => l,
        };
        let royalty = match RoyaltyTransferLayer::parse_puzzle(&ownership.transfer_program, modules) {
            Err(e) => {
                return Err(e);
            },
            Ok(None) => {
                return Ok(None);
            },
            Ok(Some(l)) => l,
        };
        if royalty.launcher_id != singleton.launcher_id {
            return Err(DriverError::LayerMismatch);
        }
        let p2_puzzle_hash = ownership.inner_puzzle.tree_hash();
        Ok(
            Some(
                (
                    NftInfo {
                        launcher_id: singleton.launcher_id,
                        metadata: state.metadata,
                        metadata_updater_puzzle_hash: state.metadata_updater_puzzle_hash,
                        current_owner: ownership.current_owner,
                        royalty_puzzle_hash: royalty.royalty_puzzle_hash,
                        royalty_ten_thousandths: royalty.royalty_ten_thousandths,
                        p2_puzzle_hash,
                    },
                    ownership.inner_puzzle,
                ),
            ),
        )
    }
}

impl NftView {
    /// The solution with which the NFT is spent: the inner solution inside
    /// the solutions of the ownership, state and singleton layers.
    pub open spec fn solution(self, inner_solution: Tree) -> Tree {
        (SingletonSolution::<Tree> {
            lineage_proof: self.proof,
            amount: self.coin.amount,
            inner_solution: Tree::list(seq![Tree::list(seq![inner_solution])]),
        }).tree()
    }

    /// The NFT that the spend of this one creates for the puzzle hash
    /// `p2_puzzle_hash`, with a new owner where `new_owner` names one.
    pub open spec fn child(
        self,
        p2_puzzle_hash: Bytes32,
        new_owner: Option<Option<Bytes32>>,
        modules: Modules,
    ) -> NftView {
        let info = NftInfoView {
            p2_puzzle_hash,
            current_owner: match new_owner {
                Some(owner) => owner,
                None => self.info.current_owner,
            },
            ..self.info
        };
        NftView {
            coin: Coin {
                parent_coin_info: coin_id_of(self.coin),
                puzzle_hash: info.puzzle_hash(modules),
                amount: self.coin.amount,
            },
            proof: Proof::Lineage(
                LineageProof {
                    parent_parent_coin_info: self.coin.parent_coin_info,
                    parent_inner_puzzle_hash: self.info.inner_puzzle_hash(modules),
                    parent_amount: self.coin.amount,
                },
            ),
            info,
        }
    }
}

/// Builds the list of one node.
fn list1(a: Node) -> (r: Node)
    ensures
        r@ == Tree::list(seq![a@]),
{
    let mut items: Vec<Node> = Vec::new();
    items.push(a);
    assert(trees(items@) =~= seq![a@]);
    Node::list(&items)
}

impl<M: ToClvm> NftInfo<M> {
    /// An `NftInfo` with the given fields.
    pub fn new(
        launcher_id: Bytes32,
        metadata: M,
        metadata_updater_puzzle_hash: Bytes32,
        current_owner: Option<Bytes32>,
        royalty_puzzle_hash: Bytes32,
        royalty_ten_thousandths: u16,
        p2_puzzle_hash: Bytes32,
    ) -> (r: Self)
        ensures
            r == (NftInfo {
                launcher_id,
                metadata,
                metadata_updater_puzzle_hash,
                current_owner,
                royalty_puzzle_hash,
                royalty_ten_thousandths,
                p2_puzzle_hash,
            }),
    {
        NftInfo {
            launcher_id,
            metadata,
            metadata_updater_puzzle_hash,
            current_owner,
            royalty_puzzle_hash,
            royalty_ten_thousandths,
            p2_puzzle_hash,
        }
    }

    /// The hash of the singleton's first curried argument.
    fn singleton_struct_hash(&self, modules: &Modules) -> (r: Bytes32)
        ensures
            r == hash_pair(
                hash_atom(modules.singleton_top_layer.hash@),
                hash_pair(
                    hash_atom(self.launcher_id@),
                    hash_atom(modules.singleton_launcher.hash@),
                ),
            ),
    {
        tree_hash_pair(
            tree_hash_atom(modules.singleton_top_layer.hash.bytes.as_slice()),
            tree_hash_pair(
                tree_hash_atom(self.launcher_id.bytes.as_slice()),
                tree_hash_atom(modules.singleton_launcher.hash.bytes.as_slice()),
            ),
        )
    }

    /// The hash of the transfer program.
    pub fn transfer_program_hash(&self, modules: &Modules) -> (r: Bytes32)
        ensures
            r == self@.transfer_program_hash(*modules),
    {
        let mut hashes: Vec<Bytes32> = Vec::new();
        hashes.push(self.singleton_struct_hash(modules));
        hashes.push(tree_hash_atom(self.royalty_puzzle_hash.bytes.as_slice()));
        let royalty = encode_u64(self.royalty_ten_thousandths as u64);
        hashes.push(tree_hash_atom(royalty.as_slice()));
        assert(hashes@ =~= seq![
            hash_pair(
                hash_atom(modules.singleton_top_layer.hash@),
                hash_pair(
                    hash_atom(self.launcher_id@),
                    hash_atom(modules.singleton_launcher.hash@),
                ),
            ),
            hash_atom(self.royalty_puzzle_hash@),
            hash_atom(uint_atom(self.royalty_ten_thousandths as nat)),
        ]);
        curry_tree_hash(modules.nft_royalty_transfer.hash, &hashes)
    }

    /// The hash of the puzzle inside the singleton layer.
    pub fn inner_puzzle_hash(&self, modules: &Modules) -> (r: Bytes32)
        ensures
            r == self@.inner_puzzle_hash(*modules),
    {
        let owner = match &self.current_owner {
            Some(o) => tree_hash_atom(o.bytes.as_slice()),
            None => {
                let nil: Vec<u8> = Vec::new();
                assert(nil@ =~= Seq::<u8>::empty());
                tree_hash_atom(nil.as_slice())
            },
        };
        let mut hashes: Vec<Bytes32> = Vec::new();
        hashes.push(tree_hash_atom(modules.nft_ownership_layer.hash.bytes.as_slice()));
        hashes.push(owner);
        hashes.push(self.transfer_program_hash(modules));
        hashes.push(self.p2_puzzle_hash);
        assert(hashes@ =~= seq![
            hash_atom(modules.nft_ownership_layer.hash@),
            hash_atom(owner_bytes(self.current_owner)),
            self@.transfer_program_hash(*modules),
            self.p2_puzzle_hash,
        ]);
        let ownership = curry_tree_hash(modules.nft_ownership_layer.hash, &hashes);
        state_layer_curry_tree_hash(
            modules,
            self.metadata.to_clvm().tree_hash(),
            self.metadata_updater_puzzle_hash,
            ownership,
        )
    }

    /// Builds the puzzle that is revealed when the NFT is spent with
    /// `p2_puzzle`.
    pub fn construct_puzzle(&self, p2_puzzle: &Node, modules: &Modules) -> (r: Node)
        ensures
            r@ == self@.puzzle(p2_puzzle@, *modules),
    {
        let structure = Node::pair(
            Node::from_bytes32(&modules.singleton_top_layer.hash),
            Node::pair(
                Node::from_bytes32(&self.launcher_id),
                Node::from_bytes32(&modules.singleton_launcher.hash),
            ),
        );
        let mut transfer_args: Vec<Node> = Vec::new();
        transfer_args.push(structure);
        transfer_args.push(Node::from_bytes32(&self.royalty_puzzle_hash));
        transfer_args.push(Node::from_u64(self.royalty_ten_thousandths as u64));
        assert(trees(transfer_args@) =~= self@.transfer_program_args(*modules));
        let transfer_program = curry(&modules.nft_royalty_transfer.program, &transfer_args);
        let owner = match &self.current_owner {
            Some(o) => Node::from_bytes32(o),
            None => Node::nil(),
        };
        let mut ownership_args: Vec<Node> = Vec::new();
        ownership_args.push(Node::from_bytes32(&modules.nft_ownership_layer.hash));
        ownership_args.push(owner);
        ownership_args.push(transfer_program);
        ownership_args.push(p2_puzzle.clone());
        assert(trees(ownership_args@) =~= self@.ownership_args(p2_puzzle@, *modules));
        let ownership = curry(&modules.nft_ownership_layer.program, &ownership_args);
        let mut state_args: Vec<Node> = Vec::new();
        state_args.push(Node::from_bytes32(&modules.nft_state_layer.hash));
        state_args.push(self.metadata.to_clvm());
        state_args.push(Node::from_bytes32(&self.metadata_updater_puzzle_hash));
        state_args.push(ownership);
        assert(trees(state_args@) =~= self@.state_layer(p2_puzzle@, *modules).args(*modules));
        let state = curry(&modules.nft_state_layer.program, &state_args);
        SingletonLayer::new(self.launcher_id, state).construct_puzzle(modules)
    }
}

impl<M: ToClvm> Nft<M> {
    /// An NFT with the given coin, proof and info.
    pub fn new(coin: Coin, proof: Proof, info: NftInfo<M>) -> (r: Self)
        ensures
            r.coin == coin,
            r.proof == proof,
            r.info == info,
    {
        Nft { coin, proof, info }
    }

    /// Creates the coin spend that spends the NFT with `inner_spend`.
    pub fn spend(&self, ctx: &SpendContext, inner_spend: Spend) -> (r: Result<CoinSpend, DriverError>)
        ensures
            match r {
                Ok(cs) => {
                    let puzzle = self@.info.puzzle(inner_spend.puzzle@, ctx.modules);
                    let solution = self@.solution(inner_spend.solution@);
                    &&& cs.coin == self.coin
                    &&& cs.puzzle_reveal@ == serialized(puzzle)
                    &&& deserialized(cs.puzzle_reveal@) == puzzle
                    &&& cs.solution@ == serialized(solution)
                    &&& deserialized(cs.solution@) == solution
                },
                Err(e) => e == DriverError::Vm,
            },
    {
        let puzzle_node = self.info.construct_puzzle(&inner_spend.puzzle, &ctx.modules);
        let solution_node = SingletonLayer::construct_solution(
            &SingletonSolution {
                lineage_proof: self.proof,
                amount: self.coin.amount,
                inner_solution: list1(list1(inner_spend.solution)),
            },
        );
        let puzzle = match ctx.serialize(&puzzle_node) {
            Err(e) => {
                return Err(e);
            },
            Ok(b) => b,
        };
        let solution = match ctx.serialize(&solution_node) {
            Err(e) => {
                return Err(e);
            },
            Ok(b) => b,
        };
        Ok(CoinSpend::new(self.coin, puzzle, solution))
    }

    /// The NFT that the spend of this one creates for the puzzle hash
    /// `p2_puzzle_hash`, with a new owner where `new_owner` names one.
    pub fn create_child(
        self,
        modules: &Modules,
        p2_puzzle_hash: Bytes32,
        new_owner: Option<Option<Bytes32>>,
    ) -> (r: Self)
        ensures
            r@ == self@.child(p2_puzzle_hash, new_owner, *modules),
            r.info.metadata == self.info.metadata,
    {
        let parent_inner_puzzle_hash = self.info.inner_puzzle_hash(modules);
        let Nft { coin, proof: _, info } = self;
        let info = NftInfo {
            launcher_id: info.launcher_id,
            metadata: info.metadata,
            metadata_updater_puzzle_hash: info.metadata_updater_puzzle_hash,
            current_owner: match new_owner {
                Some(owner) => owner,
                None => info.current_owner,
            },
            royalty_puzzle_hash: info.royalty_puzzle_hash,
            royalty_ten_thousandths: info.royalty_ten_thousandths,
            p2_puzzle_hash,
        };
        let puzzle_hash = singleton_curry_tree_hash(
            modules,
            info.launcher_id,
            info.inner_puzzle_hash(modules),
        );
        Nft {
            coin: Coin { parent_coin_info: coin.coin_id(), puzzle_hash, amount: coin.amount },
            proof: Proof::Lineage(
                LineageProof {
                    parent_parent_coin_info: coin.parent_coin_info,
                    parent_inner_puzzle_hash,
                    parent_amount: coin.amount,
                },
            ),
            info,
        }
    }
}

} // verus!
