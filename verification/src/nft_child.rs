//! The child of an NFT: what the spend of an NFT says of the NFT that it
//! creates.
use vstd::prelude::*;
use crate::bytes::Bytes32;
use crate::codec::{
    lemma_parse_fields_list, parse_bytes32, parse_list, ref_trees, uint_tree, FromClvm,
};
use crate::coin::{coin_id_of, Coin, CoinSpend, LineageProof, Proof};
use crate::conditions::{NewNftOwner, NewNftOwnerView};
use crate::datastore_child::{
    conditions_of, emitted_conditions, find_last_new_metadata, find_last_odd_create_coin,
    last_new_metadata, last_odd_create_coin,
};
use crate::error::DriverError;
use crate::layer::Layer;
use crate::modules::Modules;
use crate::nft::{lemma_parse_nft, Nft, NftInfo, NftInfoView, NftView};
use crate::nft_layers::{NftOwnershipLayer, NftOwnershipLayerSolution};
use crate::node::{trees, Node, Tree};
use crate::number::lemma_decode_uint_atom;
use crate::singleton_layer::{singleton_curry_tree_hash, SingletonLayer, SingletonSolution};
use crate::spend_laws::lemma_proof_round_trip;
use crate::state_layer::{NftStateLayer, NftStateLayerView};
use crate::vm::{deserialized, node_from_bytes, run_output, run_puzzle, MAX_PUZZLE_COST};

verus! {

/// What the spend of an NFT says before any puzzle is run: the coin, the NFT
/// that its puzzle is, and the owner's puzzle with its solution.
#[derive(Debug, Clone, PartialEq, Eq)]
pub struct NftParentSpend<M> {
    pub coin: Coin,
    pub info: NftInfo<M>,
    pub p2_puzzle: Node,
    pub p2_solution: Node,
}

/// The mathematical value of an `NftParentSpend`.
pub struct NftParentSpendView {
    pub coin: Coin,
    pub info: NftInfoView,
    pub p2_puzzle: Tree,
    pub p2_solution: Tree,
}

impl<M: FromClvm> View for NftParentSpend<M> {
    type V = NftParentSpendView;

    open spec fn view(&self) -> NftParentSpendView {
        NftParentSpendView {
            coin: self.coin,
            info: self.info@,
            p2_puzzle: self.p2_puzzle@,
            p2_solution: self.p2_solution@,
        }
    }
}

/// How far the child of an NFT is known once the owner's puzzle has run.
#[derive(Debug, Clone, PartialEq, Eq)]
pub enum NftChildProgress<M> {
    /// The child is known.
    Done(Nft<M>),
    /// The owner's puzzle asks for new metadata: what the metadata updater
    /// returns for `updater_solution` decides the metadata of the child.
    /// `pending` is the child with the metadata of the parent.
    Updater { pending: Nft<M>, updater: Node, updater_solution: Node },
}

/// The mathematical value of an `NftChildProgress`.
pub enum NftChildProgressView {
    Done(NftView),
    Updater { pending: NftView, updater: Tree, updater_solution: Tree },
}

impl<M: FromClvm> View for NftChildProgress<M> {
    type V = NftChildProgressView;

    open spec fn view(&self) -> NftChildProgressView {
        match self {
            NftChildProgress::Done(nft) => NftChildProgressView::Done(nft@),
            NftChildProgress::Updater {
                pending,
                updater,
                updater_solution,
            } => NftChildProgressView::Updater {
                pending: pending@,
                updater: updater@,
                updater_solution: updater_solution@,
            },
        }
    }
}

/// What the spend of an NFT says before any puzzle is run. `Ok(None)` where
/// the puzzle is no NFT.
pub open spec fn nft_parent_spend<M: FromClvm>(
    coin: Coin,
    puzzle: Tree,
    solution: Tree,
    modules: Modules,
) -> Result<Option<NftParentSpendView>, DriverError> {
    match NftInfoView::parse::<M>(puzzle, modules) {
        Err(e) => Err(e),
        Ok(None) => Ok(None),
        Ok(Some((info, p2_puzzle))) => match SingletonSolution::<Tree>::parse(solution) {
            Err(e) => Err(DriverError::FromClvm(e)),
            Ok(s) => match NftStateLayerView::parse_solution(s.inner_solution) {
                Err(e) => Err(DriverError::FromClvm(e)),
                Ok(state_solution) => match NftOwnershipLayerSolution::<Tree>::parse(
                    state_solution,
                ) {
                    Err(e) => Err(DriverError::FromClvm(e)),
                    Ok(o) => Ok(
                        Some(
                            NftParentSpendView {
                                coin,
                                info,
                                p2_puzzle,
                                p2_solution: o.inner_solution,
                            },
                        ),
                    ),
                },
            },
        },
    }
}

/// The last condition that hands the NFT to a new owner.
pub open spec fn last_transfer(conditions: Seq<Tree>) -> Option<NewNftOwnerView>
    decreases conditions.len(),
{
    if conditions.len() == 0 {
        None
    } else {
        match NewNftOwnerView::parse(conditions.last()) {
            Ok(c) => Some(c),
            Err(_) => last_transfer(conditions.drop_last()),
        }
    }
}

/// The solution on which the state layer runs a metadata updater: the
/// metadata, the hash of the updater and what the condition hands on.
pub open spec fn updater_arguments(
    metadata: Tree,
    metadata_updater_puzzle_hash: Bytes32,
    solution: Tree,
) -> Tree {
    Tree::list(seq![metadata, Tree::Atom(metadata_updater_puzzle_hash@), solution])
}

/// The NFT with the given info that the spend of `parent` creates with
/// `amount`.
pub open spec fn nft_on_child_coin(
    parent: NftParentSpendView,
    info: NftInfoView,
    amount: u64,
    modules: Modules,
) -> NftView {
    NftView {
        coin: Coin {
            parent_coin_info: coin_id_of(parent.coin),
            puzzle_hash: info.puzzle_hash(modules),
            amount,
        },
        proof: Proof::Lineage(
            LineageProof {
                parent_parent_coin_info: parent.coin.parent_coin_info,
                parent_inner_puzzle_hash: parent.info.inner_puzzle_hash(modules),
                parent_amount: parent.coin.amount,
            },
        ),
        info,
    }
}

/// The child of an NFT as far as the output of the owner's puzzle tells.
///
/// The child is the last coin of odd amount that the output creates; without
/// one the spend has no child. Its puzzle hash is the new owner's puzzle. The
/// last transfer among the conditions names the owner of the child; without
/// one the owner stays. Where the output asks for new metadata, the metadata
/// updater decides.
pub open spec fn nft_child_of_output(
    parent: NftParentSpendView,
    output: Tree,
    modules: Modules,
) -> Result<NftChildProgressView, DriverError> {
    match emitted_conditions(output) {
        Err(e) => Err(DriverError::FromClvm(e)),
        Ok(conditions) => match last_odd_create_coin(conditions) {
            None => Err(DriverError::MissingChild),
            Some(create_coin) => {
                let info = NftInfoView {
                    current_owner: match last_transfer(conditions) {
                        Some(transfer) => transfer.did_id,
                        None => parent.info.current_owner,
                    },
                    p2_puzzle_hash: create_coin.puzzle_hash,
                    ..parent.info
                };
                let child = nft_on_child_coin(parent, info, create_coin.amount, modules);
                match last_new_metadata(conditions) {
                    None => Ok(NftChildProgressView::Done(child)),
                    Some(c) => Ok(
                        NftChildProgressView::Updater {
                            pending: child,
                            updater: c.metadata_updater_reveal,
                            updater_solution: updater_arguments(
                                parent.info.metadata,
                                parent.info.metadata_updater_puzzle_hash,
                                c.metadata_updater_solution,
                            ),
                        },
                    ),
                }
            },
        }
    }
}

/// The child of an NFT whose metadata changes, from what the metadata updater
/// has returned: `((new_metadata new_updater_hash) conditions)`. The child
/// has the new metadata and the new updater, and the coin that commits to
/// them.
pub open spec fn nft_child_of_updater_output<M: FromClvm>(
    pending: NftView,
    updater_output: Tree,
    modules: Modules,
) -> Result<NftView, DriverError> {
    match parse_list(updater_output, 2) {
        Err(e) => Err(DriverError::FromClvm(e)),
        Ok(f) => match parse_list(f[0], 2) {
            Err(e) => Err(DriverError::FromClvm(e)),
            Ok(g) => match M::parsed(g[0]) {
                Err(e) => Err(DriverError::FromClvm(e)),
                Ok(metadata) => match parse_bytes32(g[1]) {
                    Err(e) => Err(DriverError::FromClvm(e)),
                    Ok(metadata_updater_puzzle_hash) => {
                        let info = NftInfoView {
                            metadata,
                            metadata_updater_puzzle_hash,
                            ..pending.info
                        };
                        Ok(
                            NftView {
                                coin: Coin { puzzle_hash: info.puzzle_hash(modules), ..pending.coin },
                                proof: pending.proof,
                                info,
                            },
                        )
                    },
                },
            },
        },
    }
}

/// The NFT that a coin spend creates, given what the VM reads from the
/// serialized puzzle and solution and what it returns for the puzzles that
/// are run.
pub open spec fn nft_spent<M: FromClvm>(
    coin: Coin,
    puzzle_reveal: Seq<u8>,
    solution: Seq<u8>,
    modules: Modules,
) -> Result<Option<NftView>, DriverError> {
    match nft_parent_spend::<M>(
        coin,
        deserialized(puzzle_reveal),
        deserialized(solution),
        modules,
    ) {
        Err(e) => Err(e),
        Ok(None) => Ok(None),
        Ok(Some(parent)) => match nft_child_of_output(
            parent,
            run_output(parent.p2_puzzle, parent.p2_solution, MAX_PUZZLE_COST),
            modules,
        ) {
            Err(e) => Err(e),
            Ok(NftChildProgressView::Done(child)) => Ok(Some(child)),
            Ok(
                NftChildProgressView::Updater { pending, updater, updater_solution },
            ) => match nft_child_of_updater_output::<M>(
                pending,
                run_output(updater, updater_solution, MAX_PUZZLE_COST),
                modules,
            ) {
                Err(e) => Err(e),
                Ok(child) => Ok(Some(child)),
            },
        },
    }
}

/// The spend that `Nft::spend` builds is read back as a spend of the NFT it
/// was built from, with the owner's puzzle and solution it was given, where
/// that puzzle is the owner's.
pub proof fn lemma_nft_parse_after_construct<M: FromClvm>(
    nft: Nft<M>,
    p2_puzzle: Tree,
    p2_solution: Tree,
    modules: Modules,
)
    requires
        modules.wf(),
        p2_puzzle.tree_hash() == nft.info.p2_puzzle_hash,
    ensures
        nft_parent_spend::<M>(
            nft.coin,
            nft@.info.puzzle(p2_puzzle, modules),
            nft@.solution(p2_solution),
            modules,
        ) == Ok::<Option<NftParentSpendView>, DriverError>(
            Some(NftParentSpendView { coin: nft.coin, info: nft@.info, p2_puzzle, p2_solution }),
        ),
{
    lemma_parse_nft::<M>(nft.info, p2_puzzle, modules);
    let ownership_solution = Tree::list(seq![p2_solution]);
    let state_solution = Tree::list(seq![ownership_solution]);
    lemma_parse_fields_list(seq![p2_solution], Tree::nil());
    lemma_parse_fields_list(seq![ownership_solution], Tree::nil());
    lemma_parse_fields_list(
        seq![nft.proof.tree(), uint_tree(nft.coin.amount as nat), state_solution],
        Tree::nil(),
    );
    lemma_proof_round_trip(nft.proof);
    lemma_decode_uint_atom(nft.coin.amount);
}

/// Finds the last condition that hands the NFT to a new owner.
pub fn find_last_transfer(conditions: &Vec<Node>) -> (r: Option<NewNftOwner>)
    ensures
        match r {
            Some(c) => last_transfer(trees(conditions@)) == Some(c@),
            None => last_transfer(trees(conditions@)) is None,
        },
{
    let mut found: Option<NewNftOwner> = None;
    let mut i: usize = 0;
    let ghost all = trees(conditions@);
    assert(all.subrange(0, 0) =~= Seq::<Tree>::empty());
    while i < conditions.len()
        invariant
            i <= conditions.len(),
            all == trees(conditions@),
            match found {
                Some(c) => last_transfer(all.subrange(0, i as int)) == Some(c@),
                None => last_transfer(all.subrange(0, i as int)) is None,
            },
        decreases conditions.len() - i,
    {
        proof {
            let next = all.subrange(0, i + 1);
            assert(next.last() == conditions@[i as int]@);
            assert(next.drop_last() =~= all.subrange(0, i as int));
        }
        match NewNftOwner::from_clvm(&conditions[i]) {
            Ok(c) => {
                found = Some(c);
            },
            Err(_) => {},
        }
        i += 1;
    }
    assert(all.subrange(0, conditions@.len() as int) =~= all);
    found
}

impl<M: FromClvm> Nft<M> {
    /// Reads what the spend of an NFT says before any puzzle is run.
    pub fn parse_parent_spend(coin: Coin, puzzle: &Node, solution: &Node, modules: &Modules) -> (r:
        Result<Option<NftParentSpend<M>>, DriverError>)
        ensures
            match r {
                Ok(Some(parent)) => nft_parent_spend::<M>(coin, puzzle@, solution@, *modules)
                    == Ok::<Option<NftParentSpendView>, DriverError>(Some(parent@)),
                Ok(None) => nft_parent_spend::<M>(coin, puzzle@, solution@, *modules) == Ok::<
                    Option<NftParentSpendView>,
                    DriverError,
                >(None),
                Err(e) => nft_parent_spend::<M>(coin, puzzle@, solution@, *modules) == Err::<
                    Option<NftParentSpendView>,
                    DriverError,
                >(e),
            },
    {
        let (info, p2_puzzle) = match NftInfo::<M>::parse_puzzle(puzzle, modules) {
            Err(e) => {
                return Err(e);
            },
            Ok(None) => {
                return Ok(None);
            },
            Ok(Some(x)) => x,
        };
        let s = match SingletonLayer::parse_solution(solution) {
            Err(e) => {
                return Err(DriverError::FromClvm(e));
            },
            Ok(s) => s,
        };
        let state = match NftStateLayer::<M>::parse_solution(&s.inner_solution) {
            Err(e) => {
                return Err(DriverError::FromClvm(e));
            },
            Ok(s) => s,
        };
        let ownership = match <NftOwnershipLayer as Layer>::parse_solution(&state.inner_solution) {
            Err(e) => {
                return Err(DriverError::FromClvm(e));
            },
            Ok(s) => s,
        };
        Ok(Some(NftParentSpend { coin, info, p2_puzzle, p2_solution: ownership.inner_solution }))
    }

    /// Works out the child of an NFT as far as the output of the owner's
    /// puzzle tells.
    pub fn child_from_output(parent: NftParentSpend<M>, output: &Node, modules: &Modules) -> (r:
        Result<NftChildProgress<M>, DriverError>)
        ensures
            match r {
                Ok(progress) => nft_child_of_output(parent@, output@, *modules) == Ok::<
                    NftChildProgressView,
                    DriverError,
                >(progress@),
                Err(e) => nft_child_of_output(parent@, output@, *modules) == Err::<
                    NftChildProgressView,
                    DriverError,
                >(e),
            },
    {
        let conditions = match conditions_of(output) {
            Err(e) => {
                return Err(DriverError::FromClvm(e));
            },
            Ok(c) => c,
        };
        let create_coin = match find_last_odd_create_coin(&conditions) {
            None => {
                return Err(DriverError::MissingChild);
            },
            Some(c) => c,
        };
        let parent_inner_puzzle_hash = parent.info.inner_puzzle_hash(modules);
        let NftParentSpend { coin: parent_coin, info: parent_info, p2_puzzle: _, p2_solution: _ } =
            parent;
        let current_owner = match find_last_transfer(&conditions) {
            Some(transfer) => transfer.did_id,
            None => parent_info.current_owner,
        };
        let updater = match find_last_new_metadata(&conditions) {
            None => None,
            Some(c) => {
                let mut items: Vec<Node> = Vec::new();
                items.push(parent_info.metadata.to_clvm());
                items.push(Node::from_bytes32(&parent_info.metadata_updater_puzzle_hash));
                items.push(c.metadata_updater_solution);
                assert(trees(items@) =~= seq![
                    parent_info.metadata.tree(),
                    Tree::Atom(parent_info.metadata_updater_puzzle_hash@),
                    c@.metadata_updater_solution,
                ]);
                Some((c.metadata_updater_reveal, Node::list(&items)))
            },
        };
        let info = NftInfo {
            launcher_id: parent_info.launcher_id,
            metadata: parent_info.metadata,
            metadata_updater_puzzle_hash: parent_info.metadata_updater_puzzle_hash,
            current_owner,
            royalty_puzzle_hash: parent_info.royalty_puzzle_hash,
            royalty_ten_thousandths: parent_info.royalty_ten_thousandths,
            p2_puzzle_hash: create_coin.puzzle_hash,
        };
        let puzzle_hash = singleton_curry_tree_hash(
            modules,
            info.launcher_id,
            info.inner_puzzle_hash(modules),
        );
        let child = Nft {
            coin: Coin {
                parent_coin_info: parent_coin.coin_id(),
                puzzle_hash,
                amount: create_coin.amount,
            },
            proof: Proof::Lineage(
                LineageProof {
                    parent_parent_coin_info: parent_coin.parent_coin_info,
                    parent_inner_puzzle_hash,
                    parent_amount: parent_coin.amount,
                },
            ),
            info,
        };
        match updater {
            None => Ok(NftChildProgress::Done(child)),
            Some((updater, updater_solution)) => Ok(
                NftChildProgress::Updater { pending: child, updater, updater_solution },
            ),
        }
    }

    /// Works out the child of an NFT whose metadata changes from what the
    /// metadata updater has returned.
    pub fn child_from_updater_output(pending: Nft<M>, updater_output: &Node, modules: &Modules) -> (r:
        Result<Nft<M>, DriverError>)
        ensures
            match r {
                Ok(child) => nft_child_of_updater_output::<M>(
                    pending@,
                    updater_output@,
                    *modules,
                ) == Ok::<NftView, DriverError>(child@),
                Err(e) => nft_child_of_updater_output::<M>(pending@, updater_output@, *modules)
                    == Err::<NftView, DriverError>(e),
            },
    {
        let f = match updater_output.list_of(2) {
            Err(e) => {
                return Err(DriverError::FromClvm(e));
            },
            Ok(f) => f,
        };
        assert(ref_trees(f@)[0] == f@[0]@);
        let g = match f[0].list_of(2) {
            Err(e) => {
                return Err(DriverError::FromClvm(e));
            },
            Ok(g) => g,
        };
        assert(ref_trees(g@)[0] == g@[0]@);
        assert(ref_trees(g@)[1] == g@[1]@);
        let metadata = match M::from_clvm(g[0]) {
            Err(e) => {
                return Err(DriverError::FromClvm(e));
            },
            Ok(m) => m,
        };
        let metadata_updater_puzzle_hash = match g[1].as_bytes32() {
            Err(e) => {
                return Err(DriverError::FromClvm(e));
            },
            Ok(b) => b,
        };
        let Nft { coin, proof, info: old_info } = pending;
        let info = NftInfo {
            launcher_id: old_info.launcher_id,
            metadata,
            metadata_updater_puzzle_hash,
            current_owner: old_info.current_owner,
            royalty_puzzle_hash: old_info.royalty_puzzle_hash,
            royalty_ten_thousandths: old_info.royalty_ten_thousandths,
            p2_puzzle_hash: old_info.p2_puzzle_hash,
        };
        let puzzle_hash = singleton_curry_tree_hash(
            modules,
            info.launcher_id,
            info.inner_puzzle_hash(modules),
        );
        Ok(
            Nft {
                coin: Coin { parent_coin_info: coin.parent_coin_info, puzzle_hash, amount: coin.amount },
                proof,
                info,
            },
        )
    }

    /// Reads the NFT that a coin spend creates.
    ///
    /// Running the puzzles is the VM's part: where the VM fails, the result is
    /// `Vm`; in every other case the result is the one that `nft_spent`
    /// defines from what the VM returned.
    ///
    /// As every reading of a spend, this takes no value deeper than
    /// `MAX_DEPTH` pairs from the VM: a deeper puzzle reveal, solution or
    /// output is refused as `Vm`.
    pub fn from_spend(cs: &CoinSpend, modules: &Modules) -> (r: Result<Option<Self>, DriverError>)
        ensures
            match r {
                Err(DriverError::Vm) => true,
                Ok(Some(nft)) => nft_spent::<M>(cs.coin, cs.puzzle_reveal@, cs.solution@, *modules)
                    == Ok::<Option<NftView>, DriverError>(Some(nft@)),
                Ok(None) => nft_spent::<M>(cs.coin, cs.puzzle_reveal@, cs.solution@, *modules)
                    == Ok::<Option<NftView>, DriverError>(None),
                Err(e) => nft_spent::<M>(cs.coin, cs.puzzle_reveal@, cs.solution@, *modules)
                    == Err::<Option<NftView>, DriverError>(e),
            },
    {
        let puzzle = match node_from_bytes(cs.puzzle_reveal.as_slice()) {
            Err(e) => {
                return Err(e);
            },
            Ok(n) => n,
        };
        let solution = match node_from_bytes(cs.solution.as_slice()) {
            Err(e) => {
                return Err(e);
            },
            Ok(n) => n,
        };
        let parent = match Self::parse_parent_spend(cs.coin, &puzzle, &solution, modules) {
            Err(e) => {
                return Err(e);
            },
            Ok(None) => {
                return Ok(None);
            },
            Ok(Some(p)) => p,
        };
        let output = match run_puzzle(&parent.p2_puzzle, &parent.p2_solution) {
            Err(e) => {
                return Err(e);
            },
            Ok(n) => n,
        };
        match Self::child_from_output(parent, &output, modules) {
            Err(e) => Err(e),
            Ok(NftChildProgress::Done(child)) => Ok(Some(child)),
            Ok(NftChildProgress::Updater { pending, updater, updater_solution }) => {
                let updater_output = match run_puzzle(&updater, &updater_solution) {
                    Err(e) => {
                        return Err(e);
                    },
                    Ok(n) => n,
                };
                match Self::child_from_updater_output(pending, &updater_output, modules) {
                    Err(e) => Err(e),
                    Ok(child) => Ok(Some(child)),
                }
            },
        }
    }
}

} // verus!
