//! The child of a data store: what the spend of a store says of the store
//! that it creates.
use vstd::prelude::*;
use crate::bytes::Bytes32;
use crate::codec::{parse_bytes32, parse_list, ref_trees};
use crate::coin::{coin_id_of, Coin, Proof};
use crate::conditions::{CreateCoin, CreateCoinView, NewMetadataCondition};
use crate::datalayer::DelegatedPuzzle;
use crate::datastore::{
    built_datastore, DataStore, DataStoreInfo, DataStoreInfoView, DataStoreView,
};
use crate::datastore_launch::launched;
use crate::delegation_layer::{
    DelegationLayer, DelegationLayerSolution, DelegationLayerSolutionView,
};
use crate::error::{wrong_length, DriverError, FromClvmError};
use crate::metadata::{DataStoreMetadata, MetadataWithRootHash};
use crate::modules::Modules;
use crate::node::{trees, Node, Tree};
use crate::singleton_layer::{
    singleton_curry_tree_hash, singleton_puzzle_hash, SingletonLayer, SingletonLayerView,
    SingletonSolution,
};
use crate::state_layer::{
    state_layer_curry_tree_hash, state_layer_puzzle_hash, NftStateLayer, NftStateLayerView,
};
use crate::vm::{deserialized, run_output, MAX_PUZZLE_COST};

verus! {

/// What the spend of a data store says before any puzzle is run: the coin, the
/// two outer layers of its puzzle, and the solution of the puzzle inside them.
#[derive(Debug, Clone, PartialEq, Eq)]
pub struct ParentSpend<M = DataStoreMetadata> {
    pub coin: Coin,
    pub singleton_layer: SingletonLayer,
    pub state_layer: NftStateLayer<M>,
    pub inner_solution: Node,
}

/// The mathematical value of a `ParentSpend`.
pub struct ParentSpendView {
    pub coin: Coin,
    pub singleton_layer: SingletonLayerView,
    pub state_layer: NftStateLayerView,
    pub inner_solution: Tree,
}

impl<M: MetadataWithRootHash> View for ParentSpend<M> {
    type V = ParentSpendView;

    open spec fn view(&self) -> ParentSpendView {
        ParentSpendView {
            coin: self.coin,
            singleton_layer: self.singleton_layer@,
            state_layer: self.state_layer@,
            inner_solution: self.inner_solution@,
        }
    }
}

/// How far the child of a spend is known once the puzzle inside the state
/// layer has run.
#[derive(Debug, Clone, PartialEq, Eq)]
pub enum ChildProgress<M = DataStoreMetadata> {
    /// The child is known.
    Done(DataStore<M>),
    /// The parent had a delegation layer and the child came without memos:
    /// what the delegated puzzle creates decides who owns the child and what
    /// is delegated. `pending` is the child with nothing delegated.
    Delegated {
        pending: DataStore<M>,
        delegation_layer_hash: Bytes32,
        puzzle_reveal: Node,
        puzzle_solution: Node,
    },
}

/// The mathematical value of a `ChildProgress`.
pub enum ChildProgressView {
    Done(DataStoreView),
    Delegated {
        pending: DataStoreView,
        delegation_layer_hash: Bytes32,
        puzzle_reveal: Tree,
        puzzle_solution: Tree,
    },
}

impl<M: MetadataWithRootHash> View for ChildProgress<M> {
    type V = ChildProgressView;

    open spec fn view(&self) -> ChildProgressView {
        match self {
            ChildProgress::Done(store) => ChildProgressView::Done(store@),
            ChildProgress::Delegated {
                pending,
                delegation_layer_hash,
                puzzle_reveal,
                puzzle_solution,
            } => ChildProgressView::Delegated {
                pending: pending@,
                delegation_layer_hash: *delegation_layer_hash,
                puzzle_reveal: puzzle_reveal@,
                puzzle_solution: puzzle_solution@,
            },
        }
    }
}

/// What the spend of a data store says before any puzzle is run. `Ok(None)`
/// where the puzzle is not a state layer inside a singleton layer.
pub open spec fn parent_spend<M: MetadataWithRootHash>(
    coin: Coin,
    puzzle: Tree,
    solution: Tree,
    modules: Modules,
) -> Result<Option<ParentSpendView>, DriverError> {
    match SingletonLayerView::parse(puzzle, modules) {
        Err(e) => Err(e),
        Ok(None) => Ok(None),
        Ok(Some(singleton_layer)) => match NftStateLayerView::parse::<M>(
            singleton_layer.inner_puzzle,
            modules,
        ) {
            Err(e) => Err(e),
            Ok(None) => Ok(None),
            Ok(Some(state_layer)) => match SingletonSolution::<Tree>::parse(solution) {
                Err(e) => Err(DriverError::FromClvm(e)),
                Ok(s) => match NftStateLayerView::parse_solution(s.inner_solution) {
                    Err(e) => Err(DriverError::FromClvm(e)),
                    Ok(inner_solution) => Ok(
                        Some(ParentSpendView { coin, singleton_layer, state_layer, inner_solution }),
                    ),
                },
            },
        },
    }
}

/// The conditions that a puzzle has emitted: the items of its output, which
/// must be a proper list.
pub open spec fn emitted_conditions(output: Tree) -> Result<Seq<Tree>, FromClvmError> {
    if output.tail().len() == 0 {
        Ok(output.items())
    } else {
        Err(wrong_length(0, output.tail().len()))
    }
}

/// The coin of odd amount that a condition creates, if it creates one.
pub open spec fn odd_create_coin(condition: Tree) -> Option<CreateCoinView> {
    match CreateCoinView::parse(condition) {
        Ok(c) => if c.amount % 2 == 1 {
            Some(c)
        } else {
            None
        },
        Err(_) => None,
    }
}

/// The last coin of odd amount that the conditions create.
pub open spec fn last_odd_create_coin(conditions: Seq<Tree>) -> Option<CreateCoinView>
    decreases conditions.len(),
{
    if conditions.len() == 0 {
        None
    } else {
        match odd_create_coin(conditions.last()) {
            Some(c) => Some(c),
            None => last_odd_create_coin(conditions.drop_last()),
        }
    }
}

/// The first coin of odd amount that the conditions create.
pub open spec fn first_odd_create_coin(conditions: Seq<Tree>) -> Option<CreateCoinView>
    decreases conditions.len(),
{
    if conditions.len() == 0 {
        None
    } else {
        match odd_create_coin(conditions[0]) {
            Some(c) => Some(c),
            None => first_odd_create_coin(conditions.drop_first()),
        }
    }
}

/// The last condition that asks for new metadata.
pub open spec fn last_new_metadata(conditions: Seq<Tree>) -> Option<
    NewMetadataCondition<Tree, Tree>,
>
    decreases conditions.len(),
{
    if conditions.len() == 0 {
        None
    } else {
        match NewMetadataCondition::<Tree, Tree>::parse(conditions.last()) {
            Ok(c) => Some(c),
            Err(_) => last_new_metadata(conditions.drop_last()),
        }
    }
}

/// The metadata that the updater of data stores hands on. That updater
/// returns its solution, so the new metadata is read from the solution:
/// `((new_metadata new_updater_hash) conditions)`.
pub open spec fn next_metadata<M: MetadataWithRootHash>(updater_solution: Tree) -> Result<
    Tree,
    FromClvmError,
> {
    match parse_list(updater_solution, 2) {
        Err(e) => Err(e),
        Ok(f) => match parse_list(f[0], 2) {
            Err(e) => Err(e),
            Ok(g) => match M::parsed(g[0]) {
                Err(e) => Err(e),
                Ok(metadata) => match parse_bytes32(g[1]) {
                    Err(e) => Err(e),
                    Ok(_) => Ok(metadata),
                },
            },
        },
    }
}

/// The puzzle hash of a data store coin: the singleton layer around the state
/// layer around a puzzle of the given hash.
pub open spec fn store_puzzle_hash(
    modules: Modules,
    launcher_id: Bytes32,
    metadata_hash: Bytes32,
    metadata_updater_puzzle_hash: Bytes32,
    inner_puzzle_hash: Bytes32,
) -> Bytes32 {
    singleton_puzzle_hash(
        modules,
        launcher_id,
        state_layer_puzzle_hash(
            modules,
            metadata_hash,
            metadata_updater_puzzle_hash,
            inner_puzzle_hash,
        ),
    )
}

/// The child of a spend as far as the output of the puzzle inside the state
/// layer tells.
///
/// The child is the last coin of odd amount that the output creates; without
/// one the spend has no child. Its metadata is the parent's unless the output
/// asks for new metadata. Where the child comes with more than one memo, the
/// memos say who owns it and what is delegated. Else, where the parent had no
/// delegation layer, the child is owned by the parent's inner puzzle and
/// nothing is delegated; where it had one, the delegated puzzle decides.
pub open spec fn child_of_inner_output<M: MetadataWithRootHash>(
    parent: ParentSpendView,
    inner_output: Tree,
    modules: Modules,
) -> Result<ChildProgressView, DriverError> {
    match emitted_conditions(inner_output) {
        Err(e) => Err(DriverError::FromClvm(e)),
        Ok(conditions) => match last_odd_create_coin(conditions) {
            None => Err(DriverError::MissingChild),
            Some(create_coin) => {
                let metadata = match last_new_metadata(conditions) {
                    Some(c) => next_metadata::<M>(c.metadata_updater_solution),
                    None => Ok(parent.state_layer.metadata),
                };
                match metadata {
                    Err(e) => Err(DriverError::FromClvm(e)),
                    Ok(new_metadata) => {
                        let launcher_id = parent.singleton_layer.launcher_id;
                        let coin = Coin {
                            parent_coin_info: coin_id_of(parent.coin),
                            puzzle_hash: store_puzzle_hash(
                                modules,
                                launcher_id,
                                new_metadata.tree_hash(),
                                parent.state_layer.metadata_updater_puzzle_hash,
                                create_coin.puzzle_hash,
                            ),
                            amount: create_coin.amount,
                        };
                        let proof = Proof::Lineage(
                            parent.singleton_layer.lineage_proof(parent.coin),
                        );
                        let inner_hash = parent.state_layer.inner_puzzle.tree_hash();
                        let store = |owner_puzzle_hash: Bytes32|
                            DataStoreView {
                                coin,
                                proof,
                                info: DataStoreInfoView {
                                    launcher_id,
                                    metadata: new_metadata,
                                    owner_puzzle_hash,
                                    delegated_puzzles: Seq::empty(),
                                },
                            };
                        if create_coin.memos.len() > 1 {
                            match built_datastore(
                                coin,
                                launcher_id,
                                proof,
                                new_metadata,
                                M::tree_root_hash(new_metadata),
                                inner_hash,
                                create_coin.memos,
                            ) {
                                Ok(d) => Ok(ChildProgressView::Done(d)),
                                Err(e) => Err(e),
                            }
                        } else {
                            match DelegationLayer::parse(parent.state_layer.inner_puzzle, modules) {
                                Err(e) => Err(e),
                                Ok(None) => Ok(ChildProgressView::Done(store(inner_hash))),
                                Ok(Some(layer)) => match DelegationLayerSolutionView::parse(
                                    parent.inner_solution,
                                ) {
                                    Err(e) => Err(DriverError::FromClvm(e)),
                                    Ok(solution) => Ok(
                                        ChildProgressView::Delegated {
                                            pending: store(layer.owner_puzzle_hash),
                                            delegation_layer_hash: inner_hash,
                                            puzzle_reveal: solution.puzzle_reveal,
                                            puzzle_solution: solution.puzzle_solution,
                                        },
                                    ),
                                },
                            }
                        }
                    },
                }
            },
        }
    }
}

/// The child of a spend through the delegation layer, from what the delegated
/// puzzle has emitted.
///
/// Where the puzzle creates no coin of odd amount, the delegation layer has
/// recreated itself: the child keeps the owner and the delegated puzzles of
/// the parent. Where the first such coin goes to the delegation layer's own
/// puzzle hash, the owner has recreated the layer unchanged: the same. Where
/// it goes elsewhere, the owner has left the delegation layer: that puzzle
/// hash owns the child and nothing is delegated.
pub open spec fn child_of_delegated_output(
    pending: DataStoreView,
    delegation_layer_hash: Bytes32,
    output: Tree,
    parent_delegated_puzzles: Seq<DelegatedPuzzle>,
) -> Result<DataStoreView, DriverError> {
    let kept = DataStoreView {
        info: DataStoreInfoView { delegated_puzzles: parent_delegated_puzzles, ..pending.info },
        ..pending
    };
    match emitted_conditions(output) {
        Err(e) => Err(DriverError::FromClvm(e)),
        Ok(conditions) => match first_odd_create_coin(conditions) {
            None => Ok(kept),
            Some(create_coin) => if create_coin.puzzle_hash == delegation_layer_hash {
                Ok(kept)
            } else {
                Ok(
                    DataStoreView {
                        info: DataStoreInfoView {
                            owner_puzzle_hash: create_coin.puzzle_hash,
                            delegated_puzzles: Seq::empty(),
                            ..pending.info
                        },
                        ..pending
                    },
                )
            },
        },
    }
}

/// The data store that a coin spend creates, given what the VM reads from
/// the serialized puzzle and solution and what it returns for the puzzles
/// that are run.
pub open spec fn spent<M: MetadataWithRootHash>(
    coin: Coin,
    puzzle_reveal: Seq<u8>,
    solution: Seq<u8>,
    parent_delegated_puzzles: Seq<DelegatedPuzzle>,
    modules: Modules,
) -> Result<Option<DataStoreView>, DriverError> {
    if coin.puzzle_hash == modules.singleton_launcher.hash {
        match launched::<M>(coin, deserialized(solution)) {
            Ok(store) => Ok(Some(store)),
            Err(e) => Err(e),
        }
    } else {
        match parent_spend::<M>(
            coin,
            deserialized(puzzle_reveal),
            deserialized(solution),
            modules,
        ) {
            Err(e) => Err(e),
            Ok(None) => Ok(None),
            Ok(Some(parent)) => match child_of_inner_output::<M>(
                parent,
                run_output(
                    parent.state_layer.inner_puzzle,
                    parent.inner_solution,
                    MAX_PUZZLE_COST,
                ),
                modules,
            ) {
                Err(e) => Err(e),
                Ok(ChildProgressView::Done(store)) => Ok(Some(store)),
                Ok(
                    ChildProgressView::Delegated {
                        pending,
                        delegation_layer_hash,
                        puzzle_reveal,
                        puzzle_solution,
                    },
                ) => match child_of_delegated_output(
                    pending,
                    delegation_layer_hash,
                    run_output(puzzle_reveal, puzzle_solution, MAX_PUZZLE_COST),
                    parent_delegated_puzzles,
                ) {
                    Err(e) => Err(e),
                    Ok(store) => Ok(Some(store)),
                },
            },
        }
    }
}

/// Reads the conditions that a puzzle has emitted.
pub fn conditions_of(output: &Node) -> (r: Result<Vec<Node>, FromClvmError>)
    ensures
        match r {
            Ok(conditions) => emitted_conditions(output@) == Ok::<Seq<Tree>, FromClvmError>(
                trees(conditions@),
            ),
            Err(e) => emitted_conditions(output@) == Err::<Seq<Tree>, FromClvmError>(e),
        },
{
    if output.is_proper_list() {
        Ok(output.items())
    } else {
        Err(FromClvmError::WrongAtomLength { expected: 0, found: output.tail_len() })
    }
}

/// Reads the coin of odd amount that a condition creates, if it creates one.
fn odd_create_coin_of(condition: &Node) -> (r: Option<CreateCoin>)
    ensures
        match r {
            Some(c) => odd_create_coin(condition@) == Some(c@),
            None => odd_create_coin(condition@) is None,
        },
{
    match CreateCoin::from_clvm(condition) {
        Ok(c) => if c.amount % 2 == 1 {
            Some(c)
        } else {
            None
        },
        Err(_) => None,
    }
}

/// Finds the last coin of odd amount that the conditions create.
pub fn find_last_odd_create_coin(conditions: &Vec<Node>) -> (r: Option<CreateCoin>)
    ensures
        match r {
            Some(c) => last_odd_create_coin(trees(conditions@)) == Some(c@),
            None => last_odd_create_coin(trees(conditions@)) is None,
        },
{
    let mut found: Option<CreateCoin> = None;
    let mut i: usize = 0;
    let ghost all = trees(conditions@);
    assert(all.subrange(0, 0) =~= Seq::<Tree>::empty());
    while i < conditions.len()
        invariant
            i <= conditions.len(),
            all == trees(conditions@),
            match found {
                Some(c) => last_odd_create_coin(all.subrange(0, i as int)) == Some(c@),
                None => last_odd_create_coin(all.subrange(0, i as int)) is None,
            },
        decreases conditions.len() - i,
    {
        proof {
            let next = all.subrange(0, i + 1);
            assert(next.last() == conditions@[i as int]@);
            assert(next.drop_last() =~= all.subrange(0, i as int));
        }
        match odd_create_coin_of(&conditions[i]) {
            Some(c) => {
                found = Some(c);
            },
            None => {},
        }
        i += 1;
    }
    assert(all.subrange(0, conditions@.len() as int) =~= all);
    found
}

/// Finds the first coin of odd amount that the conditions create.
pub fn find_first_odd_create_coin(conditions: &Vec<Node>) -> (r: Option<CreateCoin>)
    ensures
        match r {
            Some(c) => first_odd_create_coin(trees(conditions@)) == Some(c@),
            None => first_odd_create_coin(trees(conditions@)) is None,
        },
{
    let mut i: usize = 0;
    let ghost all = trees(conditions@);
    assert(all.skip(0) =~= all);
    while i < conditions.len()
        invariant
            i <= conditions.len(),
            all == trees(conditions@),
            first_odd_create_coin(all.skip(i as int)) == first_odd_create_coin(all),
        decreases conditions.len() - i,
    {
        proof {
            let rest = all.skip(i as int);
            assert(rest[0] == conditions@[i as int]@);
            assert(rest.drop_first() =~= all.skip(i + 1));
        }
        match odd_create_coin_of(&conditions[i]) {
            Some(c) => {
                return Some(c);
            },
            None => {},
        }
        i += 1;
    }
    None
}

/// Finds the last condition that asks for new metadata.
pub fn find_last_new_metadata(conditions: &Vec<Node>) -> (r: Option<
    NewMetadataCondition<Node, Node>,
>)
    ensures
        match r {
            Some(c) => last_new_metadata(trees(conditions@)) == Some(c@),
            None => last_new_metadata(trees(conditions@)) is None,
        },
{
    let mut found: Option<NewMetadataCondition<Node, Node>> = None;
    let mut i: usize = 0;
    let ghost all = trees(conditions@);
    assert(all.subrange(0, 0) =~= Seq::<Tree>::empty());
    while i < conditions.len()
        invariant
            i <= conditions.len(),
            all == trees(conditions@),
            match found {
                Some(c) => last_new_metadata(all.subrange(0, i as int)) == Some(c@),
                None => last_new_metadata(all.subrange(0, i as int)) is None,
            },
        decreases conditions.len() - i,
    {
        proof {
            let next = all.subrange(0, i + 1);
            assert(next.last() == conditions@[i as int]@);
            assert(next.drop_last() =~= all.subrange(0, i as int));
        }
        match NewMetadataCondition::<Node, Node>::from_clvm(&conditions[i]) {
            Ok(c) => {
                found = Some(c);
            },
            Err(_) => {},
        }
        i += 1;
    }
    assert(all.subrange(0, conditions@.len() as int) =~= all);
    found
}

/// Reads the metadata that the updater of data stores hands on.
pub fn next_metadata_of<M: MetadataWithRootHash>(updater_solution: &Node) -> (r: Result<
    M,
    FromClvmError,
>)
    ensures
        match r {
            Ok(m) => next_metadata::<M>(updater_solution@) == Ok::<Tree, FromClvmError>(m.tree()),
            Err(e) => next_metadata::<M>(updater_solution@) == Err::<Tree, FromClvmError>(e),
        },
{
    let f = match updater_solution.list_of(2) {
        Err(e) => {
            return Err(e);
        },
        Ok(f) => f,
    };
    assert(ref_trees(f@)[0] == f@[0]@);
    let g = match f[0].list_of(2) {
        Err(e) => {
            return Err(e);
        },
        Ok(g) => g,
    };
    assert(ref_trees(g@)[0] == g@[0]@);
    assert(ref_trees(g@)[1] == g@[1]@);
    let metadata = match M::from_clvm(g[0]) {
        Err(e) => {
            return Err(e);
        },
        Ok(m) => m,
    };
    match g[1].as_bytes32() {
        Err(e) => Err(e),
        Ok(_) => Ok(metadata),
    }
}

impl<M: MetadataWithRootHash> DataStore<M> {
    /// Reads what the spend of a data store says before any puzzle is run.
    pub fn parse_parent_spend(coin: Coin, puzzle: &Node, solution: &Node, modules: &Modules) -> (r:
        Result<Option<ParentSpend<M>>, DriverError>)
        ensures
            match r {
                Ok(Some(parent)) => parent_spend::<M>(coin, puzzle@, solution@, *modules) == Ok::<
                    Option<ParentSpendView>,
                    DriverError,
                >(Some(parent@)),
                Ok(None) => parent_spend::<M>(coin, puzzle@, solution@, *modules) == Ok::<
                    Option<ParentSpendView>,
                    DriverError,
                >(None),
                Err(e) => parent_spend::<M>(coin, puzzle@, solution@, *modules) == Err::<
                    Option<ParentSpendView>,
                    DriverError,
                >(e),
            },
    {
        let singleton_layer = match SingletonLayer::parse_puzzle(puzzle, modules) {
            Err(e) => {
                return Err(e);
            },
            Ok(None) => {
                return Ok(None);
            },
            Ok(Some(layer)) => layer,
        };
        let state_layer = match NftStateLayer::<M>::parse_puzzle(
            &singleton_layer.inner_puzzle,
            modules,
        ) {
            Err(e) => {
                return Err(e);
            },
            Ok(None) => {
                return Ok(None);
            },
            Ok(Some(layer)) => layer,
        };
        let parent_solution = match SingletonLayer::parse_solution(solution) {
            Err(e) => {
                return Err(DriverError::FromClvm(e));
            },
            Ok(s) => s,
        };
        let inner = match NftStateLayer::<M>::parse_solution(&parent_solution.inner_solution) {
            Err(e) => {
                return Err(DriverError::FromClvm(e));
            },
            Ok(s) => s,
        };
        Ok(
            Some(
                ParentSpend {
                    coin,
                    singleton_layer,
                    state_layer,
                    inner_solution: inner.inner_solution,
                },
            ),
        )
    }

    /// Works out the child of a spend as far as the output of the puzzle
    /// inside the state layer tells.
    pub fn child_from_inner_output(parent: ParentSpend<M>, inner_output: &Node, modules: &Modules) -> (r:
        Result<ChildProgress<M>, DriverError>)
        ensures
            match r {
                Ok(progress) => child_of_inner_output::<M>(parent@, inner_output@, *modules) == Ok::<
                    ChildProgressView,
                    DriverError,
                >(progress@),
                Err(e) => child_of_inner_output::<M>(parent@, inner_output@, *modules) == Err::<
                    ChildProgressView,
                    DriverError,
                >(e),
            },
    {
        let conditions = match conditions_of(inner_output) {
            Err(e) => {
                return Err(DriverError::FromClvm(e));
            },
            Ok(c) => c,
        };
        let create_coin = match find_last_odd_create_coin(&conditions) {
            None => {
                return Err(DriverError::MissingChild);
            },
            Some(c) => c,
        };
        let ParentSpend { coin: parent_coin, singleton_layer, state_layer, inner_solution } = parent;
        let NftStateLayer { metadata, metadata_updater_puzzle_hash, inner_puzzle } = state_layer;
        let new_metadata = match find_last_new_metadata(&conditions) {
            Some(c) => match next_metadata_of::<M>(&c.metadata_updater_solution) {
                Err(e) => {
                    return Err(DriverError::FromClvm(e));
                },
                Ok(m) => m,
            },
            None => metadata,
        };
        // the coin of the child is known whatever follows
        let new_puzzle_hash = singleton_curry_tree_hash(
            modules,
            singleton_layer.launcher_id,
            state_layer_curry_tree_hash(
                modules,
                new_metadata.to_clvm().tree_hash(),
                metadata_updater_puzzle_hash,
                create_coin.puzzle_hash,
            ),
        );
        let new_coin = Coin {
            parent_coin_info: parent_coin.coin_id(),
            puzzle_hash: new_puzzle_hash,
            amount: create_coin.amount,
        };
        let proof = Proof::Lineage(singleton_layer.lineage_proof(parent_coin));
        let inner_hash = inner_puzzle.tree_hash();
        let launcher_id = singleton_layer.launcher_id;
        // a child that comes with memos has a delegation layer, and the memos
        // say which puzzles are delegated
        if create_coin.memos.len() > 1 {
            return match Self::build_datastore(
                new_coin,
                launcher_id,
                proof,
                new_metadata,
                inner_hash,
                create_coin.memos,
            ) {
                Ok(store) => Ok(ChildProgress::Done(store)),
                Err(e) => Err(e),
            };
        }
        // does the parent have a delegation layer?
        match DelegationLayer::parse_puzzle(&inner_puzzle, modules) {
            Err(e) => Err(e),
            Ok(None) => Ok(
                ChildProgress::Done(
                    DataStore {
                        coin: new_coin,
                        proof,
                        info: DataStoreInfo {
                            launcher_id,
                            metadata: new_metadata,
                            owner_puzzle_hash: inner_hash,
                            delegated_puzzles: Vec::new(),
                        },
                    },
                ),
            ),
            Ok(Some(layer)) => {
                let solution = match DelegationLayerSolution::<Node, Node>::from_clvm(
                    &inner_solution,
                ) {
                    Err(e) => {
                        return Err(DriverError::FromClvm(e));
                    },
                    Ok(s) => s,
                };
                Ok(
                    ChildProgress::Delegated {
                        pending: DataStore {
                            coin: new_coin,
                            proof,
                            info: DataStoreInfo {
                                launcher_id,
                                metadata: new_metadata,
                                owner_puzzle_hash: layer.owner_puzzle_hash,
                                delegated_puzzles: Vec::new(),
                            },
                        },
                        delegation_layer_hash: inner_hash,
                        puzzle_reveal: solution.puzzle_reveal,
                        puzzle_solution: solution.puzzle_solution,
                    },
                )
            },
        }
    }

    /// Works out the child of a spend through the delegation layer from what
    /// the delegated puzzle has emitted.
    pub fn child_from_delegated_output(
        pending: DataStore<M>,
        delegation_layer_hash: Bytes32,
        output: &Node,
        parent_delegated_puzzles: Vec<DelegatedPuzzle>,
    ) -> (r: Result<Self, DriverError>)
        ensures
            match r {
                Ok(store) => child_of_delegated_output(
                    pending@,
                    delegation_layer_hash,
                    output@,
                    parent_delegated_puzzles@,
                ) == Ok::<DataStoreView, DriverError>(store@),
                Err(e) => child_of_delegated_output(
                    pending@,
                    delegation_layer_hash,
                    output@,
                    parent_delegated_puzzles@,
                ) == Err::<DataStoreView, DriverError>(e),
            },
    {
        let conditions = match conditions_of(output) {
            Err(e) => {
                return Err(DriverError::FromClvm(e));
            },
            Ok(c) => c,
        };
        let DataStore { coin, proof, info } = pending;
        let DataStoreInfo { launcher_id, metadata, owner_puzzle_hash, delegated_puzzles: _ } = info;
        match find_first_odd_create_coin(&conditions) {
            None => {
                // the delegated puzzle creates no coin: the delegation layer
                // has recreated itself
                Ok(
                    DataStore {
                        coin,
                        proof,
                        info: DataStoreInfo {
                            launcher_id,
                            metadata,
                            owner_puzzle_hash,
                            delegated_puzzles: parent_delegated_puzzles,
                        },
                    },
                )
            },
            Some(create_coin) => {
                if create_coin.puzzle_hash == delegation_layer_hash {
                    // the owner recreates the delegation layer as it was
                    Ok(
                        DataStore {
                            coin,
                            proof,
                            info: DataStoreInfo {
                                launcher_id,
                                metadata,
                                owner_puzzle_hash,
                                delegated_puzzles: parent_delegated_puzzles,
                            },
                        },
                    )
                } else {
                    // the owner leaves the delegation layer
                    Ok(
                        DataStore {
                            coin,
                            proof,
                            info: DataStoreInfo {
                                launcher_id,
                                metadata,
                                owner_puzzle_hash: create_coin.puzzle_hash,
                                delegated_puzzles: Vec::new(),
                            },
                        },
                    )
                }
            },
        }
    }
}

} // verus!
