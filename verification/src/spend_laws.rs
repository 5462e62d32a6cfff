//! What holds of a spend that a driver has built when it is read back.
use vstd::prelude::*;
use crate::bytes::Bytes32;
use crate::cat::{cat_child, cat_spent, CATView, CAT};
use crate::cat_layer::{cat_puzzle_hash, CATLayerView};
use crate::codec::{lemma_bytes32_of, lemma_parse_fields_list, parse_fields, uint_tree};
use crate::coin::{coin_id_of, Coin, Proof};
use crate::delegated_layers::{OracleLayer, WriterLayerView};
use crate::datalayer::DelegatedPuzzle;
use crate::delegation_layer::{
    delegation_layer_puzzle_hash, DelegationBranch, DelegationLayer, DelegationLayerSolutionView,
};
use crate::merkle::lemma_proof_soundness;
use crate::datastore::{
    built_datastore, lemma_memo_round_trip, owner_create_coin, DataStore, DataStoreInfoView,
    DataStoreView,
};
use crate::datastore_child::{
    child_of_delegated_output, child_of_inner_output, emitted_conditions, first_odd_create_coin,
    last_new_metadata, last_odd_create_coin, parent_spend, spent, store_puzzle_hash,
    ChildProgressView, ParentSpendView,
};
use crate::error::{DriverError, FromClvmError};
use crate::metadata::MetadataWithRootHash;
use crate::modules::Modules;
use crate::node::Tree;
use crate::number::lemma_decode_uint_atom;
use crate::singleton_layer::{singleton_puzzle_hash, SingletonSolution};
use crate::state_layer::{lemma_parse_state_layer, NftStateLayerView};
use crate::vm::{deserialized, run_output, MAX_PUZZLE_COST};

verus! {

/// A proof that is written is read back as the same proof.
pub proof fn lemma_proof_round_trip(p: Proof)
    ensures
        Proof::parse(p.tree()) == Ok::<Proof, FromClvmError>(p),
{
    match p {
        Proof::Lineage(l) => {
            l.lemma_round_trip();
        },
        Proof::Eve(e) => {
            let f = seq![
                Tree::Atom(e.parent_parent_coin_info@),
                uint_tree(e.parent_amount as nat),
            ];
            lemma_parse_fields_list(f, Tree::nil());
            lemma_bytes32_of(e.parent_parent_coin_info);
            lemma_decode_uint_atom(e.parent_amount);
            // a list of two is no list of three
            assert(parse_fields(e.tree(), 3) is Err) by {
                reveal_with_fuel(parse_fields, 4);
                reveal_with_fuel(Tree::list_with_tail, 3);
                assert(f.drop_first() =~= seq![f[1]]);
                assert(f.drop_first().drop_first() =~= Seq::<Tree>::empty());
            }
        },
    }
}

/// The spend that `DataStore::spend` builds is read back as a spend of the
/// layers it was built from: the singleton layer of the store's launcher id
/// around the state layer of its metadata, with the inner solution it was
/// given.
pub proof fn lemma_parse_after_construct<M: MetadataWithRootHash>(
    store: DataStore<M>,
    inner_puzzle: Tree,
    inner_solution: Tree,
    modules: Modules,
)
    requires
        modules.wf(),
    ensures
        parent_spend::<M>(
            store.coin,
            store@.info.puzzle(inner_puzzle, modules),
            store@.solution(inner_puzzle, inner_solution, modules),
            modules,
        ) == Ok::<Option<ParentSpendView>, DriverError>(
            Some(
                ParentSpendView {
                    coin: store.coin,
                    singleton_layer: store@.info.singleton_layer(inner_puzzle, modules),
                    state_layer: store@.info.state_layer(inner_puzzle, modules),
                    inner_solution: store@.info.state_inner_solution(inner_puzzle, inner_solution, modules),
                },
            ),
        ),
{
    let info = store@.info;
    let singleton = info.singleton_layer(inner_puzzle, modules);
    singleton.lemma_parse_puzzle(modules);
    lemma_parse_state_layer::<M>(
        store.info.metadata,
        modules.dl_metadata_updater_hash,
        info.state_inner_puzzle(inner_puzzle, modules),
        modules,
    );
    let state_solution = NftStateLayerView::solution(
        info.state_inner_solution(inner_puzzle, inner_solution, modules),
    );
    let solution = SingletonSolution::<Tree> {
        lineage_proof: store.proof,
        amount: store.coin.amount,
        inner_solution: state_solution,
    };
    lemma_parse_fields_list(
        seq![store.proof.tree(), uint_tree(store.coin.amount as nat), state_solution],
        Tree::nil(),
    );
    lemma_proof_round_trip(store.proof);
    lemma_decode_uint_atom(store.coin.amount);
    NftStateLayerView::lemma_parse_solution(
        info.state_inner_solution(inner_puzzle, inner_solution, modules),
    );
}

/// The puzzle of a store hashes to the puzzle hash predicted from its info:
/// the singleton layer of its launcher id around the state layer of its
/// metadata around the owner's puzzle or the delegation layer. Where nothing
/// is delegated, the inner puzzle must be the owner's.
pub proof fn lemma_store_puzzle_hash(info: DataStoreInfoView, inner_puzzle: Tree, modules: Modules)
    requires
        modules.wf(),
        info.delegated_puzzles.len() == 0 ==> inner_puzzle.tree_hash() == info.owner_puzzle_hash,
    ensures
        info.puzzle(inner_puzzle, modules).tree_hash() == singleton_puzzle_hash(
            modules,
            info.launcher_id,
            info.inner_puzzle_hash(modules),
        ),
        info.state_layer(inner_puzzle, modules).puzzle(modules).tree_hash()
            == info.inner_puzzle_hash(modules),
{
    info.singleton_layer(inner_puzzle, modules).lemma_puzzle_hash(modules);
    info.state_layer(inner_puzzle, modules).lemma_puzzle_hash(modules);
    if info.delegated_puzzles.len() > 0 {
        info.delegation_layer().lemma_puzzle_hash(modules);
    }
}

/// Reading back the spend that `DataStore::spend` builds.
///
/// The spend is recognised as the spend of a data store: the result is never
/// `Ok(None)`. A child that is read from it descends from the coin that was
/// spent, keeps the launcher id, and carries the lineage proof that
/// `child_lineage_proof` gives for the store. For the lineage proof the inner
/// puzzle must be the owner's where nothing is delegated.
///
/// A coin whose puzzle hash is the launcher's is read as a launch and is left
/// out here.
pub proof fn lemma_spend_read_back<M: MetadataWithRootHash>(
    store: DataStore<M>,
    inner_puzzle: Tree,
    inner_solution: Tree,
    puzzle_reveal: Seq<u8>,
    solution: Seq<u8>,
    parent_delegated_puzzles: Seq<DelegatedPuzzle>,
    modules: Modules,
)
    requires
        modules.wf(),
        store.coin.puzzle_hash != modules.singleton_launcher.hash,
        deserialized(puzzle_reveal) == store@.info.puzzle(inner_puzzle, modules),
        deserialized(solution) == store@.solution(inner_puzzle, inner_solution, modules),
    ensures
        ({
            let read = spent::<M>(
                store.coin,
                puzzle_reveal,
                solution,
                parent_delegated_puzzles,
                modules,
            );
            &&& read != Ok::<Option<DataStoreView>, DriverError>(None)
            &&& match read {
                Ok(Some(child)) => {
                    &&& child.coin.parent_coin_info == coin_id_of(store.coin)
                    &&& child.info.launcher_id == store.info.launcher_id
                    &&& (store.info.delegated_puzzles@.len() == 0 ==> inner_puzzle.tree_hash()
                        == store.info.owner_puzzle_hash) ==> child.proof == Proof::Lineage(
                        store@.child_lineage_proof(modules),
                    )
                },
                _ => true,
            }
        }),
{
    lemma_parse_after_construct::<M>(store, inner_puzzle, inner_solution, modules);
    let parent = ParentSpendView {
        coin: store.coin,
        singleton_layer: store@.info.singleton_layer(inner_puzzle, modules),
        state_layer: store@.info.state_layer(inner_puzzle, modules),
        inner_solution: store@.info.state_inner_solution(inner_puzzle, inner_solution, modules),
    };
    if store.info.delegated_puzzles@.len() == 0 ==> inner_puzzle.tree_hash()
        == store.info.owner_puzzle_hash {
        lemma_store_puzzle_hash(store@.info, inner_puzzle, modules);
    }
    let inner_output = run_output(
        parent.state_layer.inner_puzzle,
        parent.inner_solution,
        MAX_PUZZLE_COST,
    );
    lemma_child_descends::<M>(parent, inner_output, modules);
}

/// A store without delegated puzzles that is spent with a puzzle that creates
/// one coin of odd amount is read back as the store on that coin: same
/// launcher id and metadata, owned by the puzzle that was run, with nothing
/// delegated, under the lineage proof of the store that was spent.
///
/// This is the case of a puzzle that asks for no new metadata, gives the coin
/// at most one memo and is itself no delegation layer.
pub proof fn lemma_owner_spend_child<M: MetadataWithRootHash>(
    store: DataStore<M>,
    inner_puzzle: Tree,
    inner_solution: Tree,
    puzzle_reveal: Seq<u8>,
    solution: Seq<u8>,
    parent_delegated_puzzles: Seq<DelegatedPuzzle>,
    modules: Modules,
)
    requires
        modules.wf(),
        store.coin.puzzle_hash != modules.singleton_launcher.hash,
        deserialized(puzzle_reveal) == store@.info.puzzle(inner_puzzle, modules),
        deserialized(solution) == store@.solution(inner_puzzle, inner_solution, modules),
        store.info.delegated_puzzles@.len() == 0,
        DelegationLayer::parse(inner_puzzle, modules) == Ok::<Option<DelegationLayer>, DriverError>(
            None,
        ),
        emitted_conditions(run_output(inner_puzzle, inner_solution, MAX_PUZZLE_COST)) is Ok,
        last_odd_create_coin(
            emitted_conditions(run_output(inner_puzzle, inner_solution, MAX_PUZZLE_COST))->Ok_0,
        ) is Some,
        last_odd_create_coin(
            emitted_conditions(run_output(inner_puzzle, inner_solution, MAX_PUZZLE_COST))->Ok_0,
        )->0.memos.len() <= 1,
        last_new_metadata(
            emitted_conditions(run_output(inner_puzzle, inner_solution, MAX_PUZZLE_COST))->Ok_0,
        ) is None,
    ensures
        ({
            let created = last_odd_create_coin(
                emitted_conditions(
                    run_output(inner_puzzle, inner_solution, MAX_PUZZLE_COST),
                )->Ok_0,
            )->0;
            spent::<M>(store.coin, puzzle_reveal, solution, parent_delegated_puzzles, modules)
                == Ok::<Option<DataStoreView>, DriverError>(
                Some(
                    DataStoreView {
                        coin: Coin {
                            parent_coin_info: coin_id_of(store.coin),
                            puzzle_hash: store_puzzle_hash(
                                modules,
                                store.info.launcher_id,
                                store.info.metadata.tree().tree_hash(),
                                modules.dl_metadata_updater_hash,
                                created.puzzle_hash,
                            ),
                            amount: created.amount,
                        },
                        proof: Proof::Lineage(
                            store@.info.singleton_layer(inner_puzzle, modules).lineage_proof(
                                store.coin,
                            ),
                        ),
                        info: DataStoreInfoView {
                            launcher_id: store.info.launcher_id,
                            metadata: store.info.metadata.tree(),
                            owner_puzzle_hash: inner_puzzle.tree_hash(),
                            delegated_puzzles: Seq::empty(),
                        },
                    },
                ),
            )
        }),
{
    lemma_parse_after_construct::<M>(store, inner_puzzle, inner_solution, modules);
}

/// A store with delegated puzzles that is spent is read back as the store on
/// the coin that its delegation layer creates, where that layer creates one
/// coin of odd amount with at most one memo and asks for no new metadata: the
/// child has the launcher id and the metadata of the store and the lineage
/// proof of the store that was spent, and what the revealed puzzle emits
/// decides who owns it and what is delegated.
///
/// Where the revealed puzzle creates no coin of odd amount, as the oracle
/// puzzle and a writer do, the child keeps the owner, and the delegated
/// puzzles that the caller hands over. Where the delegation layer has
/// recreated itself and the caller hands over the delegated puzzles of the
/// store, the child is the store again: the same info, on a coin of the same
/// puzzle hash. Where the revealed puzzle sends its first coin of odd amount
/// elsewhere, as an owner who leaves does, that puzzle hash owns the child
/// and nothing is delegated, whatever the caller hands over.
pub proof fn lemma_delegated_spend_child<M: MetadataWithRootHash>(
    store: DataStore<M>,
    inner_puzzle: Tree,
    inner_solution: Tree,
    puzzle_reveal: Seq<u8>,
    solution: Seq<u8>,
    parent_delegated_puzzles: Seq<DelegatedPuzzle>,
    modules: Modules,
)
    requires
        modules.wf(),
        store.coin.puzzle_hash != modules.singleton_launcher.hash,
        deserialized(puzzle_reveal) == store@.info.puzzle(inner_puzzle, modules),
        deserialized(solution) == store@.solution(inner_puzzle, inner_solution, modules),
        store.info.delegated_puzzles@.len() > 0,
        emitted_conditions(layer_output(store@.info, inner_puzzle, inner_solution, modules)) is Ok,
        last_odd_create_coin(
            emitted_conditions(
                layer_output(store@.info, inner_puzzle, inner_solution, modules),
            )->Ok_0,
        ) is Some,
        last_odd_create_coin(
            emitted_conditions(
                layer_output(store@.info, inner_puzzle, inner_solution, modules),
            )->Ok_0,
        )->0.memos.len() <= 1,
        last_new_metadata(
            emitted_conditions(
                layer_output(store@.info, inner_puzzle, inner_solution, modules),
            )->Ok_0,
        ) is None,
        emitted_conditions(run_output(inner_puzzle, inner_solution, MAX_PUZZLE_COST)) is Ok,
    ensures
        ({
            let info = store@.info;
            let created = last_odd_create_coin(
                emitted_conditions(layer_output(info, inner_puzzle, inner_solution, modules))->Ok_0,
            )->0;
            let layer_hash = delegation_layer_puzzle_hash(modules, info.delegation_layer());
            let revealed = first_odd_create_coin(
                emitted_conditions(run_output(inner_puzzle, inner_solution, MAX_PUZZLE_COST))->Ok_0,
            );
            let stays = revealed is None || revealed->0.puzzle_hash == layer_hash;
            let read = spent::<M>(
                store.coin,
                puzzle_reveal,
                solution,
                parent_delegated_puzzles,
                modules,
            );
            &&& read is Ok
            &&& read->Ok_0 is Some
            &&& read->Ok_0->0.coin == Coin {
                parent_coin_info: coin_id_of(store.coin),
                puzzle_hash: store_puzzle_hash(
                    modules,
                    info.launcher_id,
                    info.metadata.tree_hash(),
                    modules.dl_metadata_updater_hash,
                    created.puzzle_hash,
                ),
                amount: created.amount,
            }
            &&& read->Ok_0->0.proof == Proof::Lineage(store@.child_lineage_proof(modules))
            &&& read->Ok_0->0.info == if stays {
                DataStoreInfoView { delegated_puzzles: parent_delegated_puzzles, ..info }
            } else {
                DataStoreInfoView {
                    owner_puzzle_hash: revealed->0.puzzle_hash,
                    delegated_puzzles: Seq::empty(),
                    ..info
                }
            }
            &&& stays && created.puzzle_hash == layer_hash && parent_delegated_puzzles
                == info.delegated_puzzles ==> {
                &&& read->Ok_0->0.info == info
                &&& read->Ok_0->0.coin.puzzle_hash == singleton_puzzle_hash(
                    modules,
                    info.launcher_id,
                    info.inner_puzzle_hash(modules),
                )
            }
        }),
{
    let info = store@.info;
    lemma_parse_after_construct::<M>(store, inner_puzzle, inner_solution, modules);
    lemma_store_puzzle_hash(info, inner_puzzle, modules);
    info.delegation_layer().lemma_parse_puzzle(modules);
    info.delegation_layer().lemma_puzzle_hash(modules);
    (DelegationLayerSolutionView {
        merkle_proof: info.merkle_proof(inner_puzzle, modules),
        puzzle_reveal: inner_puzzle,
        puzzle_solution: inner_solution,
    }).lemma_round_trip();
}

/// What the delegation layer of a store returns when the store is spent with
/// `inner_puzzle` and `inner_solution`.
pub open spec fn layer_output(
    info: DataStoreInfoView,
    inner_puzzle: Tree,
    inner_solution: Tree,
    modules: Modules,
) -> Tree {
    run_output(
        info.delegation_layer().puzzle(modules),
        info.state_inner_solution(inner_puzzle, inner_solution, modules),
        MAX_PUZZLE_COST,
    )
}

/// A store that is recreated with the condition that `owner_create_coin`
/// gives, with the delegated puzzles hinted, is read back as the store that
/// was asked for: it has the new owner and the new delegated puzzles, and its
/// coin has the puzzle hash that is predicted from its info, so that the
/// puzzle built from the info is the puzzle of the coin.
///
/// This holds where that condition creates the last coin of odd amount and no
/// new metadata is asked for, whatever else is emitted, and whether the store
/// that is spent has a delegation layer or not.
pub proof fn lemma_recreated_child<M: MetadataWithRootHash>(
    parent: ParentSpendView,
    inner_output: Tree,
    new_owner: Bytes32,
    new_delegated_puzzles: Seq<DelegatedPuzzle>,
    modules: Modules,
)
    requires
        parent.state_layer.metadata_updater_puzzle_hash == modules.dl_metadata_updater_hash,
        emitted_conditions(inner_output) is Ok,
        last_odd_create_coin(emitted_conditions(inner_output)->Ok_0) == Some(
            owner_create_coin(
                modules,
                parent.singleton_layer.launcher_id,
                new_owner,
                new_delegated_puzzles,
                true,
            ),
        ),
        last_new_metadata(emitted_conditions(inner_output)->Ok_0) is None,
    ensures
        ({
            let info = DataStoreInfoView {
                launcher_id: parent.singleton_layer.launcher_id,
                metadata: parent.state_layer.metadata,
                owner_puzzle_hash: new_owner,
                delegated_puzzles: new_delegated_puzzles,
            };
            child_of_inner_output::<M>(parent, inner_output, modules) == Ok::<
                ChildProgressView,
                DriverError,
            >(
                ChildProgressView::Done(
                    DataStoreView {
                        coin: Coin {
                            parent_coin_info: coin_id_of(parent.coin),
                            puzzle_hash: singleton_puzzle_hash(
                                modules,
                                info.launcher_id,
                                info.inner_puzzle_hash(modules),
                            ),
                            amount: 1,
                        },
                        proof: Proof::Lineage(parent.singleton_layer.lineage_proof(parent.coin)),
                        info,
                    },
                ),
            )
        }),
{
    let launcher_id = parent.singleton_layer.launcher_id;
    let created = owner_create_coin(modules, launcher_id, new_owner, new_delegated_puzzles, true);
    let coin = Coin {
        parent_coin_info: coin_id_of(parent.coin),
        puzzle_hash: store_puzzle_hash(
            modules,
            launcher_id,
            parent.state_layer.metadata.tree_hash(),
            parent.state_layer.metadata_updater_puzzle_hash,
            created.puzzle_hash,
        ),
        amount: 1,
    };
    lemma_memo_round_trip(
        coin,
        launcher_id,
        Proof::Lineage(parent.singleton_layer.lineage_proof(parent.coin)),
        parent.state_layer.metadata,
        M::tree_root_hash(parent.state_layer.metadata),
        parent.state_layer.inner_puzzle.tree_hash(),
        new_owner,
        new_delegated_puzzles,
    );
    assert(created.memos.len() >= 2);
}

/// The owner and the delegated puzzles of the child of a store that has a
/// delegation layer, row by row.
///
/// A child that comes with more than one memo is the store that the memos
/// describe: the owner or an admin has changed the delegated puzzles. Else
/// the delegated puzzle decides. Where it creates no coin of odd amount (an
/// admin or a writer changes the metadata, the oracle is paid), the child
/// keeps the owner of the layer and the delegated puzzles of the parent. Where
/// its first coin of odd amount goes to the delegation layer's own puzzle
/// hash (the owner stays), the same. Where that coin goes elsewhere (the owner
/// leaves), its puzzle hash owns the child and nothing is delegated.
pub proof fn lemma_delegation_rows<M: MetadataWithRootHash>(
    parent: ParentSpendView,
    inner_output: Tree,
    delegated_output: Tree,
    parent_delegated_puzzles: Seq<DelegatedPuzzle>,
    modules: Modules,
)
    requires
        DelegationLayer::parse(parent.state_layer.inner_puzzle, modules) is Ok,
        DelegationLayer::parse(parent.state_layer.inner_puzzle, modules)->Ok_0 is Some,
        emitted_conditions(delegated_output) is Ok,
    ensures
        ({
            let layer = DelegationLayer::parse(parent.state_layer.inner_puzzle, modules)->Ok_0->0;
            let emitted = emitted_conditions(delegated_output)->Ok_0;
            match child_of_inner_output::<M>(parent, inner_output, modules) {
                Ok(ChildProgressView::Done(child)) => {
                    let created = last_odd_create_coin(emitted_conditions(inner_output)->Ok_0)->0;
                    &&& created.memos.len() > 1
                    &&& built_datastore(
                        child.coin,
                        child.info.launcher_id,
                        child.proof,
                        child.info.metadata,
                        M::tree_root_hash(child.info.metadata),
                        parent.state_layer.inner_puzzle.tree_hash(),
                        created.memos,
                    ) == Ok::<DataStoreView, DriverError>(child)
                },
                Ok(ChildProgressView::Delegated { pending, delegation_layer_hash, .. }) => {
                    let child = child_of_delegated_output(
                        pending,
                        delegation_layer_hash,
                        delegated_output,
                        parent_delegated_puzzles,
                    )->Ok_0;
                    &&& delegation_layer_hash == parent.state_layer.inner_puzzle.tree_hash()
                    &&& child.coin == pending.coin
                    &&& child.info.metadata == pending.info.metadata
                    &&& match first_odd_create_coin(emitted) {
                        None => child.info.owner_puzzle_hash == layer.owner_puzzle_hash
                            && child.info.delegated_puzzles == parent_delegated_puzzles,
                        Some(created) => if created.puzzle_hash == delegation_layer_hash {
                            child.info.owner_puzzle_hash == layer.owner_puzzle_hash
                                && child.info.delegated_puzzles == parent_delegated_puzzles
                        } else {
                            child.info.owner_puzzle_hash == created.puzzle_hash
                                && child.info.delegated_puzzles == Seq::<DelegatedPuzzle>::empty()
                        },
                    }
                },
                Err(_) => true,
            }
        }),
{
}

/// What every child has from its parent, whatever the puzzles emit: it
/// descends from the coin that was spent, keeps the launcher id, and carries
/// the lineage proof of the parent's singleton layer.
pub proof fn lemma_child_descends<M: MetadataWithRootHash>(
    parent: ParentSpendView,
    inner_output: Tree,
    modules: Modules,
)
    ensures
        match child_of_inner_output::<M>(parent, inner_output, modules) {
            Ok(ChildProgressView::Done(child)) => descends(parent, child),
            Ok(ChildProgressView::Delegated { pending, delegation_layer_hash, .. }) => {
                &&& descends(parent, pending)
                &&& forall|output: Tree, kept: Seq<DelegatedPuzzle>|
                    match #[trigger] child_of_delegated_output(
                        pending,
                        delegation_layer_hash,
                        output,
                        kept,
                    ) {
                        Ok(child) => descends(parent, child),
                        Err(_) => true,
                    }
            },
            Err(_) => true,
        },
{
}

/// Whether a store has from a parent spend what every child has.
pub open spec fn descends(parent: ParentSpendView, child: DataStoreView) -> bool {
    &&& child.coin.parent_coin_info == coin_id_of(parent.coin)
    &&& child.info.launcher_id == parent.singleton_layer.launcher_id
    &&& child.proof == Proof::Lineage(parent.singleton_layer.lineage_proof(parent.coin))
}

/// The puzzle that `CAT::spend` reveals hashes to the puzzle hash of the
/// coin, where the coin is the CAT it is said to be: its puzzle hash is the
/// CAT layer of its asset around the owner's puzzle hash, and the puzzle that
/// is run is the owner's.
pub proof fn lemma_cat_puzzle_hash(cat: CAT, inner_puzzle: Tree, modules: Modules)
    requires
        modules.cat.wf(),
        cat.coin.puzzle_hash == cat_puzzle_hash(modules, cat.asset_id, cat.p2_puzzle_hash),
        cat.spend_inner_puzzle(inner_puzzle).tree_hash() == cat.p2_puzzle_hash,
    ensures
        cat.spend_puzzle(inner_puzzle, modules).tree_hash() == cat.coin.puzzle_hash,
{
    (CATLayerView {
        asset_id: cat.asset_id,
        inner_puzzle: cat.spend_inner_puzzle(inner_puzzle),
    }).lemma_puzzle_hash(modules);
}

/// The spend that `CAT::spend` builds is read back as a spend of the CAT
/// layer of the same asset, never as no CAT: what is read from it is what the
/// owner's puzzle creates, and a child that is read from it is a coin of the same asset that
/// descends from the coin that was spent.
pub proof fn lemma_cat_read_back(
    cat: CAT,
    lineage_proof: Proof,
    inner_puzzle: Tree,
    inner_solution: Tree,
    puzzle_reveal: Seq<u8>,
    solution: Seq<u8>,
    modules: Modules,
)
    requires
        modules.cat.wf(),
        deserialized(puzzle_reveal) == cat.spend_puzzle(inner_puzzle, modules),
        deserialized(solution) == cat.spend_solution(lineage_proof, inner_solution),
    ensures
        cat_spent(cat.coin, puzzle_reveal, solution, modules) == (match cat_child(
            cat.coin,
            cat.asset_id,
            run_output(cat.spend_inner_puzzle(inner_puzzle), inner_solution, MAX_PUZZLE_COST),
            modules,
        ) {
            Ok(child) => Ok::<Option<CATView>, DriverError>(Some(child)),
            Err(e) => Err::<Option<CATView>, DriverError>(e),
        }),
        cat_spent(cat.coin, puzzle_reveal, solution, modules) != Ok::<
            Option<CATView>,
            DriverError,
        >(None),
        match cat_spent(cat.coin, puzzle_reveal, solution, modules) {
            Ok(Some(child)) => child.asset_id == cat.asset_id && child.coin.parent_coin_info
                == coin_id_of(cat.coin) && child.coin.puzzle_hash == cat_puzzle_hash(
                modules,
                child.asset_id,
                child.p2_puzzle_hash,
            ),
            _ => true,
        },
{
    (CATLayerView {
        asset_id: cat.asset_id,
        inner_puzzle: cat.spend_inner_puzzle(inner_puzzle),
    }).lemma_parse_puzzle(modules);
    lemma_parse_fields_list(
        seq![inner_solution, lineage_proof.tree(), Tree::Atom(coin_id_of(cat.coin)@)],
        Tree::nil(),
    );
    lemma_proof_round_trip(lineage_proof);
    lemma_bytes32_of(coin_id_of(cat.coin));
}

/// The delegation layer of a store accepts the solution that
/// `DataStore::spend` builds: it runs a puzzle that stands for a delegated
/// puzzle with a leaf in the store's Merkle tree as a delegated puzzle, and
/// any other puzzle as the owner's, which it must then be.
pub proof fn lemma_spend_branch<M: MetadataWithRootHash>(
    store: DataStore<M>,
    inner_puzzle: Tree,
    inner_solution: Tree,
    modules: Modules,
)
    ensures
        ({
            let info = store@.info;
            let leaves = DelegatedPuzzle::leaves_of(info.delegated_puzzles);
            let solution = DelegationLayerSolutionView {
                merkle_proof: info.merkle_proof(inner_puzzle, modules),
                puzzle_reveal: inner_puzzle,
                puzzle_solution: inner_solution,
            };
            info.delegation_layer().branch_of(solution, modules) == (if leaves.contains(
                DelegatedPuzzle::revealed_leaf(inner_puzzle, modules),
            ) {
                Ok::<DelegationBranch, DriverError>(DelegationBranch::Delegated)
            } else if inner_puzzle.tree_hash() == info.owner_puzzle_hash {
                Ok::<DelegationBranch, DriverError>(DelegationBranch::Owner)
            } else {
                Err::<DelegationBranch, DriverError>(DriverError::LayerMismatch)
            })
        }),
{
    let info = store@.info;
    let leaves = DelegatedPuzzle::leaves_of(info.delegated_puzzles);
    let leaf = DelegatedPuzzle::revealed_leaf(inner_puzzle, modules);
    lemma_proof_soundness(leaves, leaf);
    if leaves.contains(leaf) {
        let i = leaves.index_of_first(leaf)->0;
        vstd::std_specs::vec::axiom_spec_len(&store.info.delegated_puzzles);
        assert(leaves.len() == store.info.delegated_puzzles@.len());
        assert(0 <= i < leaves.len());
        assert((i as u64) as int == i);
    }
}

/// A delegated puzzle of a store gets its Merkle proof: where the store
/// holds the delegated puzzle that a revealed puzzle stands for, the solution
/// that `DataStore::spend` builds carries a proof, and the delegation layer
/// runs the puzzle as a delegated puzzle.
pub proof fn lemma_delegated_branch<M: MetadataWithRootHash>(
    store: DataStore<M>,
    inner_puzzle: Tree,
    inner_solution: Tree,
    modules: Modules,
)
    requires
        store@.info.delegated_puzzles.contains(DelegatedPuzzle::revealed(inner_puzzle, modules)),
    ensures
        ({
            let info = store@.info;
            let solution = DelegationLayerSolutionView {
                merkle_proof: info.merkle_proof(inner_puzzle, modules),
                puzzle_reveal: inner_puzzle,
                puzzle_solution: inner_solution,
            };
            &&& solution.merkle_proof is Some
            &&& info.delegation_layer().branch_of(solution, modules) == Ok::<
                DelegationBranch,
                DriverError,
            >(DelegationBranch::Delegated)
        }),
{
    let info = store@.info;
    let delegated = DelegatedPuzzle::revealed(inner_puzzle, modules);
    lemma_spend_branch(store, inner_puzzle, inner_solution, modules);
    let i = choose|i: int|
        0 <= i < info.delegated_puzzles.len() && info.delegated_puzzles[i] == delegated;
    assert(DelegatedPuzzle::leaves_of(info.delegated_puzzles)[i] == delegated.leaf());
}

/// A writer and an oracle of a store get their Merkle proofs: where the
/// store holds the writer of a puzzle's hash, the writer's wrapper around that
/// puzzle is run as a delegated puzzle, and where it holds an oracle, the
/// oracle puzzle of that puzzle hash and fee is.
pub proof fn lemma_writer_and_oracle_branch<M: MetadataWithRootHash>(
    store: DataStore<M>,
    writer: WriterLayerView,
    oracle: OracleLayer,
    modules: Modules,
)
    requires
        modules.wf(),
    ensures
        store@.info.delegated_puzzles.contains(writer.delegated()) ==> forall|solution: Tree|
            #[trigger] store@.info.delegation_layer().branch_of(
                DelegationLayerSolutionView {
                    merkle_proof: store@.info.merkle_proof(writer.puzzle(modules), modules),
                    puzzle_reveal: writer.puzzle(modules),
                    puzzle_solution: solution,
                },
                modules,
            ) == Ok::<DelegationBranch, DriverError>(DelegationBranch::Delegated),
        store@.info.delegated_puzzles.contains(oracle.delegated()) ==> forall|solution: Tree|
            #[trigger] store@.info.delegation_layer().branch_of(
                DelegationLayerSolutionView {
                    merkle_proof: store@.info.merkle_proof(oracle.puzzle(modules), modules),
                    puzzle_reveal: oracle.puzzle(modules),
                    puzzle_solution: solution,
                },
                modules,
            ) == Ok::<DelegationBranch, DriverError>(DelegationBranch::Delegated),
{
    DelegatedPuzzle::lemma_writer_revealed(writer.inner_puzzle, modules);
    DelegatedPuzzle::lemma_oracle_revealed(oracle, modules);
    if store@.info.delegated_puzzles.contains(writer.delegated()) {
        assert forall|solution: Tree|
            #[trigger] store@.info.delegation_layer().branch_of(
                DelegationLayerSolutionView {
                    merkle_proof: store@.info.merkle_proof(writer.puzzle(modules), modules),
                    puzzle_reveal: writer.puzzle(modules),
                    puzzle_solution: solution,
                },
                modules,
            ) == Ok::<DelegationBranch, DriverError>(DelegationBranch::Delegated) by {
            lemma_delegated_branch(store, writer.puzzle(modules), solution, modules);
        }
    }
    if store@.info.delegated_puzzles.contains(oracle.delegated()) {
        assert forall|solution: Tree|
            #[trigger] store@.info.delegation_layer().branch_of(
                DelegationLayerSolutionView {
                    merkle_proof: store@.info.merkle_proof(oracle.puzzle(modules), modules),
                    puzzle_reveal: oracle.puzzle(modules),
                    puzzle_solution: solution,
                },
                modules,
            ) == Ok::<DelegationBranch, DriverError>(DelegationBranch::Delegated) by {
            lemma_delegated_branch(store, oracle.puzzle(modules), solution, modules);
        }
    }
}

} // verus!
