//! The data store: a singleton that holds metadata and may be spent by its
//! owner or by one of its delegated puzzles.
use vstd::prelude::*;
use crate::bytes::{bytes_eq, Bytes32};
use crate::codec::{bytes32_of, lemma_bytes32_of};
use crate::coin::{Coin, CoinSpend, LineageProof, Proof};
use crate::condition::{Condition, ConditionView};
use crate::conditions::{
    byte_node, byte_tree, CreateCoin, CreateCoinView, NewMetadataCondition, NewMetadataInfo,
    NewMetadataOutput,
};
use crate::datalayer::{get_merkle_tree, DelegatedPuzzle};
use crate::datastore_child::{spent, ChildProgress};
use crate::delegation_layer::{
    delegation_layer_puzzle_hash, DelegationLayer, DelegationLayerSolution,
    DelegationLayerSolutionView,
};
use crate::error::DriverError;
use crate::merkle::{merkle_path, merkle_root};
use crate::metadata::{DataStoreMetadata, MetadataWithRootHash};
use crate::modules::Modules;
use crate::node::{byte_views, Node, Tree};
use crate::number::encode_fee;
use crate::singleton_layer::{SingletonLayer, SingletonLayerView, SingletonSolution};
use crate::spend_context::{Spend, SpendContext};
use crate::state_layer::{
    state_layer_curry_tree_hash, state_layer_puzzle_hash, NftStateLayer, NftStateLayerSolution,
    NftStateLayerView,
};
use crate::vm::{deserialized, node_from_bytes, run_puzzle, serialized};

verus! {

/// What a data store is, apart from the coin that holds it.
#[derive(Debug, Clone, PartialEq, Eq)]
pub struct DataStoreInfo<M = DataStoreMetadata> {
    pub launcher_id: Bytes32,
    pub metadata: M,
    pub owner_puzzle_hash: Bytes32,
    pub delegated_puzzles: Vec<DelegatedPuzzle>,
}

/// The mathematical value of a `DataStoreInfo`. The metadata stands as the VM
/// value that the store commits to.
pub struct DataStoreInfoView {
    pub launcher_id: Bytes32,
    pub metadata: Tree,
    pub owner_puzzle_hash: Bytes32,
    pub delegated_puzzles: Seq<DelegatedPuzzle>,
}

impl<M: MetadataWithRootHash> View for DataStoreInfo<M> {
    type V = DataStoreInfoView;

    open spec fn view(&self) -> DataStoreInfoView {
        DataStoreInfoView {
            launcher_id: self.launcher_id,
            metadata: self.metadata.tree(),
            owner_puzzle_hash: self.owner_puzzle_hash,
            delegated_puzzles: self.delegated_puzzles@,
        }
    }
}

/// Everything that is required to spend a data store coin.
#[derive(Debug, Clone, PartialEq, Eq)]
pub struct DataStore<M = DataStoreMetadata> {
    /// The coin that holds the data store.
    pub coin: Coin,
    /// The lineage proof for the singleton layer.
    pub proof: Proof,
    /// What the data store is, including the metadata.
    pub info: DataStoreInfo<M>,
}

/// The mathematical value of a `DataStore`.
pub struct DataStoreView {
    pub coin: Coin,
    pub proof: Proof,
    pub info: DataStoreInfoView,
}

impl<M: MetadataWithRootHash> View for DataStore<M> {
    type V = DataStoreView;

    open spec fn view(&self) -> DataStoreView {
        DataStoreView { coin: self.coin, proof: self.proof, info: self.info@ }
    }
}

/// The memos that recreate a store: the launcher id, the owner's puzzle hash,
/// then the memos of each delegated puzzle in order.
pub open spec fn recreation_memos(
    launcher_id: Bytes32,
    owner_puzzle_hash: Bytes32,
    delegated_puzzles: Seq<DelegatedPuzzle>,
) -> Seq<Seq<u8>> {
    seq![launcher_id@, owner_puzzle_hash@] + DelegatedPuzzle::memos_of(delegated_puzzles)
}

/// The store that memos describe.
///
/// Without memos the owner is `fallback_owner_ph` and nothing is delegated.
/// Else the first memo must be the launcher id. Two memos after it, the first
/// of them the root hash, are the old form: the second is the owner. In every
/// other case the memo after the launcher id is the owner (`fallback_owner_ph`
/// where there is none) and the rest describe the delegated puzzles, with no
/// memo left over.
pub open spec fn built_datastore(
    coin: Coin,
    launcher_id: Bytes32,
    proof: Proof,
    metadata: Tree,
    root_hash: Bytes32,
    fallback_owner_ph: Bytes32,
    memos: Seq<Seq<u8>>,
) -> Result<DataStoreView, DriverError> {
    let store = |owner_puzzle_hash: Bytes32, delegated_puzzles: Seq<DelegatedPuzzle>|
        DataStoreView {
            coin,
            proof,
            info: DataStoreInfoView { launcher_id, metadata, owner_puzzle_hash, delegated_puzzles },
        };
    if memos.len() == 0 {
        Ok(store(fallback_owner_ph, Seq::empty()))
    } else if memos[0] != launcher_id@ {
        Err(DriverError::InvalidMemo)
    } else if memos.len() == 3 && memos[1] == root_hash@ {
        if memos[2].len() != 32 {
            Err(DriverError::InvalidMemo)
        } else {
            Ok(store(bytes32_of(memos[2]), Seq::empty()))
        }
    } else if memos.len() == 1 {
        Ok(store(fallback_owner_ph, Seq::empty()))
    } else if memos[1].len() != 32 {
        Err(DriverError::InvalidMemo)
    } else {
        match DelegatedPuzzle::parse_all(memos.skip(2)) {
            Err(e) => Err(e),
            Ok(delegated_puzzles) => Ok(store(bytes32_of(memos[1]), delegated_puzzles)),
        }
    }
}

/// The memos that recreate a store describe that store: whatever the coin,
/// the proof and the metadata, the store built from the recreation memos has
/// the owner and the delegated puzzles that the memos were written from.
pub proof fn lemma_memo_round_trip(
    coin: Coin,
    launcher_id: Bytes32,
    proof: Proof,
    metadata: Tree,
    root_hash: Bytes32,
    fallback_owner_ph: Bytes32,
    owner_puzzle_hash: Bytes32,
    delegated_puzzles: Seq<DelegatedPuzzle>,
)
    ensures
        built_datastore(
            coin,
            launcher_id,
            proof,
            metadata,
            root_hash,
            fallback_owner_ph,
            recreation_memos(launcher_id, owner_puzzle_hash, delegated_puzzles),
        ) == Ok::<DataStoreView, DriverError>(
            DataStoreView {
                coin,
                proof,
                info: DataStoreInfoView {
                    launcher_id,
                    metadata,
                    owner_puzzle_hash,
                    delegated_puzzles,
                },
            },
        ),
{
    let memos = recreation_memos(launcher_id, owner_puzzle_hash, delegated_puzzles);
    DelegatedPuzzle::lemma_parse_all_memos(delegated_puzzles);
    lemma_bytes32_of(owner_puzzle_hash);
    assert(memos.skip(2) =~= DelegatedPuzzle::memos_of(delegated_puzzles));
    if delegated_puzzles.len() == 0 {
        assert(memos.len() == 2);
    } else {
        assert(memos.len() >= 4);
    }
}

impl<M: MetadataWithRootHash> DataStore<M> {
    /// A data store with the given coin, proof and info.
    pub fn new(coin: Coin, proof: Proof, info: DataStoreInfo<M>) -> (r: Self)
        ensures
            r.coin == coin,
            r.proof == proof,
            r.info == info,
    {
        DataStore { coin, proof, info }
    }

    /// Builds the store that memos describe.
    pub fn build_datastore(
        coin: Coin,
        launcher_id: Bytes32,
        proof: Proof,
        metadata: M,
        fallback_owner_ph: Bytes32,
        memos: Vec<Vec<u8>>,
    ) -> (r: Result<Self, DriverError>)
        ensures
            match r {
                Ok(store) => built_datastore(
                    coin,
                    launcher_id,
                    proof,
                    metadata.tree(),
                    M::tree_root_hash(metadata.tree()),
                    fallback_owner_ph,
                    byte_views(memos@),
                ) == Ok::<DataStoreView, DriverError>(store@),
                Err(e) => built_datastore(
                    coin,
                    launcher_id,
                    proof,
                    metadata.tree(),
                    M::tree_root_hash(metadata.tree()),
                    fallback_owner_ph,
                    byte_views(memos@),
                ) == Err::<DataStoreView, DriverError>(e),
            },
    {
        let ghost m = byte_views(memos@);
        if memos.len() == 0 {
            // no hints: the owner's puzzle hash is the inner puzzle hash
            return Ok(
                DataStore {
                    coin,
                    proof,
                    info: DataStoreInfo {
                        launcher_id,
                        metadata,
                        owner_puzzle_hash: fallback_owner_ph,
                        delegated_puzzles: Vec::new(),
                    },
                },
            );
        }
        assert(m[0] == memos@[0]@);
        if !bytes_eq(memos[0].as_slice(), launcher_id.bytes.as_slice()) {
            return Err(DriverError::InvalidMemo);
        }
        if memos.len() == 3 {
            assert(m[1] == memos@[1]@);
            assert(m[2] == memos@[2]@);
            let root_hash = metadata.root_hash();
            if bytes_eq(memos[1].as_slice(), root_hash.bytes.as_slice()) {
                // a store without delegated puzzles, in the old memo format
                let owner_puzzle_hash = match Bytes32::from_slice(memos[2].as_slice()) {
                    Some(h) => h,
                    None => {
                        return Err(DriverError::InvalidMemo);
                    },
                };
                proof {
                    lemma_bytes32_of(owner_puzzle_hash);
                }
                return Ok(
                    DataStore {
                        coin,
                        proof,
                        info: DataStoreInfo {
                            launcher_id,
                            metadata,
                            owner_puzzle_hash,
                            delegated_puzzles: Vec::new(),
                        },
                    },
                );
            }
        }
        if memos.len() == 1 {
            return Ok(
                DataStore {
                    coin,
                    proof,
                    info: DataStoreInfo {
                        launcher_id,
                        metadata,
                        owner_puzzle_hash: fallback_owner_ph,
                        delegated_puzzles: Vec::new(),
                    },
                },
            );
        }
        assert(m[1] == memos@[1]@);
        let owner_puzzle_hash = match Bytes32::from_slice(memos[1].as_slice()) {
            Some(h) => h,
            None => {
                return Err(DriverError::InvalidMemo);
            },
        };
        proof {
            lemma_bytes32_of(owner_puzzle_hash);
        }
        let mut delegated_puzzles: Vec<DelegatedPuzzle> = Vec::new();
        let mut next: usize = 2;
        assert(m.skip(2).skip(0) =~= m.skip(2));
        while next < memos.len()
            invariant
                2 <= next <= memos.len(),
                m == byte_views(memos@),
                m[0] == launcher_id@,
                !(m.len() == 3 && m[1] == M::tree_root_hash(metadata.tree())@),
                m[1].len() == 32,
                match DelegatedPuzzle::parse_all(m.skip(next as int)) {
                    Ok(more) => DelegatedPuzzle::parse_all(m.skip(2)) == Ok::<
                        Seq<DelegatedPuzzle>,
                        DriverError,
                    >(delegated_puzzles@ + more),
                    Err(e) => DelegatedPuzzle::parse_all(m.skip(2)) == Err::<
                        Seq<DelegatedPuzzle>,
                        DriverError,
                    >(e),
                },
            decreases memos.len() - next,
        {
            assert(m.skip(next as int).len() > 0);
            match DelegatedPuzzle::read_at(&memos, next) {
                Err(e) => {
                    return Err(e);
                },
                Ok((puzzle, after)) => {
                    let ghost before = delegated_puzzles@;
                    delegated_puzzles.push(puzzle);
                    proof {
                        assert(m.skip(next as int).skip(after - next) =~= m.skip(after as int));
                        match DelegatedPuzzle::parse_all(m.skip(after as int)) {
                            Ok(more) => {
                                assert(before + (seq![puzzle] + more) =~= delegated_puzzles@
                                    + more);
                            },
                            Err(_) => {},
                        }
                    }
                    next = after;
                },
            }
        }
        assert(delegated_puzzles@ + Seq::<DelegatedPuzzle>::empty() =~= delegated_puzzles@);
        Ok(
            DataStore {
                coin,
                proof,
                info: DataStoreInfo { launcher_id, metadata, owner_puzzle_hash, delegated_puzzles },
            },
        )
    }

    /// Writes the memos that recreate a store with the given owner and
    /// delegated puzzles.
    pub fn get_recreation_memos(
        launcher_id: Bytes32,
        owner_puzzle_hash: Bytes32,
        delegated_puzzles: Vec<DelegatedPuzzle>,
    ) -> (r: Vec<Vec<u8>>)
        ensures
            byte_views(r@) == recreation_memos(launcher_id, owner_puzzle_hash, delegated_puzzles@),
    {
        let mut memos: Vec<Vec<u8>> = Vec::new();
        memos.push(launcher_id.to_vec());
        memos.push(owner_puzzle_hash.to_vec());
        let ghost head = seq![launcher_id@, owner_puzzle_hash@];
        assert(byte_views(memos@) =~= head);
        let mut i: usize = 0;
        assert(delegated_puzzles@.skip(0) =~= delegated_puzzles@);
        while i < delegated_puzzles.len()
            invariant
                i <= delegated_puzzles.len(),
                head == seq![launcher_id@, owner_puzzle_hash@],
                byte_views(memos@) + DelegatedPuzzle::memos_of(delegated_puzzles@.skip(i as int))
                    == head + DelegatedPuzzle::memos_of(delegated_puzzles@),
            decreases delegated_puzzles.len() - i,
        {
            let ghost before = byte_views(memos@);
            let ghost rest = delegated_puzzles@.skip(i as int);
            proof {
                assert(rest[0] == delegated_puzzles@[i as int]);
                assert(rest.drop_first() =~= delegated_puzzles@.skip(i + 1));
            }
            match delegated_puzzles[i] {
                DelegatedPuzzle::Admin(inner_puzzle_hash) => {
                    memos.push(kind_memo(1));
                    memos.push(inner_puzzle_hash.to_vec());
                    assert(byte_views(memos@) =~= before + rest[0].memos());
                },
                DelegatedPuzzle::Writer(inner_puzzle_hash) => {
                    memos.push(kind_memo(2));
                    memos.push(inner_puzzle_hash.to_vec());
                    assert(byte_views(memos@) =~= before + rest[0].memos());
                },
                DelegatedPuzzle::Oracle(oracle_puzzle_hash, oracle_fee) => {
                    memos.push(kind_memo(3));
                    memos.push(oracle_puzzle_hash.to_vec());
                    memos.push(encode_fee(oracle_fee));
                    assert(byte_views(memos@) =~= before + rest[0].memos());
                },
            }
            proof {
                assert(before + (rest[0].memos() + DelegatedPuzzle::memos_of(rest.drop_first()))
                    =~= byte_views(memos@) + DelegatedPuzzle::memos_of(rest.drop_first()));
            }
            i += 1;
        }
        assert(byte_views(memos@) + Seq::<Seq<u8>>::empty() =~= byte_views(memos@));
        memos
    }
}

/// The memo that names a kind of delegated puzzle.
fn kind_memo(kind: u8) -> (r: Vec<u8>)
    ensures
        r@ == seq![kind],
{
    let mut memo: Vec<u8> = Vec::new();
    memo.push(kind);
    assert(memo@ =~= seq![kind]);
    memo
}

impl DataStoreInfoView {
    /// The delegation layer of the store, which it has where anything is
    /// delegated.
    pub open spec fn delegation_layer(self) -> DelegationLayer {
        DelegationLayer {
            launcher_id: self.launcher_id,
            owner_puzzle_hash: self.owner_puzzle_hash,
            merkle_root: merkle_root(DelegatedPuzzle::leaves_of(self.delegated_puzzles)),
        }
    }

    /// The hash of the puzzle inside the state layer: the owner's where
    /// nothing is delegated, else the delegation layer's.
    pub open spec fn state_inner_puzzle_hash(self, modules: Modules) -> Bytes32 {
        if self.delegated_puzzles.len() == 0 {
            self.owner_puzzle_hash
        } else {
            delegation_layer_puzzle_hash(modules, self.delegation_layer())
        }
    }

    /// The hash of the puzzle inside the singleton layer.
    pub open spec fn inner_puzzle_hash(self, modules: Modules) -> Bytes32 {
        state_layer_puzzle_hash(
            modules,
            self.metadata.tree_hash(),
            modules.dl_metadata_updater_hash,
            self.state_inner_puzzle_hash(modules),
        )
    }

    /// The puzzle inside the state layer when the store is spent with
    /// `inner_puzzle`: that puzzle where nothing is delegated, else the
    /// delegation layer.
    pub open spec fn state_inner_puzzle(self, inner_puzzle: Tree, modules: Modules) -> Tree {
        if self.delegated_puzzles.len() == 0 {
            inner_puzzle
        } else {
            self.delegation_layer().puzzle(modules)
        }
    }

    /// The state layer when the store is spent with `inner_puzzle`.
    pub open spec fn state_layer(self, inner_puzzle: Tree, modules: Modules) -> NftStateLayerView {
        NftStateLayerView {
            metadata: self.metadata,
            metadata_updater_puzzle_hash: modules.dl_metadata_updater_hash,
            inner_puzzle: self.state_inner_puzzle(inner_puzzle, modules),
        }
    }

    /// The singleton layer when the store is spent with `inner_puzzle`.
    pub open spec fn singleton_layer(self, inner_puzzle: Tree, modules: Modules) -> SingletonLayerView {
        SingletonLayerView {
            launcher_id: self.launcher_id,
            inner_puzzle: self.state_layer(inner_puzzle, modules).puzzle(modules),
        }
    }

    /// The puzzle that is revealed when the store is spent with
    /// `inner_puzzle`.
    pub open spec fn puzzle(self, inner_puzzle: Tree, modules: Modules) -> Tree {
        self.singleton_layer(inner_puzzle, modules).puzzle(modules)
    }

    /// The Merkle proof that goes with `inner_puzzle`: the proof of the first
    /// leaf equal to the leaf of the delegated puzzle that it stands for, or
    /// none where no leaf is, which has the delegation layer run the puzzle
    /// as the owner's.
    pub open spec fn merkle_proof(self, inner_puzzle: Tree, modules: Modules) -> Option<
        (u64, Seq<Bytes32>),
    > {
        let leaves = DelegatedPuzzle::leaves_of(self.delegated_puzzles);
        let leaf = DelegatedPuzzle::revealed_leaf(inner_puzzle, modules);
        if leaves.contains(leaf) {
            let i = leaves.index_of_first(leaf)->0;
            Some((i as u64, merkle_path(leaves, i)))
        } else {
            None
        }
    }

    /// The solution of the puzzle inside the state layer when the store is
    /// spent with `inner_puzzle` and `inner_solution`.
    pub open spec fn state_inner_solution(
        self,
        inner_puzzle: Tree,
        inner_solution: Tree,
        modules: Modules,
    ) -> Tree {
        if self.delegated_puzzles.len() == 0 {
            inner_solution
        } else {
            (DelegationLayerSolutionView {
                merkle_proof: self.merkle_proof(inner_puzzle, modules),
                puzzle_reveal: inner_puzzle,
                puzzle_solution: inner_solution,
            }).tree()
        }
    }
}

impl DataStoreView {
    /// The solution with which the store is spent.
    pub open spec fn solution(self, inner_puzzle: Tree, inner_solution: Tree, modules: Modules) -> Tree {
        (SingletonSolution::<Tree> {
            lineage_proof: self.proof,
            amount: self.coin.amount,
            inner_solution: NftStateLayerView::solution(
                self.info.state_inner_solution(inner_puzzle, inner_solution, modules),
            ),
        }).tree()
    }

    /// The lineage proof of the child of the store.
    pub open spec fn child_lineage_proof(self, modules: Modules) -> LineageProof {
        LineageProof {
            parent_parent_coin_info: self.coin.parent_coin_info,
            parent_inner_puzzle_hash: self.info.inner_puzzle_hash(modules),
            parent_amount: self.coin.amount,
        }
    }
}

/// The condition with which an owner recreates the store: a coin of amount 1
/// for the new owner, under a delegation layer where anything is delegated.
/// With `hint_delegated_puzzles` the memos describe the new state; without,
/// the launcher id is the one memo.
pub open spec fn owner_create_coin(
    modules: Modules,
    launcher_id: Bytes32,
    new_inner_puzzle_hash: Bytes32,
    new_delegated_puzzles: Seq<DelegatedPuzzle>,
    hint_delegated_puzzles: bool,
) -> CreateCoinView {
    CreateCoinView {
        puzzle_hash: if new_delegated_puzzles.len() == 0 {
            new_inner_puzzle_hash
        } else {
            delegation_layer_puzzle_hash(
                modules,
                DelegationLayer {
                    launcher_id,
                    owner_puzzle_hash: new_inner_puzzle_hash,
                    merkle_root: merkle_root(DelegatedPuzzle::leaves_of(new_delegated_puzzles)),
                },
            )
        },
        amount: 1,
        memos: if hint_delegated_puzzles {
            recreation_memos(launcher_id, new_inner_puzzle_hash, new_delegated_puzzles)
        } else {
            seq![launcher_id@]
        },
    }
}

/// The condition that gives a store new metadata: the updater is the program
/// `11`, which returns its solution, and the solution says what the updater
/// of data stores would say.
pub open spec fn new_metadata_tree(modules: Modules, new_metadata: Tree) -> Tree {
    Tree::list(
        seq![
            byte_tree(0xe8),
            byte_tree(11),
            Tree::list(
                seq![
                    Tree::list(seq![new_metadata, Tree::Atom(modules.dl_metadata_updater_hash@)]),
                    Tree::nil(),
                ],
            ),
        ],
    )
}

impl<M: MetadataWithRootHash> DataStoreInfo<M> {
    /// The delegation layer of the store.
    pub fn delegation_layer(&self) -> (r: DelegationLayer)
        ensures
            r == self@.delegation_layer(),
    {
        let tree = get_merkle_tree(&self.delegated_puzzles);
        DelegationLayer {
            launcher_id: self.launcher_id,
            owner_puzzle_hash: self.owner_puzzle_hash,
            merkle_root: tree.root,
        }
    }

    /// The hash of the puzzle inside the singleton layer.
    pub fn inner_puzzle_hash(&self, modules: &Modules) -> (r: Bytes32)
        ensures
            r == self@.inner_puzzle_hash(*modules),
    {
        let inner = if self.delegated_puzzles.len() == 0 {
            self.owner_puzzle_hash
        } else {
            self.delegation_layer().curry_tree_hash(modules)
        };
        state_layer_curry_tree_hash(
            modules,
            self.metadata.to_clvm().tree_hash(),
            modules.dl_metadata_updater_hash,
            inner,
        )
    }
}

impl<M: MetadataWithRootHash> DataStore<M> {
    /// Creates the coin spend that spends the store with `inner_spend`.
    ///
    /// Where nothing is delegated the inner puzzle stands inside the state
    /// layer. Else the delegation layer stands there and is given the inner
    /// puzzle to run, with its Merkle proof where it is a delegated puzzle.
    /// The puzzle and the solution are serialized by the VM and read back as
    /// what was built.
    pub fn spend(self, ctx: &SpendContext, inner_spend: Spend) -> (r: Result<CoinSpend, DriverError>)
        ensures
            match r {
                Ok(cs) => {
                    let puzzle = self@.info.puzzle(inner_spend.puzzle@, ctx.modules);
                    let solution = self@.solution(
                        inner_spend.puzzle@,
                        inner_spend.solution@,
                        ctx.modules,
                    );
                    &&& cs.coin == self.coin
                    &&& cs.puzzle_reveal@ == serialized(puzzle)
                    &&& deserialized(cs.puzzle_reveal@) == puzzle
                    &&& cs.solution@ == serialized(solution)
                    &&& deserialized(cs.solution@) == solution
                },
                Err(e) => e == DriverError::Vm,
            },
    {
        let modules = &ctx.modules;
        let (state_inner_puzzle, state_inner_solution) = if self.info.delegated_puzzles.len() == 0 {
            (inner_spend.puzzle, inner_spend.solution)
        } else {
            let leaf = DelegatedPuzzle::of_reveal(&inner_spend.puzzle, modules).leaf_hash();
            let tree = get_merkle_tree(&self.info.delegated_puzzles);
            // for the owner's puzzle there is no proof, which has the
            // delegation layer run it as the owner's
            let merkle_proof = tree.get_proof(leaf);
            let layer = DelegationLayer {
                launcher_id: self.info.launcher_id,
                owner_puzzle_hash: self.info.owner_puzzle_hash,
                merkle_root: tree.root,
            };
            let solution = DelegationLayerSolution {
                merkle_proof,
                puzzle_reveal: inner_spend.puzzle,
                puzzle_solution: inner_spend.solution,
            };
            (layer.construct_puzzle(modules), solution.to_clvm())
        };
        let state_layer = NftStateLayer {
            metadata: self.info.metadata,
            metadata_updater_puzzle_hash: modules.dl_metadata_updater_hash,
            inner_puzzle: state_inner_puzzle,
        };
        let singleton_layer = SingletonLayer {
            launcher_id: self.info.launcher_id,
            inner_puzzle: state_layer.construct_puzzle(modules),
        };
        let puzzle_node = singleton_layer.construct_puzzle(modules);
        let state_solution = NftStateLayer::<M>::construct_solution(
            &NftStateLayerSolution { inner_solution: state_inner_solution },
        );
        let solution_node = SingletonLayer::construct_solution(
            &SingletonSolution {
                lineage_proof: self.proof,
                amount: self.coin.amount,
                inner_solution: state_solution,
            },
        );
        let puzzle = match ctx.serialize(&puzzle_node) {
            Err(e) => {
                return Err(e);
            },
            Ok(b) => b,
        };
        let solution = match ctx.serialize(&solution_node) {
            Err(e) => {
                return Err(e);
            },
            Ok(b) => b,
        };
        Ok(CoinSpend::new(self.coin, puzzle, solution))
    }

    /// The lineage proof that the child of the store carries.
    pub fn child_lineage_proof(&self, ctx: &SpendContext) -> (r: Result<LineageProof, DriverError>)
        ensures
            r == Ok::<LineageProof, DriverError>(self@.child_lineage_proof(ctx.modules)),
    {
        Ok(
            LineageProof {
                parent_parent_coin_info: self.coin.parent_coin_info,
                parent_inner_puzzle_hash: self.info.inner_puzzle_hash(&ctx.modules),
                parent_amount: self.coin.amount,
            },
        )
    }

    /// As the owner, creates the coin that recreates the store: as it is, or
    /// with other delegated puzzles, which the memos then describe.
    pub fn owner_create_coin_condition(
        ctx: &SpendContext,
        launcher_id: Bytes32,
        new_inner_puzzle_hash: Bytes32,
        new_delegated_puzzles: Vec<DelegatedPuzzle>,
        hint_delegated_puzzles: bool,
    ) -> (r: Result<Condition, DriverError>)
        ensures
            match r {
                Ok(c) => c@ == ConditionView::CreateCoin(
                    owner_create_coin(
                        ctx.modules,
                        launcher_id,
                        new_inner_puzzle_hash,
                        new_delegated_puzzles@,
                        hint_delegated_puzzles,
                    ),
                ),
                Err(_) => false,
            },
    {
        let new_puzzle_hash = if new_delegated_puzzles.len() == 0 {
            new_inner_puzzle_hash
        } else {
            let new_merkle_root = get_merkle_tree(&new_delegated_puzzles).root;
            DelegationLayer {
                launcher_id,
                owner_puzzle_hash: new_inner_puzzle_hash,
                merkle_root: new_merkle_root,
            }.curry_tree_hash(&ctx.modules)
        };
        let memos = if hint_delegated_puzzles {
            Self::get_recreation_memos(launcher_id, new_inner_puzzle_hash, new_delegated_puzzles)
        } else {
            let mut memos: Vec<Vec<u8>> = Vec::new();
            memos.push(launcher_id.to_vec());
            assert(byte_views(memos@) =~= seq![launcher_id@]);
            memos
        };
        Ok(Condition::CreateCoin(CreateCoin { amount: 1, puzzle_hash: new_puzzle_hash, memos }))
    }

    /// Creates the condition that gives the store new metadata.
    pub fn new_metadata_condition(ctx: &SpendContext, new_metadata: M) -> (r: Result<
        Condition,
        DriverError,
    >)
        ensures
            match r {
                Ok(c) => c@ == ConditionView::Other(
                    new_metadata_tree(ctx.modules, new_metadata.tree()),
                ),
                Err(_) => false,
            },
    {
        // the updater returns its solution, so the solution is what the
        // updater would say
        let output = NewMetadataOutput::<Node, Node> {
            metadata_part: NewMetadataInfo {
                new_metadata: new_metadata.to_clvm(),
                new_metadata_updater_puzhash: ctx.modules.dl_metadata_updater_hash,
            },
            conditions: Node::nil(),
        };
        let condition = NewMetadataCondition::<Node, Node> {
            metadata_updater_reveal: byte_node(11),
            metadata_updater_solution: output.to_clvm(),
        };
        Ok(Condition::Other(condition.to_clvm()))
    }
}

impl<M: MetadataWithRootHash> DataStore<M> {
    /// Reads the data store that a coin spend creates.
    ///
    /// `parent_delegated_puzzles` are the delegated puzzles of the store that
    /// is spent: the spend commits to them by their Merkle root alone, so
    /// they cannot be read from it. They are handed on to the child where the
    /// spend keeps them, and are not looked at where it does not.
    ///
    /// Running the puzzles is the VM's part: where the VM fails, the result is
    /// `Vm`; in every other case the result is the one that `spent` defines
    /// from what the VM returned.
    ///
    /// The library holds a VM value as a tree of its own, and takes no value
    /// deeper than `MAX_DEPTH` pairs from the VM, counted along both the
    /// first and the rest of each pair: a list of more items than that, or a
    /// program nested deeper, is beyond what its recursive walks may descend.
    /// A puzzle reveal, a solution or an output of a puzzle that is deeper is
    /// refused as `Vm`.
    pub fn from_spend(
        cs: &CoinSpend,
        parent_delegated_puzzles: Vec<DelegatedPuzzle>,
        modules: &Modules,
    ) -> (r: Result<Option<Self>, DriverError>)
        ensures
            match r {
                Err(DriverError::Vm) => true,
                Ok(Some(store)) => spent::<M>(
                    cs.coin,
                    cs.puzzle_reveal@,
                    cs.solution@,
                    parent_delegated_puzzles@,
                    *modules,
                ) == Ok::<Option<DataStoreView>, DriverError>(Some(store@)),
                Ok(None) => spent::<M>(
                    cs.coin,
                    cs.puzzle_reveal@,
                    cs.solution@,
                    parent_delegated_puzzles@,
                    *modules,
                ) == Ok::<Option<DataStoreView>, DriverError>(None),
                Err(e) => spent::<M>(
                    cs.coin,
                    cs.puzzle_reveal@,
                    cs.solution@,
                    parent_delegated_puzzles@,
                    *modules,
                ) == Err::<Option<DataStoreView>, DriverError>(e),
            },
    {
        let solution = match node_from_bytes(cs.solution.as_slice()) {
            Err(e) => {
                return Err(e);
            },
            Ok(n) => n,
        };
        if cs.coin.puzzle_hash == modules.singleton_launcher.hash {
            // the spend launches the singleton
            return match Self::from_launcher_spend(&cs.coin, &solution) {
                Ok(store) => Ok(Some(store)),
                Err(e) => Err(e),
            };
        }
        let puzzle = match node_from_bytes(cs.puzzle_reveal.as_slice()) {
            Err(e) => {
                return Err(e);
            },
            Ok(n) => n,
        };
        let parent = match Self::parse_parent_spend(cs.coin, &puzzle, &solution, modules) {
            Err(e) => {
                return Err(e);
            },
            Ok(None) => {
                return Ok(None);
            },
            Ok(Some(p)) => p,
        };
        // the puzzle inside the state layer is the owner's or the delegation
        // layer
        let inner_output = match run_puzzle(&parent.state_layer.inner_puzzle, &parent.inner_solution) {
            Err(e) => {
                return Err(e);
            },
            Ok(n) => n,
        };
        match Self::child_from_inner_output(parent, &inner_output, modules) {
            Err(e) => Err(e),
            Ok(ChildProgress::Done(store)) => Ok(Some(store)),
            Ok(
                ChildProgress::Delegated {
                    pending,
                    delegation_layer_hash,
                    puzzle_reveal,
                    puzzle_solution,
                },
            ) => {
                // to know more, run the delegated puzzle
                let output = match run_puzzle(&puzzle_reveal, &puzzle_solution) {
                    Err(e) => {
                        return Err(e);
                    },
                    Ok(n) => n,
                };
                match Self::child_from_delegated_output(
                    pending,
                    delegation_layer_hash,
                    &output,
                    parent_delegated_puzzles,
                ) {
                    Err(e) => Err(e),
                    Ok(store) => Ok(Some(store)),
                }
            },
        }
    }
}

} // verus!
