//! The launch of a data store: what the launcher's solution says of the store
//! that it creates, in the current format and in the old one.
use vstd::prelude::*;
use crate::bytes::{bytes_clone, Bytes32};
use crate::codec::{
    atoms_tree, lemma_bytes32_of, lemma_parse_atoms_tree, lemma_parse_fields_list, parse_atoms,
    parse_bytes32, parse_fields, parse_unsigned, ref_trees, uint_tree, FromClvm,
};
use crate::coin::{coin_id_of, Coin, EveProof, Proof};
use crate::datastore::{
    built_datastore, lemma_memo_round_trip, recreation_memos, DataStore, DataStoreInfo,
    DataStoreInfoView, DataStoreView,
};
use crate::datalayer::DelegatedPuzzle;
use crate::launcher::{eve_coin, launch_assertion, launch_solution, Conditions, Launcher};
use crate::modules::Modules;
use crate::spend_context::SpendContext;
use crate::vm::deserialized;
use crate::error::{DriverError, FromClvmError};
use crate::metadata::{DataStoreMetadata, MetadataWithRootHash};
use crate::node::{byte_views, trees, Node, Tree};
use crate::number::lemma_decode_uint_atom;
use crate::singleton_layer::singleton_puzzle_hash;

verus! {

/// The solution of the launcher: the puzzle hash and the amount of the first
/// coin of the singleton, and what the launcher announces of it.
#[derive(Debug, Clone, PartialEq, Eq)]
pub struct LauncherSolution<T> {
    pub singleton_puzzle_hash: Bytes32,
    pub amount: u64,
    pub key_value_list: T,
}

/// What the launcher of a data store announces: the metadata, the hash of
/// the puzzle inside the state layer, and memos.
#[derive(Debug, Clone, PartialEq, Eq)]
pub struct DLLauncherKVList<M = DataStoreMetadata, T = Vec<u8>> {
    pub metadata: M,
    pub state_layer_inner_puzzle_hash: Bytes32,
    pub memos: Vec<T>,
}

/// What the launcher of a data store announced in the old format: the root
/// hash in place of the metadata.
#[derive(Debug, Clone, PartialEq, Eq)]
pub struct OldDLLauncherKVList<T = Vec<u8>> {
    pub root_hash: Bytes32,
    pub state_layer_inner_puzzle_hash: Bytes32,
    pub memos: Vec<T>,
}

/// The mathematical value of a `DLLauncherKVList`.
pub struct DLLauncherKVListView {
    pub metadata: Tree,
    pub state_layer_inner_puzzle_hash: Bytes32,
    pub memos: Seq<Seq<u8>>,
}

/// The mathematical value of an `OldDLLauncherKVList`.
pub struct OldDLLauncherKVListView {
    pub root_hash: Bytes32,
    pub state_layer_inner_puzzle_hash: Bytes32,
    pub memos: Seq<Seq<u8>>,
}

impl<M: MetadataWithRootHash> View for DLLauncherKVList<M, Vec<u8>> {
    type V = DLLauncherKVListView;

    open spec fn view(&self) -> DLLauncherKVListView {
        DLLauncherKVListView {
            metadata: self.metadata.tree(),
            state_layer_inner_puzzle_hash: self.state_layer_inner_puzzle_hash,
            memos: byte_views(self.memos@),
        }
    }
}

impl View for OldDLLauncherKVList<Vec<u8>> {
    type V = OldDLLauncherKVListView;

    open spec fn view(&self) -> OldDLLauncherKVListView {
        OldDLLauncherKVListView {
            root_hash: self.root_hash,
            state_layer_inner_puzzle_hash: self.state_layer_inner_puzzle_hash,
            memos: byte_views(self.memos@),
        }
    }
}

impl DLLauncherKVListView {
    /// The list as a VM value: `(metadata inner_puzzle_hash . memos)`.
    pub open spec fn tree(self) -> Tree {
        Tree::cons(
            self.metadata,
            Tree::cons(Tree::Atom(self.state_layer_inner_puzzle_hash@), atoms_tree(self.memos)),
        )
    }

    /// Reads the list from a VM value, with metadata of type `M`.
    pub open spec fn parse<M: MetadataWithRootHash>(t: Tree) -> Result<
        DLLauncherKVListView,
        FromClvmError,
    > {
        match parse_fields(t, 2) {
            Err(e) => Err(e),
            Ok((f, rest)) => match M::parsed(f[0]) {
                Err(e) => Err(e),
                Ok(metadata) => match parse_bytes32(f[1]) {
                    Err(e) => Err(e),
                    Ok(state_layer_inner_puzzle_hash) => match parse_atoms(rest) {
                        Err(e) => Err(e),
                        Ok(memos) => Ok(
                            DLLauncherKVListView { metadata, state_layer_inner_puzzle_hash, memos },
                        ),
                    },
                },
            },
        }
    }
}

impl OldDLLauncherKVListView {
    /// The list as a VM value: `(root_hash inner_puzzle_hash . memos)`.
    pub open spec fn tree(self) -> Tree {
        Tree::cons(
            Tree::Atom(self.root_hash@),
            Tree::cons(Tree::Atom(self.state_layer_inner_puzzle_hash@), atoms_tree(self.memos)),
        )
    }

    /// Reads the list from a VM value.
    pub open spec fn parse(t: Tree) -> Result<OldDLLauncherKVListView, FromClvmError> {
        match parse_fields(t, 2) {
            Err(e) => Err(e),
            Ok((f, rest)) => match parse_bytes32(f[0]) {
                Err(e) => Err(e),
                Ok(root_hash) => match parse_bytes32(f[1]) {
                    Err(e) => Err(e),
                    Ok(state_layer_inner_puzzle_hash) => match parse_atoms(rest) {
                        Err(e) => Err(e),
                        Ok(memos) => Ok(
                            OldDLLauncherKVListView {
                                root_hash,
                                state_layer_inner_puzzle_hash,
                                memos,
                            },
                        ),
                    },
                },
            },
        }
    }
}

/// The solution of a launcher as a VM value: the list of its three fields.
pub open spec fn launcher_solution_tree(
    singleton_puzzle_hash: Bytes32,
    amount: u64,
    key_value_list: Tree,
) -> Tree {
    Tree::list(seq![Tree::Atom(singleton_puzzle_hash@), uint_tree(amount as nat), key_value_list])
}

/// Reads the three fields of the solution of a launcher. What follows them
/// is not looked at.
pub open spec fn parse_launcher_solution(t: Tree) -> Result<LauncherSolution<Tree>, FromClvmError> {
    match parse_fields(t, 3) {
        Err(e) => Err(e),
        Ok((f, _)) => match parse_bytes32(f[0]) {
            Err(e) => Err(e),
            Ok(singleton_puzzle_hash) => match parse_unsigned(f[1], 8) {
                Err(e) => Err(e),
                Ok(amount) => Ok(
                    LauncherSolution {
                        singleton_puzzle_hash,
                        amount: amount as u64,
                        key_value_list: f[2],
                    },
                ),
            },
        },
    }
}

/// The proof of the first coin of a singleton launched by `launcher`.
pub open spec fn eve_proof(launcher: Coin) -> Proof {
    Proof::Eve(
        EveProof { parent_parent_coin_info: launcher.parent_coin_info, parent_amount: launcher.amount },
    )
}

/// The store that a launcher announces in the current format. The launcher id
/// is put in front of the memos.
pub open spec fn launched_store(
    launcher: Coin,
    solution: LauncherSolution<Tree>,
    list: DLLauncherKVListView,
    root_hash: Bytes32,
) -> Result<DataStoreView, DriverError> {
    let launcher_id = coin_id_of(launcher);
    built_datastore(
        Coin {
            parent_coin_info: launcher_id,
            puzzle_hash: solution.singleton_puzzle_hash,
            amount: solution.amount,
        },
        launcher_id,
        eve_proof(launcher),
        list.metadata,
        root_hash,
        list.state_layer_inner_puzzle_hash,
        seq![launcher_id@] + list.memos,
    )
}

/// The store that a launcher announces in the old format. The memos are taken
/// as they stand.
pub open spec fn launched_store_old(
    launcher: Coin,
    solution: LauncherSolution<Tree>,
    list: OldDLLauncherKVListView,
    metadata: Tree,
) -> Result<DataStoreView, DriverError> {
    let launcher_id = coin_id_of(launcher);
    built_datastore(
        Coin {
            parent_coin_info: launcher_id,
            puzzle_hash: solution.singleton_puzzle_hash,
            amount: solution.amount,
        },
        launcher_id,
        eve_proof(launcher),
        metadata,
        list.root_hash,
        list.state_layer_inner_puzzle_hash,
        list.memos,
    )
}

/// The store that the spend of a launcher creates, read from the launcher's
/// solution. A solution whose list fails to read as the current format for
/// want of a pair is read as the old format; every other failure is reported.
pub open spec fn launched<M: MetadataWithRootHash>(launcher: Coin, solution: Tree) -> Result<
    DataStoreView,
    DriverError,
> {
    match parse_launcher_solution(solution) {
        Err(e) => Err(DriverError::FromClvm(e)),
        Ok(s) => match DLLauncherKVListView::parse::<M>(s.key_value_list) {
            Ok(list) => launched_store(launcher, s, list, M::tree_root_hash(list.metadata)),
            Err(FromClvmError::ExpectedPair) => match OldDLLauncherKVListView::parse(
                s.key_value_list,
            ) {
                Err(e) => Err(DriverError::FromClvm(e)),
                Ok(list) => launched_store_old(
                    launcher,
                    s,
                    list,
                    M::root_hash_only_tree(list.root_hash),
                ),
            },
            Err(e) => Err(DriverError::FromClvm(e)),
        },
    }
}

impl LauncherSolution<Node> {
    /// Writes the solution as a VM node.
    pub fn to_clvm(&self) -> (r: Node)
        ensures
            r@ == launcher_solution_tree(
                self.singleton_puzzle_hash,
                self.amount,
                self.key_value_list@,
            ),
    {
        let mut items: Vec<Node> = Vec::new();
        items.push(Node::from_bytes32(&self.singleton_puzzle_hash));
        items.push(Node::from_u64(self.amount));
        items.push(self.key_value_list.clone());
        assert(trees(items@) =~= seq![
            Tree::Atom(self.singleton_puzzle_hash@),
            uint_tree(self.amount as nat),
            self.key_value_list@,
        ]);
        Node::list(&items)
    }

    /// Reads the solution from a VM node.
    pub fn from_clvm(node: &Node) -> (r: Result<Self, FromClvmError>)
        ensures
            match r {
                Ok(s) => parse_launcher_solution(node@) == Ok::<
                    LauncherSolution<Tree>,
                    FromClvmError,
                >(
                    LauncherSolution {
                        singleton_puzzle_hash: s.singleton_puzzle_hash,
                        amount: s.amount,
                        key_value_list: s.key_value_list@,
                    },
                ),
                Err(e) => parse_launcher_solution(node@) == Err::<
                    LauncherSolution<Tree>,
                    FromClvmError,
                >(e),
            },
    {
        let (f, _tail) = match node.fields(3) {
            Err(e) => {
                return Err(e);
            },
            Ok(x) => x,
        };
        assert(ref_trees(f@)[0] == f@[0]@);
        assert(ref_trees(f@)[1] == f@[1]@);
        assert(ref_trees(f@)[2] == f@[2]@);
        let singleton_puzzle_hash = match f[0].as_bytes32() {
            Err(e) => {
                return Err(e);
            },
            Ok(b) => b,
        };
        let amount = match f[1].as_u64() {
            Err(e) => {
                return Err(e);
            },
            Ok(v) => v,
        };
        Ok(LauncherSolution { singleton_puzzle_hash, amount, key_value_list: f[2].clone() })
    }
}

impl<M: MetadataWithRootHash> DLLauncherKVList<M, Vec<u8>> {
    /// Writes the list as a VM node.
    pub fn to_clvm(&self) -> (r: Node)
        ensures
            r@ == self@.tree(),
    {
        Node::pair(
            self.metadata.to_clvm(),
            Node::pair(
                Node::from_bytes32(&self.state_layer_inner_puzzle_hash),
                Node::from_atoms(&self.memos),
            ),
        )
    }

    /// Reads the list from a VM node.
    pub fn from_clvm(node: &Node) -> (r: Result<Self, FromClvmError>)
        ensures
            match r {
                Ok(l) => DLLauncherKVListView::parse::<M>(node@) == Ok::<
                    DLLauncherKVListView,
                    FromClvmError,
                >(l@),
                Err(e) => DLLauncherKVListView::parse::<M>(node@) == Err::<
                    DLLauncherKVListView,
                    FromClvmError,
                >(e),
            },
    {
        let (f, rest) = match node.fields(2) {
            Err(e) => {
                return Err(e);
            },
            Ok(x) => x,
        };
        assert(ref_trees(f@)[0] == f@[0]@);
        assert(ref_trees(f@)[1] == f@[1]@);
        let metadata = match M::from_clvm(f[0]) {
            Err(e) => {
                return Err(e);
            },
            Ok(m) => m,
        };
        let state_layer_inner_puzzle_hash = match f[1].as_bytes32() {
            Err(e) => {
                return Err(e);
            },
            Ok(b) => b,
        };
        let memos = match rest.as_atoms() {
            Err(e) => {
                return Err(e);
            },
            Ok(m) => m,
        };
        Ok(DLLauncherKVList { metadata, state_layer_inner_puzzle_hash, memos })
    }
}

impl OldDLLauncherKVList<Vec<u8>> {
    /// Writes the list as a VM node.
    pub fn to_clvm(&self) -> (r: Node)
        ensures
            r@ == self@.tree(),
    {
        Node::pair(
            Node::from_bytes32(&self.root_hash),
            Node::pair(
                Node::from_bytes32(&self.state_layer_inner_puzzle_hash),
                Node::from_atoms(&self.memos),
            ),
        )
    }

    /// Reads the list from a VM node.
    pub fn from_clvm(node: &Node) -> (r: Result<Self, FromClvmError>)
        ensures
            match r {
                Ok(l) => OldDLLauncherKVListView::parse(node@) == Ok::<
                    OldDLLauncherKVListView,
                    FromClvmError,
                >(l@),
                Err(e) => OldDLLauncherKVListView::parse(node@) == Err::<
                    OldDLLauncherKVListView,
                    FromClvmError,
                >(e),
            },
    {
        let (f, rest) = match node.fields(2) {
            Err(e) => {
                return Err(e);
            },
            Ok(x) => x,
        };
        assert(ref_trees(f@)[0] == f@[0]@);
        assert(ref_trees(f@)[1] == f@[1]@);
        let root_hash = match f[0].as_bytes32() {
            Err(e) => {
                return Err(e);
            },
            Ok(b) => b,
        };
        let state_layer_inner_puzzle_hash = match f[1].as_bytes32() {
            Err(e) => {
                return Err(e);
            },
            Ok(b) => b,
        };
        let memos = match rest.as_atoms() {
            Err(e) => {
                return Err(e);
            },
            Ok(m) => m,
        };
        Ok(OldDLLauncherKVList { root_hash, state_layer_inner_puzzle_hash, memos })
    }
}

/// A launch announced in the old format creates the store that the same launch
/// announced in the current format creates, where the metadata of the
/// current format is the root hash of the old one and nothing else. This
/// holds of every kind of metadata: none is read from an atom, which is how
/// the old format is told from the current one.
///
/// The old format carries the launcher id as its first memo, the current
/// format leaves it out; a launch without memos reads the same in both.
pub proof fn lemma_legacy_launch<M: MetadataWithRootHash>(
    launcher: Coin,
    singleton_puzzle_hash: Bytes32,
    amount: u64,
    root_hash: Bytes32,
    inner_puzzle_hash: Bytes32,
    memos: Seq<Seq<u8>>,
)
    ensures
        ({
            let launcher_id = coin_id_of(launcher);
            let metadata = M::root_hash_only_tree(root_hash);
            let old_format = |memos: Seq<Seq<u8>>|
                launcher_solution_tree(
                    singleton_puzzle_hash,
                    amount,
                    (OldDLLauncherKVListView {
                        root_hash,
                        state_layer_inner_puzzle_hash: inner_puzzle_hash,
                        memos,
                    }).tree(),
                );
            let current_format = |memos: Seq<Seq<u8>>|
                launcher_solution_tree(
                    singleton_puzzle_hash,
                    amount,
                    (DLLauncherKVListView {
                        metadata,
                        state_layer_inner_puzzle_hash: inner_puzzle_hash,
                        memos,
                    }).tree(),
                );
            &&& launched::<M>(launcher, old_format(seq![launcher_id@] + memos)) == launched::<M>(
                launcher,
                current_format(memos),
            )
            &&& launched::<M>(launcher, old_format(Seq::empty())) == launched::<M>(
                launcher,
                current_format(Seq::empty()),
            )
        }),
{
    let launcher_id = coin_id_of(launcher);
    M::lemma_root_hash_only(root_hash);
    M::lemma_atom_needs_pair(root_hash@);
    lemma_bytes32_of(singleton_puzzle_hash);
    lemma_bytes32_of(root_hash);
    lemma_bytes32_of(inner_puzzle_hash);
    lemma_decode_uint_atom(amount);
    lemma_launch_formats::<M>(singleton_puzzle_hash, amount, root_hash, inner_puzzle_hash, memos);
    lemma_launch_formats::<M>(
        singleton_puzzle_hash,
        amount,
        root_hash,
        inner_puzzle_hash,
        seq![launcher_id@] + memos,
    );
    lemma_launch_formats::<M>(
        singleton_puzzle_hash,
        amount,
        root_hash,
        inner_puzzle_hash,
        Seq::empty(),
    );
    assert(seq![launcher_id@] + Seq::<Seq<u8>>::empty() =~= seq![launcher_id@]);
}

/// How a launcher's solution reads in each of the two formats.
proof fn lemma_launch_formats<M: MetadataWithRootHash>(
    singleton_puzzle_hash: Bytes32,
    amount: u64,
    root_hash: Bytes32,
    inner_puzzle_hash: Bytes32,
    memos: Seq<Seq<u8>>,
)
    ensures
        ({
            let old_list = OldDLLauncherKVListView {
                root_hash,
                state_layer_inner_puzzle_hash: inner_puzzle_hash,
                memos,
            };
            let list = DLLauncherKVListView {
                metadata: M::root_hash_only_tree(root_hash),
                state_layer_inner_puzzle_hash: inner_puzzle_hash,
                memos,
            };
            let solution = |key_value_list: Tree|
                LauncherSolution::<Tree> { singleton_puzzle_hash, amount, key_value_list };
            &&& parse_launcher_solution(
                launcher_solution_tree(singleton_puzzle_hash, amount, old_list.tree()),
            ) == Ok::<LauncherSolution<Tree>, FromClvmError>(solution(old_list.tree()))
            &&& parse_launcher_solution(
                launcher_solution_tree(singleton_puzzle_hash, amount, list.tree()),
            ) == Ok::<LauncherSolution<Tree>, FromClvmError>(solution(list.tree()))
            &&& DLLauncherKVListView::parse::<M>(old_list.tree()) == Err::<
                DLLauncherKVListView,
                FromClvmError,
            >(FromClvmError::ExpectedPair)
            &&& OldDLLauncherKVListView::parse(old_list.tree()) == Ok::<
                OldDLLauncherKVListView,
                FromClvmError,
            >(old_list)
            &&& DLLauncherKVListView::parse::<M>(list.tree()) == Ok::<
                DLLauncherKVListView,
                FromClvmError,
            >(list)
        }),
{
    let metadata = M::root_hash_only_tree(root_hash);
    M::lemma_root_hash_only(root_hash);
    M::lemma_atom_needs_pair(root_hash@);
    lemma_bytes32_of(singleton_puzzle_hash);
    lemma_bytes32_of(root_hash);
    lemma_bytes32_of(inner_puzzle_hash);
    lemma_decode_uint_atom(amount);
    lemma_parse_atoms_tree(memos);
    let old_fields = seq![Tree::Atom(root_hash@), Tree::Atom(inner_puzzle_hash@)];
    let fields = seq![metadata, Tree::Atom(inner_puzzle_hash@)];
    lemma_parse_fields_list(old_fields, atoms_tree(memos));
    lemma_parse_fields_list(fields, atoms_tree(memos));
    reveal_with_fuel(Tree::list_with_tail, 3);
    assert(old_fields.drop_first() =~= seq![Tree::Atom(inner_puzzle_hash@)]);
    assert(old_fields.drop_first().drop_first() =~= Seq::<Tree>::empty());
    assert(fields.drop_first() =~= seq![Tree::Atom(inner_puzzle_hash@)]);
    assert(fields.drop_first().drop_first() =~= Seq::<Tree>::empty());
    let old_tree = (OldDLLauncherKVListView {
        root_hash,
        state_layer_inner_puzzle_hash: inner_puzzle_hash,
        memos,
    }).tree();
    let tree = (DLLauncherKVListView {
        metadata,
        state_layer_inner_puzzle_hash: inner_puzzle_hash,
        memos,
    }).tree();
    assert(Tree::list_with_tail(old_fields, atoms_tree(memos)) == old_tree);
    assert(Tree::list_with_tail(fields, atoms_tree(memos)) == tree);
    lemma_parse_fields_list(
        seq![Tree::Atom(singleton_puzzle_hash@), uint_tree(amount as nat), old_tree],
        Tree::nil(),
    );
    lemma_parse_fields_list(
        seq![Tree::Atom(singleton_puzzle_hash@), uint_tree(amount as nat), tree],
        Tree::nil(),
    );
}

/// Puts the launcher id in front of memos.
fn with_launcher_id(launcher_id: &Bytes32, memos: &Vec<Vec<u8>>) -> (r: Vec<Vec<u8>>)
    ensures
        byte_views(r@) == seq![launcher_id@] + byte_views(memos@),
{
    let mut out: Vec<Vec<u8>> = Vec::new();
    out.push(launcher_id.to_vec());
    let mut i: usize = 0;
    assert(byte_views(out@) =~= seq![launcher_id@] + byte_views(memos@).subrange(0, 0));
    while i < memos.len()
        invariant
            i <= memos.len(),
            byte_views(out@) == seq![launcher_id@] + byte_views(memos@).subrange(0, i as int),
        decreases memos.len() - i,
    {
        let ghost before = byte_views(out@);
        let memo = bytes_clone(memos[i].as_slice());
        out.push(memo);
        proof {
            assert(byte_views(out@) =~= before.push(memos@[i as int]@));
            assert(byte_views(memos@).subrange(0, i + 1) =~= byte_views(memos@).subrange(
                0,
                i as int,
            ).push(memos@[i as int]@));
            assert(before.push(memos@[i as int]@) =~= seq![launcher_id@] + byte_views(
                memos@,
            ).subrange(0, i + 1));
        }
        i += 1;
    }
    assert(byte_views(memos@).subrange(0, memos@.len() as int) =~= byte_views(memos@));
    out
}

impl<M: MetadataWithRootHash> DataStore<M> {
    /// Reads the store that the spend of a launcher creates from the
    /// launcher's coin and solution.
    pub fn from_launcher_spend(launcher: &Coin, solution: &Node) -> (r: Result<Self, DriverError>)
        ensures
            match r {
                Ok(store) => launched::<M>(*launcher, solution@) == Ok::<
                    DataStoreView,
                    DriverError,
                >(store@),
                Err(e) => launched::<M>(*launcher, solution@) == Err::<DataStoreView, DriverError>(
                    e,
                ),
            },
    {
        let launcher_id = launcher.coin_id();
        let proof = Proof::Eve(
            EveProof {
                parent_parent_coin_info: launcher.parent_coin_info,
                parent_amount: launcher.amount,
            },
        );
        let s = match LauncherSolution::<Node>::from_clvm(solution) {
            Err(e) => {
                return Err(DriverError::FromClvm(e));
            },
            Ok(s) => s,
        };
        let new_coin = Coin {
            parent_coin_info: launcher_id,
            puzzle_hash: s.singleton_puzzle_hash,
            amount: s.amount,
        };
        match DLLauncherKVList::<M, Vec<u8>>::from_clvm(&s.key_value_list) {
            Ok(list) => {
                let memos = with_launcher_id(&launcher_id, &list.memos);
                Self::build_datastore(
                    new_coin,
                    launcher_id,
                    proof,
                    list.metadata,
                    list.state_layer_inner_puzzle_hash,
                    memos,
                )
            },
            Err(FromClvmError::ExpectedPair) => {
                // the store was launched with the old memo format
                let list = match OldDLLauncherKVList::<Vec<u8>>::from_clvm(&s.key_value_list) {
                    Err(e) => {
                        return Err(DriverError::FromClvm(e));
                    },
                    Ok(list) => list,
                };
                proof {
                    M::lemma_root_hash_only(list.root_hash);
                }
                Self::build_datastore(
                    new_coin,
                    launcher_id,
                    proof,
                    M::root_hash_only(list.root_hash),
                    list.state_layer_inner_puzzle_hash,
                    list.memos,
                )
            },
            Err(e) => Err(DriverError::FromClvm(e)),
        }
    }
}

/// The memos that a launcher announces for a store: none where nothing is
/// delegated, else the owner and the memos of the delegated puzzles.
pub open spec fn launch_memos(
    owner_puzzle_hash: Bytes32,
    delegated_puzzles: Seq<DelegatedPuzzle>,
) -> Seq<Seq<u8>> {
    if delegated_puzzles.len() == 0 {
        Seq::empty()
    } else {
        seq![owner_puzzle_hash@] + DelegatedPuzzle::memos_of(delegated_puzzles)
    }
}

/// The store that a launcher mints.
pub open spec fn minted_store(
    modules: Modules,
    launcher: Coin,
    metadata: Tree,
    owner_puzzle_hash: Bytes32,
    delegated_puzzles: Seq<DelegatedPuzzle>,
) -> DataStoreView {
    let info = DataStoreInfoView {
        launcher_id: coin_id_of(launcher),
        metadata,
        owner_puzzle_hash,
        delegated_puzzles,
    };
    DataStoreView {
        coin: eve_coin(modules, launcher, info.inner_puzzle_hash(modules)),
        proof: eve_proof(launcher),
        info,
    }
}

/// What the launcher of a minted store announces.
pub open spec fn minted_list(modules: Modules, store: DataStoreView) -> DLLauncherKVListView {
    DLLauncherKVListView {
        metadata: store.info.metadata,
        state_layer_inner_puzzle_hash: store.info.state_inner_puzzle_hash(modules),
        memos: launch_memos(store.info.owner_puzzle_hash, store.info.delegated_puzzles),
    }
}

/// The store that a launcher mints is the store that is read from the spend
/// of the launcher.
pub proof fn lemma_mint_read_back<M: MetadataWithRootHash>(
    modules: Modules,
    launcher: Coin,
    metadata: M,
    owner_puzzle_hash: Bytes32,
    delegated_puzzles: Seq<DelegatedPuzzle>,
)
    ensures
        ({
            let store = minted_store(
                modules,
                launcher,
                metadata.tree(),
                owner_puzzle_hash,
                delegated_puzzles,
            );
            launched::<M>(
                launcher,
                launch_solution(
                    modules,
                    launcher,
                    store.info.inner_puzzle_hash(modules),
                    minted_list(modules, store).tree(),
                ),
            ) == Ok::<DataStoreView, DriverError>(store)
        }),
{
    let store = minted_store(modules, launcher, metadata.tree(), owner_puzzle_hash, delegated_puzzles);
    let list = minted_list(modules, store);
    let launcher_id = coin_id_of(launcher);
    metadata.lemma_round_trip();
    lemma_bytes32_of(store.coin.puzzle_hash);
    lemma_bytes32_of(list.state_layer_inner_puzzle_hash);
    lemma_decode_uint_atom(launcher.amount);
    lemma_parse_atoms_tree(list.memos);
    let fields = seq![list.metadata, Tree::Atom(list.state_layer_inner_puzzle_hash@)];
    lemma_parse_fields_list(fields, atoms_tree(list.memos));
    reveal_with_fuel(Tree::list_with_tail, 3);
    assert(fields.drop_first() =~= seq![Tree::Atom(list.state_layer_inner_puzzle_hash@)]);
    assert(fields.drop_first().drop_first() =~= Seq::<Tree>::empty());
    assert(Tree::list_with_tail(fields, atoms_tree(list.memos)) == list.tree());
    lemma_parse_fields_list(
        seq![Tree::Atom(store.coin.puzzle_hash@), uint_tree(launcher.amount as nat), list.tree()],
        Tree::nil(),
    );
    let solution = LauncherSolution::<Tree> {
        singleton_puzzle_hash: store.coin.puzzle_hash,
        amount: launcher.amount,
        key_value_list: list.tree(),
    };
    assert(parse_launcher_solution(
        launch_solution(modules, launcher, store.info.inner_puzzle_hash(modules), list.tree()),
    ) == Ok::<LauncherSolution<Tree>, FromClvmError>(solution));
    assert(DLLauncherKVListView::parse::<M>(list.tree()) == Ok::<
        DLLauncherKVListView,
        FromClvmError,
    >(list));
    if delegated_puzzles.len() == 0 {
        assert(seq![launcher_id@] + list.memos =~= seq![launcher_id@]);
        assert(delegated_puzzles =~= Seq::<DelegatedPuzzle>::empty());
        assert(list.state_layer_inner_puzzle_hash == owner_puzzle_hash);
    } else {
        assert(seq![launcher_id@] + list.memos =~= recreation_memos(
            launcher_id,
            owner_puzzle_hash,
            delegated_puzzles,
        ));
        lemma_memo_round_trip(
            store.coin,
            launcher_id,
            store.proof,
            store.info.metadata,
            M::tree_root_hash(store.info.metadata),
            list.state_layer_inner_puzzle_hash,
            owner_puzzle_hash,
            delegated_puzzles,
        );
    }
    assert(launched_store(launcher, solution, list, M::tree_root_hash(list.metadata)) == Ok::<
        DataStoreView,
        DriverError,
    >(store));
}

/// A copy of a sequence of delegated puzzles.
fn copy_delegated(items: &Vec<DelegatedPuzzle>) -> (r: Vec<DelegatedPuzzle>)
    ensures
        r@ == items@,
{
    let mut out: Vec<DelegatedPuzzle> = Vec::new();
    let mut i: usize = 0;
    while i < items.len()
        invariant
            i <= items.len(),
            out@ == items@.subrange(0, i as int),
        decreases items.len() - i,
    {
        out.push(items[i]);
        assert(out@ =~= items@.subrange(0, i + 1));
        i += 1;
    }
    assert(items@.subrange(0, items@.len() as int) =~= items@);
    out
}

impl Launcher {
    /// Mints a data store: spends the launcher, which announces the metadata
    /// and, where anything is delegated, the memos that describe the owner
    /// and the delegated puzzles, and gives the conditions for the launcher's
    /// parent and the store.
    pub fn mint_datastore<M: MetadataWithRootHash>(
        self,
        ctx: &mut SpendContext,
        metadata: M,
        owner_puzzle_hash: Bytes32,
        delegated_puzzles: Vec<DelegatedPuzzle>,
    ) -> (r: Result<(Conditions, DataStore<M>), DriverError>)
        ensures
            final(ctx).modules == old(ctx).modules,
            match r {
                Ok((conditions, datastore)) => {
                    let modules = old(ctx).modules;
                    let store = minted_store(
                        modules,
                        self.coin,
                        metadata.tree(),
                        owner_puzzle_hash,
                        delegated_puzzles@,
                    );
                    let solution = launch_solution(
                        modules,
                        self.coin,
                        store.info.inner_puzzle_hash(modules),
                        minted_list(modules, store).tree(),
                    );
                    &&& datastore@ == store
                    &&& conditions@ == self.conditions@.push(launch_assertion(self.coin, solution))
                    &&& final(ctx).coin_spends@.len() == old(ctx).coin_spends@.len() + 1
                    &&& final(ctx).coin_spends@.drop_last() == old(ctx).coin_spends@
                    &&& final(ctx).coin_spends@.last().coin == self.coin
                    &&& deserialized(final(ctx).coin_spends@.last().puzzle_reveal@)
                        == modules.singleton_launcher.program@
                    &&& deserialized(final(ctx).coin_spends@.last().solution@) == solution
                },
                Err(e) => e == DriverError::Vm && final(ctx).coin_spends@ == old(ctx).coin_spends@,
            },
    {
        let launcher_coin = self.coin();
        let launcher_id = launcher_coin.coin_id();
        let info = DataStoreInfo { launcher_id, metadata, owner_puzzle_hash, delegated_puzzles };
        let state_inner_puzzle_hash = if info.delegated_puzzles.len() == 0 {
            owner_puzzle_hash
        } else {
            info.delegation_layer().curry_tree_hash(&ctx.modules)
        };
        let inner_puzzle_hash = info.inner_puzzle_hash(&ctx.modules);
        let memos: Vec<Vec<u8>> = if info.delegated_puzzles.len() > 0 {
            // the memos that recreate the store, without the launcher id
            let mut all = DataStore::<M>::get_recreation_memos(
                launcher_id,
                owner_puzzle_hash,
                copy_delegated(&info.delegated_puzzles),
            );
            let ghost full = byte_views(all@);
            assert(all@.len() == full.len() && full.len() >= 2);
            all.remove(0);
            assert(byte_views(all@) =~= full.remove(0));
            assert(full.remove(0) =~= seq![owner_puzzle_hash@] + DelegatedPuzzle::memos_of(
                info.delegated_puzzles@,
            ));
            all
        } else {
            let none: Vec<Vec<u8>> = Vec::new();
            assert(byte_views(none@) =~= Seq::<Seq<u8>>::empty());
            none
        };
        let list = DLLauncherKVList {
            metadata: info.metadata.duplicate(),
            state_layer_inner_puzzle_hash: state_inner_puzzle_hash,
            memos,
        };
        let (conditions, eve) = match self.spend(ctx, inner_puzzle_hash, list.to_clvm()) {
            Err(e) => {
                return Err(e);
            },
            Ok(x) => x,
        };
        let proof = Proof::Eve(
            EveProof {
                parent_parent_coin_info: launcher_coin.parent_coin_info,
                parent_amount: launcher_coin.amount,
            },
        );
        Ok((conditions, DataStore { coin: eve, proof, info }))
    }
}

} // verus!
