//! The state of a data store: its metadata and its delegated puzzles.
use vstd::prelude::*;
use crate::bytes::{append_bytes, lemma_bytes32_ext, Bytes32};
use crate::codec::{bytes32_of, lemma_bytes32_of, uint_tree};
use crate::curry::{
    curried_args, curried_args_hash, lemma_uncurry_curried, parse_curried_args,
    parse_curried_fields,
};
use crate::delegated_layers::{OracleLayer, WriterLayer, WriterLayerView};
use crate::error::DriverError;
use crate::delegation_layer::{delegation_layer_puzzle_hash, DelegationLayer};
use crate::merkle::{merkle_root, MerkleTree};
use crate::modules::Modules;
use crate::node::{byte_views, hash_atom, hash_pair, Node, Tree};
use crate::number::{decode_fee, encode_fee, lemma_uint_atom_value, signed_value, uint_atom};
use crate::sha::{sha256, sha256_digest};

verus! {

/// The kind of a delegated puzzle, as the first memo of its entry says it.
#[derive(Debug, Clone, Copy, PartialEq, Eq)]
pub enum HintType {
    AdminPuzzle,
    WriterPuzzle,
    OraclePuzzle,
}

impl HintType {
    /// The byte that stands for the kind. Zero is left out: it would read as
    /// the end of a list.
    pub open spec fn spec_value(self) -> u8 {
        match self {
            HintType::AdminPuzzle => 1,
            HintType::WriterPuzzle => 2,
            HintType::OraclePuzzle => 3,
        }
    }

    /// The byte that stands for the kind.
    pub fn value(&self) -> (r: u8)
        ensures
            r == self.spec_value(),
    {
        match self {
            HintType::AdminPuzzle => 1,
            HintType::WriterPuzzle => 2,
            HintType::OraclePuzzle => 3,
        }
    }

    /// The kind that a byte stands for.
    pub fn from_value(value: u8) -> (r: Option<HintType>)
        ensures
            match r {
                Some(kind) => kind.spec_value() == value,
                None => !(1 <= value <= 3),
            },
    {
        if value == 1 {
            Some(HintType::AdminPuzzle)
        } else if value == 2 {
            Some(HintType::WriterPuzzle)
        } else if value == 3 {
            Some(HintType::OraclePuzzle)
        } else {
            None
        }
    }
}

/// A puzzle that may spend the store beside its owner.
#[derive(Debug, Clone, Copy, PartialEq, Eq)]
pub enum DelegatedPuzzle {
    /// May change the metadata and the set of delegated puzzles.
    Admin(Bytes32),
    /// May change the metadata.
    Writer(Bytes32),
    /// May be paid the fee to have the store announce itself.
    Oracle(Bytes32, u64),
}

impl DelegatedPuzzle {
    /// The kind of the puzzle.
    pub open spec fn kind(self) -> HintType {
        match self {
            DelegatedPuzzle::Admin(_) => HintType::AdminPuzzle,
            DelegatedPuzzle::Writer(_) => HintType::WriterPuzzle,
            DelegatedPuzzle::Oracle(_, _) => HintType::OraclePuzzle,
        }
    }

    /// What is hashed into the leaf of the puzzle: the byte of its kind, then
    /// its hash, then for an oracle the fee.
    pub open spec fn leaf_preimage(self) -> Seq<u8> {
        match self {
            DelegatedPuzzle::Admin(h) => seq![1u8] + h@,
            DelegatedPuzzle::Writer(h) => seq![2u8] + h@,
            DelegatedPuzzle::Oracle(h, fee) => seq![3u8] + h@ + uint_atom(fee as nat),
        }
    }

    /// The leaf that stands for the puzzle in the Merkle tree.
    pub open spec fn leaf(self) -> Bytes32 {
        sha256(self.leaf_preimage())
    }

    /// The delegated puzzle that a revealed puzzle stands for. The writer's
    /// wrapper around a puzzle stands for the writer of that puzzle's hash, the
    /// oracle puzzle of a puzzle hash and a fee for that oracle, and any other
    /// puzzle for the admin of its own hash.
    pub open spec fn revealed(reveal: Tree, modules: Modules) -> DelegatedPuzzle {
        match WriterLayerView::parse(reveal, modules) {
            Ok(Some(writer)) => writer.delegated(),
            _ => match OracleLayer::parse(reveal, modules) {
                Ok(Some(oracle)) => oracle.delegated(),
                _ => DelegatedPuzzle::Admin(reveal.tree_hash()),
            },
        }
    }

    /// The leaf under which a revealed puzzle is looked up in the Merkle tree.
    pub open spec fn revealed_leaf(reveal: Tree, modules: Modules) -> Bytes32 {
        DelegatedPuzzle::revealed(reveal, modules).leaf()
    }

    /// The memos that describe the puzzle.
    pub open spec fn memos(self) -> Seq<Seq<u8>> {
        match self {
            DelegatedPuzzle::Admin(h) => seq![seq![1u8], h@],
            DelegatedPuzzle::Writer(h) => seq![seq![2u8], h@],
            DelegatedPuzzle::Oracle(h, fee) => seq![seq![3u8], h@, uint_atom(fee as nat)],
        }
    }

    /// The first puzzle that a run of memos describes, and the number of memos
    /// that it takes.
    pub open spec fn parse(memos: Seq<Seq<u8>>) -> Result<(DelegatedPuzzle, nat), DriverError> {
        if memos.len() < 2 {
            Err(DriverError::MissingMemo)
        } else if memos[0].len() != 1 || !(1 <= memos[0][0] <= 3) {
            Err(DriverError::InvalidMemo)
        } else if memos[1].len() != 32 {
            Err(DriverError::InvalidMemo)
        } else {
            let h = bytes32_of(memos[1]);
            if memos[0][0] == 1 {
                Ok((DelegatedPuzzle::Admin(h), 2))
            } else if memos[0][0] == 2 {
                Ok((DelegatedPuzzle::Writer(h), 2))
            } else if memos.len() < 3 {
                Err(DriverError::MissingMemo)
            } else {
                let fee = signed_value(memos[2]);
                if 0 <= fee <= u64::MAX {
                    Ok((DelegatedPuzzle::Oracle(h, fee as u64), 3))
                } else {
                    Err(DriverError::InvalidMemo)
                }
            }
        }
    }

    /// The puzzles that a run of memos describes. The memos must be used up:
    /// a memo left over begins a puzzle that is cut short, which is `MissingMemo`.
    pub open spec fn parse_all(memos: Seq<Seq<u8>>) -> Result<Seq<DelegatedPuzzle>, DriverError>
        decreases memos.len(),
    {
        if memos.len() == 0 {
            Ok(Seq::empty())
        } else {
            match DelegatedPuzzle::parse(memos) {
                Err(e) => Err(e),
                Ok((first, taken)) => match DelegatedPuzzle::parse_all(memos.skip(taken as int)) {
                    Err(e) => Err(e),
                    Ok(more) => Ok(seq![first] + more),
                },
            }
        }
    }

    /// The memos that describe a sequence of puzzles, in order.
    pub open spec fn memos_of(puzzles: Seq<DelegatedPuzzle>) -> Seq<Seq<u8>>
        decreases puzzles.len(),
    {
        if puzzles.len() == 0 {
            Seq::empty()
        } else {
            puzzles[0].memos() + DelegatedPuzzle::memos_of(puzzles.drop_first())
        }
    }

    /// The leaves of a sequence of puzzles, in order.
    pub open spec fn leaves_of(puzzles: Seq<DelegatedPuzzle>) -> Seq<Bytes32> {
        puzzles.map_values(|p: DelegatedPuzzle| p.leaf())
    }

    /// The memos of one puzzle describe that puzzle.
    pub proof fn lemma_parse_memos(self, more: Seq<Seq<u8>>)
        ensures
            DelegatedPuzzle::parse(self.memos() + more) == Ok::<
                (DelegatedPuzzle, nat),
                DriverError,
            >((self, self.memos().len())),
            (self.memos() + more).skip(self.memos().len() as int) == more,
            self.memos().len() >= 2,
    {
        let m = self.memos() + more;
        assert(m.skip(self.memos().len() as int) =~= more);
        match self {
            DelegatedPuzzle::Admin(h) => {
                lemma_bytes32_of(h);
                assert(m[0] == seq![1u8]);
                assert(m[1] == h@);
            },
            DelegatedPuzzle::Writer(h) => {
                lemma_bytes32_of(h);
                assert(m[0] == seq![2u8]);
                assert(m[1] == h@);
            },
            DelegatedPuzzle::Oracle(h, fee) => {
                lemma_bytes32_of(h);
                lemma_uint_atom_value(fee as nat);
                assert(m[0] == seq![3u8]);
                assert(m[1] == h@);
                assert(m[2] == uint_atom(fee as nat));
            },
        }
    }

    /// The memos of a sequence of puzzles describe that sequence.
    pub proof fn lemma_parse_all_memos(puzzles: Seq<DelegatedPuzzle>)
        ensures
            DelegatedPuzzle::parse_all(DelegatedPuzzle::memos_of(puzzles)) == Ok::<
                Seq<DelegatedPuzzle>,
                DriverError,
            >(puzzles),
            puzzles.len() > 0 ==> DelegatedPuzzle::memos_of(puzzles).len() >= 2,
        decreases puzzles.len(),
    {
        if puzzles.len() > 0 {
            let more = DelegatedPuzzle::memos_of(puzzles.drop_first());
            puzzles[0].lemma_parse_memos(more);
            DelegatedPuzzle::lemma_parse_all_memos(puzzles.drop_first());
            assert(seq![puzzles[0]] + puzzles.drop_first() =~= puzzles);
        } else {
            assert(puzzles =~= Seq::empty());
        }
    }

    /// Two puzzles of different kinds are hashed from different bytes, even
    /// where they hold the same hash: the byte of the kind sets them apart.
    /// So they share a leaf only where SHA-256 gives two different byte
    /// strings the same digest.
    pub proof fn lemma_kinds_apart(a: DelegatedPuzzle, b: DelegatedPuzzle)
        requires
            a.kind() != b.kind(),
        ensures
            a.leaf_preimage() != b.leaf_preimage(),
            a.leaf() == b.leaf() ==> sha256_collides(),
    {
        assert(a.leaf_preimage()[0] != b.leaf_preimage()[0]);
    }

    /// Two puzzles of one kind that differ are hashed from different bytes
    /// too, so that different puzzles share a leaf only where SHA-256 gives
    /// two different byte strings the same digest.
    pub proof fn lemma_puzzles_apart(a: DelegatedPuzzle, b: DelegatedPuzzle)
        requires
            a != b,
        ensures
            a.leaf_preimage() != b.leaf_preimage(),
            a.leaf() == b.leaf() ==> sha256_collides(),
    {
        let x = a.leaf_preimage();
        let y = b.leaf_preimage();
        if a.kind() != b.kind() {
            assert(x[0] != y[0]);
        } else if x == y {
            match (a, b) {
                (DelegatedPuzzle::Admin(h), DelegatedPuzzle::Admin(k)) => {
                    assert(h@ =~= x.subrange(1, 33));
                    assert(k@ =~= y.subrange(1, 33));
                    lemma_bytes32_ext(h, k);
                },
                (DelegatedPuzzle::Writer(h), DelegatedPuzzle::Writer(k)) => {
                    assert(h@ =~= x.subrange(1, 33));
                    assert(k@ =~= y.subrange(1, 33));
                    lemma_bytes32_ext(h, k);
                },
                (DelegatedPuzzle::Oracle(h, f), DelegatedPuzzle::Oracle(k, g)) => {
                    assert(h@ =~= x.subrange(1, 33));
                    assert(k@ =~= y.subrange(1, 33));
                    lemma_bytes32_ext(h, k);
                    assert(uint_atom(f as nat) =~= x.subrange(33, x.len() as int));
                    assert(uint_atom(g as nat) =~= y.subrange(33, y.len() as int));
                    lemma_uint_atom_value(f as nat);
                    lemma_uint_atom_value(g as nat);
                },
                _ => {},
            }
            assert(false);
        }
    }

    /// The writer's wrapper around a puzzle is looked up under the leaf of
    /// the writer of that puzzle's hash.
    pub proof fn lemma_writer_revealed(inner_puzzle: Tree, modules: Modules)
        requires
            modules.wf(),
        ensures
            DelegatedPuzzle::revealed(
                (WriterLayerView { inner_puzzle }).puzzle(modules),
                modules,
            ) == DelegatedPuzzle::Writer(inner_puzzle.tree_hash()),
    {
        (WriterLayerView { inner_puzzle }).lemma_parse_puzzle(modules);
    }

    /// The oracle puzzle of a puzzle hash and a fee is looked up under the
    /// leaf of that oracle, whether or not the writer's wrapper is the same
    /// module: the wrapper takes one argument, the oracle puzzle two.
    pub proof fn lemma_oracle_revealed(oracle: OracleLayer, modules: Modules)
        requires
            modules.wf(),
        ensures
            DelegatedPuzzle::revealed(oracle.puzzle(modules), modules) == oracle.delegated(),
    {
        oracle.lemma_parse_puzzle(modules);
        let args = seq![Tree::Atom(oracle.oracle_puzzle_hash@), uint_tree(oracle.oracle_fee as nat)];
        lemma_uncurry_curried(modules.oracle.program@, args);
        // read as arguments of the wrapper, the two arguments do not end
        // after the first
        reveal_with_fuel(curried_args, 3);
        reveal_with_fuel(parse_curried_fields, 2);
        assert(args.drop_first() =~= seq![uint_tree(oracle.oracle_fee as nat)]);
        assert(parse_curried_args(curried_args(args), 1) is Err);
    }

    /// The leaf that stands for the puzzle in the Merkle tree.
    pub fn leaf_hash(&self) -> (r: Bytes32)
        ensures
            r == self.leaf(),
    {
        let mut data: Vec<u8> = Vec::new();
        match self {
            DelegatedPuzzle::Admin(h) => {
                data.push(1u8);
                append_bytes(&mut data, h.bytes.as_slice());
                assert(data@ =~= self.leaf_preimage());
            },
            DelegatedPuzzle::Writer(h) => {
                data.push(2u8);
                append_bytes(&mut data, h.bytes.as_slice());
                assert(data@ =~= self.leaf_preimage());
            },
            DelegatedPuzzle::Oracle(h, fee) => {
                data.push(3u8);
                append_bytes(&mut data, h.bytes.as_slice());
                let fee_bytes = encode_fee(*fee);
                append_bytes(&mut data, fee_bytes.as_slice());
                assert(data@ =~= self.leaf_preimage());
            },
        }
        sha256_digest(&data)
    }

    /// Tells which delegated puzzle a revealed puzzle stands for.
    pub fn of_reveal(puzzle: &Node, modules: &Modules) -> (r: DelegatedPuzzle)
        ensures
            r == DelegatedPuzzle::revealed(puzzle@, *modules),
    {
        match WriterLayer::parse_puzzle(puzzle, modules) {
            Ok(Some(writer)) => writer.delegated_puzzle(),
            _ => match OracleLayer::parse_puzzle(puzzle, modules) {
                Ok(Some(oracle)) => oracle.delegated_puzzle(),
                _ => DelegatedPuzzle::Admin(puzzle.tree_hash()),
            },
        }
    }

    /// Reads the first puzzle that the memos describe and takes its memos off
    /// the front. Where they describe none, the memos stay as they are.
    pub fn from_memos(remaining_memos: &mut Vec<Vec<u8>>) -> (r: Result<Self, DriverError>)
        ensures
            match r {
                Ok(puzzle) => {
                    let taken = puzzle.memos().len();
                    &&& DelegatedPuzzle::parse(byte_views(old(remaining_memos)@)) == Ok::<
                        (DelegatedPuzzle, nat),
                        DriverError,
                    >((puzzle, taken))
                    &&& taken <= old(remaining_memos)@.len()
                    &&& final(remaining_memos)@ == old(remaining_memos)@.skip(taken as int)
                },
                Err(e) => DelegatedPuzzle::parse(byte_views(old(remaining_memos)@)) == Err::<
                    (DelegatedPuzzle, nat),
                    DriverError,
                >(e) && final(remaining_memos)@ == old(remaining_memos)@,
            },
    {
        assert(byte_views(remaining_memos@).skip(0) =~= byte_views(remaining_memos@));
        match DelegatedPuzzle::read_at(remaining_memos, 0) {
            Err(e) => Err(e),
            Ok((puzzle, next)) => {
                let rest = remaining_memos.split_off(next);
                *remaining_memos = rest;
                assert(remaining_memos@ =~= old(remaining_memos)@.skip(next as int));
                Ok(puzzle)
            },
        }
    }

    /// Reads the puzzle that the memos from position `start` on describe, and
    /// gives the position after it.
    pub(crate) fn read_at(memos: &Vec<Vec<u8>>, start: usize) -> (r: Result<
        (DelegatedPuzzle, usize),
        DriverError,
    >)
        requires
            start <= memos@.len(),
        ensures
            match r {
                Ok((puzzle, next)) => DelegatedPuzzle::parse(
                    byte_views(memos@).skip(start as int),
                ) == Ok::<(DelegatedPuzzle, nat), DriverError>((puzzle, (next - start) as nat))
                    && start < next <= memos@.len() && next - start == puzzle.memos().len(),
                Err(e) => DelegatedPuzzle::parse(byte_views(memos@).skip(start as int)) == Err::<
                    (DelegatedPuzzle, nat),
                    DriverError,
                >(e),
            },
    {
        let ghost m = byte_views(memos@).skip(start as int);
        if memos.len() - start < 2 {
            return Err(DriverError::MissingMemo);
        }
        assert(m[0] == memos@[start as int]@);
        assert(m[1] == memos@[start + 1]@);
        let kind_memo = &memos[start];
        if kind_memo.len() != 1 {
            return Err(DriverError::InvalidMemo);
        }
        let kind = match HintType::from_value(kind_memo[0]) {
            Some(kind) => kind,
            None => {
                return Err(DriverError::InvalidMemo);
            },
        };
        let hash = match Bytes32::from_slice(memos[start + 1].as_slice()) {
            Some(h) => h,
            None => {
                return Err(DriverError::InvalidMemo);
            },
        };
        proof {
            lemma_bytes32_of(hash);
        }
        match kind {
            HintType::AdminPuzzle => Ok((DelegatedPuzzle::Admin(hash), start + 2)),
            HintType::WriterPuzzle => Ok((DelegatedPuzzle::Writer(hash), start + 2)),
            HintType::OraclePuzzle => {
                if memos.len() - start < 3 {
                    return Err(DriverError::MissingMemo);
                }
                assert(m[2] == memos@[start + 2]@);
                match decode_fee(memos[start + 2].as_slice()) {
                    Some(fee) => Ok((DelegatedPuzzle::Oracle(hash, fee), start + 3)),
                    None => Err(DriverError::InvalidMemo),
                }
            },
        }
    }
}

/// Whether SHA-256 gives two different byte strings the same digest.
pub open spec fn sha256_collides() -> bool {
    exists|x: Seq<u8>, y: Seq<u8>| x != y && #[trigger] sha256(x) == #[trigger] sha256(y)
}

/// Two pairs with the same hash have the same halves, unless SHA-256 gives
/// two different byte strings the same digest.
pub proof fn lemma_pair_apart(a: Bytes32, b: Bytes32, c: Bytes32, d: Bytes32)
    requires
        !sha256_collides(),
        hash_pair(a, b) == hash_pair(c, d),
    ensures
        a == c,
        b == d,
{
    let x = seq![2u8] + a@ + b@;
    let y = seq![2u8] + c@ + d@;
    assert(sha256(x) == sha256(y));
    assert(x == y);
    assert(a@ =~= x.subrange(1, 33));
    assert(c@ =~= y.subrange(1, 33));
    assert(b@ =~= x.subrange(33, 65));
    assert(d@ =~= y.subrange(33, 65));
    lemma_bytes32_ext(a, c);
    lemma_bytes32_ext(b, d);
}

/// Two atoms with the same hash hold the same bytes, unless SHA-256 gives
/// two different byte strings the same digest.
pub proof fn lemma_atom_apart(a: Seq<u8>, b: Seq<u8>)
    requires
        !sha256_collides(),
        hash_atom(a) == hash_atom(b),
    ensures
        a == b,
{
    let x = seq![1u8] + a;
    let y = seq![1u8] + b;
    assert(sha256(x) == sha256(y));
    assert(x == y);
    assert(a =~= x.subrange(1, x.len() as int));
    assert(b =~= y.subrange(1, y.len() as int));
}

/// Two lists of curried arguments of one length with the same hash hold
/// arguments of the same hashes, unless SHA-256 gives two different byte
/// strings the same digest.
pub proof fn lemma_curried_args_apart(a: Seq<Bytes32>, b: Seq<Bytes32>)
    requires
        !sha256_collides(),
        a.len() == b.len(),
        curried_args_hash(a) == curried_args_hash(b),
    ensures
        a == b,
    decreases a.len(),
{
    if a.len() > 0 {
        let nil = hash_atom(Seq::empty());
        let cons = hash_atom(seq![crate::curry::OP_CONS]);
        let quote = hash_atom(seq![crate::curry::OP_QUOTE]);
        let more_a = curried_args_hash(a.drop_first());
        let more_b = curried_args_hash(b.drop_first());
        lemma_pair_apart(
            cons,
            hash_pair(hash_pair(quote, a[0]), hash_pair(more_a, nil)),
            cons,
            hash_pair(hash_pair(quote, b[0]), hash_pair(more_b, nil)),
        );
        lemma_pair_apart(
            hash_pair(quote, a[0]),
            hash_pair(more_a, nil),
            hash_pair(quote, b[0]),
            hash_pair(more_b, nil),
        );
        lemma_pair_apart(quote, a[0], quote, b[0]);
        lemma_pair_apart(more_a, nil, more_b, nil);
        lemma_curried_args_apart(a.drop_first(), b.drop_first());
        assert(a =~= seq![a[0]] + a.drop_first());
        assert(b =~= seq![b[0]] + b.drop_first());
    } else {
        assert(a =~= b);
    }
}

/// Stores that differ in the kind of their one delegated puzzle are
/// recreated on coins of different puzzle hashes, even where the puzzles hold
/// the same hash, unless SHA-256 gives two different byte strings the same
/// digest: the leaves differ, so the roots do, so the delegation layers do.
pub proof fn lemma_roles_apart(
    modules: Modules,
    launcher_id: Bytes32,
    owner_puzzle_hash: Bytes32,
    a: DelegatedPuzzle,
    b: DelegatedPuzzle,
)
    requires
        a.kind() != b.kind(),
    ensures
        ({
            let layer = |p: DelegatedPuzzle|
                DelegationLayer {
                    launcher_id,
                    owner_puzzle_hash,
                    merkle_root: merkle_root(DelegatedPuzzle::leaves_of(seq![p])),
                };
            delegation_layer_puzzle_hash(modules, layer(a)) == delegation_layer_puzzle_hash(
                modules,
                layer(b),
            ) ==> sha256_collides()
        }),
{
    let root_a = merkle_root(DelegatedPuzzle::leaves_of(seq![a]));
    let root_b = merkle_root(DelegatedPuzzle::leaves_of(seq![b]));
    assert(root_a == a.leaf());
    assert(root_b == b.leaf());
    let layer_a = DelegationLayer { launcher_id, owner_puzzle_hash, merkle_root: root_a };
    let layer_b = DelegationLayer { launcher_id, owner_puzzle_hash, merkle_root: root_b };
    if !sha256_collides() && delegation_layer_puzzle_hash(modules, layer_a)
        == delegation_layer_puzzle_hash(modules, layer_b) {
        let module = modules.delegation_layer.hash;
        let args = |root: Bytes32|
            seq![
                hash_atom(module@),
                hash_atom(launcher_id@),
                hash_atom(owner_puzzle_hash@),
                hash_atom(root@),
            ];
        let nil = hash_atom(Seq::empty());
        let apply = hash_atom(seq![crate::curry::OP_APPLY]);
        let quote = hash_atom(seq![crate::curry::OP_QUOTE]);
        let hash_a = curried_args_hash(args(root_a));
        let hash_b = curried_args_hash(args(root_b));
        lemma_pair_apart(
            apply,
            hash_pair(hash_pair(quote, module), hash_pair(hash_a, nil)),
            apply,
            hash_pair(hash_pair(quote, module), hash_pair(hash_b, nil)),
        );
        lemma_pair_apart(
            hash_pair(quote, module),
            hash_pair(hash_a, nil),
            hash_pair(quote, module),
            hash_pair(hash_b, nil),
        );
        lemma_pair_apart(hash_a, nil, hash_b, nil);
        lemma_curried_args_apart(args(root_a), args(root_b));
        assert(args(root_a)[3] == args(root_b)[3]);
        lemma_atom_apart(root_a@, root_b@);
        lemma_bytes32_ext(root_a, root_b);
        DelegatedPuzzle::lemma_kinds_apart(a, b);
    }
}

/// Builds the Merkle tree over the leaves of the given puzzles, in order.
pub fn get_merkle_tree(delegated_puzzles: &Vec<DelegatedPuzzle>) -> (r: MerkleTree)
    ensures
        r.leaves@ == DelegatedPuzzle::leaves_of(delegated_puzzles@),
        r.wf(),
{
    let mut leaves: Vec<Bytes32> = Vec::new();
    let mut i: usize = 0;
    while i < delegated_puzzles.len()
        invariant
            i <= delegated_puzzles.len(),
            leaves@.len() == i,
            forall|k: int| 0 <= k < i ==> leaves@[k] == delegated_puzzles@[k].leaf(),
        decreases delegated_puzzles.len() - i,
    {
        leaves.push(delegated_puzzles[i].leaf_hash());
        i += 1;
    }
    assert(leaves@ =~= DelegatedPuzzle::leaves_of(delegated_puzzles@));
    MerkleTree::new(leaves)
}

} // verus!
