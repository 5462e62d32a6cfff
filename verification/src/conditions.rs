//! The conditions that puzzles emit, and their form as VM nodes.
//!
//! Every condition is a list that starts with its opcode. The typed records
//! here leave the opcode and other fixed fields out.
use vstd::prelude::*;
use crate::bytes::Bytes32;
use crate::codec::{
    atoms_tree, lemma_bytes32_of, lemma_parse_atoms_tree, lemma_parse_fields_list, parse_atoms,
    parse_bytes32, parse_fields, parse_list, parse_nil, parse_opt_bytes32, parse_signed_const,
    parse_unsigned, parse_unsigned_const, ref_trees, uint_tree,
};
use crate::error::{wrong_length, FromClvmError};
use crate::node::{byte_views, trees, Node, Tree};
use crate::node::lemma_view;
use crate::number::{be_value, lemma_decode_uint_atom, lemma_decode_uint_atom_u16, pow256};

verus! {

/// The opcode of `CreateCoin`, and of the two conditions that are told from
/// it by an empty puzzle hash and the magic amount.
pub const CREATE_COIN: u8 = 51;

/// The opcode of `Remark`.
pub const REMARK: u8 = 1;

/// The opcode of `Softfork`.
pub const SOFTFORK: u8 = 90;

/// The opcode of `NewMetadataCondition`.
pub const NEW_METADATA: i32 = -24;

/// The opcode of `NewMerkleRootCondition`.
pub const NEW_MERKLE_ROOT: i32 = -13;

/// The opcode of `NewNftOwner`.
pub const TRANSFER_NFT: i8 = -10;

/// The amount that marks `MeltSingleton` and `RunTail`.
pub const MAGIC_AMOUNT: i8 = -113;

/// The atom of a one-byte number.
pub open spec fn byte_tree(b: u8) -> Tree {
    Tree::Atom(seq![b])
}

/// A one-byte atom reads as the unsigned number it holds.
pub proof fn lemma_byte_unsigned(b: u8)
    ensures
        parse_unsigned(byte_tree(b), 1) == Ok::<nat, FromClvmError>(b as nat),
        parse_unsigned_const(byte_tree(b), 1, b as nat) == Ok::<(), FromClvmError>(()),
{
    let s = seq![b];
    assert(Seq::new(0, |i: int| 0u8) + s =~= s);
    assert(s.drop_last() =~= Seq::<u8>::empty());
    reveal_with_fuel(be_value, 2);
}

/// A one-byte atom reads as the signed number it holds.
pub proof fn lemma_byte_signed(b: u8, len: nat)
    requires
        b >= 0x80,
        len == 1 || len == 4,
    ensures
        parse_signed_const(byte_tree(b), len, b as int - 256) == Ok::<(), FromClvmError>(()),
{
    let s = seq![b];
    let pad = Seq::new((len - 1) as nat, |i: int| 0xFFu8);
    let r = pad + s;
    reveal_with_fuel(be_value, 5);
    reveal_with_fuel(pow256, 5);
    assert(s.drop_last() =~= Seq::<u8>::empty());
    if len == 1 {
        assert(r =~= s);
    } else {
        assert(r =~= seq![0xFFu8, 0xFFu8, 0xFFu8, b]);
        assert(r.drop_last() =~= seq![0xFFu8, 0xFFu8, 0xFFu8]);
        assert(r.drop_last().drop_last() =~= seq![0xFFu8, 0xFFu8]);
        assert(r.drop_last().drop_last().drop_last() =~= seq![0xFFu8]);
        assert(r.drop_last().drop_last().drop_last().drop_last() =~= Seq::<u8>::empty());
    }
}

/// The atom of a constant that fits one byte.
pub fn byte_node(b: u8) -> (r: Node)
    ensures
        r@ == byte_tree(b),
{
    let mut bytes: Vec<u8> = Vec::new();
    bytes.push(b);
    assert(bytes@ =~= seq![b]);
    Node::Atom(bytes)
}

/// Creates a coin with the given puzzle hash and amount.
#[derive(Clone, Debug, PartialEq, Eq)]
pub struct CreateCoin {
    pub puzzle_hash: Bytes32,
    pub amount: u64,
    pub memos: Vec<Vec<u8>>,
}

/// The mathematical value of a `CreateCoin`.
pub struct CreateCoinView {
    pub puzzle_hash: Bytes32,
    pub amount: u64,
    pub memos: Seq<Seq<u8>>,
}

impl View for CreateCoin {
    type V = CreateCoinView;

    open spec fn view(&self) -> CreateCoinView {
        CreateCoinView {
            puzzle_hash: self.puzzle_hash,
            amount: self.amount,
            memos: byte_views(self.memos@),
        }
    }
}

impl CreateCoinView {
    /// The condition as a VM value: `(51 puzzle_hash amount)`, followed by the
    /// list of memos where there are any.
    pub open spec fn tree(self) -> Tree {
        let head = seq![
            byte_tree(CREATE_COIN),
            Tree::Atom(self.puzzle_hash@),
            uint_tree(self.amount as nat),
        ];
        if self.memos.len() == 0 {
            Tree::list(head)
        } else {
            Tree::list(head.push(atoms_tree(self.memos)))
        }
    }

    /// Reads a `CreateCoin` from a VM value.
    pub open spec fn parse(t: Tree) -> Result<CreateCoinView, FromClvmError> {
        match parse_fields(t, 3) {
            Err(e) => Err(e),
            Ok((f, tail)) => {
                let (memos, end) = match tail {
                    Tree::Pair(first, rest) => (Some(*first), *rest),
                    Tree::Atom(_) => (None, tail),
                };
                match parse_nil(end) {
                    Err(e) => Err(e),
                    Ok(_) => match parse_unsigned_const(f[0], 1, CREATE_COIN as nat) {
                        Err(e) => Err(e),
                        Ok(_) => match parse_bytes32(f[1]) {
                            Err(e) => Err(e),
                            Ok(puzzle_hash) => match parse_unsigned(f[2], 8) {
                                Err(e) => Err(e),
                                Ok(amount) => match memos {
                                    None => Ok(
                                        CreateCoinView {
                                            puzzle_hash,
                                            amount: amount as u64,
                                            memos: Seq::empty(),
                                        },
                                    ),
                                    Some(m) => match parse_atoms(m) {
                                        Err(e) => Err(e),
                                        Ok(memos) => Ok(
                                            CreateCoinView {
                                                puzzle_hash,
                                                amount: amount as u64,
                                                memos,
                                            },
                                        ),
                                    },
                                },
                            },
                        },
                    },
                }
            },
        }
    }

    /// What is written is read back.
    pub proof fn lemma_round_trip(self)
        ensures
            CreateCoinView::parse(self.tree()) == Ok::<CreateCoinView, FromClvmError>(self),
    {
        let head = seq![
            byte_tree(CREATE_COIN),
            Tree::Atom(self.puzzle_hash@),
            uint_tree(self.amount as nat),
        ];
        lemma_byte_unsigned(CREATE_COIN);
        lemma_decode_uint_atom(self.amount);
        lemma_bytes32_of(self.puzzle_hash);
        if self.memos.len() == 0 {
            lemma_parse_fields_list(head, Tree::nil());
            assert(self.memos =~= Seq::empty());
        } else {
            let full = head.push(atoms_tree(self.memos));
            let tail = Tree::cons(atoms_tree(self.memos), Tree::nil());
            lemma_list_split(head, seq![atoms_tree(self.memos)], Tree::nil());
            assert(head + seq![atoms_tree(self.memos)] =~= full);
            reveal_with_fuel(Tree::list_with_tail, 2);
            assert(seq![atoms_tree(self.memos)].drop_first() =~= Seq::<Tree>::empty());
            assert(Tree::list_with_tail(seq![atoms_tree(self.memos)], Tree::nil()) == tail);
            lemma_parse_fields_list(head, tail);
            lemma_parse_atoms_tree(self.memos);
        }
    }
}

/// A list of two runs of items is the first run ended by the list of the second.
pub proof fn lemma_list_split(a: Seq<Tree>, b: Seq<Tree>, tail: Tree)
    ensures
        Tree::list_with_tail(a + b, tail) == Tree::list_with_tail(
            a,
            Tree::list_with_tail(b, tail),
        ),
    decreases a.len(),
{
    if a.len() == 0 {
        assert(a + b =~= b);
    } else {
        lemma_list_split(a.drop_first(), b, tail);
        assert((a + b).drop_first() =~= a.drop_first() + b);
    }
}

impl CreateCoin {
    /// A `CreateCoin` with the given fields.
    pub fn new(puzzle_hash: Bytes32, amount: u64, memos: Vec<Vec<u8>>) -> (r: CreateCoin)
        ensures
            r.puzzle_hash == puzzle_hash,
            r.amount == amount,
            r.memos == memos,
    {
        CreateCoin { puzzle_hash, amount, memos }
    }

    /// Writes the condition as a VM node.
    pub fn to_clvm(&self) -> (r: Node)
        ensures
            r@ == self@.tree(),
    {
        let mut items: Vec<Node> = Vec::new();
        items.push(byte_node(CREATE_COIN));
        items.push(Node::from_bytes32(&self.puzzle_hash));
        items.push(Node::from_u64(self.amount));
        let ghost head = seq![
            byte_tree(CREATE_COIN),
            Tree::Atom(self.puzzle_hash@),
            uint_tree(self.amount as nat),
        ];
        assert(trees(items@) =~= head);
        if self.memos.len() > 0 {
            items.push(Node::from_atoms(&self.memos));
            assert(trees(items@) =~= head.push(atoms_tree(byte_views(self.memos@))));
        }
        Node::list(&items)
    }

    /// Reads the condition from a VM node.
    pub fn from_clvm(node: &Node) -> (r: Result<CreateCoin, FromClvmError>)
        ensures
            match r {
                Ok(c) => CreateCoinView::parse(node@) == Ok::<CreateCoinView, FromClvmError>(c@),
                Err(e) => CreateCoinView::parse(node@) == Err::<CreateCoinView, FromClvmError>(e),
            },
    {
        let (f, tail) = match node.fields(3) {
            Ok(x) => x,
            Err(e) => {
                return Err(e);
            },
        };
        let (memos, end): (Option<&Node>, &Node) = match tail {
            Node::Pair(first, rest) => (Some(&**first), &**rest),
            Node::Atom(_) => (None, tail),
        };
        match end.as_nil() {
            Err(e) => {
                return Err(e);
            },
            Ok(_) => {},
        }
        assert(ref_trees(f@)[0] == f@[0]@);
        assert(ref_trees(f@)[1] == f@[1]@);
        assert(ref_trees(f@)[2] == f@[2]@);
        match f[0].expect_u8(CREATE_COIN) {
            Err(e) => {
                return Err(e);
            },
            Ok(_) => {},
        }
        let puzzle_hash = match f[1].as_bytes32() {
            Err(e) => {
                return Err(e);
            },
            Ok(b) => b,
        };
        let amount = match f[2].as_u64() {
            Err(e) => {
                return Err(e);
            },
            Ok(v) => v,
        };
        let memos: Vec<Vec<u8>> = match memos {
            None => {
                let v: Vec<Vec<u8>> = Vec::new();
                assert(byte_views(v@) =~= Seq::<Seq<u8>>::empty());
                v
            },
            Some(m) => match m.as_atoms() {
                Err(e) => {
                    return Err(e);
                },
                Ok(v) => v,
            },
        };
        Ok(CreateCoin { puzzle_hash, amount, memos })
    }
}

/// Runs a program under rules that a later fork may define.
#[derive(Debug, Clone, Copy, PartialEq, Eq)]
pub struct Softfork<T> {
    pub cost: u64,
    pub rest: T,
}

impl<T> Softfork<T> {
    /// A `Softfork` with the given cost and arguments.
    pub fn new(cost: u64, rest: T) -> (r: Self)
        ensures
            r.cost == cost,
            r.rest == rest,
    {
        Self { cost, rest }
    }
}

/// Says something that no consensus rule reads.
#[derive(Debug, Default, Clone, Copy, PartialEq, Eq)]
pub struct Remark<T = Node> {
    pub rest: T,
}

impl<T> Remark<T> {
    /// A `Remark` with the given content.
    pub fn new(rest: T) -> (r: Self)
        ensures
            r.rest == rest,
    {
        Self { rest }
    }
}

/// Asks the asset layer to run the asset's issuance program.
#[derive(Debug, Clone, Copy, PartialEq, Eq)]
pub struct RunTail<P, S> {
    pub program: P,
    pub solution: S,
}

impl<P, S> RunTail<P, S> {
    /// A `RunTail` with the given program and solution.
    pub fn new(program: P, solution: S) -> (r: Self)
        ensures
            r.program == program,
            r.solution == solution,
    {
        Self { program, solution }
    }
}

/// Ends a singleton's lineage.
#[derive(Debug, Clone, Copy, PartialEq, Eq)]
pub struct MeltSingleton {}

impl Default for MeltSingleton {
    fn default() -> (r: Self)
        ensures
            r == (MeltSingleton {  }),
    {
        MeltSingleton {  }
    }
}

impl MeltSingleton {
    /// The one `MeltSingleton` condition.
    pub fn new() -> (r: Self)
        ensures
            r == (MeltSingleton {  }),
    {
        MeltSingleton {  }
    }
}

/// One price of a trade, with the puzzle hash that was paid.
#[derive(Debug, Clone, Copy, PartialEq, Eq)]
pub struct NftTradePrice {
    pub trade_price: u16,
    pub puzzle_hash: Bytes32,
}

impl NftTradePrice {
    /// A trade price with the given fields.
    pub fn new(trade_price: u16, puzzle_hash: Bytes32) -> (r: Self)
        ensures
            r == (NftTradePrice { trade_price, puzzle_hash }),
    {
        Self { trade_price, puzzle_hash }
    }
}

/// Hands an NFT to a new owner.
#[derive(Debug, Default, Clone, PartialEq, Eq)]
pub struct NewNftOwner {
    pub did_id: Option<Bytes32>,
    pub trade_prices: Vec<NftTradePrice>,
    pub did_inner_puzzle_hash: Option<Bytes32>,
}

impl NewNftOwner {
    /// A `NewNftOwner` with the given fields.
    pub fn new(
        did_id: Option<Bytes32>,
        trade_prices: Vec<NftTradePrice>,
        did_inner_puzzle_hash: Option<Bytes32>,
    ) -> (r: Self)
        ensures
            r.did_id == did_id,
            r.trade_prices == trade_prices,
            r.did_inner_puzzle_hash == did_inner_puzzle_hash,
    {
        Self { did_id, trade_prices, did_inner_puzzle_hash }
    }
}

/// Asks the state layer to run the metadata updater.
#[derive(Debug, Clone, Copy, PartialEq, Eq)]
pub struct NewMetadataCondition<P, S> {
    pub metadata_updater_reveal: P,
    pub metadata_updater_solution: S,
}

/// What a metadata updater says of the next state.
#[derive(Debug, Clone, Copy, PartialEq, Eq)]
pub struct NewMetadataInfo<M> {
    pub new_metadata: M,
    pub new_metadata_updater_puzhash: Bytes32,
}

/// The output of a metadata updater.
#[derive(Debug, Clone, Copy, PartialEq, Eq)]
pub struct NewMetadataOutput<M, C> {
    pub metadata_part: NewMetadataInfo<M>,
    pub conditions: C,
}

/// Asks the delegation layer to commit to a new set of delegated puzzles.
#[derive(Debug, Clone, PartialEq, Eq)]
pub struct NewMerkleRootCondition<M = Bytes32> {
    pub new_merkle_root: Bytes32,
    pub memos: Vec<M>,
}

impl View for NewMetadataCondition<Node, Node> {
    type V = NewMetadataCondition<Tree, Tree>;

    open spec fn view(&self) -> NewMetadataCondition<Tree, Tree> {
        NewMetadataCondition {
            metadata_updater_reveal: self.metadata_updater_reveal@,
            metadata_updater_solution: self.metadata_updater_solution@,
        }
    }
}

impl NewMetadataCondition<Tree, Tree> {
    /// The condition as a VM value: `(-24 reveal solution)`.
    pub open spec fn tree(self) -> Tree {
        Tree::list(
            seq![byte_tree(0xe8), self.metadata_updater_reveal, self.metadata_updater_solution],
        )
    }

    /// Reads the condition from a VM value.
    pub open spec fn parse(t: Tree) -> Result<NewMetadataCondition<Tree, Tree>, FromClvmError> {
        match parse_list(t, 3) {
            Err(e) => Err(e),
            Ok(f) => match parse_signed_const(f[0], 4, NEW_METADATA as int) {
                Err(e) => Err(e),
                Ok(_) => Ok(
                    NewMetadataCondition {
                        metadata_updater_reveal: f[1],
                        metadata_updater_solution: f[2],
                    },
                ),
            },
        }
    }

    /// What is written is read back.
    pub proof fn lemma_round_trip(self)
        ensures
            NewMetadataCondition::<Tree, Tree>::parse(self.tree()) == Ok::<
                NewMetadataCondition<Tree, Tree>,
                FromClvmError,
            >(self),
    {
        let f = seq![
            byte_tree(0xe8),
            self.metadata_updater_reveal,
            self.metadata_updater_solution,
        ];
        lemma_parse_fields_list(f, Tree::nil());
        lemma_byte_signed(0xe8, 4);
    }
}

impl<P, S> NewMetadataCondition<P, S> {
    /// A `NewMetadataCondition` with the given updater and solution.
    pub fn new(metadata_updater_reveal: P, metadata_updater_solution: S) -> (r: Self)
        ensures
            r.metadata_updater_reveal == metadata_updater_reveal,
            r.metadata_updater_solution == metadata_updater_solution,
    {
        NewMetadataCondition { metadata_updater_reveal, metadata_updater_solution }
    }
}

impl NewMetadataCondition<Node, Node> {
    /// Writes the condition as a VM node.
    pub fn to_clvm(&self) -> (r: Node)
        ensures
            r@ == self@.tree(),
    {
        let mut items: Vec<Node> = Vec::new();
        items.push(byte_node(0xe8));
        items.push(self.metadata_updater_reveal.clone());
        items.push(self.metadata_updater_solution.clone());
        assert(trees(items@) =~= seq![
            byte_tree(0xe8),
            self.metadata_updater_reveal@,
            self.metadata_updater_solution@,
        ]);
        Node::list(&items)
    }

    /// Reads the condition from a VM node.
    pub fn from_clvm(node: &Node) -> (r: Result<Self, FromClvmError>)
        ensures
            match r {
                Ok(c) => NewMetadataCondition::<Tree, Tree>::parse(node@) == Ok::<
                    NewMetadataCondition<Tree, Tree>,
                    FromClvmError,
                >(c@),
                Err(e) => NewMetadataCondition::<Tree, Tree>::parse(node@) == Err::<
                    NewMetadataCondition<Tree, Tree>,
                    FromClvmError,
                >(e),
            },
    {
        let f = match node.list_of(3) {
            Err(e) => {
                return Err(e);
            },
            Ok(f) => f,
        };
        assert(ref_trees(f@)[0] == f@[0]@);
        assert(ref_trees(f@)[1] == f@[1]@);
        assert(ref_trees(f@)[2] == f@[2]@);
        match f[0].expect_i32(NEW_METADATA) {
            Err(e) => {
                return Err(e);
            },
            Ok(_) => {},
        }
        Ok(
            NewMetadataCondition {
                metadata_updater_reveal: f[1].clone(),
                metadata_updater_solution: f[2].clone(),
            },
        )
    }
}

impl View for NewMetadataInfo<Node> {
    type V = NewMetadataInfo<Tree>;

    open spec fn view(&self) -> NewMetadataInfo<Tree> {
        NewMetadataInfo {
            new_metadata: self.new_metadata@,
            new_metadata_updater_puzhash: self.new_metadata_updater_puzhash,
        }
    }
}

impl NewMetadataInfo<Tree> {
    /// The value as a VM value: the list of its two fields.
    pub open spec fn tree(self) -> Tree {
        Tree::list(seq![self.new_metadata, Tree::Atom(self.new_metadata_updater_puzhash@)])
    }

    /// Reads the value from a VM value.
    pub open spec fn parse(t: Tree) -> Result<NewMetadataInfo<Tree>, FromClvmError> {
        match parse_list(t, 2) {
            Err(e) => Err(e),
            Ok(f) => match parse_bytes32(f[1]) {
                Err(e) => Err(e),
                Ok(new_metadata_updater_puzhash) => Ok(
                    NewMetadataInfo { new_metadata: f[0], new_metadata_updater_puzhash },
                ),
            },
        }
    }
}

impl<M> NewMetadataInfo<M> {
    /// A `NewMetadataInfo` with the given fields.
    pub fn new(new_metadata: M, new_metadata_updater_puzhash: Bytes32) -> (r: Self)
        ensures
            r.new_metadata == new_metadata,
            r.new_metadata_updater_puzhash == new_metadata_updater_puzhash,
    {
        NewMetadataInfo { new_metadata, new_metadata_updater_puzhash }
    }
}

impl NewMetadataInfo<Node> {
    /// Writes the value as a VM node.
    pub fn to_clvm(&self) -> (r: Node)
        ensures
            r@ == self@.tree(),
    {
        let mut items: Vec<Node> = Vec::new();
        items.push(self.new_metadata.clone());
        items.push(Node::from_bytes32(&self.new_metadata_updater_puzhash));
        assert(trees(items@) =~= seq![
            self.new_metadata@,
            Tree::Atom(self.new_metadata_updater_puzhash@),
        ]);
        Node::list(&items)
    }

    /// Reads the value from a VM node.
    pub fn from_clvm(node: &Node) -> (r: Result<Self, FromClvmError>)
        ensures
            match r {
                Ok(c) => NewMetadataInfo::<Tree>::parse(node@) == Ok::<
                    NewMetadataInfo<Tree>,
                    FromClvmError,
                >(c@),
                Err(e) => NewMetadataInfo::<Tree>::parse(node@) == Err::<
                    NewMetadataInfo<Tree>,
                    FromClvmError,
                >(e),
            },
    {
        let f = match node.list_of(2) {
            Err(e) => {
                return Err(e);
            },
            Ok(f) => f,
        };
        assert(ref_trees(f@)[0] == f@[0]@);
        assert(ref_trees(f@)[1] == f@[1]@);
        let new_metadata_updater_puzhash = match f[1].as_bytes32() {
            Err(e) => {
                return Err(e);
            },
            Ok(b) => b,
        };
        Ok(NewMetadataInfo { new_metadata: f[0].clone(), new_metadata_updater_puzhash })
    }
}

impl View for NewMetadataOutput<Node, Node> {
    type V = NewMetadataOutput<Tree, Tree>;

    open spec fn view(&self) -> NewMetadataOutput<Tree, Tree> {
        NewMetadataOutput { metadata_part: self.metadata_part@, conditions: self.conditions@ }
    }
}

impl NewMetadataOutput<Tree, Tree> {
    /// The output as a VM value: the list of its two fields.
    pub open spec fn tree(self) -> Tree {
        Tree::list(seq![self.metadata_part.tree(), self.conditions])
    }

    /// Reads the output from a VM value.
    pub open spec fn parse(t: Tree) -> Result<NewMetadataOutput<Tree, Tree>, FromClvmError> {
        match parse_list(t, 2) {
            Err(e) => Err(e),
            Ok(f) => match NewMetadataInfo::<Tree>::parse(f[0]) {
                Err(e) => Err(e),
                Ok(metadata_part) => Ok(NewMetadataOutput { metadata_part, conditions: f[1] }),
            },
        }
    }
}

impl<M, C> NewMetadataOutput<M, C> {
    /// A `NewMetadataOutput` with the given fields.
    pub fn new(metadata_part: NewMetadataInfo<M>, conditions: C) -> (r: Self)
        ensures
            r.metadata_part == metadata_part,
            r.conditions == conditions,
    {
        NewMetadataOutput { metadata_part, conditions }
    }
}

impl NewMetadataOutput<Node, Node> {
    /// Writes the output as a VM node.
    pub fn to_clvm(&self) -> (r: Node)
        ensures
            r@ == self@.tree(),
    {
        let mut items: Vec<Node> = Vec::new();
        items.push(self.metadata_part.to_clvm());
        items.push(self.conditions.clone());
        assert(trees(items@) =~= seq![self.metadata_part@.tree(), self.conditions@]);
        Node::list(&items)
    }

    /// Reads the output from a VM node.
    pub fn from_clvm(node: &Node) -> (r: Result<Self, FromClvmError>)
        ensures
            match r {
                Ok(c) => NewMetadataOutput::<Tree, Tree>::parse(node@) == Ok::<
                    NewMetadataOutput<Tree, Tree>,
                    FromClvmError,
                >(c@),
                Err(e) => NewMetadataOutput::<Tree, Tree>::parse(node@) == Err::<
                    NewMetadataOutput<Tree, Tree>,
                    FromClvmError,
                >(e),
            },
    {
        let f = match node.list_of(2) {
            Err(e) => {
                return Err(e);
            },
            Ok(f) => f,
        };
        assert(ref_trees(f@)[0] == f@[0]@);
        assert(ref_trees(f@)[1] == f@[1]@);
        let metadata_part = match NewMetadataInfo::<Node>::from_clvm(f[0]) {
            Err(e) => {
                return Err(e);
            },
            Ok(p) => p,
        };
        Ok(NewMetadataOutput { metadata_part, conditions: f[1].clone() })
    }
}

/// The mathematical value of a `NewMerkleRootCondition` with memos of bytes.
pub struct NewMerkleRootConditionView {
    pub new_merkle_root: Bytes32,
    pub memos: Seq<Seq<u8>>,
}

impl View for NewMerkleRootCondition<Vec<u8>> {
    type V = NewMerkleRootConditionView;

    open spec fn view(&self) -> NewMerkleRootConditionView {
        NewMerkleRootConditionView {
            new_merkle_root: self.new_merkle_root,
            memos: byte_views(self.memos@),
        }
    }
}

impl NewMerkleRootConditionView {
    /// The condition as a VM value: `(-13 root . memos)`.
    pub open spec fn tree(self) -> Tree {
        Tree::cons(
            byte_tree(0xf3),
            Tree::cons(Tree::Atom(self.new_merkle_root@), atoms_tree(self.memos)),
        )
    }

    /// Reads the condition from a VM value.
    pub open spec fn parse(t: Tree) -> Result<NewMerkleRootConditionView, FromClvmError> {
        match parse_fields(t, 2) {
            Err(e) => Err(e),
            Ok((f, rest)) => match parse_signed_const(f[0], 4, NEW_MERKLE_ROOT as int) {
                Err(e) => Err(e),
                Ok(_) => match parse_bytes32(f[1]) {
                    Err(e) => Err(e),
                    Ok(new_merkle_root) => match parse_atoms(rest) {
                        Err(e) => Err(e),
                        Ok(memos) => Ok(NewMerkleRootConditionView { new_merkle_root, memos }),
                    },
                },
            },
        }
    }

    /// What is written is read back.
    pub proof fn lemma_round_trip(self)
        ensures
            NewMerkleRootConditionView::parse(self.tree()) == Ok::<
                NewMerkleRootConditionView,
                FromClvmError,
            >(self),
    {
        let f = seq![byte_tree(0xf3), Tree::Atom(self.new_merkle_root@)];
        lemma_parse_fields_list(f, atoms_tree(self.memos));
        reveal_with_fuel(Tree::list_with_tail, 3);
        assert(f.drop_first() =~= seq![Tree::Atom(self.new_merkle_root@)]);
        assert(f.drop_first().drop_first() =~= Seq::<Tree>::empty());
        assert(Tree::list_with_tail(f, atoms_tree(self.memos)) == self.tree());
        lemma_byte_signed(0xf3, 4);
        lemma_bytes32_of(self.new_merkle_root);
        lemma_parse_atoms_tree(self.memos);
    }
}

impl<M> NewMerkleRootCondition<M> {
    /// A `NewMerkleRootCondition` with the given root and memos.
    pub fn new(new_merkle_root: Bytes32, memos: Vec<M>) -> (r: Self)
        ensures
            r.new_merkle_root == new_merkle_root,
            r.memos == memos,
    {
        NewMerkleRootCondition { new_merkle_root, memos }
    }
}

impl NewMerkleRootCondition<Vec<u8>> {
    /// Writes the condition as a VM node.
    pub fn to_clvm(&self) -> (r: Node)
        ensures
            r@ == self@.tree(),
    {
        Node::pair(
            byte_node(0xf3),
            Node::pair(Node::from_bytes32(&self.new_merkle_root), Node::from_atoms(&self.memos)),
        )
    }

    /// Reads the condition from a VM node.
    pub fn from_clvm(node: &Node) -> (r: Result<Self, FromClvmError>)
        ensures
            match r {
                Ok(c) => NewMerkleRootConditionView::parse(node@) == Ok::<
                    NewMerkleRootConditionView,
                    FromClvmError,
                >(c@),
                Err(e) => NewMerkleRootConditionView::parse(node@) == Err::<
                    NewMerkleRootConditionView,
                    FromClvmError,
                >(e),
            },
    {
        let (f, rest) = match node.fields(2) {
            Err(e) => {
                return Err(e);
            },
            Ok(x) => x,
        };
        assert(ref_trees(f@)[0] == f@[0]@);
        assert(ref_trees(f@)[1] == f@[1]@);
        match f[0].expect_i32(NEW_MERKLE_ROOT) {
            Err(e) => {
                return Err(e);
            },
            Ok(_) => {},
        }
        let new_merkle_root = match f[1].as_bytes32() {
            Err(e) => {
                return Err(e);
            },
            Ok(b) => b,
        };
        let memos = match rest.as_atoms() {
            Err(e) => {
                return Err(e);
            },
            Ok(m) => m,
        };
        Ok(NewMerkleRootCondition { new_merkle_root, memos })
    }
}

impl NftTradePrice {
    /// The price as a VM value: the list of its two fields.
    pub open spec fn tree(self) -> Tree {
        Tree::list(seq![uint_tree(self.trade_price as nat), Tree::Atom(self.puzzle_hash@)])
    }

    /// Reads a price from a VM value.
    pub open spec fn parse(t: Tree) -> Result<NftTradePrice, FromClvmError> {
        match parse_list(t, 2) {
            Err(e) => Err(e),
            Ok(f) => match parse_unsigned(f[0], 2) {
                Err(e) => Err(e),
                Ok(trade_price) => match parse_bytes32(f[1]) {
                    Err(e) => Err(e),
                    Ok(puzzle_hash) => Ok(
                        NftTradePrice { trade_price: trade_price as u16, puzzle_hash },
                    ),
                },
            },
        }
    }

    /// What is written is read back.
    pub proof fn lemma_round_trip(self)
        ensures
            NftTradePrice::parse(self.tree()) == Ok::<NftTradePrice, FromClvmError>(self),
    {
        lemma_parse_fields_list(
            seq![uint_tree(self.trade_price as nat), Tree::Atom(self.puzzle_hash@)],
            Tree::nil(),
        );
        lemma_decode_uint_atom_u16(self.trade_price);
        lemma_bytes32_of(self.puzzle_hash);
    }

    /// Writes the price as a VM node.
    pub fn to_clvm(&self) -> (r: Node)
        ensures
            r@ == self.tree(),
    {
        let mut items: Vec<Node> = Vec::new();
        items.push(Node::from_u64(self.trade_price as u64));
        items.push(Node::from_bytes32(&self.puzzle_hash));
        assert(trees(items@) =~= seq![
            uint_tree(self.trade_price as nat),
            Tree::Atom(self.puzzle_hash@),
        ]);
        Node::list(&items)
    }

    /// Reads the price from a VM node.
    pub fn from_clvm(node: &Node) -> (r: Result<Self, FromClvmError>)
        ensures
            r == NftTradePrice::parse(node@),
    {
        let f = match node.list_of(2) {
            Err(e) => {
                return Err(e);
            },
            Ok(f) => f,
        };
        assert(ref_trees(f@)[0] == f@[0]@);
        assert(ref_trees(f@)[1] == f@[1]@);
        let trade_price = match f[0].as_u16() {
            Err(e) => {
                return Err(e);
            },
            Ok(v) => v,
        };
        match f[1].as_bytes32() {
            Err(e) => Err(e),
            Ok(puzzle_hash) => Ok(NftTradePrice { trade_price, puzzle_hash }),
        }
    }
}

/// The mathematical value of a `NewNftOwner`.
pub struct NewNftOwnerView {
    pub did_id: Option<Bytes32>,
    pub trade_prices: Seq<NftTradePrice>,
    pub did_inner_puzzle_hash: Option<Bytes32>,
}

impl View for NewNftOwner {
    type V = NewNftOwnerView;

    open spec fn view(&self) -> NewNftOwnerView {
        NewNftOwnerView {
            did_id: self.did_id,
            trade_prices: self.trade_prices@,
            did_inner_puzzle_hash: self.did_inner_puzzle_hash,
        }
    }
}

/// A hash or nothing as a VM value: the empty atom for nothing.
pub open spec fn opt_hash_tree(h: Option<Bytes32>) -> Tree {
    match h {
        Some(b) => Tree::Atom(b@),
        None => Tree::nil(),
    }
}

/// The list of the given prices.
pub open spec fn prices_tree(prices: Seq<NftTradePrice>) -> Tree
    decreases prices.len(),
{
    if prices.len() == 0 {
        Tree::nil()
    } else {
        Tree::cons(prices[0].tree(), prices_tree(prices.drop_first()))
    }
}

/// Reads a proper list of prices.
pub open spec fn parse_prices(t: Tree) -> Result<Seq<NftTradePrice>, FromClvmError>
    decreases t,
{
    match t {
        Tree::Atom(b) => if b.len() == 0 {
            Ok(Seq::empty())
        } else {
            Err(wrong_length(0, b.len()))
        },
        Tree::Pair(first, rest) => match NftTradePrice::parse(*first) {
            Err(e) => Err(e),
            Ok(p) => match parse_prices(*rest) {
                Err(e) => Err(e),
                Ok(more) => Ok(seq![p] + more),
            },
        },
    }
}

/// A list of prices reads back as the prices it was built from.
pub proof fn lemma_parse_prices(prices: Seq<NftTradePrice>)
    ensures
        parse_prices(prices_tree(prices)) == Ok::<Seq<NftTradePrice>, FromClvmError>(prices),
    decreases prices.len(),
{
    if prices.len() > 0 {
        lemma_parse_prices(prices.drop_first());
        prices[0].lemma_round_trip();
        assert(seq![prices[0]] + prices.drop_first() =~= prices);
    } else {
        assert(prices =~= Seq::empty());
    }
}

impl NewNftOwnerView {
    /// The condition as a VM value: `(-10 did_id trade_prices did_inner_puzzle_hash)`.
    pub open spec fn tree(self) -> Tree {
        Tree::list(
            seq![
                byte_tree(0xf6),
                opt_hash_tree(self.did_id),
                prices_tree(self.trade_prices),
                opt_hash_tree(self.did_inner_puzzle_hash),
            ],
        )
    }

    /// Reads the condition from a VM value.
    pub open spec fn parse(t: Tree) -> Result<NewNftOwnerView, FromClvmError> {
        match parse_list(t, 4) {
            Err(e) => Err(e),
            Ok(f) => match parse_signed_const(f[0], 1, TRANSFER_NFT as int) {
                Err(e) => Err(e),
                Ok(_) => match parse_opt_bytes32(f[1]) {
                    Err(e) => Err(e),
                    Ok(did_id) => match parse_prices(f[2]) {
                        Err(e) => Err(e),
                        Ok(trade_prices) => match parse_opt_bytes32(f[3]) {
                            Err(e) => Err(e),
                            Ok(did_inner_puzzle_hash) => Ok(
                                NewNftOwnerView { did_id, trade_prices, did_inner_puzzle_hash },
                            ),
                        },
                    },
                },
            },
        }
    }

    /// What is written is read back.
    pub proof fn lemma_round_trip(self)
        ensures
            NewNftOwnerView::parse(self.tree()) == Ok::<NewNftOwnerView, FromClvmError>(self),
    {
        lemma_parse_fields_list(
            seq![
                byte_tree(0xf6),
                opt_hash_tree(self.did_id),
                prices_tree(self.trade_prices),
                opt_hash_tree(self.did_inner_puzzle_hash),
            ],
            Tree::nil(),
        );
        lemma_byte_signed(0xf6, 1);
        lemma_parse_prices(self.trade_prices);
        match self.did_id {
            Some(b) => {
                lemma_bytes32_of(b);
                assert(b@.len() == 32);
            },
            None => {},
        }
        match self.did_inner_puzzle_hash {
            Some(b) => {
                lemma_bytes32_of(b);
                assert(b@.len() == 32);
            },
            None => {},
        }
    }
}

/// Reads a proper list of prices.
fn prices_of(node: &Node) -> (r: Result<Vec<NftTradePrice>, FromClvmError>)
    ensures
        match r {
            Ok(p) => parse_prices(node@) == Ok::<Seq<NftTradePrice>, FromClvmError>(p@),
            Err(e) => parse_prices(node@) == Err::<Seq<NftTradePrice>, FromClvmError>(e),
        },
{
    let mut trade_prices: Vec<NftTradePrice> = Vec::new();
    let mut cur: &Node = node;
    loop
        invariant
            match parse_prices(cur@) {
                Ok(more) => parse_prices(node@) == Ok::<Seq<NftTradePrice>, FromClvmError>(
                    trade_prices@ + more,
                ),
                Err(e) => parse_prices(node@) == Err::<Seq<NftTradePrice>, FromClvmError>(e),
            },
        decreases cur,
    {
        proof {
            lemma_view(cur);
        }
        match cur {
            Node::Atom(b) => {
                if b.len() == 0 {
                    assert(trade_prices@ + Seq::<NftTradePrice>::empty() =~= trade_prices@);
                    return Ok(trade_prices);
                } else {
                    return Err(FromClvmError::WrongAtomLength { expected: 0, found: b.len() });
                }
            },
            Node::Pair(first, rest) => {
                match NftTradePrice::from_clvm(first) {
                    Err(e) => {
                        return Err(e);
                    },
                    Ok(p) => {
                        let ghost before = trade_prices@;
                        trade_prices.push(p);
                        proof {
                            match parse_prices(rest@) {
                                Ok(more) => {
                                    assert(before + (seq![p] + more) =~= trade_prices@ + more);
                                },
                                Err(_) => {},
                            }
                        }
                        cur = &**rest;
                    },
                }
            },
        }
    }
}

/// The atom of a hash, or the empty atom for nothing.
fn opt_hash_node(h: &Option<Bytes32>) -> (r: Node)
    ensures
        r@ == opt_hash_tree(*h),
{
    match h {
        Some(b) => Node::from_bytes32(b),
        None => Node::nil(),
    }
}

impl NewNftOwner {
    /// Writes the condition as a VM node.
    pub fn to_clvm(&self) -> (r: Node)
        ensures
            r@ == self@.tree(),
    {
        let mut prices = Node::nil();
        let mut i: usize = self.trade_prices.len();
        assert(self.trade_prices@.skip(i as int) =~= Seq::<NftTradePrice>::empty());
        while i > 0
            invariant
                i <= self.trade_prices.len(),
                prices@ == prices_tree(self.trade_prices@.skip(i as int)),
            decreases i,
        {
            i -= 1;
            proof {
                let s = self.trade_prices@.skip(i as int);
                assert(s[0] == self.trade_prices@[i as int]);
                assert(s.drop_first() =~= self.trade_prices@.skip(i + 1));
            }
            prices = Node::pair(self.trade_prices[i].to_clvm(), prices);
        }
        assert(self.trade_prices@.skip(0) =~= self.trade_prices@);
        let mut items: Vec<Node> = Vec::new();
        items.push(byte_node(0xf6));
        items.push(opt_hash_node(&self.did_id));
        items.push(prices);
        items.push(opt_hash_node(&self.did_inner_puzzle_hash));
        assert(trees(items@) =~= seq![
            byte_tree(0xf6),
            opt_hash_tree(self.did_id),
            prices_tree(self.trade_prices@),
            opt_hash_tree(self.did_inner_puzzle_hash),
        ]);
        Node::list(&items)
    }

    /// Reads the condition from a VM node.
    pub fn from_clvm(node: &Node) -> (r: Result<Self, FromClvmError>)
        ensures
            match r {
                Ok(c) => NewNftOwnerView::parse(node@) == Ok::<NewNftOwnerView, FromClvmError>(c@),
                Err(e) => NewNftOwnerView::parse(node@) == Err::<NewNftOwnerView, FromClvmError>(
                    e,
                ),
            },
    {
        let f = match node.list_of(4) {
            Err(e) => {
                return Err(e);
            },
            Ok(f) => f,
        };
        assert(ref_trees(f@)[0] == f@[0]@);
        assert(ref_trees(f@)[1] == f@[1]@);
        assert(ref_trees(f@)[2] == f@[2]@);
        assert(ref_trees(f@)[3] == f@[3]@);
        match f[0].expect_i8(TRANSFER_NFT) {
            Err(e) => {
                return Err(e);
            },
            Ok(_) => {},
        }
        let did_id = match f[1].as_opt_bytes32() {
            Err(e) => {
                return Err(e);
            },
            Ok(v) => v,
        };
        let trade_prices = match prices_of(f[2]) {
            Err(e) => {
                return Err(e);
            },
            Ok(p) => p,
        };
        match f[3].as_opt_bytes32() {
            Err(e) => Err(e),
            Ok(did_inner_puzzle_hash) => Ok(
                NewNftOwner { did_id, trade_prices, did_inner_puzzle_hash },
            ),
        }
    }
}

} // verus!
