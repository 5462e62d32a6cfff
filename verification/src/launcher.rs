//! Lists of conditions, and the launcher that creates the first coin of a
//! singleton.
use vstd::prelude::*;
use crate::bytes::{append_bytes, Bytes32};
use crate::coin::{coin_id_of, Coin, CoinSpend};
use crate::condition::{Condition, ConditionView};
use crate::conditions::{byte_node, byte_tree, CreateCoin, CreateCoinView};
use crate::datastore_launch::{launcher_solution_tree, LauncherSolution};
use crate::error::DriverError;
use crate::modules::Modules;
use crate::node::{byte_views, trees, Node, Tree};
use crate::sha::{sha256, sha256_digest};
use crate::singleton_layer::{singleton_curry_tree_hash, singleton_puzzle_hash};
use crate::spend_context::SpendContext;
use crate::vm::deserialized;

verus! {

/// The opcode of the condition that announces a message in the name of a coin.
pub const CREATE_COIN_ANNOUNCEMENT: u8 = 60;

/// The opcode of the condition that asks for an announcement of a coin.
pub const ASSERT_COIN_ANNOUNCEMENT: u8 = 61;

/// The opcode of the condition that announces a message in the name of a puzzle.
pub const CREATE_PUZZLE_ANNOUNCEMENT: u8 = 62;

/// The opcode of the condition that asks for an announcement of a puzzle.
pub const ASSERT_PUZZLE_ANNOUNCEMENT: u8 = 63;

/// A condition of one argument: `(opcode argument)`.
pub open spec fn unary_condition(opcode: u8, argument: Seq<u8>) -> ConditionView {
    ConditionView::Other(Tree::list(seq![byte_tree(opcode), Tree::Atom(argument)]))
}

/// The id under which a coin's or a puzzle's announcement of `message` is
/// asked for: the hash of the coin id or puzzle hash and the message.
pub open spec fn announcement_id(origin: Bytes32, message: Seq<u8>) -> Bytes32 {
    sha256(origin@ + message)
}

/// The values of a sequence of conditions.
pub open spec fn condition_views(items: Seq<Condition>) -> Seq<ConditionView> {
    items.map_values(|c: Condition| c@)
}

/// The VM values of a sequence of conditions.
pub open spec fn condition_trees(items: Seq<ConditionView>) -> Seq<Tree> {
    items.map_values(|c: ConditionView| c.tree())
}

/// A list of conditions, in the order in which they were added.
#[derive(Debug, Clone, PartialEq, Eq)]
pub struct Conditions {
    pub items: Vec<Condition>,
}

impl View for Conditions {
    type V = Seq<ConditionView>;

    open spec fn view(&self) -> Seq<ConditionView> {
        condition_views(self.items@)
    }
}

/// Computes the id of an announcement.
pub fn announcement_id_of(origin: Bytes32, message: &[u8]) -> (r: Bytes32)
    ensures
        r == announcement_id(origin, message@),
{
    let mut data = origin.to_vec();
    append_bytes(&mut data, message);
    sha256_digest(&data)
}

/// Builds a condition of one argument.
fn unary(opcode: u8, argument: &[u8]) -> (r: Condition)
    ensures
        r@ == unary_condition(opcode, argument@),
{
    let mut items: Vec<Node> = Vec::new();
    items.push(byte_node(opcode));
    items.push(Node::atom(argument));
    assert(trees(items@) =~= seq![byte_tree(opcode), Tree::Atom(argument@)]);
    Condition::Other(Node::list(&items))
}

impl Conditions {
    /// No conditions.
    pub fn new() -> (r: Conditions)
        ensures
            r@ == Seq::<ConditionView>::empty(),
    {
        let r = Conditions { items: Vec::new() };
        assert(r@ =~= Seq::<ConditionView>::empty());
        r
    }

    /// The conditions followed by `condition`.
    pub fn with(self, condition: Condition) -> (r: Conditions)
        ensures
            r@ == self@.push(condition@),
    {
        let mut items = self.items;
        items.push(condition);
        let r = Conditions { items };
        assert(r@ =~= self@.push(condition@));
        r
    }

    /// The conditions followed by those of `other`.
    pub fn extend(self, other: Conditions) -> (r: Conditions)
        ensures
            r@ == self@ + other@,
    {
        let mut items = self.items;
        let mut rest = other.items;
        let ghost a = items@;
        let ghost b = rest@;
        items.append(&mut rest);
        let r = Conditions { items };
        assert(r.items@ =~= a + b);
        assert(r@ =~= self@ + other@);
        r
    }

    /// The conditions followed by one that creates a coin.
    pub fn create_coin(self, puzzle_hash: Bytes32, amount: u64, memos: Vec<Vec<u8>>) -> (r:
        Conditions)
        ensures
            r@ == self@.push(
                ConditionView::CreateCoin(
                    CreateCoinView { puzzle_hash, amount, memos: byte_views(memos@) },
                ),
            ),
    {
        self.with(Condition::CreateCoin(CreateCoin { puzzle_hash, amount, memos }))
    }

    /// The conditions followed by one that announces `message` in the name of
    /// the puzzle.
    pub fn create_puzzle_announcement(self, message: Vec<u8>) -> (r: Conditions)
        ensures
            r@ == self@.push(unary_condition(CREATE_PUZZLE_ANNOUNCEMENT, message@)),
    {
        self.with(unary(CREATE_PUZZLE_ANNOUNCEMENT, message.as_slice()))
    }

    /// The conditions followed by one that asks for the announcement of a
    /// puzzle with the given id.
    pub fn assert_puzzle_announcement(self, announcement_id: Bytes32) -> (r: Conditions)
        ensures
            r@ == self@.push(unary_condition(ASSERT_PUZZLE_ANNOUNCEMENT, announcement_id@)),
    {
        self.with(unary(ASSERT_PUZZLE_ANNOUNCEMENT, announcement_id.bytes.as_slice()))
    }

    /// The conditions followed by one that asks for the announcement of a
    /// coin with the given id.
    pub fn assert_coin_announcement(self, announcement_id: Bytes32) -> (r: Conditions)
        ensures
            r@ == self@.push(unary_condition(ASSERT_COIN_ANNOUNCEMENT, announcement_id@)),
    {
        self.with(unary(ASSERT_COIN_ANNOUNCEMENT, announcement_id.bytes.as_slice()))
    }

    /// Writes the conditions as a VM node: the list of the conditions.
    pub fn to_clvm(&self) -> (r: Node)
        ensures
            r@ == Tree::list(condition_trees(self@)),
    {
        let mut nodes: Vec<Node> = Vec::new();
        let mut i: usize = 0;
        while i < self.items.len()
            invariant
                i <= self.items.len(),
                nodes@.len() == i,
                forall|k: int| 0 <= k < i ==> nodes@[k]@ == self.items@[k]@.tree(),
            decreases self.items.len() - i,
        {
            nodes.push(self.items[i].to_clvm());
            i += 1;
        }
        assert(trees(nodes@) =~= condition_trees(self@));
        Node::list(&nodes)
    }
}

/// The launcher coin of a singleton that is about to be created, with the
/// conditions that its parent has to emit.
#[derive(Debug, Clone, PartialEq, Eq)]
pub struct Launcher {
    pub coin: Coin,
    pub conditions: Conditions,
}

/// The launcher coin that `parent_coin_id` creates with `amount`.
pub open spec fn launcher_coin(modules: Modules, parent_coin_id: Bytes32, amount: u64) -> Coin {
    Coin {
        parent_coin_info: parent_coin_id,
        puzzle_hash: modules.singleton_launcher.hash,
        amount,
    }
}

/// The coin that the spend of `launcher` creates: the first coin of the
/// singleton, with the singleton layer around a puzzle of the given hash.
pub open spec fn eve_coin(modules: Modules, launcher: Coin, inner_puzzle_hash: Bytes32) -> Coin {
    Coin {
        parent_coin_info: coin_id_of(launcher),
        puzzle_hash: singleton_puzzle_hash(modules, coin_id_of(launcher), inner_puzzle_hash),
        amount: launcher.amount,
    }
}

/// The solution with which `launcher` is spent.
pub open spec fn launch_solution(
    modules: Modules,
    launcher: Coin,
    inner_puzzle_hash: Bytes32,
    key_value_list: Tree,
) -> Tree {
    launcher_solution_tree(
        eve_coin(modules, launcher, inner_puzzle_hash).puzzle_hash,
        launcher.amount,
        key_value_list,
    )
}

/// The condition with which the parent of a launcher ties itself to the
/// launch: it asks for the launcher's announcement of its solution.
pub open spec fn launch_assertion(launcher: Coin, solution: Tree) -> ConditionView {
    unary_condition(
        ASSERT_COIN_ANNOUNCEMENT,
        announcement_id(coin_id_of(launcher), solution.tree_hash()@)@,
    )
}

impl Launcher {
    /// The launcher that the coin `parent_coin_id` creates with `amount`. Its
    /// conditions create the launcher coin.
    pub fn new(modules: &Modules, parent_coin_id: Bytes32, amount: u64) -> (r: Launcher)
        ensures
            r.coin == launcher_coin(*modules, parent_coin_id, amount),
            r.conditions@ == seq![
                ConditionView::CreateCoin(
                    CreateCoinView {
                        puzzle_hash: modules.singleton_launcher.hash,
                        amount,
                        memos: Seq::empty(),
                    },
                ),
            ],
    {
        let memos: Vec<Vec<u8>> = Vec::new();
        assert(byte_views(memos@) =~= Seq::<Seq<u8>>::empty());
        let conditions = Conditions::new().create_coin(
            modules.singleton_launcher.hash,
            amount,
            memos,
        );
        assert(conditions@ =~= seq![
            ConditionView::CreateCoin(
                CreateCoinView {
                    puzzle_hash: modules.singleton_launcher.hash,
                    amount,
                    memos: Seq::empty(),
                },
            ),
        ]);
        Launcher {
            coin: Coin {
                parent_coin_info: parent_coin_id,
                puzzle_hash: modules.singleton_launcher.hash,
                amount,
            },
            conditions,
        }
    }

    /// The launcher coin.
    pub fn coin(&self) -> (r: Coin)
        ensures
            r == self.coin,
    {
        self.coin
    }

    /// Spends the launcher: adds the spend of the launcher coin to `ctx` and
    /// gives the conditions for the launcher's parent and the first coin of
    /// the singleton.
    pub fn spend(
        self,
        ctx: &mut SpendContext,
        singleton_inner_puzzle_hash: Bytes32,
        key_value_list: Node,
    ) -> (r: Result<(Conditions, Coin), DriverError>)
        ensures
            final(ctx).modules == old(ctx).modules,
            match r {
                Ok((conditions, coin)) => {
                    let solution = launch_solution(
                        old(ctx).modules,
                        self.coin,
                        singleton_inner_puzzle_hash,
                        key_value_list@,
                    );
                    &&& coin == eve_coin(old(ctx).modules, self.coin, singleton_inner_puzzle_hash)
                    &&& conditions@ == self.conditions@.push(launch_assertion(self.coin, solution))
                    &&& final(ctx).coin_spends@.len() == old(ctx).coin_spends@.len() + 1
                    &&& final(ctx).coin_spends@.drop_last() == old(ctx).coin_spends@
                    &&& final(ctx).coin_spends@.last().coin == self.coin
                    &&& deserialized(final(ctx).coin_spends@.last().puzzle_reveal@) == old(
                        ctx,
                    ).modules.singleton_launcher.program@
                    &&& deserialized(final(ctx).coin_spends@.last().solution@) == solution
                },
                Err(e) => e == DriverError::Vm && final(ctx).coin_spends@ == old(ctx).coin_spends@,
            },
    {
        let launcher_id = self.coin.coin_id();
        let singleton_puzzle_hash = singleton_curry_tree_hash(
            &ctx.modules,
            launcher_id,
            singleton_inner_puzzle_hash,
        );
        let solution_node = (LauncherSolution {
            singleton_puzzle_hash,
            amount: self.coin.amount,
            key_value_list,
        }).to_clvm();
        let puzzle = match ctx.serialize(&ctx.modules.singleton_launcher.program) {
            Err(e) => {
                return Err(e);
            },
            Ok(b) => b,
        };
        let solution = match ctx.serialize(&solution_node) {
            Err(e) => {
                return Err(e);
            },
            Ok(b) => b,
        };
        let assertion = announcement_id_of(launcher_id, solution_node.tree_hash().bytes.as_slice());
        ctx.insert(CoinSpend::new(self.coin, puzzle, solution));
        proof {
            assert(ctx.coin_spends@.drop_last() =~= old(ctx).coin_spends@);
        }
        let eve = Coin {
            parent_coin_info: launcher_id,
            puzzle_hash: singleton_puzzle_hash,
            amount: self.coin.amount,
        };
        Ok((self.conditions.assert_coin_announcement(assertion), eve))
    }
}

} // verus!
