//! Any condition: the ones the drivers know by shape, and every other as the
//! node it is.
use vstd::prelude::*;
use crate::codec::{
    lemma_parse_fields_list, parse_fields, parse_list, parse_nil, parse_signed_const,
    parse_unsigned, parse_unsigned_const, ref_trees, uint_tree,
};
use crate::conditions::{
    byte_node, byte_tree, lemma_byte_signed, lemma_byte_unsigned, CreateCoin, CreateCoinView,
    MeltSingleton, Remark, RunTail, Softfork, CREATE_COIN, MAGIC_AMOUNT, REMARK, SOFTFORK,
};
use crate::error::FromClvmError;
use crate::node::{trees, Node, Tree};
use crate::number::lemma_decode_uint_atom;

verus! {

impl View for Remark<Node> {
    type V = Remark<Tree>;

    open spec fn view(&self) -> Remark<Tree> {
        Remark { rest: self.rest@ }
    }
}

impl Remark<Tree> {
    /// The condition as a VM value: `(1 . rest)`.
    pub open spec fn tree(self) -> Tree {
        Tree::cons(byte_tree(REMARK), self.rest)
    }

    /// Reads the condition from a VM value.
    pub open spec fn parse(t: Tree) -> Result<Remark<Tree>, FromClvmError> {
        match parse_fields(t, 1) {
            Err(e) => Err(e),
            Ok((f, rest)) => match parse_unsigned_const(f[0], 1, REMARK as nat) {
                Err(e) => Err(e),
                Ok(_) => Ok(Remark { rest }),
            },
        }
    }

    /// What is written is read back.
    pub proof fn lemma_round_trip(self)
        ensures
            Remark::<Tree>::parse(self.tree()) == Ok::<Remark<Tree>, FromClvmError>(self),
    {
        lemma_parse_fields_list(seq![byte_tree(REMARK)], self.rest);
        reveal_with_fuel(Tree::list_with_tail, 2);
        assert(seq![byte_tree(REMARK)].drop_first() =~= Seq::<Tree>::empty());
        lemma_byte_unsigned(REMARK);
    }
}

impl Remark<Node> {
    /// Writes the condition as a VM node.
    pub fn to_clvm(&self) -> (r: Node)
        ensures
            r@ == self@.tree(),
    {
        Node::pair(byte_node(REMARK), self.rest.clone())
    }

    /// Reads the condition from a VM node.
    pub fn from_clvm(node: &Node) -> (r: Result<Self, FromClvmError>)
        ensures
            match r {
                Ok(c) => Remark::<Tree>::parse(node@) == Ok::<Remark<Tree>, FromClvmError>(c@),
                Err(e) => Remark::<Tree>::parse(node@) == Err::<Remark<Tree>, FromClvmError>(e),
            },
    {
        let (f, rest) = match node.fields(1) {
            Err(e) => {
                return Err(e);
            },
            Ok(x) => x,
        };
        assert(ref_trees(f@)[0] == f@[0]@);
        match f[0].expect_u8(REMARK) {
            Err(e) => Err(e),
            Ok(_) => Ok(Remark { rest: rest.clone() }),
        }
    }
}

impl View for Softfork<Node> {
    type V = Softfork<Tree>;

    open spec fn view(&self) -> Softfork<Tree> {
        Softfork { cost: self.cost, rest: self.rest@ }
    }
}

impl Softfork<Tree> {
    /// The condition as a VM value: `(90 cost . rest)`.
    pub open spec fn tree(self) -> Tree {
        Tree::cons(byte_tree(SOFTFORK), Tree::cons(uint_tree(self.cost as nat), self.rest))
    }

    /// Reads the condition from a VM value.
    pub open spec fn parse(t: Tree) -> Result<Softfork<Tree>, FromClvmError> {
        match parse_fields(t, 2) {
            Err(e) => Err(e),
            Ok((f, rest)) => match parse_unsigned_const(f[0], 1, SOFTFORK as nat) {
                Err(e) => Err(e),
                Ok(_) => match parse_unsigned(f[1], 8) {
                    Err(e) => Err(e),
                    Ok(cost) => Ok(Softfork { cost: cost as u64, rest }),
                },
            },
        }
    }

    /// What is written is read back.
    pub proof fn lemma_round_trip(self)
        ensures
            Softfork::<Tree>::parse(self.tree()) == Ok::<Softfork<Tree>, FromClvmError>(self),
    {
        let f = seq![byte_tree(SOFTFORK), uint_tree(self.cost as nat)];
        lemma_parse_fields_list(f, self.rest);
        reveal_with_fuel(Tree::list_with_tail, 3);
        assert(f.drop_first() =~= seq![uint_tree(self.cost as nat)]);
        assert(f.drop_first().drop_first() =~= Seq::<Tree>::empty());
        lemma_byte_unsigned(SOFTFORK);
        lemma_decode_uint_atom(self.cost);
    }
}

impl Softfork<Node> {
    /// Writes the condition as a VM node.
    pub fn to_clvm(&self) -> (r: Node)
        ensures
            r@ == self@.tree(),
    {
        Node::pair(byte_node(SOFTFORK), Node::pair(Node::from_u64(self.cost), self.rest.clone()))
    }

    /// Reads the condition from a VM node.
    pub fn from_clvm(node: &Node) -> (r: Result<Self, FromClvmError>)
        ensures
            match r {
                Ok(c) => Softfork::<Tree>::parse(node@) == Ok::<Softfork<Tree>, FromClvmError>(c@),
                Err(e) => Softfork::<Tree>::parse(node@) == Err::<Softfork<Tree>, FromClvmError>(
                    e,
                ),
            },
    {
        let (f, rest) = match node.fields(2) {
            Err(e) => {
                return Err(e);
            },
            Ok(x) => x,
        };
        assert(ref_trees(f@)[0] == f@[0]@);
        assert(ref_trees(f@)[1] == f@[1]@);
        match f[0].expect_u8(SOFTFORK) {
            Err(e) => {
                return Err(e);
            },
            Ok(_) => {},
        }
        match f[1].as_u64() {
            Err(e) => Err(e),
            Ok(cost) => Ok(Softfork { cost, rest: rest.clone() }),
        }
    }
}

impl MeltSingleton {
    /// The condition as a VM value: `(51 () -113)`.
    pub open spec fn tree() -> Tree {
        Tree::list(seq![byte_tree(CREATE_COIN), Tree::nil(), byte_tree(0x8f)])
    }

    /// Whether a VM value reads as the condition.
    pub open spec fn parse(t: Tree) -> Result<(), FromClvmError> {
        match parse_list(t, 3) {
            Err(e) => Err(e),
            Ok(f) => match parse_unsigned_const(f[0], 1, CREATE_COIN as nat) {
                Err(e) => Err(e),
                Ok(_) => match parse_nil(f[1]) {
                    Err(e) => Err(e),
                    Ok(_) => parse_signed_const(f[2], 1, MAGIC_AMOUNT as int),
                },
            },
        }
    }

    /// What is written is read back.
    pub proof fn lemma_round_trip()
        ensures
            MeltSingleton::parse(MeltSingleton::tree()) == Ok::<(), FromClvmError>(()),
    {
        lemma_parse_fields_list(
            seq![byte_tree(CREATE_COIN), Tree::nil(), byte_tree(0x8f)],
            Tree::nil(),
        );
        lemma_byte_unsigned(CREATE_COIN);
        lemma_byte_signed(0x8f, 1);
    }

    /// Writes the condition as a VM node.
    pub fn to_clvm(&self) -> (r: Node)
        ensures
            r@ == MeltSingleton::tree(),
    {
        let mut items: Vec<Node> = Vec::new();
        items.push(byte_node(CREATE_COIN));
        items.push(Node::nil());
        items.push(byte_node(0x8f));
        assert(trees(items@) =~= seq![byte_tree(CREATE_COIN), Tree::nil(), byte_tree(0x8f)]);
        Node::list(&items)
    }

    /// Reads the condition from a VM node.
    pub fn from_clvm(node: &Node) -> (r: Result<Self, FromClvmError>)
        ensures
            match r {
                Ok(_) => MeltSingleton::parse(node@) == Ok::<(), FromClvmError>(()),
                Err(e) => MeltSingleton::parse(node@) == Err::<(), FromClvmError>(e),
            },
    {
        let f = match node.list_of(3) {
            Err(e) => {
                return Err(e);
            },
            Ok(f) => f,
        };
        assert(ref_trees(f@)[0] == f@[0]@);
        assert(ref_trees(f@)[1] == f@[1]@);
        assert(ref_trees(f@)[2] == f@[2]@);
        match f[0].expect_u8(CREATE_COIN) {
            Err(e) => {
                return Err(e);
            },
            Ok(_) => {},
        }
        match f[1].as_nil() {
            Err(e) => {
                return Err(e);
            },
            Ok(_) => {},
        }
        match f[2].expect_i8(MAGIC_AMOUNT) {
            Err(e) => Err(e),
            Ok(_) => Ok(MeltSingleton {  }),
        }
    }
}

impl View for RunTail<Node, Node> {
    type V = RunTail<Tree, Tree>;

    open spec fn view(&self) -> RunTail<Tree, Tree> {
        RunTail { program: self.program@, solution: self.solution@ }
    }
}

impl RunTail<Tree, Tree> {
    /// The condition as a VM value: `(51 () -113 program solution)`.
    pub open spec fn tree(self) -> Tree {
        Tree::list(
            seq![
                byte_tree(CREATE_COIN),
                Tree::nil(),
                byte_tree(0x8f),
                self.program,
                self.solution,
            ],
        )
    }

    /// Reads the condition from a VM value.
    pub open spec fn parse(t: Tree) -> Result<RunTail<Tree, Tree>, FromClvmError> {
        match parse_list(t, 5) {
            Err(e) => Err(e),
            Ok(f) => match parse_unsigned_const(f[0], 1, CREATE_COIN as nat) {
                Err(e) => Err(e),
                Ok(_) => match parse_nil(f[1]) {
                    Err(e) => Err(e),
                    Ok(_) => match parse_signed_const(f[2], 1, MAGIC_AMOUNT as int) {
                        Err(e) => Err(e),
                        Ok(_) => Ok(RunTail { program: f[3], solution: f[4] }),
                    },
                },
            },
        }
    }

    /// What is written is read back.
    pub proof fn lemma_round_trip(self)
        ensures
            RunTail::<Tree, Tree>::parse(self.tree()) == Ok::<RunTail<Tree, Tree>, FromClvmError>(
                self,
            ),
    {
        lemma_parse_fields_list(
            seq![
                byte_tree(CREATE_COIN),
                Tree::nil(),
                byte_tree(0x8f),
                self.program,
                self.solution,
            ],
            Tree::nil(),
        );
        lemma_byte_unsigned(CREATE_COIN);
        lemma_byte_signed(0x8f, 1);
    }
}

impl RunTail<Node, Node> {
    /// Writes the condition as a VM node.
    pub fn to_clvm(&self) -> (r: Node)
        ensures
            r@ == self@.tree(),
    {
        let mut items: Vec<Node> = Vec::new();
        items.push(byte_node(CREATE_COIN));
        items.push(Node::nil());
        items.push(byte_node(0x8f));
        items.push(self.program.clone());
        items.push(self.solution.clone());
        assert(trees(items@) =~= seq![
            byte_tree(CREATE_COIN),
            Tree::nil(),
            byte_tree(0x8f),
            self.program@,
            self.solution@,
        ]);
        Node::list(&items)
    }

    /// Reads the condition from a VM node.
    pub fn from_clvm(node: &Node) -> (r: Result<Self, FromClvmError>)
        ensures
            match r {
                Ok(c) => RunTail::<Tree, Tree>::parse(node@) == Ok::<
                    RunTail<Tree, Tree>,
                    FromClvmError,
                >(c@),
                Err(e) => RunTail::<Tree, Tree>::parse(node@) == Err::<
                    RunTail<Tree, Tree>,
                    FromClvmError,
                >(e),
            },
    {
        let f = match node.list_of(5) {
            Err(e) => {
                return Err(e);
            },
            Ok(f) => f,
        };
        assert(ref_trees(f@)[0] == f@[0]@);
        assert(ref_trees(f@)[1] == f@[1]@);
        assert(ref_trees(f@)[2] == f@[2]@);
        assert(ref_trees(f@)[3] == f@[3]@);
        assert(ref_trees(f@)[4] == f@[4]@);
        match f[0].expect_u8(CREATE_COIN) {
            Err(e) => {
                return Err(e);
            },
            Ok(_) => {},
        }
        match f[1].as_nil() {
            Err(e) => {
                return Err(e);
            },
            Ok(_) => {},
        }
        match f[2].expect_i8(MAGIC_AMOUNT) {
            Err(e) => Err(e),
            Ok(_) => Ok(RunTail { program: f[3].clone(), solution: f[4].clone() }),
        }
    }
}

/// A condition.
#[derive(Debug, Clone, PartialEq, Eq)]
pub enum Condition {
    Remark(Remark<Node>),
    CreateCoin(CreateCoin),
    Softfork(Softfork<Node>),
    MeltSingleton(MeltSingleton),
    RunTail(RunTail<Node, Node>),
    /// A condition of no shape known here, kept as it is.
    Other(Node),
}

/// The mathematical value of a `Condition`.
pub enum ConditionView {
    Remark(Remark<Tree>),
    CreateCoin(CreateCoinView),
    Softfork(Softfork<Tree>),
    MeltSingleton,
    RunTail(RunTail<Tree, Tree>),
    Other(Tree),
}

impl View for Condition {
    type V = ConditionView;

    open spec fn view(&self) -> ConditionView {
        match self {
            Condition::Remark(c) => ConditionView::Remark(c@),
            Condition::CreateCoin(c) => ConditionView::CreateCoin(c@),
            Condition::Softfork(c) => ConditionView::Softfork(c@),
            Condition::MeltSingleton(_) => ConditionView::MeltSingleton,
            Condition::RunTail(c) => ConditionView::RunTail(c@),
            Condition::Other(n) => ConditionView::Other(n@),
        }
    }
}

impl ConditionView {
    /// The condition as a VM value.
    pub open spec fn tree(self) -> Tree {
        match self {
            ConditionView::Remark(c) => c.tree(),
            ConditionView::CreateCoin(c) => c.tree(),
            ConditionView::Softfork(c) => c.tree(),
            ConditionView::MeltSingleton => MeltSingleton::tree(),
            ConditionView::RunTail(c) => c.tree(),
            ConditionView::Other(t) => t,
        }
    }

    /// The condition that a VM value reads as: the first of the known shapes
    /// that it has, in the order of the variants, else `Other`.
    pub open spec fn parse(t: Tree) -> ConditionView {
        match Remark::<Tree>::parse(t) {
            Ok(c) => ConditionView::Remark(c),
            Err(_) => match CreateCoinView::parse(t) {
                Ok(c) => ConditionView::CreateCoin(c),
                Err(_) => match Softfork::<Tree>::parse(t) {
                    Ok(c) => ConditionView::Softfork(c),
                    Err(_) => match MeltSingleton::parse(t) {
                        Ok(_) => ConditionView::MeltSingleton,
                        Err(_) => match RunTail::<Tree, Tree>::parse(t) {
                            Ok(c) => ConditionView::RunTail(c),
                            Err(_) => ConditionView::Other(t),
                        },
                    },
                },
            },
        }
    }
}

impl Condition {
    /// Writes the condition as a VM node.
    pub fn to_clvm(&self) -> (r: Node)
        ensures
            r@ == self@.tree(),
    {
        match self {
            Condition::Remark(c) => c.to_clvm(),
            Condition::CreateCoin(c) => c.to_clvm(),
            Condition::Softfork(c) => c.to_clvm(),
            Condition::MeltSingleton(c) => c.to_clvm(),
            Condition::RunTail(c) => c.to_clvm(),
            Condition::Other(n) => n.clone(),
        }
    }

    /// Reads a condition from a VM node. Every node is a condition.
    pub fn from_clvm(node: &Node) -> (r: Condition)
        ensures
            r@ == ConditionView::parse(node@),
    {
        match Remark::<Node>::from_clvm(node) {
            Ok(c) => {
                return Condition::Remark(c);
            },
            Err(_) => {},
        }
        match CreateCoin::from_clvm(node) {
            Ok(c) => {
                return Condition::CreateCoin(c);
            },
            Err(_) => {},
        }
        match Softfork::<Node>::from_clvm(node) {
            Ok(c) => {
                return Condition::Softfork(c);
            },
            Err(_) => {},
        }
        match MeltSingleton::from_clvm(node) {
            Ok(c) => {
                return Condition::MeltSingleton(c);
            },
            Err(_) => {},
        }
        match RunTail::<Node, Node>::from_clvm(node) {
            Ok(c) => {
                return Condition::RunTail(c);
            },
            Err(_) => {},
        }
        Condition::Other(node.clone())
    }
}

} // verus!
