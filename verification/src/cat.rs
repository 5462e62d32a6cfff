//! The CAT primitive: a coin of a fungible asset.
use vstd::prelude::*;
use vstd::pervasive::unreached;
use crate::bytes::Bytes32;
use crate::cat_layer::{
    cat_curry_tree_hash, cat_puzzle_hash, CATLayer, CATLayerView, CatSolution, TransparentLayer,
};
use crate::coin::{coin_id_of, Coin, CoinSpend, LineageProof, Proof};
use crate::conditions::{CreateCoin, CreateCoinView};
use crate::datastore_child::{
    conditions_of, emitted_conditions, find_last_odd_create_coin, last_odd_create_coin,
};
use crate::error::DriverError;
use crate::modules::Modules;
use crate::node::{trees, Node, Tree};
use crate::spend_context::{Spend, SpendContext};
use crate::vm::{
    deserialized, node_from_bytes, run_output, run_puzzle, serialized, MAX_PUZZLE_COST,
};

verus! {

/// A coin of a fungible asset, with what is known of the puzzle that owns it.
#[derive(Debug, Clone, PartialEq, Eq)]
pub struct CAT {
    pub coin: Coin,
    pub asset_id: Bytes32,
    /// The hash of the innermost puzzle, the owner's.
    pub p2_puzzle_hash: Bytes32,
    /// The owner's puzzle, where it has been revealed.
    pub p2_puzzle: Option<Node>,
}

/// The mathematical value of a `CAT`.
pub struct CATView {
    pub coin: Coin,
    pub asset_id: Bytes32,
    pub p2_puzzle_hash: Bytes32,
    pub p2_puzzle: Option<Tree>,
}

impl View for CAT {
    type V = CATView;

    open spec fn view(&self) -> CATView {
        CATView {
            coin: self.coin,
            asset_id: self.asset_id,
            p2_puzzle_hash: self.p2_puzzle_hash,
            p2_puzzle: match self.p2_puzzle {
                Some(p) => Some(p@),
                None => None,
            },
        }
    }
}

/// The first coin that the conditions create.
pub open spec fn first_create_coin(conditions: Seq<Tree>) -> Option<CreateCoinView>
    decreases conditions.len(),
{
    if conditions.len() == 0 {
        None
    } else {
        match CreateCoinView::parse(conditions[0]) {
            Ok(c) => Some(c),
            Err(_) => first_create_coin(conditions.drop_first()),
        }
    }
}

/// The coin that carries the asset on: the last coin of odd amount that the
/// conditions create or, where they create none of odd amount, the first coin
/// that they create.
pub open spec fn child_create_coin(conditions: Seq<Tree>) -> Option<CreateCoinView> {
    match last_odd_create_coin(conditions) {
        Some(c) => Some(c),
        None => first_create_coin(conditions),
    }
}

/// The child of a CAT coin, from what the owner's puzzle has emitted: the
/// coin that `child_create_coin` picks, wrapped in the CAT layer of the same
/// asset. Its amount is the amount of that condition. A spend that creates
/// no coin has no child, which is `MissingChild`.
pub open spec fn cat_child(
    parent: Coin,
    asset_id: Bytes32,
    output: Tree,
    modules: Modules,
) -> Result<CATView, DriverError> {
    match emitted_conditions(output) {
        Err(e) => Err(DriverError::FromClvm(e)),
        Ok(conditions) => match child_create_coin(conditions) {
            None => Err(DriverError::MissingChild),
            Some(c) => Ok(
                CATView {
                    coin: Coin {
                        parent_coin_info: coin_id_of(parent),
                        puzzle_hash: cat_puzzle_hash(modules, asset_id, c.puzzle_hash),
                        amount: c.amount,
                    },
                    asset_id,
                    p2_puzzle_hash: c.puzzle_hash,
                    p2_puzzle: None,
                },
            ),
        },
    }
}

/// The child of the spend of a CAT coin, given what the VM reads from the
/// serialized puzzle and solution and what it returns for the owner's puzzle.
/// `Ok(None)` exactly where the puzzle is no CAT layer.
pub open spec fn cat_spent(
    coin: Coin,
    puzzle_reveal: Seq<u8>,
    solution: Seq<u8>,
    modules: Modules,
) -> Result<Option<CATView>, DriverError> {
    match CATLayerView::parse(deserialized(puzzle_reveal), modules) {
        Err(e) => Err(e),
        Ok(None) => Ok(None),
        Ok(Some(layer)) => match CatSolution::<Tree>::parse(deserialized(solution)) {
            Err(e) => Err(DriverError::FromClvm(e)),
            Ok(s) => match cat_child(
                coin,
                layer.asset_id,
                run_output(layer.inner_puzzle, s.inner_puzzle_solution, MAX_PUZZLE_COST),
                modules,
            ) {
                Err(e) => Err(e),
                Ok(child) => Ok(Some(child)),
            },
        },
    }
}

/// Finds the first coin that the conditions create.
fn find_first_create_coin(conditions: &Vec<Node>) -> (r: Option<CreateCoin>)
    ensures
        match r {
            Some(c) => first_create_coin(trees(conditions@)) == Some(c@),
            None => first_create_coin(trees(conditions@)) is None,
        },
{
    let mut i: usize = 0;
    let ghost all = trees(conditions@);
    assert(all.skip(0) =~= all);
    while i < conditions.len()
        invariant
            i <= conditions.len(),
            all == trees(conditions@),
            first_create_coin(all.skip(i as int)) == first_create_coin(all),
        decreases conditions.len() - i,
    {
        proof {
            let rest = all.skip(i as int);
            assert(rest[0] == conditions@[i as int]@);
            assert(rest.drop_first() =~= all.skip(i + 1));
        }
        match CreateCoin::from_clvm(&conditions[i]) {
            Ok(c) => {
                return Some(c);
            },
            Err(_) => {},
        }
        i += 1;
    }
    None
}

impl CATLayer<TransparentLayer> {
    /// The value of the layer around the revealed puzzle, where it is revealed.
    pub open spec fn revealed(self) -> Option<CATLayerView> {
        match self.inner_puzzle.puzzle {
            Some(p) => Some(CATLayerView { asset_id: self.asset_id, inner_puzzle: p@ }),
            None => None,
        }
    }

    /// The hash of the puzzle of the layer, from the hash of the inner puzzle.
    pub fn tree_hash(&self, modules: &Modules) -> (r: Bytes32)
        ensures
            r == cat_puzzle_hash(*modules, self.asset_id, self.inner_puzzle.puzzle_hash),
    {
        cat_curry_tree_hash(modules, self.asset_id, self.inner_puzzle.puzzle_hash)
    }

    /// Builds the puzzle of the layer, where the inner puzzle is revealed.
    pub fn construct_puzzle(&self, modules: &Modules) -> (r: Option<Node>)
        ensures
            match r {
                Some(p) => self.revealed() is Some && p@ == self.revealed()->0.puzzle(*modules),
                None => self.revealed() is None,
            },
    {
        match &self.inner_puzzle.puzzle {
            Some(p) => {
                let layer = CATLayer::<Node>::new(self.asset_id, p.clone());
                Some(layer.construct_puzzle(modules))
            },
            None => None,
        }
    }

    /// The lineage proof that a child carries, where the parent of the coin
    /// of this layer is `parent_parent_coin_info` and its amount is `amount`.
    pub fn lineage_proof_for_child(&self, parent_parent_coin_info: Bytes32, amount: u64) -> (r:
        LineageProof)
        ensures
            r == (LineageProof {
                parent_parent_coin_info,
                parent_inner_puzzle_hash: self.inner_puzzle.puzzle_hash,
                parent_amount: amount,
            }),
    {
        LineageProof {
            parent_parent_coin_info,
            parent_inner_puzzle_hash: self.inner_puzzle.puzzle_hash,
            parent_amount: amount,
        }
    }
}

impl CAT {
    /// A CAT with the given fields.
    pub fn new(coin: Coin, asset_id: Bytes32, p2_puzzle_hash: Bytes32, p2_puzzle: Option<Node>) -> (r:
        Self)
        ensures
            r.coin == coin,
            r.asset_id == asset_id,
            r.p2_puzzle_hash == p2_puzzle_hash,
            r.p2_puzzle == p2_puzzle,
    {
        CAT { coin, asset_id, p2_puzzle_hash, p2_puzzle }
    }

    /// The same CAT on another coin.
    pub fn with_coin(self, coin: Coin) -> (r: Self)
        ensures
            r.coin == coin,
            r.asset_id == self.asset_id,
            r.p2_puzzle_hash == self.p2_puzzle_hash,
            r.p2_puzzle == self.p2_puzzle,
    {
        let mut cat = self;
        cat.coin = coin;
        cat
    }

    /// The same CAT with the owner's puzzle revealed.
    pub fn with_p2_puzzle(self, p2_puzzle: Node) -> (r: Self)
        ensures
            r.coin == self.coin,
            r.asset_id == self.asset_id,
            r.p2_puzzle_hash == self.p2_puzzle_hash,
            r.p2_puzzle == Some(p2_puzzle),
    {
        let mut cat = self;
        cat.p2_puzzle = Some(p2_puzzle);
        cat
    }

    /// Works out the child of a CAT coin from what the owner's puzzle has
    /// emitted.
    pub fn child_from_inner_output(
        parent: Coin,
        asset_id: Bytes32,
        output: &Node,
        modules: &Modules,
    ) -> (r: Result<Self, DriverError>)
        ensures
            match r {
                Ok(cat) => cat_child(parent, asset_id, output@, *modules) == Ok::<
                    CATView,
                    DriverError,
                >(cat@),
                Err(e) => cat_child(parent, asset_id, output@, *modules) == Err::<
                    CATView,
                    DriverError,
                >(e),
            },
    {
        let conditions = match conditions_of(output) {
            Err(e) => {
                return Err(DriverError::FromClvm(e));
            },
            Ok(c) => c,
        };
        let create_coin = match find_last_odd_create_coin(&conditions) {
            Some(c) => c,
            None => match find_first_create_coin(&conditions) {
                Some(c) => c,
                None => {
                    return Err(DriverError::MissingChild);
                },
            },
        };
        Ok(
            CAT {
                coin: Coin {
                    parent_coin_info: parent.coin_id(),
                    puzzle_hash: cat_curry_tree_hash(modules, asset_id, create_coin.puzzle_hash),
                    amount: create_coin.amount,
                },
                asset_id,
                p2_puzzle_hash: create_coin.puzzle_hash,
                p2_puzzle: None,
            },
        )
    }

    /// Reads the child of the spend of a CAT coin. `Ok(None)` exactly where
    /// the revealed puzzle is no CAT layer; a CAT spend that creates no coin
    /// is `MissingChild`.
    ///
    /// Running the owner's puzzle is the VM's part: where the VM fails, the
    /// result is `Vm`; in every other case the result is the one that
    /// `cat_spent` defines from what the VM returned.
    ///
    /// The library holds a VM value as a tree of its own, and takes no value
    /// deeper than `MAX_DEPTH` pairs from the VM, counted along both the
    /// first and the rest of each pair: a list of more items than that, or a
    /// program nested deeper, is beyond what its recursive walks may descend.
    /// A puzzle reveal, a solution or an output of a puzzle that is deeper is
    /// refused as `Vm`.
    pub fn from_parent_spend(cs: &CoinSpend, modules: &Modules) -> (r: Result<Option<Self>, DriverError>)
        ensures
            match r {
                Err(DriverError::Vm) => true,
                Ok(Some(cat)) => cat_spent(cs.coin, cs.puzzle_reveal@, cs.solution@, *modules)
                    == Ok::<Option<CATView>, DriverError>(Some(cat@)),
                Ok(None) => cat_spent(cs.coin, cs.puzzle_reveal@, cs.solution@, *modules) == Ok::<
                    Option<CATView>,
                    DriverError,
                >(None),
                Err(e) => cat_spent(cs.coin, cs.puzzle_reveal@, cs.solution@, *modules) == Err::<
                    Option<CATView>,
                    DriverError,
                >(e),
            },
    {
        let puzzle = match node_from_bytes(cs.puzzle_reveal.as_slice()) {
            Err(e) => {
                return Err(e);
            },
            Ok(n) => n,
        };
        let solution = match node_from_bytes(cs.solution.as_slice()) {
            Err(e) => {
                return Err(e);
            },
            Ok(n) => n,
        };
        let layer = match CATLayer::<Node>::parse_puzzle(&puzzle, modules) {
            Err(e) => {
                return Err(e);
            },
            Ok(None) => {
                return Ok(None);
            },
            Ok(Some(l)) => l,
        };
        let s = match CATLayer::<Node>::parse_solution(&solution) {
            Err(e) => {
                return Err(DriverError::FromClvm(e));
            },
            Ok(s) => s,
        };
        let output = match run_puzzle(&layer.inner_puzzle, &s.inner_puzzle_solution) {
            Err(e) => {
                return Err(e);
            },
            Ok(n) => n,
        };
        match Self::child_from_inner_output(cs.coin, layer.asset_id, &output, modules) {
            Err(e) => Err(e),
            Ok(child) => Ok(Some(child)),
        }
    }

    /// Reads the CAT that `coin` is, from its puzzle. `Ok(None)` where the
    /// puzzle is no CAT layer.
    pub fn from_puzzle(coin: Coin, puzzle: &Node, modules: &Modules) -> (r: Result<
        Option<Self>,
        DriverError,
    >)
        ensures
            match r {
                Ok(Some(cat)) => CATLayerView::parse(puzzle@, *modules) == Ok::<
                    Option<CATLayerView>,
                    DriverError,
                >(
                    Some(
                        CATLayerView { asset_id: cat.asset_id, inner_puzzle: cat@.p2_puzzle->0 },
                    ),
                ) && cat@.p2_puzzle is Some && cat.coin == coin && cat.p2_puzzle_hash
                    == cat@.p2_puzzle->0.tree_hash(),
                Ok(None) => CATLayerView::parse(puzzle@, *modules) == Ok::<
                    Option<CATLayerView>,
                    DriverError,
                >(None),
                Err(e) => CATLayerView::parse(puzzle@, *modules) == Err::<
                    Option<CATLayerView>,
                    DriverError,
                >(e),
            },
    {
        match CATLayer::<Node>::parse_puzzle(puzzle, modules) {
            Err(e) => Err(e),
            Ok(None) => Ok(None),
            Ok(Some(layer)) => {
                let p2_puzzle_hash = layer.inner_puzzle.tree_hash();
                Ok(
                    Some(
                        CAT {
                            coin,
                            asset_id: layer.asset_id,
                            p2_puzzle_hash,
                            p2_puzzle: Some(layer.inner_puzzle),
                        },
                    ),
                )
            },
        }
    }

    /// The layers of the CAT. The owner's puzzle is the one the CAT holds or,
    /// where it holds none, `p2_puzzle`.
    pub fn get_layered_object(&self, p2_puzzle: Option<Node>) -> (r: CATLayer<TransparentLayer>)
        ensures
            r.asset_id == self.asset_id,
            r.inner_puzzle.puzzle_hash == self.p2_puzzle_hash,
            match self.p2_puzzle {
                Some(own) => r.inner_puzzle.puzzle is Some && r.inner_puzzle.puzzle->0@ == own@,
                None => r.inner_puzzle.puzzle == p2_puzzle,
            },
    {
        CATLayer {
            asset_id: self.asset_id,
            inner_puzzle: TransparentLayer {
                puzzle_hash: self.p2_puzzle_hash,
                puzzle: match &self.p2_puzzle {
                    Some(own) => Some(own.clone()),
                    None => p2_puzzle,
                },
            },
        }
    }

    /// The owner's puzzle that a spend with `inner_puzzle` runs.
    pub open spec fn spend_inner_puzzle(self, inner_puzzle: Tree) -> Tree {
        match self.p2_puzzle {
            Some(own) => own@,
            None => inner_puzzle,
        }
    }

    /// The puzzle that a spend with `inner_puzzle` reveals.
    pub open spec fn spend_puzzle(self, inner_puzzle: Tree, modules: Modules) -> Tree {
        (CATLayerView {
            asset_id: self.asset_id,
            inner_puzzle: self.spend_inner_puzzle(inner_puzzle),
        }).puzzle(modules)
    }

    /// The solution of a spend.
    pub open spec fn spend_solution(self, lineage_proof: Proof, inner_solution: Tree) -> Tree {
        (CatSolution::<Tree> {
            lineage_proof,
            prev_coin_id: coin_id_of(self.coin),
            inner_puzzle_solution: inner_solution,
        }).tree()
    }

    /// Spends the coin with `inner_spend`. Gives the coin spend, the child
    /// that the spend creates and the lineage proof that the child carries.
    ///
    /// The child is read from the coin spend as `from_parent_spend` reads
    /// it; a spend without a child, or one that does not read as a CAT, is
    /// `MissingChild`. Where the VM fails, the result is `Vm`.
    pub fn spend(&self, ctx: &SpendContext, lineage_proof: Proof, inner_spend: Spend) -> (r: Result<
        (CoinSpend, CAT, Proof),
        DriverError,
    >)
        ensures
            match r {
                Ok((cs, child, proof)) => {
                    let puzzle = self.spend_puzzle(inner_spend.puzzle@, ctx.modules);
                    let solution = self.spend_solution(lineage_proof, inner_spend.solution@);
                    &&& cs.coin == self.coin
                    &&& cs.puzzle_reveal@ == serialized(puzzle)
                    &&& deserialized(cs.puzzle_reveal@) == puzzle
                    &&& cs.solution@ == serialized(solution)
                    &&& deserialized(cs.solution@) == solution
                    &&& cat_spent(cs.coin, cs.puzzle_reveal@, cs.solution@, ctx.modules) == Ok::<
                        Option<CATView>,
                        DriverError,
                    >(Some(child@))
                    &&& proof == Proof::Lineage(
                        LineageProof {
                            parent_parent_coin_info: self.coin.parent_coin_info,
                            parent_inner_puzzle_hash: self.p2_puzzle_hash,
                            parent_amount: self.coin.amount,
                        },
                    )
                },
                Err(DriverError::Vm) => true,
                Err(e) => exists|cs: CoinSpend|
                    {
                        let read = #[trigger] cat_spent(
                            cs.coin,
                            cs.puzzle_reveal@,
                            cs.solution@,
                            ctx.modules,
                        );
                        &&& cs.coin == self.coin
                        &&& deserialized(cs.puzzle_reveal@) == self.spend_puzzle(
                            inner_spend.puzzle@,
                            ctx.modules,
                        )
                        &&& deserialized(cs.solution@) == self.spend_solution(
                            lineage_proof,
                            inner_spend.solution@,
                        )
                        &&& read == Err::<Option<CATView>, DriverError>(e) || (e
                            == DriverError::MissingChild && read == Ok::<
                            Option<CATView>,
                            DriverError,
                        >(None))
                    },
            },
    {
        let modules = &ctx.modules;
        let Spend { puzzle: spend_puzzle, solution: spend_solution } = inner_spend;
        let thing = self.get_layered_object(Some(spend_puzzle));
        // the layers hold the owner's puzzle: the CAT's own or the one of the spend
        let puzzle_node = match thing.construct_puzzle(modules) {
            Some(p) => p,
            None => unreached(),
        };
        let puzzle = match ctx.serialize(&puzzle_node) {
            Err(e) => {
                return Err(e);
            },
            Ok(b) => b,
        };
        let solution_node = CATLayer::<Node>::construct_solution(
            &CatSolution {
                lineage_proof,
                inner_puzzle_solution: spend_solution,
                prev_coin_id: self.coin.coin_id(),
            },
        );
        let solution = match ctx.serialize(&solution_node) {
            Err(e) => {
                return Err(e);
            },
            Ok(b) => b,
        };
        let cs = CoinSpend::new(self.coin, puzzle, solution);
        let lineage_proof = thing.lineage_proof_for_child(
            self.coin.parent_coin_info,
            self.coin.amount,
        );
        match CAT::from_parent_spend(&cs, modules) {
            Err(e) => Err(e),
            Ok(None) => Err(DriverError::MissingChild),
            Ok(Some(child)) => Ok((cs, child, Proof::Lineage(lineage_proof))),
        }
    }
}

} // verus!
