//! The context of a transaction under construction: the modules in use and
//! the coin spends collected so far.
use vstd::prelude::*;
use crate::bytes::Bytes32;
use crate::codec::ToClvm;
use crate::coin::CoinSpend;
use crate::error::DriverError;
use crate::modules::Modules;
use crate::node::Node;
use crate::vm::{node_to_bytes, serialized, deserialized};

verus! {

/// A puzzle with the solution to run it on.
#[derive(Debug, Clone, PartialEq, Eq)]
pub struct Spend {
    pub puzzle: Node,
    pub solution: Node,
}

impl Spend {
    /// A spend of `puzzle` with `solution`.
    pub fn new(puzzle: Node, solution: Node) -> (r: Spend)
        ensures
            r.puzzle == puzzle,
            r.solution == solution,
    {
        Spend { puzzle, solution }
    }
}

/// The modules in use and the coin spends collected so far, oldest first.
pub struct SpendContext {
    pub modules: Modules,
    pub coin_spends: Vec<CoinSpend>,
}

impl SpendContext {
    /// A context with the given modules and no coin spends.
    pub fn new(modules: Modules) -> (r: SpendContext)
        ensures
            r.modules == modules,
            r.coin_spends@.len() == 0,
    {
        SpendContext { modules, coin_spends: Vec::new() }
    }

    /// Adds a coin spend after those collected so far.
    pub fn insert(&mut self, coin_spend: CoinSpend)
        ensures
            final(self).modules == old(self).modules,
            final(self).coin_spends@ == old(self).coin_spends@.push(coin_spend),
    {
        self.coin_spends.push(coin_spend);
    }

    /// Hands out the coin spends collected so far, in the order in which they
    /// were inserted, and leaves none behind.
    pub fn take(&mut self) -> (r: Vec<CoinSpend>)
        ensures
            r@ == old(self).coin_spends@,
            final(self).coin_spends@.len() == 0,
            final(self).modules == old(self).modules,
    {
        let mut out: Vec<CoinSpend> = Vec::new();
        std::mem::swap(&mut out, &mut self.coin_spends);
        out
    }

    /// Writes a typed value as a VM node.
    pub fn encode<T: ToClvm>(&self, value: &T) -> (r: Node)
        ensures
            r@ == value.tree(),
    {
        value.to_clvm()
    }

    /// The standard puzzle.
    pub fn standard_puzzle(&self) -> (r: &Node)
        ensures
            *r == self.modules.standard_p2.program,
    {
        &self.modules.standard_p2.program
    }

    /// The canonical hash of a value.
    pub fn tree_hash(&self, node: &Node) -> (r: Bytes32)
        ensures
            r == node@.tree_hash(),
    {
        node.tree_hash()
    }

    /// Writes a value in serialized form.
    pub fn serialize(&self, node: &Node) -> (r: Result<Vec<u8>, DriverError>)
        ensures
            match r {
                Ok(bytes) => bytes@ == serialized(node@) && deserialized(bytes@) == node@,
                Err(e) => e == DriverError::Vm,
            },
    {
        node_to_bytes(node)
    }
}

} // verus!
