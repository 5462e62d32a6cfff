//! Coins, coin spends and lineage proofs.
use vstd::prelude::*;
use crate::bytes::Bytes32;
use crate::number::uint_atom;
use crate::sha::sha256;

verus! {

/// An output of the ledger: who created it, what script locks it, how much it holds.
#[derive(Clone, Copy, Debug, PartialEq, Eq)]
pub struct Coin {
    pub parent_coin_info: Bytes32,
    pub puzzle_hash: Bytes32,
    pub amount: u64,
}

/// The identity of a coin: the hash of its parent, its puzzle hash and its
/// amount written as a VM number.
pub open spec fn coin_id_of(coin: Coin) -> Bytes32 {
    sha256(coin.parent_coin_info@ + coin.puzzle_hash@ + uint_atom(coin.amount as nat))
}

/// `chia_protocol::Coin::coin_id`: SHA-256 over the parent id, the puzzle hash
/// and the amount in as few big-endian bytes as keep it non-negative.
#[verifier::external_body]
fn protocol_coin_id(coin: &Coin) -> (r: Bytes32)
    ensures
        r == coin_id_of(*coin),
{
    let c = chia_protocol::Coin::new(
        chia_protocol::Bytes32::new(coin.parent_coin_info.bytes),
        chia_protocol::Bytes32::new(coin.puzzle_hash.bytes),
        coin.amount,
    );
    Bytes32 { bytes: c.coin_id().to_bytes() }
}

impl Coin {
    /// A coin with the given parent, puzzle hash and amount.
    pub fn new(parent_coin_info: Bytes32, puzzle_hash: Bytes32, amount: u64) -> (r: Coin)
        ensures
            r == (Coin { parent_coin_info, puzzle_hash, amount }),
    {
        Coin { parent_coin_info, puzzle_hash, amount }
    }

    /// The identity of the coin.
    pub fn coin_id(&self) -> (r: Bytes32)
        ensures
            r == coin_id_of(*self),
    {
        protocol_coin_id(self)
    }
}

/// A coin together with the puzzle and the solution that spend it, both in
/// serialized form.
#[derive(Clone, Debug, PartialEq, Eq)]
pub struct CoinSpend {
    pub coin: Coin,
    pub puzzle_reveal: Vec<u8>,
    pub solution: Vec<u8>,
}

impl CoinSpend {
    /// A spend of `coin` with the given serialized puzzle and solution.
    pub fn new(coin: Coin, puzzle_reveal: Vec<u8>, solution: Vec<u8>) -> (r: CoinSpend)
        ensures
            r.coin == coin,
            r.puzzle_reveal == puzzle_reveal,
            r.solution == solution,
    {
        CoinSpend { coin, puzzle_reveal, solution }
    }
}

/// The proof of a singleton whose parent was a singleton too.
#[derive(Clone, Copy, Debug, PartialEq, Eq)]
pub struct LineageProof {
    pub parent_parent_coin_info: Bytes32,
    pub parent_inner_puzzle_hash: Bytes32,
    pub parent_amount: u64,
}

/// The proof of a singleton whose parent was the launcher.
#[derive(Clone, Copy, Debug, PartialEq, Eq)]
pub struct EveProof {
    pub parent_parent_coin_info: Bytes32,
    pub parent_amount: u64,
}

/// The witness that a coin descends from a valid singleton lineage.
#[derive(Clone, Copy, Debug, PartialEq, Eq)]
pub enum Proof {
    Lineage(LineageProof),
    Eve(EveProof),
}

} // verus!
