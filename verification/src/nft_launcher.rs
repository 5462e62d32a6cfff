//! Minting NFTs from a launcher.
use vstd::prelude::*;
use crate::bytes::{append_bytes, Bytes32};
use crate::codec::ToClvm;
use crate::coin::{coin_id_of, Coin, EveProof, Proof};
use crate::condition::{Condition, ConditionView};
use crate::conditions::{
    byte_node, byte_tree, opt_hash_tree, prices_tree, CreateCoinView, NewNftOwner,
    NewNftOwnerView,
};
use crate::datastore_launch::eve_proof;
use crate::error::DriverError;
use crate::launcher::{
    condition_trees, eve_coin, launch_assertion, launch_solution, unary_condition, Conditions,
    Launcher, ASSERT_PUZZLE_ANNOUNCEMENT, CREATE_PUZZLE_ANNOUNCEMENT,
};
use crate::modules::Modules;
use crate::nft::{Nft, NftInfo, NftInfoView, NftView};
use crate::node::{byte_views, lemma_view, Node, Tree};
use crate::sha::{sha256, sha256_digest};
use crate::spend_context::{Spend, SpendContext};
use crate::vm::deserialized;

verus! {

/// The condition that hands an NFT to a new owner.
pub type TransferNft = NewNftOwner;

/// What is needed to mint an NFT.
#[derive(Debug, Clone, PartialEq, Eq)]
pub struct NftMint<M> {
    pub metadata: M,
    pub metadata_updater_puzzle_hash: Bytes32,
    pub royalty_puzzle_hash: Bytes32,
    pub royalty_ten_thousandths: u16,
    pub p2_puzzle_hash: Bytes32,
    pub owner: TransferNft,
}

/// The transfer that names no owner.
pub open spec fn no_owner() -> NewNftOwnerView {
    NewNftOwnerView { did_id: None, trade_prices: Seq::empty(), did_inner_puzzle_hash: None }
}

/// The id of the announcement with which an NFT of the given puzzle hash
/// tells of its new owner: the hash of the puzzle hash, the bytes `ad 4c`
/// and the hash of the list of the owner's three fields.
pub open spec fn did_puzzle_assertion_id(
    nft_full_puzzle_hash: Bytes32,
    owner: NewNftOwnerView,
) -> Bytes32 {
    sha256(
        nft_full_puzzle_hash@ + seq![0xadu8, 0x4cu8] + Tree::list(
            seq![
                opt_hash_tree(owner.did_id),
                prices_tree(owner.trade_prices),
                opt_hash_tree(owner.did_inner_puzzle_hash),
            ],
        ).tree_hash()@,
    )
}

/// The NFT that a launcher creates first, owned by nobody.
pub open spec fn eve_nft(
    modules: Modules,
    launcher: Coin,
    p2_puzzle_hash: Bytes32,
    metadata: Tree,
    metadata_updater_puzzle_hash: Bytes32,
    royalty_puzzle_hash: Bytes32,
    royalty_ten_thousandths: u16,
) -> NftView {
    let info = NftInfoView {
        launcher_id: coin_id_of(launcher),
        metadata,
        metadata_updater_puzzle_hash,
        current_owner: None,
        royalty_puzzle_hash,
        royalty_ten_thousandths,
        p2_puzzle_hash,
    };
    NftView {
        coin: eve_coin(modules, launcher, info.inner_puzzle_hash(modules)),
        proof: eve_proof(launcher),
        info,
    }
}

/// The conditions that the puzzle of the first NFT emits: a coin of amount 1
/// for the receiver, hinted to the receiver, and the transfer where it names
/// an owner.
pub open spec fn eve_conditions(p2_puzzle_hash: Bytes32, owner: NewNftOwnerView) -> Seq<
    ConditionView,
> {
    let create = seq![
        ConditionView::CreateCoin(
            CreateCoinView { puzzle_hash: p2_puzzle_hash, amount: 1, memos: seq![p2_puzzle_hash@] },
        ),
    ];
    if owner == no_owner() {
        create
    } else {
        create.push(ConditionView::Other(owner.tree()))
    }
}

/// The puzzle of the first NFT: the program that emits `eve_conditions`
/// whatever its solution.
pub open spec fn eve_puzzle(p2_puzzle_hash: Bytes32, owner: NewNftOwnerView) -> Tree {
    Tree::cons(byte_tree(1), Tree::list(condition_trees(eve_conditions(p2_puzzle_hash, owner))))
}

/// Computes the id of the announcement with which an NFT tells of its new
/// owner.
pub fn did_puzzle_assertion(nft_full_puzzle_hash: Bytes32, new_nft_owner: &TransferNft) -> (r:
    Bytes32)
    ensures
        r == did_puzzle_assertion_id(nft_full_puzzle_hash, new_nft_owner@),
{
    let full = new_nft_owner.to_clvm();
    // the owner's three fields are the condition without its opcode
    let args = match &full {
        Node::Pair(_, rest) => (**rest).clone(),
        Node::Atom(_) => Node::nil(),
    };
    proof {
        let fields = seq![
            byte_tree(0xf6),
            opt_hash_tree(new_nft_owner@.did_id),
            prices_tree(new_nft_owner@.trade_prices),
            opt_hash_tree(new_nft_owner@.did_inner_puzzle_hash),
        ];
        lemma_view(&full);
        assert(fields.drop_first() =~= seq![fields[1], fields[2], fields[3]]);
    }
    let mut data = nft_full_puzzle_hash.to_vec();
    data.push(0xad);
    data.push(0x4c);
    let hash = args.tree_hash();
    append_bytes(&mut data, hash.bytes.as_slice());
    assert(data@ =~= nft_full_puzzle_hash@ + seq![0xadu8, 0x4cu8] + hash@);
    sha256_digest(&data)
}

impl NewNftOwner {
    /// Whether the transfer names no owner.
    pub fn is_default(&self) -> (r: bool)
        ensures
            r == (self@ == no_owner()),
    {
        let r = self.did_id.is_none() && self.trade_prices.len() == 0
            && self.did_inner_puzzle_hash.is_none();
        proof {
            if r {
                assert(self@.trade_prices =~= Seq::empty());
            }
        }
        r
    }
}

impl Launcher {
    /// Mints the first NFT of a launcher, owned by nobody: spends the
    /// launcher and gives the conditions for the launcher's parent and the
    /// NFT. The launcher's parent announces the launcher id.
    pub fn mint_eve_nft<M: ToClvm>(
        self,
        ctx: &mut SpendContext,
        p2_puzzle_hash: Bytes32,
        metadata: M,
        metadata_updater_puzzle_hash: Bytes32,
        royalty_puzzle_hash: Bytes32,
        royalty_ten_thousandths: u16,
    ) -> (r: Result<(Conditions, Nft<M>), DriverError>)
        ensures
            final(ctx).modules == old(ctx).modules,
            match r {
                Ok((conditions, nft)) => {
                    let modules = old(ctx).modules;
                    let eve = eve_nft(
                        modules,
                        self.coin,
                        p2_puzzle_hash,
                        metadata.tree(),
                        metadata_updater_puzzle_hash,
                        royalty_puzzle_hash,
                        royalty_ten_thousandths,
                    );
                    let solution = launch_solution(
                        modules,
                        self.coin,
                        eve.info.inner_puzzle_hash(modules),
                        Tree::nil(),
                    );
                    &&& nft@ == eve
                    &&& nft.info.metadata == metadata
                    &&& conditions@ == self.conditions@.push(
                        launch_assertion(self.coin, solution),
                    ).push(unary_condition(CREATE_PUZZLE_ANNOUNCEMENT, coin_id_of(self.coin)@))
                    &&& final(ctx).coin_spends@.len() == old(ctx).coin_spends@.len() + 1
                    &&& final(ctx).coin_spends@.drop_last() == old(ctx).coin_spends@
                    &&& final(ctx).coin_spends@.last().coin == self.coin
                    &&& deserialized(final(ctx).coin_spends@.last().puzzle_reveal@)
                        == modules.singleton_launcher.program@
                    &&& deserialized(final(ctx).coin_spends@.last().solution@) == solution
                },
                Err(e) => e == DriverError::Vm && final(ctx).coin_spends@ == old(ctx).coin_spends@,
            },
    {
        let launcher_coin = self.coin();
        let launcher_id = launcher_coin.coin_id();
        let nft_info = NftInfo::new(
            launcher_id,
            metadata,
            metadata_updater_puzzle_hash,
            None,
            royalty_puzzle_hash,
            royalty_ten_thousandths,
            p2_puzzle_hash,
        );
        let inner_puzzle_hash = nft_info.inner_puzzle_hash(&ctx.modules);
        let (launch_singleton, eve_coin) = match self.spend(ctx, inner_puzzle_hash, Node::nil()) {
            Err(e) => {
                return Err(e);
            },
            Ok(x) => x,
        };
        let proof = Proof::Eve(
            EveProof {
                parent_parent_coin_info: launcher_coin.parent_coin_info,
                parent_amount: launcher_coin.amount,
            },
        );
        Ok(
            (
                launch_singleton.create_puzzle_announcement(launcher_id.to_vec()),
                Nft::new(eve_coin, proof, nft_info),
            ),
        )
    }

    /// Mints an NFT: spends the launcher, spends the first NFT with a puzzle
    /// that hands it to the receiver and, where `mint` names an owner, to that
    /// owner, and gives the conditions for the launcher's parent and the NFT
    /// that the receiver holds. Both spends are added to `ctx`.
    pub fn mint_nft<M: ToClvm>(self, ctx: &mut SpendContext, mint: NftMint<M>) -> (r: Result<
        (Conditions, Nft<M>),
        DriverError,
    >)
        ensures
            final(ctx).modules == old(ctx).modules,
            match r {
                Ok((conditions, nft)) => {
                    let modules = old(ctx).modules;
                    let puzzle = eve_puzzle(mint.p2_puzzle_hash, mint.owner@);
                    let eve = eve_nft(
                        modules,
                        self.coin,
                        puzzle.tree_hash(),
                        mint.metadata.tree(),
                        mint.metadata_updater_puzzle_hash,
                        mint.royalty_puzzle_hash,
                        mint.royalty_ten_thousandths,
                    );
                    let solution = launch_solution(
                        modules,
                        self.coin,
                        eve.info.inner_puzzle_hash(modules),
                        Tree::nil(),
                    );
                    let minted = self.conditions@.push(
                        launch_assertion(self.coin, solution),
                    ).push(unary_condition(CREATE_PUZZLE_ANNOUNCEMENT, coin_id_of(self.coin)@));
                    &&& nft@ == eve.child(mint.p2_puzzle_hash, Some(mint.owner@.did_id), modules)
                    &&& nft.info.metadata == mint.metadata
                    &&& conditions@ == (if mint.owner@ == no_owner() {
                        minted
                    } else {
                        minted.push(
                            unary_condition(
                                ASSERT_PUZZLE_ANNOUNCEMENT,
                                did_puzzle_assertion_id(eve.coin.puzzle_hash, mint.owner@)@,
                            ),
                        )
                    })
                    &&& final(ctx).coin_spends@.len() == old(ctx).coin_spends@.len() + 2
                    &&& final(ctx).coin_spends@.subrange(0, old(ctx).coin_spends@.len() as int)
                        == old(ctx).coin_spends@
                    &&& {
                        let launch = final(ctx).coin_spends@[old(ctx).coin_spends@.len() as int];
                        &&& launch.coin == self.coin
                        &&& deserialized(launch.puzzle_reveal@)
                            == modules.singleton_launcher.program@
                        &&& deserialized(launch.solution@) == solution
                    }
                    &&& {
                        let spend = final(ctx).coin_spends@.last();
                        &&& spend.coin == eve.coin
                        &&& deserialized(spend.puzzle_reveal@) == eve.info.puzzle(puzzle, modules)
                        &&& deserialized(spend.solution@) == eve.solution(Tree::nil())
                    }
                },
                // the launcher may have been spent before the VM failed
                Err(e) => e == DriverError::Vm && (final(ctx).coin_spends@ == old(ctx).coin_spends@
                    || final(ctx).coin_spends@.drop_last() == old(ctx).coin_spends@),
            },
    {
        let memos = {
            let mut memos: Vec<Vec<u8>> = Vec::new();
            memos.push(mint.p2_puzzle_hash.to_vec());
            assert(byte_views(memos@) =~= seq![mint.p2_puzzle_hash@]);
            memos
        };
        let mut conditions = Conditions::new().create_coin(mint.p2_puzzle_hash, 1, memos);
        let has_owner = !mint.owner.is_default();
        if has_owner {
            conditions = conditions.with(Condition::Other(mint.owner.to_clvm()));
        }
        assert(conditions@ =~= eve_conditions(mint.p2_puzzle_hash, mint.owner@));
        let inner_puzzle = Node::pair(byte_node(1), conditions.to_clvm());
        let p2_puzzle_hash = inner_puzzle.tree_hash();
        let inner_spend = Spend::new(inner_puzzle, Node::nil());
        let ghost before = ctx.coin_spends@;
        let NftMint {
            metadata,
            metadata_updater_puzzle_hash,
            royalty_puzzle_hash,
            royalty_ten_thousandths,
            p2_puzzle_hash: receiver,
            owner,
        } = mint;
        let (mint_eve_nft, eve_nft) = match self.mint_eve_nft(
            ctx,
            p2_puzzle_hash,
            metadata,
            metadata_updater_puzzle_hash,
            royalty_puzzle_hash,
            royalty_ten_thousandths,
        ) {
            Err(e) => {
                return Err(e);
            },
            Ok(x) => x,
        };
        let eve_spend = match eve_nft.spend(ctx, inner_spend) {
            Err(e) => {
                return Err(e);
            },
            Ok(cs) => cs,
        };
        let ghost launched = ctx.coin_spends@;
        ctx.insert(eve_spend);
        proof {
            assert(launched.drop_last() == before);
            assert(ctx.coin_spends@.subrange(0, before.len() as int) =~= before);
            assert(ctx.coin_spends@[before.len() as int] == launched.last());
        }
        let mut did_conditions = Conditions::new();
        if has_owner {
            did_conditions = did_conditions.assert_puzzle_announcement(
                did_puzzle_assertion(eve_nft.coin.puzzle_hash, &owner),
            );
        }
        let all = mint_eve_nft.extend(did_conditions);
        proof {
            if has_owner {
                assert(all@ =~= mint_eve_nft@.push(
                    unary_condition(
                        ASSERT_PUZZLE_ANNOUNCEMENT,
                        did_puzzle_assertion_id(eve_nft.coin.puzzle_hash, owner@)@,
                    ),
                ));
            } else {
                assert(all@ =~= mint_eve_nft@);
            }
        }
        let child = eve_nft.create_child(&ctx.modules, receiver, Some(owner.did_id));
        Ok((all, child))
    }
}

} // verus!
