use vstd::prelude::*;

use crate::accept::{creator_fee, paid_creator_count, Accept};
use crate::instructions::{
    cancel_outcome, listing_actions, make_outcome, new_outcome, release_escrow, update_offer_outcome,
};
use crate::instructions::{Cancel, Initialize, Make, Update};
use crate::address::{at_address, canonical_bump, escrow_seeds};
use crate::associated::associated_address;
use crate::metadata::{metadata_outcome, Creator, MetadataView};
use crate::state::{Action, Offer, ProgramError, ALREADY_EXPIRED, OFFER_EXPIRED};

verus! {

/// The lamports that one action moves between system accounts.
pub open spec fn lamports_of(a: Action) -> int {
    match a {
        Action::SystemTransfer { lamports, .. } => lamports as int,
        _ => 0,
    }
}

/// The lamports that a list of actions moves between system accounts.
pub open spec fn lamports_paid(actions: Seq<Action>) -> int
    decreases actions.len(),
{
    if actions.len() == 0 {
        0
    } else {
        lamports_paid(actions.drop_last()) + lamports_of(actions.last())
    }
}

/// The sum of the shares of the first `n` creators.
pub open spec fn share_sum(creators: Seq<Creator>, n: int) -> int
    decreases n,
{
    if n <= 0 {
        0
    } else {
        share_sum(creators, n - 1) + creators[n - 1].share
    }
}

/// Whether the creators that a sale pays hold at most the whole royalty.
pub open spec fn shares_within_whole(creators: Option<Seq<Creator>>) -> bool {
    match creators {
        Some(cs) => share_sum(cs, paid_creator_count(cs)) <= 100,
        None => true,
    }
}

proof fn lemma_lamports_paid_append(a: Seq<Action>, b: Seq<Action>)
    ensures
        lamports_paid(a + b) == lamports_paid(a) + lamports_paid(b),
    decreases b.len(),
{
    if b.len() == 0 {
        assert(a + b =~= a);
    } else {
        lemma_lamports_paid_append(a, b.drop_last());
        assert((a + b).drop_last() =~= a + b.drop_last());
    }
}

proof fn lemma_creator_fee_bound(royalty: int, share: u8)
    requires
        royalty >= 0,
    ensures
        0 <= 100 * creator_fee(royalty, share) <= royalty * share,
{
    assert(0 <= 100 * ((royalty * share) / 100) <= royalty * share) by (nonlinear_arith)
        requires
            royalty >= 0,
            share >= 0,
    ;
}

proof fn lemma_royalty_prefix_bound(ctx: Accept, creators: Seq<Creator>, royalty: int, k: int)
    requires
        0 <= royalty <= u64::MAX / 10000,
        0 <= k <= paid_creator_count(creators),
    ensures
        0 <= 100 * lamports_paid(ctx.royalty_transfers(creators, royalty).take(k)) <= royalty
            * share_sum(creators, k),
    decreases k,
{
    let t = ctx.royalty_transfers(creators, royalty);
    if k > 0 {
        lemma_royalty_prefix_bound(ctx, creators, royalty, k - 1);
        assert(t.take(k).drop_last() =~= t.take(k - 1));
        let s = creators[k - 1].share;
        lemma_creator_fee_bound(royalty, s);
        assert(royalty * s <= u64::MAX) by (nonlinear_arith)
            requires
                0 <= royalty <= u64::MAX / 10000,
                s <= 255,
        ;
        assert(lamports_of(t.take(k).last()) == creator_fee(royalty, s));
        let before = share_sum(creators, k - 1);
        let now = share_sum(creators, k);
        assert(now == before + s);
        assert(royalty * now == royalty * before + royalty * s) by (nonlinear_arith)
            requires
                now == before + s,
        ;
    } else {
        assert(t.take(k) =~= Seq::<Action>::empty());
    }
}

/// A sale pays the seller the price less the marketplace's cut and the
/// royalty, then the marketplace its cut, and ends by delivering the NFT from
/// escrow to the buyer and closing the escrow and the offer, their rent going
/// to the seller; the three parts of the price add up to it,
/// and every lamport transfer is paid by the buyer.
pub proof fn sale_split(ctx: Accept, m: Option<MetadataView>, actions: Seq<Action>)
    requires
        ctx.settlement_fits(m),
        ctx.settlement(m) == Ok::<Seq<Action>, ProgramError>(actions),
    ensures
        ctx.seller_proceeds(m) + ctx.market_cut() + ctx.royalty_cut(m) == ctx.offer.taker_amount,
        ctx.seller_proceeds(m) >= 0,
        actions.len() >= 5,
        actions[0] == (Action::SystemTransfer {
            from: ctx.offer_taker,
            to: ctx.offer_maker,
            lamports: ctx.seller_proceeds(m) as u64,
        }),
        actions[1] == (Action::SystemTransfer {
            from: ctx.offer_taker,
            to: ctx.market_maker,
            lamports: ctx.market_cut() as u64,
        }),
        actions.subrange(actions.len() - 3, actions.len() as int) == ctx.delivery(),
        forall|i: int|
            0 <= i < actions.len() ==> (#[trigger] actions[i] matches Action::SystemTransfer {
                from,
                ..
            } ==> from == ctx.offer_taker),
{
    assert(actions.subrange(actions.len() - 3, actions.len() as int) =~= ctx.delivery());
}

/// Where the creators that a sale pays hold at most the whole royalty
/// between them, the buyer pays no more than the price in all.
pub proof fn buyer_pays_at_most_the_price(ctx: Accept, m: Option<MetadataView>, actions: Seq<Action>)
    requires
        ctx.settlement_fits(m),
        ctx.settlement(m) == Ok::<Seq<Action>, ProgramError>(actions),
        shares_within_whole(ctx.royalty_creators(m)),
    ensures
        lamports_paid(actions) <= ctx.offer.taker_amount,
{
    let sale = ctx.sale_transfers(m);
    let delivery = ctx.delivery();
    assert(lamports_paid(sale) == ctx.seller_proceeds(m) + ctx.market_cut()) by {
        let first = sale.drop_last();
        assert(first.drop_last() =~= Seq::<Action>::empty());
        assert(lamports_paid(first.drop_last()) == 0);
        assert(first.last() == sale[0]);
        assert(lamports_paid(first) == lamports_of(sale[0]));
        assert(lamports_paid(sale) == lamports_paid(first) + lamports_of(sale[1]));
    }
    assert(lamports_paid(delivery) == 0) by {
        let first = delivery.drop_last();
        let second = first.drop_last();
        assert(second.drop_last() =~= Seq::<Action>::empty());
        assert(lamports_paid(second.drop_last()) == 0);
        assert(second.last() == delivery[0]);
        assert(first.last() == delivery[1]);
        assert(lamports_paid(second) == 0);
        assert(lamports_paid(first) == 0);
        assert(lamports_paid(delivery) == lamports_paid(first) + lamports_of(delivery[2]));
    }
    let royalty = ctx.royalty_cut(m);
    assert(0 <= royalty);
    match ctx.royalty_creators(m) {
        Some(cs) => {
            let t = ctx.royalty_transfers(cs, royalty);
            assert(royalty <= u64::MAX / 10000) by (nonlinear_arith)
                requires
                    royalty == (crate::accept::fee_basis_points(m) * ctx.offer.taker_amount) / 10000,
                    crate::accept::fee_basis_points(m) * ctx.offer.taker_amount <= u64::MAX,
            ;
            lemma_royalty_prefix_bound(ctx, cs, royalty, paid_creator_count(cs));
            assert(t.take(paid_creator_count(cs)) =~= t);
            assert(royalty * share_sum(cs, paid_creator_count(cs)) <= royalty * 100) by (nonlinear_arith)
                requires
                    royalty >= 0,
                    share_sum(cs, paid_creator_count(cs)) <= 100,
            ;
            assert(actions == sale + t + delivery);
            lemma_lamports_paid_append(sale, t);
            lemma_lamports_paid_append(sale + t, delivery);
        },
        None => {
            assert(actions == sale + delivery);
            lemma_lamports_paid_append(sale, delivery);
        },
    }
}

/// A successful `accept` delivers the NFT to the buyer's associated token
/// account for the mint, which it creates first where it did not exist, and
/// settles the sale on the metadata it reads: the seller, the marketplace and
/// the creators are paid as `sale_split` says, and where the paid creators
/// hold at most the whole royalty, the buyer pays no more than the price.
pub proof fn accepted_sale_is_settled(ctx: Accept, offer_bump: u8, offer_made_on: i64, actions: Seq<Action>)
    requires
        ctx.accept_outcome(offer_bump, offer_made_on) == Ok::<Seq<Action>, ProgramError>(actions),
    ensures
        ctx.validation(offer_bump, offer_made_on) is Ok,
        associated_address(ctx.offer_takers_maker_tokens, ctx.offer_taker, ctx.maker_mint),
        ctx.offer_takers_maker_tokens_state is Uncreated ==> ctx.buyer_account_actions() == seq![
            Action::CreateAssociatedTokenAccount {
                account: ctx.offer_takers_maker_tokens,
                wallet: ctx.offer_taker,
                mint: ctx.maker_mint,
                payer: ctx.offer_taker,
            },
        ],
        !(ctx.offer_takers_maker_tokens_state is Uncreated) ==> ctx.buyer_account_actions().len() == 0,
        metadata_outcome(ctx.token_metadata_account, ctx.system_program) is Ok,
        ({
            let m = metadata_outcome(ctx.token_metadata_account, ctx.system_program).unwrap();
            let prefix = ctx.buyer_account_actions();
            let rest = actions.skip(prefix.len() as int);
            &&& actions == prefix + rest
            &&& ctx.settlement_fits(m)
            &&& ctx.settlement(m) == Ok::<Seq<Action>, ProgramError>(rest)
            &&& ctx.seller_proceeds(m) + ctx.market_cut() + ctx.royalty_cut(m) == ctx.offer.taker_amount
            &&& shares_within_whole(ctx.royalty_creators(m)) ==> lamports_paid(actions)
                <= ctx.offer.taker_amount
        }),
{
    let m = metadata_outcome(ctx.token_metadata_account, ctx.system_program).unwrap();
    let prefix = ctx.buyer_account_actions();
    let rest = ctx.settlement(m).unwrap();
    assert(actions == prefix + rest);
    assert(actions.skip(prefix.len() as int) =~= rest);
    assert(lamports_paid(prefix) == 0) by {
        if prefix.len() == 1 {
            assert(prefix.drop_last() =~= Seq::<Action>::empty());
            assert(lamports_paid(prefix.drop_last()) == 0);
            assert(lamports_of(prefix.last()) == 0);
        } else {
            assert(prefix =~= Seq::<Action>::empty());
        }
    }
    lemma_lamports_paid_append(prefix, rest);
    if shares_within_whole(ctx.royalty_creators(m)) {
        buyer_pays_at_most_the_price(ctx, m, rest);
    }
}

/// The accounts of `cancel` that belong to a listing made by `make`.
pub open spec fn cancel_of_listing(listing: Make, offer: Offer) -> Cancel {
    Cancel {
        offer,
        offer_key: listing.offer_key,
        offer_maker: listing.offer_maker,
        offer_maker_signed: true,
        offer_makers_maker_tokens: listing.offer_makers_maker_tokens,
        maker_mint: listing.maker_mint,
        escrowed_maker_tokens: listing.escrowed_maker_tokens,
    }
}

/// The accounts of `update_offer` that belong to a listing made by `make`.
pub open spec fn update_of_listing(listing: Make, offer: Offer) -> Update {
    Update {
        offer,
        offer_key: listing.offer_key,
        offer_maker: listing.offer_maker,
        offer_maker_signed: true,
        maker_mint: listing.maker_mint,
    }
}

/// Its seller can always cancel a listing: the offer expires, the NFT goes
/// back from escrow to the token account it came from, and the escrow and the
/// offer are closed, their rent going to the seller.
pub proof fn listing_can_be_cancelled(
    listing: Make,
    escrowed_maker_tokens_bump: u8,
    offer_bump: u8,
    offer_made_on: i64,
    offer_taker_amount: u64,
)
    requires
        make_outcome(listing, escrowed_maker_tokens_bump, offer_bump, offer_made_on, offer_taker_amount) is Ok,
    ensures
        ({
            let listed = make_outcome(
                listing,
                escrowed_maker_tokens_bump,
                offer_bump,
                offer_made_on,
                offer_taker_amount,
            ).unwrap().0.offer;
            let ctx = cancel_of_listing(listing, listed);
            cancel_outcome(ctx, offer_bump, offer_made_on) == Ok::<(Cancel, Seq<Action>), ProgramError>(
                (
                    Cancel { offer: Offer { expired: true, ..listed }, ..ctx },
                    release_escrow(
                        listing.escrowed_maker_tokens,
                        listing.offer_makers_maker_tokens,
                        listing.offer_key,
                        escrowed_maker_tokens_bump,
                        listing.offer_maker,
                    ),
                ),
            )
        }),
{
}

/// Its seller can always reprice a listing to any non-zero price, which
/// changes nothing else.
pub proof fn listing_can_be_repriced(
    listing: Make,
    escrowed_maker_tokens_bump: u8,
    offer_bump: u8,
    offer_made_on: i64,
    offer_taker_amount: u64,
    updated_offer_amount: u64,
)
    requires
        make_outcome(listing, escrowed_maker_tokens_bump, offer_bump, offer_made_on, offer_taker_amount) is Ok,
        updated_offer_amount != 0,
    ensures
        ({
            let listed = make_outcome(
                listing,
                escrowed_maker_tokens_bump,
                offer_bump,
                offer_made_on,
                offer_taker_amount,
            ).unwrap().0.offer;
            let ctx = update_of_listing(listing, listed);
            update_offer_outcome(ctx, offer_bump, offer_made_on, updated_offer_amount) == Ok::<
                Update,
                ProgramError,
            >(Update { offer: Offer { taker_amount: updated_offer_amount, ..listed }, ..ctx })
        }),
{
}

/// A listing's accounts pass the checks of `accept` when they are those of
/// the listing.
pub proof fn listing_can_be_bought(
    listing: Make,
    escrowed_maker_tokens_bump: u8,
    offer_bump: u8,
    offer_made_on: i64,
    offer_taker_amount: u64,
    ctx: Accept,
)
    requires
        make_outcome(listing, escrowed_maker_tokens_bump, offer_bump, offer_made_on, offer_taker_amount) is Ok,
        ctx.offer == make_outcome(
            listing,
            escrowed_maker_tokens_bump,
            offer_bump,
            offer_made_on,
            offer_taker_amount,
        ).unwrap().0.offer,
        ctx.offer_key == listing.offer_key,
        ctx.offer_maker == listing.offer_maker,
        ctx.maker_mint == listing.maker_mint,
        ctx.escrowed_maker_tokens == listing.escrowed_maker_tokens,
        ctx.offer_taker_signed,
        ctx.buyer_account_outcome() is Ok,
    ensures
        ctx.validation(offer_bump, offer_made_on) is Ok,
{
}

/// A cancelled offer can be neither cancelled again nor repriced.
pub proof fn cancel_is_final(
    ctx: Cancel,
    offer_bump: u8,
    offer_made_on: i64,
    updated_offer_amount: u64,
)
    requires
        cancel_outcome(ctx, offer_bump, offer_made_on) is Ok,
        updated_offer_amount != 0,
    ensures
        ({
            let after = cancel_outcome(ctx, offer_bump, offer_made_on).unwrap().0;
            let update = Update {
                offer: after.offer,
                offer_key: ctx.offer_key,
                offer_maker: ctx.offer_maker,
                offer_maker_signed: true,
                maker_mint: ctx.maker_mint,
            };
            &&& cancel_outcome(after, offer_bump, offer_made_on) == Err::<
                (Cancel, Seq<Action>),
                ProgramError,
            >(ProgramError::Custom(ALREADY_EXPIRED))
            &&& update_offer_outcome(update, offer_bump, offer_made_on, updated_offer_amount) == Err::<
                Update,
                ProgramError,
            >(ProgramError::Custom(OFFER_EXPIRED))
        }),
{
}

/// A sold offer can be neither cancelled nor repriced.
pub proof fn sale_is_final(
    ctx: Accept,
    offer_bump: u8,
    offer_made_on: i64,
    actions: Seq<Action>,
    offer_makers_maker_tokens: crate::pubkey::Pubkey,
    updated_offer_amount: u64,
)
    requires
        ctx.accept_outcome(offer_bump, offer_made_on) == Ok::<Seq<Action>, ProgramError>(actions),
        updated_offer_amount != 0,
    ensures
        ({
            let sold = Offer { expired: true, ..ctx.offer };
            let cancel = Cancel {
                offer: sold,
                offer_key: ctx.offer_key,
                offer_maker: ctx.offer_maker,
                offer_maker_signed: true,
                offer_makers_maker_tokens,
                maker_mint: ctx.maker_mint,
                escrowed_maker_tokens: ctx.escrowed_maker_tokens,
            };
            let update = Update {
                offer: sold,
                offer_key: ctx.offer_key,
                offer_maker: ctx.offer_maker,
                offer_maker_signed: true,
                maker_mint: ctx.maker_mint,
            };
            &&& cancel_outcome(cancel, offer_bump, offer_made_on) == Err::<
                (Cancel, Seq<Action>),
                ProgramError,
            >(ProgramError::Custom(ALREADY_EXPIRED))
            &&& update_offer_outcome(update, offer_bump, offer_made_on, updated_offer_amount) == Err::<
                Update,
                ProgramError,
            >(ProgramError::Custom(OFFER_EXPIRED))
        }),
{
}

/// The marketplace is configured once: once `new` has created the
/// configuration account, `new` fails on it again, whoever pays and whatever
/// beneficiary and cut it names, and (as its contract says) leaves the
/// configuration as it is.
pub proof fn configuration_is_set_once(
    ctx: Initialize,
    data_bump: u8,
    mk_cut: u64,
    later_beneficiary: crate::pubkey::Pubkey,
    later_payer_signed: bool,
    later_bump: u8,
    later_cut: u64,
)
    requires
        new_outcome(ctx, data_bump, mk_cut) is Ok,
    ensures
        ({
            let configured = new_outcome(ctx, data_bump, mk_cut).unwrap();
            let later = Initialize {
                beneficiary: later_beneficiary,
                payer_signed: later_payer_signed,
                ..configured
            };
            &&& configured.data_acc_in_use
            &&& new_outcome(later, later_bump, later_cut) is Err
        }),
{
}

/// An offer is listed once: `make` fails on an offer account that `make` has
/// already created, so it cannot overwrite an open listing.
pub proof fn listing_is_made_once(
    listing: Make,
    escrowed_maker_tokens_bump: u8,
    offer_bump: u8,
    offer_made_on: i64,
    offer_taker_amount: u64,
    later_escrowed_maker_tokens_bump: u8,
    later_offer_bump: u8,
    later_offer_taker_amount: u64,
)
    requires
        make_outcome(listing, escrowed_maker_tokens_bump, offer_bump, offer_made_on, offer_taker_amount) is Ok,
    ensures
        ({
            let listed = make_outcome(
                listing,
                escrowed_maker_tokens_bump,
                offer_bump,
                offer_made_on,
                offer_taker_amount,
            ).unwrap().0;
            make_outcome(
                listed,
                later_escrowed_maker_tokens_bump,
                later_offer_bump,
                offer_made_on,
                later_offer_taker_amount,
            ) is Err
        }),
{
}

/// A listing puts its NFT in a new escrow: a token account of the mint on
/// sale, with itself as its authority, at the address derived from the
/// offer's address and the escrow bump that the offer records; the NFT moves
/// in by the seller's signature. `make` asks for nothing that the escrow
/// signs, nor does `update_offer`, which asks for nothing: only `accept` and
/// `cancel` move the escrow's token.
pub proof fn escrow_of_listing(
    listing: Make,
    escrowed_maker_tokens_bump: u8,
    offer_bump: u8,
    offer_made_on: i64,
    offer_taker_amount: u64,
)
    requires
        make_outcome(listing, escrowed_maker_tokens_bump, offer_bump, offer_made_on, offer_taker_amount) is Ok,
    ensures
        ({
            let (listed, actions) = make_outcome(
                listing,
                escrowed_maker_tokens_bump,
                offer_bump,
                offer_made_on,
                offer_taker_amount,
            ).unwrap();
            let escrow = listing.escrowed_maker_tokens;
            &&& actions == listing_actions(listing)
            &&& actions[0] == (Action::CreateTokenAccount {
                account: escrow,
                mint: listed.offer.mint,
                authority: escrow,
                payer: listed.offer.maker,
            })
            &&& actions[1] == (Action::TokenTransfer {
                from: listing.offer_makers_maker_tokens,
                to: escrow,
                authority: listed.offer.maker,
                amount: 1,
                signer: None,
            })
            &&& actions.len() == 2
            &&& canonical_bump(escrow_seeds(listing.offer_key), listed.offer.escrowed_maker_tokens_bump)
            &&& at_address(escrow, escrow_seeds(listing.offer_key), listed.offer.escrowed_maker_tokens_bump)
        }),
{
}

/// The offer after its seller's repricing attempts `prices`, in order, on the
/// accounts of a listing; an attempt that `update_offer` refuses changes
/// nothing.
pub open spec fn repriced(
    listing: Make,
    offer: Offer,
    offer_bump: u8,
    offer_made_on: i64,
    prices: Seq<u64>,
) -> Offer
    decreases prices.len(),
{
    if prices.len() == 0 {
        offer
    } else {
        let before = repriced(listing, offer, offer_bump, offer_made_on, prices.drop_last());
        match update_offer_outcome(update_of_listing(listing, before), offer_bump, offer_made_on, prices.last()) {
            Ok(u) => u.offer,
            Err(_) => before,
        }
    }
}

proof fn lemma_repriced_keeps_listing(
    listing: Make,
    listed: Offer,
    offer_bump: u8,
    offer_made_on: i64,
    prices: Seq<u64>,
)
    requires
        update_offer_outcome(update_of_listing(listing, listed), offer_bump, offer_made_on, 1) is Ok,
    ensures
        ({
            let o = repriced(listing, listed, offer_bump, offer_made_on, prices);
            o == Offer { taker_amount: o.taker_amount, ..listed }
        }),
    decreases prices.len(),
{
    if prices.len() > 0 {
        lemma_repriced_keeps_listing(listing, listed, offer_bump, offer_made_on, prices.drop_last());
    }
}

/// An open listing's escrow keeps its NFT across any number of repricings:
/// whatever prices its seller tries, the offer stays open and keeps its
/// seller, mint and escrow bump, so its escrow stays the token account of
/// the mint that `escrow_of_listing` describes; `update_offer` asks for no
/// transfer, and cancelling still sends the NFT from that escrow back to the
/// seller's token account.
pub proof fn escrow_holds_across_repricing(
    listing: Make,
    escrowed_maker_tokens_bump: u8,
    offer_bump: u8,
    offer_made_on: i64,
    offer_taker_amount: u64,
    prices: Seq<u64>,
)
    requires
        make_outcome(listing, escrowed_maker_tokens_bump, offer_bump, offer_made_on, offer_taker_amount) is Ok,
    ensures
        ({
            let listed = make_outcome(
                listing,
                escrowed_maker_tokens_bump,
                offer_bump,
                offer_made_on,
                offer_taker_amount,
            ).unwrap().0.offer;
            let o = repriced(listing, listed, offer_bump, offer_made_on, prices);
            let ctx = cancel_of_listing(listing, o);
            &&& o == Offer { taker_amount: o.taker_amount, ..listed }
            &&& !o.expired
            &&& o.mint == listing.maker_mint
            &&& o.escrowed_maker_tokens_bump == escrowed_maker_tokens_bump
            &&& canonical_bump(escrow_seeds(listing.offer_key), o.escrowed_maker_tokens_bump)
            &&& at_address(listing.escrowed_maker_tokens, escrow_seeds(listing.offer_key), o.escrowed_maker_tokens_bump)
            &&& cancel_outcome(ctx, offer_bump, offer_made_on) == Ok::<(Cancel, Seq<Action>), ProgramError>(
                (
                    Cancel { offer: Offer { expired: true, ..o }, ..ctx },
                    release_escrow(
                        listing.escrowed_maker_tokens,
                        listing.offer_makers_maker_tokens,
                        listing.offer_key,
                        escrowed_maker_tokens_bump,
                        listing.offer_maker,
                    ),
                ),
            )
        }),
{
    let listed = make_outcome(
        listing,
        escrowed_maker_tokens_bump,
        offer_bump,
        offer_made_on,
        offer_taker_amount,
    ).unwrap().0.offer;
    listing_can_be_repriced(listing, escrowed_maker_tokens_bump, offer_bump, offer_made_on, offer_taker_amount, 1);
    lemma_repriced_keeps_listing(listing, listed, offer_bump, offer_made_on, prices);
    escrow_of_listing(listing, escrowed_maker_tokens_bump, offer_bump, offer_made_on, offer_taker_amount);
}

} // verus!
