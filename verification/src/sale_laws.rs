use vstd::prelude::*;

use crate::accept::Accept;
use crate::instructions::{
    cancel_outcome, make_outcome, new_outcome, update_offer_outcome, Cancel, Initialize, Make, Update,
};
use crate::metadata::{metadata_outcome, Creator, MetadataView};
use crate::state::{
    Action, EscrowSigner, ProgramError, ALREADY_EXPIRED, INVALID_AMOUNT, OFFER_EXPIRED, WRONG_PAYEE,
};

verus! {

/// A sale that settles pays, in this order and all from the buyer: the
/// seller the price less the marketplace's cut and the royalty; the
/// marketplace's account its cut, `market_place_cut` tenths of a percent of
/// the price; then, where the royalty (`seller_fee_basis_points` hundredths
/// of a percent of the price, none without metadata) is not zero and the
/// metadata lists creators, the first five of them in the metadata's order,
/// each its `share` percent of the royalty, to `creator0` up to `creator4` by
/// position; each amount rounded down over the integers. Three more actions
/// end the sale and move no lamports.
pub proof fn sale_pays_exact_amounts(ctx: Accept, m: Option<MetadataView>, actions: Seq<Action>)
    requires
        ctx.settlement(m) == Ok::<Seq<Action>, ProgramError>(actions),
        ({
            let price = ctx.offer.taker_amount as int;
            let cut = ctx.data_acc.market_place_cut as int;
            let fee: int = match m {
                Some(v) => v.seller_fee_basis_points as int,
                None => 0,
            };
            &&& cut * price <= u64::MAX
            &&& fee * price <= u64::MAX
            &&& (cut * price) / 1000 + (fee * price) / 10000 <= price
        }),
    ensures
        ({
            let price = ctx.offer.taker_amount as int;
            let cut = ctx.data_acc.market_place_cut as int;
            let fee: int = match m {
                Some(v) => v.seller_fee_basis_points as int,
                None => 0,
            };
            let market = (cut * price) / 1000;
            let royalty = (fee * price) / 10000;
            let paid: int = match m {
                Some(v) => match v.creators {
                    Some(cs) => if royalty > 0 {
                        if cs.len() < 5 {
                            cs.len() as int
                        } else {
                            5
                        }
                    } else {
                        0
                    },
                    None => 0,
                },
                None => 0,
            };
            &&& actions.len() == paid + 5
            &&& actions[0] == (Action::SystemTransfer {
                from: ctx.offer_taker,
                to: ctx.offer_maker,
                lamports: (price - market - royalty) as u64,
            })
            &&& 0 <= price - market - royalty <= price
            &&& actions[1] == (Action::SystemTransfer {
                from: ctx.offer_taker,
                to: ctx.market_maker,
                lamports: market as u64,
            })
            &&& 0 <= market <= price
            &&& forall|i: int|
                2 <= i < paid + 2 ==> match #[trigger] actions[i] {
                    Action::SystemTransfer { from, to, lamports } => {
                        &&& from == ctx.offer_taker
                        &&& to == (if i == 2 {
                            ctx.creator0
                        } else if i == 3 {
                            ctx.creator1
                        } else if i == 4 {
                            ctx.creator2
                        } else if i == 5 {
                            ctx.creator3
                        } else {
                            ctx.creator4
                        })
                        &&& match m {
                            Some(v) => match v.creators {
                                Some(cs) => lamports as int == (royalty * cs[i - 2].share) / 100,
                                None => false,
                            },
                            None => false,
                        }
                    },
                    _ => false,
                }
        }),
{
    let price = ctx.offer.taker_amount as int;
    let cut = ctx.data_acc.market_place_cut as int;
    let fee: int = match m {
        Some(v) => v.seller_fee_basis_points as int,
        None => 0,
    };
    assert(0 <= (cut * price) / 1000) by (nonlinear_arith)
        requires
            cut >= 0,
            price >= 0,
    ;
    assert(0 <= (fee * price) / 10000) by (nonlinear_arith)
        requires
            fee >= 0,
            price >= 0,
    ;
    assert(ctx.market_cut() == (cut * price) / 1000);
    assert(ctx.royalty_cut(m) == (fee * price) / 10000);
    let sale = ctx.sale_transfers(m);
    let delivery = ctx.delivery();
    let royalty = (fee * price) / 10000;
    assert(royalty <= u64::MAX / 10000) by (nonlinear_arith)
        requires
            royalty == (fee * price) / 10000,
            fee * price <= u64::MAX,
            fee >= 0,
            price >= 0,
    ;
    match ctx.royalty_creators(m) {
        Some(cs) => {
            let t = ctx.royalty_transfers(cs, ctx.royalty_cut(m));
            assert(actions == sale + t + delivery);
            assert(t.len() == crate::accept::paid_creator_count(cs));
            assert forall|i: int| 2 <= i < t.len() + 2 implies match #[trigger] actions[i] {
                Action::SystemTransfer { from, to, lamports } => {
                    &&& from == ctx.offer_taker
                    &&& to == (if i == 2 {
                        ctx.creator0
                    } else if i == 3 {
                        ctx.creator1
                    } else if i == 4 {
                        ctx.creator2
                    } else if i == 5 {
                        ctx.creator3
                    } else {
                        ctx.creator4
                    })
                    &&& match m {
                        Some(v) => match v.creators {
                            Some(cs) => lamports as int == (royalty * cs[i - 2].share) / 100,
                            None => false,
                        },
                        None => false,
                    }
                },
                _ => false,
            } by {
                assert(actions[i] == t[i - 2]);
                let share = cs[i - 2].share;
                assert(0 <= (royalty * share) / 100 <= u64::MAX) by (nonlinear_arith)
                    requires
                        0 <= royalty <= u64::MAX / 10000,
                        0 <= share <= 255,
                ;
            }
        },
        None => {
            assert(actions == sale + delivery);
        },
    }
}

/// A sale does not abort while its arithmetic fits in 64 bits: where the
/// accounts check out and the metadata reads, where both products
/// `market_place_cut * price` and `seller_fee_basis_points * price` fit in a
/// `u64` and the two cuts add up to at most the price, where the marketplace
/// account is the configured one and, if there is a royalty to share, the
/// first five listed creators are the accounts given for them (the fifth
/// checked against `creator1`), `accept` succeeds.
pub proof fn sale_goes_through_when_it_fits(ctx: Accept, offer_bump: u8, offer_made_on: i64)
    ensures
        ({
            let mo = metadata_outcome(ctx.token_metadata_account, ctx.system_program);
            let m = mo.unwrap();
            let price = ctx.offer.taker_amount as int;
            let cut = ctx.data_acc.market_place_cut as int;
            let fee: int = match m {
                Some(v) => v.seller_fee_basis_points as int,
                None => 0,
            };
            let royalty = (fee * price) / 10000;
            let creators_given: bool = match m {
                Some(v) => match v.creators {
                    Some(cs) => forall|y: int|
                        0 <= y < cs.len() && y < 5 ==> (#[trigger] cs[y]).address@ == (if y == 0 {
                            ctx.creator0@
                        } else if y == 1 {
                            ctx.creator1@
                        } else if y == 2 {
                            ctx.creator2@
                        } else if y == 3 {
                            ctx.creator3@
                        } else {
                            ctx.creator1@
                        }),
                    None => true,
                },
                None => true,
            };
            (ctx.validation(offer_bump, offer_made_on) is Ok && mo is Ok && cut * price <= u64::MAX
                && fee * price <= u64::MAX && (cut * price) / 1000 + royalty <= price
                && ctx.market_maker@ == ctx.data_acc.market_place@ && (royalty > 0 ==> creators_given))
                ==> ctx.accept_outcome(offer_bump, offer_made_on) is Ok
        }),
{
    let mo = metadata_outcome(ctx.token_metadata_account, ctx.system_program);
    if mo is Ok {
        let m = mo.unwrap();
        let price = ctx.offer.taker_amount as int;
        let fee: int = match m {
            Some(v) => v.seller_fee_basis_points as int,
            None => 0,
        };
        let royalty = (fee * price) / 10000;
        assert(ctx.royalty_cut(m) == royalty);
        match ctx.royalty_creators(m) {
            Some(cs) => {
                assert(royalty > 0);
                assert(m is Some && m->0.creators == Some(cs));
            },
            None => {},
        }
    }
}

/// `make` records the offer it is given: the signing seller, the price, the
/// mint, the escrow's bump and the time stamp exactly as passed, open; and it
/// succeeds whenever the accounts check out.
pub proof fn make_records_the_offer(
    ctx: Make,
    escrowed_maker_tokens_bump: u8,
    offer_bump: u8,
    offer_made_on: i64,
    offer_taker_amount: u64,
)
    ensures
        ctx.validation(escrowed_maker_tokens_bump, offer_bump, offer_made_on) is Ok ==> make_outcome(
            ctx,
            escrowed_maker_tokens_bump,
            offer_bump,
            offer_made_on,
            offer_taker_amount,
        ) is Ok,
        make_outcome(ctx, escrowed_maker_tokens_bump, offer_bump, offer_made_on, offer_taker_amount)
            matches Ok((after, _)) ==> {
            &&& after.offer.maker == ctx.offer_maker
            &&& after.offer.taker_amount == offer_taker_amount
            &&& after.offer.mint == ctx.maker_mint
            &&& after.offer.escrowed_maker_tokens_bump == escrowed_maker_tokens_bump
            &&& after.offer.offer_made_on == offer_made_on
            &&& !after.offer.expired
        },
{
}

/// `new` records the beneficiary and the cut it is given, whatever the cut;
/// and it succeeds whenever the accounts check out.
pub proof fn new_records_the_configuration(ctx: Initialize, data_bump: u8, mk_cut: u64)
    ensures
        ctx.validation(data_bump) is Ok ==> new_outcome(ctx, data_bump, mk_cut) is Ok,
        new_outcome(ctx, data_bump, mk_cut) matches Ok(after) ==> {
            &&& after.data_acc.market_place == ctx.beneficiary
            &&& after.data_acc.market_place_cut == mk_cut
        },
{
}

/// A sale succeeds only where the accounts check out, the metadata reads,
/// both products `market_place_cut * price` and
/// `seller_fee_basis_points * price` fit in a `u64`, the two cuts add up to
/// at most the price, the marketplace account is the configured one and, if
/// there is a royalty to share, the first five listed creators are the
/// accounts given for them (the fifth checked against `creator1`).
pub proof fn sale_succeeds_only_when_it_fits(ctx: Accept, offer_bump: u8, offer_made_on: i64)
    ensures
        ({
            let mo = metadata_outcome(ctx.token_metadata_account, ctx.system_program);
            let m = mo.unwrap();
            let price = ctx.offer.taker_amount as int;
            let cut = ctx.data_acc.market_place_cut as int;
            let fee: int = match m {
                Some(v) => v.seller_fee_basis_points as int,
                None => 0,
            };
            let royalty = (fee * price) / 10000;
            let creators_given: bool = match m {
                Some(v) => match v.creators {
                    Some(cs) => forall|y: int|
                        0 <= y < cs.len() && y < 5 ==> (#[trigger] cs[y]).address@ == (if y == 0 {
                            ctx.creator0@
                        } else if y == 1 {
                            ctx.creator1@
                        } else if y == 2 {
                            ctx.creator2@
                        } else if y == 3 {
                            ctx.creator3@
                        } else {
                            ctx.creator1@
                        }),
                    None => true,
                },
                None => true,
            };
            ctx.accept_outcome(offer_bump, offer_made_on) is Ok ==> {
                &&& ctx.validation(offer_bump, offer_made_on) is Ok
                &&& mo is Ok
                &&& cut * price <= u64::MAX
                &&& fee * price <= u64::MAX
                &&& (cut * price) / 1000 + royalty <= price
                &&& ctx.market_maker@ == ctx.data_acc.market_place@
                &&& royalty > 0 ==> creators_given
            }
        }),
{
    let mo = metadata_outcome(ctx.token_metadata_account, ctx.system_program);
    if ctx.accept_outcome(offer_bump, offer_made_on) is Ok {
        let m = mo.unwrap();
        match ctx.royalty_creators(m) {
            Some(cs) => {
                assert forall|y: int| 0 <= y < cs.len() && y < 5 implies (#[trigger] cs[y]).address@
                    == ctx.checked_creator(y)@ by {}
            },
            None => {},
        }
    }
}

/// A sale to the wrong accounts is refused with the program's payee error:
/// where the marketplace account is not the configured one, or where there
/// is a royalty to share and one of the first five listed creators is not the
/// account given for it (the fifth checked against `creator1`).
pub proof fn sale_refuses_wrong_payees(ctx: Accept, m: Option<MetadataView>)
    ensures
        ctx.market_maker@ != ctx.data_acc.market_place@ ==> ctx.settlement(m) == Err::<
            Seq<Action>,
            ProgramError,
        >(ProgramError::Custom(WRONG_PAYEE)),
        ({
            let price = ctx.offer.taker_amount as int;
            let fee: int = match m {
                Some(v) => v.seller_fee_basis_points as int,
                None => 0,
            };
            let royalty = (fee * price) / 10000;
            forall|cs: Seq<Creator>, y: int|
                royalty > 0 && (m matches Some(v) && v.creators == Some(cs)) && 0 <= y < cs.len() && y < 5
                    && (#[trigger] cs[y]).address@ != (if y == 0 {
                    ctx.creator0@
                } else if y == 1 {
                    ctx.creator1@
                } else if y == 2 {
                    ctx.creator2@
                } else if y == 3 {
                    ctx.creator3@
                } else {
                    ctx.creator1@
                }) ==> ctx.settlement(m) == Err::<Seq<Action>, ProgramError>(
                    ProgramError::Custom(WRONG_PAYEE),
                )
        }),
{
    let price = ctx.offer.taker_amount as int;
    let fee: int = match m {
        Some(v) => v.seller_fee_basis_points as int,
        None => 0,
    };
    assert(ctx.royalty_cut(m) == (fee * price) / 10000);
}

/// `update_offer` sets the price to exactly the amount given and changes
/// nothing else; once the accounts check out it succeeds exactly on a
/// non-zero amount for an open offer, and fails with the program's codes
/// otherwise.
pub proof fn update_sets_the_price(ctx: Update, offer_bump: u8, offer_made_on: i64, amount: u64)
    ensures
        update_offer_outcome(ctx, offer_bump, offer_made_on, amount) matches Ok(after) ==> {
            &&& after.offer.taker_amount == amount
            &&& after.offer.maker == ctx.offer.maker
            &&& after.offer.mint == ctx.offer.mint
            &&& after.offer.escrowed_maker_tokens_bump == ctx.offer.escrowed_maker_tokens_bump
            &&& after.offer.offer_made_on == ctx.offer.offer_made_on
            &&& after.offer.expired == ctx.offer.expired
            &&& after.offer_key == ctx.offer_key
            &&& after.offer_maker == ctx.offer_maker
            &&& after.maker_mint == ctx.maker_mint
        },
        ctx.validation(offer_bump, offer_made_on) is Ok ==> {
            &&& amount == 0 ==> update_offer_outcome(ctx, offer_bump, offer_made_on, amount) == Err::<
                Update,
                ProgramError,
            >(ProgramError::Custom(INVALID_AMOUNT))
            &&& amount != 0 && ctx.offer.expired ==> update_offer_outcome(
                ctx,
                offer_bump,
                offer_made_on,
                amount,
            ) == Err::<Update, ProgramError>(ProgramError::Custom(OFFER_EXPIRED))
            &&& amount != 0 && !ctx.offer.expired ==> update_offer_outcome(
                ctx,
                offer_bump,
                offer_made_on,
                amount,
            ) is Ok
        },
{
}

/// `cancel` succeeds, once the accounts check out, exactly on an open offer:
/// it marks the offer expired and changes nothing else, sends the one NFT
/// from the escrow back to the seller's token account with the escrow's
/// signature (the offer's address and the recorded bump), then closes the
/// escrow and the offer, their rent going to the seller.
pub proof fn cancel_returns_the_nft(ctx: Cancel, offer_bump: u8, offer_made_on: i64)
    ensures
        ctx.validation(offer_bump, offer_made_on) is Ok ==> (cancel_outcome(ctx, offer_bump, offer_made_on)
            is Ok <==> !ctx.offer.expired),
        ctx.offer.expired ==> cancel_outcome(ctx, offer_bump, offer_made_on) is Err,
        cancel_outcome(ctx, offer_bump, offer_made_on) matches Ok((after, actions)) ==> {
            let signer = Some(EscrowSigner { offer: ctx.offer_key, bump: ctx.offer.escrowed_maker_tokens_bump });
            &&& after.offer.expired
            &&& after.offer.taker_amount == ctx.offer.taker_amount
            &&& after.offer.maker == ctx.offer.maker
            &&& after.offer.mint == ctx.offer.mint
            &&& after.offer.escrowed_maker_tokens_bump == ctx.offer.escrowed_maker_tokens_bump
            &&& after.offer.offer_made_on == ctx.offer.offer_made_on
            &&& actions.len() == 3
            &&& actions[0] == (Action::TokenTransfer {
                from: ctx.escrowed_maker_tokens,
                to: ctx.offer_makers_maker_tokens,
                authority: ctx.escrowed_maker_tokens,
                amount: 1,
                signer,
            })
            &&& actions[1] == (Action::CloseAccount {
                account: ctx.escrowed_maker_tokens,
                destination: ctx.offer_maker,
                authority: ctx.escrowed_maker_tokens,
                signer,
            })
            &&& actions[2] == (Action::CloseProgramAccount {
                account: ctx.offer_key,
                destination: ctx.offer_maker,
            })
        },
{
}

} // verus!
