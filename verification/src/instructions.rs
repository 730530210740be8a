use vstd::prelude::*;

use crate::address::{
    address_outcome, check_address, check_init_address, data_seeds, escrow_seeds,
    init_address_outcome, make_data_seeds, make_escrow_seeds, make_offer_seeds, offer_seeds,
};
use crate::pubkey::Pubkey;
use crate::state::{
    Action, Data, EscrowSigner, Offer, ProgramError, ALREADY_EXPIRED, INVALID_AMOUNT,
    OFFER_EXPIRED,
};

verus! {

/// The accounts of `new`: the marketplace's configuration and the account
/// that will receive its cut.
#[derive(Clone, Copy, Debug, PartialEq, Eq)]
pub struct Initialize {
    pub data_acc: Data,
    /// The address of the configuration account.
    pub data_acc_key: Pubkey,
    /// Whether the configuration account is already in use: it holds data
    /// or belongs to a program other than the system program.
    pub data_acc_in_use: bool,
    pub beneficiary: Pubkey,
    /// Whether the payer for the configuration account signed.
    pub payer_signed: bool,
}

/// The accounts of `make`, which lists an NFT for sale.
#[derive(Clone, Copy, Debug, PartialEq, Eq)]
pub struct Make {
    pub offer: Offer,
    /// The address of the offer account.
    pub offer_key: Pubkey,
    /// Whether the offer account is already in use.
    pub offer_in_use: bool,
    pub offer_maker: Pubkey,
    /// Whether the seller signed.
    pub offer_maker_signed: bool,
    /// The seller's token account that holds the NFT.
    pub offer_makers_maker_tokens: Pubkey,
    /// The mint of the seller's token account.
    pub offer_makers_maker_tokens_mint: Pubkey,
    /// The token account that keeps the NFT while it is for sale.
    pub escrowed_maker_tokens: Pubkey,
    /// Whether the escrow account is already in use.
    pub escrowed_maker_tokens_in_use: bool,
    pub maker_mint: Pubkey,
}

/// The accounts of `update_offer`, which changes an offer's price.
#[derive(Clone, Copy, Debug, PartialEq, Eq)]
pub struct Update {
    pub offer: Offer,
    /// The address of the offer account.
    pub offer_key: Pubkey,
    pub offer_maker: Pubkey,
    /// Whether the seller signed.
    pub offer_maker_signed: bool,
    pub maker_mint: Pubkey,
}

/// The accounts of `cancel`, which takes an NFT off sale and returns it.
#[derive(Clone, Copy, Debug, PartialEq, Eq)]
pub struct Cancel {
    pub offer: Offer,
    /// The address of the offer account.
    pub offer_key: Pubkey,
    pub offer_maker: Pubkey,
    /// Whether the seller signed.
    pub offer_maker_signed: bool,
    pub offer_makers_maker_tokens: Pubkey,
    pub maker_mint: Pubkey,
    pub escrowed_maker_tokens: Pubkey,
}

/// What `make` asks for: the escrow token account, of the mint on sale and
/// with itself as its authority, paid for by the seller; then the NFT's
/// transfer from the seller's token account into escrow, signed by the seller.
pub open spec fn listing_actions(ctx: Make) -> Seq<Action> {
    seq![
        Action::CreateTokenAccount {
            account: ctx.escrowed_maker_tokens,
            mint: ctx.maker_mint,
            authority: ctx.escrowed_maker_tokens,
            payer: ctx.offer_maker,
        },
        Action::TokenTransfer {
            from: ctx.offer_makers_maker_tokens,
            to: ctx.escrowed_maker_tokens,
            authority: ctx.offer_maker,
            amount: 1,
            signer: None,
        },
    ]
}

/// The offer that `make` records.
pub open spec fn listed_offer(
    ctx: Make,
    escrowed_maker_tokens_bump: u8,
    offer_made_on: i64,
    offer_taker_amount: u64,
) -> Offer {
    Offer {
        maker: ctx.offer_maker,
        taker_amount: offer_taker_amount,
        mint: ctx.maker_mint,
        escrowed_maker_tokens_bump,
        offer_made_on,
        expired: false,
    }
}

/// How an offer ends: the escrow sends the NFT to `to` and is closed, its rent
/// going to the seller, both signed by the escrow itself; then the offer
/// account is closed, its rent going to the seller.
pub open spec fn release_escrow(
    escrow: Pubkey,
    to: Pubkey,
    offer_key: Pubkey,
    bump: u8,
    seller: Pubkey,
) -> Seq<Action> {
    let signer = Some(EscrowSigner { offer: offer_key, bump });
    seq![
        Action::TokenTransfer { from: escrow, to, authority: escrow, amount: 1, signer },
        Action::CloseAccount { account: escrow, destination: seller, authority: escrow, signer },
        Action::CloseProgramAccount { account: offer_key, destination: seller },
    ]
}

impl Initialize {
    /// The outcome of checking the accounts of `new`: the payer signs, and
    /// the configuration account is created at the canonical address of its
    /// seeds.
    pub open spec fn validation(self, data_bump: u8) -> Result<(), ProgramError> {
        if !self.payer_signed {
            Err(ProgramError::AccountNotSigner)
        } else {
            init_address_outcome(self.data_acc_key, data_seeds(), data_bump, self.data_acc_in_use)
        }
    }

    /// Checks the accounts of `new`.
    pub fn validate(&self, data_bump: u8) -> (r: Result<(), ProgramError>)
        ensures
            r == self.validation(data_bump),
    {
        if !self.payer_signed {
            return Err(ProgramError::AccountNotSigner);
        }
        check_init_address(&self.data_acc_key, &make_data_seeds(), data_bump, self.data_acc_in_use)
    }
}

impl Make {
    /// The outcome of checking the accounts of `make`: the seller signs, the
    /// offer and then the escrow are created at the canonical addresses of
    /// their seeds, and the seller's token account holds the mint on sale.
    pub open spec fn validation(
        self,
        escrowed_maker_tokens_bump: u8,
        offer_bump: u8,
        offer_made_on: i64,
    ) -> Result<(), ProgramError> {
        if !self.offer_maker_signed {
            Err(ProgramError::AccountNotSigner)
        } else {
            match init_address_outcome(
                self.offer_key,
                offer_seeds(self.offer_maker, self.maker_mint, offer_made_on),
                offer_bump,
                self.offer_in_use,
            ) {
                Err(e) => Err(e),
                Ok(_) => match init_address_outcome(
                    self.escrowed_maker_tokens,
                    escrow_seeds(self.offer_key),
                    escrowed_maker_tokens_bump,
                    self.escrowed_maker_tokens_in_use,
                ) {
                    Err(e) => Err(e),
                    Ok(_) => if self.offer_makers_maker_tokens_mint@ != self.maker_mint@ {
                        Err(ProgramError::ConstraintRaw)
                    } else {
                        Ok(())
                    },
                },
            }
        }
    }

    /// Checks the accounts of `make`.
    pub fn validate(&self, escrowed_maker_tokens_bump: u8, offer_bump: u8, offer_made_on: i64) -> (r:
        Result<(), ProgramError>)
        ensures
            r == self.validation(escrowed_maker_tokens_bump, offer_bump, offer_made_on),
    {
        if !self.offer_maker_signed {
            return Err(ProgramError::AccountNotSigner);
        }
        let seeds = make_offer_seeds(&self.offer_maker, &self.maker_mint, offer_made_on);
        match check_init_address(&self.offer_key, &seeds, offer_bump, self.offer_in_use) {
            Err(e) => return Err(e),
            Ok(_) => {},
        }
        match check_init_address(
            &self.escrowed_maker_tokens,
            &make_escrow_seeds(&self.offer_key),
            escrowed_maker_tokens_bump,
            self.escrowed_maker_tokens_in_use,
        ) {
            Err(e) => return Err(e),
            Ok(_) => {},
        }
        if !self.offer_makers_maker_tokens_mint.equals(&self.maker_mint) {
            return Err(ProgramError::ConstraintRaw);
        }
        Ok(())
    }
}

/// The outcome of checking an existing offer account: the seller signs, the
/// offer is at the address of its seeds and belongs to that seller.
pub open spec fn offer_validation(
    offer: Offer,
    offer_key: Pubkey,
    offer_maker: Pubkey,
    offer_maker_signed: bool,
    maker_mint: Pubkey,
    offer_bump: u8,
    offer_made_on: i64,
) -> Result<(), ProgramError> {
    if !offer_maker_signed {
        Err(ProgramError::AccountNotSigner)
    } else { match address_outcome(offer_key, offer_seeds(offer_maker, maker_mint, offer_made_on), offer_bump) {
        Err(e) => Err(e),
        Ok(_) => if offer.maker@ != offer_maker@ {
            Err(ProgramError::ConstraintRaw)
        } else {
            Ok(())
        },
    } }
}

/// The outcome of checking an offer account and its escrow: the offer as
/// `offer_validation` says, then the escrow at the address of its seeds.
pub open spec fn escrow_validation(
    offer: Offer,
    offer_key: Pubkey,
    offer_maker: Pubkey,
    offer_maker_signed: bool,
    maker_mint: Pubkey,
    escrowed_maker_tokens: Pubkey,
    offer_bump: u8,
    offer_made_on: i64,
) -> Result<(), ProgramError> {
    match offer_validation(offer, offer_key, offer_maker, offer_maker_signed, maker_mint, offer_bump, offer_made_on) {
        Err(e) => Err(e),
        Ok(_) => address_outcome(
            escrowed_maker_tokens,
            escrow_seeds(offer_key),
            offer.escrowed_maker_tokens_bump,
        ),
    }
}

/// Checks an existing offer account.
pub fn validate_offer(
    offer: &Offer,
    offer_key: &Pubkey,
    offer_maker: &Pubkey,
    offer_maker_signed: bool,
    maker_mint: &Pubkey,
    offer_bump: u8,
    offer_made_on: i64,
) -> (r: Result<(), ProgramError>)
    ensures
        r == offer_validation(*offer, *offer_key, *offer_maker, offer_maker_signed, *maker_mint, offer_bump, offer_made_on),
{
    if !offer_maker_signed {
        return Err(ProgramError::AccountNotSigner);
    }
    match check_address(offer_key, make_offer_seeds(offer_maker, maker_mint, offer_made_on), offer_bump) {
        Err(e) => return Err(e),
        Ok(_) => {},
    }
    if !offer.maker.equals(offer_maker) {
        return Err(ProgramError::ConstraintRaw);
    }
    Ok(())
}

/// Checks an existing offer account and its escrow.
pub fn validate_escrow(
    offer: &Offer,
    offer_key: &Pubkey,
    offer_maker: &Pubkey,
    offer_maker_signed: bool,
    maker_mint: &Pubkey,
    escrowed_maker_tokens: &Pubkey,
    offer_bump: u8,
    offer_made_on: i64,
) -> (r: Result<(), ProgramError>)
    ensures
        r == escrow_validation(
            *offer,
            *offer_key,
            *offer_maker,
            offer_maker_signed,
            *maker_mint,
            *escrowed_maker_tokens,
            offer_bump,
            offer_made_on,
        ),
{
    match validate_offer(offer, offer_key, offer_maker, offer_maker_signed, maker_mint, offer_bump, offer_made_on) {
        Err(e) => return Err(e),
        Ok(_) => {},
    }
    check_address(escrowed_maker_tokens, make_escrow_seeds(offer_key), offer.escrowed_maker_tokens_bump)
}

impl Update {
    /// The outcome of checking the accounts of `update_offer`.
    pub open spec fn validation(self, offer_bump: u8, offer_made_on: i64) -> Result<(), ProgramError> {
        offer_validation(
            self.offer,
            self.offer_key,
            self.offer_maker,
            self.offer_maker_signed,
            self.maker_mint,
            offer_bump,
            offer_made_on,
        )
    }

    /// Checks the accounts of `update_offer`.
    pub fn validate(&self, offer_bump: u8, offer_made_on: i64) -> (r: Result<(), ProgramError>)
        ensures
            r == self.validation(offer_bump, offer_made_on),
    {
        validate_offer(
            &self.offer,
            &self.offer_key,
            &self.offer_maker,
            self.offer_maker_signed,
            &self.maker_mint,
            offer_bump,
            offer_made_on,
        )
    }
}

impl Cancel {
    /// The outcome of checking the accounts of `cancel`.
    pub open spec fn validation(self, offer_bump: u8, offer_made_on: i64) -> Result<(), ProgramError> {
        escrow_validation(
            self.offer,
            self.offer_key,
            self.offer_maker,
            self.offer_maker_signed,
            self.maker_mint,
            self.escrowed_maker_tokens,
            offer_bump,
            offer_made_on,
        )
    }

    /// Checks the accounts of `cancel`.
    pub fn validate(&self, offer_bump: u8, offer_made_on: i64) -> (r: Result<(), ProgramError>)
        ensures
            r == self.validation(offer_bump, offer_made_on),
    {
        validate_escrow(
            &self.offer,
            &self.offer_key,
            &self.offer_maker,
            self.offer_maker_signed,
            &self.maker_mint,
            &self.escrowed_maker_tokens,
            offer_bump,
            offer_made_on,
        )
    }
}

/// The outcome of `new`: the configuration account now exists and names the
/// beneficiary and the cut.
pub open spec fn new_outcome(ctx: Initialize, data_bump: u8, mk_cut: u64) -> Result<Initialize, ProgramError> {
    match ctx.validation(data_bump) {
        Err(e) => Err(e),
        Ok(_) => Ok(
            Initialize {
                data_acc: Data { market_place: ctx.beneficiary, market_place_cut: mk_cut },
                data_acc_in_use: true,
                ..ctx
            },
        ),
    }
}

/// The outcome of `make`: the offer and escrow accounts now exist, the offer
/// is recorded, open, and the NFT is asked to move into a new escrow.
pub open spec fn make_outcome(
    ctx: Make,
    escrowed_maker_tokens_bump: u8,
    offer_bump: u8,
    offer_made_on: i64,
    offer_taker_amount: u64,
) -> Result<(Make, Seq<Action>), ProgramError> {
    match ctx.validation(escrowed_maker_tokens_bump, offer_bump, offer_made_on) {
        Err(e) => Err(e),
        Ok(_) => Ok(
            (
                Make {
                    offer: listed_offer(ctx, escrowed_maker_tokens_bump, offer_made_on, offer_taker_amount),
                    offer_in_use: true,
                    escrowed_maker_tokens_in_use: true,
                    ..ctx
                },
                listing_actions(ctx),
            ),
        ),
    }
}

/// The outcome of `update_offer`: an open offer takes the new, non-zero price.
pub open spec fn update_offer_outcome(
    ctx: Update,
    offer_bump: u8,
    offer_made_on: i64,
    updated_offer_amount: u64,
) -> Result<Update, ProgramError> {
    match ctx.validation(offer_bump, offer_made_on) {
        Err(e) => Err(e),
        Ok(_) => if updated_offer_amount == 0 {
            Err(ProgramError::Custom(INVALID_AMOUNT))
        } else if ctx.offer.expired {
            Err(ProgramError::Custom(OFFER_EXPIRED))
        } else {
            Ok(Update { offer: Offer { taker_amount: updated_offer_amount, ..ctx.offer }, ..ctx })
        },
    }
}

/// The outcome of `cancel`: an open offer expires and the escrow returns the
/// NFT to the seller.
pub open spec fn cancel_outcome(ctx: Cancel, offer_bump: u8, offer_made_on: i64) -> Result<
    (Cancel, Seq<Action>),
    ProgramError,
> {
    match ctx.validation(offer_bump, offer_made_on) {
        Err(e) => Err(e),
        Ok(_) => if ctx.offer.expired {
            Err(ProgramError::Custom(ALREADY_EXPIRED))
        } else {
            Ok(
                (
                    Cancel { offer: Offer { expired: true, ..ctx.offer }, ..ctx },
                    release_escrow(
                        ctx.escrowed_maker_tokens,
                        ctx.offer_makers_maker_tokens,
                        ctx.offer_key,
                        ctx.offer.escrowed_maker_tokens_bump,
                        ctx.offer_maker,
                    ),
                ),
            )
        },
    }
}

/// Sets up the marketplace: records the account that receives its cut and
/// the cut itself.
pub fn new(ctx: &mut Initialize, data_bump: u8, mk_cut: u64) -> (r: Result<(), ProgramError>)
    ensures
        match r {
            Ok(_) => new_outcome(*old(ctx), data_bump, mk_cut) == Ok::<Initialize, ProgramError>(
                *final(ctx),
            ),
            Err(e) => {
                &&& new_outcome(*old(ctx), data_bump, mk_cut) == Err::<Initialize, ProgramError>(e)
                &&& *final(ctx) == *old(ctx)
            },
        },
{
    match ctx.validate(data_bump) {
        Err(e) => return Err(e),
        Ok(_) => {},
    }
    ctx.data_acc.market_place = ctx.beneficiary;
    ctx.data_acc.market_place_cut = mk_cut;
    ctx.data_acc_in_use = true;
    Ok(())
}

/// Lists an NFT for sale at `offer_taker_amount` lamports: records the offer
/// and asks for the NFT to be moved into escrow.
pub fn make(
    ctx: &mut Make,
    escrowed_maker_tokens_bump: u8,
    offer_bump: u8,
    offer_made_on: i64,
    offer_taker_amount: u64,
) -> (r: Result<Vec<Action>, ProgramError>)
    ensures
        match r {
            Ok(actions) => make_outcome(
                *old(ctx),
                escrowed_maker_tokens_bump,
                offer_bump,
                offer_made_on,
                offer_taker_amount,
            ) == Ok::<(Make, Seq<Action>), ProgramError>((*final(ctx), actions@)),
            Err(e) => {
                &&& make_outcome(
                    *old(ctx),
                    escrowed_maker_tokens_bump,
                    offer_bump,
                    offer_made_on,
                    offer_taker_amount,
                ) == Err::<(Make, Seq<Action>), ProgramError>(e)
                &&& *final(ctx) == *old(ctx)
            },
        },
{
    match ctx.validate(escrowed_maker_tokens_bump, offer_bump, offer_made_on) {
        Err(e) => return Err(e),
        Ok(_) => {},
    }
    ctx.offer = Offer {
        maker: ctx.offer_maker,
        taker_amount: offer_taker_amount,
        mint: ctx.maker_mint,
        escrowed_maker_tokens_bump,
        offer_made_on,
        expired: false,
    };
    ctx.offer_in_use = true;
    ctx.escrowed_maker_tokens_in_use = true;
    let mut actions: Vec<Action> = Vec::new();
    actions.push(
        Action::CreateTokenAccount {
            account: ctx.escrowed_maker_tokens,
            mint: ctx.maker_mint,
            authority: ctx.escrowed_maker_tokens,
            payer: ctx.offer_maker,
        },
    );
    actions.push(
        Action::TokenTransfer {
            from: ctx.offer_makers_maker_tokens,
            to: ctx.escrowed_maker_tokens,
            authority: ctx.offer_maker,
            amount: 1,
            signer: None,
        },
    );
    assert(actions@ =~= listing_actions(*old(ctx)));
    Ok(actions)
}

/// Changes the price of an offer that is still open.
pub fn update_offer(
    ctx: &mut Update,
    offer_bump: u8,
    offer_made_on: i64,
    updated_offer_amount: u64,
) -> (r: Result<(), ProgramError>)
    ensures
        match r {
            Ok(_) => update_offer_outcome(*old(ctx), offer_bump, offer_made_on, updated_offer_amount)
                == Ok::<Update, ProgramError>(*final(ctx)),
            Err(e) => {
                &&& update_offer_outcome(*old(ctx), offer_bump, offer_made_on, updated_offer_amount)
                    == Err::<Update, ProgramError>(e)
                &&& *final(ctx) == *old(ctx)
            },
        },
{
    match ctx.validate(offer_bump, offer_made_on) {
        Err(e) => return Err(e),
        Ok(_) => {},
    }
    if updated_offer_amount == 0 {
        return Err(ProgramError::Custom(INVALID_AMOUNT));
    }
    if ctx.offer.expired {
        return Err(ProgramError::Custom(OFFER_EXPIRED));
    }
    ctx.offer.taker_amount = updated_offer_amount;
    Ok(())
}

/// Takes an open offer off sale: marks it expired and asks for the NFT to go
/// back to the seller and for the escrow account to be closed.
pub fn cancel(ctx: &mut Cancel, offer_bump: u8, offer_made_on: i64) -> (r: Result<
    Vec<Action>,
    ProgramError,
>)
    ensures
        match r {
            Ok(actions) => cancel_outcome(*old(ctx), offer_bump, offer_made_on) == Ok::<
                (Cancel, Seq<Action>),
                ProgramError,
            >((*final(ctx), actions@)),
            Err(e) => {
                &&& cancel_outcome(*old(ctx), offer_bump, offer_made_on) == Err::<
                    (Cancel, Seq<Action>),
                    ProgramError,
                >(e)
                &&& *final(ctx) == *old(ctx)
            },
        },
{
    match ctx.validate(offer_bump, offer_made_on) {
        Err(e) => return Err(e),
        Ok(_) => {},
    }
    if ctx.offer.expired {
        return Err(ProgramError::Custom(ALREADY_EXPIRED));
    }
    ctx.offer.expired = true;
    let signer = Some(EscrowSigner { offer: ctx.offer_key, bump: ctx.offer.escrowed_maker_tokens_bump });
    let mut actions: Vec<Action> = Vec::new();
    actions.push(
        Action::TokenTransfer {
            from: ctx.escrowed_maker_tokens,
            to: ctx.offer_makers_maker_tokens,
            authority: ctx.escrowed_maker_tokens,
            amount: 1,
            signer,
        },
    );
    actions.push(
        Action::CloseAccount {
            account: ctx.escrowed_maker_tokens,
            destination: ctx.offer_maker,
            authority: ctx.escrowed_maker_tokens,
            signer,
        },
    );
    actions.push(Action::CloseProgramAccount { account: ctx.offer_key, destination: ctx.offer_maker });
    assert(actions@ =~= release_escrow(
        ctx.escrowed_maker_tokens,
        ctx.offer_makers_maker_tokens,
        ctx.offer_key,
        ctx.offer.escrowed_maker_tokens_bump,
        ctx.offer_maker,
    ));
    Ok(actions)
}

} // verus!
