use vstd::prelude::*;

use crate::instructions::{escrow_validation, release_escrow, validate_escrow};
use crate::metadata::{
    metadata_outcome, opt_metadata_view, read_metadata, Creator, MetadataAccount, MetadataInfo,
    MetadataView,
};
use crate::associated::{associated_address, check_associated_address, no_associated_address};
use crate::pubkey::Pubkey;
use crate::state::{Action, Data, EscrowSigner, Offer, ProgramError, WRONG_PAYEE};

verus! {

/// What the buyer's token account for the NFT is before a sale.
#[derive(Clone, Copy, Debug, PartialEq, Eq)]
pub enum TokenAccountState {
    /// It still belongs to the system program: the sale creates it.
    Uncreated,
    /// A token account of `mint` whose owner is `owner`.
    Token { mint: Pubkey, owner: Pubkey },
    /// It belongs to another program, or is not a token account.
    Invalid,
}

/// The accounts of `accept`, with which a buyer pays for a listed NFT.
#[derive(Debug, PartialEq, Eq)]
pub struct Accept {
    pub offer: Offer,
    /// The address of the offer account.
    pub offer_key: Pubkey,
    pub escrowed_maker_tokens: Pubkey,
    pub maker_mint: Pubkey,
    pub offer_maker: Pubkey,
    /// The buyer, who pays every lamport transfer.
    pub offer_taker: Pubkey,
    /// Whether the buyer signed.
    pub offer_taker_signed: bool,
    /// The buyer's token account for the NFT.
    pub offer_takers_maker_tokens: Pubkey,
    /// What that account is before the sale.
    pub offer_takers_maker_tokens_state: TokenAccountState,
    pub token_metadata_account: MetadataAccount,
    pub market_maker: Pubkey,
    pub system_program: Pubkey,
    pub data_acc: Data,
    pub creator0: Pubkey,
    pub creator1: Pubkey,
    pub creator2: Pubkey,
    pub creator3: Pubkey,
    pub creator4: Pubkey,
}

/// The marketplace's cut of a sale: `cut` tenths of a percent of `price`,
/// rounded down.
pub open spec fn market_fee(cut: u64, price: u64) -> int {
    (cut * price) / 1000
}

/// The creators' royalty on a sale: `basis_points` hundredths of a percent of
/// `price`, rounded down.
pub open spec fn royalty_fee(basis_points: u16, price: u64) -> int {
    (basis_points * price) / 10000
}

/// The royalty rate that a sale applies: the metadata's, or none without
/// metadata.
pub open spec fn fee_basis_points(m: Option<MetadataView>) -> u16 {
    match m {
        Some(v) => v.seller_fee_basis_points,
        None => 0,
    }
}

/// A creator's payment out of `royalty`: `share` percent of it, rounded down.
pub open spec fn creator_fee(royalty: int, share: u8) -> int {
    (royalty * share) / 100
}

/// How many creators a sale pays: the first five at most.
pub open spec fn paid_creator_count(creators: Seq<Creator>) -> int {
    if creators.len() < 5 {
        creators.len() as int
    } else {
        5
    }
}

impl Accept {
    /// The marketplace's cut of this sale.
    pub open spec fn market_cut(self) -> int {
        market_fee(self.data_acc.market_place_cut, self.offer.taker_amount)
    }

    /// The creators' royalty on this sale.
    pub open spec fn royalty_cut(self, m: Option<MetadataView>) -> int {
        royalty_fee(fee_basis_points(m), self.offer.taker_amount)
    }

    /// What the seller receives: the price less both cuts.
    pub open spec fn seller_proceeds(self, m: Option<MetadataView>) -> int {
        self.offer.taker_amount - self.market_cut() - self.royalty_cut(m)
    }

    /// Whether the sale's arithmetic stays within 64 bits and the cuts do not
    /// exceed the price; the instruction aborts where it does not.
    pub open spec fn settlement_fits(self, m: Option<MetadataView>) -> bool {
        &&& self.data_acc.market_place_cut * self.offer.taker_amount <= u64::MAX
        &&& fee_basis_points(m) * self.offer.taker_amount <= u64::MAX
        &&& self.market_cut() + self.royalty_cut(m) <= self.offer.taker_amount
    }

    /// The account that the `y`-th creator of the metadata must be. The fifth
    /// creator is checked against `creator1`, the second creator account,
    /// while `paid_creator` pays it to `creator4`, the fifth.
    pub open spec fn checked_creator(self, y: int) -> Pubkey {
        if y == 0 {
            self.creator0
        } else if y == 1 {
            self.creator1
        } else if y == 2 {
            self.creator2
        } else if y == 3 {
            self.creator3
        } else {
            self.creator1
        }
    }

    /// The account to which the `y`-th creator's payment goes.
    pub open spec fn paid_creator(self, y: int) -> Pubkey {
        if y == 0 {
            self.creator0
        } else if y == 1 {
            self.creator1
        } else if y == 2 {
            self.creator2
        } else if y == 3 {
            self.creator3
        } else {
            self.creator4
        }
    }

    /// Whether each paid creator of the metadata is the account given for it.
    pub open spec fn creators_match(self, creators: Seq<Creator>) -> bool {
        forall|y: int|
            0 <= y < paid_creator_count(creators) ==> (#[trigger] creators[y]).address@
                == self.checked_creator(y)@
    }

    /// The royalty payments, one per paid creator, in the metadata's order.
    pub open spec fn royalty_transfers(self, creators: Seq<Creator>, royalty: int) -> Seq<Action> {
        Seq::new(
            paid_creator_count(creators) as nat,
            |y: int|
                Action::SystemTransfer {
                    from: self.offer_taker,
                    to: self.paid_creator(y),
                    lamports: creator_fee(royalty, creators[y].share) as u64,
                },
        )
    }

    /// The creators that a sale pays: those of the metadata, where there is a
    /// royalty to share.
    pub open spec fn royalty_creators(self, m: Option<MetadataView>) -> Option<Seq<Creator>> {
        if self.royalty_cut(m) > 0 {
            match m {
                Some(v) => v.creators,
                None => None,
            }
        } else {
            None
        }
    }

    /// The buyer's first two payments: the seller's proceeds, then the
    /// marketplace's cut.
    pub open spec fn sale_transfers(self, m: Option<MetadataView>) -> Seq<Action> {
        seq![
            Action::SystemTransfer {
                from: self.offer_taker,
                to: self.offer_maker,
                lamports: self.seller_proceeds(m) as u64,
            },
            Action::SystemTransfer {
                from: self.offer_taker,
                to: self.market_maker,
                lamports: self.market_cut() as u64,
            },
        ]
    }

    /// The NFT's way out of escrow to the buyer, the escrow's closing and the
    /// offer's closing.
    pub open spec fn delivery(self) -> Seq<Action> {
        release_escrow(
            self.escrowed_maker_tokens,
            self.offer_takers_maker_tokens,
            self.offer_key,
            self.offer.escrowed_maker_tokens_bump,
            self.offer_maker,
        )
    }

    /// The outcome of a sale whose arithmetic fits, given the metadata read.
    pub open spec fn settlement(self, m: Option<MetadataView>) -> Result<Seq<Action>, ProgramError> {
        if self.market_maker@ != self.data_acc.market_place@ {
            Err(ProgramError::Custom(WRONG_PAYEE))
        } else {
            match self.royalty_creators(m) {
                Some(cs) => if self.creators_match(cs) {
                    Ok(self.sale_transfers(m) + self.royalty_transfers(cs, self.royalty_cut(m))
                        + self.delivery())
                } else {
                    Err(ProgramError::Custom(WRONG_PAYEE))
                },
                None => Ok(self.sale_transfers(m) + self.delivery()),
            }
        }
    }

    /// The outcome of checking the buyer's token account, and the action
    /// that creates it where it does not exist: it must be, or become, the
    /// associated token account of the buyer for the mint on sale.
    pub open spec fn buyer_account_outcome(self) -> Result<Seq<Action>, ProgramError> {
        let key = self.offer_takers_maker_tokens;
        let wallet = self.offer_taker;
        let mint = self.maker_mint;
        match self.offer_takers_maker_tokens_state {
            TokenAccountState::Uncreated => if no_associated_address(wallet, mint) {
                Err(ProgramError::Aborted)
            } else if associated_address(key, wallet, mint) {
                Ok(
                    seq![
                        Action::CreateAssociatedTokenAccount {
                            account: key,
                            wallet,
                            mint,
                            payer: wallet,
                        },
                    ],
                )
            } else {
                Err(ProgramError::AccountCreation)
            },
            TokenAccountState::Token { mint: m, owner } => if m@ != mint@ {
                Err(ProgramError::ConstraintTokenMint)
            } else if owner@ != wallet@ {
                Err(ProgramError::ConstraintTokenOwner)
            } else if no_associated_address(wallet, mint) {
                Err(ProgramError::Aborted)
            } else if !associated_address(key, wallet, mint) {
                Err(ProgramError::AccountNotAssociatedTokenAccount)
            } else {
                Ok(Seq::<Action>::empty())
            },
            TokenAccountState::Invalid => Err(ProgramError::InvalidTokenAccount),
        }
    }

    /// The actions that the check of the buyer's token account asks for.
    pub open spec fn buyer_account_actions(self) -> Seq<Action> {
        match self.buyer_account_outcome() {
            Ok(a) => a,
            Err(_) => Seq::<Action>::empty(),
        }
    }

    /// The outcome of checking the accounts of `accept`: the buyer signs;
    /// the buyer's token account is, or is created as, the buyer's associated
    /// token account for the mint; then the offer and its escrow are checked
    /// as for `cancel`, except that the seller need not sign.
    pub open spec fn validation(self, offer_bump: u8, offer_made_on: i64) -> Result<(), ProgramError> {
        if !self.offer_taker_signed {
            Err(ProgramError::AccountNotSigner)
        } else {
            match self.buyer_account_outcome() {
                Err(e) => Err(e),
                Ok(_) => escrow_validation(
                    self.offer,
                    self.offer_key,
                    self.offer_maker,
                    true,
                    self.maker_mint,
                    self.escrowed_maker_tokens,
                    offer_bump,
                    offer_made_on,
                ),
            }
        }
    }

    /// Checks the accounts of `accept`.
    pub fn validate(&self, offer_bump: u8, offer_made_on: i64) -> (r: Result<(), ProgramError>)
        ensures
            r == self.validation(offer_bump, offer_made_on),
    {
        if !self.offer_taker_signed {
            return Err(ProgramError::AccountNotSigner);
        }
        match check_buyer_account(self) {
            Err(e) => return Err(e),
            Ok(_) => {},
        }
        validate_escrow(
            &self.offer,
            &self.offer_key,
            &self.offer_maker,
            true,
            &self.maker_mint,
            &self.escrowed_maker_tokens,
            offer_bump,
            offer_made_on,
        )
    }

    /// The outcome of a sale once its accounts are checked: the metadata is
    /// read, the arithmetic must fit, and the sale settles.
    pub open spec fn sale_outcome(self) -> Result<Seq<Action>, ProgramError> {
        match metadata_outcome(self.token_metadata_account, self.system_program) {
            Err(e) => Err(e),
            Ok(m) => if self.settlement_fits(m) {
                self.settlement(m)
            } else {
                Err(ProgramError::Aborted)
            },
        }
    }

    /// The outcome of `accept` on these accounts.
    pub open spec fn accept_outcome(self, offer_bump: u8, offer_made_on: i64) -> Result<
        Seq<Action>,
        ProgramError,
    > {
        match self.validation(offer_bump, offer_made_on) {
            Err(e) => Err(e),
            Ok(_) => match self.sale_outcome() {
                Err(e) => Err(e),
                Ok(a) => Ok(self.buyer_account_actions() + a),
            },
        }
    }
}

/// Checks the buyer's token account.
fn check_buyer_account(ctx: &Accept) -> (r: Result<(), ProgramError>)
    ensures
        r == (match ctx.buyer_account_outcome() {
            Ok(_) => Ok::<(), ProgramError>(()),
            Err(e) => Err(e),
        }),
{
    let key = &ctx.offer_takers_maker_tokens;
    let wallet = &ctx.offer_taker;
    let mint = &ctx.maker_mint;
    match ctx.offer_takers_maker_tokens_state {
        TokenAccountState::Uncreated => match check_associated_address(key, wallet, mint) {
            None => Err(ProgramError::Aborted),
            Some(true) => Ok(()),
            Some(false) => Err(ProgramError::AccountCreation),
        },
        TokenAccountState::Token { mint: m, owner } => {
            if !m.equals(mint) {
                return Err(ProgramError::ConstraintTokenMint);
            }
            if !owner.equals(wallet) {
                return Err(ProgramError::ConstraintTokenOwner);
            }
            match check_associated_address(key, wallet, mint) {
                None => Err(ProgramError::Aborted),
                Some(true) => Ok(()),
                Some(false) => Err(ProgramError::AccountNotAssociatedTokenAccount),
            }
        },
        TokenAccountState::Invalid => Err(ProgramError::InvalidTokenAccount),
    }
}

/// The account that the `y`-th creator must be.
fn checked_creator_at(ctx: &Accept, y: usize) -> (r: Pubkey)
    ensures
        r == ctx.checked_creator(y as int),
{
    if y == 0 {
        ctx.creator0
    } else if y == 1 {
        ctx.creator1
    } else if y == 2 {
        ctx.creator2
    } else if y == 3 {
        ctx.creator3
    } else {
        ctx.creator1
    }
}

/// The account that the `y`-th creator's payment goes to.
fn paid_creator_at(ctx: &Accept, y: usize) -> (r: Pubkey)
    ensures
        r == ctx.paid_creator(y as int),
{
    if y == 0 {
        ctx.creator0
    } else if y == 1 {
        ctx.creator1
    } else if y == 2 {
        ctx.creator2
    } else if y == 3 {
        ctx.creator3
    } else {
        ctx.creator4
    }
}

/// Appends the royalty payments to `actions`, or fails where a paid creator
/// is not the account given for it.
fn pay_creators(ctx: &Accept, creators: &Vec<Creator>, royalty: u64, actions: &mut Vec<Action>) -> (r:
    bool)
    requires
        royalty <= u64::MAX / 10000,
    ensures
        r == ctx.creators_match(creators@),
        r ==> final(actions)@ == old(actions)@ + ctx.royalty_transfers(creators@, royalty as int),
{
    let n: usize = if creators.len() < 5 {
        creators.len()
    } else {
        5
    };
    let ghost start = actions@;
    let mut y: usize = 0;
    while y < n
        invariant
            n == paid_creator_count(creators@),
            y <= n,
            royalty <= u64::MAX / 10000,
            actions@ == start + ctx.royalty_transfers(creators@, royalty as int).take(y as int),
            forall|j: int| 0 <= j < y ==> (#[trigger] creators@[j]).address@ == ctx.checked_creator(j)@,
        decreases n - y,
    {
        let c = creators[y];
        let expected = checked_creator_at(ctx, y);
        if !c.address.equals(&expected) {
            assert(!ctx.creators_match(creators@)) by {
                assert(creators@[y as int] == c);
            }
            return false;
        }
        let share = c.share as u64;
        assert(royalty * share <= u64::MAX) by (nonlinear_arith)
            requires
                royalty <= u64::MAX / 10000,
                share <= 255,
        ;
        let lamports = royalty * share / 100;
        actions.push(Action::SystemTransfer { from: ctx.offer_taker, to: paid_creator_at(ctx, y), lamports });
        assert(ctx.royalty_transfers(creators@, royalty as int).take(y + 1) =~= ctx.royalty_transfers(
            creators@,
            royalty as int,
        ).take(y as int).push(ctx.royalty_transfers(creators@, royalty as int)[y as int]));
        y = y + 1;
    }
    assert(ctx.royalty_transfers(creators@, royalty as int).take(n as int) =~= ctx.royalty_transfers(
        creators@,
        royalty as int,
    ));
    true
}

/// Settles a sale whose arithmetic fits: checks that the marketplace account
/// is the configured one and that each paid creator is the account given for
/// it, and lists the payments and the NFT's delivery, in order.
pub fn settle_accept(ctx: &Accept, metadata: &Option<MetadataInfo>) -> (r: Result<
    Vec<Action>,
    ProgramError,
>)
    requires
        ctx.settlement_fits(opt_metadata_view(*metadata)),
    ensures
        match r {
            Ok(actions) => ctx.settlement(opt_metadata_view(*metadata)) == Ok::<
                Seq<Action>,
                ProgramError,
            >(actions@),
            Err(e) => ctx.settlement(opt_metadata_view(*metadata)) == Err::<
                Seq<Action>,
                ProgramError,
            >(e),
        },
{
    let ghost m = opt_metadata_view(*metadata);
    let price = ctx.offer.taker_amount;
    let market_cut = ctx.data_acc.market_place_cut * price / 1000;
    let sfb: u16 = match metadata {
        Some(info) => info.seller_fee_basis_points,
        None => 0,
    };
    assert(sfb == fee_basis_points(m));
    let sfb_cut = (sfb as u64) * price / 10000;
    assert(sfb_cut <= u64::MAX / 10000) by (nonlinear_arith)
        requires
            sfb_cut == (sfb as u64) * price / 10000,
            (sfb as u64) * price <= u64::MAX,
    ;
    let seller_amount = price - (market_cut + sfb_cut);
    if !ctx.market_maker.equals(&ctx.data_acc.market_place) {
        return Err(ProgramError::Custom(WRONG_PAYEE));
    }
    let mut actions: Vec<Action> = Vec::new();
    actions.push(Action::SystemTransfer { from: ctx.offer_taker, to: ctx.offer_maker, lamports: seller_amount });
    actions.push(Action::SystemTransfer { from: ctx.offer_taker, to: ctx.market_maker, lamports: market_cut });
    assert(actions@ =~= ctx.sale_transfers(m));
    if sfb_cut > 0 {
        match metadata {
            Some(info) => match &info.creators {
                Some(creators) => {
                    assert(ctx.royalty_creators(m) == Some(creators@));
                    if !pay_creators(ctx, creators, sfb_cut, &mut actions) {
                        return Err(ProgramError::Custom(WRONG_PAYEE));
                    }
                },
                None => {},
            },
            None => {},
        }
    }
    let signer = Some(EscrowSigner { offer: ctx.offer_key, bump: ctx.offer.escrowed_maker_tokens_bump });
    let ghost before = actions@;
    actions.push(
        Action::TokenTransfer {
            from: ctx.escrowed_maker_tokens,
            to: ctx.offer_takers_maker_tokens,
            authority: ctx.escrowed_maker_tokens,
            amount: 1,
            signer,
        },
    );
    actions.push(
        Action::CloseAccount {
            account: ctx.escrowed_maker_tokens,
            destination: ctx.offer_maker,
            authority: ctx.escrowed_maker_tokens,
            signer,
        },
    );
    actions.push(Action::CloseProgramAccount { account: ctx.offer_key, destination: ctx.offer_maker });
    assert(actions@ =~= before + ctx.delivery());
    Ok(actions)
}

/// Buys a listed NFT: the buyer pays the seller, the marketplace and the
/// creators, the NFT leaves escrow for the buyer and the offer expires.
pub fn accept(ctx: &mut Accept, offer_bump: u8, offer_made_on: i64) -> (r: Result<
    Vec<Action>,
    ProgramError,
>)
    ensures
        match r {
            Ok(actions) => {
                &&& old(ctx).accept_outcome(offer_bump, offer_made_on) == Ok::<Seq<Action>, ProgramError>(actions@)
                &&& *final(ctx) == (Accept {
                    offer: Offer { expired: true, ..old(ctx).offer },
                    ..*old(ctx)
                })
            },
            Err(e) => {
                &&& old(ctx).accept_outcome(offer_bump, offer_made_on) == Err::<Seq<Action>, ProgramError>(e)
                &&& *final(ctx) == *old(ctx)
            },
        },
{
    match ctx.validate(offer_bump, offer_made_on) {
        Err(e) => return Err(e),
        Ok(_) => {},
    }
    let metadata = match read_metadata(&ctx.token_metadata_account, &ctx.system_program) {
        Ok(m) => m,
        Err(e) => return Err(e),
    };
    let ghost m = opt_metadata_view(metadata);
    let price = ctx.offer.taker_amount;
    let market_cut = match ctx.data_acc.market_place_cut.checked_mul(price) {
        Some(v) => v / 1000,
        None => return Err(ProgramError::Aborted),
    };
    let sfb: u64 = match &metadata {
        Some(info) => info.seller_fee_basis_points as u64,
        None => 0,
    };
    assert(sfb == fee_basis_points(m));
    let sfb_cut = match sfb.checked_mul(price) {
        Some(v) => v / 10000,
        None => return Err(ProgramError::Aborted),
    };
    if market_cut + sfb_cut > price {
        return Err(ProgramError::Aborted);
    }
    let mut settled = match settle_accept(ctx, &metadata) {
        Ok(a) => a,
        Err(e) => return Err(e),
    };
    let mut actions: Vec<Action> = Vec::new();
    match ctx.offer_takers_maker_tokens_state {
        TokenAccountState::Uncreated => {
            actions.push(
                Action::CreateAssociatedTokenAccount {
                    account: ctx.offer_takers_maker_tokens,
                    wallet: ctx.offer_taker,
                    mint: ctx.maker_mint,
                    payer: ctx.offer_taker,
                },
            );
        },
        _ => {},
    }
    assert(actions@ =~= ctx.buyer_account_actions());
    actions.append(&mut settled);
    ctx.offer.expired = true;
    Ok(actions)
}

} // verus!
