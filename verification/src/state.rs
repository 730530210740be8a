use vstd::prelude::*;

use crate::pubkey::Pubkey;

verus! {

/// The marketplace's configuration account.
#[derive(Clone, Copy, Debug, PartialEq, Eq)]
pub struct Data {
    /// The account that receives the marketplace's cut of every sale.
    pub market_place: Pubkey,
    /// The marketplace's cut, in tenths of a percent of the sale price.
    pub market_place_cut: u64,
}

/// An NFT listed for sale: the token sits in an escrow account until the
/// offer is accepted or cancelled.
#[derive(Clone, Copy, Debug, PartialEq, Eq)]
pub struct Offer {
    /// The seller.
    pub maker: Pubkey,
    /// The asking price, in lamports.
    pub taker_amount: u64,
    /// The mint of the NFT for sale.
    pub mint: Pubkey,
    /// The bump seed of the escrow token account's address.
    pub escrowed_maker_tokens_bump: u8,
    /// The time stamp that, with the maker and the mint, names the offer.
    pub offer_made_on: i64,
    /// Set once the offer has been accepted or cancelled.
    pub expired: bool,
}

/// Why an instruction fails.
#[derive(Clone, Copy, Debug, PartialEq, Eq)]
pub enum ProgramError {
    /// A program-defined error code.
    Custom(u32),
    /// An account failed a `constraint` of its instruction.
    ConstraintRaw,
    /// An account is not at the address that its seeds and bump derive.
    ConstraintSeeds,
    /// An account that must sign the transaction did not.
    AccountNotSigner,
    /// An account cannot be created: it is already in use, or it is not at
    /// the address for which the creating program signs.
    AccountCreation,
    /// A token account holds another mint than the one required.
    ConstraintTokenMint,
    /// A token account belongs to another owner than the one required.
    ConstraintTokenOwner,
    /// A token account is not the associated token account of its owner for
    /// its mint.
    AccountNotAssociatedTokenAccount,
    /// An account that must be a token account is not one.
    InvalidTokenAccount,
    /// The instruction aborts: its arithmetic overflows, or the metadata
    /// account holds no data where it must be read.
    Aborted,
}

/// Error code of `update_offer` for a zero price.
pub const INVALID_AMOUNT: u32 = 0x11;

/// Error code of `cancel` for an offer that has already expired.
pub const ALREADY_EXPIRED: u32 = 0x11;

/// Error code of `update_offer` for an offer that has expired.
pub const OFFER_EXPIRED: u32 = 0x12;

/// Error code of `accept` for a payee that is not the one the offer names.
pub const WRONG_PAYEE: u32 = 0x1;

/// The seeds with which the escrow token account signs: the offer's address
/// and the escrow's bump.
#[derive(Clone, Copy, Debug, PartialEq, Eq)]
pub struct EscrowSigner {
    pub offer: Pubkey,
    pub bump: u8,
}

/// A transfer, or an account's creation or closing, that an instruction asks
/// for, in the order given.
#[derive(Clone, Copy, Debug, PartialEq, Eq)]
pub enum Action {
    /// Create a token account of `mint` whose owner (authority) is
    /// `authority`, paid for by `payer`.
    CreateTokenAccount { account: Pubkey, mint: Pubkey, authority: Pubkey, payer: Pubkey },
    /// Create the associated token account of `wallet` for `mint`, paid for
    /// by `payer`.
    CreateAssociatedTokenAccount { account: Pubkey, wallet: Pubkey, mint: Pubkey, payer: Pubkey },
    /// Move lamports between system accounts.
    SystemTransfer { from: Pubkey, to: Pubkey, lamports: u64 },
    /// Move tokens between token accounts.
    TokenTransfer {
        from: Pubkey,
        to: Pubkey,
        authority: Pubkey,
        amount: u64,
        signer: Option<EscrowSigner>,
    },
    /// Close a token account and send its rent to `destination`.
    CloseAccount {
        account: Pubkey,
        destination: Pubkey,
        authority: Pubkey,
        signer: Option<EscrowSigner>,
    },
    /// Close an account of this program: its lamports go to `destination`
    /// and its data is cleared.
    CloseProgramAccount { account: Pubkey, destination: Pubkey },
}

} // verus!
