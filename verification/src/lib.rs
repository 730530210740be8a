//! Verified core of an NFT escrow marketplace: offers are listed, repriced,
//! cancelled or accepted, and the accept path splits the buyer's payment
//! between the seller, the marketplace and the creators of the NFT.
//!
//! Each instruction checks its accounts, decides, updates the accounts it
//! owns and returns the transfers that the runtime must then carry out, in
//! order. A failed instruction leaves its accounts as they were.

pub mod accept;
pub mod address;
pub mod associated;
pub mod instructions;
pub mod laws;
pub mod metadata;
pub mod pubkey;
pub mod sale_laws;
pub mod state;

pub use accept::{accept, settle_accept, Accept};
pub use associated::{associated_token_program_id, check_associated_address, make_associated_seeds, token_program_id};
pub use address::{
    check_address, check_init_address, id, make_data_seeds, make_escrow_seeds, make_offer_seeds,
    to_be_bytes,
};
pub use instructions::{
    cancel, make, new, update_offer, validate_escrow, validate_offer, Cancel, Initialize, Make,
    Update,
};
pub use metadata::{read_metadata, Creator, MetadataAccount, MetadataInfo, METADATA_LEN};
pub use pubkey::Pubkey;
pub use state::{
    Action, Data, EscrowSigner, Offer, ProgramError, ALREADY_EXPIRED, INVALID_AMOUNT,
    OFFER_EXPIRED, WRONG_PAYEE,
};
