use vstd::prelude::*;

use crate::pubkey::Pubkey;
use crate::state::ProgramError;
use metaplex_token_metadata::state::{Key, Metadata, MAX_METADATA_LEN};
use metaplex_token_metadata::utils::try_from_slice_checked;

verus! {

/// A creator of an NFT, as its metadata lists it.
#[derive(Clone, Copy, Debug, PartialEq, Eq)]
pub struct Creator {
    pub address: Pubkey,
    pub verified: bool,
    /// The creator's part of the royalties, in percent.
    pub share: u8,
}

/// What a sale reads of an NFT's metadata.
#[derive(Debug, PartialEq, Eq)]
pub struct MetadataInfo {
    /// The royalty, in hundredths of a percent of the sale price.
    pub seller_fee_basis_points: u16,
    pub creators: Option<Vec<Creator>>,
}

/// The mathematical value of a `MetadataInfo`.
pub struct MetadataView {
    pub seller_fee_basis_points: u16,
    pub creators: Option<Seq<Creator>>,
}

impl View for MetadataInfo {
    type V = MetadataView;

    open spec fn view(&self) -> MetadataView {
        MetadataView {
            seller_fee_basis_points: self.seller_fee_basis_points,
            creators: match self.creators {
                Some(v) => Some(v@),
                None => None,
            },
        }
    }
}

/// The metadata account of the NFT on sale.
#[derive(Debug, PartialEq, Eq)]
pub struct MetadataAccount {
    pub owner: Pubkey,
    pub lamports: u64,
    pub data: Vec<u8>,
}

/// The size of a metadata account of the first version.
pub const METADATA_LEN: usize = 679;

/// What the metadata program's decoder reads from the bytes of a metadata
/// account, or `None` where it refuses them.
pub uninterp spec fn decoded_metadata(data: Seq<u8>) -> Option<MetadataView>;

/// Decodes metadata with `metaplex_token_metadata::utils::try_from_slice_checked`
/// (what `Metadata::from_account_info` does with an account's data). Its
/// result is `decoded_metadata` of the bytes; it refuses any data that is not
/// of the metadata size or whose first byte marks neither metadata nor an
/// uninitialized account. It indexes the first byte, so empty data is left out.
#[verifier::external_body]
fn decode_metadata(data: &[u8]) -> (r: Option<MetadataInfo>)
    requires
        data@.len() > 0,
    ensures
        r matches Some(m) ==> decoded_metadata(data@) == Some(m@),
        r is None ==> decoded_metadata(data@) is None,
        r is Some ==> data@.len() == METADATA_LEN && (data@[0] == 4 || data@[0] == 0),
{
    match try_from_slice_checked::<Metadata>(data, Key::MetadataV1, MAX_METADATA_LEN) {
        Ok(md) => Some(MetadataInfo {
            seller_fee_basis_points: md.data.seller_fee_basis_points,
            creators: md.data.creators.map(|cs| cs.iter().map(|c| Creator {
                address: Pubkey { bytes: c.address.to_bytes() },
                verified: c.verified,
                share: c.share,
            }).collect()),
        }),
        Err(_) => None,
    }
}

/// Whether the metadata account is an empty system account, which a sale
/// treats as metadata without royalties.
pub open spec fn metadata_absent(account: MetadataAccount, system_program: Pubkey) -> bool {
    account.owner@ == system_program@ && account.lamports == 0
}

/// What a sale learns of the NFT's metadata: nothing for an empty system
/// account, an abort for an account without data, else what the decoder
/// reads (nothing where it refuses the data).
pub open spec fn metadata_outcome(account: MetadataAccount, system_program: Pubkey) -> Result<
    Option<MetadataView>,
    ProgramError,
> {
    if metadata_absent(account, system_program) {
        Ok(None)
    } else if account.data@.len() == 0 {
        Err(ProgramError::Aborted)
    } else {
        Ok(decoded_metadata(account.data@))
    }
}

/// The view of an optional `MetadataInfo`.
pub open spec fn opt_metadata_view(m: Option<MetadataInfo>) -> Option<MetadataView> {
    match m {
        Some(v) => Some(v@),
        None => None,
    }
}

/// Reads the royalty terms of the NFT on sale from its metadata account.
pub fn read_metadata(account: &MetadataAccount, system_program: &Pubkey) -> (r: Result<
    Option<MetadataInfo>,
    ProgramError,
>)
    ensures
        match r {
            Ok(m) => metadata_outcome(*account, *system_program) == Ok::<
                Option<MetadataView>,
                ProgramError,
            >(opt_metadata_view(m)),
            Err(e) => metadata_outcome(*account, *system_program) == Err::<
                Option<MetadataView>,
                ProgramError,
            >(e),
        },
{
    if account.owner.equals(system_program) && account.lamports == 0 {
        return Ok(None);
    }
    if account.data.len() == 0 {
        return Err(ProgramError::Aborted);
    }
    Ok(decode_metadata(account.data.as_slice()))
}

} // verus!
