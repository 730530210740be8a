use vstd::prelude::*;

use crate::pubkey::Pubkey;
use crate::state::ProgramError;

verus! {

/// The bytes of this program's address.
pub open spec fn program_id_bytes() -> Seq<u8> {
    seq![
        110u8, 221, 190, 83, 158, 167, 212, 162, 104, 81, 240, 204, 71, 140, 170, 66,
        112, 217, 252, 133, 50, 173, 222, 57, 42, 119, 134, 88, 212, 61, 203, 146,
    ]
}

/// This program's address.
pub fn id() -> (r: Pubkey)
    ensures
        r@ == program_id_bytes(),
{
    let r = Pubkey {
        bytes: [
            110u8, 221, 190, 83, 158, 167, 212, 162, 104, 81, 240, 204, 71, 140, 170, 66,
            112, 217, 252, 133, 50, 173, 222, 57, 42, 119, 134, 88, 212, 61, 203, 146,
        ],
    };
    assert(r@ =~= program_id_bytes());
    r
}

/// The address that the runtime derives from `seeds` for `program_id`, or
/// `None` where it derives none.
pub uninterp spec fn derived_address(seeds: Seq<Seq<u8>>, program_id: Seq<u8>) -> Option<Seq<u8>>;

/// Derives a program address with
/// `solana_program::pubkey::Pubkey::create_program_address`. Its result is
/// `derived_address` of the seeds and the program's address; the function
/// derives none from more than 16 seeds or from a seed longer than 32 bytes.
#[verifier::external_body]
fn program_address(seeds: &Vec<Vec<u8>>, program_id: &Pubkey) -> (r: Option<Pubkey>)
    ensures
        r matches Some(k) ==> derived_address(seeds.deep_view(), program_id@) == Some(k@),
        r is None ==> derived_address(seeds.deep_view(), program_id@) is None,
        r is Some ==> seeds@.len() <= 16 && forall|i: int|
            0 <= i < seeds@.len() ==> (#[trigger] seeds@[i])@.len() <= 32,
{
    let refs: Vec<&[u8]> = seeds.iter().map(|s| s.as_slice()).collect();
    let program = anchor_lang::solana_program::pubkey::Pubkey::new_from_array(program_id.bytes);
    match anchor_lang::solana_program::pubkey::Pubkey::create_program_address(&refs, &program) {
        Ok(k) => Some(Pubkey { bytes: k.to_bytes() }),
        Err(_) => None,
    }
}

/// Finds the canonical bump of `seeds` with
/// `solana_program::pubkey::Pubkey::try_find_program_address`, which tries the
/// bumps from 255 down to 1 and returns the first one from which
/// `create_program_address` derives an address, with that address; it
/// returns `None` where it derives none from any of them (it stops early only
/// on seeds too many or too long, from which no bump derives an address).
#[verifier::external_body]
pub(crate) fn find_program_address(seeds: &Vec<Vec<u8>>, program_id: &Pubkey) -> (r: Option<(Pubkey, u8)>)
    ensures
        r matches Some((k, b)) ==> 1 <= b && derived_address(
            seeds.deep_view().push(seq![b]),
            program_id@,
        ) == Some(k@),
        r matches Some((k, b)) ==> forall|c: u8|
            b < c ==> (#[trigger] derived_address(seeds.deep_view().push(seq![c]), program_id@))
                is None,
        r is None ==> forall|c: u8|
            1 <= c ==> (#[trigger] derived_address(seeds.deep_view().push(seq![c]), program_id@))
                is None,
{
    let refs: Vec<&[u8]> = seeds.iter().map(|s| s.as_slice()).collect();
    let program = anchor_lang::solana_program::pubkey::Pubkey::new_from_array(program_id.bytes);
    match anchor_lang::solana_program::pubkey::Pubkey::try_find_program_address(&refs, &program) {
        Some((k, b)) => Some((Pubkey { bytes: k.to_bytes() }, b)),
        None => None,
    }
}

/// The big-endian bytes of an `i64`.
pub open spec fn be_bytes(v: i64) -> Seq<u8> {
    let u = v as u64;
    seq![
        (u >> 56u64) as u8,
        (u >> 48u64) as u8,
        (u >> 40u64) as u8,
        (u >> 32u64) as u8,
        (u >> 24u64) as u8,
        (u >> 16u64) as u8,
        (u >> 8u64) as u8,
        u as u8,
    ]
}

/// The big-endian bytes of `v`.
pub fn to_be_bytes(v: i64) -> (r: Vec<u8>)
    ensures
        r@ == be_bytes(v),
{
    let u = v as u64;
    let r = vec![
        (u >> 56u64) as u8,
        (u >> 48u64) as u8,
        (u >> 40u64) as u8,
        (u >> 32u64) as u8,
        (u >> 24u64) as u8,
        (u >> 16u64) as u8,
        (u >> 8u64) as u8,
        u as u8,
    ];
    assert(r@ =~= be_bytes(v));
    r
}

/// The seeds of an offer's address: the seller, the mint and the time stamp.
pub open spec fn offer_seeds(maker: Pubkey, mint: Pubkey, offer_made_on: i64) -> Seq<Seq<u8>> {
    seq![maker@, mint@, be_bytes(offer_made_on)]
}

/// The seeds of an escrow token account's address: its offer's address.
pub open spec fn escrow_seeds(offer_key: Pubkey) -> Seq<Seq<u8>> {
    seq![offer_key@]
}

/// The seeds of the configuration account's address: the word "data".
pub open spec fn data_seeds() -> Seq<Seq<u8>> {
    seq![seq![100u8, 97, 116, 97]]
}

/// Builds the seeds of an offer's address.
pub fn make_offer_seeds(maker: &Pubkey, mint: &Pubkey, offer_made_on: i64) -> (r: Vec<Vec<u8>>)
    ensures
        r.deep_view() == offer_seeds(*maker, *mint, offer_made_on),
{
    let mut r: Vec<Vec<u8>> = Vec::new();
    r.push(vstd::slice::slice_to_vec(maker.bytes.as_slice()));
    r.push(vstd::slice::slice_to_vec(mint.bytes.as_slice()));
    r.push(to_be_bytes(offer_made_on));
    assert(r.deep_view()[0] =~= maker@);
    assert(r.deep_view()[1] =~= mint@);
    assert(r.deep_view()[2] =~= be_bytes(offer_made_on));
    assert(r.deep_view() =~= offer_seeds(*maker, *mint, offer_made_on));
    r
}

/// Builds the seeds of an escrow token account's address.
pub fn make_escrow_seeds(offer_key: &Pubkey) -> (r: Vec<Vec<u8>>)
    ensures
        r.deep_view() == escrow_seeds(*offer_key),
{
    let mut r: Vec<Vec<u8>> = Vec::new();
    r.push(vstd::slice::slice_to_vec(offer_key.bytes.as_slice()));
    assert(r.deep_view()[0] =~= offer_key@);
    assert(r.deep_view() =~= escrow_seeds(*offer_key));
    r
}

/// Builds the seeds of the configuration account's address.
pub fn make_data_seeds() -> (r: Vec<Vec<u8>>)
    ensures
        r.deep_view() == data_seeds(),
{
    let mut r: Vec<Vec<u8>> = Vec::new();
    r.push(vec![100u8, 97, 116, 97]);
    assert(r.deep_view()[0] =~= seq![100u8, 97, 116, 97]);
    assert(r.deep_view() =~= data_seeds());
    r
}

/// Whether `key` is the address derived from `seeds` with `bump`.
pub open spec fn at_address(key: Pubkey, seeds: Seq<Seq<u8>>, bump: u8) -> bool {
    derived_address(seeds.push(seq![bump]), program_id_bytes()) == Some(key@)
}

/// Whether `bump` is the canonical bump of `seeds`: the greatest from which
/// an address derives.
pub open spec fn canonical_bump(seeds: Seq<Seq<u8>>, bump: u8) -> bool {
    &&& 1 <= bump
    &&& derived_address(seeds.push(seq![bump]), program_id_bytes()) is Some
    &&& forall|c: u8|
        bump < c ==> (#[trigger] derived_address(seeds.push(seq![c]), program_id_bytes())) is None
}

/// Whether no bump from 1 to 255 derives an address from `seeds`.
pub open spec fn no_address(seeds: Seq<Seq<u8>>) -> bool {
    forall|c: u8|
        1 <= c ==> (#[trigger] derived_address(seeds.push(seq![c]), program_id_bytes())) is None
}

/// The outcome of checking an existing account's address.
pub open spec fn address_outcome(key: Pubkey, seeds: Seq<Seq<u8>>, bump: u8) -> Result<(), ProgramError> {
    if at_address(key, seeds, bump) {
        Ok(())
    } else {
        Err(ProgramError::ConstraintSeeds)
    }
}

/// Whether `key` is the canonical address of `seeds`: the one derived with
/// their canonical bump.
pub open spec fn canonical_address(key: Pubkey, seeds: Seq<Seq<u8>>) -> bool {
    exists|b: u8| canonical_bump(seeds, b) && at_address(key, seeds, b)
}

/// The outcome of creating an account at the canonical address of `seeds`,
/// as an `init` account declaration does, and of checking its bump. The
/// instruction aborts where the seeds have no address. The system program
/// refuses to create the account where it is already in use (it holds data
/// or belongs to another program) or is not at that address, for which the
/// program signs. Last, `bump` must be the canonical bump.
pub open spec fn init_address_outcome(key: Pubkey, seeds: Seq<Seq<u8>>, bump: u8, in_use: bool) -> Result<
    (),
    ProgramError,
> {
    if no_address(seeds) {
        Err(ProgramError::Aborted)
    } else if in_use || !canonical_address(key, seeds) {
        Err(ProgramError::AccountCreation)
    } else if canonical_bump(seeds, bump) && at_address(key, seeds, bump) {
        Ok(())
    } else {
        Err(ProgramError::ConstraintSeeds)
    }
}

/// The canonical bump of `seeds` is the only one.
pub proof fn lemma_canonical_bump_unique(seeds: Seq<Seq<u8>>, b1: u8, b2: u8)
    requires
        canonical_bump(seeds, b1),
        canonical_bump(seeds, b2),
    ensures
        b1 == b2,
{
    if b1 < b2 {
        assert(derived_address(seeds.push(seq![b2]), program_id_bytes()) is None);
    } else if b2 < b1 {
        assert(derived_address(seeds.push(seq![b1]), program_id_bytes()) is None);
    }
}

/// Checks that `key` is the address derived from `seeds` with `bump`.
pub fn check_address(key: &Pubkey, seeds: Vec<Vec<u8>>, bump: u8) -> (r: Result<(), ProgramError>)
    ensures
        r == address_outcome(*key, seeds.deep_view(), bump),
{
    let ghost s = seeds.deep_view();
    let mut seeds = seeds;
    seeds.push(vec![bump]);
    assert(seeds.deep_view()[s.len() as int] =~= seq![bump]);
    assert(seeds.deep_view() =~= s.push(seq![bump]));
    match program_address(&seeds, &id()) {
        Some(k) => if k.equals(key) {
            Ok(())
        } else {
            Err(ProgramError::ConstraintSeeds)
        },
        None => Err(ProgramError::ConstraintSeeds),
    }
}

/// Creates, in the model, an account at the canonical address of `seeds`
/// and checks that `bump` is their canonical bump.
pub fn check_init_address(key: &Pubkey, seeds: &Vec<Vec<u8>>, bump: u8, in_use: bool) -> (r: Result<
    (),
    ProgramError,
>)
    ensures
        r == init_address_outcome(*key, seeds.deep_view(), bump, in_use),
{
    let ghost s = seeds.deep_view();
    match find_program_address(seeds, &id()) {
        Some((k, b)) => {
            assert(!no_address(s)) by {
                assert(derived_address(s.push(seq![b]), program_id_bytes()) is Some);
            }
            assert(canonical_bump(s, b));
            if in_use {
                return Err(ProgramError::AccountCreation);
            }
            if !k.equals(key) {
                assert(!canonical_address(*key, s)) by {
                    if canonical_address(*key, s) {
                        let c = choose|c: u8| canonical_bump(s, c) && at_address(*key, s, c);
                        lemma_canonical_bump_unique(s, b, c);
                    }
                }
                return Err(ProgramError::AccountCreation);
            }
            assert(at_address(*key, s, b));
            assert(canonical_address(*key, s));
            if b == bump {
                Ok(())
            } else {
                assert(!canonical_bump(s, bump)) by {
                    if canonical_bump(s, bump) {
                        lemma_canonical_bump_unique(s, b, bump);
                    }
                }
                Err(ProgramError::ConstraintSeeds)
            }
        },
        None => Err(ProgramError::Aborted),
    }
}

} // verus!
