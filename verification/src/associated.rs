use vstd::prelude::*;

use crate::address::{derived_address, find_program_address};
use crate::pubkey::Pubkey;

verus! {

/// The bytes of the token program's address.
pub open spec fn token_program_id_bytes() -> Seq<u8> {
    seq![
        6u8, 221, 246, 225, 215, 101, 161, 147, 217, 203, 225, 70, 206, 235, 121, 172,
        28, 180, 133, 237, 95, 91, 55, 145, 58, 140, 245, 133, 126, 255, 0, 169,
    ]
}

/// The bytes of the associated-token program's address.
pub open spec fn associated_token_program_id_bytes() -> Seq<u8> {
    seq![
        140u8, 151, 37, 143, 78, 36, 137, 241, 187, 61, 16, 41, 20, 142, 13, 131,
        11, 90, 19, 153, 218, 255, 16, 132, 4, 142, 123, 216, 219, 233, 248, 89,
    ]
}

/// The token program's address.
pub fn token_program_id() -> (r: Pubkey)
    ensures
        r@ == token_program_id_bytes(),
{
    let r = Pubkey {
        bytes: [
            6u8, 221, 246, 225, 215, 101, 161, 147, 217, 203, 225, 70, 206, 235, 121, 172,
            28, 180, 133, 237, 95, 91, 55, 145, 58, 140, 245, 133, 126, 255, 0, 169,
        ],
    };
    assert(r@ =~= token_program_id_bytes());
    r
}

/// The associated-token program's address.
pub fn associated_token_program_id() -> (r: Pubkey)
    ensures
        r@ == associated_token_program_id_bytes(),
{
    let r = Pubkey {
        bytes: [
            140u8, 151, 37, 143, 78, 36, 137, 241, 187, 61, 16, 41, 20, 142, 13, 131,
            11, 90, 19, 153, 218, 255, 16, 132, 4, 142, 123, 216, 219, 233, 248, 89,
        ],
    };
    assert(r@ =~= associated_token_program_id_bytes());
    r
}

/// The seeds of the associated token account of `wallet` for `mint`: the
/// wallet, the token program and the mint.
pub open spec fn associated_seeds(wallet: Pubkey, mint: Pubkey) -> Seq<Seq<u8>> {
    seq![wallet@, token_program_id_bytes(), mint@]
}

/// The address derived from the associated seeds with `bump`, under the
/// associated-token program.
pub open spec fn associated_derived(wallet: Pubkey, mint: Pubkey, bump: u8) -> Option<Seq<u8>> {
    derived_address(associated_seeds(wallet, mint).push(seq![bump]), associated_token_program_id_bytes())
}

/// Whether `bump` is the canonical bump of the associated seeds: the
/// greatest from which an address derives.
pub open spec fn associated_bump(wallet: Pubkey, mint: Pubkey, bump: u8) -> bool {
    &&& 1 <= bump
    &&& associated_derived(wallet, mint, bump) is Some
    &&& forall|c: u8| bump < c ==> (#[trigger] associated_derived(wallet, mint, c)) is None
}

/// Whether no bump derives an associated token address of `wallet` for `mint`.
pub open spec fn no_associated_address(wallet: Pubkey, mint: Pubkey) -> bool {
    forall|c: u8| 1 <= c ==> (#[trigger] associated_derived(wallet, mint, c)) is None
}

/// Whether `key` is the associated token account of `wallet` for `mint`: the
/// address derived from their seeds with the canonical bump.
pub open spec fn associated_address(key: Pubkey, wallet: Pubkey, mint: Pubkey) -> bool {
    exists|b: u8| associated_bump(wallet, mint, b) && associated_derived(wallet, mint, b) == Some(key@)
}

/// The canonical bump is the only one.
pub proof fn lemma_associated_bump_unique(wallet: Pubkey, mint: Pubkey, b1: u8, b2: u8)
    requires
        associated_bump(wallet, mint, b1),
        associated_bump(wallet, mint, b2),
    ensures
        b1 == b2,
{
    if b1 < b2 {
        assert(associated_derived(wallet, mint, b2) is None);
    } else if b2 < b1 {
        assert(associated_derived(wallet, mint, b1) is None);
    }
}

/// Builds the seeds of an associated token account.
pub fn make_associated_seeds(wallet: &Pubkey, mint: &Pubkey) -> (r: Vec<Vec<u8>>)
    ensures
        r.deep_view() == associated_seeds(*wallet, *mint),
{
    let token = token_program_id();
    let mut r: Vec<Vec<u8>> = Vec::new();
    r.push(vstd::slice::slice_to_vec(wallet.bytes.as_slice()));
    r.push(vstd::slice::slice_to_vec(token.bytes.as_slice()));
    r.push(vstd::slice::slice_to_vec(mint.bytes.as_slice()));
    assert(r.deep_view()[0] =~= wallet@);
    assert(r.deep_view()[1] =~= token_program_id_bytes());
    assert(r.deep_view()[2] =~= mint@);
    assert(r.deep_view() =~= associated_seeds(*wallet, *mint));
    r
}

/// Whether `key` is the associated token account of `wallet` for `mint`, or
/// `None` where no bump derives one.
pub fn check_associated_address(key: &Pubkey, wallet: &Pubkey, mint: &Pubkey) -> (r: Option<bool>)
    ensures
        r == (if no_associated_address(*wallet, *mint) {
            None::<bool>
        } else {
            Some(associated_address(*key, *wallet, *mint))
        }),
{
    let seeds = make_associated_seeds(wallet, mint);
    let ghost s = seeds.deep_view();
    match find_program_address(&seeds, &associated_token_program_id()) {
        Some((k, b)) => {
            assert(associated_derived(*wallet, *mint, b) is Some);
            assert(!no_associated_address(*wallet, *mint));
            assert(associated_bump(*wallet, *mint, b)) by {
                assert forall|c: u8| b < c implies (#[trigger] associated_derived(*wallet, *mint, c)) is None by {
                    assert(derived_address(s.push(seq![c]), associated_token_program_id_bytes()) is None);
                }
            }
            if k.equals(key) {
                assert(associated_address(*key, *wallet, *mint));
                Some(true)
            } else {
                assert(!associated_address(*key, *wallet, *mint)) by {
                    if associated_address(*key, *wallet, *mint) {
                        let c = choose|c: u8|
                            associated_bump(*wallet, *mint, c) && associated_derived(*wallet, *mint, c)
                                == Some(key@);
                        lemma_associated_bump_unique(*wallet, *mint, b, c);
                    }
                }
                Some(false)
            }
        },
        None => {
            assert(no_associated_address(*wallet, *mint)) by {
                assert forall|c: u8| 1 <= c implies (#[trigger] associated_derived(*wallet, *mint, c)) is None by {
                    assert(derived_address(s.push(seq![c]), associated_token_program_id_bytes()) is None);
                }
            }
            None
        },
    }
}

} // verus!
