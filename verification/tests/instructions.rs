use anchor_lang::solana_program::pubkey::Pubkey as SolanaPubkey;
use quidproquo::{
    cancel, id, make, new, to_be_bytes, update_offer, Action, Cancel, Data, EscrowSigner,
    Initialize, Make, Offer, ProgramError, Pubkey, Update, ALREADY_EXPIRED, INVALID_AMOUNT,
    OFFER_EXPIRED,
};
use std::str::FromStr;

fn key(b: u8) -> Pubkey {
    Pubkey::new_from_array([b; 32])
}

fn program() -> SolanaPubkey {
    SolanaPubkey::new_from_array(id().bytes)
}

fn pda(seeds: &[&[u8]]) -> (Pubkey, u8) {
    let (k, b) = SolanaPubkey::find_program_address(seeds, &program());
    (Pubkey::new_from_array(k.to_bytes()), b)
}

const MADE_ON: i64 = 1_650_000_000;

fn maker() -> Pubkey {
    key(1)
}
fn mint() -> Pubkey {
    key(2)
}
fn maker_tokens() -> Pubkey {
    key(3)
}

fn offer_address() -> (Pubkey, u8) {
    pda(&[&maker().bytes, &mint().bytes, &MADE_ON.to_be_bytes()])
}

fn escrow_address(offer: &Pubkey) -> (Pubkey, u8) {
    pda(&[&offer.bytes])
}

fn blank_offer() -> Offer {
    Offer {
        maker: key(0),
        taker_amount: 0,
        mint: key(0),
        escrowed_maker_tokens_bump: 0,
        offer_made_on: 0,
        expired: false,
    }
}

fn listing() -> (Make, u8, u8) {
    let (offer_key, offer_bump) = offer_address();
    let (escrow, escrow_bump) = escrow_address(&offer_key);
    (
        Make {
            offer: blank_offer(),
            offer_key,
            offer_in_use: false,
            offer_maker: maker(),
            offer_maker_signed: true,
            offer_makers_maker_tokens: maker_tokens(),
            offer_makers_maker_tokens_mint: mint(),
            escrowed_maker_tokens: escrow,
            escrowed_maker_tokens_in_use: false,
            maker_mint: mint(),
        },
        escrow_bump,
        offer_bump,
    )
}

fn listed_offer(price: u64) -> Offer {
    let (m, escrow_bump, offer_bump) = listing();
    let mut m = m;
    make(&mut m, escrow_bump, offer_bump, MADE_ON, price).unwrap();
    m.offer
}

fn update_ctx(offer: Offer) -> (Update, u8) {
    let (offer_key, offer_bump) = offer_address();
    (Update { offer, offer_key, offer_maker: maker(), offer_maker_signed: true, maker_mint: mint() }, offer_bump)
}

fn cancel_ctx(offer: Offer) -> (Cancel, u8) {
    let (offer_key, offer_bump) = offer_address();
    let (escrow, _) = escrow_address(&offer_key);
    (
        Cancel {
            offer,
            offer_key,
            offer_maker: maker(),
            offer_maker_signed: true,
            offer_makers_maker_tokens: maker_tokens(),
            maker_mint: mint(),
            escrowed_maker_tokens: escrow,
        },
        offer_bump,
    )
}

#[test]
fn program_id_is_the_declared_one() {
    let declared = SolanaPubkey::from_str("8TmxZ2fp2a4bcpGL2asTGn5oSk1TEuWnxwHkDN13k137").unwrap();
    assert_eq!(id().bytes, declared.to_bytes());
}

#[test]
fn big_endian_bytes_match_std() {
    for v in [0i64, 1, -1, MADE_ON, i64::MIN, i64::MAX, 0x0102_0304_0506_0708] {
        assert_eq!(to_be_bytes(v), v.to_be_bytes().to_vec());
    }
}

#[test]
fn pubkey_equality() {
    assert!(key(7).equals(&key(7)));
    let mut bytes = [7u8; 32];
    bytes[31] = 8;
    assert!(!key(7).equals(&Pubkey::new_from_array(bytes)));
}

#[test]
fn new_records_beneficiary_and_cut() {
    let (data_key, data_bump) = pda(&[b"data"]);
    let mut ctx = Initialize {
        data_acc: Data { market_place: key(0), market_place_cut: 0 },
        data_acc_key: data_key,
        data_acc_in_use: false,
        beneficiary: key(9),
        payer_signed: true,
    };
    assert_eq!(new(&mut ctx, data_bump, 25), Ok(()));
    assert_eq!(ctx.data_acc, Data { market_place: key(9), market_place_cut: 25 });
    assert!(ctx.data_acc_in_use);
}

#[test]
fn new_fails_on_an_existing_configuration() {
    let (data_key, data_bump) = pda(&[b"data"]);
    let mut ctx = Initialize {
        data_acc: Data { market_place: key(0), market_place_cut: 0 },
        data_acc_key: data_key,
        data_acc_in_use: false,
        beneficiary: key(9),
        payer_signed: true,
    };
    new(&mut ctx, data_bump, 25).unwrap();
    ctx.beneficiary = key(66);
    assert_eq!(new(&mut ctx, data_bump, 999), Err(ProgramError::AccountCreation));
    assert_eq!(ctx.data_acc, Data { market_place: key(9), market_place_cut: 25 });
}

#[test]
fn new_needs_the_payers_signature() {
    let (data_key, data_bump) = pda(&[b"data"]);
    let mut ctx = Initialize {
        data_acc: Data { market_place: key(0), market_place_cut: 0 },
        data_acc_key: data_key,
        data_acc_in_use: false,
        beneficiary: key(9),
        payer_signed: false,
    };
    assert_eq!(new(&mut ctx, data_bump, 25), Err(ProgramError::AccountNotSigner));
}

#[test]
fn new_refuses_a_configuration_account_off_its_address() {
    let (data_key, data_bump) = pda(&[b"data"]);
    let mut ctx = Initialize {
        data_acc: Data { market_place: key(0), market_place_cut: 0 },
        data_acc_key: key(5),
        data_acc_in_use: false,
        beneficiary: key(9),
        payer_signed: true,
    };
    assert_eq!(new(&mut ctx, data_bump, 25), Err(ProgramError::AccountCreation));
    assert_eq!(ctx.data_acc, Data { market_place: key(0), market_place_cut: 0 });
    ctx.data_acc_key = data_key;
    assert_eq!(new(&mut ctx, data_bump.wrapping_sub(1), 25), Err(ProgramError::ConstraintSeeds));
}

#[test]
fn make_lists_the_nft() {
    let (mut ctx, escrow_bump, offer_bump) = listing();
    let actions = make(&mut ctx, escrow_bump, offer_bump, MADE_ON, 5_000).unwrap();
    assert_eq!(
        ctx.offer,
        Offer {
            maker: maker(),
            taker_amount: 5_000,
            mint: mint(),
            escrowed_maker_tokens_bump: escrow_bump,
            offer_made_on: MADE_ON,
            expired: false,
        }
    );
    assert_eq!(
        actions,
        vec![
            Action::CreateTokenAccount {
                account: ctx.escrowed_maker_tokens,
                mint: mint(),
                authority: ctx.escrowed_maker_tokens,
                payer: maker(),
            },
            Action::TokenTransfer {
                from: maker_tokens(),
                to: ctx.escrowed_maker_tokens,
                authority: maker(),
                amount: 1,
                signer: None,
            },
        ]
    );
    assert!(ctx.offer_in_use && ctx.escrowed_maker_tokens_in_use);
}

#[test]
fn make_fails_over_an_existing_offer() {
    let (mut ctx, escrow_bump, offer_bump) = listing();
    make(&mut ctx, escrow_bump, offer_bump, MADE_ON, 5_000).unwrap();
    let before = ctx;
    assert_eq!(make(&mut ctx, escrow_bump, offer_bump, MADE_ON, 1), Err(ProgramError::AccountCreation));
    assert_eq!(ctx, before);
}

#[test]
fn make_needs_the_sellers_signature() {
    let (mut ctx, escrow_bump, offer_bump) = listing();
    ctx.offer_maker_signed = false;
    assert_eq!(make(&mut ctx, escrow_bump, offer_bump, MADE_ON, 5_000), Err(ProgramError::AccountNotSigner));
}

#[test]
fn make_checks_the_escrow_before_the_mint() {
    let (mut ctx, escrow_bump, offer_bump) = listing();
    ctx.offer_makers_maker_tokens_mint = key(4);
    assert_eq!(
        make(&mut ctx, escrow_bump.wrapping_sub(1), offer_bump, MADE_ON, 5_000),
        Err(ProgramError::ConstraintSeeds)
    );
}

#[test]
fn make_refuses_a_token_account_of_another_mint() {
    let (mut ctx, escrow_bump, offer_bump) = listing();
    ctx.offer_makers_maker_tokens_mint = key(4);
    assert_eq!(make(&mut ctx, escrow_bump, offer_bump, MADE_ON, 5_000), Err(ProgramError::ConstraintRaw));
    assert_eq!(ctx.offer, blank_offer());
}

#[test]
fn make_refuses_a_wrong_time_stamp() {
    let (mut ctx, escrow_bump, offer_bump) = listing();
    assert_eq!(
        make(&mut ctx, escrow_bump, offer_bump, MADE_ON + 1, 5_000),
        Err(ProgramError::AccountCreation)
    );
}

#[test]
fn update_changes_only_the_price() {
    let offer = listed_offer(5_000);
    let (mut ctx, bump) = update_ctx(offer);
    assert_eq!(update_offer(&mut ctx, bump, MADE_ON, 7_000), Ok(()));
    assert_eq!(ctx.offer, Offer { taker_amount: 7_000, ..offer });
}

#[test]
fn update_refuses_a_zero_price() {
    let offer = listed_offer(5_000);
    let (mut ctx, bump) = update_ctx(offer);
    assert_eq!(update_offer(&mut ctx, bump, MADE_ON, 0), Err(ProgramError::Custom(INVALID_AMOUNT)));
    assert_eq!(ctx.offer, offer);
}

#[test]
fn update_refuses_an_expired_offer() {
    let offer = Offer { expired: true, ..listed_offer(5_000) };
    let (mut ctx, bump) = update_ctx(offer);
    assert_eq!(update_offer(&mut ctx, bump, MADE_ON, 7_000), Err(ProgramError::Custom(OFFER_EXPIRED)));
    assert_eq!(OFFER_EXPIRED, 0x12);
    assert_eq!(ctx.offer, offer);
}

#[test]
fn update_refuses_another_seller() {
    let offer = Offer { maker: key(8), ..listed_offer(5_000) };
    let (mut ctx, bump) = update_ctx(offer);
    assert_eq!(update_offer(&mut ctx, bump, MADE_ON, 7_000), Err(ProgramError::ConstraintRaw));
}

#[test]
fn update_refuses_an_offer_off_its_address() {
    let offer = listed_offer(5_000);
    let (mut ctx, bump) = update_ctx(offer);
    ctx.offer_key = key(6);
    assert_eq!(update_offer(&mut ctx, bump, MADE_ON, 7_000), Err(ProgramError::ConstraintSeeds));
}

#[test]
fn cancel_returns_the_nft_and_closes_the_escrow() {
    let offer = listed_offer(5_000);
    let (mut ctx, bump) = cancel_ctx(offer);
    let actions = cancel(&mut ctx, bump, MADE_ON).unwrap();
    assert!(ctx.offer.expired);
    let signer = Some(EscrowSigner { offer: ctx.offer_key, bump: offer.escrowed_maker_tokens_bump });
    assert_eq!(
        actions,
        vec![
            Action::TokenTransfer {
                from: ctx.escrowed_maker_tokens,
                to: maker_tokens(),
                authority: ctx.escrowed_maker_tokens,
                amount: 1,
                signer,
            },
            Action::CloseAccount {
                account: ctx.escrowed_maker_tokens,
                destination: maker(),
                authority: ctx.escrowed_maker_tokens,
                signer,
            },
            Action::CloseProgramAccount { account: ctx.offer_key, destination: maker() },
        ]
    );
}

#[test]
fn cancel_twice_fails() {
    let offer = listed_offer(5_000);
    let (mut ctx, bump) = cancel_ctx(offer);
    assert!(cancel(&mut ctx, bump, MADE_ON).is_ok());
    assert_eq!(cancel(&mut ctx, bump, MADE_ON), Err(ProgramError::Custom(ALREADY_EXPIRED)));
    let (mut update, bump) = update_ctx(ctx.offer);
    assert_eq!(update_offer(&mut update, bump, MADE_ON, 9), Err(ProgramError::Custom(OFFER_EXPIRED)));
}

#[test]
fn cancel_refuses_a_wrong_escrow_bump() {
    let offer = listed_offer(5_000);
    let offer = Offer { escrowed_maker_tokens_bump: offer.escrowed_maker_tokens_bump.wrapping_sub(1), ..offer };
    let (mut ctx, bump) = cancel_ctx(offer);
    assert_eq!(cancel(&mut ctx, bump, MADE_ON), Err(ProgramError::ConstraintSeeds));
    assert!(!ctx.offer.expired);
}

#[test]
fn only_the_signing_seller_can_reprice_or_cancel() {
    let offer = listed_offer(5_000);
    let (mut u, bump) = update_ctx(offer);
    u.offer_maker_signed = false;
    assert_eq!(update_offer(&mut u, bump, MADE_ON, 7_000), Err(ProgramError::AccountNotSigner));
    assert_eq!(u.offer, offer);
    let (mut c, bump) = cancel_ctx(offer);
    c.offer_maker_signed = false;
    assert_eq!(cancel(&mut c, bump, MADE_ON), Err(ProgramError::AccountNotSigner));
    assert!(!c.offer.expired);
}
