use anchor_lang::solana_program::pubkey::Pubkey as SolanaPubkey;
use quidproquo::accept::TokenAccountState;
use quidproquo::{
    associated_token_program_id, check_associated_address, token_program_id,
    accept, cancel, id, make, update_offer, Cancel, Update, ALREADY_EXPIRED, OFFER_EXPIRED, read_metadata, settle_accept, Accept, Action, Creator, Data, EscrowSigner,
    Make, MetadataAccount, MetadataInfo, Offer, ProgramError, Pubkey, METADATA_LEN, WRONG_PAYEE,
};

fn key(b: u8) -> Pubkey {
    Pubkey::new_from_array([b; 32])
}

fn pda(seeds: &[&[u8]]) -> (Pubkey, u8) {
    let program = SolanaPubkey::new_from_array(id().bytes);
    let (k, b) = SolanaPubkey::find_program_address(seeds, &program);
    (Pubkey::new_from_array(k.to_bytes()), b)
}

const MADE_ON: i64 = 1_650_000_123;
const PRICE: u64 = 1_000_000;

fn maker() -> Pubkey {
    key(1)
}
fn mint() -> Pubkey {
    key(2)
}
fn taker() -> Pubkey {
    key(10)
}

fn sol(k: &Pubkey) -> SolanaPubkey {
    SolanaPubkey::new_from_array(k.bytes)
}

/// The buyer's associated token account for the mint.
fn buyer_tokens() -> Pubkey {
    let ata = anchor_spl::associated_token::get_associated_token_address(&sol(&taker()), &sol(&mint()));
    Pubkey::new_from_array(ata.to_bytes())
}
fn market() -> Pubkey {
    key(20)
}
fn creator(i: u8) -> Pubkey {
    key(40 + i)
}

/// Lists the NFT with `make` and returns the listed offer, its address, its
/// bump and the escrow's address.
fn listed(price: u64) -> (Offer, Pubkey, u8, Pubkey) {
    let (offer_key, offer_bump) = pda(&[&maker().bytes, &mint().bytes, &MADE_ON.to_be_bytes()]);
    let (escrow, escrow_bump) = pda(&[&offer_key.bytes]);
    let mut ctx = Make {
        offer: Offer {
            maker: key(0),
            taker_amount: 0,
            mint: key(0),
            escrowed_maker_tokens_bump: 0,
            offer_made_on: 0,
            expired: false,
        },
        offer_key,
        offer_in_use: false,
        offer_maker: maker(),
        offer_maker_signed: true,
        offer_makers_maker_tokens: key(3),
        offer_makers_maker_tokens_mint: mint(),
        escrowed_maker_tokens: escrow,
        escrowed_maker_tokens_in_use: false,
        maker_mint: mint(),
    };
    make(&mut ctx, escrow_bump, offer_bump, MADE_ON, price).unwrap();
    (ctx.offer, offer_key, offer_bump, escrow)
}

fn metadata_bytes(fee: u16, creators: Option<&[(Pubkey, bool, u8)]>) -> Vec<u8> {
    let mut d = vec![4u8];
    d.extend([7u8; 32]);
    d.extend(mint().bytes);
    for s in ["Name", "SYM", "https://example.com/nft.json"] {
        d.extend((s.len() as u32).to_le_bytes());
        d.extend(s.as_bytes());
    }
    d.extend(fee.to_le_bytes());
    match creators {
        None => d.push(0),
        Some(cs) => {
            d.push(1);
            d.extend((cs.len() as u32).to_le_bytes());
            for (address, verified, share) in cs {
                d.extend(address.bytes);
                d.push(*verified as u8);
                d.push(*share);
            }
        }
    }
    d.push(0);
    d.push(1);
    d.push(0);
    d.resize(METADATA_LEN, 0);
    d
}

fn metadata_account(data: Vec<u8>) -> MetadataAccount {
    MetadataAccount { owner: key(30), lamports: 5_616_720, data }
}

fn empty_system_account() -> MetadataAccount {
    MetadataAccount { owner: key(0), lamports: 0, data: vec![] }
}

fn accept_ctx(price: u64, cut: u64, metadata: MetadataAccount) -> (Accept, u8) {
    let (offer, offer_key, offer_bump, escrow) = listed(price);
    (
        Accept {
            offer,
            offer_key,
            escrowed_maker_tokens: escrow,
            maker_mint: mint(),
            offer_maker: maker(),
            offer_taker: taker(),
            offer_taker_signed: true,
            offer_takers_maker_tokens: buyer_tokens(),
            offer_takers_maker_tokens_state: TokenAccountState::Token { mint: mint(), owner: taker() },
            token_metadata_account: metadata,
            market_maker: market(),
            system_program: key(0),
            data_acc: Data { market_place: market(), market_place_cut: cut },
            creator0: creator(0),
            creator1: creator(1),
            creator2: creator(2),
            creator3: creator(3),
            creator4: creator(4),
        },
        offer_bump,
    )
}

fn pay(to: Pubkey, lamports: u64) -> Action {
    Action::SystemTransfer { from: taker(), to, lamports }
}

fn delivery(ctx: &Accept) -> Vec<Action> {
    let signer = Some(EscrowSigner { offer: ctx.offer_key, bump: ctx.offer.escrowed_maker_tokens_bump });
    vec![
        Action::TokenTransfer {
            from: ctx.escrowed_maker_tokens,
            to: buyer_tokens(),
            authority: ctx.escrowed_maker_tokens,
            amount: 1,
            signer,
        },
        Action::CloseAccount {
            account: ctx.escrowed_maker_tokens,
            destination: maker(),
            authority: ctx.escrowed_maker_tokens,
            signer,
        },
        Action::CloseProgramAccount { account: ctx.offer_key, destination: maker() },
    ]
}

fn lamports_paid(actions: &[Action]) -> u64 {
    actions
        .iter()
        .map(|a| match a {
            Action::SystemTransfer { lamports, .. } => *lamports,
            _ => 0,
        })
        .sum()
}

#[test]
fn metadata_size_is_the_metadata_programs() {
    assert_eq!(METADATA_LEN, metaplex_token_metadata::state::MAX_METADATA_LEN);
}

#[test]
fn read_metadata_decodes_fee_and_creators() {
    let data = metadata_bytes(250, Some(&[(creator(0), true, 70), (creator(1), false, 30)]));
    let info = read_metadata(&metadata_account(data), &key(0)).unwrap().unwrap();
    assert_eq!(
        info,
        MetadataInfo {
            seller_fee_basis_points: 250,
            creators: Some(vec![
                Creator { address: creator(0), verified: true, share: 70 },
                Creator { address: creator(1), verified: false, share: 30 },
            ]),
        }
    );
}

#[test]
fn read_metadata_refuses_data_of_another_size() {
    let mut data = metadata_bytes(250, None);
    data.push(0);
    assert_eq!(read_metadata(&metadata_account(data), &key(0)), Ok(None));
}

#[test]
fn read_metadata_skips_an_empty_system_account() {
    assert_eq!(read_metadata(&empty_system_account(), &key(0)), Ok(None));
}

#[test]
fn read_metadata_aborts_on_an_account_without_data() {
    assert_eq!(read_metadata(&metadata_account(vec![]), &key(0)), Err(ProgramError::Aborted));
}

#[test]
fn accept_without_royalties() {
    let (mut ctx, bump) = accept_ctx(PRICE, 25, empty_system_account());
    let actions = accept(&mut ctx, bump, MADE_ON).unwrap();
    let mut expected = vec![pay(maker(), 975_000), pay(market(), 25_000)];
    expected.extend(delivery(&ctx));
    assert_eq!(actions, expected);
    assert!(ctx.offer.expired);
    assert_eq!(lamports_paid(&actions), PRICE);
}

#[test]
fn accept_pays_the_creators() {
    let data = metadata_bytes(500, Some(&[(creator(0), true, 60), (creator(1), false, 40)]));
    let (mut ctx, bump) = accept_ctx(PRICE, 25, metadata_account(data));
    let actions = accept(&mut ctx, bump, MADE_ON).unwrap();
    let mut expected = vec![
        pay(maker(), 925_000),
        pay(market(), 25_000),
        pay(creator(0), 30_000),
        pay(creator(1), 20_000),
    ];
    expected.extend(delivery(&ctx));
    assert_eq!(actions, expected);
    assert_eq!(lamports_paid(&actions), PRICE);
}

#[test]
fn accept_rounds_each_cut_down() {
    let data = metadata_bytes(333, Some(&[(creator(0), true, 33), (creator(1), true, 67)]));
    let (mut ctx, bump) = accept_ctx(12_345, 17, metadata_account(data));
    let actions = accept(&mut ctx, bump, MADE_ON).unwrap();
    // market: 17 * 12345 / 1000 = 209; royalty: 333 * 12345 / 10000 = 411
    let mut expected = vec![
        pay(maker(), 12_345 - 209 - 411),
        pay(market(), 209),
        pay(creator(0), 411 * 33 / 100),
        pay(creator(1), 411 * 67 / 100),
    ];
    expected.extend(delivery(&ctx));
    assert_eq!(actions, expected);
    assert!(lamports_paid(&actions) <= 12_345);
}

#[test]
fn accept_refuses_another_market_account() {
    let (mut ctx, bump) = accept_ctx(PRICE, 25, empty_system_account());
    ctx.market_maker = key(21);
    assert_eq!(accept(&mut ctx, bump, MADE_ON), Err(ProgramError::Custom(WRONG_PAYEE)));
    assert!(!ctx.offer.expired);
}

#[test]
fn accept_refuses_a_creator_account_that_is_not_the_listed_one() {
    let data = metadata_bytes(500, Some(&[(creator(0), true, 60), (creator(1), false, 40)]));
    let (mut ctx, bump) = accept_ctx(PRICE, 25, metadata_account(data));
    ctx.creator1 = key(50);
    assert_eq!(accept(&mut ctx, bump, MADE_ON), Err(ProgramError::Custom(WRONG_PAYEE)));
    assert!(!ctx.offer.expired);
}

#[test]
fn accept_checks_the_fifth_creator_against_the_second_account() {
    let cs = [
        (creator(0), true, 20),
        (creator(1), true, 20),
        (creator(2), true, 20),
        (creator(3), true, 20),
        (creator(1), true, 20),
    ];
    let (mut ctx, bump) = accept_ctx(PRICE, 0, metadata_account(metadata_bytes(1000, Some(&cs))));
    let actions = accept(&mut ctx, bump, MADE_ON).unwrap();
    assert_eq!(actions[6], pay(creator(4), 20_000));
    let cs = [
        (creator(0), true, 20),
        (creator(1), true, 20),
        (creator(2), true, 20),
        (creator(3), true, 20),
        (creator(4), true, 20),
    ];
    let (mut ctx, bump) = accept_ctx(PRICE, 0, metadata_account(metadata_bytes(1000, Some(&cs))));
    assert_eq!(accept(&mut ctx, bump, MADE_ON), Err(ProgramError::Custom(WRONG_PAYEE)));
}

#[test]
fn accept_pays_at_most_five_creators() {
    let mut cs: Vec<(Pubkey, bool, u8)> =
        (0..4).map(|i| (creator(i), true, 10)).collect();
    cs.push((creator(1), true, 10));
    cs.push((key(99), true, 50));
    let (mut ctx, bump) = accept_ctx(PRICE, 0, metadata_account(metadata_bytes(1000, Some(&cs))));
    let actions = accept(&mut ctx, bump, MADE_ON).unwrap();
    assert_eq!(actions.len(), 2 + 5 + 3);
}

#[test]
fn accept_ignores_creators_when_the_royalty_rounds_to_zero() {
    let data = metadata_bytes(1, Some(&[(key(99), true, 100)]));
    let (mut ctx, bump) = accept_ctx(100, 25, metadata_account(data));
    let actions = accept(&mut ctx, bump, MADE_ON).unwrap();
    let mut expected = vec![pay(maker(), 98), pay(market(), 2)];
    expected.extend(delivery(&ctx));
    assert_eq!(actions, expected);
}

#[test]
fn accept_treats_undecodable_metadata_as_no_royalty() {
    let mut data = metadata_bytes(500, Some(&[(creator(0), true, 100)]));
    data[0] = 3;
    let (mut ctx, bump) = accept_ctx(PRICE, 25, metadata_account(data));
    let actions = accept(&mut ctx, bump, MADE_ON).unwrap();
    assert_eq!(actions[0], pay(maker(), 975_000));
    assert_eq!(actions.len(), 5);
}

#[test]
fn accept_aborts_on_a_metadata_account_without_data() {
    let (mut ctx, bump) = accept_ctx(PRICE, 25, metadata_account(vec![]));
    assert_eq!(accept(&mut ctx, bump, MADE_ON), Err(ProgramError::Aborted));
    assert!(!ctx.offer.expired);
}

#[test]
fn accept_aborts_when_the_cut_overflows() {
    let (mut ctx, bump) = accept_ctx(u64::MAX / 2, 3, empty_system_account());
    assert_eq!(accept(&mut ctx, bump, MADE_ON), Err(ProgramError::Aborted));
}

#[test]
fn accept_aborts_when_the_cuts_exceed_the_price() {
    let data = metadata_bytes(9_000, None);
    let (mut ctx, bump) = accept_ctx(PRICE, 200, metadata_account(data));
    assert_eq!(accept(&mut ctx, bump, MADE_ON), Err(ProgramError::Aborted));
}

#[test]
fn accept_refuses_another_seller() {
    let (mut ctx, bump) = accept_ctx(PRICE, 25, empty_system_account());
    ctx.offer_maker = key(8);
    assert_eq!(accept(&mut ctx, bump, MADE_ON), Err(ProgramError::ConstraintSeeds));
    let (mut ctx, bump) = accept_ctx(PRICE, 25, empty_system_account());
    ctx.offer.maker = key(8);
    assert_eq!(accept(&mut ctx, bump, MADE_ON), Err(ProgramError::ConstraintRaw));
}

#[test]
fn settle_accept_with_given_metadata() {
    let (ctx, _) = accept_ctx(PRICE, 25, empty_system_account());
    let metadata = Some(MetadataInfo {
        seller_fee_basis_points: 1000,
        creators: Some(vec![Creator { address: creator(0), verified: true, share: 100 }]),
    });
    let actions = settle_accept(&ctx, &metadata).unwrap();
    assert_eq!(&actions[..3], &[pay(maker(), 875_000), pay(market(), 25_000), pay(creator(0), 100_000)]);
}

#[test]
fn buyer_pays_more_than_the_price_when_shares_exceed_the_whole() {
    let data = metadata_bytes(1000, Some(&[(creator(0), true, 200)]));
    let (mut ctx, bump) = accept_ctx(PRICE, 0, metadata_account(data));
    let actions = accept(&mut ctx, bump, MADE_ON).unwrap();
    assert_eq!(lamports_paid(&actions), PRICE + 100_000);
}

#[test]
fn sold_offer_can_be_neither_cancelled_nor_repriced() {
    let (mut ctx, bump) = accept_ctx(PRICE, 25, empty_system_account());
    accept(&mut ctx, bump, MADE_ON).unwrap();
    let mut c = Cancel {
        offer: ctx.offer,
        offer_key: ctx.offer_key,
        offer_maker: maker(),
        offer_maker_signed: true,
        offer_makers_maker_tokens: key(3),
        maker_mint: mint(),
        escrowed_maker_tokens: ctx.escrowed_maker_tokens,
    };
    assert_eq!(cancel(&mut c, bump, MADE_ON), Err(ProgramError::Custom(ALREADY_EXPIRED)));
    let mut u = Update { offer: ctx.offer, offer_key: ctx.offer_key, offer_maker: maker(), offer_maker_signed: true, maker_mint: mint() };
    assert_eq!(update_offer(&mut u, bump, MADE_ON, 5), Err(ProgramError::Custom(OFFER_EXPIRED)));
}

#[test]
fn repriced_offer_sells_at_the_new_price() {
    let (mut ctx, bump) = accept_ctx(PRICE, 25, empty_system_account());
    let mut u = Update { offer: ctx.offer, offer_key: ctx.offer_key, offer_maker: maker(), offer_maker_signed: true, maker_mint: mint() };
    update_offer(&mut u, bump, MADE_ON, 2_000_000).unwrap();
    ctx.offer = u.offer;
    let actions = accept(&mut ctx, bump, MADE_ON).unwrap();
    assert_eq!(&actions[..2], &[pay(maker(), 1_950_000), pay(market(), 50_000)]);
}

#[test]
fn accept_needs_the_buyers_signature() {
    let (mut ctx, bump) = accept_ctx(PRICE, 25, empty_system_account());
    ctx.offer_taker_signed = false;
    assert_eq!(accept(&mut ctx, bump, MADE_ON), Err(ProgramError::AccountNotSigner));
    assert!(!ctx.offer.expired);
}

#[test]
fn program_ids_are_the_token_programs() {
    assert_eq!(token_program_id().bytes, anchor_spl::token::ID.to_bytes());
    assert_eq!(associated_token_program_id().bytes, anchor_spl::associated_token::ID.to_bytes());
}

#[test]
fn associated_address_matches_the_associated_token_program() {
    assert_eq!(check_associated_address(&buyer_tokens(), &taker(), &mint()), Some(true));
    assert_eq!(check_associated_address(&key(11), &taker(), &mint()), Some(false));
}

#[test]
fn accept_creates_the_buyers_token_account_where_missing() {
    let (mut ctx, bump) = accept_ctx(PRICE, 25, empty_system_account());
    ctx.offer_takers_maker_tokens_state = TokenAccountState::Uncreated;
    let actions = accept(&mut ctx, bump, MADE_ON).unwrap();
    let mut expected = vec![
        Action::CreateAssociatedTokenAccount {
            account: buyer_tokens(),
            wallet: taker(),
            mint: mint(),
            payer: taker(),
        },
        pay(maker(), 975_000),
        pay(market(), 25_000),
    ];
    expected.extend(delivery(&ctx));
    assert_eq!(actions, expected);
}

#[test]
fn accept_refuses_a_buyer_account_that_is_not_the_associated_one() {
    let (mut ctx, bump) = accept_ctx(PRICE, 25, empty_system_account());
    ctx.offer_takers_maker_tokens = key(11);
    assert_eq!(accept(&mut ctx, bump, MADE_ON), Err(ProgramError::AccountNotAssociatedTokenAccount));
    ctx.offer_takers_maker_tokens_state = TokenAccountState::Uncreated;
    assert_eq!(accept(&mut ctx, bump, MADE_ON), Err(ProgramError::AccountCreation));
    assert!(!ctx.offer.expired);
}

#[test]
fn accept_refuses_a_buyer_account_of_another_mint_or_owner() {
    let (mut ctx, bump) = accept_ctx(PRICE, 25, empty_system_account());
    ctx.offer_takers_maker_tokens_state = TokenAccountState::Token { mint: key(12), owner: taker() };
    assert_eq!(accept(&mut ctx, bump, MADE_ON), Err(ProgramError::ConstraintTokenMint));
    ctx.offer_takers_maker_tokens_state = TokenAccountState::Token { mint: mint(), owner: key(12) };
    assert_eq!(accept(&mut ctx, bump, MADE_ON), Err(ProgramError::ConstraintTokenOwner));
    ctx.offer_takers_maker_tokens_state = TokenAccountState::Invalid;
    assert_eq!(accept(&mut ctx, bump, MADE_ON), Err(ProgramError::InvalidTokenAccount));
}

#[test]
fn escrow_keeps_the_nft_across_repricing() {
    let (ctx, bump) = accept_ctx(PRICE, 25, empty_system_account());
    let listed = ctx.offer;
    let mut offer = listed;
    for price in [7u64, 0, 12, 3] {
        let mut u = Update { offer, offer_key: ctx.offer_key, offer_maker: maker(), offer_maker_signed: true, maker_mint: mint() };
        let _ = update_offer(&mut u, bump, MADE_ON, price);
        offer = u.offer;
    }
    assert_eq!(offer, Offer { taker_amount: 3, ..listed });
    let mut c = Cancel {
        offer,
        offer_key: ctx.offer_key,
        offer_maker: maker(),
        offer_maker_signed: true,
        offer_makers_maker_tokens: key(3),
        maker_mint: mint(),
        escrowed_maker_tokens: ctx.escrowed_maker_tokens,
    };
    let actions = cancel(&mut c, bump, MADE_ON).unwrap();
    assert_eq!(
        actions[0],
        Action::TokenTransfer {
            from: ctx.escrowed_maker_tokens,
            to: key(3),
            authority: ctx.escrowed_maker_tokens,
            amount: 1,
            signer: Some(EscrowSigner { offer: ctx.offer_key, bump: listed.escrowed_maker_tokens_bump }),
        }
    );
}
