use std::collections::HashMap;

use soffer::{
    AcceptAccounts, AccountView, Authority, CancelAccounts, CounterAccounts, CounterTerms,
    CreateAccounts, CreateTerms, Effect, Key, Offer, OfferStatus, OfferType, Outcome, Processor,
    SwapError,
};
use solana_program::program_pack::Pack;
use solana_program::pubkey::Pubkey;
use spl_token::state::{Account as TokenAccount, AccountState, Mint};

const PROGRAM: [u8; 32] = [9; 32];
const RENT: u64 = 2;
const ASSET_A: u8 = 0xA1;
const ASSET_B: u8 = 0xB2;
const TAKER: u8 = 0x77;

fn key(b: u8) -> Key {
    Key::new([b; 32])
}

fn program() -> Key {
    Key::new(PROGRAM)
}

fn native() -> Key {
    Key::new([0; 32])
}

fn token_program() -> Key {
    Key::new(spl_token::id().to_bytes())
}

fn view(key: Key, is_signer: bool, lamports: u64, owner: Key, data: Vec<u8>) -> AccountView {
    AccountView { key, is_signer, is_writable: true, owner, lamports, data }
}

fn token_data(mint: Key, owner: Key, amount: u64) -> Vec<u8> {
    let account = TokenAccount {
        mint: Pubkey::new_from_array(mint.bytes),
        owner: Pubkey::new_from_array(owner.bytes),
        amount,
        state: AccountState::Initialized,
        ..TokenAccount::default()
    };
    let mut data = vec![0u8; TokenAccount::LEN];
    TokenAccount::pack(account, &mut data).unwrap();
    data
}

fn mint_data(decimals: u8) -> Vec<u8> {
    let mint = Mint { decimals, is_initialized: true, ..Mint::default() };
    let mut data = vec![0u8; Mint::LEN];
    Mint::pack(mint, &mut data).unwrap();
    data
}

/// The address and salt of an offer, where some salt is the canonical bump of
/// its own seed tuple.
fn derive(maker: Key, offer_mint: Key, receive_mint: Key) -> Option<(Key, u8)> {
    let program_id = Pubkey::new_from_array(PROGRAM);
    for salt in (0..=255u8).rev() {
        let seeds: [&[u8]; 5] =
            [b"offer", &maker.bytes, &offer_mint.bytes, &receive_mint.bytes, &[salt]];
        let (address, bump) = Pubkey::find_program_address(&seeds, &program_id);
        if bump == salt {
            return Some((Key::new(address.to_bytes()), salt));
        }
    }
    None
}

/// A maker identity for which an offer of `offer_mint` for `receive_mint`
/// has a valid salt, with that offer's address and salt.
fn maker_for(offer_mint: Key, receive_mint: Key) -> (Key, Key, u8) {
    for b in 1..=200u8 {
        if b == TAKER {
            continue;
        }
        if let Some((address, salt)) = derive(key(b), offer_mint, receive_mint) {
            return (key(b), address, salt);
        }
    }
    panic!("no maker identity has a valid salt");
}

fn holding(k: u8) -> Key {
    Key::new([k; 32])
}

fn create_accounts(
    maker: Key,
    offer: Key,
    offer_mint: Key,
    receive_mint: Key,
    maker_token_data: Vec<u8>,
    taker: Option<Key>,
) -> CreateAccounts {
    CreateAccounts {
        maker: view(maker, true, 100, native(), vec![]),
        offer: view(offer, false, 0, native(), vec![]),
        maker_token: view(holding(0x31), false, 1, token_program(), maker_token_data),
        offer_token_mint: view(offer_mint, false, 1, token_program(), mint_data(0)),
        receive_token_mint: view(receive_mint, false, 1, token_program(), mint_data(0)),
        system_program: view(native(), false, 1, native(), vec![]),
        token_program: view(token_program(), false, 1, native(), vec![]),
        maker_sol: Some(view(maker, true, 100, native(), vec![])),
        taker: taker.map(|t| view(t, false, 0, native(), vec![])),
    }
}

fn terms(offer_type: OfferType, give: u64, get: u64, expiration: Option<i64>, salt: u8) -> CreateTerms {
    CreateTerms {
        offer_type,
        offer_token_amount: give,
        receive_token_amount: get,
        expiration,
        bump_seed: salt,
    }
}

fn written(outcome: &Outcome, account: Key) -> Offer {
    for e in outcome.effects.iter().rev() {
        if let Effect::WriteOffer { account: a, offer } = e {
            if *a == account {
                return *offer;
            }
        }
    }
    panic!("no record written at that account");
}

/// Native and asset balances after a list of effects, from zero.
#[derive(Default)]
struct Ledger {
    native: HashMap<[u8; 32], i128>,
    tokens: HashMap<([u8; 32], [u8; 32]), i128>,
}

impl Ledger {
    fn apply(&mut self, effects: &[Effect]) {
        for e in effects {
            match e {
                Effect::CreateAccount { payer, account, lamports, .. } => {
                    *self.native.entry(payer.bytes).or_default() -= *lamports as i128;
                    *self.native.entry(account.bytes).or_default() += *lamports as i128;
                }
                Effect::TransferNative { from, to, amount, .. } => {
                    *self.native.entry(from.bytes).or_default() -= *amount as i128;
                    *self.native.entry(to.bytes).or_default() += *amount as i128;
                }
                Effect::TransferToken { source, mint, destination, amount, .. } => {
                    *self.tokens.entry((source.bytes, mint.bytes)).or_default() -= *amount as i128;
                    *self.tokens.entry((destination.bytes, mint.bytes)).or_default() +=
                        *amount as i128;
                }
                Effect::WriteOffer { .. } => {}
            }
        }
    }

    fn native(&self, k: Key) -> i128 {
        *self.native.get(&k.bytes).unwrap_or(&0)
    }

    fn token(&self, k: Key, mint: Key) -> i128 {
        *self.tokens.get(&(k.bytes, mint.bytes)).unwrap_or(&0)
    }
}

/// A public sell offer of 10 units of asset A for 5 native units.
fn public_sell() -> (Key, Key, Outcome) {
    let asset_a = key(ASSET_A);
    let (maker, address, salt) = maker_for(asset_a, native());
    let accounts =
        create_accounts(maker, address, asset_a, native(), token_data(asset_a, maker, 100), None);
    let outcome = Processor::process_create_offer(
        &program(),
        &accounts,
        terms(OfferType::PublicSell, 10, 5, None, salt),
        RENT,
    );
    (maker, address, outcome)
}

fn accept_accounts(maker: Key, offer: Key, give_mint: Key, maker_token: Vec<u8>, taker_token: Vec<u8>) -> AcceptAccounts {
    let taker = key(TAKER);
    AcceptAccounts {
        taker: view(taker, true, 50, native(), vec![]),
        offer: view(offer, false, RENT, program(), vec![0; Offer::MAX_LEN]),
        maker: view(maker, true, 100, native(), vec![]),
        maker_token: view(holding(0x31), false, 1, token_program(), maker_token),
        taker_token: view(holding(0x32), false, 1, token_program(), taker_token),
        offer_token_mint: view(give_mint, false, 1, token_program(), mint_data(6)),
        receive_token_mint: view(give_mint, false, 1, token_program(), mint_data(6)),
        system_program: view(native(), false, 1, native(), vec![]),
        token_program: view(token_program(), false, 1, native(), vec![]),
        maker_sol: Some(view(maker, true, 100, native(), vec![])),
        taker_sol: Some(view(taker, true, 50, native(), vec![])),
    }
}

#[test]
fn create_public_sell_records_active_offer() {
    let (maker, address, outcome) = public_sell();
    assert_eq!(outcome.error, None);
    assert_eq!(outcome.effects.len(), 2);
    match outcome.effects[0] {
        Effect::CreateAccount { payer, account, lamports, space, owner, .. } => {
            assert!(payer == maker);
            assert!(account == address);
            assert_eq!(lamports, RENT);
            assert_eq!(space, 199);
            assert!(owner == program());
        }
        _ => panic!("storage is allocated first"),
    }
    let record = written(&outcome, address);
    assert_eq!(record.status, OfferStatus::Active);
    assert_eq!(record.offer_type, OfferType::PublicSell);
    assert!(record.maker == maker);
    assert!(record.taker.is_none());
    assert_eq!(record.offer_token_amount, 10);
    assert_eq!(record.receive_token_amount, 5);
    assert_eq!(record.escrow_sol_amount, 0);
    assert!(!record.is_counter_offer);
    assert!(record.original_offer_id.is_none());
}

#[test]
fn accept_public_sell_swaps_asset_for_native() {
    let (maker, address, created) = public_sell();
    let record = written(&created, address);
    let asset_a = key(ASSET_A);
    let taker = key(TAKER);
    let accounts = accept_accounts(
        maker,
        address,
        asset_a,
        token_data(asset_a, maker, 100),
        token_data(asset_a, taker, 0),
    );
    let outcome = Processor::process_accept_offer(&program(), &accounts, &Some(record), 0);
    assert_eq!(outcome.error, None);
    let mut ledger = Ledger::default();
    ledger.apply(&outcome.effects);
    assert_eq!(ledger.token(holding(0x31), asset_a), -10);
    assert_eq!(ledger.token(holding(0x32), asset_a), 10);
    assert_eq!(ledger.native(taker), -5);
    assert_eq!(ledger.native(maker), 5);
    match outcome.effects[0] {
        Effect::TransferToken { decimals, authority: Authority::Signature(signer), .. } => {
            assert_eq!(decimals, 6);
            assert!(signer == maker);
        }
        _ => panic!("the asset leg comes first"),
    }
    assert_eq!(written(&outcome, address).status, OfferStatus::Accepted);
}

/// A public buy offer escrowing 5 native units for 10 units of asset B.
fn public_buy() -> (Key, Key, CreateAccounts, Outcome) {
    let asset_b = key(ASSET_B);
    let (maker, address, salt) = maker_for(native(), asset_b);
    let accounts =
        create_accounts(maker, address, native(), asset_b, token_data(native(), maker, 0), None);
    let outcome = Processor::process_create_offer(
        &program(),
        &accounts,
        terms(OfferType::PublicBuy, 5, 10, None, salt),
        RENT,
    );
    (maker, address, accounts, outcome)
}

fn cancel_accounts(maker: Key, offer: Key, lamports: u64) -> CancelAccounts {
    CancelAccounts {
        maker: view(maker, true, 93, native(), vec![]),
        offer: view(offer, false, lamports, program(), vec![0; Offer::MAX_LEN]),
        system_program: view(native(), false, 1, native(), vec![]),
        maker_sol: Some(view(maker, true, 93, native(), vec![])),
    }
}

#[test]
fn cancel_public_buy_refunds_escrow() {
    let (maker, address, _, created) = public_buy();
    assert_eq!(created.error, None);
    let record = written(&created, address);
    assert_eq!(record.escrow_sol_amount, 5);
    let mut ledger = Ledger::default();
    ledger.apply(&created.effects);
    assert_eq!(ledger.native(address), (RENT + 5) as i128);
    assert_eq!(ledger.native(maker), -((RENT + 5) as i128));

    let outcome = Processor::process_cancel_offer(
        &program(),
        &cancel_accounts(maker, address, RENT + 5),
        &Some(record),
    );
    assert_eq!(outcome.error, None);
    ledger.apply(&outcome.effects);
    assert_eq!(ledger.native(address), RENT as i128);
    assert_eq!(ledger.native(maker), -(RENT as i128));
    let after = written(&outcome, address);
    assert_eq!(after.status, OfferStatus::Declined);
    assert_eq!(after.escrow_sol_amount, 0);
}

#[test]
fn create_offer_insufficient_funds() {
    let asset_a = key(ASSET_A);
    let (maker, address, salt) = maker_for(asset_a, native());
    let accounts =
        create_accounts(maker, address, asset_a, native(), token_data(asset_a, maker, 9), None);
    let outcome = Processor::process_create_offer(
        &program(),
        &accounts,
        terms(OfferType::PublicSell, 10, 5, None, salt),
        RENT,
    );
    assert_eq!(outcome.error, Some(SwapError::InsufficientFunds));
    assert!(outcome.effects.is_empty());
}

#[test]
fn create_escrow_beyond_balance_is_refused() {
    let asset_b = key(ASSET_B);
    let (maker, address, salt) = maker_for(native(), asset_b);
    let accounts =
        create_accounts(maker, address, native(), asset_b, token_data(native(), maker, 0), None);
    // 100 lamports less the 2 of rent leave 98 to escrow.
    let ok = Processor::process_create_offer(
        &program(),
        &accounts,
        terms(OfferType::PublicBuy, 98, 1, None, salt),
        RENT,
    );
    assert_eq!(ok.error, None);
    let refused = Processor::process_create_offer(
        &program(),
        &accounts,
        terms(OfferType::PublicBuy, 99, 1, None, salt),
        RENT,
    );
    assert_eq!(refused.error, Some(SwapError::InsufficientFunds));
}

#[test]
fn accept_offer_expired_then_status_is_final() {
    let asset_a = key(ASSET_A);
    let (maker, address, salt) = maker_for(asset_a, native());
    let accounts =
        create_accounts(maker, address, asset_a, native(), token_data(asset_a, maker, 100), None);
    let created = Processor::process_create_offer(
        &program(),
        &accounts,
        terms(OfferType::PublicSell, 10, 5, Some(100), salt),
        RENT,
    );
    let record = written(&created, address);
    let taker = key(TAKER);
    let accept = accept_accounts(
        maker,
        address,
        asset_a,
        token_data(asset_a, maker, 100),
        token_data(asset_a, taker, 0),
    );
    let at_expiry = Processor::process_accept_offer(&program(), &accept, &Some(record), 100);
    assert_eq!(at_expiry.error, None);

    let late = Processor::process_accept_offer(&program(), &accept, &Some(record), 150);
    assert_eq!(late.error, Some(SwapError::OfferExpired));
    assert_eq!(late.effects.len(), 1);
    let expired = written(&late, address);
    assert_eq!(expired.status, OfferStatus::Expired);

    let again = Processor::process_accept_offer(&program(), &accept, &Some(expired), 150);
    assert_eq!(again.error, Some(SwapError::InvalidOfferStatus));
    assert!(again.effects.is_empty());
}

#[test]
fn second_accept_is_refused_without_effects() {
    let (maker, address, created) = public_sell();
    let record = written(&created, address);
    let asset_a = key(ASSET_A);
    let accounts = accept_accounts(
        maker,
        address,
        asset_a,
        token_data(asset_a, maker, 100),
        token_data(asset_a, key(TAKER), 0),
    );
    let first = Processor::process_accept_offer(&program(), &accounts, &Some(record), 0);
    assert_eq!(first.error, None);
    let accepted = written(&first, address);
    let second = Processor::process_accept_offer(&program(), &accounts, &Some(accepted), 0);
    assert_eq!(second.error, Some(SwapError::InvalidOfferStatus));
    assert!(second.effects.is_empty());
}

#[test]
fn accept_native_escrow_pays_maker_from_escrow() {
    let (maker, address, _, created) = public_buy();
    let record = written(&created, address);
    let asset_b = key(ASSET_B);
    let taker = key(TAKER);
    let mut accounts = accept_accounts(
        maker,
        address,
        asset_b,
        token_data(asset_b, maker, 0),
        token_data(asset_b, taker, 40),
    );
    accounts.offer.lamports = RENT + 5;
    accounts.maker.is_signer = false;
    let outcome = Processor::process_accept_offer(&program(), &accounts, &Some(record), 0);
    assert_eq!(outcome.error, None);
    let mut ledger = Ledger::default();
    ledger.apply(&outcome.effects);
    assert_eq!(ledger.native(address), -5);
    assert_eq!(ledger.native(maker), 5);
    assert_eq!(ledger.token(holding(0x32), asset_b), -10);
    assert_eq!(ledger.token(holding(0x31), asset_b), 10);
    match outcome.effects[0] {
        Effect::TransferNative { authority: Authority::Derived(seeds), .. } => {
            assert!(seeds.maker == maker);
            assert_eq!(seeds.bump, record.bump_seed);
        }
        _ => panic!("the escrow is released first"),
    }
    let after = written(&outcome, address);
    assert_eq!(after.status, OfferStatus::Accepted);
    assert_eq!(after.escrow_sol_amount, 0);
}

/// A direct offer of 10 units of A for 20 units of B, to the taker.
fn direct_offer() -> (Key, Key, Offer) {
    let asset_a = key(ASSET_A);
    let asset_b = key(ASSET_B);
    let (maker, address, salt) = maker_for(asset_a, asset_b);
    let accounts = create_accounts(
        maker,
        address,
        asset_a,
        asset_b,
        token_data(asset_a, maker, 100),
        Some(key(TAKER)),
    );
    let created = Processor::process_create_offer(
        &program(),
        &accounts,
        terms(OfferType::Direct, 10, 20, None, salt),
        RENT,
    );
    assert_eq!(created.error, None);
    let record = written(&created, address);
    assert!(record.taker == Some(key(TAKER)));
    (maker, address, record)
}

fn counter_accounts(counter_maker: Key, original: Key, new_offer: Key, give: Key, get: Key, data: Vec<u8>) -> CounterAccounts {
    CounterAccounts {
        counter_maker: view(counter_maker, true, 100, native(), vec![]),
        original_offer: view(original, false, RENT, program(), vec![0; Offer::MAX_LEN]),
        new_offer: view(new_offer, false, 0, native(), vec![]),
        counter_maker_token: view(holding(0x33), false, 1, token_program(), data),
        offer_token_mint: view(give, false, 1, token_program(), mint_data(0)),
        receive_token_mint: view(get, false, 1, token_program(), mint_data(0)),
        system_program: view(native(), false, 1, native(), vec![]),
        token_program: view(token_program(), false, 1, native(), vec![]),
        counter_maker_sol: Some(view(counter_maker, true, 100, native(), vec![])),
        original_maker_sol: None,
    }
}

#[test]
fn counter_offer_by_taker_swaps_roles() {
    let (maker, address, record) = direct_offer();
    let taker = key(TAKER);
    let asset_a = key(ASSET_A);
    let asset_b = key(ASSET_B);
    let (new_address, salt) = derive(taker, asset_b, asset_a).expect("a valid salt for the counter");
    let accounts =
        counter_accounts(taker, address, new_address, asset_b, asset_a, token_data(asset_b, taker, 50));
    let counter_terms = CounterTerms {
        offer_token_amount: 25,
        receive_token_amount: 10,
        expiration: None,
        bump_seed: salt,
    };
    let outcome =
        Processor::process_counter_offer(&program(), &accounts, &Some(record), counter_terms, RENT);
    assert_eq!(outcome.error, None);
    let fresh = written(&outcome, new_address);
    assert_eq!(fresh.status, OfferStatus::Active);
    assert_eq!(fresh.offer_type, OfferType::Direct);
    assert!(fresh.maker == taker);
    assert!(fresh.taker == Some(maker));
    assert!(fresh.is_counter_offer);
    assert!(fresh.original_offer_id == Some(address));
    assert_eq!(fresh.offer_token_amount, 25);
    assert_eq!(fresh.receive_token_amount, 10);
    assert_eq!(written(&outcome, address).status, OfferStatus::Countered);
}

#[test]
fn counter_offer_by_maker_keeps_taker() {
    let (maker, address, record) = direct_offer();
    let asset_a = key(ASSET_A);
    let asset_b = key(ASSET_B);
    let (new_address, salt) = match derive(maker, asset_a, asset_b) {
        Some(found) => found,
        None => panic!("the maker's tuple has a salt"),
    };
    // The maker's tuple is unchanged, so the new offer reuses its address: that
    // storage is occupied.
    assert!(new_address == address);
    let mut accounts =
        counter_accounts(maker, address, new_address, asset_a, asset_b, token_data(asset_a, maker, 50));
    accounts.new_offer.data = vec![0; Offer::MAX_LEN];
    let counter_terms = CounterTerms {
        offer_token_amount: 12,
        receive_token_amount: 20,
        expiration: None,
        bump_seed: salt,
    };
    let occupied =
        Processor::process_counter_offer(&program(), &accounts, &Some(record), counter_terms, RENT);
    assert_eq!(occupied.error, Some(SwapError::InvalidAccountData));

    // Countering with a different requested asset gives a fresh address.
    let (other_mint, other_address, other_salt) = (0xC0..=0xFFu8)
        .find_map(|b| derive(maker, asset_a, key(b)).map(|(a, s)| (key(b), a, s)))
        .expect("some requested asset has a salt");
    let accounts =
        counter_accounts(maker, address, other_address, asset_a, other_mint, token_data(asset_a, maker, 50));
    let outcome = Processor::process_counter_offer(
        &program(),
        &accounts,
        &Some(record),
        CounterTerms { bump_seed: other_salt, ..counter_terms },
        RENT,
    );
    assert_eq!(outcome.error, None);
    let fresh = written(&outcome, other_address);
    assert!(fresh.maker == maker);
    assert!(fresh.taker == Some(key(TAKER)));
}

#[test]
fn counter_by_stranger_is_unauthorized() {
    let (_, address, record) = direct_offer();
    let stranger = key(0xEE);
    let asset_a = key(ASSET_A);
    let asset_b = key(ASSET_B);
    let accounts = counter_accounts(stranger, address, key(0x55), asset_b, asset_a, token_data(asset_b, stranger, 50));
    let terms = CounterTerms { offer_token_amount: 1, receive_token_amount: 1, expiration: None, bump_seed: 255 };
    let outcome = Processor::process_counter_offer(&program(), &accounts, &Some(record), terms, RENT);
    assert_eq!(outcome.error, Some(SwapError::Unauthorized));
}

#[test]
fn counter_refunds_original_escrow() {
    let (maker, address, _, created) = public_buy();
    let record = written(&created, address);
    let asset_b = key(ASSET_B);
    let (new_address, salt) = derive(maker, native(), asset_b)
        .map(|_| derive(maker, asset_b, native()).expect("a salt"))
        .unwrap();
    let mut accounts = counter_accounts(
        maker,
        address,
        new_address,
        asset_b,
        native(),
        token_data(asset_b, maker, 50),
    );
    accounts.original_offer.lamports = RENT + 5;
    let counter_terms = CounterTerms {
        offer_token_amount: 10,
        receive_token_amount: 6,
        expiration: None,
        bump_seed: salt,
    };
    let missing =
        Processor::process_counter_offer(&program(), &accounts, &Some(record), counter_terms, RENT);
    assert_eq!(missing.error, Some(SwapError::MissingRequiredAccount));

    accounts.original_maker_sol = Some(view(maker, false, 93, native(), vec![]));
    let outcome =
        Processor::process_counter_offer(&program(), &accounts, &Some(record), counter_terms, RENT);
    assert_eq!(outcome.error, None);
    let mut ledger = Ledger::default();
    ledger.apply(&outcome.effects);
    assert_eq!(ledger.native(address), -5);
    assert_eq!(ledger.native(maker), 5 - RENT as i128);
    let original = written(&outcome, address);
    assert_eq!(original.status, OfferStatus::Countered);
    assert_eq!(original.escrow_sol_amount, 0);
}

#[test]
fn wrong_salt_is_refused() {
    let asset_a = key(ASSET_A);
    let (maker, address, salt) = maker_for(asset_a, native());
    let accounts =
        create_accounts(maker, address, asset_a, native(), token_data(asset_a, maker, 100), None);
    for other in [salt.wrapping_sub(1), salt.wrapping_add(1), 0] {
        let outcome = Processor::process_create_offer(
            &program(),
            &accounts,
            terms(OfferType::PublicSell, 10, 5, None, other),
            RENT,
        );
        assert_eq!(outcome.error, Some(SwapError::InvalidProgramAddress));
    }
    let again = Processor::process_create_offer(
        &program(),
        &accounts,
        terms(OfferType::PublicSell, 10, 5, None, salt),
        RENT,
    );
    assert_eq!(again.error, None);
}

#[test]
fn stored_record_at_wrong_address_is_refused() {
    let (maker, address, created) = public_sell();
    let mut record = written(&created, address);
    record.bump_seed = record.bump_seed.wrapping_add(1);
    let outcome = Processor::process_cancel_offer(&program(), &cancel_accounts(maker, address, RENT), &Some(record));
    assert_eq!(outcome.error, Some(SwapError::InvalidProgramAddress));
}

#[test]
fn create_errors_follow_each_check() {
    let asset_a = key(ASSET_A);
    let (maker, address, salt) = maker_for(asset_a, native());
    let sell = terms(OfferType::PublicSell, 10, 5, None, salt);
    let base = || create_accounts(maker, address, asset_a, native(), token_data(asset_a, maker, 100), None);

    let mut a = base();
    a.maker.is_signer = false;
    assert_eq!(Processor::process_create_offer(&program(), &a, sell, RENT).error, Some(SwapError::MissingRequiredSignature));

    let mut a = base();
    a.offer.data = vec![1];
    assert_eq!(Processor::process_create_offer(&program(), &a, sell, RENT).error, Some(SwapError::InvalidAccountData));

    let mut a = base();
    a.maker_token.data = token_data(asset_a, key(0x44), 100);
    assert_eq!(Processor::process_create_offer(&program(), &a, sell, RENT).error, Some(SwapError::IncorrectOwner));

    let mut a = base();
    a.maker_token.data = token_data(key(ASSET_B), maker, 100);
    assert_eq!(Processor::process_create_offer(&program(), &a, sell, RENT).error, Some(SwapError::TokenMismatch));

    let mut a = base();
    a.maker_token.data[108] = 0;
    assert_eq!(Processor::process_create_offer(&program(), &a, sell, RENT).error, Some(SwapError::AccountNotInitialized));

    let mut a = base();
    a.maker_token.data.pop();
    assert_eq!(Processor::process_create_offer(&program(), &a, sell, RENT).error, Some(SwapError::InvalidAccountData));

    let direct = terms(OfferType::Direct, 10, 5, None, salt);
    assert_eq!(Processor::process_create_offer(&program(), &base(), direct, RENT).error, Some(SwapError::MissingRequiredAccount));
}

#[test]
fn create_escrow_errors() {
    let asset_b = key(ASSET_B);
    let (maker, address, salt) = maker_for(native(), asset_b);
    let buy = terms(OfferType::PublicBuy, 5, 10, None, salt);
    let base = || create_accounts(maker, address, native(), asset_b, token_data(native(), maker, 0), None);

    let mut a = base();
    a.maker_sol = None;
    assert_eq!(Processor::process_create_offer(&program(), &a, buy, RENT).error, Some(SwapError::MissingRequiredAccount));

    let mut a = base();
    a.maker_sol = Some(view(key(0x45), true, 100, native(), vec![]));
    assert_eq!(Processor::process_create_offer(&program(), &a, buy, RENT).error, Some(SwapError::IncorrectOwner));

    let mut a = base();
    a.offer.is_writable = false;
    assert_eq!(Processor::process_create_offer(&program(), &a, buy, RENT).error, Some(SwapError::InvalidAccountInput));

    let mut a = base();
    a.system_program.key = key(0x46);
    assert_eq!(Processor::process_create_offer(&program(), &a, buy, RENT).error, Some(SwapError::InvalidSystemProgram));
}

#[test]
fn accept_errors_follow_each_check() {
    let (maker, address, created) = public_sell();
    let record = written(&created, address);
    let asset_a = key(ASSET_A);
    let taker = key(TAKER);
    let base = || accept_accounts(maker, address, asset_a, token_data(asset_a, maker, 100), token_data(asset_a, taker, 0));
    let run = |a: &AcceptAccounts| Processor::process_accept_offer(&program(), a, &Some(record), 0).error;

    let mut a = base();
    a.offer.owner = native();
    assert_eq!(run(&a), Some(SwapError::IncorrectOwner));

    assert_eq!(Processor::process_accept_offer(&program(), &base(), &None, 0).error, Some(SwapError::InvalidAccountData));

    let mut a = base();
    a.maker.key = key(0x47);
    assert_eq!(run(&a), Some(SwapError::OfferMismatch));

    let mut a = base();
    a.taker_token.data = token_data(key(ASSET_B), taker, 0);
    assert_eq!(run(&a), Some(SwapError::TokenMismatch));

    let mut a = base();
    a.token_program.key = key(0x48);
    assert_eq!(run(&a), Some(SwapError::InvalidTokenProgram));

    let mut a = base();
    a.maker.is_signer = false;
    assert_eq!(run(&a), Some(SwapError::MissingRequiredSignature));

    let mut a = base();
    a.taker_sol = None;
    assert_eq!(run(&a), Some(SwapError::MissingRequiredAccount));

    let mut a = base();
    a.taker_sol = Some(view(taker, true, 4, native(), vec![]));
    assert_eq!(run(&a), Some(SwapError::InsufficientFunds));

    let mut a = base();
    a.offer_token_mint.data = vec![0; 82];
    assert_eq!(run(&a), Some(SwapError::AccountNotInitialized));
}

#[test]
fn direct_offer_accepts_only_its_taker() {
    let (maker, address, record) = direct_offer();
    let asset_a = key(ASSET_A);
    let stranger = key(0xEE);
    let mut accounts = accept_accounts(maker, address, asset_a, token_data(asset_a, maker, 100), token_data(asset_a, stranger, 0));
    accounts.taker.key = stranger;
    let outcome = Processor::process_accept_offer(&program(), &accounts, &Some(record), 0);
    assert_eq!(outcome.error, Some(SwapError::Unauthorized));
}

#[test]
fn cancel_by_other_party_is_unauthorized() {
    let (maker, address, created) = public_sell();
    let record = written(&created, address);
    let mut accounts = cancel_accounts(maker, address, RENT);
    accounts.maker.key = key(TAKER);
    let outcome = Processor::process_cancel_offer(&program(), &accounts, &Some(record));
    assert_eq!(outcome.error, Some(SwapError::Unauthorized));
    let declined = Processor::process_cancel_offer(&program(), &cancel_accounts(maker, address, RENT), &Some(record));
    assert_eq!(declined.error, None);
    let twice = Processor::process_cancel_offer(&program(), &cancel_accounts(maker, address, RENT), &Some(written(&declined, address)));
    assert_eq!(twice.error, Some(SwapError::InvalidOfferStatus));
}

#[test]
fn keys_compare_by_bytes() {
    assert!(Key::native().is_native());
    assert!(!key(1).is_native());
    assert!(key(3).same(&key(3)));
    let mut bytes = [3u8; 32];
    bytes[31] = 4;
    assert!(!key(3).same(&Key::new(bytes)));
    assert!(key(3) != Key::new(bytes));
}

#[test]
fn max_len_sums_worst_case_fields() {
    assert_eq!(Offer::MAX_LEN, 199);
}

#[test]
fn direct_offer_of_native_currency_is_escrowed() {
    let asset_b = key(ASSET_B);
    let (maker, address, salt) = maker_for(native(), asset_b);
    let accounts = create_accounts(
        maker,
        address,
        native(),
        asset_b,
        token_data(native(), maker, 0),
        Some(key(TAKER)),
    );
    let outcome = Processor::process_create_offer(
        &program(),
        &accounts,
        terms(OfferType::Direct, 7, 3, Some(1_000), salt),
        RENT,
    );
    assert_eq!(outcome.error, None);
    assert_eq!(outcome.effects.len(), 3);
    let record = written(&outcome, address);
    assert_eq!(record.escrow_sol_amount, 7);
    assert_eq!(record.expiration, Some(1_000));
    assert!(record.taker == Some(key(TAKER)));
    let mut ledger = Ledger::default();
    ledger.apply(&outcome.effects);
    assert_eq!(ledger.native(address), (RENT + 7) as i128);
}
