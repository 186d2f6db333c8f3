use vstd::prelude::*;

use crate::key::Key;
use crate::state::OfferType;

verus! {

/// What the engine sees of one account named in a request.
#[derive(Debug)]
pub struct AccountView {
    pub key: Key,
    pub is_signer: bool,
    pub is_writable: bool,
    pub owner: Key,
    pub lamports: u64,
    pub data: Vec<u8>,
}

/// The accounts of a create request.
pub struct CreateAccounts {
    pub maker: AccountView,
    pub offer: AccountView,
    pub maker_token: AccountView,
    pub offer_token_mint: AccountView,
    pub receive_token_mint: AccountView,
    pub system_program: AccountView,
    pub token_program: AccountView,
    pub maker_sol: Option<AccountView>,
    pub taker: Option<AccountView>,
}

/// The offer terms of a create request.
#[derive(Clone, Copy, Debug)]
pub struct CreateTerms {
    pub offer_type: OfferType,
    pub offer_token_amount: u64,
    pub receive_token_amount: u64,
    pub expiration: Option<i64>,
    pub bump_seed: u8,
}

/// The accounts of an accept request.
pub struct AcceptAccounts {
    pub taker: AccountView,
    pub offer: AccountView,
    pub maker: AccountView,
    pub maker_token: AccountView,
    pub taker_token: AccountView,
    pub offer_token_mint: AccountView,
    pub receive_token_mint: AccountView,
    pub system_program: AccountView,
    pub token_program: AccountView,
    pub maker_sol: Option<AccountView>,
    pub taker_sol: Option<AccountView>,
}

/// The accounts of a counter request.
pub struct CounterAccounts {
    pub counter_maker: AccountView,
    pub original_offer: AccountView,
    pub new_offer: AccountView,
    pub counter_maker_token: AccountView,
    pub offer_token_mint: AccountView,
    pub receive_token_mint: AccountView,
    pub system_program: AccountView,
    pub token_program: AccountView,
    pub counter_maker_sol: Option<AccountView>,
    pub original_maker_sol: Option<AccountView>,
}

/// The terms of a counter-offer.
#[derive(Clone, Copy, Debug)]
pub struct CounterTerms {
    pub offer_token_amount: u64,
    pub receive_token_amount: u64,
    pub expiration: Option<i64>,
    pub bump_seed: u8,
}

/// The accounts of a cancel request.
pub struct CancelAccounts {
    pub maker: AccountView,
    pub offer: AccountView,
    pub system_program: AccountView,
    pub maker_sol: Option<AccountView>,
}

} // verus!
