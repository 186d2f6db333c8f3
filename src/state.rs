use vstd::prelude::*;

use crate::key::Key;

verus! {

/// Why an operation was rejected.
#[derive(Clone, Copy, Debug, PartialEq, Eq, Structural)]
pub enum SwapError {
    InvalidInstruction,
    NotRentExempt,
    InvalidAccountData,
    IncorrectOwner,
    InsufficientFunds,
    InvalidOfferStatus,
    OfferExpired,
    Unauthorized,
    OfferMismatch,
    TokenMismatch,
    AccountNotInitialized,
    InvalidProgramAddress,
    MissingRequiredAccount,
    InvalidAccountInput,
    InvalidSystemProgram,
    InvalidTokenProgram,
    /// A party whose signature the operation needs did not sign.
    MissingRequiredSignature,
}

/// Who may accept an offer.
#[derive(Clone, Copy, Debug, PartialEq, Eq, Structural)]
pub enum OfferType {
    /// Only the named taker may accept.
    Direct,
    /// The maker gives native currency for an asset; anyone may accept.
    PublicBuy,
    /// The maker gives an asset; anyone may accept.
    PublicSell,
}

/// Where an offer stands in its life. `Active` is the only state that an
/// operation moves out of.
#[derive(Clone, Copy, Debug, PartialEq, Eq, Structural)]
pub enum OfferStatus {
    Active,
    Accepted,
    Declined,
    Countered,
    Expired,
}

/// The persisted record of one offer.
#[derive(Clone, Copy, Debug)]
pub struct Offer {
    pub offer_type: OfferType,
    pub status: OfferStatus,
    pub maker: Key,
    pub taker: Option<Key>,
    pub offer_token_mint: Key,
    pub offer_token_amount: u64,
    pub receive_token_mint: Key,
    pub receive_token_amount: u64,
    pub escrow_sol_amount: u64,
    pub expiration: Option<i64>,
    pub is_counter_offer: bool,
    pub original_offer_id: Option<Key>,
    pub bump_seed: u8,
}

impl Offer {
    /// Worst-case encoded size of a record: each field at its largest, with a
    /// one-byte present/absent tag in front of each optional field.
    pub const MAX_LEN: usize = 1 + 1 + 32 + (1 + 32) + 32 + 8 + 32 + 8 + 8 + (1 + 8) + 1 + (1 + 32) + 1;
}

/// A decoded request.
#[derive(Clone, Copy, Debug, PartialEq, Eq, Structural)]
pub enum SwapInstruction {
    /// Open a new offer.
    CreateOffer {
        offer_type: OfferType,
        offer_token_amount: u64,
        receive_token_amount: u64,
        expiration: Option<i64>,
        bump_seed: u8,
    },
    /// Settle an active offer.
    AcceptOffer,
    /// Supersede an active offer with a new one from either party.
    CounterOffer {
        offer_token_amount: u64,
        receive_token_amount: u64,
        expiration: Option<i64>,
        bump_seed: u8,
    },
    /// Withdraw an active offer.
    CancelOffer,
}

} // verus!
