//! An escrow-backed offer engine: parties propose swaps of two assets, or of
//! an asset and native currency, and each operation on an offer either
//! settles in full or changes nothing. Every operation is a verified decision
//! from the accounts it is shown to the effects the host must carry out.
pub mod accounts;
pub mod address;
pub mod decision;
pub mod effects;
pub mod key;
pub mod laws;
pub mod processor;
pub mod state;
pub mod token;

pub use address::OfferSeeds;
pub use effects::{Authority, Effect, Outcome};
pub use key::Key;
pub use accounts::{
    AcceptAccounts, AccountView, CancelAccounts, CounterAccounts, CounterTerms, CreateAccounts,
    CreateTerms,
};
pub use processor::Processor;
pub use state::{Offer, OfferStatus, OfferType, SwapError, SwapInstruction};
pub use token::TokenHolding;
