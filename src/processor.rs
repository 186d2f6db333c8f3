use vstd::prelude::*;

use crate::accounts::{
    AcceptAccounts, AccountView, CancelAccounts, CounterAccounts, CounterTerms, CreateAccounts,
    CreateTerms,
};
use crate::address::{check_new_offer_address, check_stored_offer_address, OfferSeeds};
use crate::decision::{
    accept_decision, cancel_decision, counter_decision, create_decision, names, native_transfer,
    stored_fault, token_transfer,
};
use crate::effects::{Authority, Effect, Outcome};
use crate::key::Key;
use crate::state::{Offer, OfferStatus, OfferType, SwapError};
use crate::token::{
    system_program_id, token_program_id, unpack_mint_decimals, unpack_token_account,
};

verus! {

/// The offer engine.
pub struct Processor;

fn names_key(opt: &Option<Key>, k: &Key) -> (r: bool)
    ensures
        r == names(*opt, *k),
{
    match opt {
        Some(t) => t.same(k),
        None => false,
    }
}

impl Processor {

    /// Runs the checks that every operation on a stored record starts with and
    /// returns the record.
    fn load_stored(
        program_id: &Key,
        caller: &AccountView,
        storage: &AccountView,
        stored: &Option<Offer>,
    ) -> (r: Result<Offer, SwapError>)
        ensures
            match r {
                Ok(o) => stored_fault(*program_id, *caller, *storage, *stored) is None && *stored
                    == Some(o),
                Err(e) => stored_fault(*program_id, *caller, *storage, *stored) == Some(e),
            },
    {
        if !caller.is_signer {
            return Err(SwapError::MissingRequiredSignature);
        }
        if !storage.owner.same(program_id) {
            return Err(SwapError::IncorrectOwner);
        }
        let o = match stored {
            Some(o) => *o,
            None => {
                return Err(SwapError::InvalidAccountData);
            },
        };
        let seeds = OfferSeeds {
            maker: o.maker,
            offer_mint: o.offer_token_mint,
            receive_mint: o.receive_token_mint,
            bump: o.bump_seed,
        };
        check_stored_offer_address(program_id, &seeds, &storage.key)?;
        Ok(o)
    }

    /// Settles an active offer: both legs of the swap, then the record moves
    /// to `Accepted`. An offer found past its expiration moves to `Expired`
    /// instead, and that write is kept although the request fails.
    /// `stored` is the record decoded from the offer's storage, `None` where it
    /// does not decode; `now` is the current time.
    pub fn process_accept_offer(
        program_id: &Key,
        accounts: &AcceptAccounts,
        stored: &Option<Offer>,
        now: i64,
    ) -> (r: Outcome)
        ensures
            r.decision() == accept_decision(*program_id, *accounts, *stored, now),
    {
        let a = accounts;
        let o = match Self::load_stored(program_id, &a.taker, &a.offer, stored) {
            Ok(o) => o,
            Err(e) => {
                return Outcome::reject(e);
            },
        };
        if o.status != OfferStatus::Active {
            return Outcome::reject(SwapError::InvalidOfferStatus);
        }
        if let Some(exp) = o.expiration {
            if now > exp {
                let mut effects: Vec<Effect> = Vec::new();
                effects.push(
                    Effect::WriteOffer {
                        account: a.offer.key,
                        offer: Offer { status: OfferStatus::Expired, ..o },
                    },
                );
                let r = Outcome { effects, error: Some(SwapError::OfferExpired) };
                assert(r.decision() =~= accept_decision(*program_id, *accounts, *stored, now));
                return r;
            }
        }
        if o.offer_type == OfferType::Direct && !names_key(&o.taker, &a.taker.key) {
            return Outcome::reject(SwapError::Unauthorized);
        }
        if !o.maker.same(&a.maker.key) {
            return Outcome::reject(SwapError::OfferMismatch);
        }
        let maker_holding = match unpack_token_account(&a.maker_token.data) {
            Ok(h) => h,
            Err(e) => {
                return Outcome::reject(e);
            },
        };
        let taker_holding = match unpack_token_account(&a.taker_token.data) {
            Ok(h) => h,
            Err(e) => {
                return Outcome::reject(e);
            },
        };
        if !maker_holding.owner.same(&a.maker.key) || !taker_holding.owner.same(&a.taker.key) {
            return Outcome::reject(SwapError::IncorrectOwner);
        }
        let write = Effect::WriteOffer {
            account: a.offer.key,
            offer: Offer { status: OfferStatus::Accepted, escrow_sol_amount: 0, ..o },
        };
        let mut effects: Vec<Effect> = Vec::new();
        if o.escrow_sol_amount > 0 {
            if !maker_holding.mint.same(&o.receive_token_mint) || !taker_holding.mint.same(
                &o.receive_token_mint,
            ) || !a.receive_token_mint.key.same(&o.receive_token_mint) {
                return Outcome::reject(SwapError::TokenMismatch);
            }
            let maker_sol = match &a.maker_sol {
                Some(s) => s,
                None => {
                    return Outcome::reject(SwapError::MissingRequiredAccount);
                },
            };
            if !maker_sol.key.same(&a.maker.key) {
                return Outcome::reject(SwapError::IncorrectOwner);
            }
            let seeds = OfferSeeds {
                maker: o.maker,
                offer_mint: o.offer_token_mint,
                receive_mint: o.receive_token_mint,
                bump: o.bump_seed,
            };
            let release = match Self::transfer_sol(
                &a.offer,
                maker_sol,
                &a.system_program,
                o.escrow_sol_amount,
                0,
                0,
                Authority::Derived(seeds),
            ) {
                Ok(t) => t,
                Err(e) => {
                    return Outcome::reject(e);
                },
            };
            let decimals = match unpack_mint_decimals(&a.receive_token_mint.data) {
                Ok(d) => d,
                Err(e) => {
                    return Outcome::reject(e);
                },
            };
            let pay = match Self::transfer_spl_token(
                &a.taker_token,
                &a.receive_token_mint,
                &a.maker_token,
                &a.taker,
                &a.token_program,
                o.receive_token_amount,
                decimals,
            ) {
                Ok(t) => t,
                Err(e) => {
                    return Outcome::reject(e);
                },
            };
            effects.push(release);
            effects.push(pay);
        } else {
            if !maker_holding.mint.same(&o.offer_token_mint) || !taker_holding.mint.same(
                &o.offer_token_mint,
            ) || !a.offer_token_mint.key.same(&o.offer_token_mint) {
                return Outcome::reject(SwapError::TokenMismatch);
            }
            let decimals = match unpack_mint_decimals(&a.offer_token_mint.data) {
                Ok(d) => d,
                Err(e) => {
                    return Outcome::reject(e);
                },
            };
            let deliver = match Self::transfer_spl_token(
                &a.maker_token,
                &a.offer_token_mint,
                &a.taker_token,
                &a.maker,
                &a.token_program,
                o.offer_token_amount,
                decimals,
            ) {
                Ok(t) => t,
                Err(e) => {
                    return Outcome::reject(e);
                },
            };
            let (taker_sol, maker_sol) = match (&a.taker_sol, &a.maker_sol) {
                (Some(t), Some(m)) => (t, m),
                _ => {
                    return Outcome::reject(SwapError::MissingRequiredAccount);
                },
            };
            if !taker_sol.key.same(&a.taker.key) || !maker_sol.key.same(&a.maker.key) {
                return Outcome::reject(SwapError::IncorrectOwner);
            }
            let pay = match Self::transfer_sol(
                taker_sol,
                maker_sol,
                &a.system_program,
                o.receive_token_amount,
                0,
                0,
                Authority::Signature(taker_sol.key),
            ) {
                Ok(t) => t,
                Err(e) => {
                    return Outcome::reject(e);
                },
            };
            effects.push(deliver);
            effects.push(pay);
        }
        effects.push(write);
        let r = Outcome { effects, error: None };
        assert(r.decision() =~= accept_decision(*program_id, *accounts, *stored, now));
        r
    }
    /// Checks a native transfer and returns the effect that performs it.
    pub fn transfer_sol(
        from: &AccountView,
        to: &AccountView,
        system_program: &AccountView,
        amount: u64,
        spent: u64,
        credited: u64,
        authority: Authority,
    ) -> (r: Result<Effect, SwapError>)
        ensures
            r == native_transfer(*from, *to, *system_program, amount, spent, credited, authority),
    {
        if !from.is_writable || !to.is_writable {
            return Err(SwapError::InvalidAccountInput);
        }
        let system = system_program_id();
        if !system_program.key.same(&system) {
            return Err(SwapError::InvalidSystemProgram);
        }
        if (from.lamports as u128) + (credited as u128) < (amount as u128) + (spent as u128) {
            return Err(SwapError::InsufficientFunds);
        }
        Ok(Effect::TransferNative { from: from.key, to: to.key, amount, authority })
    }

    /// Checks an asset transfer signed by its holder and returns the effect
    /// that performs it.
    pub fn transfer_spl_token(
        source: &AccountView,
        mint: &AccountView,
        destination: &AccountView,
        authority: &AccountView,
        token_program: &AccountView,
        amount: u64,
        decimals: u8,
    ) -> (r: Result<Effect, SwapError>)
        ensures
            r == token_transfer(
                *source,
                *mint,
                *destination,
                *authority,
                *token_program,
                amount,
                decimals,
            ),
    {
        if !source.is_writable || !destination.is_writable {
            return Err(SwapError::InvalidAccountInput);
        }
        let program = token_program_id();
        if !token_program.key.same(&program) {
            return Err(SwapError::InvalidTokenProgram);
        }
        if !authority.is_signer {
            return Err(SwapError::MissingRequiredSignature);
        }
        Ok(
            Effect::TransferToken {
                source: source.key,
                mint: mint.key,
                destination: destination.key,
                authority: Authority::Signature(authority.key),
                amount,
                decimals,
            },
        )
    }

    /// Opens a new offer at its derived address, escrowing the maker's native
    /// currency or checking the maker's holding of the offered asset.
    /// `rent_lamports` is what the allocation of a record's storage costs.
    pub fn process_create_offer(
        program_id: &Key,
        accounts: &CreateAccounts,
        terms: CreateTerms,
        rent_lamports: u64,
    ) -> (r: Outcome)
        ensures
            r.decision() == create_decision(*program_id, *accounts, terms, rent_lamports),
    {
        let a = accounts;
        if !a.maker.is_signer {
            return Outcome::reject(SwapError::MissingRequiredSignature);
        }
        let seeds = OfferSeeds {
            maker: a.maker.key,
            offer_mint: a.offer_token_mint.key,
            receive_mint: a.receive_token_mint.key,
            bump: terms.bump_seed,
        };
        if let Err(e) = check_new_offer_address(program_id, &seeds, &a.offer.key) {
            return Outcome::reject(e);
        }
        if a.offer.data.len() != 0 {
            return Outcome::reject(SwapError::InvalidAccountData);
        }
        let holding = match unpack_token_account(&a.maker_token.data) {
            Ok(h) => h,
            Err(e) => {
                return Outcome::reject(e);
            },
        };
        if !holding.owner.same(&a.maker.key) {
            return Outcome::reject(SwapError::IncorrectOwner);
        }
        if !holding.mint.same(&a.offer_token_mint.key) {
            return Outcome::reject(SwapError::TokenMismatch);
        }
        let taker = match terms.offer_type {
            OfferType::Direct => match &a.taker {
                Some(t) => Some(t.key),
                None => {
                    return Outcome::reject(SwapError::MissingRequiredAccount);
                },
            },
            _ => None,
        };
        let alloc = Effect::CreateAccount {
            payer: a.maker.key,
            account: a.offer.key,
            lamports: rent_lamports,
            space: Offer::MAX_LEN as u64,
            owner: *program_id,
            seeds,
        };
        let native = match terms.offer_type {
            OfferType::PublicBuy => true,
            OfferType::Direct => a.offer_token_mint.key.is_native(),
            OfferType::PublicSell => false,
        };
        let mut effects: Vec<Effect> = Vec::new();
        effects.push(alloc);
        if native {
            let sol = match &a.maker_sol {
                Some(s) => s,
                None => {
                    return Outcome::reject(SwapError::MissingRequiredAccount);
                },
            };
            if !sol.key.same(&a.maker.key) {
                return Outcome::reject(SwapError::IncorrectOwner);
            }
            match Self::transfer_sol(
                sol,
                &a.offer,
                &a.system_program,
                terms.offer_token_amount,
                rent_lamports,
                0,
                Authority::Signature(sol.key),
            ) {
                Ok(escrow) => effects.push(escrow),
                Err(e) => {
                    return Outcome::reject(e);
                },
            }
        } else if terms.offer_token_amount > holding.amount {
            return Outcome::reject(SwapError::InsufficientFunds);
        }
        let offer = Offer {
            offer_type: terms.offer_type,
            status: OfferStatus::Active,
            maker: a.maker.key,
            taker,
            offer_token_mint: a.offer_token_mint.key,
            offer_token_amount: terms.offer_token_amount,
            receive_token_mint: a.receive_token_mint.key,
            receive_token_amount: terms.receive_token_amount,
            escrow_sol_amount: if native {
                terms.offer_token_amount
            } else {
                0
            },
            expiration: terms.expiration,
            is_counter_offer: false,
            original_offer_id: None,
            bump_seed: terms.bump_seed,
        };
        effects.push(Effect::WriteOffer { account: a.offer.key, offer });
        let r = Outcome { effects, error: None };
        assert(r.decision() =~= create_decision(*program_id, *accounts, terms, rent_lamports));
        r
    }

    /// Supersedes an active offer with a new one from its maker or its named
    /// taker, with the roles of the two parties swapped. Escrow held by the
    /// original goes back to its maker; the original moves to `Countered`.
    pub fn process_counter_offer(
        program_id: &Key,
        accounts: &CounterAccounts,
        stored: &Option<Offer>,
        terms: CounterTerms,
        rent_lamports: u64,
    ) -> (r: Outcome)
        ensures
            r.decision() == counter_decision(*program_id, *accounts, *stored, terms, rent_lamports),
    {
        let a = accounts;
        let o = match Self::load_stored(program_id, &a.counter_maker, &a.original_offer, stored) {
            Ok(o) => o,
            Err(e) => {
                return Outcome::reject(e);
            },
        };
        if o.status != OfferStatus::Active {
            return Outcome::reject(SwapError::InvalidOfferStatus);
        }
        let by_maker = o.maker.same(&a.counter_maker.key);
        if !by_maker && !names_key(&o.taker, &a.counter_maker.key) {
            return Outcome::reject(SwapError::Unauthorized);
        }
        let mut effects: Vec<Effect> = Vec::new();
        if o.escrow_sol_amount > 0 {
            let original_sol = match &a.original_maker_sol {
                Some(s) => s,
                None => {
                    return Outcome::reject(SwapError::MissingRequiredAccount);
                },
            };
            if !original_sol.key.same(&o.maker) {
                return Outcome::reject(SwapError::IncorrectOwner);
            }
            let seeds = OfferSeeds {
                maker: o.maker,
                offer_mint: o.offer_token_mint,
                receive_mint: o.receive_token_mint,
                bump: o.bump_seed,
            };
            match Self::transfer_sol(
                &a.original_offer,
                original_sol,
                &a.system_program,
                o.escrow_sol_amount,
                0,
                0,
                Authority::Derived(seeds),
            ) {
                Ok(t) => effects.push(t),
                Err(e) => {
                    return Outcome::reject(e);
                },
            }
        }
        let ghost refund = effects@;
        let seeds = OfferSeeds {
            maker: a.counter_maker.key,
            offer_mint: a.offer_token_mint.key,
            receive_mint: a.receive_token_mint.key,
            bump: terms.bump_seed,
        };
        if let Err(e) = check_new_offer_address(program_id, &seeds, &a.new_offer.key) {
            return Outcome::reject(e);
        }
        if a.new_offer.data.len() != 0 {
            return Outcome::reject(SwapError::InvalidAccountData);
        }
        effects.push(
            Effect::CreateAccount {
                payer: a.counter_maker.key,
                account: a.new_offer.key,
                lamports: rent_lamports,
                space: Offer::MAX_LEN as u64,
                owner: *program_id,
                seeds,
            },
        );
        let native = a.offer_token_mint.key.is_native();
        if native {
            let sol = match &a.counter_maker_sol {
                Some(s) => s,
                None => {
                    return Outcome::reject(SwapError::MissingRequiredAccount);
                },
            };
            if !sol.key.same(&a.counter_maker.key) {
                return Outcome::reject(SwapError::IncorrectOwner);
            }
            let credited = if by_maker {
                o.escrow_sol_amount
            } else {
                0
            };
            match Self::transfer_sol(
                sol,
                &a.new_offer,
                &a.system_program,
                terms.offer_token_amount,
                rent_lamports,
                credited,
                Authority::Signature(sol.key),
            ) {
                Ok(t) => effects.push(t),
                Err(e) => {
                    return Outcome::reject(e);
                },
            }
        } else {
            let holding = match unpack_token_account(&a.counter_maker_token.data) {
                Ok(h) => h,
                Err(e) => {
                    return Outcome::reject(e);
                },
            };
            if !holding.owner.same(&a.counter_maker.key) {
                return Outcome::reject(SwapError::IncorrectOwner);
            }
            if !holding.mint.same(&a.offer_token_mint.key) {
                return Outcome::reject(SwapError::TokenMismatch);
            }
            if terms.offer_token_amount > holding.amount {
                return Outcome::reject(SwapError::InsufficientFunds);
            }
        }
        let counter = Offer {
            offer_type: o.offer_type,
            status: OfferStatus::Active,
            maker: a.counter_maker.key,
            taker: if by_maker {
                o.taker
            } else {
                Some(o.maker)
            },
            offer_token_mint: a.offer_token_mint.key,
            offer_token_amount: terms.offer_token_amount,
            receive_token_mint: a.receive_token_mint.key,
            receive_token_amount: terms.receive_token_amount,
            escrow_sol_amount: if native {
                terms.offer_token_amount
            } else {
                0
            },
            expiration: terms.expiration,
            is_counter_offer: true,
            original_offer_id: Some(a.original_offer.key),
            bump_seed: terms.bump_seed,
        };
        effects.push(Effect::WriteOffer { account: a.new_offer.key, offer: counter });
        effects.push(
            Effect::WriteOffer {
                account: a.original_offer.key,
                offer: Offer { status: OfferStatus::Countered, escrow_sol_amount: 0, ..o },
            },
        );
        let r = Outcome { effects, error: None };
        assert(r.decision() =~= counter_decision(
            *program_id,
            *accounts,
            *stored,
            terms,
            rent_lamports,
        ));
        r
    }

    /// Withdraws an active offer on its maker's request, returning any
    /// escrowed native currency; the record moves to `Declined`.
    pub fn process_cancel_offer(
        program_id: &Key,
        accounts: &CancelAccounts,
        stored: &Option<Offer>,
    ) -> (r: Outcome)
        ensures
            r.decision() == cancel_decision(*program_id, *accounts, *stored),
    {
        let a = accounts;
        let o = match Self::load_stored(program_id, &a.maker, &a.offer, stored) {
            Ok(o) => o,
            Err(e) => {
                return Outcome::reject(e);
            },
        };
        if !o.maker.same(&a.maker.key) {
            return Outcome::reject(SwapError::Unauthorized);
        }
        if o.status != OfferStatus::Active {
            return Outcome::reject(SwapError::InvalidOfferStatus);
        }
        let mut effects: Vec<Effect> = Vec::new();
        if o.escrow_sol_amount > 0 {
            let sol = match &a.maker_sol {
                Some(s) => s,
                None => {
                    return Outcome::reject(SwapError::MissingRequiredAccount);
                },
            };
            if !sol.key.same(&a.maker.key) {
                return Outcome::reject(SwapError::IncorrectOwner);
            }
            let seeds = OfferSeeds {
                maker: o.maker,
                offer_mint: o.offer_token_mint,
                receive_mint: o.receive_token_mint,
                bump: o.bump_seed,
            };
            match Self::transfer_sol(
                &a.offer,
                sol,
                &a.system_program,
                o.escrow_sol_amount,
                0,
                0,
                Authority::Derived(seeds),
            ) {
                Ok(t) => effects.push(t),
                Err(e) => {
                    return Outcome::reject(e);
                },
            }
        }
        effects.push(
            Effect::WriteOffer {
                account: a.offer.key,
                offer: Offer { status: OfferStatus::Declined, escrow_sol_amount: 0, ..o },
            },
        );
        let r = Outcome { effects, error: None };
        assert(r.decision() =~= cancel_decision(*program_id, *accounts, *stored));
        r
    }

}

} // verus!
