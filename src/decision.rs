use vstd::prelude::*;

use crate::accounts::{
    AcceptAccounts, AccountView, CancelAccounts, CounterAccounts, CounterTerms, CreateAccounts,
    CreateTerms,
};
use crate::address::{new_address_ok, offer_address, OfferSeeds};
use crate::effects::{done, rejected, Authority, Decision, Effect};
use crate::key::{native_bytes, Key};
use crate::state::{Offer, OfferStatus, OfferType, SwapError};
use crate::token::{
    holding_amount, holding_mint, holding_owner, mint_decimals, mint_fault, system_program_bytes,
    token_account_fault, token_program_bytes,
};

verus! {

/// Whether an optional identity is present and equal to `k`.
pub open spec fn names(opt: Option<Key>, k: Key) -> bool {
    match opt {
        Some(t) => t@ == k@,
        None => false,
    }
}

/// Whether a new offer's maker side is native currency that goes into escrow
/// at creation.
pub open spec fn escrows_native(offer_type: OfferType, offer_mint: Key) -> bool {
    offer_type == OfferType::PublicBuy || (offer_type == OfferType::Direct && offer_mint@
        == native_bytes())
}

/// A native transfer of `amount` out of `from`, which has already paid `spent`
/// and been credited `credited` within the same operation.
pub open spec fn native_transfer(
    from: AccountView,
    to: AccountView,
    system_program: AccountView,
    amount: u64,
    spent: u64,
    credited: u64,
    authority: Authority,
) -> Result<Effect, SwapError> {
    if !from.is_writable || !to.is_writable {
        Err(SwapError::InvalidAccountInput)
    } else if system_program.key@ != system_program_bytes() {
        Err(SwapError::InvalidSystemProgram)
    } else if from.lamports + credited < amount + spent {
        Err(SwapError::InsufficientFunds)
    } else {
        Ok(Effect::TransferNative { from: from.key, to: to.key, amount, authority })
    }
}

/// A transfer of `amount` units of the asset `mint` signed by `authority`.
pub open spec fn token_transfer(
    source: AccountView,
    mint: AccountView,
    destination: AccountView,
    authority: AccountView,
    token_program: AccountView,
    amount: u64,
    decimals: u8,
) -> Result<Effect, SwapError> {
    if !source.is_writable || !destination.is_writable {
        Err(SwapError::InvalidAccountInput)
    } else if token_program.key@ != token_program_bytes() {
        Err(SwapError::InvalidTokenProgram)
    } else if !authority.is_signer {
        Err(SwapError::MissingRequiredSignature)
    } else {
        Ok(
            Effect::TransferToken {
                source: source.key,
                mint: mint.key,
                destination: destination.key,
                authority: Authority::Signature(authority.key),
                amount,
                decimals,
            },
        )
    }
}

/// The record that a successful create writes.
pub open spec fn created_offer(maker: Key, a: CreateAccounts, t: CreateTerms) -> Offer {
    Offer {
        offer_type: t.offer_type,
        status: OfferStatus::Active,
        maker,
        taker: if t.offer_type == OfferType::Direct {
            Some(a.taker.unwrap().key)
        } else {
            None
        },
        offer_token_mint: a.offer_token_mint.key,
        offer_token_amount: t.offer_token_amount,
        receive_token_mint: a.receive_token_mint.key,
        receive_token_amount: t.receive_token_amount,
        escrow_sol_amount: if escrows_native(t.offer_type, a.offer_token_mint.key) {
            t.offer_token_amount
        } else {
            0
        },
        expiration: t.expiration,
        is_counter_offer: false,
        original_offer_id: None,
        bump_seed: t.bump_seed,
    }
}

/// The seed tuple of the offer that a create request names.
pub open spec fn create_seeds(a: CreateAccounts, t: CreateTerms) -> OfferSeeds {
    OfferSeeds {
        maker: a.maker.key,
        offer_mint: a.offer_token_mint.key,
        receive_mint: a.receive_token_mint.key,
        bump: t.bump_seed,
    }
}

/// The allocation of a new offer's storage, sized to the largest record.
pub open spec fn allocation(
    payer: Key,
    account: Key,
    program_id: Key,
    rent_lamports: u64,
    seeds: OfferSeeds,
) -> Effect {
    Effect::CreateAccount {
        payer,
        account,
        lamports: rent_lamports,
        space: Offer::MAX_LEN as u64,
        owner: program_id,
        seeds,
    }
}

/// What a create request decides. Storage that already holds data is refused;
/// empty storage is allocated. The maker's holding account is read for the
/// offered asset in every case, its balance checked only where the offered
/// side is not escrowed native currency.
pub open spec fn create_decision(
    program_id: Key,
    a: CreateAccounts,
    t: CreateTerms,
    rent_lamports: u64,
) -> Decision {
    let seeds = create_seeds(a, t);
    let d = a.maker_token.data@;
    let alloc = allocation(a.maker.key, a.offer.key, program_id, rent_lamports, seeds);
    let write = Effect::WriteOffer {
        account: a.offer.key,
        offer: created_offer(a.maker.key, a, t),
    };
    if !a.maker.is_signer {
        rejected(SwapError::MissingRequiredSignature)
    } else if !new_address_ok(program_id@, seeds, a.offer.key@) {
        rejected(SwapError::InvalidProgramAddress)
    } else if a.offer.data.len() != 0 {
        rejected(SwapError::InvalidAccountData)
    } else if token_account_fault(d) is Some {
        rejected(token_account_fault(d).unwrap())
    } else if holding_owner(d) != a.maker.key@ {
        rejected(SwapError::IncorrectOwner)
    } else if holding_mint(d) != a.offer_token_mint.key@ {
        rejected(SwapError::TokenMismatch)
    } else if t.offer_type == OfferType::Direct && a.taker is None {
        rejected(SwapError::MissingRequiredAccount)
    } else if escrows_native(t.offer_type, a.offer_token_mint.key) {
        if a.maker_sol is None {
            rejected(SwapError::MissingRequiredAccount)
        } else if a.maker_sol.unwrap().key@ != a.maker.key@ {
            rejected(SwapError::IncorrectOwner)
        } else {
            let sol = a.maker_sol.unwrap();
            match native_transfer(
                sol,
                a.offer,
                a.system_program,
                t.offer_token_amount,
                rent_lamports,
                0,
                Authority::Signature(sol.key),
            ) {
                Err(e) => rejected(e),
                Ok(escrow) => done(seq![alloc, escrow, write]),
            }
        }
    } else if t.offer_token_amount > holding_amount(d) {
        rejected(SwapError::InsufficientFunds)
    } else {
        done(seq![alloc, write])
    }
}

/// The seed tuple that a stored record derives its own address from.
pub open spec fn stored_seeds(o: Offer) -> OfferSeeds {
    OfferSeeds {
        maker: o.maker,
        offer_mint: o.offer_token_mint,
        receive_mint: o.receive_token_mint,
        bump: o.bump_seed,
    }
}

/// A record moved to `status`, its escrow released.
pub open spec fn closed(o: Offer, status: OfferStatus) -> Offer {
    Offer { status, escrow_sol_amount: 0, ..o }
}

/// Whether an expiration lies in the past at time `now`.
pub open spec fn lapsed(expiration: Option<i64>, now: i64) -> bool {
    match expiration {
        Some(exp) => now > exp,
        None => false,
    }
}

/// The checks that every operation on a stored record starts with: the
/// caller signed, the storage is the engine's, it decodes, and it sits at the
/// address its own fields derive.
pub open spec fn stored_fault(
    program_id: Key,
    caller: AccountView,
    storage: AccountView,
    stored: Option<Offer>,
) -> Option<SwapError> {
    if !caller.is_signer {
        Some(SwapError::MissingRequiredSignature)
    } else if storage.owner@ != program_id@ {
        Some(SwapError::IncorrectOwner)
    } else if stored is None {
        Some(SwapError::InvalidAccountData)
    } else if offer_address(program_id@, stored_seeds(stored.unwrap())) != storage.key@ {
        Some(SwapError::InvalidProgramAddress)
    } else {
        None
    }
}

/// What an accept request decides, for the record `stored` decoded from the
/// offer's storage (`None` where it does not decode) at time `now`. The
/// asset that changes hands is the requested one where the maker escrowed
/// native currency, the offered one otherwise; both holding accounts must
/// hold it, and the asset-type account named for it must be it.
pub open spec fn accept_decision(
    program_id: Key,
    a: AcceptAccounts,
    stored: Option<Offer>,
    now: i64,
) -> Decision {
    let o = stored.unwrap();
    let md = a.maker_token.data@;
    let td = a.taker_token.data@;
    let write = Effect::WriteOffer { account: a.offer.key, offer: closed(o, OfferStatus::Accepted) };
    if stored_fault(program_id, a.taker, a.offer, stored) is Some {
        rejected(stored_fault(program_id, a.taker, a.offer, stored).unwrap())
    } else if o.status != OfferStatus::Active {
        rejected(SwapError::InvalidOfferStatus)
    } else if lapsed(o.expiration, now) {
        (
            seq![
                Effect::WriteOffer {
                    account: a.offer.key,
                    offer: Offer { status: OfferStatus::Expired, ..o },
                },
            ],
            Some(SwapError::OfferExpired),
        )
    } else if o.offer_type == OfferType::Direct && !names(o.taker, a.taker.key) {
        rejected(SwapError::Unauthorized)
    } else if o.maker@ != a.maker.key@ {
        rejected(SwapError::OfferMismatch)
    } else if token_account_fault(md) is Some {
        rejected(token_account_fault(md).unwrap())
    } else if token_account_fault(td) is Some {
        rejected(token_account_fault(td).unwrap())
    } else if holding_owner(md) != a.maker.key@ || holding_owner(td) != a.taker.key@ {
        rejected(SwapError::IncorrectOwner)
    } else if o.escrow_sol_amount > 0 {
        if holding_mint(md) != o.receive_token_mint@ || holding_mint(td) != o.receive_token_mint@
            || a.receive_token_mint.key@ != o.receive_token_mint@ {
            rejected(SwapError::TokenMismatch)
        } else if a.maker_sol is None {
            rejected(SwapError::MissingRequiredAccount)
        } else if a.maker_sol.unwrap().key@ != a.maker.key@ {
            rejected(SwapError::IncorrectOwner)
        } else {
            match native_transfer(
                a.offer,
                a.maker_sol.unwrap(),
                a.system_program,
                o.escrow_sol_amount,
                0,
                0,
                Authority::Derived(stored_seeds(o)),
            ) {
                Err(e) => rejected(e),
                Ok(release) => if mint_fault(a.receive_token_mint.data@) is Some {
                    rejected(mint_fault(a.receive_token_mint.data@).unwrap())
                } else {
                    match token_transfer(
                        a.taker_token,
                        a.receive_token_mint,
                        a.maker_token,
                        a.taker,
                        a.token_program,
                        o.receive_token_amount,
                        mint_decimals(a.receive_token_mint.data@),
                    ) {
                        Err(e) => rejected(e),
                        Ok(pay) => done(seq![release, pay, write]),
                    }
                },
            }
        }
    } else {
        if holding_mint(md) != o.offer_token_mint@ || holding_mint(td) != o.offer_token_mint@
            || a.offer_token_mint.key@ != o.offer_token_mint@ {
            rejected(SwapError::TokenMismatch)
        } else if mint_fault(a.offer_token_mint.data@) is Some {
            rejected(mint_fault(a.offer_token_mint.data@).unwrap())
        } else {
            match token_transfer(
                a.maker_token,
                a.offer_token_mint,
                a.taker_token,
                a.maker,
                a.token_program,
                o.offer_token_amount,
                mint_decimals(a.offer_token_mint.data@),
            ) {
                Err(e) => rejected(e),
                Ok(deliver) => if a.taker_sol is None || a.maker_sol is None {
                    rejected(SwapError::MissingRequiredAccount)
                } else if a.taker_sol.unwrap().key@ != a.taker.key@ || a.maker_sol.unwrap().key@
                    != a.maker.key@ {
                    rejected(SwapError::IncorrectOwner)
                } else {
                    match native_transfer(
                        a.taker_sol.unwrap(),
                        a.maker_sol.unwrap(),
                        a.system_program,
                        o.receive_token_amount,
                        0,
                        0,
                        Authority::Signature(a.taker_sol.unwrap().key),
                    ) {
                        Err(e) => rejected(e),
                        Ok(pay) => done(seq![deliver, pay, write]),
                    }
                },
            }
        }
    }
}

/// The counterparty of a counter-offer: whichever of the original maker and
/// taker did not make it.
pub open spec fn counter_taker(o: Offer, counter_maker: Key) -> Option<Key> {
    if o.maker@ == counter_maker@ {
        o.taker
    } else {
        Some(o.maker)
    }
}

/// The seed tuple of the new offer that a counter request names.
pub open spec fn counter_seeds(a: CounterAccounts, t: CounterTerms) -> OfferSeeds {
    OfferSeeds {
        maker: a.counter_maker.key,
        offer_mint: a.offer_token_mint.key,
        receive_mint: a.receive_token_mint.key,
        bump: t.bump_seed,
    }
}

/// The record that a successful counter writes for the new offer.
pub open spec fn countered_offer(o: Offer, a: CounterAccounts, t: CounterTerms) -> Offer {
    Offer {
        offer_type: o.offer_type,
        status: OfferStatus::Active,
        maker: a.counter_maker.key,
        taker: counter_taker(o, a.counter_maker.key),
        offer_token_mint: a.offer_token_mint.key,
        offer_token_amount: t.offer_token_amount,
        receive_token_mint: a.receive_token_mint.key,
        receive_token_amount: t.receive_token_amount,
        escrow_sol_amount: if a.offer_token_mint.key@ == native_bytes() {
            t.offer_token_amount
        } else {
            0
        },
        expiration: t.expiration,
        is_counter_offer: true,
        original_offer_id: Some(a.original_offer.key),
        bump_seed: t.bump_seed,
    }
}

/// What the counter-maker gets back of the original escrow within the same
/// request.
pub open spec fn refund_to(o: Offer, counter_maker: Key) -> u64 {
    if o.maker@ == counter_maker@ {
        o.escrow_sol_amount
    } else {
        0
    }
}

/// The part of a counter request that follows the refund of the original
/// escrow: the new offer's address, storage and funding, then both writes.
pub open spec fn counter_tail(
    program_id: Key,
    a: CounterAccounts,
    o: Offer,
    t: CounterTerms,
    rent_lamports: u64,
    refund: Seq<Effect>,
) -> Decision {
    let seeds = counter_seeds(a, t);
    let d = a.counter_maker_token.data@;
    let alloc = allocation(a.counter_maker.key, a.new_offer.key, program_id, rent_lamports, seeds);
    let writes = seq![
        Effect::WriteOffer { account: a.new_offer.key, offer: countered_offer(o, a, t) },
        Effect::WriteOffer {
            account: a.original_offer.key,
            offer: closed(o, OfferStatus::Countered),
        },
    ];
    if !new_address_ok(program_id@, seeds, a.new_offer.key@) {
        rejected(SwapError::InvalidProgramAddress)
    } else if a.new_offer.data.len() != 0 {
        rejected(SwapError::InvalidAccountData)
    } else if a.offer_token_mint.key@ == native_bytes() {
        if a.counter_maker_sol is None {
            rejected(SwapError::MissingRequiredAccount)
        } else if a.counter_maker_sol.unwrap().key@ != a.counter_maker.key@ {
            rejected(SwapError::IncorrectOwner)
        } else {
            let sol = a.counter_maker_sol.unwrap();
            match native_transfer(
                sol,
                a.new_offer,
                a.system_program,
                t.offer_token_amount,
                rent_lamports,
                refund_to(o, a.counter_maker.key),
                Authority::Signature(sol.key),
            ) {
                Err(e) => rejected(e),
                Ok(escrow) => done(refund + seq![alloc, escrow] + writes),
            }
        }
    } else if token_account_fault(d) is Some {
        rejected(token_account_fault(d).unwrap())
    } else if holding_owner(d) != a.counter_maker.key@ {
        rejected(SwapError::IncorrectOwner)
    } else if holding_mint(d) != a.offer_token_mint.key@ {
        rejected(SwapError::TokenMismatch)
    } else if t.offer_token_amount > holding_amount(d) {
        rejected(SwapError::InsufficientFunds)
    } else {
        done(refund + seq![alloc] + writes)
    }
}

/// What a counter request decides, for the original record `stored` decoded
/// from its storage. Only an active offer can be countered, and only by its
/// maker or its named taker; escrowed native currency of the original goes
/// back to its maker first. The new offer is funded as a created one is,
/// with native currency escrowed where its offered asset is the native
/// sentinel.
pub open spec fn counter_decision(
    program_id: Key,
    a: CounterAccounts,
    stored: Option<Offer>,
    t: CounterTerms,
    rent_lamports: u64,
) -> Decision {
    let o = stored.unwrap();
    if stored_fault(program_id, a.counter_maker, a.original_offer, stored) is Some {
        rejected(stored_fault(program_id, a.counter_maker, a.original_offer, stored).unwrap())
    } else if o.status != OfferStatus::Active {
        rejected(SwapError::InvalidOfferStatus)
    } else if a.counter_maker.key@ != o.maker@ && !names(o.taker, a.counter_maker.key) {
        rejected(SwapError::Unauthorized)
    } else if o.escrow_sol_amount > 0 {
        if a.original_maker_sol is None {
            rejected(SwapError::MissingRequiredAccount)
        } else if a.original_maker_sol.unwrap().key@ != o.maker@ {
            rejected(SwapError::IncorrectOwner)
        } else {
            match native_transfer(
                a.original_offer,
                a.original_maker_sol.unwrap(),
                a.system_program,
                o.escrow_sol_amount,
                0,
                0,
                Authority::Derived(stored_seeds(o)),
            ) {
                Err(e) => rejected(e),
                Ok(refund) => counter_tail(program_id, a, o, t, rent_lamports, seq![refund]),
            }
        }
    } else {
        counter_tail(program_id, a, o, t, rent_lamports, Seq::empty())
    }
}

/// What a cancel request decides: only the maker cancels, only an active
/// offer, and any escrowed native currency goes back to the maker in full.
pub open spec fn cancel_decision(program_id: Key, a: CancelAccounts, stored: Option<Offer>) -> Decision {
    let o = stored.unwrap();
    let write = Effect::WriteOffer { account: a.offer.key, offer: closed(o, OfferStatus::Declined) };
    if stored_fault(program_id, a.maker, a.offer, stored) is Some {
        rejected(stored_fault(program_id, a.maker, a.offer, stored).unwrap())
    } else if o.maker@ != a.maker.key@ {
        rejected(SwapError::Unauthorized)
    } else if o.status != OfferStatus::Active {
        rejected(SwapError::InvalidOfferStatus)
    } else if o.escrow_sol_amount > 0 {
        if a.maker_sol is None {
            rejected(SwapError::MissingRequiredAccount)
        } else if a.maker_sol.unwrap().key@ != a.maker.key@ {
            rejected(SwapError::IncorrectOwner)
        } else {
            match native_transfer(
                a.offer,
                a.maker_sol.unwrap(),
                a.system_program,
                o.escrow_sol_amount,
                0,
                0,
                Authority::Derived(stored_seeds(o)),
            ) {
                Err(e) => rejected(e),
                Ok(refund) => done(seq![refund, write]),
            }
        }
    } else {
        done(seq![write])
    }
}

} // verus!
