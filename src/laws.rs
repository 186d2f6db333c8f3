use vstd::prelude::*;

use crate::accounts::{
    AcceptAccounts, CancelAccounts, CounterAccounts, CounterTerms, CreateAccounts, CreateTerms,
};
use crate::address::{new_address_ok, offer_address, program_address};
use crate::effects::{
    lemma_native_delta_append, lemma_native_delta_of_three, lemma_token_delta_of_three,
    native_delta, rejected, token_delta, Effect,
};
use crate::decision::{
    accept_decision, cancel_decision, closed, counter_decision, countered_offer, create_decision,
    create_seeds, created_offer, lapsed, stored_seeds,
};
use crate::key::Key;
use crate::state::{Offer, OfferStatus, SwapError};

verus! {

/// A create request succeeds only at the address that its own seed tuple
/// derives, and the record it writes derives that same address again from
/// its stored fields: every later operation on the record finds it where it
/// is. A salt that is not the canonical bump of its tuple is refused.
pub proof fn law_created_offer_rederives(
    program_id: Key,
    a: CreateAccounts,
    t: CreateTerms,
    rent_lamports: u64,
)
    ensures
        create_decision(program_id, a, t, rent_lamports).1 is None ==> new_address_ok(
            program_id@,
            create_seeds(a, t),
            a.offer.key@,
        ) && offer_address(program_id@, stored_seeds(created_offer(a.maker.key, a, t)))
            == a.offer.key@,
        a.maker.is_signer && program_address(create_seeds(a, t).seed_list(), program_id@).1
            != t.bump_seed ==> create_decision(program_id, a, t, rent_lamports) == rejected(
            SwapError::InvalidProgramAddress,
        ),
{
    assert(stored_seeds(created_offer(a.maker.key, a, t)) == create_seeds(a, t));
}

/// Accepting an offer a second time fails with `InvalidOfferStatus` and
/// commits nothing, so no balance moves: the first acceptance wrote the
/// record as `Accepted`, and an accepted record is never settled again.
pub proof fn law_no_double_settlement(
    program_id: Key,
    a: AcceptAccounts,
    o: Offer,
    now: i64,
    again: AcceptAccounts,
    later: i64,
)
    requires
        accept_decision(program_id, a, Some(o), now).1 is None,
        again.taker.is_signer,
        again.offer.owner@ == program_id@,
        again.offer.key@ == a.offer.key@,
    ensures
        accept_decision(program_id, a, Some(o), now).0.last() == (Effect::WriteOffer {
            account: a.offer.key,
            offer: closed(o, OfferStatus::Accepted),
        }),
        accept_decision(program_id, again, Some(closed(o, OfferStatus::Accepted)), later)
            == rejected(SwapError::InvalidOfferStatus),
{
    assert(stored_seeds(closed(o, OfferStatus::Accepted)) == stored_seeds(o));
}

/// Accepting an active offer past its expiration fails with `OfferExpired`
/// and writes the record as `Expired`; any later accept of that record fails
/// with `InvalidOfferStatus`, never `OfferExpired` again.
pub proof fn law_expiry_is_final(
    program_id: Key,
    a: AcceptAccounts,
    o: Offer,
    now: i64,
    again: AcceptAccounts,
    later: i64,
)
    requires
        a.taker.is_signer,
        a.offer.owner@ == program_id@,
        offer_address(program_id@, stored_seeds(o)) == a.offer.key@,
        o.status == OfferStatus::Active,
        lapsed(o.expiration, now),
        again.taker.is_signer,
        again.offer.owner@ == program_id@,
        again.offer.key@ == a.offer.key@,
    ensures
        accept_decision(program_id, a, Some(o), now) == (
            seq![
                Effect::WriteOffer {
                    account: a.offer.key,
                    offer: Offer { status: OfferStatus::Expired, ..o },
                },
            ],
            Some(SwapError::OfferExpired),
        ),
        accept_decision(
            program_id,
            again,
            Some(Offer { status: OfferStatus::Expired, ..o }),
            later,
        ) == rejected(SwapError::InvalidOfferStatus),
{
    assert(stored_seeds(Offer { status: OfferStatus::Expired, ..o }) == stored_seeds(o));
}

/// After a successful counter, the new record names as taker whichever party
/// of the original did not counter: the original maker when the original
/// taker countered, the original taker when the original maker did. The new
/// record is marked as a counter of the original, which moves to `Countered`
/// with no escrow left.
pub proof fn law_counter_swaps_roles(
    program_id: Key,
    a: CounterAccounts,
    o: Offer,
    t: CounterTerms,
    rent_lamports: u64,
)
    requires
        counter_decision(program_id, a, Some(o), t, rent_lamports).1 is None,
    ensures
        ({
            let effects = counter_decision(program_id, a, Some(o), t, rent_lamports).0;
            let n = effects.len();
            n >= 2 && effects[n - 1] == (Effect::WriteOffer {
                account: a.original_offer.key,
                offer: closed(o, OfferStatus::Countered),
            }) && match effects[n - 2] {
                Effect::WriteOffer { account, offer } => {
                    &&& account == a.new_offer.key
                    &&& offer.maker == a.counter_maker.key
                    &&& a.counter_maker.key@ != o.maker@ ==> offer.taker == Some(o.maker)
                    &&& a.counter_maker.key@ == o.maker@ ==> offer.taker == o.taker
                    &&& offer.is_counter_offer
                    &&& offer.original_offer_id == Some(a.original_offer.key)
                    &&& offer.status == OfferStatus::Active
                },
                _ => false,
            }
        }),
{
}

/// Escrow on creation: what the maker pays is exactly the storage's funding
/// plus the escrow that the new record states, and all of it lands in the
/// offer's storage.
pub proof fn law_create_escrow(program_id: Key, a: CreateAccounts, t: CreateTerms, rent_lamports: u64)
    requires
        create_decision(program_id, a, t, rent_lamports).1 is None,
        a.maker.key@ != a.offer.key@,
    ensures
        ({
            let effects = create_decision(program_id, a, t, rent_lamports).0;
            let escrow = created_offer(a.maker.key, a, t).escrow_sol_amount;
            &&& native_delta(effects, a.maker.key@) == -(rent_lamports + escrow)
            &&& native_delta(effects, a.offer.key@) == rent_lamports + escrow
        }),
{
    let d = create_decision(program_id, a, t, rent_lamports);
    if d.0.len() == 3 {
        lemma_native_delta_of_three(d.0[0], d.0[1], d.0[2], a.maker.key@);
        lemma_native_delta_of_three(d.0[0], d.0[1], d.0[2], a.offer.key@);
        assert(d.0 =~= seq![d.0[0], d.0[1], d.0[2]]);
    } else {
        lemma_native_delta_of_three(d.0[0], d.0[1], d.0[1], a.maker.key@);
        lemma_native_delta_of_three(d.0[0], d.0[1], d.0[1], a.offer.key@);
        assert(d.0 =~= seq![d.0[0], d.0[1]]);
    }
}

/// Escrow on cancellation: the maker gets back exactly the escrow that the
/// record held, the offer's storage gives up exactly that, and the record
/// is left holding none, so the maker's balance plus the escrow is kept.
pub proof fn law_cancel_refunds_escrow(program_id: Key, a: CancelAccounts, o: Offer)
    requires
        cancel_decision(program_id, a, Some(o)).1 is None,
        a.maker.key@ != a.offer.key@,
    ensures
        ({
            let effects = cancel_decision(program_id, a, Some(o)).0;
            &&& native_delta(effects, a.maker.key@) == o.escrow_sol_amount
            &&& native_delta(effects, a.offer.key@) == -o.escrow_sol_amount
            &&& effects.last() == (Effect::WriteOffer {
                account: a.offer.key,
                offer: closed(o, OfferStatus::Declined),
            })
            &&& closed(o, OfferStatus::Declined).escrow_sol_amount == 0
        }),
{
    let d = cancel_decision(program_id, a, Some(o));
    if d.0.len() == 2 {
        lemma_native_delta_of_three(d.0[0], d.0[1], d.0[1], a.maker.key@);
        lemma_native_delta_of_three(d.0[0], d.0[1], d.0[1], a.offer.key@);
        assert(d.0 =~= seq![d.0[0], d.0[1]]);
    } else {
        lemma_native_delta_of_three(d.0[0], d.0[0], d.0[0], a.maker.key@);
        lemma_native_delta_of_three(d.0[0], d.0[0], d.0[0], a.offer.key@);
        assert(d.0 =~= seq![d.0[0]]);
    }
}

/// Escrow on acceptance: the offer's storage gives up exactly its escrow,
/// which goes to the maker, and the record is left holding none; beyond
/// that the maker's native balance grows only by what the acceptor pays
/// where the maker asked for native currency.
pub proof fn law_accept_settles_escrow(program_id: Key, a: AcceptAccounts, o: Offer, now: i64)
    requires
        accept_decision(program_id, a, Some(o), now).1 is None,
        a.maker.key@ != a.offer.key@,
        a.taker.key@ != a.offer.key@,
        a.taker.key@ != a.maker.key@,
    ensures
        ({
            let effects = accept_decision(program_id, a, Some(o), now).0;
            let after = closed(o, OfferStatus::Accepted);
            &&& native_delta(effects, a.offer.key@) == -o.escrow_sol_amount
            &&& native_delta(effects, a.maker.key@) + after.escrow_sol_amount
                - o.escrow_sol_amount == if o.escrow_sol_amount > 0 {
                0
            } else {
                o.receive_token_amount as int
            }
            &&& native_delta(effects, a.taker.key@) == if o.escrow_sol_amount > 0 {
                0
            } else {
                -o.receive_token_amount
            }
        }),
{
    let d = accept_decision(program_id, a, Some(o), now);
    lemma_native_delta_of_three(d.0[0], d.0[1], d.0[2], a.maker.key@);
    lemma_native_delta_of_three(d.0[0], d.0[1], d.0[2], a.offer.key@);
    lemma_native_delta_of_three(d.0[0], d.0[1], d.0[2], a.taker.key@);
    assert(d.0 =~= seq![d.0[0], d.0[1], d.0[2]]);
}

/// Escrow on counter: the original offer's storage gives up exactly its
/// escrow, which goes back to the original maker, and the original record
/// is left holding none. Where the original maker counters, they also pay the
/// new offer's funding and escrow.
pub proof fn law_counter_refunds_escrow(
    program_id: Key,
    a: CounterAccounts,
    o: Offer,
    t: CounterTerms,
    rent_lamports: u64,
)
    requires
        counter_decision(program_id, a, Some(o), t, rent_lamports).1 is None,
        a.original_offer.key@ != a.new_offer.key@,
        a.original_offer.key@ != o.maker@,
        a.original_offer.key@ != a.counter_maker.key@,
        a.new_offer.key@ != o.maker@,
        a.new_offer.key@ != a.counter_maker.key@,
    ensures
        ({
            let effects = counter_decision(program_id, a, Some(o), t, rent_lamports).0;
            let fresh = countered_offer(o, a, t);
            &&& native_delta(effects, a.original_offer.key@) == -o.escrow_sol_amount
            &&& native_delta(effects, o.maker@) == o.escrow_sol_amount - if a.counter_maker.key@
                == o.maker@ {
                rent_lamports + fresh.escrow_sol_amount
            } else {
                0
            }
            &&& native_delta(effects, a.new_offer.key@) == rent_lamports + fresh.escrow_sol_amount
            &&& closed(o, OfferStatus::Countered).escrow_sol_amount == 0
        }),
{
    let d = counter_decision(program_id, a, Some(o), t, rent_lamports);
    let n = d.0.len() as int;
    let writes = d.0.subrange(n - 2, n);
    let head = d.0.subrange(0, n - 2);
    assert(d.0 =~= head + writes);
    assert(writes =~= seq![writes[0], writes[1]]);
    lemma_native_delta_append(head, writes, a.original_offer.key@);
    lemma_native_delta_append(head, writes, o.maker@);
    lemma_native_delta_append(head, writes, a.new_offer.key@);
    lemma_native_delta_of_three(writes[0], writes[1], writes[1], a.original_offer.key@);
    lemma_native_delta_of_three(writes[0], writes[1], writes[1], o.maker@);
    lemma_native_delta_of_three(writes[0], writes[1], writes[1], a.new_offer.key@);
    if head.len() == 3 {
        assert(head =~= seq![head[0], head[1], head[2]]);
        lemma_native_delta_of_three(head[0], head[1], head[2], a.original_offer.key@);
        lemma_native_delta_of_three(head[0], head[1], head[2], o.maker@);
        lemma_native_delta_of_three(head[0], head[1], head[2], a.new_offer.key@);
    } else if head.len() == 2 {
        assert(head =~= seq![head[0], head[1]]);
        lemma_native_delta_of_three(head[0], head[1], head[1], a.original_offer.key@);
        lemma_native_delta_of_three(head[0], head[1], head[1], o.maker@);
        lemma_native_delta_of_three(head[0], head[1], head[1], a.new_offer.key@);
    } else {
        assert(head =~= seq![head[0]]);
        lemma_native_delta_of_three(head[0], head[0], head[0], a.original_offer.key@);
        lemma_native_delta_of_three(head[0], head[0], head[0], o.maker@);
        lemma_native_delta_of_three(head[0], head[0], head[0], a.new_offer.key@);
    }
}

/// Escrow across a whole life, create then cancel: the maker ends down by
/// the storage's funding alone and the offer's storage keeps only that
/// funding, whatever was escrowed in between.
pub proof fn law_create_then_cancel_conserves(
    program_id: Key,
    a: CreateAccounts,
    t: CreateTerms,
    rent_lamports: u64,
    c: CancelAccounts,
)
    requires
        create_decision(program_id, a, t, rent_lamports).1 is None,
        cancel_decision(program_id, c, Some(created_offer(a.maker.key, a, t))).1 is None,
        c.maker.key@ == a.maker.key@,
        c.offer.key@ == a.offer.key@,
        a.maker.key@ != a.offer.key@,
    ensures
        ({
            let effects = create_decision(program_id, a, t, rent_lamports).0 + cancel_decision(
                program_id,
                c,
                Some(created_offer(a.maker.key, a, t)),
            ).0;
            &&& native_delta(effects, a.maker.key@) == -rent_lamports
            &&& native_delta(effects, a.offer.key@) == rent_lamports
        }),
{
    let o = created_offer(a.maker.key, a, t);
    let first = create_decision(program_id, a, t, rent_lamports).0;
    let second = cancel_decision(program_id, c, Some(o)).0;
    law_create_escrow(program_id, a, t, rent_lamports);
    law_cancel_refunds_escrow(program_id, c, o);
    lemma_native_delta_append(first, second, a.maker.key@);
    lemma_native_delta_append(first, second, a.offer.key@);
}

/// Escrow across a whole life, create then accept: the offer's storage keeps
/// only its funding, and the maker ends down by that funding, up by what the
/// acceptor paid in native currency where the maker asked for it.
pub proof fn law_create_then_accept_conserves(
    program_id: Key,
    a: CreateAccounts,
    t: CreateTerms,
    rent_lamports: u64,
    c: AcceptAccounts,
    now: i64,
)
    requires
        create_decision(program_id, a, t, rent_lamports).1 is None,
        accept_decision(program_id, c, Some(created_offer(a.maker.key, a, t)), now).1 is None,
        c.offer.key@ == a.offer.key@,
        a.maker.key@ != a.offer.key@,
        c.taker.key@ != a.offer.key@,
        c.taker.key@ != a.maker.key@,
    ensures
        ({
            let o = created_offer(a.maker.key, a, t);
            let effects = create_decision(program_id, a, t, rent_lamports).0 + accept_decision(
                program_id,
                c,
                Some(o),
                now,
            ).0;
            &&& native_delta(effects, a.maker.key@) == -rent_lamports + if o.escrow_sol_amount
                > 0 {
                0
            } else {
                o.receive_token_amount as int
            }
            &&& native_delta(effects, a.offer.key@) == rent_lamports
        }),
{
    let o = created_offer(a.maker.key, a, t);
    let first = create_decision(program_id, a, t, rent_lamports).0;
    let second = accept_decision(program_id, c, Some(o), now).0;
    law_create_escrow(program_id, a, t, rent_lamports);
    law_accept_settles_escrow(program_id, c, o, now);
    lemma_native_delta_append(first, second, a.maker.key@);
    lemma_native_delta_append(first, second, a.offer.key@);
}

/// Both legs on acceptance: the asset that changes hands leaves one holding
/// and reaches the other in exactly the stated amount. Where the maker
/// escrowed native currency, the acceptor's holding pays the requested asset
/// to the maker's; otherwise the maker's holding delivers the offered asset
/// to the acceptor's.
pub proof fn law_accept_moves_asset(program_id: Key, a: AcceptAccounts, o: Offer, now: i64)
    requires
        accept_decision(program_id, a, Some(o), now).1 is None,
        a.maker_token.key@ != a.taker_token.key@,
    ensures
        ({
            let effects = accept_decision(program_id, a, Some(o), now).0;
            if o.escrow_sol_amount > 0 {
                &&& token_delta(effects, o.receive_token_mint@, a.taker_token.key@)
                    == -o.receive_token_amount
                &&& token_delta(effects, o.receive_token_mint@, a.maker_token.key@)
                    == o.receive_token_amount
            } else {
                &&& token_delta(effects, o.offer_token_mint@, a.maker_token.key@)
                    == -o.offer_token_amount
                &&& token_delta(effects, o.offer_token_mint@, a.taker_token.key@)
                    == o.offer_token_amount
            }
        }),
{
    let d = accept_decision(program_id, a, Some(o), now);
    assert(d.0 =~= seq![d.0[0], d.0[1], d.0[2]]);
    lemma_token_delta_of_three(d.0[0], d.0[1], d.0[2], o.receive_token_mint@, a.taker_token.key@);
    lemma_token_delta_of_three(d.0[0], d.0[1], d.0[2], o.receive_token_mint@, a.maker_token.key@);
    lemma_token_delta_of_three(d.0[0], d.0[1], d.0[2], o.offer_token_mint@, a.taker_token.key@);
    lemma_token_delta_of_three(d.0[0], d.0[1], d.0[2], o.offer_token_mint@, a.maker_token.key@);
}

} // verus!
