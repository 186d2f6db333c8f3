use vstd::prelude::*;

use crate::address::OfferSeeds;
use crate::key::Key;
use crate::state::{Offer, SwapError};

verus! {

/// Who authorizes a debit: the owning party's own signature, or the engine's
/// derived authority over an offer's escrow address.
#[derive(Clone, Copy, Debug)]
pub enum Authority {
    Signature(Key),
    Derived(OfferSeeds),
}

/// One step that an accepted operation asks the host ledger to carry out, in
/// order.
#[derive(Clone, Copy, Debug)]
pub enum Effect {
    /// Allocate an offer's storage, funded by `payer`, owned by `owner`.
    CreateAccount { payer: Key, account: Key, lamports: u64, space: u64, owner: Key, seeds: OfferSeeds },
    /// Move native currency.
    TransferNative { from: Key, to: Key, amount: u64, authority: Authority },
    /// Move units of the asset `mint` between two holding accounts.
    TransferToken {
        source: Key,
        mint: Key,
        destination: Key,
        authority: Authority,
        amount: u64,
        decimals: u8,
    },
    /// Persist an offer record at `account`.
    WriteOffer { account: Key, offer: Offer },
}

/// What an operation decided: the effects to commit, in order, and the error
/// it failed with, if it failed. A failed operation commits no effect but
/// where its contract says otherwise.
#[derive(Debug)]
pub struct Outcome {
    pub effects: Vec<Effect>,
    pub error: Option<SwapError>,
}

/// The spec form of an outcome.
pub type Decision = (Seq<Effect>, Option<SwapError>);

pub open spec fn rejected(e: SwapError) -> Decision {
    (Seq::empty(), Some(e))
}

pub open spec fn done(effects: Seq<Effect>) -> Decision {
    (effects, None)
}

impl Outcome {
    pub open spec fn decision(&self) -> Decision {
        (self.effects@, self.error)
    }

    pub fn reject(e: SwapError) -> (r: Outcome)
        ensures
            r.decision() == rejected(e),
    {
        Outcome { effects: Vec::new(), error: Some(e) }
    }
}

/// Change of the native balance of `k` by one effect.
pub open spec fn native_step(e: Effect, k: Seq<u8>) -> int {
    match e {
        Effect::CreateAccount { payer, account, lamports, .. } => (if account@ == k {
            lamports as int
        } else {
            0
        }) - (if payer@ == k {
            lamports as int
        } else {
            0
        }),
        Effect::TransferNative { from, to, amount, .. } => (if to@ == k {
            amount as int
        } else {
            0
        }) - (if from@ == k {
            amount as int
        } else {
            0
        }),
        _ => 0,
    }
}

/// Net change of the native balance of `k` over a list of effects.
pub open spec fn native_delta(effects: Seq<Effect>, k: Seq<u8>) -> int
    decreases effects.len(),
{
    if effects.len() == 0 {
        0
    } else {
        native_delta(effects.drop_last(), k) + native_step(effects.last(), k)
    }
}

/// The net change over two lists run one after the other is the sum of the
/// two.
pub proof fn lemma_native_delta_append(s: Seq<Effect>, t: Seq<Effect>, k: Seq<u8>)
    ensures
        native_delta(s + t, k) == native_delta(s, k) + native_delta(t, k),
    decreases t.len(),
{
    if t.len() > 0 {
        assert((s + t).drop_last() =~= s + t.drop_last());
        lemma_native_delta_append(s, t.drop_last(), k);
    } else {
        assert(s + t =~= s);
    }
}

/// The net change over a list is the sum of the steps of its effects.
pub proof fn lemma_native_delta_of_three(a: Effect, b: Effect, c: Effect, k: Seq<u8>)
    ensures
        native_delta(seq![a], k) == native_step(a, k),
        native_delta(seq![a, b], k) == native_step(a, k) + native_step(b, k),
        native_delta(seq![a, b, c], k) == native_step(a, k) + native_step(b, k) + native_step(c, k),
{
    assert(seq![a].drop_last() =~= Seq::<Effect>::empty());
    assert(seq![a, b].drop_last() =~= seq![a]);
    assert(seq![a, b, c].drop_last() =~= seq![a, b]);
    assert(native_delta(Seq::<Effect>::empty(), k) == 0);
    assert(native_delta(seq![a], k) == native_step(a, k));
    assert(native_delta(seq![a, b], k) == native_step(a, k) + native_step(b, k));
}

/// Change of the balance of asset `mint` held in account `k` by one effect.
pub open spec fn token_step(e: Effect, mint: Seq<u8>, k: Seq<u8>) -> int {
    match e {
        Effect::TransferToken { source, mint: m, destination, amount, .. } => if m@ == mint {
            (if destination@ == k {
                amount as int
            } else {
                0
            }) - (if source@ == k {
                amount as int
            } else {
                0
            })
        } else {
            0
        },
        _ => 0,
    }
}

/// Net change of the balance of asset `mint` held in account `k` over a list
/// of effects.
pub open spec fn token_delta(effects: Seq<Effect>, mint: Seq<u8>, k: Seq<u8>) -> int
    decreases effects.len(),
{
    if effects.len() == 0 {
        0
    } else {
        token_delta(effects.drop_last(), mint, k) + token_step(effects.last(), mint, k)
    }
}

/// The net asset change over a list of three is the sum of the steps.
pub proof fn lemma_token_delta_of_three(a: Effect, b: Effect, c: Effect, mint: Seq<u8>, k: Seq<u8>)
    ensures
        token_delta(seq![a, b, c], mint, k) == token_step(a, mint, k) + token_step(b, mint, k)
            + token_step(c, mint, k),
{
    assert(seq![a].drop_last() =~= Seq::<Effect>::empty());
    assert(seq![a, b].drop_last() =~= seq![a]);
    assert(seq![a, b, c].drop_last() =~= seq![a, b]);
    assert(token_delta(Seq::<Effect>::empty(), mint, k) == 0);
    assert(token_delta(seq![a], mint, k) == token_step(a, mint, k));
    assert(token_delta(seq![a, b], mint, k) == token_step(a, mint, k) + token_step(b, mint, k));
}

} // verus!
