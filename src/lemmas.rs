use crate::bridge::{
    escrow_index, with_escrow, with_holder_account, setup_result, set_up_into, unchanged, unwrap_result, unwrapped_into, wrap_result,
    wrapped_into, Bridge, Initialize, SetupError,
};
use crate::ledger::{burn_result, credit, transfer_result};
use vstd::prelude::*;

verus! {

/// One exchange on a bridge, as it appears in a run.
#[derive(Clone, Copy, Debug)]
pub enum Exchange {
    Wrap { from: usize, to: usize, amount: u64 },
    Unwrap { to: usize, from: usize, amount: u64 },
}

/// `a` follows `b` by `step`: the exchange committed, or nothing changed.
pub open spec fn step_taken(b: Bridge, a: Bridge, step: Exchange) -> bool {
    match step {
        Exchange::Wrap { from, to, amount } => (wrap_result(b, from as int, to as int, amount) is Ok
            && wrapped_into(b, a, from as int, to as int, amount)) || unchanged(b, a),
        Exchange::Unwrap { to, from, amount } => (unwrap_result(b, to as int, from as int, amount) is Ok
            && unwrapped_into(b, a, to as int, from as int, amount)) || unchanged(b, a),
    }
}

/// `states` is what a bridge goes through under `steps`.
pub open spec fn is_run(states: Seq<Bridge>, steps: Seq<Exchange>) -> bool {
    &&& states.len() == steps.len() + 1
    &&& forall|i: int| 0 <= i < steps.len() ==> #[trigger] step_taken(states[i], states[i + 1], steps[i])
}

/// A committed wrap keeps the wrapped supply equal to the escrow's balance,
/// and raises both by the amount.
pub proof fn lemma_wrap_keeps_backing(b: Bridge, a: Bridge, from: int, to: int, amount: u64)
    requires
        b.wf(),
        wrap_result(b, from, to, amount) is Ok,
        wrapped_into(b, a, from, to, amount),
    ensures
        a.wf(),
        a.escrow_balance() == b.escrow_balance() + amount,
        a.wrapped.supply == b.wrapped.supply + amount,
{
    let e = escrow_index(b);
    let accounts = with_escrow(b);
    assert(0 <= e < accounts.len());
    assert(accounts[e].amount == b.escrow_balance());
    assert(credit(accounts, from, -amount)[e] == accounts[e]);
    assert(a.original.accounts@[e].amount == accounts[e].amount + amount);
}

/// A committed unwrap keeps the wrapped supply equal to the escrow's balance,
/// and lowers both by the amount.
pub proof fn lemma_unwrap_keeps_backing(b: Bridge, a: Bridge, to: int, from: int, amount: u64)
    requires
        b.wf(),
        unwrap_result(b, to, from, amount) is Ok,
        unwrapped_into(b, a, to, from, amount),
    ensures
        a.wf(),
        a.escrow_balance() == b.escrow_balance() - amount,
        a.wrapped.supply == b.wrapped.supply - amount,
{
    let e = escrow_index(b);
    let accounts = b.original.accounts@;
    assert(accounts[e].amount == b.escrow_balance());
    assert(credit(accounts, e, -amount)[e].amount == accounts[e].amount - amount);
    assert(a.original.accounts@[e].amount == accounts[e].amount - amount);
}

/// Along any run of wraps and unwraps from a well-formed bridge, the escrow
/// holds exactly the wrapped supply after every step.
pub proof fn lemma_backing_along_run(states: Seq<Bridge>, steps: Seq<Exchange>)
    requires
        is_run(states, steps),
        states[0].wf(),
    ensures
        forall|i: int| 0 <= i < states.len() ==> #[trigger] states[i].wf(),
        forall|i: int| 0 <= i < states.len() ==> #[trigger] states[i].escrow_balance() == states[i].wrapped.supply,
    decreases steps.len(),
{
    if steps.len() > 0 {
        let n = steps.len() - 1;
        lemma_backing_along_run(states.drop_last(), steps.drop_last());
        assert(states.drop_last()[n].wf());
        assert(step_taken(states[n], states[n + 1], steps[n]));
        match steps[n] {
            Exchange::Wrap { from, to, amount } => {
                if !unchanged(states[n], states[n + 1]) {
                    lemma_wrap_keeps_backing(states[n], states[n + 1], from as int, to as int, amount);
                }
            },
            Exchange::Unwrap { to, from, amount } => {
                if !unchanged(states[n], states[n + 1]) {
                    lemma_unwrap_keeps_backing(states[n], states[n + 1], to as int, from as int, amount);
                }
            },
        }
        assert forall|i: int| 0 <= i < states.len() implies #[trigger] states[i].wf() by {
            if i < n + 1 {
                assert(states.drop_last()[i] == states[i]);
            }
        }
    }
    assert forall|i: int| 0 <= i < states.len() implies #[trigger] states[i].escrow_balance()
        == states[i].wrapped.supply by {
        assert(states[i].wf());
    }
}

/// Once setup has created the descriptor, setup again fails: with the same
/// accounts it reports that the descriptor exists, and with any it fails.
pub proof fn lemma_setup_twice_fails(
    b: Bridge,
    a: Bridge,
    descriptor: Option<(Seq<u8>, u8)>,
    authority: Option<(Seq<u8>, u8)>,
    accounts: Initialize,
    again: Initialize,
)
    requires
        setup_result(b, descriptor, authority, accounts) is Ok,
        set_up_into(b, a, descriptor, accounts),
    ensures
        setup_result(a, descriptor, authority, accounts) == Err::<(), SetupError>(SetupError::AlreadyExists),
        setup_result(a, descriptor, authority, again) is Err,
{
}

/// A wrap followed by an unwrap of the same amount by the same holder
/// succeeds and gives every balance and both supplies back exactly (an account
/// that the wrap opened holds zero again).
pub proof fn lemma_round_trip(b0: Bridge, b1: Bridge, b2: Bridge, original: int, wrapped: int, amount: u64)
    requires
        b0.wf(),
        wrap_result(b0, original, wrapped, amount) is Ok,
        wrapped_into(b0, b1, original, wrapped, amount),
        unwrapped_into(b1, b2, original, wrapped, amount),
    ensures
        unwrap_result(b1, original, wrapped, amount) is Ok,
        forall|i: int| #[trigger] b2.original.balance(i) == b0.original.balance(i),
        b2.original.supply == b0.original.supply,
        forall|i: int| #[trigger] b2.wrapped.balance(i) == b0.wrapped.balance(i),
        b2.wrapped.supply == b0.wrapped.supply,
        b2.escrow_balance() == b0.escrow_balance(),
{
    let e = escrow_index(b0);
    let a0 = with_escrow(b0);
    lemma_wrap_keeps_backing(b0, b1, original, wrapped, amount);
    assert(escrow_index(b1) == e);
    assert(b1.original.accounts@[e].amount == a0[e].amount + amount);
    assert(b1.original.accounts@[original].amount == a0[original].amount - amount);
    assert(b1.original.accounts@[original].frozen == a0[original].frozen);
    assert(b1.original.accounts@[e].frozen == a0[e].frozen);
    assert(transfer_result(b1.original.accounts@, e, original, amount) is Ok);
    let w0 = with_holder_account(b0.wrapped.accounts@, wrapped);
    assert(b1.wrapped.accounts@[wrapped].amount == w0[wrapped].amount + amount);
    assert(burn_result(b1.wrapped, wrapped, amount) is Ok);
    assert(b2.original.accounts@ =~= a0);
    assert forall|i: int| #[trigger] b2.original.balance(i) == b0.original.balance(i) by {
        if b0.escrow is None && i == e {
            assert(a0[e].amount == 0);
        } else if 0 <= i < b0.original.accounts@.len() {
            assert(a0[i] == b0.original.accounts@[i]);
        }
    }
    assert(b2.wrapped.accounts@ =~= w0);
    assert forall|i: int| #[trigger] b2.wrapped.balance(i) == b0.wrapped.balance(i) by {
        if wrapped == b0.wrapped.accounts@.len() && i == wrapped {
            assert(w0[i].amount == 0);
        } else if 0 <= i < b0.wrapped.accounts@.len() {
            assert(w0[i] == b0.wrapped.accounts@[i]);
        }
    }
}

} // verus!
