//! What holds of every ledger: conservation of the supply, exact debits and credits,
//! and what each operation leaves untouched.

use vstd::prelude::*;
use ink_env::AccountId;
use crate::model::{settled, Call, Ledger};
use crate::storage::{Balance, Balances};
use crate::sum::{amount_at, lemma_sum_bounds, lemma_sum_empty, lemma_sum_insert, sum_of};

verus! {

/// Moving an amount that the source holds keeps the sum of the balances, and writes
/// exactly what arithmetic without bounds gives: the source has `value` less, the
/// target `value` more, an account that is both has what it had, and every other
/// account has what it had. Nothing wraps and nothing falls below zero.
pub proof fn lemma_settled(balances: Balances, from: AccountId, to: AccountId, value: Balance)
    requires
        balances.dom().finite(),
        sum_of(balances) <= Balance::MAX,
        value <= amount_at(balances, from),
    ensures
        settled(balances, from, to, value).dom().finite(),
        sum_of(settled(balances, from, to, value)) == sum_of(balances),
        from != to ==> amount_at(settled(balances, from, to, value), from) == amount_at(balances, from) - value,
        from != to ==> amount_at(settled(balances, from, to, value), to) == amount_at(balances, to) + value,
        from == to ==> amount_at(settled(balances, from, to, value), from) == amount_at(balances, from),
        forall|other: AccountId| other != from && other != to
            ==> amount_at(settled(balances, from, to, value), other) == amount_at(balances, other),
{
    let debited = balances.insert(from, (amount_at(balances, from) - value) as Balance);
    lemma_sum_insert(balances, from, (amount_at(balances, from) - value) as Balance);
    lemma_sum_bounds(debited, to);
    lemma_sum_insert(debited, to, (amount_at(debited, to) + value) as Balance);
}

/// Conservation at construction: a new ledger is valid, its balances summing to the
/// supply it was made with.
pub proof fn lemma_minted_valid(supply: Balance, minter: AccountId)
    ensures
        Ledger::minted(supply, minter).valid(),
        Ledger::minted(supply, minter).balance_of(minter) == supply,
{
    lemma_sum_empty::<AccountId>();
    lemma_sum_insert(Map::empty(), minter, supply);
}

/// Conservation across one call: whatever call succeeds on a valid ledger leaves a
/// valid ledger with the same total supply.
pub proof fn lemma_step_valid(ledger: Ledger, call: Call)
    requires
        ledger.valid(),
        ledger.step(call) is Ok,
    ensures
        ledger.step(call)->Ok_0.valid(),
        ledger.step(call)->Ok_0.total_supply == ledger.total_supply,
{
    match call {
        Call::Transfer { caller, to, value } => {
            lemma_settled(ledger.balances, caller, to, value);
        },
        Call::TransferFrom { caller, from, to, value } => {
            lemma_settled(ledger.balances, from, to, value);
        },
        _ => {},
    }
}

/// Conservation: after any sequence of calls on a valid ledger, refused ones
/// included, the balances still sum to the total supply, which is what it was.
pub proof fn lemma_conservation(ledger: Ledger, calls: Seq<Call>)
    requires
        ledger.valid(),
    ensures
        ledger.after(calls).valid(),
        ledger.after(calls).circulating() == ledger.total_supply,
        ledger.after(calls).total_supply == ledger.total_supply,
    decreases calls.len(),
{
    if calls.len() > 0 {
        lemma_conservation(ledger, calls.drop_last());
        let before = ledger.after(calls.drop_last());
        if before.step(calls.last()) is Ok {
            lemma_step_valid(before, calls.last());
        }
    }
}

/// Atomicity: a call that is refused leaves the ledger as it was, whatever calls came
/// before it.
pub proof fn lemma_refused_call_changes_nothing(ledger: Ledger, calls: Seq<Call>, call: Call)
    requires
        ledger.after(calls).step(call) is Err,
    ensures
        ledger.after(calls.push(call)) == ledger.after(calls),
{
    assert(calls.push(call).drop_last() =~= calls);
}

/// No balance exceeds the total supply of a valid ledger.
pub proof fn lemma_balance_within_supply(ledger: Ledger, owner: AccountId)
    requires
        ledger.valid(),
    ensures
        ledger.balance_of(owner) <= ledger.total_supply,
{
    lemma_sum_bounds(ledger.balances, owner);
}

/// What a transfer does, in exact arithmetic: it succeeds exactly where `from` holds
/// `value`; then `from` has `value` less and `to` has `value` more, or, where they
/// are one account, it has what it had; every other balance and every allowance is
/// as it was.
pub proof fn lemma_transfer_exact(ledger: Ledger, from: AccountId, to: AccountId, value: Balance)
    requires
        ledger.valid(),
    ensures
        ledger.inner_transfer(from, to, value) is Ok <==> value <= ledger.balance_of(from),
        ledger.inner_transfer(from, to, value) matches Ok(next) ==> {
            &&& from != to ==> next.balance_of(from) == ledger.balance_of(from) - value
            &&& from != to ==> next.balance_of(to) == ledger.balance_of(to) + value
            &&& from == to ==> next.balance_of(from) == ledger.balance_of(from)
            &&& forall|other: AccountId| other != from && other != to
                ==> next.balance_of(other) == ledger.balance_of(other)
            &&& next.allowances == ledger.allowances
            &&& next.total_supply == ledger.total_supply
        },
{
    if value <= ledger.balance_of(from) {
        lemma_settled(ledger.balances, from, to, value);
    }
}

/// What a delegated transfer does, in exact arithmetic: it succeeds exactly where
/// both the allowance that `from` gave `caller` and the balance of `from` cover
/// `value`; then the balances move as in a transfer, that allowance is `value` less,
/// and every other allowance is as it was. It never moves more than the allowance.
pub proof fn lemma_transfer_from_exact(ledger: Ledger, caller: AccountId, from: AccountId, to: AccountId, value: Balance)
    requires
        ledger.valid(),
    ensures
        ledger.transfer_from(caller, from, to, value) is Ok
            <==> value <= ledger.allowance(from, caller) && value <= ledger.balance_of(from),
        ledger.transfer_from(caller, from, to, value) matches Ok(next) ==> {
            &&& ledger.inner_transfer(from, to, value) matches Ok(moved)
            &&& next.balances == moved.balances
            &&& next.allowance(from, caller) == ledger.allowance(from, caller) - value
            &&& forall|owner: AccountId, spender: AccountId| (owner, spender) != (from, caller)
                ==> next.allowance(owner, spender) == ledger.allowance(owner, spender)
        },
{
}

/// What the three allowance calls do, in exact arithmetic: `approve` sets the
/// allowance to `value`; `increase_approve` succeeds exactly where the sum fits the
/// amount type and then sets it to the sum; `decrease_approve` succeeds exactly where
/// `value` is no more than the allowance and then sets it to the difference. Each
/// leaves the balances and every other allowance as they were.
pub proof fn lemma_approvals_exact(ledger: Ledger, caller: AccountId, spender: AccountId, value: Balance)
    ensures
        ledger.approve(caller, spender, value) matches Ok(next)
            && next.allowance(caller, spender) == value
            && next.balances == ledger.balances,
        ledger.increase_approve(caller, spender, value) is Ok
            <==> ledger.allowance(caller, spender) + value <= Balance::MAX,
        ledger.increase_approve(caller, spender, value) matches Ok(next) ==> {
            &&& next.allowance(caller, spender) == ledger.allowance(caller, spender) + value
            &&& next.balances == ledger.balances
        },
        ledger.decrease_approve(caller, spender, value) is Ok
            <==> value <= ledger.allowance(caller, spender),
        ledger.decrease_approve(caller, spender, value) matches Ok(next) ==> {
            &&& next.allowance(caller, spender) == ledger.allowance(caller, spender) - value
            &&& next.balances == ledger.balances
        },
        forall|owner: AccountId, other: AccountId| (owner, other) != (caller, spender)
            ==> ledger.approved(caller, spender, value).allowance(owner, other) == ledger.allowance(owner, other),
{
}

} // verus!
