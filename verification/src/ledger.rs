//! The ledger itself: its state in storage cells, and the operations on it.

use vstd::prelude::*;
use ink_env::AccountId;
use crate::events::{Approval, Error, Result, Transfer};
use crate::model::{settled, Ledger, Outcome};
use crate::storage::{
    allowance_entries, balance_entries, has_room, same_account, supply_held, AllowanceMap,
    Balance, BalanceMap, SupplyCell,
};
use crate::sum::{amount_at, lemma_sum_bounds, lemma_sum_empty, lemma_sum_insert, sum_of};

verus! {

/// A token ledger: the total supply, what each account holds, and what each spender
/// may move for each owner. The state it holds, `self@`, is always a valid ledger:
/// every function here that hands one out or changes one says so.
///
/// The storage maps count their keys in a `u32`, so an operation that writes asks
/// for room in the map it writes to. `has_room_for_transfer` and
/// `has_room_for_approval` test for it, and each `try_` function makes the test
/// itself and asks for nothing.
pub struct Erc20 {
    total_supply: SupplyCell,
    balance: BalanceMap,
    allowances: AllowanceMap,
}

impl View for Erc20 {
    type V = Ledger;

    /// The state that the storage cells hold.
    closed spec fn view(&self) -> Ledger {
        Ledger {
            total_supply: supply_held(self.total_supply),
            balances: balance_entries(self.balance),
            allowances: allowance_entries(self.allowances),
        }
    }
}

/// What `map` holds under `account`, 0 where it holds nothing.
fn balance_in(map: &BalanceMap, account: AccountId) -> (amount: Balance)
    ensures
        amount == amount_at(balance_entries(*map), account),
    no_unwind
{
    match map.get(&account) {
        Some(amount) => amount,
        None => 0,
    }
}

/// What `map` holds under `(owner, spender)`, 0 where it holds nothing.
fn allowance_in(map: &AllowanceMap, owner: AccountId, spender: AccountId) -> (amount: Balance)
    ensures
        amount == amount_at(allowance_entries(*map), (owner, spender)),
{
    match map.get(&(owner, spender)) {
        Some(amount) => amount,
        None => 0,
    }
}

/// Takes `value` from what `map` holds for `from`, which is `from_balance`, then adds
/// it to what the map holds for `to` after that. The sum of the map stays as it was,
/// which is why the addition cannot overflow.
fn settle(map: &mut BalanceMap, from: AccountId, to: AccountId, value: Balance, from_balance: Balance)
    requires
        balance_entries(*old(map)).dom().finite(),
        sum_of(balance_entries(*old(map))) <= Balance::MAX,
        from_balance == amount_at(balance_entries(*old(map)), from),
        from_balance >= value,
        has_room(balance_entries(*old(map)), from),
        has_room(balance_entries(*old(map)).insert(from, 0), to),
    ensures
        balance_entries(*final(map)) == settled(balance_entries(*old(map)), from, to, value),
        sum_of(balance_entries(*final(map))) == sum_of(balance_entries(*old(map))),
    no_unwind
{
    let ghost before = balance_entries(*map);
    map.insert(from, from_balance - value);
    let ghost debited = balance_entries(*map);
    let to_balance = balance_in(map, to);
    proof {
        lemma_sum_insert(before, from, (from_balance - value) as Balance);
        lemma_sum_bounds(debited, to);
        lemma_sum_insert(debited, to, (to_balance + value) as Balance);
        assert(debited.dom() =~= before.insert(from, 0).dom());
    }
    map.insert(to, to_balance + value);
}

impl Erc20 {
    /// Holds of every `Erc20` at all times: the state in its cells is a valid ledger.
    #[verifier::type_invariant]
    closed spec fn holds_valid_ledger(&self) -> bool {
        self@.valid()
    }

    /// Creates the ledger with the whole of `supply` credited to `caller`, and
    /// returns it with the event of that first transfer, which has no source.
    pub fn new(supply: Balance, caller: AccountId) -> (made: (Self, Transfer))
        ensures
            made.0@ == Ledger::minted(supply, caller),
            made.0@.valid(),
            made.1 == (Transfer { from: None, to: Some(caller), value: supply }),
    {
        let mut balance = BalanceMap::new();
        balance.insert(caller, supply);
        proof {
            lemma_sum_empty::<AccountId>();
            lemma_sum_insert(Map::empty(), caller, supply);
        }
        let ledger = Erc20 {
            total_supply: SupplyCell::new(supply),
            balance,
            allowances: AllowanceMap::new(),
        };
        (ledger, Transfer { from: None, to: Some(caller), value: supply })
    }

    /// The total supply, to which the balances sum.
    pub fn total_supply(&self) -> (amount: Balance)
        ensures
            amount == self@.total_supply,
            self@.valid(),
    {
        proof {
            use_type_invariant(self);
        }
        self.total_supply.get()
    }

    /// What `owner` holds; 0 for an account without an entry.
    pub fn balance_of(&self, owner: AccountId) -> (amount: Balance)
        ensures
            amount == self@.balance_of(owner),
            self@.valid(),
    {
        proof {
            use_type_invariant(self);
        }
        balance_in(&self.balance, owner)
    }

    /// What `spender` may still move on behalf of `owner`; 0 for a pair without an
    /// entry.
    pub fn allowance(&self, owner: AccountId, spender: AccountId) -> (amount: Balance)
        ensures
            amount == self@.allowance(owner, spender),
            self@.valid(),
    {
        proof {
            use_type_invariant(self);
        }
        allowance_in(&self.allowances, owner, spender)
    }

    /// Whether the balance map has room for what a transfer from `from` to `to`
    /// writes: an entry for each of the two that has none yet.
    pub fn has_room_for_transfer(&self, from: AccountId, to: AccountId) -> (room: bool)
        ensures
            room == self@.room_for_transfer(from, to),
    {
        proof {
            use_type_invariant(self);
        }
        let count = self.balance.len();
        let from_is_new = self.balance.get(&from).is_none();
        let to_is_new = self.balance.get(&to).is_none() && !(from_is_new && same_account(&from, &to));
        proof {
            let entries = self@.balances;
            let debited = entries.insert(from, 0);
            if from_is_new {
                assert(debited.dom().len() == entries.dom().len() + 1);
            } else {
                assert(debited.dom() =~= entries.dom());
            }
        }
        if from_is_new && to_is_new {
            count < u32::MAX - 1
        } else if from_is_new || to_is_new {
            count < u32::MAX
        } else {
            true
        }
    }

    /// Whether the allowance map has room for the entry of `spender` for `owner`.
    pub fn has_room_for_approval(&self, owner: AccountId, spender: AccountId) -> (room: bool)
        ensures
            room == self@.room_for_approval(owner, spender),
    {
        proof {
            use_type_invariant(self);
        }
        self.allowances.get(&(owner, spender)).is_some() || self.allowances.len() < u32::MAX
    }

    /// `transfer` for a caller that cannot show that there is room: `None`, and
    /// nothing changed, where the transfer would succeed but the balance map is full;
    /// else what `transfer` returns.
    pub fn try_transfer(&mut self, caller: AccountId, to: AccountId, value: Balance) -> (attempt: Option<Result<Transfer>>)
        ensures
            final(self)@.valid(),
            attempt is None <==> old(self)@.transfer(caller, to, value) is Ok && !old(self)@.room_for_transfer(caller, to),
            match attempt {
                Some(Ok(event)) => {
                    &&& old(self)@.transfer(caller, to, value) == Outcome::Ok(final(self)@)
                    &&& event == (Transfer { from: Some(caller), to: Some(to), value })
                },
                Some(Err(error)) => {
                    &&& old(self)@.transfer(caller, to, value) == Outcome::Err(error)
                    &&& *final(self) == *old(self)
                },
                None => *final(self) == *old(self),
            },
    {
        if self.balance_of(caller) >= value && !self.has_room_for_transfer(caller, to) {
            return None;
        }
        Some(self.transfer(caller, to, value))
    }

    /// `approve` for a caller that cannot show that there is room: `None`, and
    /// nothing changed, where the allowance map is full; else what `approve` returns.
    pub fn try_approve(&mut self, caller: AccountId, spender: AccountId, value: Balance) -> (attempt: Option<Result<Approval>>)
        ensures
            final(self)@.valid(),
            attempt is None <==> !old(self)@.room_for_approval(caller, spender),
            match attempt {
                Some(result) => {
                    &&& old(self)@.approve(caller, spender, value) == Outcome::Ok(final(self)@)
                    &&& result == Result::Ok(Approval { owner: caller, spender, value })
                },
                None => *final(self) == *old(self),
            },
    {
        proof {
            use_type_invariant(&*self);
        }
        if !self.has_room_for_approval(caller, spender) {
            return None;
        }
        Some(self.approve(caller, spender, value))
    }

    /// `increase_approve` for a caller that cannot show that there is room: `None`,
    /// and nothing changed, where the call would succeed but the allowance map is
    /// full; else what `increase_approve` returns.
    pub fn try_increase_approve(&mut self, caller: AccountId, spender: AccountId, value: Balance) -> (attempt: Option<Result<Approval>>)
        ensures
            final(self)@.valid(),
            attempt is None <==> old(self)@.increase_approve(caller, spender, value) is Ok && !old(self)@.room_for_approval(caller, spender),
            match attempt {
                Some(Ok(event)) => {
                    &&& old(self)@.increase_approve(caller, spender, value) == Outcome::Ok(final(self)@)
                    &&& event == (Approval { owner: caller, spender, value: final(self)@.allowance(caller, spender) })
                },
                Some(Err(error)) => {
                    &&& old(self)@.increase_approve(caller, spender, value) == Outcome::Err(error)
                    &&& *final(self) == *old(self)
                },
                None => *final(self) == *old(self),
            },
    {
        if self.allowance(caller, spender).checked_add(value).is_some() && !self.has_room_for_approval(caller, spender) {
            return None;
        }
        Some(self.increase_approve(caller, spender, value))
    }

    /// `decrease_approve` for a caller that cannot show that there is room: `None`,
    /// and nothing changed, where the call would succeed but the allowance map is
    /// full; else what `decrease_approve` returns.
    pub fn try_decrease_approve(&mut self, caller: AccountId, spender: AccountId, value: Balance) -> (attempt: Option<Result<Approval>>)
        ensures
            final(self)@.valid(),
            attempt is None <==> old(self)@.decrease_approve(caller, spender, value) is Ok && !old(self)@.room_for_approval(caller, spender),
            match attempt {
                Some(Ok(event)) => {
                    &&& old(self)@.decrease_approve(caller, spender, value) == Outcome::Ok(final(self)@)
                    &&& event == (Approval { owner: caller, spender, value: final(self)@.allowance(caller, spender) })
                },
                Some(Err(error)) => {
                    &&& old(self)@.decrease_approve(caller, spender, value) == Outcome::Err(error)
                    &&& *final(self) == *old(self)
                },
                None => *final(self) == *old(self),
            },
    {
        if self.allowance(caller, spender) >= value && !self.has_room_for_approval(caller, spender) {
            return None;
        }
        Some(self.decrease_approve(caller, spender, value))
    }

    /// `transfer_from` for a caller that cannot show that there is room: `None`, and
    /// nothing changed, where the call would succeed but the balance map or the
    /// allowance map is full; else what `transfer_from` returns.
    pub fn try_transfer_from(&mut self, caller: AccountId, from: AccountId, to: AccountId, value: Balance) -> (attempt: Option<Result<Transfer>>)
        ensures
            final(self)@.valid(),
            attempt is None <==> old(self)@.transfer_from(caller, from, to, value) is Ok
                && !(old(self)@.room_for_transfer(from, to) && old(self)@.room_for_approval(from, caller)),
            match attempt {
                Some(Ok(event)) => {
                    &&& old(self)@.transfer_from(caller, from, to, value) == Outcome::Ok(final(self)@)
                    &&& event == (Transfer { from: Some(from), to: Some(to), value })
                },
                Some(Err(error)) => {
                    &&& old(self)@.transfer_from(caller, from, to, value) == Outcome::Err(error)
                    &&& *final(self) == *old(self)
                },
                None => *final(self) == *old(self),
            },
    {
        if self.allowance(from, caller) >= value && self.balance_of(from) >= value
            && !(self.has_room_for_transfer(from, to) && self.has_room_for_approval(from, caller)) {
            return None;
        }
        Some(self.transfer_from(caller, from, to, value))
    }

    /// Moves `value` from `caller` to `to` and returns the event; refused with
    /// `InsuffientBalance`, and nothing changed, where `caller` holds less.
    pub fn transfer(&mut self, caller: AccountId, to: AccountId, value: Balance) -> (result: Result<Transfer>)
        requires
            old(self)@.transfer(caller, to, value) is Ok ==> old(self)@.room_for_transfer(caller, to),
        ensures
            final(self)@.valid(),
            match result {
                Ok(event) => {
                    &&& old(self)@.transfer(caller, to, value) == Outcome::Ok(final(self)@)
                    &&& event == (Transfer { from: Some(caller), to: Some(to), value })
                },
                Err(error) => {
                    &&& old(self)@.transfer(caller, to, value) == Outcome::Err(error)
                    &&& *final(self) == *old(self)
                },
            },
    {
        self.inner_transfer(caller, to, value)
    }

    /// Sets the allowance of `spender` for `caller` to `value`, replacing what it
    /// was, and returns the event. Never refused.
    pub fn approve(&mut self, caller: AccountId, spender: AccountId, value: Balance) -> (result: Result<Approval>)
        requires
            old(self)@.room_for_approval(caller, spender),
        ensures
            final(self)@.valid(),
            result == Result::Ok(Approval { owner: caller, spender, value }),
            old(self)@.approve(caller, spender, value) == Outcome::Ok(final(self)@),
    {
        proof {
            use_type_invariant(&*self);
        }
        self.allowances.insert((caller, spender), value);
        Ok(Approval { owner: caller, spender, value })
    }

    /// Raises the allowance of `spender` for `caller` by `value` and returns the
    /// event, which carries the new allowance; refused with `ApproveOverflow`, and
    /// nothing changed, where the new allowance would exceed the largest amount.
    pub fn increase_approve(&mut self, caller: AccountId, spender: AccountId, value: Balance) -> (result: Result<Approval>)
        requires
            old(self)@.increase_approve(caller, spender, value) is Ok ==> old(self)@.room_for_approval(caller, spender),
        ensures
            final(self)@.valid(),
            match result {
                Ok(event) => {
                    &&& old(self)@.increase_approve(caller, spender, value) == Outcome::Ok(final(self)@)
                    &&& event == (Approval { owner: caller, spender, value: final(self)@.allowance(caller, spender) })
                },
                Err(error) => {
                    &&& old(self)@.increase_approve(caller, spender, value) == Outcome::Err(error)
                    &&& *final(self) == *old(self)
                },
            },
    {
        proof {
            use_type_invariant(&*self);
        }
        let origin_value = self.allowance(caller, spender);
        match origin_value.checked_add(value) {
            Some(new_value) => {
                self.allowances.insert((caller, spender), new_value);
                Ok(Approval { owner: caller, spender, value: new_value })
            },
            None => Err(Error::ApproveOverflow),
        }
    }

    /// Lowers the allowance of `spender` for `caller` by `value` and returns the
    /// event, which carries the new allowance; refused with `AllowanceBelowZero`,
    /// and nothing changed, where `value` exceeds the allowance.
    pub fn decrease_approve(&mut self, caller: AccountId, spender: AccountId, value: Balance) -> (result: Result<Approval>)
        requires
            old(self)@.decrease_approve(caller, spender, value) is Ok ==> old(self)@.room_for_approval(caller, spender),
        ensures
            final(self)@.valid(),
            match result {
                Ok(event) => {
                    &&& old(self)@.decrease_approve(caller, spender, value) == Outcome::Ok(final(self)@)
                    &&& event == (Approval { owner: caller, spender, value: final(self)@.allowance(caller, spender) })
                },
                Err(error) => {
                    &&& old(self)@.decrease_approve(caller, spender, value) == Outcome::Err(error)
                    &&& *final(self) == *old(self)
                },
            },
    {
        proof {
            use_type_invariant(&*self);
        }
        let origin_value = self.allowance(caller, spender);
        if origin_value < value {
            return Err(Error::AllowanceBelowZero);
        }
        self.allowances.insert((caller, spender), origin_value - value);
        Ok(Approval { owner: caller, spender, value: origin_value - value })
    }

    /// Moves `value` from `from` to `to` on the allowance that `from` gave `caller`,
    /// lowers that allowance by `value`, and returns the event of the transfer.
    /// Refused with `InsuffientApproval` where the allowance is less than `value`,
    /// else with `InsuffientBalance` where `from` holds less; nothing changed then.
    pub fn transfer_from(&mut self, caller: AccountId, from: AccountId, to: AccountId, value: Balance) -> (result: Result<Transfer>)
        requires
            old(self)@.transfer_from(caller, from, to, value) is Ok ==> old(self)@.room_for_transfer(from, to),
            old(self)@.transfer_from(caller, from, to, value) is Ok ==> old(self)@.room_for_approval(from, caller),
        ensures
            final(self)@.valid(),
            match result {
                Ok(event) => {
                    &&& old(self)@.transfer_from(caller, from, to, value) == Outcome::Ok(final(self)@)
                    &&& event == (Transfer { from: Some(from), to: Some(to), value })
                },
                Err(error) => {
                    &&& old(self)@.transfer_from(caller, from, to, value) == Outcome::Err(error)
                    &&& *final(self) == *old(self)
                },
            },
    {
        proof {
            use_type_invariant(&*self);
        }
        let allowance = self.allowance(from, caller);
        if allowance < value {
            return Err(Error::InsuffientApproval);
        }
        match self.inner_transfer(from, to, value) {
            Ok(event) => {
                self.allowances.insert((from, caller), allowance - value);
                Ok(event)
            },
            Err(error) => Err(error),
        }
    }

    /// Moves `value` from `from` to `to` and returns the event; refused with
    /// `InsuffientBalance`, and nothing changed, where `from` holds less. A transfer
    /// from an account to itself leaves its balance as it was and still reports the
    /// event.
    pub fn inner_transfer(&mut self, from: AccountId, to: AccountId, value: Balance) -> (result: Result<Transfer>)
        requires
            old(self)@.inner_transfer(from, to, value) is Ok ==> old(self)@.room_for_transfer(from, to),
        ensures
            final(self)@.valid(),
            match result {
                Ok(event) => {
                    &&& old(self)@.inner_transfer(from, to, value) == Outcome::Ok(final(self)@)
                    &&& event == (Transfer { from: Some(from), to: Some(to), value })
                },
                Err(error) => {
                    &&& old(self)@.inner_transfer(from, to, value) == Outcome::Err(error)
                    &&& *final(self) == *old(self)
                },
            },
    {
        proof {
            use_type_invariant(&*self);
        }
        let from_balance = balance_in(&self.balance, from);
        if from_balance < value {
            return Err(Error::InsuffientBalance);
        }
        settle(&mut self.balance, from, to, value, from_balance);
        Ok(Transfer { from: Some(from), to: Some(to), value })
    }
}

} // verus!
