//! The storage cells the ledger is kept in, and what is taken on trust about them.
//!
//! The ledger keeps its state in the storage map and the lazy cell of `ink_storage`.
//! Verus does not read that crate, and cannot take its types' declarations, whose
//! bounds are traits of that crate. So each cell is held in a struct of this module
//! that Verus treats as opaque, and each function on it makes one call into
//! `ink_storage` under a contract that is believed, not proved. The contracts speak
//! of a cell through a name for what it holds: `balance_entries`,
//! `allowance_entries`, `supply_held`.
//!
//! A storage map can be attached to cells of the contract storage, from which it
//! then loads lazily, and what such a map yields depends on that storage. The
//! structs here cannot hold one: their field is private and only `new` fills it,
//! with a map or cell that lives in memory alone. What each holds is therefore
//! decided by the value itself.

use vstd::prelude::*;
use ink_env::AccountId;
use ink_storage::collections::HashMap;
use ink_storage::lazy::Lazy;

verus! {

/// An amount of tokens.
pub type Balance = u128;

/// What a `BalanceMap` holds: the amount under each holder that has an entry.
pub type Balances = Map<AccountId, Balance>;

/// What an `AllowanceMap` holds: the amount under each (owner, spender) pair that
/// has an entry.
pub type Allowances = Map<(AccountId, AccountId), Balance>;

/// `ink_env::AccountId`, an opaque account identifier. Nothing is known of it but
/// equality.
#[verifier::external_type_specification]
#[verifier::external_body]
pub struct ExAccountId(ink_env::AccountId);

/// A storage map from a holder to the amount it holds, in memory only.
#[verifier::external_body]
pub struct BalanceMap {
    map: HashMap<AccountId, Balance>,
}

/// A storage map from an (owner, spender) pair to the amount the spender may move,
/// in memory only.
#[verifier::external_body]
pub struct AllowanceMap {
    map: HashMap<(AccountId, AccountId), Balance>,
}

/// A lazy storage cell that holds the total supply in memory.
#[verifier::external_body]
pub struct SupplyCell {
    cell: Lazy<Balance>,
}

/// The key/value pairs that a balance map holds.
pub uninterp spec fn balance_entries(map: BalanceMap) -> Balances;

/// The key/value pairs that an allowance map holds.
pub uninterp spec fn allowance_entries(map: AllowanceMap) -> Allowances;

/// The amount that a supply cell holds.
pub uninterp spec fn supply_held(cell: SupplyCell) -> Balance;

/// Whether `map` can take a value under `key` without outgrowing the `u32` in which
/// a storage map counts its keys.
pub open spec fn has_room<K>(map: Map<K, Balance>, key: K) -> bool {
    map.dom().contains(key) || map.dom().len() < u32::MAX
}

/// `PartialEq::eq` of `ink_env::AccountId`, which `derive` wrote over the 32 bytes of
/// the identifier. Trusted: it returns `true` for equal identifiers and for no others.
#[verifier::external_body]
pub(crate) fn same_account(left: &AccountId, right: &AccountId) -> (same: bool)
    ensures
        same == (*left == *right),
{
    left == right
}

impl BalanceMap {
    /// `HashMap::new`. Trusted: the new map holds nothing.
    #[verifier::external_body]
    pub(crate) fn new() -> (made: Self)
        ensures
            balance_entries(made) == Balances::empty(),
    {
        BalanceMap { map: HashMap::new() }
    }

    /// `HashMap::get`. Trusted: it returns the amount held under `account`, or
    /// `None` where the map holds none; nothing in it panics.
    #[verifier::external_body]
    pub(crate) fn get(&self, account: &AccountId) -> (found: Option<Balance>)
        ensures
            found == balance_entries(*self).get(*account),
        no_unwind
    {
        self.map.get(account).copied()
    }

    /// `HashMap::insert`. Trusted: it puts `amount` under `account`, replacing what
    /// was held there, and leaves every other pair as it was. A new key raises the
    /// map's `u32` count of keys, so the call asks that there is room for it; with
    /// room, nothing in it panics.
    #[verifier::external_body]
    pub(crate) fn insert(&mut self, account: AccountId, amount: Balance)
        requires
            balance_entries(*old(self)).dom().finite(),
            has_room(balance_entries(*old(self)), account),
        ensures
            balance_entries(*final(self)) == balance_entries(*old(self)).insert(account, amount),
        no_unwind
    {
        self.map.insert(account, amount);
    }

    /// `HashMap::len`. Trusted: it returns the number of pairs held.
    #[verifier::external_body]
    pub(crate) fn len(&self) -> (count: u32)
        requires
            balance_entries(*self).dom().finite(),
        ensures
            count == balance_entries(*self).dom().len(),
    {
        self.map.len()
    }
}

impl AllowanceMap {
    /// `HashMap::new`. Trusted: the new map holds nothing.
    #[verifier::external_body]
    pub(crate) fn new() -> (made: Self)
        ensures
            allowance_entries(made) == Allowances::empty(),
    {
        AllowanceMap { map: HashMap::new() }
    }

    /// `HashMap::get`. Trusted: it returns the amount held under `pair`, or `None`
    /// where the map holds none.
    #[verifier::external_body]
    pub(crate) fn get(&self, pair: &(AccountId, AccountId)) -> (found: Option<Balance>)
        ensures
            found == allowance_entries(*self).get(*pair),
    {
        self.map.get(pair).copied()
    }

    /// `HashMap::insert`. Trusted: it puts `amount` under `pair`, replacing what was
    /// held there, and leaves every other pair as it was. A new key raises the map's
    /// `u32` count of keys, so the call asks that there is room for it; with room,
    /// nothing in it panics.
    #[verifier::external_body]
    pub(crate) fn insert(&mut self, pair: (AccountId, AccountId), amount: Balance)
        requires
            allowance_entries(*old(self)).dom().finite(),
            has_room(allowance_entries(*old(self)), pair),
        ensures
            allowance_entries(*final(self)) == allowance_entries(*old(self)).insert(pair, amount),
        no_unwind
    {
        self.map.insert(pair, amount);
    }

    /// `HashMap::len`. Trusted: it returns the number of pairs held.
    #[verifier::external_body]
    pub(crate) fn len(&self) -> (count: u32)
        requires
            allowance_entries(*self).dom().finite(),
        ensures
            count == allowance_entries(*self).dom().len(),
    {
        self.map.len()
    }
}

impl SupplyCell {
    /// `Lazy::new`. Trusted: the new cell holds `amount`.
    #[verifier::external_body]
    pub(crate) fn new(amount: Balance) -> (made: Self)
        ensures
            supply_held(made) == amount,
    {
        SupplyCell { cell: Lazy::new(amount) }
    }

    /// `Lazy::get`. Trusted: it returns the amount that the cell holds.
    #[verifier::external_body]
    pub(crate) fn get(&self) -> (amount: Balance)
        ensures
            amount == supply_held(*self),
    {
        *Lazy::get(&self.cell)
    }
}

} // verus!
