//! The ledger as mathematics: its state, and each operation as a step from one state
//! to the next or to an error.

use vstd::prelude::*;
use ink_env::AccountId;
use crate::events::Error;
use crate::storage::{has_room, Allowances, Balance, Balances};
use crate::sum::{amount_at, sum_of};

verus! {

/// The state of a ledger.
pub struct Ledger {
    /// The number of tokens in existence, fixed at construction.
    pub total_supply: Balance,
    /// The amount each holder has. A holder without an entry has 0.
    pub balances: Balances,
    /// The amount each spender may still move for each owner, by (owner, spender).
    /// A pair without an entry has 0.
    pub allowances: Allowances,
}

/// `balances` with `value` taken from `from` and then given to `to`: first `from` is
/// written with `value` less, then `to` with `value` more than it holds after that.
/// Where `from` and `to` are one account, it ends with what it had. Meant for `value`
/// no larger than what `from` holds.
pub open spec fn settled(balances: Balances, from: AccountId, to: AccountId, value: Balance) -> Balances {
    let debited = balances.insert(from, (amount_at(balances, from) - value) as Balance);
    debited.insert(to, (amount_at(debited, to) + value) as Balance)
}

/// A call of one of the operations that change a ledger, with its arguments.
pub enum Call {
    Transfer { caller: AccountId, to: AccountId, value: Balance },
    Approve { caller: AccountId, spender: AccountId, value: Balance },
    IncreaseApprove { caller: AccountId, spender: AccountId, value: Balance },
    DecreaseApprove { caller: AccountId, spender: AccountId, value: Balance },
    TransferFrom { caller: AccountId, from: AccountId, to: AccountId, value: Balance },
}

/// Where an operation leads: to the next state, or to the error it is refused with,
/// in which case the state stays as it is.
pub type Outcome = core::result::Result<Ledger, Error>;

impl Ledger {
    /// What `owner` holds.
    pub open spec fn balance_of(self, owner: AccountId) -> Balance {
        amount_at(self.balances, owner)
    }

    /// What `spender` may still move on behalf of `owner`.
    pub open spec fn allowance(self, owner: AccountId, spender: AccountId) -> Balance {
        amount_at(self.allowances, (owner, spender))
    }

    /// The sum of all balances.
    pub open spec fn circulating(self) -> nat {
        sum_of(self.balances)
    }

    /// Conservation: the balances sum to the total supply.
    pub open spec fn conserved(self) -> bool {
        self.circulating() == self.total_supply
    }

    /// A ledger is valid when both maps are finite and the balances sum to the total
    /// supply.
    pub open spec fn valid(self) -> bool {
        &&& self.balances.dom().finite()
        &&& self.allowances.dom().finite()
        &&& self.conserved()
    }

    /// The ledger at construction: the whole supply with `minter`, no allowances.
    pub open spec fn minted(supply: Balance, minter: AccountId) -> Ledger {
        Ledger {
            total_supply: supply,
            balances: Map::empty().insert(minter, supply),
            allowances: Map::empty(),
        }
    }

    /// This ledger with `value` taken from `from` and then given to `to`. Meant for
    /// `value` no larger than what `from` holds.
    pub open spec fn moved(self, from: AccountId, to: AccountId, value: Balance) -> Ledger {
        Ledger { balances: settled(self.balances, from, to, value), ..self }
    }

    /// This ledger with the allowance of `spender` for `owner` set to `value`.
    pub open spec fn approved(self, owner: AccountId, spender: AccountId, value: Balance) -> Ledger {
        Ledger { allowances: self.allowances.insert((owner, spender), value), ..self }
    }

    /// Moving `value` from `from` to `to`: refused where `from` holds less.
    pub open spec fn inner_transfer(self, from: AccountId, to: AccountId, value: Balance) -> Outcome {
        if self.balance_of(from) < value {
            Err(Error::InsuffientBalance)
        } else {
            Ok(self.moved(from, to, value))
        }
    }

    /// `caller` sends `value` of its own tokens to `to`.
    pub open spec fn transfer(self, caller: AccountId, to: AccountId, value: Balance) -> Outcome {
        self.inner_transfer(caller, to, value)
    }

    /// `caller` sets the allowance of `spender` to `value`, whatever it was.
    pub open spec fn approve(self, caller: AccountId, spender: AccountId, value: Balance) -> Outcome {
        Ok(self.approved(caller, spender, value))
    }

    /// `caller` raises the allowance of `spender` by `delta`: refused where the sum
    /// would exceed the largest amount.
    pub open spec fn increase_approve(self, caller: AccountId, spender: AccountId, delta: Balance) -> Outcome {
        if self.allowance(caller, spender) + delta > Balance::MAX {
            Err(Error::ApproveOverflow)
        } else {
            Ok(self.approved(caller, spender, (self.allowance(caller, spender) + delta) as Balance))
        }
    }

    /// `caller` lowers the allowance of `spender` by `delta`: refused where `delta`
    /// exceeds the allowance.
    pub open spec fn decrease_approve(self, caller: AccountId, spender: AccountId, delta: Balance) -> Outcome {
        if self.allowance(caller, spender) < delta {
            Err(Error::AllowanceBelowZero)
        } else {
            Ok(self.approved(caller, spender, (self.allowance(caller, spender) - delta) as Balance))
        }
    }

    /// `caller` moves `value` from `from` to `to` on the allowance that `from` gave
    /// it: refused where the allowance is less than `value`, then where `from` holds
    /// less than `value`; on success the allowance is lowered by `value`.
    pub open spec fn transfer_from(self, caller: AccountId, from: AccountId, to: AccountId, value: Balance) -> Outcome {
        if self.allowance(from, caller) < value {
            Err(Error::InsuffientApproval)
        } else if self.balance_of(from) < value {
            Err(Error::InsuffientBalance)
        } else {
            Ok(self.moved(from, to, value).approved(from, caller, (self.allowance(from, caller) - value) as Balance))
        }
    }

    /// Where `call` leads from this ledger.
    pub open spec fn step(self, call: Call) -> Outcome {
        match call {
            Call::Transfer { caller, to, value } => self.transfer(caller, to, value),
            Call::Approve { caller, spender, value } => self.approve(caller, spender, value),
            Call::IncreaseApprove { caller, spender, value } => self.increase_approve(caller, spender, value),
            Call::DecreaseApprove { caller, spender, value } => self.decrease_approve(caller, spender, value),
            Call::TransferFrom { caller, from, to, value } => self.transfer_from(caller, from, to, value),
        }
    }

    /// The ledger after `calls` were made on this one in turn. A refused call leaves
    /// the ledger as it found it.
    pub open spec fn after(self, calls: Seq<Call>) -> Ledger
        decreases calls.len(),
    {
        if calls.len() == 0 {
            self
        } else {
            let before = self.after(calls.drop_last());
            match before.step(calls.last()) {
                Ok(next) => next,
                Err(_) => before,
            }
        }
    }

    /// Whether the balance map has room for the entries that a transfer from `from`
    /// to `to` writes.
    pub open spec fn room_for_transfer(self, from: AccountId, to: AccountId) -> bool {
        has_room(self.balances, from) && has_room(self.balances.insert(from, 0), to)
    }

    /// Whether the allowance map has room for the entry of `spender` for `owner`.
    pub open spec fn room_for_approval(self, owner: AccountId, spender: AccountId) -> bool {
        has_room(self.allowances, (owner, spender))
    }
}

} // verus!
