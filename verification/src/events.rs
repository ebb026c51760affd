//! What the ledger reports: the events of successful calls and the errors of refused ones.

use vstd::prelude::*;
use ink_env::AccountId;
use crate::storage::Balance;

verus! {

/// Tokens moved. `from` is `None` only where the tokens were minted, at construction.
#[derive(Debug, Clone, Copy, PartialEq, Eq)]
pub struct Transfer {
    pub from: Option<AccountId>,
    pub to: Option<AccountId>,
    pub value: Balance,
}

/// An owner set what a spender may move on its behalf; `value` is the new allowance.
#[derive(Debug, Clone, Copy, PartialEq, Eq)]
pub struct Approval {
    pub owner: AccountId,
    pub spender: AccountId,
    pub value: Balance,
}

/// The ways in which a ledger operation is refused.
#[derive(Debug, Clone, Copy, PartialEq, Eq)]
pub enum Error {
    /// The source account holds less than the amount to move.
    InsuffientBalance,
    /// The spender's allowance is less than the amount to move.
    InsuffientApproval,
    /// Raising the allowance would exceed the largest amount.
    ApproveOverflow,
    /// Lowering the allowance would take it below zero.
    AllowanceBelowZero,
}

/// What a ledger operation returns: its event, or the reason it was refused.
pub type Result<T> = core::result::Result<T, Error>;

} // verus!
