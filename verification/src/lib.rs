//! The accounting core of a fungible-token ledger: a fixed total supply, a balance
//! for each holder, and the allowances by which a holder lets a spender move its
//! tokens. Every operation is verified against a mathematical model of the ledger,
//! in which the balances always sum to the total supply.

pub mod events;
pub mod laws;
pub mod ledger;
pub mod model;
pub mod storage;
pub mod sum;

pub use events::{Approval, Error, Result, Transfer};
pub use ink_env::AccountId;
pub use ledger::Erc20;
pub use model::Ledger;
pub use storage::Balance;
