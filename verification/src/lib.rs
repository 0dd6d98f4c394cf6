//! A constant-product exchange for two fungible assets: pool records, the
//! addresses derived for them, liquidity accounting and swaps, all in integer
//! arithmetic.
//!
//! `resolver` derives the addresses of a pool's accounts. `record` holds the
//! control record of a pool, `liquidity` and `swap` the rules by which
//! balances change. `instructions` decides on each instruction against the
//! accounts it names and carries it out on a `ledger` of pools. `laws` states
//! what holds of all of them together.

pub mod accounts;
pub mod address;
pub mod error;
pub mod instructions;
pub mod laws;
pub mod ledger;
pub mod liquidity;
pub mod math;
pub mod record;
pub mod resolver;
pub mod swap;

pub use accounts::{Deposit, Initialize, Swap, Withdraw};
pub use address::Address;
pub use error::AmmError;
pub use instructions::{deposit, initialize, set_locked, swap, withdraw};
pub use ledger::Ledger;
pub use liquidity::{Balances, DepositReceipt, WithdrawReceipt};
pub use record::{Config, Pool};
pub use resolver::{control_address, resolve_pool, share_mint_address, vault_address, PoolAddresses};
pub use swap::SwapReceipt;
