//! A per-channel token ledger: balances, allowances and supply, changed only
//! by messages that arrive over channels to other ledgers.

pub mod allowances;
pub mod amount;
pub mod balances;
pub mod contract;
pub mod error;
pub mod expiration;
pub mod ibc;
pub mod msg;
pub mod receiver;
pub mod response;
pub mod state;
pub mod supply;
pub mod table;
