//! The messages that arrive in packets, and the context of a call.

use crate::expiration::{BlockInfo, Expiration};
use vstd::prelude::*;

verus! {

/// The block in which a call runs.
#[derive(Clone, Copy, Debug, PartialEq, Eq)]
pub struct Env {
    pub block: BlockInfo,
}

/// On whose behalf a call runs.
#[derive(Clone, Debug, PartialEq, Eq)]
pub struct MessageInfo {
    pub sender: String,
}

/// A message of this ledger, as a packet carries it. Every address in it has
/// passed validation.
#[derive(Clone, Debug, PartialEq, Eq)]
pub enum IbcExecuteMsg {
    Increment,
    Transfer { recipient: String, amount: u128 },
    Burn { amount: u128 },
    TransferFrom { owner: String, recipient: String, amount: u128 },
    IncreaseAllowance { spender: String, amount: u128, expires: Option<Expiration> },
    DecreaseAllowance { spender: String, amount: u128, expires: Option<Expiration> },
    Mint { recipient: String, amount: u128 },
    BurnFrom { owner: String, amount: u128 },
    Send { contract: String, amount: u128, msg: Vec<u8> },
    SendFrom { owner: String, contract: String, amount: u128, msg: Vec<u8> },
}

} // verus!
