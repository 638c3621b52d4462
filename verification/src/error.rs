//! The ways in which a handshake step or a ledger operation fails.

use vstd::prelude::*;
use vstd::string::*;

verus! {

/// Why a call was refused. A refused call leaves the ledger as it was.
#[derive(Clone, Debug, PartialEq, Eq)]
pub enum ContractError {
    /// The owner named itself as spender.
    SelfAllowance,
    /// The expiration supplied with a grant has already been reached.
    InvalidExpiration,
    /// There is no allowance record for the owner and spender.
    NoAllowance,
    /// The allowance has lapsed.
    Expired,
    /// An addition ran past 128 bits, or a subtraction below zero.
    Overflow,
    /// The caller is not the minter of the channel's token.
    Unauthorized,
    /// Minting would raise the total supply above the cap.
    CannotExceedCap,
    /// The channel has no token record.
    TokenInfoNotFound,
    /// The notification to a receiving contract could not be encoded.
    EncodeFailure,
    /// The channel proposed ordered delivery.
    OrderedChannelRejected,
    /// A protocol version differs from the one this ledger speaks.
    InvalidChannelVersion { actual: String, expected: String },
    /// The packet body is not a message of this ledger.
    PayloadDecodeFailure { reason: String },
}

impl ContractError {
    /// The text that a failure acknowledgement carries for this error.
    pub open spec fn description_spec(&self) -> Seq<char> {
        match self {
            ContractError::SelfAllowance => "Cannot set to own account"@,
            ContractError::InvalidExpiration => "Invalid expiration value"@,
            ContractError::NoAllowance => "No allowance for this account"@,
            ContractError::Expired => "Allowance is expired"@,
            ContractError::Overflow => "Overflow"@,
            ContractError::Unauthorized => "Unauthorized"@,
            ContractError::CannotExceedCap => "Minting cannot exceed the cap"@,
            ContractError::TokenInfoNotFound => "Token info not found"@,
            ContractError::EncodeFailure => "Cannot encode the receive message"@,
            ContractError::OrderedChannelRejected => "only unordered channels are supported"@,
            ContractError::InvalidChannelVersion { actual, expected } => {
                "invalid IBC channel version. Got ("@ + actual@ + "), expected ("@ + expected@
                    + ")"@
            },
            ContractError::PayloadDecodeFailure { reason } => reason@,
        }
    }

    /// The text that a failure acknowledgement carries for this error.
    pub fn description(&self) -> (text: String)
        ensures
            text@ == self.description_spec(),
    {
        match self {
            ContractError::SelfAllowance => String::from_str("Cannot set to own account"),
            ContractError::InvalidExpiration => String::from_str("Invalid expiration value"),
            ContractError::NoAllowance => String::from_str("No allowance for this account"),
            ContractError::Expired => String::from_str("Allowance is expired"),
            ContractError::Overflow => String::from_str("Overflow"),
            ContractError::Unauthorized => String::from_str("Unauthorized"),
            ContractError::CannotExceedCap => String::from_str("Minting cannot exceed the cap"),
            ContractError::TokenInfoNotFound => String::from_str("Token info not found"),
            ContractError::EncodeFailure => String::from_str("Cannot encode the receive message"),
            ContractError::OrderedChannelRejected => String::from_str(
                "only unordered channels are supported",
            ),
            ContractError::InvalidChannelVersion { actual, expected } => {
                let mut text = String::from_str("invalid IBC channel version. Got (");
                text.append(actual.as_str());
                text.append("), expected (");
                text.append(expected.as_str());
                text.append(")");
                text
            },
            ContractError::PayloadDecodeFailure { reason } => reason.clone(),
        }
    }
}

} // verus!
