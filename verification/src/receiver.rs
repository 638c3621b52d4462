//! The notification that tells a contract that tokens were sent to it.

use crate::response::WasmExecute;
use vstd::prelude::*;

verus! {

/// `cosmwasm_std::StdError`, the error of the encoder, carried through as it
/// is.
#[verifier::external_type_specification]
#[verifier::external_body]
pub struct ExStdError(cosmwasm_std::StdError);

/// The bytes that `cw20::Cw20ReceiveMsg::into_binary` makes of a sender, an
/// amount and a payload; `None` when it reports an error.
pub uninterp spec fn receive_msg_encoding(sender: Seq<char>, amount: u128, msg: Seq<u8>) -> Option<
    Seq<u8>,
>;

/// Calls `cw20::Cw20ReceiveMsg::into_binary` on a message with this sender,
/// amount and payload. Trusted: the outcome is a function of the three
/// alone.
#[verifier::external_body]
pub(crate) fn into_binary(sender: &String, amount: u128, msg: &Vec<u8>) -> (encoded: Result<
    Vec<u8>,
    cosmwasm_std::StdError,
>)
    ensures
        match encoded {
            Ok(bytes) => receive_msg_encoding(sender@, amount, msg@) == Some(bytes@),
            Err(_) => receive_msg_encoding(sender@, amount, msg@) is None,
        },
{
    let message = cw20::Cw20ReceiveMsg {
        sender: sender.clone(),
        amount: cosmwasm_std::Uint128::new(amount),
        msg: cosmwasm_std::Binary(msg.clone()),
    };
    match message.into_binary() {
        Ok(bytes) => Ok(bytes.0),
        Err(error) => Err(error),
    }
}

/// The encoded notification for a receiving contract, or `None` when it
/// cannot be encoded.
pub fn encode_receive_msg(sender: &String, amount: u128, msg: &Vec<u8>) -> (encoded: Option<Vec<u8>>)
    ensures
        match encoded {
            Some(bytes) => receive_msg_encoding(sender@, amount, msg@) == Some(bytes@),
            None => receive_msg_encoding(sender@, amount, msg@) is None,
        },
{
    match into_binary(sender, amount, msg) {
        Ok(bytes) => Some(bytes),
        Err(_) => None,
    }
}

/// The call that delivers an encoded notification to `contract`.
pub fn receive_call(contract: &String, encoded: Vec<u8>) -> (call: WasmExecute)
    ensures
        call@ == (contract@, encoded@),
{
    WasmExecute { contract_addr: contract.clone(), msg: encoded }
}

} // verus!
