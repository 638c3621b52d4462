//! The operations that an account performs on its own balance: transfer,
//! burn, mint and send, and the counter of a channel.

use crate::amount::{decimal_text, to_text};
use crate::balances::{
    burn_outcome, checked_burn, checked_mint, checked_move, lemma_burn_keeps_supply_backed,
    lemma_mint_keeps_supply_backed, lemma_move_keeps_supply_backed, mint_outcome, move_outcome,
    write_move,
};
use crate::error::ContractError;
use crate::msg::{Env, MessageInfo};
use crate::receiver::{encode_receive_msg, receive_call, receive_msg_encoding};
use crate::response::{Response, ResponseView};
use crate::state::{Ledger, LedgerView};
use vstd::prelude::*;

verus! {

/// The ledger after the sender has sent `amount` to `contract` on `channel`,
/// given the encoded notification, or `None` where it could not be encoded.
/// As a transfer; a notification that could not be encoded then fails the
/// whole with `EncodeFailure`.
pub open spec fn send_outcome(
    state: LedgerView,
    sender: Seq<char>,
    contract: Seq<char>,
    amount: u128,
    channel: Seq<char>,
    encoded: Option<Seq<u8>>,
) -> Result<LedgerView, ContractError> {
    match move_outcome(state, channel, sender, contract, amount) {
        Err(error) => Err(error),
        Ok(after) => if encoded is None {
            Err(ContractError::EncodeFailure)
        } else {
            Ok(after)
        },
    }
}

/// The counter of `channel` after one more increment: one when the channel
/// has none. Fails with `Overflow` when the counter is at its maximum.
pub open spec fn increment_count(state: LedgerView, channel: Seq<char>) -> Result<u32, ContractError> {
    let count = if state.connection_counts.contains_key(channel) {
        state.connection_counts[channel]
    } else {
        0
    };
    if count == u32::MAX {
        Err(ContractError::Overflow)
    } else {
        Ok((count + 1) as u32)
    }
}

/// The ledger after one more increment of the counter of `channel`.
pub open spec fn increment_outcome(state: LedgerView, channel: Seq<char>) -> Result<
    LedgerView,
    ContractError,
> {
    match increment_count(state, channel) {
        Ok(count) => Ok(state.with_count(channel, count)),
        Err(error) => Err(error),
    }
}

/// The attributes of a transfer or a send.
pub open spec fn transfer_attributes(
    action: Seq<char>,
    sender: Seq<char>,
    recipient: Seq<char>,
    amount: u128,
) -> Seq<(Seq<char>, Seq<char>)> {
    seq![
        ("action"@, action),
        ("from"@, sender),
        ("to"@, recipient),
        ("amount"@, decimal_text(amount)),
    ]
}

/// The attributes of a burn.
pub open spec fn burn_attributes(sender: Seq<char>, amount: u128) -> Seq<(Seq<char>, Seq<char>)> {
    seq![("action"@, "burn"@), ("from"@, sender), ("amount"@, decimal_text(amount))]
}

/// The attributes of a mint.
pub open spec fn mint_attributes(recipient: Seq<char>, amount: u128) -> Seq<(Seq<char>, Seq<char>)> {
    seq![("action"@, "mint"@), ("to"@, recipient), ("amount"@, decimal_text(amount))]
}

/// A change of counters alone keeps the total supply of every channel backed
/// by its balances.
pub proof fn lemma_counts_keep_supply_backed(before: LedgerView, after: LedgerView)
    requires
        after.balances == before.balances,
        after.token_info == before.token_info,
    ensures
        before.keeps_supply_backed(after),
{
}

/// Moves `amount` of the sender's balance to `recipient` on `channel`.
/// Nothing is written unless both balances can be.
pub fn execute_transfer(
    ledger: &mut Ledger,
    _env: &Env,
    info: &MessageInfo,
    recipient: String,
    amount: u128,
    channel: String,
) -> (result: Result<Response, ContractError>)
    requires
        old(ledger).wf(),
    ensures
        final(ledger).wf(),
        old(ledger)@.keeps_supply_backed(final(ledger)@),
        match move_outcome(old(ledger)@, channel@, info.sender@, recipient@, amount) {
            Ok(after) => final(ledger)@ == after && result is Ok && result->Ok_0@ == (ResponseView {
                attributes: transfer_attributes("transfer"@, info.sender@, recipient@, amount),
                messages: Seq::empty(),
            }),
            Err(error) => final(ledger)@ == old(ledger)@ && result == Err::<Response, ContractError>(
                error,
            ),
        },
{
    let amounts = match checked_move(ledger, &channel, &info.sender, &recipient, amount) {
        Ok(amounts) => amounts,
        Err(error) => {
            return Err(error);
        },
    };
    write_move(ledger, &channel, &info.sender, &recipient, amounts);
    proof {
        old(ledger).lemma_mirror();
        lemma_move_keeps_supply_backed(old(ledger)@, channel@, info.sender@, recipient@, amount);
    }
    let response = Response::new().add_attribute("action", "transfer").add_attribute(
        "from",
        info.sender.as_str(),
    ).add_attribute("to", recipient.as_str()).add_attribute("amount", to_text(amount).as_str());
    assert(response@.attributes =~= transfer_attributes(
        "transfer"@,
        info.sender@,
        recipient@,
        amount,
    ));
    Ok(response)
}

/// Burns `amount` of the sender's balance on `channel`; the total supply of
/// the channel shrinks by the same amount. Nothing is written unless both
/// can be.
pub fn execute_burn(
    ledger: &mut Ledger,
    _env: &Env,
    info: &MessageInfo,
    amount: u128,
    channel: String,
) -> (result: Result<Response, ContractError>)
    requires
        old(ledger).wf(),
    ensures
        final(ledger).wf(),
        old(ledger)@.keeps_supply_backed(final(ledger)@),
        match burn_outcome(old(ledger)@, channel@, info.sender@, amount) {
            Ok(after) => final(ledger)@ == after && result is Ok && result->Ok_0@ == (ResponseView {
                attributes: burn_attributes(info.sender@, amount),
                messages: Seq::empty(),
            }),
            Err(error) => final(ledger)@ == old(ledger)@ && result == Err::<Response, ContractError>(
                error,
            ),
        },
{
    let (balance, token) = match checked_burn(ledger, &channel, &info.sender, amount) {
        Ok(planned) => planned,
        Err(error) => {
            return Err(error);
        },
    };
    ledger.set_balance(&channel, &info.sender, balance);
    ledger.set_token_info(&channel, token);
    proof {
        old(ledger).lemma_mirror();
        lemma_burn_keeps_supply_backed(old(ledger)@, channel@, info.sender@, amount);
    }
    let response = Response::new().add_attribute("action", "burn").add_attribute(
        "from",
        info.sender.as_str(),
    ).add_attribute("amount", to_text(amount).as_str());
    assert(response@.attributes =~= burn_attributes(info.sender@, amount));
    Ok(response)
}

/// Mints `amount` to `recipient` on `channel`, where the sender is the
/// minter of the channel's token and the cap allows it; the total supply of
/// the channel grows by the same amount. Nothing is written unless both can
/// be.
pub fn execute_mint(
    ledger: &mut Ledger,
    _env: &Env,
    info: &MessageInfo,
    recipient: String,
    amount: u128,
    channel: String,
) -> (result: Result<Response, ContractError>)
    requires
        old(ledger).wf(),
    ensures
        final(ledger).wf(),
        old(ledger)@.keeps_supply_backed(final(ledger)@),
        match mint_outcome(old(ledger)@, info.sender@, channel@, recipient@, amount) {
            Ok(after) => final(ledger)@ == after && result is Ok && result->Ok_0@ == (ResponseView {
                attributes: mint_attributes(recipient@, amount),
                messages: Seq::empty(),
            }),
            Err(error) => final(ledger)@ == old(ledger)@ && result == Err::<Response, ContractError>(
                error,
            ),
        },
{
    let (token, balance) = match checked_mint(ledger, &info.sender, &channel, &recipient, amount) {
        Ok(planned) => planned,
        Err(error) => {
            return Err(error);
        },
    };
    ledger.set_token_info(&channel, token);
    ledger.set_balance(&channel, &recipient, balance);
    proof {
        old(ledger).lemma_mirror();
        lemma_mint_keeps_supply_backed(old(ledger)@, info.sender@, channel@, recipient@, amount);
    }
    let response = Response::new().add_attribute("action", "mint").add_attribute(
        "to",
        recipient.as_str(),
    ).add_attribute("amount", to_text(amount).as_str());
    assert(response@.attributes =~= mint_attributes(recipient@, amount));
    Ok(response)
}

/// Sends `amount` of the sender's balance to `contract` on `channel`, given
/// the encoded notification for the contract, or `None` where it could not
/// be encoded. The response carries the call that delivers the notification.
/// Nothing is written unless every step succeeds.
pub fn send_encoded(
    ledger: &mut Ledger,
    _env: &Env,
    info: &MessageInfo,
    contract: String,
    amount: u128,
    encoded: Option<Vec<u8>>,
    channel: String,
) -> (result: Result<Response, ContractError>)
    requires
        old(ledger).wf(),
    ensures
        final(ledger).wf(),
        old(ledger)@.keeps_supply_backed(final(ledger)@),
        match send_outcome(
            old(ledger)@,
            info.sender@,
            contract@,
            amount,
            channel@,
            match encoded {
                Some(bytes) => Some(bytes@),
                None => None,
            },
        ) {
            Ok(after) => final(ledger)@ == after && result is Ok && result->Ok_0@ == (ResponseView {
                attributes: transfer_attributes("send"@, info.sender@, contract@, amount),
                messages: seq![(contract@, encoded->Some_0@)],
            }),
            Err(error) => final(ledger)@ == old(ledger)@ && result == Err::<Response, ContractError>(
                error,
            ),
        },
{
    let amounts = match checked_move(ledger, &channel, &info.sender, &contract, amount) {
        Ok(amounts) => amounts,
        Err(error) => {
            return Err(error);
        },
    };
    let bytes = match encoded {
        Some(bytes) => bytes,
        None => {
            return Err(ContractError::EncodeFailure);
        },
    };
    write_move(ledger, &channel, &info.sender, &contract, amounts);
    proof {
        old(ledger).lemma_mirror();
        lemma_move_keeps_supply_backed(old(ledger)@, channel@, info.sender@, contract@, amount);
    }
    let response = Response::new().add_message(receive_call(&contract, bytes)).add_attribute(
        "action",
        "send",
    ).add_attribute("from", info.sender.as_str()).add_attribute(
        "to",
        contract.as_str(),
    ).add_attribute("amount", to_text(amount).as_str());
    assert(response@.attributes =~= transfer_attributes(
        "send"@,
        info.sender@,
        contract@,
        amount,
    ));
    assert(response@.messages =~= seq![(contract@, bytes@)]);
    Ok(response)
}

/// Sends `amount` of the sender's balance to `contract` on `channel`, and
/// notifies the contract of the sender, the amount and `msg`. Nothing is
/// written unless every step succeeds.
pub fn execute_send(
    ledger: &mut Ledger,
    env: &Env,
    info: &MessageInfo,
    contract: String,
    amount: u128,
    msg: Vec<u8>,
    channel: String,
) -> (result: Result<Response, ContractError>)
    requires
        old(ledger).wf(),
    ensures
        final(ledger).wf(),
        old(ledger)@.keeps_supply_backed(final(ledger)@),
        match send_outcome(
            old(ledger)@,
            info.sender@,
            contract@,
            amount,
            channel@,
            receive_msg_encoding(info.sender@, amount, msg@),
        ) {
            Ok(after) => final(ledger)@ == after && result is Ok && result->Ok_0@ == (ResponseView {
                attributes: transfer_attributes("send"@, info.sender@, contract@, amount),
                messages: seq![
                    (contract@, receive_msg_encoding(info.sender@, amount, msg@)->Some_0),
                ],
            }),
            Err(error) => final(ledger)@ == old(ledger)@ && result == Err::<Response, ContractError>(
                error,
            ),
        },
{
    let encoded = encode_receive_msg(&info.sender, amount, &msg);
    send_encoded(ledger, env, info, contract, amount, encoded, channel)
}

/// Adds one to the counter of `channel`, starting from zero where the
/// channel has none, and hands back the new count.
pub fn try_increment(ledger: &mut Ledger, channel: String) -> (result: Result<u32, ContractError>)
    requires
        old(ledger).wf(),
    ensures
        final(ledger).wf(),
        old(ledger)@.keeps_supply_backed(final(ledger)@),
        result == increment_count(old(ledger)@, channel@),
        match result {
            Ok(count) => final(ledger)@ == old(ledger)@.with_count(channel@, count),
            Err(_) => final(ledger)@ == old(ledger)@,
        },
{
    let count = match ledger.connection_count(&channel) {
        Some(count) => count,
        None => 0,
    };
    if count == u32::MAX {
        return Err(ContractError::Overflow);
    }
    ledger.set_connection_count(&channel, count + 1);
    proof {
        lemma_counts_keep_supply_backed(old(ledger)@, ledger@);
    }
    Ok(count + 1)
}

} // verus!
