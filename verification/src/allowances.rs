//! Allowances: granting, reducing and spending them, and the operations that
//! move or burn an owner's balance on a spender's word.

use crate::amount::{add_amounts, decimal_text, sub_amounts, to_text};
use crate::balances::{
    burn_outcome, checked_burn, checked_move, lemma_burn_keeps_supply_backed,
    lemma_move_keeps_supply_backed, move_outcome, write_move,
};
use crate::error::ContractError;
use crate::expiration::{BlockInfo, Expiration};
use crate::msg::{Env, MessageInfo};
use crate::receiver::{encode_receive_msg, receive_call, receive_msg_encoding};
use crate::response::{Response, ResponseView};
use crate::state::{AllowanceResponse, Ledger, LedgerView};
use vstd::prelude::*;

verus! {

/// The expiration of a record after a call that supplied `expires`: the
/// supplied one, or else the one it had.
pub open spec fn replaced_expiration(current: Expiration, expires: Option<Expiration>) -> Expiration {
    match expires {
        Some(supplied) => supplied,
        None => current,
    }
}

/// Whether a call supplied an expiration that has been reached at `block`.
pub open spec fn supplied_elapsed(expires: Option<Expiration>, block: BlockInfo) -> bool {
    expires is Some && expires->Some_0.elapsed_at(block)
}

/// The ledger after `owner` has raised the allowance of `spender` on
/// `channel` by `amount`. Fails with `SelfAllowance` when the two are the
/// same account, with `InvalidExpiration` when a supplied expiration has
/// been reached, and with `Overflow` when the allowance would pass 128 bits.
/// A missing record counts as an allowance of zero that never lapses.
pub open spec fn increase_outcome(
    state: LedgerView,
    block: BlockInfo,
    owner: Seq<char>,
    spender: Seq<char>,
    amount: u128,
    expires: Option<Expiration>,
    channel: Seq<char>,
) -> Result<LedgerView, ContractError> {
    let current = match state.allowance(channel, owner, spender) {
        Some(record) => record,
        None => AllowanceResponse::none(),
    };
    if spender == owner {
        Err(ContractError::SelfAllowance)
    } else if supplied_elapsed(expires, block) {
        Err(ContractError::InvalidExpiration)
    } else if current.allowance + amount > u128::MAX {
        Err(ContractError::Overflow)
    } else {
        Ok(
            state.with_allowance(
                channel,
                owner,
                spender,
                AllowanceResponse {
                    allowance: (current.allowance + amount) as u128,
                    expires: replaced_expiration(current.expires, expires),
                },
            ),
        )
    }
}

/// The ledger after `owner` has lowered the allowance of `spender` on
/// `channel` by `amount`. Fails with `SelfAllowance` when the two are the
/// same account and with `NoAllowance` when there is no record. An amount
/// below the remaining allowance is subtracted, and the call then fails with
/// `InvalidExpiration` when a supplied expiration has been reached; any other
/// amount deletes the record.
pub open spec fn decrease_outcome(
    state: LedgerView,
    block: BlockInfo,
    owner: Seq<char>,
    spender: Seq<char>,
    amount: u128,
    expires: Option<Expiration>,
    channel: Seq<char>,
) -> Result<LedgerView, ContractError> {
    if spender == owner {
        Err(ContractError::SelfAllowance)
    } else {
        match state.allowance(channel, owner, spender) {
            None => Err(ContractError::NoAllowance),
            Some(record) => if amount < record.allowance {
                if supplied_elapsed(expires, block) {
                    Err(ContractError::InvalidExpiration)
                } else {
                    Ok(
                        state.with_allowance(
                            channel,
                            owner,
                            spender,
                            AllowanceResponse {
                                allowance: (record.allowance - amount) as u128,
                                expires: replaced_expiration(record.expires, expires),
                            },
                        ),
                    )
                }
            } else {
                Ok(state.without_allowance(channel, owner, spender))
            },
        }
    }
}

/// The allowance record of `owner` and `spender` on `channel` after
/// `spender` has spent `amount` of it. Fails with `NoAllowance` when there is
/// no record, with `Expired` when the record has lapsed at `block`, whatever
/// the amount, and with `Overflow` when `amount` is more than remains. The
/// expiration stays, and a record that reaches zero stays too.
pub open spec fn deduct_outcome(
    state: LedgerView,
    owner: Seq<char>,
    spender: Seq<char>,
    block: BlockInfo,
    amount: u128,
    channel: Seq<char>,
) -> Result<AllowanceResponse, ContractError> {
    match state.allowance(channel, owner, spender) {
        None => Err(ContractError::NoAllowance),
        Some(record) => if record.expires.elapsed_at(block) {
            Err(ContractError::Expired)
        } else if amount > record.allowance {
            Err(ContractError::Overflow)
        } else {
            Ok(
                AllowanceResponse {
                    allowance: (record.allowance - amount) as u128,
                    expires: record.expires,
                },
            )
        },
    }
}

/// The ledger after `spender` has moved `amount` of the balance of `owner`
/// to `recipient` on `channel`: the allowance is spent first, then the
/// balance moves. Any failure of either step fails the whole.
pub open spec fn transfer_from_outcome(
    state: LedgerView,
    block: BlockInfo,
    spender: Seq<char>,
    owner: Seq<char>,
    recipient: Seq<char>,
    amount: u128,
    channel: Seq<char>,
) -> Result<LedgerView, ContractError> {
    match deduct_outcome(state, owner, spender, block, amount, channel) {
        Err(error) => Err(error),
        Ok(record) => move_outcome(
            state.with_allowance(channel, owner, spender, record),
            channel,
            owner,
            recipient,
            amount,
        ),
    }
}

/// The ledger after `spender` has burned `amount` of the balance of `owner`
/// on `channel`: the allowance is spent first, then the balance and the
/// total supply shrink. Any failure of either step fails the whole.
pub open spec fn burn_from_outcome(
    state: LedgerView,
    block: BlockInfo,
    spender: Seq<char>,
    owner: Seq<char>,
    amount: u128,
    channel: Seq<char>,
) -> Result<LedgerView, ContractError> {
    match deduct_outcome(state, owner, spender, block, amount, channel) {
        Err(error) => Err(error),
        Ok(record) => burn_outcome(
            state.with_allowance(channel, owner, spender, record),
            channel,
            owner,
            amount,
        ),
    }
}

/// The ledger after `spender` has sent `amount` of the balance of `owner` to
/// `contract` on `channel`, given the encoded notification, or `None` where
/// it could not be encoded. As a transfer on the spender's word; a
/// notification that could not be encoded then fails the whole with
/// `EncodeFailure`.
pub open spec fn send_from_outcome(
    state: LedgerView,
    block: BlockInfo,
    spender: Seq<char>,
    owner: Seq<char>,
    contract: Seq<char>,
    amount: u128,
    channel: Seq<char>,
    encoded: Option<Seq<u8>>,
) -> Result<LedgerView, ContractError> {
    match transfer_from_outcome(state, block, spender, owner, contract, amount, channel) {
        Err(error) => Err(error),
        Ok(after) => if encoded is None {
            Err(ContractError::EncodeFailure)
        } else {
            Ok(after)
        },
    }
}

/// The attributes of a change of allowance.
pub open spec fn allowance_attributes(
    action: Seq<char>,
    owner: Seq<char>,
    spender: Seq<char>,
    amount: u128,
) -> Seq<(Seq<char>, Seq<char>)> {
    seq![
        ("action"@, action),
        ("owner"@, owner),
        ("spender"@, spender),
        ("amount"@, decimal_text(amount)),
    ]
}

/// The attributes of a move on a spender's word.
pub open spec fn spend_attributes(
    action: Seq<char>,
    owner: Seq<char>,
    recipient: Seq<char>,
    spender: Seq<char>,
    amount: u128,
) -> Seq<(Seq<char>, Seq<char>)> {
    seq![
        ("action"@, action),
        ("from"@, owner),
        ("to"@, recipient),
        ("by"@, spender),
        ("amount"@, decimal_text(amount)),
    ]
}

/// The attributes of a burn on a spender's word.
pub open spec fn burn_from_attributes(owner: Seq<char>, spender: Seq<char>, amount: u128) -> Seq<
    (Seq<char>, Seq<char>),
> {
    seq![
        ("action"@, "burn_from"@),
        ("from"@, owner),
        ("by"@, spender),
        ("amount"@, decimal_text(amount)),
    ]
}

/// Raising an allowance and at once lowering it by the same amount gives
/// back the ledger as it was, where the two calls leave the expiration of
/// the record as it was: they supply none, or what they supply is the
/// expiration it had. The one exception is a record that stood at zero: the
/// lowering deletes it.
pub proof fn lemma_increase_then_decrease(
    state: LedgerView,
    block: BlockInfo,
    owner: Seq<char>,
    spender: Seq<char>,
    amount: u128,
    raise_expires: Option<Expiration>,
    lower_expires: Option<Expiration>,
    channel: Seq<char>,
)
    requires
        state.mirrored(),
        increase_outcome(state, block, owner, spender, amount, raise_expires, channel) is Ok,
        state.allowances.contains_key((channel, owner, spender)) && state.allowances[(
            channel,
            owner,
            spender,
        )].allowance > 0 ==> {
            &&& !supplied_elapsed(lower_expires, block)
            &&& replaced_expiration(
                replaced_expiration(
                    state.allowances[(channel, owner, spender)].expires,
                    raise_expires,
                ),
                lower_expires,
            ) == state.allowances[(channel, owner, spender)].expires
        },
    ensures
        decrease_outcome(
            increase_outcome(state, block, owner, spender, amount, raise_expires, channel)->Ok_0,
            block,
            owner,
            spender,
            amount,
            lower_expires,
            channel,
        ) == Ok::<LedgerView, ContractError>(
            if state.allowances.contains_key((channel, owner, spender)) && state.allowances[(
                channel,
                owner,
                spender,
            )].allowance == 0 {
                state.without_allowance(channel, owner, spender)
            } else {
                state
            },
        ),
{
    let raised = increase_outcome(state, block, owner, spender, amount, raise_expires, channel)->Ok_0;
    let lowered = decrease_outcome(raised, block, owner, spender, amount, lower_expires, channel);
    assert(state.allowance(channel, owner, spender) == state.allowance_by_spender(
        channel,
        spender,
        owner,
    )) by {
        assert(state.allowances.contains_key((channel, owner, spender))
            || !state.allowances.contains_key((channel, owner, spender)));
    }
    match state.allowance(channel, owner, spender) {
        Some(record) => {
            if record.allowance > 0 {
                assert(lowered->Ok_0.allowances =~= state.allowances);
                assert(lowered->Ok_0.allowances_spender =~= state.allowances_spender);
            } else {
                assert(lowered->Ok_0.allowances =~= state.allowances.remove(
                    (channel, owner, spender),
                ));
                assert(lowered->Ok_0.allowances_spender =~= state.allowances_spender.remove(
                    (channel, spender, owner),
                ));
            }
        },
        None => {
            assert(lowered->Ok_0.allowances =~= state.allowances);
            assert(lowered->Ok_0.allowances_spender =~= state.allowances_spender);
        },
    }
}

/// Spending from an allowance that has lapsed fails with `Expired` whatever
/// the amount: zero, within what remains, or beyond it.
pub proof fn lemma_lapsed_allowance_is_expired(
    state: LedgerView,
    owner: Seq<char>,
    spender: Seq<char>,
    block: BlockInfo,
    amount: u128,
    channel: Seq<char>,
)
    requires
        state.allowances.contains_key((channel, owner, spender)),
        state.allowances[(channel, owner, spender)].expires.elapsed_at(block),
    ensures
        deduct_outcome(state, owner, spender, block, amount, channel) == Err::<
            AllowanceResponse,
            ContractError,
        >(ContractError::Expired),
{
}

/// Where the allowance cannot be spent, moving, burning and sending on the
/// spender's word all fail with the error of the spending, so that none of
/// them changes the ledger.
pub proof fn lemma_failed_deduction_fails_the_whole(
    state: LedgerView,
    block: BlockInfo,
    spender: Seq<char>,
    owner: Seq<char>,
    recipient: Seq<char>,
    amount: u128,
    channel: Seq<char>,
    encoded: Option<Seq<u8>>,
)
    requires
        deduct_outcome(state, owner, spender, block, amount, channel) is Err,
    ensures
        transfer_from_outcome(state, block, spender, owner, recipient, amount, channel) == Err::<
            LedgerView,
            ContractError,
        >(deduct_outcome(state, owner, spender, block, amount, channel)->Err_0),
        burn_from_outcome(state, block, spender, owner, amount, channel) == Err::<
            LedgerView,
            ContractError,
        >(deduct_outcome(state, owner, spender, block, amount, channel)->Err_0),
        send_from_outcome(state, block, spender, owner, recipient, amount, channel, encoded)
            == Err::<LedgerView, ContractError>(
            deduct_outcome(state, owner, spender, block, amount, channel)->Err_0,
        ),
{
}

/// A change of allowances alone keeps the total supply of every channel
/// backed by its balances.
pub proof fn lemma_allowances_keep_supply_backed(before: LedgerView, after: LedgerView)
    requires
        after.balances == before.balances,
        after.token_info == before.token_info,
    ensures
        before.keeps_supply_backed(after),
{
}

/// Raises the allowance that the sender grants to `spender` on `channel` by
/// `amount`, and replaces its expiration where one is supplied. Both indexes
/// get the same record.
pub fn execute_increase_allowance(
    ledger: &mut Ledger,
    env: &Env,
    info: &MessageInfo,
    spender: String,
    amount: u128,
    expires: Option<Expiration>,
    channel: String,
) -> (result: Result<Response, ContractError>)
    requires
        old(ledger).wf(),
    ensures
        final(ledger).wf(),
        old(ledger)@.keeps_supply_backed(final(ledger)@),
        match increase_outcome(
            old(ledger)@,
            env.block,
            info.sender@,
            spender@,
            amount,
            expires,
            channel@,
        ) {
            Ok(after) => final(ledger)@ == after && result is Ok && result->Ok_0@ == (ResponseView {
                attributes: allowance_attributes(
                    "increase_allowance"@,
                    info.sender@,
                    spender@,
                    amount,
                ),
                messages: Seq::empty(),
            }),
            Err(error) => final(ledger)@ == old(ledger)@ && result == Err::<Response, ContractError>(
                error,
            ),
        },
{
    if spender == info.sender {
        return Err(ContractError::SelfAllowance);
    }
    let mut record = match ledger.allowance(&channel, &info.sender, &spender) {
        Some(record) => record,
        None => AllowanceResponse::default(),
    };
    if let Some(supplied) = expires {
        if supplied.is_expired(&env.block) {
            return Err(ContractError::InvalidExpiration);
        }
        record.expires = supplied;
    }
    record.allowance = match add_amounts(record.allowance, amount) {
        Some(raised) => raised,
        None => {
            return Err(ContractError::Overflow);
        },
    };
    ledger.set_allowance(&channel, &info.sender, &spender, record);
    proof {
        lemma_allowances_keep_supply_backed(old(ledger)@, ledger@);
    }
    let response = Response::new().add_attribute("action", "increase_allowance").add_attribute(
        "owner",
        info.sender.as_str(),
    ).add_attribute("spender", spender.as_str()).add_attribute("amount", to_text(amount).as_str());
    assert(response@.attributes =~= allowance_attributes(
        "increase_allowance"@,
        info.sender@,
        spender@,
        amount,
    ));
    Ok(response)
}

/// Lowers the allowance that the sender grants to `spender` on `channel` by
/// `amount`, or deletes the record from both indexes when `amount` is not
/// below what remains.
pub fn execute_decrease_allowance(
    ledger: &mut Ledger,
    env: &Env,
    info: &MessageInfo,
    spender: String,
    amount: u128,
    expires: Option<Expiration>,
    channel: String,
) -> (result: Result<Response, ContractError>)
    requires
        old(ledger).wf(),
    ensures
        final(ledger).wf(),
        old(ledger)@.keeps_supply_backed(final(ledger)@),
        match decrease_outcome(
            old(ledger)@,
            env.block,
            info.sender@,
            spender@,
            amount,
            expires,
            channel@,
        ) {
            Ok(after) => final(ledger)@ == after && result is Ok && result->Ok_0@ == (ResponseView {
                attributes: allowance_attributes(
                    "decrease_allowance"@,
                    info.sender@,
                    spender@,
                    amount,
                ),
                messages: Seq::empty(),
            }),
            Err(error) => final(ledger)@ == old(ledger)@ && result == Err::<Response, ContractError>(
                error,
            ),
        },
{
    if spender == info.sender {
        return Err(ContractError::SelfAllowance);
    }
    let mut record = match ledger.allowance(&channel, &info.sender, &spender) {
        Some(record) => record,
        None => {
            return Err(ContractError::NoAllowance);
        },
    };
    if amount < record.allowance {
        record.allowance = match sub_amounts(record.allowance, amount) {
            Some(lowered) => lowered,
            None => {
                return Err(ContractError::Overflow);
            },
        };
        if let Some(supplied) = expires {
            if supplied.is_expired(&env.block) {
                return Err(ContractError::InvalidExpiration);
            }
            record.expires = supplied;
        }
        ledger.set_allowance(&channel, &info.sender, &spender, record);
    } else {
        ledger.remove_allowance(&channel, &info.sender, &spender);
    }
    proof {
        lemma_allowances_keep_supply_backed(old(ledger)@, ledger@);
    }
    let response = Response::new().add_attribute("action", "decrease_allowance").add_attribute(
        "owner",
        info.sender.as_str(),
    ).add_attribute("spender", spender.as_str()).add_attribute("amount", to_text(amount).as_str());
    assert(response@.attributes =~= allowance_attributes(
        "decrease_allowance"@,
        info.sender@,
        spender@,
        amount,
    ));
    Ok(response)
}

/// Works out a spending of an allowance without writing: the record that it
/// would leave.
fn checked_deduction(
    ledger: &Ledger,
    owner: &String,
    spender: &String,
    block: &BlockInfo,
    amount: u128,
    channel: &String,
) -> (planned: Result<AllowanceResponse, ContractError>)
    requires
        ledger.wf(),
    ensures
        planned == deduct_outcome(ledger@, owner@, spender@, *block, amount, channel@),
{
    let record = match ledger.allowance(channel, owner, spender) {
        Some(record) => record,
        None => {
            return Err(ContractError::NoAllowance);
        },
    };
    if record.expires.is_expired(block) {
        return Err(ContractError::Expired);
    }
    match sub_amounts(record.allowance, amount) {
        Some(remaining) => Ok(AllowanceResponse { allowance: remaining, expires: record.expires }),
        None => Err(ContractError::Overflow),
    }
}

/// Spends `amount` of the allowance that `owner` grants to `spender` on
/// `channel`, and hands back the record that is left. Both indexes get the
/// same record.
pub fn deduct_allowance(
    ledger: &mut Ledger,
    owner: &String,
    spender: &String,
    block: &BlockInfo,
    amount: u128,
    channel: String,
) -> (result: Result<AllowanceResponse, ContractError>)
    requires
        old(ledger).wf(),
    ensures
        final(ledger).wf(),
        old(ledger)@.keeps_supply_backed(final(ledger)@),
        result == deduct_outcome(old(ledger)@, owner@, spender@, *block, amount, channel@),
        match result {
            Ok(record) => final(ledger)@ == old(ledger)@.with_allowance(
                channel@,
                owner@,
                spender@,
                record,
            ),
            Err(_) => final(ledger)@ == old(ledger)@,
        },
{
    let record = match checked_deduction(ledger, owner, spender, block, amount, &channel) {
        Ok(record) => record,
        Err(error) => {
            return Err(error);
        },
    };
    ledger.set_allowance(&channel, owner, spender, record);
    proof {
        lemma_allowances_keep_supply_backed(old(ledger)@, ledger@);
    }
    Ok(record)
}

/// Moves `amount` of the balance of `owner` to `recipient` on `channel`, on
/// the word of the sender, whose allowance is spent first. Nothing is
/// written unless every step succeeds.
pub fn execute_transfer_from(
    ledger: &mut Ledger,
    env: &Env,
    info: &MessageInfo,
    owner: String,
    recipient: String,
    amount: u128,
    channel: String,
) -> (result: Result<Response, ContractError>)
    requires
        old(ledger).wf(),
    ensures
        final(ledger).wf(),
        old(ledger)@.keeps_supply_backed(final(ledger)@),
        match transfer_from_outcome(
            old(ledger)@,
            env.block,
            info.sender@,
            owner@,
            recipient@,
            amount,
            channel@,
        ) {
            Ok(after) => final(ledger)@ == after && result is Ok && result->Ok_0@ == (ResponseView {
                attributes: spend_attributes(
                    "transfer_from"@,
                    owner@,
                    recipient@,
                    info.sender@,
                    amount,
                ),
                messages: Seq::empty(),
            }),
            Err(error) => final(ledger)@ == old(ledger)@ && result == Err::<Response, ContractError>(
                error,
            ),
        },
{
    let record = match checked_deduction(ledger, &owner, &info.sender, &env.block, amount, &channel) {
        Ok(record) => record,
        Err(error) => {
            return Err(error);
        },
    };
    let amounts = match checked_move(ledger, &channel, &owner, &recipient, amount) {
        Ok(amounts) => amounts,
        Err(error) => {
            return Err(error);
        },
    };
    ledger.set_allowance(&channel, &owner, &info.sender, record);
    write_move(ledger, &channel, &owner, &recipient, amounts);
    proof {
        let spent = old(ledger)@.with_allowance(channel@, owner@, info.sender@, record);
        old(ledger).lemma_mirror();
        lemma_allowances_keep_supply_backed(old(ledger)@, spent);
        lemma_move_keeps_supply_backed(spent, channel@, owner@, recipient@, amount);
    }
    let response = Response::new().add_attribute("action", "transfer_from").add_attribute(
        "from",
        owner.as_str(),
    ).add_attribute("to", recipient.as_str()).add_attribute(
        "by",
        info.sender.as_str(),
    ).add_attribute("amount", to_text(amount).as_str());
    assert(response@.attributes =~= spend_attributes(
        "transfer_from"@,
        owner@,
        recipient@,
        info.sender@,
        amount,
    ));
    Ok(response)
}

/// Burns `amount` of the balance of `owner` on `channel`, on the word of the
/// sender, whose allowance is spent first; the total supply of the channel
/// shrinks by the same amount. Nothing is written unless every step
/// succeeds.
pub fn execute_burn_from(
    ledger: &mut Ledger,
    env: &Env,
    info: &MessageInfo,
    owner: String,
    amount: u128,
    channel: String,
) -> (result: Result<Response, ContractError>)
    requires
        old(ledger).wf(),
    ensures
        final(ledger).wf(),
        old(ledger)@.keeps_supply_backed(final(ledger)@),
        match burn_from_outcome(old(ledger)@, env.block, info.sender@, owner@, amount, channel@) {
            Ok(after) => final(ledger)@ == after && result is Ok && result->Ok_0@ == (ResponseView {
                attributes: burn_from_attributes(owner@, info.sender@, amount),
                messages: Seq::empty(),
            }),
            Err(error) => final(ledger)@ == old(ledger)@ && result == Err::<Response, ContractError>(
                error,
            ),
        },
{
    let record = match checked_deduction(ledger, &owner, &info.sender, &env.block, amount, &channel) {
        Ok(record) => record,
        Err(error) => {
            return Err(error);
        },
    };
    let (balance, token) = match checked_burn(ledger, &channel, &owner, amount) {
        Ok(planned) => planned,
        Err(error) => {
            return Err(error);
        },
    };
    ledger.set_allowance(&channel, &owner, &info.sender, record);
    ledger.set_balance(&channel, &owner, balance);
    ledger.set_token_info(&channel, token);
    proof {
        let spent = old(ledger)@.with_allowance(channel@, owner@, info.sender@, record);
        old(ledger).lemma_mirror();
        lemma_allowances_keep_supply_backed(old(ledger)@, spent);
        lemma_burn_keeps_supply_backed(spent, channel@, owner@, amount);
    }
    let response = Response::new().add_attribute("action", "burn_from").add_attribute(
        "from",
        owner.as_str(),
    ).add_attribute("by", info.sender.as_str()).add_attribute("amount", to_text(amount).as_str());
    assert(response@.attributes =~= burn_from_attributes(owner@, info.sender@, amount));
    Ok(response)
}

/// Sends `amount` of the balance of `owner` to `contract` on `channel`, on
/// the word of the sender, given the encoded notification for the contract,
/// or `None` where it could not be encoded. The response carries the call
/// that delivers the notification. Nothing is written unless every step
/// succeeds.
pub fn send_from_encoded(
    ledger: &mut Ledger,
    env: &Env,
    info: &MessageInfo,
    owner: String,
    contract: String,
    amount: u128,
    encoded: Option<Vec<u8>>,
    channel: String,
) -> (result: Result<Response, ContractError>)
    requires
        old(ledger).wf(),
    ensures
        final(ledger).wf(),
        old(ledger)@.keeps_supply_backed(final(ledger)@),
        match send_from_outcome(
            old(ledger)@,
            env.block,
            info.sender@,
            owner@,
            contract@,
            amount,
            channel@,
            match encoded {
                Some(bytes) => Some(bytes@),
                None => None,
            },
        ) {
            Ok(after) => final(ledger)@ == after && result is Ok && result->Ok_0@ == (ResponseView {
                attributes: spend_attributes(
                    "send_from"@,
                    owner@,
                    contract@,
                    info.sender@,
                    amount,
                ),
                messages: seq![(contract@, encoded->Some_0@)],
            }),
            Err(error) => final(ledger)@ == old(ledger)@ && result == Err::<Response, ContractError>(
                error,
            ),
        },
{
    let record = match checked_deduction(ledger, &owner, &info.sender, &env.block, amount, &channel) {
        Ok(record) => record,
        Err(error) => {
            return Err(error);
        },
    };
    let amounts = match checked_move(ledger, &channel, &owner, &contract, amount) {
        Ok(amounts) => amounts,
        Err(error) => {
            return Err(error);
        },
    };
    let bytes = match encoded {
        Some(bytes) => bytes,
        None => {
            return Err(ContractError::EncodeFailure);
        },
    };
    ledger.set_allowance(&channel, &owner, &info.sender, record);
    write_move(ledger, &channel, &owner, &contract, amounts);
    proof {
        let spent = old(ledger)@.with_allowance(channel@, owner@, info.sender@, record);
        old(ledger).lemma_mirror();
        lemma_allowances_keep_supply_backed(old(ledger)@, spent);
        lemma_move_keeps_supply_backed(spent, channel@, owner@, contract@, amount);
    }
    let response = Response::new().add_message(receive_call(&contract, bytes)).add_attribute(
        "action",
        "send_from",
    ).add_attribute("from", owner.as_str()).add_attribute("to", contract.as_str()).add_attribute(
        "by",
        info.sender.as_str(),
    ).add_attribute("amount", to_text(amount).as_str());
    assert(response@.attributes =~= spend_attributes(
        "send_from"@,
        owner@,
        contract@,
        info.sender@,
        amount,
    ));
    assert(response@.messages =~= seq![(contract@, bytes@)]);
    Ok(response)
}

/// Sends `amount` of the balance of `owner` to `contract` on `channel`, on
/// the word of the sender, and notifies the contract of the sender, the
/// amount and `msg`. Nothing is written unless every step succeeds.
pub fn execute_send_from(
    ledger: &mut Ledger,
    env: &Env,
    info: &MessageInfo,
    owner: String,
    contract: String,
    amount: u128,
    msg: Vec<u8>,
    channel: String,
) -> (result: Result<Response, ContractError>)
    requires
        old(ledger).wf(),
    ensures
        final(ledger).wf(),
        old(ledger)@.keeps_supply_backed(final(ledger)@),
        match send_from_outcome(
            old(ledger)@,
            env.block,
            info.sender@,
            owner@,
            contract@,
            amount,
            channel@,
            receive_msg_encoding(info.sender@, amount, msg@),
        ) {
            Ok(after) => final(ledger)@ == after && result is Ok && result->Ok_0@ == (ResponseView {
                attributes: spend_attributes(
                    "send_from"@,
                    owner@,
                    contract@,
                    info.sender@,
                    amount,
                ),
                messages: seq![
                    (contract@, receive_msg_encoding(info.sender@, amount, msg@)->Some_0),
                ],
            }),
            Err(error) => final(ledger)@ == old(ledger)@ && result == Err::<Response, ContractError>(
                error,
            ),
        },
{
    let encoded = encode_receive_msg(&info.sender, amount, &msg);
    send_from_encoded(ledger, env, info, owner, contract, amount, encoded, channel)
}

/// The allowance that `owner` grants to `spender` on `channel`: nothing,
/// never lapsing, when there is no record. Never fails.
pub fn query_allowance(ledger: &Ledger, owner: String, spender: String, channel: String) -> (result:
    Result<AllowanceResponse, ContractError>)
    requires
        ledger.wf(),
    ensures
        result == Ok::<AllowanceResponse, ContractError>(
            match ledger@.allowance(channel@, owner@, spender@) {
                Some(record) => record,
                None => AllowanceResponse::none(),
            },
        ),
{
    match ledger.allowance(&channel, &owner, &spender) {
        Some(record) => Ok(record),
        None => Ok(AllowanceResponse::default()),
    }
}

} // verus!
