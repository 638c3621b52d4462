//! Moving, burning and minting balances: what each does to the ledger, the
//! checks that come before any write, and why the total supply stays the sum
//! of the balances.

use crate::amount::{add_amounts, sub_amounts};
use crate::error::ContractError;
use crate::state::{Ledger, LedgerView, MinterData, TokenInfo};
use crate::supply::{circulating, lemma_circulating_insert};
use vstd::prelude::*;

verus! {

/// The balances of `from` and `to` after `amount` has moved from the one to
/// the other on `channel`. Fails with `Overflow` when `from` holds less than
/// `amount`, or when the balance of `to` would pass 128 bits.
pub open spec fn move_amounts(
    state: LedgerView,
    channel: Seq<char>,
    from: Seq<char>,
    to: Seq<char>,
    amount: u128,
) -> Result<(u128, u128), ContractError> {
    let available = state.balance(channel, from);
    if amount > available {
        Err(ContractError::Overflow)
    } else {
        let debited = (available - amount) as u128;
        let before = if to == from {
            debited
        } else {
            state.balance(channel, to)
        };
        if before + amount > u128::MAX {
            Err(ContractError::Overflow)
        } else {
            Ok((debited, (before + amount) as u128))
        }
    }
}

/// The ledger after `amount` has moved from `from` to `to` on `channel`.
pub open spec fn move_outcome(
    state: LedgerView,
    channel: Seq<char>,
    from: Seq<char>,
    to: Seq<char>,
    amount: u128,
) -> Result<LedgerView, ContractError> {
    match move_amounts(state, channel, from, to, amount) {
        Ok((debited, credited)) => Ok(
            state.with_balance(channel, from, debited).with_balance(channel, to, credited),
        ),
        Err(error) => Err(error),
    }
}

/// The balance of `address` and the total supply of `channel` after
/// `amount` has been burned. Fails with `Overflow` when the balance is less
/// than `amount`, with `TokenInfoNotFound` when the channel has no token
/// record, and with `Overflow` when the total supply is less than `amount`.
pub open spec fn burn_amounts(state: LedgerView, channel: Seq<char>, address: Seq<char>, amount: u128) -> Result<
    (u128, u128),
    ContractError,
> {
    let available = state.balance(channel, address);
    if amount > available {
        Err(ContractError::Overflow)
    } else if !state.token_info.contains_key(channel) {
        Err(ContractError::TokenInfoNotFound)
    } else if amount > state.token_info[channel].total_supply {
        Err(ContractError::Overflow)
    } else {
        Ok(
            (
                (available - amount) as u128,
                (state.token_info[channel].total_supply - amount) as u128,
            ),
        )
    }
}

/// The ledger after `amount` of the balance of `address` on `channel` has
/// been burned.
pub open spec fn burn_outcome(state: LedgerView, channel: Seq<char>, address: Seq<char>, amount: u128) -> Result<
    LedgerView,
    ContractError,
> {
    match burn_amounts(state, channel, address, amount) {
        Ok((balance, supply)) => Ok(
            state.with_balance(channel, address, balance).with_token_info(
                channel,
                TokenInfo { total_supply: supply, ..state.token_info[channel] },
            ),
        ),
        Err(error) => Err(error),
    }
}

/// Whether `sender` is the minter of `info`.
pub open spec fn is_minter(info: TokenInfo, sender: Seq<char>) -> bool {
    info.mint is Some && info.mint->Some_0.minter@ == sender
}

/// The total supply of `channel` and the balance of `recipient` after
/// `sender` has minted `amount`. Fails with `Unauthorized` when the channel
/// has no token record or `sender` is not its minter, with `Overflow` when
/// the total supply would pass 128 bits, with `CannotExceedCap` when it would
/// pass the cap, and with `Overflow` when the balance would pass 128 bits.
pub open spec fn mint_amounts(
    state: LedgerView,
    sender: Seq<char>,
    channel: Seq<char>,
    recipient: Seq<char>,
    amount: u128,
) -> Result<(u128, u128), ContractError> {
    if !state.token_info.contains_key(channel) {
        Err(ContractError::Unauthorized)
    } else {
        let info = state.token_info[channel];
        if !is_minter(info, sender) {
            Err(ContractError::Unauthorized)
        } else if info.total_supply + amount > u128::MAX {
            Err(ContractError::Overflow)
        } else if info.cap() is Some && info.total_supply + amount > info.cap()->Some_0 {
            Err(ContractError::CannotExceedCap)
        } else if state.balance(channel, recipient) + amount > u128::MAX {
            Err(ContractError::Overflow)
        } else {
            Ok(
                (
                    (info.total_supply + amount) as u128,
                    (state.balance(channel, recipient) + amount) as u128,
                ),
            )
        }
    }
}

/// The ledger after `sender` has minted `amount` to `recipient` on
/// `channel`.
pub open spec fn mint_outcome(
    state: LedgerView,
    sender: Seq<char>,
    channel: Seq<char>,
    recipient: Seq<char>,
    amount: u128,
) -> Result<LedgerView, ContractError> {
    match mint_amounts(state, sender, channel, recipient, amount) {
        Ok((supply, balance)) => Ok(
            state.with_token_info(
                channel,
                TokenInfo { total_supply: supply, ..state.token_info[channel] },
            ).with_balance(channel, recipient, balance),
        ),
        Err(error) => Err(error),
    }
}

/// A move leaves the sum of the balances of every channel as it was.
pub proof fn lemma_move_keeps_sums(
    state: LedgerView,
    channel: Seq<char>,
    from: Seq<char>,
    to: Seq<char>,
    amount: u128,
    on: Seq<char>,
)
    requires
        state.balances.dom().finite(),
        move_outcome(state, channel, from, to, amount) is Ok,
    ensures
        circulating(move_outcome(state, channel, from, to, amount)->Ok_0.balances, on)
            == circulating(state.balances, on),
{
    let amounts = move_amounts(state, channel, from, to, amount)->Ok_0;
    let debited = state.balances.insert((channel, from), amounts.0);
    lemma_circulating_insert(state.balances, (channel, from), amounts.0, on);
    lemma_circulating_insert(debited, (channel, to), amounts.1, on);
}

/// A move keeps the total supply of every channel backed by its balances.
pub proof fn lemma_move_keeps_supply_backed(
    state: LedgerView,
    channel: Seq<char>,
    from: Seq<char>,
    to: Seq<char>,
    amount: u128,
)
    requires
        state.balances.dom().finite(),
        move_outcome(state, channel, from, to, amount) is Ok,
    ensures
        state.keeps_supply_backed(move_outcome(state, channel, from, to, amount)->Ok_0),
{
    let after = move_outcome(state, channel, from, to, amount)->Ok_0;
    assert forall|on: Seq<char>| state.supply_backed_on(on) implies #[trigger] after.supply_backed_on(
        on,
    ) by {
        lemma_move_keeps_sums(state, channel, from, to, amount, on);
    }
}

/// A burn keeps the total supply of every channel backed by its balances.
pub proof fn lemma_burn_keeps_supply_backed(
    state: LedgerView,
    channel: Seq<char>,
    address: Seq<char>,
    amount: u128,
)
    requires
        state.balances.dom().finite(),
        burn_outcome(state, channel, address, amount) is Ok,
    ensures
        state.keeps_supply_backed(burn_outcome(state, channel, address, amount)->Ok_0),
{
    let after = burn_outcome(state, channel, address, amount)->Ok_0;
    let amounts = burn_amounts(state, channel, address, amount)->Ok_0;
    assert forall|on: Seq<char>| state.supply_backed_on(on) implies #[trigger] after.supply_backed_on(
        on,
    ) by {
        lemma_circulating_insert(state.balances, (channel, address), amounts.0, on);
    }
}

/// A mint keeps the total supply of every channel backed by its balances.
pub proof fn lemma_mint_keeps_supply_backed(
    state: LedgerView,
    sender: Seq<char>,
    channel: Seq<char>,
    recipient: Seq<char>,
    amount: u128,
)
    requires
        state.balances.dom().finite(),
        mint_outcome(state, sender, channel, recipient, amount) is Ok,
    ensures
        state.keeps_supply_backed(mint_outcome(state, sender, channel, recipient, amount)->Ok_0),
{
    let after = mint_outcome(state, sender, channel, recipient, amount)->Ok_0;
    let amounts = mint_amounts(state, sender, channel, recipient, amount)->Ok_0;
    assert forall|on: Seq<char>| state.supply_backed_on(on) implies #[trigger] after.supply_backed_on(
        on,
    ) by {
        lemma_circulating_insert(state.balances, (channel, recipient), amounts.1, on);
    }
}

/// Works out a move without writing: the two balances that it would leave.
pub(crate) fn checked_move(
    ledger: &Ledger,
    channel: &String,
    from: &String,
    to: &String,
    amount: u128,
) -> (amounts: Result<(u128, u128), ContractError>)
    requires
        ledger.wf(),
    ensures
        amounts == move_amounts(ledger@, channel@, from@, to@, amount),
{
    let available = ledger.balance(channel, from);
    let debited = match sub_amounts(available, amount) {
        Some(value) => value,
        None => {
            return Err(ContractError::Overflow);
        },
    };
    let before = if *to == *from {
        debited
    } else {
        ledger.balance(channel, to)
    };
    match add_amounts(before, amount) {
        Some(credited) => Ok((debited, credited)),
        None => Err(ContractError::Overflow),
    }
}

/// Writes the two balances that `checked_move` worked out.
pub(crate) fn write_move(
    ledger: &mut Ledger,
    channel: &String,
    from: &String,
    to: &String,
    amounts: (u128, u128),
)
    requires
        old(ledger).wf(),
    ensures
        final(ledger).wf(),
        final(ledger)@ == old(ledger)@.with_balance(channel@, from@, amounts.0).with_balance(
            channel@,
            to@,
            amounts.1,
        ),
{
    ledger.set_balance(channel, from, amounts.0);
    ledger.set_balance(channel, to, amounts.1);
}

/// A copy of `data`.
fn copy_minter(data: &MinterData) -> (copy: MinterData)
    ensures
        copy == *data,
{
    MinterData { minter: data.minter.clone(), cap: data.cap }
}

/// A copy of `info` with `total_supply` in place of its total supply.
pub(crate) fn with_total_supply(info: &TokenInfo, total_supply: u128) -> (record: TokenInfo)
    ensures
        record == (TokenInfo { total_supply, ..*info }),
{
    let mint = match &info.mint {
        Some(data) => Some(copy_minter(data)),
        None => None,
    };
    TokenInfo {
        name: info.name.clone(),
        symbol: info.symbol.clone(),
        decimals: info.decimals,
        total_supply,
        mint,
    }
}

/// Works out a burn without writing: the balance and the token record that
/// it would leave.
pub(crate) fn checked_burn(ledger: &Ledger, channel: &String, address: &String, amount: u128) -> (planned:
    Result<(u128, TokenInfo), ContractError>)
    requires
        ledger.wf(),
    ensures
        match burn_amounts(ledger@, channel@, address@, amount) {
            Ok((balance, supply)) => planned == Ok::<(u128, TokenInfo), ContractError>(
                (balance, TokenInfo { total_supply: supply, ..ledger@.token_info[channel@] }),
            ),
            Err(error) => planned == Err::<(u128, TokenInfo), ContractError>(error),
        },
{
    let available = ledger.balance(channel, address);
    let balance = match sub_amounts(available, amount) {
        Some(value) => value,
        None => {
            return Err(ContractError::Overflow);
        },
    };
    let info = match ledger.token_info(channel) {
        Some(info) => info,
        None => {
            return Err(ContractError::TokenInfoNotFound);
        },
    };
    match sub_amounts(info.total_supply, amount) {
        Some(supply) => Ok((balance, with_total_supply(info, supply))),
        None => Err(ContractError::Overflow),
    }
}

/// Works out a mint without writing: the token record and the balance that
/// it would leave.
pub(crate) fn checked_mint(
    ledger: &Ledger,
    sender: &String,
    channel: &String,
    recipient: &String,
    amount: u128,
) -> (planned: Result<(TokenInfo, u128), ContractError>)
    requires
        ledger.wf(),
    ensures
        match mint_amounts(ledger@, sender@, channel@, recipient@, amount) {
            Ok((supply, balance)) => planned == Ok::<(TokenInfo, u128), ContractError>(
                (TokenInfo { total_supply: supply, ..ledger@.token_info[channel@] }, balance),
            ),
            Err(error) => planned == Err::<(TokenInfo, u128), ContractError>(error),
        },
{
    let info = match ledger.token_info(channel) {
        Some(info) => info,
        None => {
            return Err(ContractError::Unauthorized);
        },
    };
    let allowed = match &info.mint {
        Some(data) => data.minter == *sender,
        None => false,
    };
    if !allowed {
        return Err(ContractError::Unauthorized);
    }
    let supply = match add_amounts(info.total_supply, amount) {
        Some(value) => value,
        None => {
            return Err(ContractError::Overflow);
        },
    };
    if let Some(limit) = info.get_cap() {
        if supply > limit {
            return Err(ContractError::CannotExceedCap);
        }
    }
    match add_amounts(ledger.balance(channel, recipient), amount) {
        Some(balance) => Ok((with_total_supply(info, supply), balance)),
        None => Err(ContractError::Overflow),
    }
}

} // verus!
