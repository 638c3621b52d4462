use channel_ledger::allowances::{
    deduct_allowance, execute_burn_from, execute_decrease_allowance, execute_increase_allowance,
    execute_send_from, execute_transfer_from, query_allowance, send_from_encoded,
};
use channel_ledger::error::ContractError;
use channel_ledger::expiration::{BlockInfo, Expiration};
use channel_ledger::msg::{Env, MessageInfo};
use channel_ledger::response::{Attribute, WasmExecute};
use channel_ledger::state::{AllowanceResponse, Ledger, MinterData, TokenInfo};

fn s(text: &str) -> String {
    text.to_string()
}

fn env_at(height: u64, time: u64) -> Env {
    Env { block: BlockInfo { height, time } }
}

fn by(sender: &str) -> MessageInfo {
    MessageInfo { sender: s(sender) }
}

fn pair(key: &str, value: &str) -> Attribute {
    Attribute { key: s(key), value: s(value) }
}

fn token(total_supply: u128) -> TokenInfo {
    TokenInfo {
        name: s("Token"),
        symbol: s("TKN"),
        decimals: 6,
        total_supply,
        mint: Some(MinterData { minter: s("minter"), cap: None }),
    }
}

fn record(allowance: u128, expires: Expiration) -> AllowanceResponse {
    AllowanceResponse { allowance, expires }
}

#[test]
fn increase_creates_record_under_both_indexes() {
    let mut ledger = Ledger::new();
    let res = execute_increase_allowance(
        &mut ledger,
        &env_at(5, 50),
        &by("owner"),
        s("spender"),
        1000,
        None,
        s("channel-7"),
    )
    .unwrap();
    assert_eq!(
        res.attributes,
        vec![
            pair("action", "increase_allowance"),
            pair("owner", "owner"),
            pair("spender", "spender"),
            pair("amount", "1000"),
        ]
    );
    assert!(res.messages.is_empty());
    let expected = Some(record(1000, Expiration::Never));
    assert_eq!(ledger.allowance(&s("channel-7"), &s("owner"), &s("spender")), expected);
    assert_eq!(ledger.allowance_by_spender(&s("channel-7"), &s("spender"), &s("owner")), expected);
    assert_eq!(ledger.allowance(&s("channel-7"), &s("spender"), &s("owner")), None);
}

#[test]
fn increase_adds_to_existing_and_keeps_expiration() {
    let mut ledger = Ledger::new();
    let env = env_at(5, 50);
    execute_increase_allowance(
        &mut ledger,
        &env,
        &by("owner"),
        s("spender"),
        10,
        Some(Expiration::AtHeight(99)),
        s("c"),
    )
    .unwrap();
    execute_increase_allowance(&mut ledger, &env, &by("owner"), s("spender"), 32, None, s("c"))
        .unwrap();
    assert_eq!(
        ledger.allowance(&s("c"), &s("owner"), &s("spender")),
        Some(record(42, Expiration::AtHeight(99)))
    );
    execute_increase_allowance(
        &mut ledger,
        &env,
        &by("owner"),
        s("spender"),
        0,
        Some(Expiration::AtTime(51)),
        s("c"),
    )
    .unwrap();
    assert_eq!(
        ledger.allowance(&s("c"), &s("owner"), &s("spender")),
        Some(record(42, Expiration::AtTime(51)))
    );
}

#[test]
fn increase_to_self_is_refused() {
    let mut ledger = Ledger::new();
    let res = execute_increase_allowance(
        &mut ledger,
        &env_at(1, 1),
        &by("owner"),
        s("owner"),
        5,
        None,
        s("c"),
    );
    assert_eq!(res, Err(ContractError::SelfAllowance));
    assert_eq!(ledger.allowance(&s("c"), &s("owner"), &s("owner")), None);
}

#[test]
fn increase_with_elapsed_expiration_is_refused() {
    let mut ledger = Ledger::new();
    let res = execute_increase_allowance(
        &mut ledger,
        &env_at(10, 100),
        &by("owner"),
        s("spender"),
        5,
        Some(Expiration::AtHeight(10)),
        s("c"),
    );
    assert_eq!(res, Err(ContractError::InvalidExpiration));
    let res = execute_increase_allowance(
        &mut ledger,
        &env_at(10, 100),
        &by("owner"),
        s("spender"),
        5,
        Some(Expiration::AtTime(100)),
        s("c"),
    );
    assert_eq!(res, Err(ContractError::InvalidExpiration));
    assert_eq!(ledger.allowance(&s("c"), &s("owner"), &s("spender")), None);
    let res = execute_increase_allowance(
        &mut ledger,
        &env_at(10, 100),
        &by("owner"),
        s("spender"),
        5,
        Some(Expiration::AtHeight(11)),
        s("c"),
    );
    assert!(res.is_ok());
}

#[test]
fn increase_past_128_bits_is_refused() {
    let mut ledger = Ledger::new();
    ledger.set_allowance(&s("c"), &s("owner"), &s("spender"), record(u128::MAX, Expiration::Never));
    let res = execute_increase_allowance(
        &mut ledger,
        &env_at(1, 1),
        &by("owner"),
        s("spender"),
        1,
        None,
        s("c"),
    );
    assert_eq!(res, Err(ContractError::Overflow));
    assert_eq!(
        ledger.allowance(&s("c"), &s("owner"), &s("spender")),
        Some(record(u128::MAX, Expiration::Never))
    );
}

#[test]
fn decrease_subtracts_below_remaining() {
    let mut ledger = Ledger::new();
    ledger.set_allowance(&s("c"), &s("owner"), &s("spender"), record(100, Expiration::AtHeight(50)));
    let res = execute_decrease_allowance(
        &mut ledger,
        &env_at(1, 1),
        &by("owner"),
        s("spender"),
        30,
        None,
        s("c"),
    )
    .unwrap();
    assert_eq!(
        res.attributes,
        vec![
            pair("action", "decrease_allowance"),
            pair("owner", "owner"),
            pair("spender", "spender"),
            pair("amount", "30"),
        ]
    );
    let expected = Some(record(70, Expiration::AtHeight(50)));
    assert_eq!(ledger.allowance(&s("c"), &s("owner"), &s("spender")), expected);
    assert_eq!(ledger.allowance_by_spender(&s("c"), &s("spender"), &s("owner")), expected);
}

#[test]
fn decrease_by_remaining_or_more_deletes_both_records() {
    for amount in [100u128, 101, u128::MAX] {
        let mut ledger = Ledger::new();
        ledger.set_allowance(&s("c"), &s("owner"), &s("spender"), record(100, Expiration::Never));
        let res = execute_decrease_allowance(
            &mut ledger,
            &env_at(1, 1),
            &by("owner"),
            s("spender"),
            amount,
            None,
            s("c"),
        );
        assert!(res.is_ok());
        assert_eq!(ledger.allowance(&s("c"), &s("owner"), &s("spender")), None);
        assert_eq!(ledger.allowance_by_spender(&s("c"), &s("spender"), &s("owner")), None);
        assert!(ledger.allowance_entries().is_empty());
    }
}

#[test]
fn decrease_without_record_is_refused() {
    let mut ledger = Ledger::new();
    let res = execute_decrease_allowance(
        &mut ledger,
        &env_at(1, 1),
        &by("owner"),
        s("spender"),
        1,
        None,
        s("c"),
    );
    assert_eq!(res, Err(ContractError::NoAllowance));
}

#[test]
fn decrease_to_self_is_refused() {
    let mut ledger = Ledger::new();
    let res = execute_decrease_allowance(
        &mut ledger,
        &env_at(1, 1),
        &by("owner"),
        s("owner"),
        1,
        None,
        s("c"),
    );
    assert_eq!(res, Err(ContractError::SelfAllowance));
}

#[test]
fn decrease_checks_supplied_expiration_only_when_subtracting() {
    let mut ledger = Ledger::new();
    ledger.set_allowance(&s("c"), &s("owner"), &s("spender"), record(100, Expiration::Never));
    let res = execute_decrease_allowance(
        &mut ledger,
        &env_at(10, 10),
        &by("owner"),
        s("spender"),
        1,
        Some(Expiration::AtHeight(3)),
        s("c"),
    );
    assert_eq!(res, Err(ContractError::InvalidExpiration));
    assert_eq!(
        ledger.allowance(&s("c"), &s("owner"), &s("spender")),
        Some(record(100, Expiration::Never))
    );
    let res = execute_decrease_allowance(
        &mut ledger,
        &env_at(10, 10),
        &by("owner"),
        s("spender"),
        1,
        Some(Expiration::AtHeight(30)),
        s("c"),
    );
    assert!(res.is_ok());
    assert_eq!(
        ledger.allowance(&s("c"), &s("owner"), &s("spender")),
        Some(record(99, Expiration::AtHeight(30)))
    );
    let res = execute_decrease_allowance(
        &mut ledger,
        &env_at(10, 10),
        &by("owner"),
        s("spender"),
        99,
        Some(Expiration::AtHeight(3)),
        s("c"),
    );
    assert!(res.is_ok());
    assert_eq!(ledger.allowance(&s("c"), &s("owner"), &s("spender")), None);
}

#[test]
fn increase_then_decrease_restores_prior_state() {
    let mut ledger = Ledger::new();
    let env = env_at(7, 70);
    let prior = record(55, Expiration::AtTime(1_000));
    ledger.set_allowance(&s("c"), &s("owner"), &s("spender"), prior);
    ledger.set_balance(&s("c"), &s("owner"), 9);
    execute_increase_allowance(&mut ledger, &env, &by("owner"), s("spender"), 45, None, s("c"))
        .unwrap();
    assert_eq!(
        ledger.allowance(&s("c"), &s("owner"), &s("spender")),
        Some(record(100, Expiration::AtTime(1_000)))
    );
    execute_decrease_allowance(&mut ledger, &env, &by("owner"), s("spender"), 45, None, s("c"))
        .unwrap();
    assert_eq!(ledger.allowance(&s("c"), &s("owner"), &s("spender")), Some(prior));
    assert_eq!(ledger.allowance_by_spender(&s("c"), &s("spender"), &s("owner")), Some(prior));
    assert_eq!(ledger.allowance_entries().len(), 1);
    assert_eq!(ledger.balance(&s("c"), &s("owner")), 9);
}

#[test]
fn increase_then_decrease_from_nothing_leaves_nothing() {
    let mut ledger = Ledger::new();
    let env = env_at(7, 70);
    execute_increase_allowance(&mut ledger, &env, &by("owner"), s("spender"), 45, None, s("c"))
        .unwrap();
    execute_decrease_allowance(&mut ledger, &env, &by("owner"), s("spender"), 45, None, s("c"))
        .unwrap();
    assert_eq!(ledger.allowance(&s("c"), &s("owner"), &s("spender")), None);
    assert!(ledger.allowance_entries().is_empty());
}

#[test]
fn increase_then_decrease_deletes_a_record_that_stood_at_zero() {
    let mut ledger = Ledger::new();
    let env = env_at(7, 70);
    ledger.set_allowance(&s("c"), &s("owner"), &s("spender"), record(0, Expiration::AtHeight(90)));
    execute_increase_allowance(&mut ledger, &env, &by("owner"), s("spender"), 45, None, s("c"))
        .unwrap();
    execute_decrease_allowance(&mut ledger, &env, &by("owner"), s("spender"), 45, None, s("c"))
        .unwrap();
    assert_eq!(ledger.allowance(&s("c"), &s("owner"), &s("spender")), None);
    assert_eq!(ledger.allowance_by_spender(&s("c"), &s("spender"), &s("owner")), None);
}

#[test]
fn deduct_writes_remaining_to_both_indexes() {
    let mut ledger = Ledger::new();
    ledger.set_allowance(&s("c"), &s("owner"), &s("spender"), record(10, Expiration::AtHeight(20)));
    let block = BlockInfo { height: 19, time: 0 };
    let left = deduct_allowance(&mut ledger, &s("owner"), &s("spender"), &block, 4, s("c"));
    assert_eq!(left, Ok(record(6, Expiration::AtHeight(20))));
    assert_eq!(
        ledger.allowance(&s("c"), &s("owner"), &s("spender")),
        Some(record(6, Expiration::AtHeight(20)))
    );
    assert_eq!(
        ledger.allowance_by_spender(&s("c"), &s("spender"), &s("owner")),
        Some(record(6, Expiration::AtHeight(20)))
    );
}

#[test]
fn deduct_to_zero_keeps_the_record() {
    let mut ledger = Ledger::new();
    ledger.set_allowance(&s("c"), &s("owner"), &s("spender"), record(10, Expiration::Never));
    let block = BlockInfo { height: 1, time: 1 };
    let left = deduct_allowance(&mut ledger, &s("owner"), &s("spender"), &block, 10, s("c"));
    assert_eq!(left, Ok(record(0, Expiration::Never)));
    assert_eq!(
        ledger.allowance(&s("c"), &s("owner"), &s("spender")),
        Some(record(0, Expiration::Never))
    );
    assert_eq!(
        ledger.allowance_by_spender(&s("c"), &s("spender"), &s("owner")),
        Some(record(0, Expiration::Never))
    );
}

#[test]
fn deduct_without_record_is_refused() {
    let mut ledger = Ledger::new();
    let block = BlockInfo { height: 1, time: 1 };
    let left = deduct_allowance(&mut ledger, &s("owner"), &s("spender"), &block, 0, s("c"));
    assert_eq!(left, Err(ContractError::NoAllowance));
}

#[test]
fn deduct_more_than_remaining_is_refused() {
    let mut ledger = Ledger::new();
    ledger.set_allowance(&s("c"), &s("owner"), &s("spender"), record(10, Expiration::Never));
    let block = BlockInfo { height: 1, time: 1 };
    let left = deduct_allowance(&mut ledger, &s("owner"), &s("spender"), &block, 11, s("c"));
    assert_eq!(left, Err(ContractError::Overflow));
    assert_eq!(
        ledger.allowance(&s("c"), &s("owner"), &s("spender")),
        Some(record(10, Expiration::Never))
    );
}

#[test]
fn deduct_from_lapsed_allowance_always_reports_expired() {
    for amount in [0u128, 1, 10, 11, u128::MAX] {
        let mut ledger = Ledger::new();
        ledger.set_allowance(&s("c"), &s("owner"), &s("spender"), record(10, Expiration::AtHeight(5)));
        let block = BlockInfo { height: 5, time: 0 };
        let left = deduct_allowance(&mut ledger, &s("owner"), &s("spender"), &block, amount, s("c"));
        assert_eq!(left, Err(ContractError::Expired));
        assert_eq!(
            ledger.allowance(&s("c"), &s("owner"), &s("spender")),
            Some(record(10, Expiration::AtHeight(5)))
        );
    }
    let mut ledger = Ledger::new();
    ledger.set_allowance(&s("c"), &s("owner"), &s("spender"), record(10, Expiration::AtTime(77)));
    let block = BlockInfo { height: 0, time: 78 };
    let left = deduct_allowance(&mut ledger, &s("owner"), &s("spender"), &block, 0, s("c"));
    assert_eq!(left, Err(ContractError::Expired));
}

#[test]
fn transfer_from_scenario_on_channel_7() {
    let mut ledger = Ledger::new();
    let env = env_at(100, 1_000);
    ledger.set_balance(&s("channel-7"), &s("owner"), 5_000);
    ledger.set_balance(&s("channel-7"), &s("recipient"), 50);
    execute_increase_allowance(
        &mut ledger,
        &env,
        &by("owner"),
        s("spender"),
        1000,
        None,
        s("channel-7"),
    )
    .unwrap();
    let res = execute_transfer_from(
        &mut ledger,
        &env,
        &by("spender"),
        s("owner"),
        s("recipient"),
        400,
        s("channel-7"),
    )
    .unwrap();
    assert_eq!(
        res.attributes,
        vec![
            pair("action", "transfer_from"),
            pair("from", "owner"),
            pair("to", "recipient"),
            pair("by", "spender"),
            pair("amount", "400"),
        ]
    );
    assert_eq!(
        ledger.allowance(&s("channel-7"), &s("owner"), &s("spender")),
        Some(record(600, Expiration::Never))
    );
    assert_eq!(
        ledger.allowance_by_spender(&s("channel-7"), &s("spender"), &s("owner")),
        Some(record(600, Expiration::Never))
    );
    assert_eq!(ledger.balance(&s("channel-7"), &s("owner")), 4_600);
    assert_eq!(ledger.balance(&s("channel-7"), &s("recipient")), 450);
}

#[test]
fn transfer_from_after_expiration_height_fails_with_expired() {
    let height = 1_234u64;
    let mut ledger = Ledger::new();
    ledger.set_balance(&s("c"), &s("owner"), 500);
    execute_increase_allowance(
        &mut ledger,
        &env_at(height - 1, 0),
        &by("owner"),
        s("spender"),
        100,
        Some(Expiration::AtHeight(height)),
        s("c"),
    )
    .unwrap();
    let res = execute_transfer_from(
        &mut ledger,
        &env_at(height + 1, 0),
        &by("spender"),
        s("owner"),
        s("recipient"),
        1,
        s("c"),
    );
    assert_eq!(res, Err(ContractError::Expired));
    assert_eq!(ledger.balance(&s("c"), &s("owner")), 500);
    assert_eq!(ledger.balance(&s("c"), &s("recipient")), 0);
    assert_eq!(
        ledger.allowance(&s("c"), &s("owner"), &s("spender")),
        Some(record(100, Expiration::AtHeight(height)))
    );
}

#[test]
fn transfer_from_with_short_balance_changes_nothing() {
    let mut ledger = Ledger::new();
    ledger.set_balance(&s("c"), &s("owner"), 3);
    ledger.set_token_info(&s("c"), token(3));
    ledger.set_allowance(&s("c"), &s("owner"), &s("spender"), record(10, Expiration::Never));
    let res = execute_transfer_from(
        &mut ledger,
        &env_at(1, 1),
        &by("spender"),
        s("owner"),
        s("recipient"),
        4,
        s("c"),
    );
    assert_eq!(res, Err(ContractError::Overflow));
    assert_eq!(ledger.balance(&s("c"), &s("owner")), 3);
    assert_eq!(ledger.balance(&s("c"), &s("recipient")), 0);
    assert_eq!(ledger.balance_entries().len(), 1);
    assert_eq!(ledger.token_info(&s("c")), Some(&token(3)));
    assert_eq!(
        ledger.allowance(&s("c"), &s("owner"), &s("spender")),
        Some(record(10, Expiration::Never))
    );
    assert_eq!(
        ledger.allowance_by_spender(&s("c"), &s("spender"), &s("owner")),
        Some(record(10, Expiration::Never))
    );
}

#[test]
fn transfer_from_without_allowance_changes_nothing() {
    let mut ledger = Ledger::new();
    ledger.set_balance(&s("c"), &s("owner"), 30);
    let res = execute_transfer_from(
        &mut ledger,
        &env_at(1, 1),
        &by("spender"),
        s("owner"),
        s("recipient"),
        4,
        s("c"),
    );
    assert_eq!(res, Err(ContractError::NoAllowance));
    assert_eq!(ledger.balance(&s("c"), &s("owner")), 30);
    assert_eq!(ledger.balance(&s("c"), &s("recipient")), 0);
}

#[test]
fn transfer_from_with_full_recipient_changes_nothing() {
    let mut ledger = Ledger::new();
    ledger.set_balance(&s("c"), &s("owner"), 30);
    ledger.set_balance(&s("c"), &s("recipient"), u128::MAX - 3);
    ledger.set_allowance(&s("c"), &s("owner"), &s("spender"), record(10, Expiration::Never));
    let res = execute_transfer_from(
        &mut ledger,
        &env_at(1, 1),
        &by("spender"),
        s("owner"),
        s("recipient"),
        4,
        s("c"),
    );
    assert_eq!(res, Err(ContractError::Overflow));
    assert_eq!(ledger.balance(&s("c"), &s("owner")), 30);
    assert_eq!(ledger.balance(&s("c"), &s("recipient")), u128::MAX - 3);
    assert_eq!(
        ledger.allowance(&s("c"), &s("owner"), &s("spender")),
        Some(record(10, Expiration::Never))
    );
}

#[test]
fn transfer_from_owner_to_itself_keeps_the_balance() {
    let mut ledger = Ledger::new();
    ledger.set_balance(&s("c"), &s("owner"), u128::MAX);
    ledger.set_allowance(&s("c"), &s("owner"), &s("spender"), record(10, Expiration::Never));
    let res = execute_transfer_from(
        &mut ledger,
        &env_at(1, 1),
        &by("spender"),
        s("owner"),
        s("owner"),
        4,
        s("c"),
    );
    assert!(res.is_ok());
    assert_eq!(ledger.balance(&s("c"), &s("owner")), u128::MAX);
    assert_eq!(
        ledger.allowance(&s("c"), &s("owner"), &s("spender")),
        Some(record(6, Expiration::Never))
    );
}

#[test]
fn allowances_of_one_channel_do_not_reach_another() {
    let mut ledger = Ledger::new();
    ledger.set_balance(&s("channel-1"), &s("owner"), 30);
    ledger.set_balance(&s("channel-2"), &s("owner"), 30);
    ledger.set_allowance(&s("channel-1"), &s("owner"), &s("spender"), record(10, Expiration::Never));
    let res = execute_transfer_from(
        &mut ledger,
        &env_at(1, 1),
        &by("spender"),
        s("owner"),
        s("recipient"),
        4,
        s("channel-2"),
    );
    assert_eq!(res, Err(ContractError::NoAllowance));
    let res = execute_transfer_from(
        &mut ledger,
        &env_at(1, 1),
        &by("spender"),
        s("owner"),
        s("recipient"),
        4,
        s("channel-1"),
    );
    assert!(res.is_ok());
    assert_eq!(ledger.balance(&s("channel-1"), &s("owner")), 26);
    assert_eq!(ledger.balance(&s("channel-2"), &s("owner")), 30);
    assert_eq!(ledger.balance(&s("channel-1"), &s("recipient")), 4);
    assert_eq!(ledger.balance(&s("channel-2"), &s("recipient")), 0);
}

#[test]
fn burn_from_lowers_balance_supply_and_allowance() {
    let mut ledger = Ledger::new();
    ledger.set_balance(&s("c"), &s("owner"), 30);
    ledger.set_token_info(&s("c"), token(100));
    ledger.set_allowance(&s("c"), &s("owner"), &s("spender"), record(10, Expiration::Never));
    let res =
        execute_burn_from(&mut ledger, &env_at(1, 1), &by("spender"), s("owner"), 7, s("c")).unwrap();
    assert_eq!(
        res.attributes,
        vec![
            pair("action", "burn_from"),
            pair("from", "owner"),
            pair("by", "spender"),
            pair("amount", "7"),
        ]
    );
    assert_eq!(ledger.balance(&s("c"), &s("owner")), 23);
    assert_eq!(ledger.token_info(&s("c")), Some(&token(93)));
    assert_eq!(
        ledger.allowance(&s("c"), &s("owner"), &s("spender")),
        Some(record(3, Expiration::Never))
    );
}

#[test]
fn burn_from_more_than_the_supply_changes_nothing() {
    let mut ledger = Ledger::new();
    ledger.set_balance(&s("c"), &s("owner"), 30);
    ledger.set_token_info(&s("c"), token(5));
    ledger.set_allowance(&s("c"), &s("owner"), &s("spender"), record(10, Expiration::Never));
    let res = execute_burn_from(&mut ledger, &env_at(1, 1), &by("spender"), s("owner"), 7, s("c"));
    assert_eq!(res, Err(ContractError::Overflow));
    assert_eq!(ledger.balance(&s("c"), &s("owner")), 30);
    assert_eq!(ledger.token_info(&s("c")), Some(&token(5)));
    assert_eq!(
        ledger.allowance(&s("c"), &s("owner"), &s("spender")),
        Some(record(10, Expiration::Never))
    );
}

#[test]
fn burn_from_without_token_record_changes_nothing() {
    let mut ledger = Ledger::new();
    ledger.set_balance(&s("c"), &s("owner"), 30);
    ledger.set_allowance(&s("c"), &s("owner"), &s("spender"), record(10, Expiration::Never));
    let res = execute_burn_from(&mut ledger, &env_at(1, 1), &by("spender"), s("owner"), 7, s("c"));
    assert_eq!(res, Err(ContractError::TokenInfoNotFound));
    assert_eq!(ledger.balance(&s("c"), &s("owner")), 30);
    assert_eq!(
        ledger.allowance(&s("c"), &s("owner"), &s("spender")),
        Some(record(10, Expiration::Never))
    );
}

#[test]
fn burn_from_with_lapsed_allowance_changes_nothing() {
    let mut ledger = Ledger::new();
    ledger.set_balance(&s("c"), &s("owner"), 30);
    ledger.set_token_info(&s("c"), token(30));
    ledger.set_allowance(&s("c"), &s("owner"), &s("spender"), record(10, Expiration::AtTime(5)));
    let res = execute_burn_from(&mut ledger, &env_at(1, 5), &by("spender"), s("owner"), 7, s("c"));
    assert_eq!(res, Err(ContractError::Expired));
    assert_eq!(ledger.balance(&s("c"), &s("owner")), 30);
    assert_eq!(ledger.token_info(&s("c")), Some(&token(30)));
}

#[test]
fn send_from_moves_tokens_and_notifies_the_contract() {
    let mut ledger = Ledger::new();
    ledger.set_balance(&s("c"), &s("owner"), 30);
    ledger.set_allowance(&s("c"), &s("owner"), &s("spender"), record(25, Expiration::Never));
    let res = execute_send_from(
        &mut ledger,
        &env_at(1, 1),
        &by("spender"),
        s("owner"),
        s("contract"),
        25,
        b"hi".to_vec(),
        s("c"),
    )
    .unwrap();
    assert_eq!(
        res.attributes,
        vec![
            pair("action", "send_from"),
            pair("from", "owner"),
            pair("to", "contract"),
            pair("by", "spender"),
            pair("amount", "25"),
        ]
    );
    assert_eq!(
        res.messages,
        vec![WasmExecute {
            contract_addr: s("contract"),
            msg: br#"{"receive":{"sender":"spender","amount":"25","msg":"aGk="}}"#.to_vec(),
        }]
    );
    assert_eq!(ledger.balance(&s("c"), &s("owner")), 5);
    assert_eq!(ledger.balance(&s("c"), &s("contract")), 25);
    assert_eq!(
        ledger.allowance(&s("c"), &s("owner"), &s("spender")),
        Some(record(0, Expiration::Never))
    );
}

#[test]
fn send_from_without_allowance_changes_nothing() {
    let mut ledger = Ledger::new();
    ledger.set_balance(&s("c"), &s("owner"), 30);
    let res = execute_send_from(
        &mut ledger,
        &env_at(1, 1),
        &by("spender"),
        s("owner"),
        s("contract"),
        25,
        Vec::new(),
        s("c"),
    );
    assert_eq!(res, Err(ContractError::NoAllowance));
    assert_eq!(ledger.balance(&s("c"), &s("owner")), 30);
    assert_eq!(ledger.balance(&s("c"), &s("contract")), 0);
}

#[test]
fn send_from_with_unencodable_notification_changes_nothing() {
    let mut ledger = Ledger::new();
    ledger.set_balance(&s("c"), &s("owner"), 30);
    ledger.set_allowance(&s("c"), &s("owner"), &s("spender"), record(25, Expiration::Never));
    let res = send_from_encoded(
        &mut ledger,
        &env_at(1, 1),
        &by("spender"),
        s("owner"),
        s("contract"),
        25,
        None,
        s("c"),
    );
    assert_eq!(res, Err(ContractError::EncodeFailure));
    assert_eq!(ledger.balance(&s("c"), &s("owner")), 30);
    assert_eq!(ledger.balance(&s("c"), &s("contract")), 0);
    assert_eq!(
        ledger.allowance(&s("c"), &s("owner"), &s("spender")),
        Some(record(25, Expiration::Never))
    );
}

#[test]
fn send_from_encoded_carries_the_given_bytes() {
    let mut ledger = Ledger::new();
    ledger.set_balance(&s("c"), &s("owner"), 30);
    ledger.set_allowance(&s("c"), &s("owner"), &s("spender"), record(25, Expiration::Never));
    let res = send_from_encoded(
        &mut ledger,
        &env_at(1, 1),
        &by("spender"),
        s("owner"),
        s("contract"),
        5,
        Some(vec![1, 2, 3]),
        s("c"),
    )
    .unwrap();
    assert_eq!(res.messages, vec![WasmExecute { contract_addr: s("contract"), msg: vec![1, 2, 3] }]);
    assert_eq!(ledger.balance(&s("c"), &s("contract")), 5);
}

#[test]
fn send_from_reports_the_allowance_before_the_encoding() {
    let mut ledger = Ledger::new();
    ledger.set_balance(&s("c"), &s("owner"), 30);
    let res = send_from_encoded(
        &mut ledger,
        &env_at(1, 1),
        &by("spender"),
        s("owner"),
        s("contract"),
        25,
        None,
        s("c"),
    );
    assert_eq!(res, Err(ContractError::NoAllowance));
}

#[test]
fn query_allowance_defaults_to_nothing() {
    let mut ledger = Ledger::new();
    assert_eq!(
        query_allowance(&ledger, s("owner"), s("spender"), s("c")),
        Ok(record(0, Expiration::Never))
    );
    ledger.set_allowance(&s("c"), &s("owner"), &s("spender"), record(8, Expiration::AtHeight(3)));
    assert_eq!(
        query_allowance(&ledger, s("owner"), s("spender"), s("c")),
        Ok(record(8, Expiration::AtHeight(3)))
    );
    assert_eq!(
        query_allowance(&ledger, s("spender"), s("owner"), s("c")),
        Ok(record(0, Expiration::Never))
    );
    assert_eq!(
        query_allowance(&ledger, s("owner"), s("spender"), s("d")),
        Ok(record(0, Expiration::Never))
    );
}

#[test]
fn mirror_agrees_after_every_allowance_operation() {
    let mut ledger = Ledger::new();
    let env = env_at(10, 10);
    let agree = |ledger: &Ledger| {
        for owner in ["a", "b", "c"] {
            for spender in ["a", "b", "c"] {
                assert_eq!(
                    ledger.allowance(&s("ch"), &s(owner), &s(spender)),
                    ledger.allowance_by_spender(&s("ch"), &s(spender), &s(owner))
                );
            }
        }
    };
    agree(&ledger);
    execute_increase_allowance(&mut ledger, &env, &by("a"), s("b"), 10, None, s("ch")).unwrap();
    agree(&ledger);
    execute_increase_allowance(&mut ledger, &env, &by("b"), s("a"), 20, None, s("ch")).unwrap();
    agree(&ledger);
    assert_eq!(ledger.allowance(&s("ch"), &s("a"), &s("b")), Some(record(10, Expiration::Never)));
    assert_eq!(ledger.allowance(&s("ch"), &s("b"), &s("a")), Some(record(20, Expiration::Never)));
    execute_decrease_allowance(&mut ledger, &env, &by("a"), s("b"), 3, None, s("ch")).unwrap();
    agree(&ledger);
    deduct_allowance(&mut ledger, &s("b"), &s("a"), &env.block, 20, s("ch")).unwrap();
    agree(&ledger);
    execute_decrease_allowance(&mut ledger, &env, &by("a"), s("b"), 7, None, s("ch")).unwrap();
    agree(&ledger);
    assert_eq!(ledger.allowance(&s("ch"), &s("a"), &s("b")), None);
    assert_eq!(ledger.allowance(&s("ch"), &s("b"), &s("a")), Some(record(0, Expiration::Never)));
}
