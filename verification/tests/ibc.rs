use channel_ledger::error::ContractError;
use channel_ledger::expiration::{BlockInfo, Expiration};
use channel_ledger::ibc::{
    do_ibc_packet_receive, ibc_channel_close, ibc_channel_connect, ibc_channel_open,
    ibc_packet_ack, ibc_packet_receive, ibc_packet_timeout, validate_order_and_version, IbcChannel,
    IbcEndpoint, IbcOrder, IBC_VERSION,
};
use channel_ledger::msg::{Env, IbcExecuteMsg, MessageInfo};
use channel_ledger::response::{
    make_ack_fail, make_ack_success, Ack, Attribute, IbcBasicResponse, IbcReceiveResponse,
    WasmExecute,
};
use channel_ledger::state::{AllowanceResponse, Ledger, MinterData, TokenInfo};

fn t(text: &str) -> String {
    text.to_string()
}

fn env_at(height: u64) -> Env {
    Env { block: BlockInfo { height, time: 1_000 } }
}

fn from(sender: &str) -> MessageInfo {
    MessageInfo { sender: t(sender) }
}

fn kv(key: &str, value: &str) -> Attribute {
    Attribute { key: t(key), value: t(value) }
}

fn channel(id: &str, order: IbcOrder, version: &str) -> IbcChannel {
    IbcChannel {
        endpoint: IbcEndpoint { port_id: t("wasm.ledger"), channel_id: t(id) },
        counterparty_endpoint: IbcEndpoint { port_id: t("wasm.peer"), channel_id: t("channel-9") },
        order,
        version: t(version),
        connection_id: t("connection-0"),
    }
}

fn minted(supply: u128) -> TokenInfo {
    TokenInfo {
        name: t("Token"),
        symbol: t("TKN"),
        decimals: 6,
        total_supply: supply,
        mint: Some(MinterData { minter: t("minter"), cap: None }),
    }
}

fn receipt(attributes: Vec<Attribute>) -> IbcReceiveResponse {
    IbcReceiveResponse {
        acknowledgement: Some(Ack::Result(vec![b'1'])),
        attributes,
        messages: vec![],
    }
}

fn refusal(text: &str) -> IbcReceiveResponse {
    IbcReceiveResponse {
        acknowledgement: Some(Ack::Error(t(text))),
        attributes: vec![kv("method", "ibc_packet_receive"), kv("error", text)],
        messages: vec![],
    }
}

#[test]
fn version_constant() {
    assert_eq!(IBC_VERSION, "counter-1");
}

#[test]
fn unordered_channel_with_right_versions_is_accepted() {
    let proposed = channel("channel-0", IbcOrder::Unordered, "counter-1");
    assert_eq!(validate_order_and_version(&proposed, None), Ok(()));
    assert_eq!(validate_order_and_version(&proposed, Some("counter-1")), Ok(()));
    assert_eq!(ibc_channel_open(&proposed, Some("counter-1")), Ok(()));
}

#[test]
fn ordered_channel_is_rejected_before_any_state_exists() {
    let proposed = channel("channel-0", IbcOrder::Ordered, "counter-1");
    assert_eq!(ibc_channel_open(&proposed, None), Err(ContractError::OrderedChannelRejected));
    assert_eq!(
        validate_order_and_version(&proposed, Some("counter-1")),
        Err(ContractError::OrderedChannelRejected)
    );
    let mut ledger = Ledger::new();
    assert_eq!(
        ibc_channel_connect(&mut ledger, &proposed, Some("counter-1")),
        Err(ContractError::OrderedChannelRejected)
    );
    assert_eq!(ledger.connection_count(&t("channel-0")), None);
    assert!(ledger.count_entries().is_empty());
    assert!(ledger.balance_entries().is_empty());
    assert!(ledger.allowance_entries().is_empty());
    assert!(ledger.token_entries().is_empty());
}

#[test]
fn order_is_checked_before_the_versions() {
    let proposed = channel("channel-0", IbcOrder::Ordered, "counter-2");
    assert_eq!(
        validate_order_and_version(&proposed, Some("counter-3")),
        Err(ContractError::OrderedChannelRejected)
    );
}

#[test]
fn wrong_channel_version_is_rejected() {
    let proposed = channel("channel-0", IbcOrder::Unordered, "counter-2");
    let expected = Err(ContractError::InvalidChannelVersion {
        actual: t("counter-2"),
        expected: t("counter-1"),
    });
    assert_eq!(validate_order_and_version(&proposed, None), expected);
    assert_eq!(validate_order_and_version(&proposed, Some("counter-3")), expected);
    assert_eq!(ibc_channel_open(&proposed, Some("counter-1")), expected);
}

#[test]
fn wrong_counterparty_version_is_rejected() {
    let proposed = channel("channel-0", IbcOrder::Unordered, "counter-1");
    assert_eq!(
        validate_order_and_version(&proposed, Some("Counter-1")),
        Err(ContractError::InvalidChannelVersion {
            actual: t("Counter-1"),
            expected: t("counter-1"),
        })
    );
    assert_eq!(
        validate_order_and_version(&proposed, Some("")),
        Err(ContractError::InvalidChannelVersion { actual: t(""), expected: t("counter-1") })
    );
    let mut ledger = Ledger::new();
    assert!(ibc_channel_connect(&mut ledger, &proposed, Some("counter-10")).is_err());
    assert_eq!(ledger.connection_count(&t("channel-0")), None);
}

#[test]
fn connect_sets_the_counter_to_zero_and_close_removes_it() {
    let proposed = channel("channel-3", IbcOrder::Unordered, "counter-1");
    let mut ledger = Ledger::new();
    ledger.set_connection_count(&t("channel-3"), 8);
    ledger.set_balance(&t("channel-3"), &t("alice"), 5);
    ledger.set_allowance(
        &t("channel-3"),
        &t("alice"),
        &t("bob"),
        AllowanceResponse { allowance: 2, expires: Expiration::Never },
    );
    let res = ibc_channel_connect(&mut ledger, &proposed, Some("counter-1"));
    assert_eq!(
        res,
        Ok(IbcBasicResponse {
            attributes: vec![kv("method", "ibc_channel_connect"), kv("channel_id", "channel-3")],
        })
    );
    assert_eq!(ledger.connection_count(&t("channel-3")), Some(0));
    let res = ibc_channel_close(&mut ledger, &proposed);
    assert_eq!(
        res,
        Ok(IbcBasicResponse {
            attributes: vec![kv("method", "ibc_channel_close"), kv("channel", "channel-3")],
        })
    );
    assert_eq!(ledger.connection_count(&t("channel-3")), None);
    assert_eq!(ledger.balance(&t("channel-3"), &t("alice")), 5);
    assert_eq!(
        ledger.allowance(&t("channel-3"), &t("alice"), &t("bob")),
        Some(AllowanceResponse { allowance: 2, expires: Expiration::Never })
    );
}

#[test]
fn ack_and_timeout_do_nothing() {
    assert_eq!(
        ibc_packet_ack(),
        Ok(IbcBasicResponse { attributes: vec![kv("method", "ibc_packet_ack")] })
    );
    assert_eq!(
        ibc_packet_timeout(),
        Ok(IbcBasicResponse { attributes: vec![kv("method", "ibc_packet_timeout")] })
    );
}

#[test]
fn acknowledgements_are_told_apart() {
    assert_eq!(make_ack_success(), Ack::Result(vec![b'1']));
    assert_eq!(make_ack_fail(t("why")), Ack::Error(t("why")));
    assert_ne!(make_ack_success(), make_ack_fail(t("1")));
}

#[test]
fn undecodable_payload_is_acknowledged_as_failure_and_channel_stays_usable() {
    let proposed = channel("channel-0", IbcOrder::Unordered, "counter-1");
    let mut ledger = Ledger::new();
    ibc_channel_connect(&mut ledger, &proposed, Some("counter-1")).unwrap();
    let res = ibc_packet_receive(
        &mut ledger,
        &env_at(1),
        t("channel-0"),
        Err(t("Error parsing into type IbcExecuteMsg: Invalid type")),
        &from("alice"),
    )
    .unwrap();
    assert_eq!(res, refusal("Error parsing into type IbcExecuteMsg: Invalid type"));
    assert_eq!(ledger.connection_count(&t("channel-0")), Some(0));
    let res = ibc_packet_receive(
        &mut ledger,
        &env_at(1),
        t("channel-0"),
        Ok(IbcExecuteMsg::Increment),
        &from("alice"),
    )
    .unwrap();
    assert_eq!(res, receipt(vec![kv("method", "execute_increment"), kv("count", "1")]));
    assert_eq!(ledger.connection_count(&t("channel-0")), Some(1));
}

#[test]
fn undecodable_payload_fails_the_inner_call() {
    let mut ledger = Ledger::new();
    let res = do_ibc_packet_receive(
        &mut ledger,
        &from("alice"),
        &env_at(1),
        t("channel-0"),
        Err(t("unknown variant")),
    );
    assert_eq!(res, Err(ContractError::PayloadDecodeFailure { reason: t("unknown variant") }));
}

#[test]
fn failing_operation_is_acknowledged_as_failure_and_changes_nothing() {
    let mut ledger = Ledger::new();
    ledger.set_balance(&t("channel-0"), &t("owner"), 10);
    let msg = IbcExecuteMsg::TransferFrom { owner: t("owner"), recipient: t("rcpt"), amount: 1 };
    let inner =
        do_ibc_packet_receive(&mut ledger, &from("spender"), &env_at(1), t("channel-0"), Ok(msg.clone()));
    assert_eq!(inner, Err(ContractError::NoAllowance));
    let res =
        ibc_packet_receive(&mut ledger, &env_at(1), t("channel-0"), Ok(msg), &from("spender")).unwrap();
    assert_eq!(res, refusal("No allowance for this account"));
    assert_eq!(ledger.balance(&t("channel-0"), &t("owner")), 10);
    assert_eq!(ledger.balance(&t("channel-0"), &t("rcpt")), 0);
}

#[test]
fn packets_are_routed_to_their_operations() {
    let mut ledger = Ledger::new();
    let c = "channel-0";
    ledger.set_token_info(&t(c), minted(0));
    let env = env_at(10);

    let res = ibc_packet_receive(
        &mut ledger,
        &env,
        t(c),
        Ok(IbcExecuteMsg::Mint { recipient: t("alice"), amount: 100 }),
        &from("minter"),
    )
    .unwrap();
    assert_eq!(
        res,
        receipt(vec![
            kv("method", "mint"),
            kv("recipient", "alice"),
            kv("amount", "100"),
            kv("channel", c),
        ])
    );
    assert_eq!(ledger.balance(&t(c), &t("alice")), 100);

    let res = ibc_packet_receive(
        &mut ledger,
        &env,
        t(c),
        Ok(IbcExecuteMsg::Transfer { recipient: t("bob"), amount: 30 }),
        &from("alice"),
    )
    .unwrap();
    assert_eq!(
        res,
        receipt(vec![
            kv("method", "execute_transfer"),
            kv("receipient", "bob"),
            kv("amount", "30"),
            kv("channel", c),
        ])
    );
    assert_eq!(ledger.balance(&t(c), &t("alice")), 70);
    assert_eq!(ledger.balance(&t(c), &t("bob")), 30);

    let res = ibc_packet_receive(
        &mut ledger,
        &env,
        t(c),
        Ok(IbcExecuteMsg::Burn { amount: 5 }),
        &from("bob"),
    )
    .unwrap();
    assert_eq!(
        res,
        receipt(vec![kv("method", "execute_burn"), kv("amount", "5"), kv("channel", c)])
    );
    assert_eq!(ledger.balance(&t(c), &t("bob")), 25);
    assert_eq!(ledger.token_info(&t(c)), Some(&minted(95)));

    let res = ibc_packet_receive(
        &mut ledger,
        &env,
        t(c),
        Ok(IbcExecuteMsg::IncreaseAllowance {
            spender: t("bob"),
            amount: 50,
            expires: Some(Expiration::AtHeight(20)),
        }),
        &from("alice"),
    )
    .unwrap();
    assert_eq!(
        res,
        receipt(vec![
            kv("method", "increase_allowance"),
            kv("spender", "bob"),
            kv("amount", "50"),
            kv("channel", c),
        ])
    );
    assert_eq!(
        ledger.allowance(&t(c), &t("alice"), &t("bob")),
        Some(AllowanceResponse { allowance: 50, expires: Expiration::AtHeight(20) })
    );

    let res = ibc_packet_receive(
        &mut ledger,
        &env,
        t(c),
        Ok(IbcExecuteMsg::DecreaseAllowance { spender: t("bob"), amount: 10, expires: None }),
        &from("alice"),
    )
    .unwrap();
    assert_eq!(
        res,
        receipt(vec![
            kv("method", "decrease_allowance"),
            kv("spender", "bob"),
            kv("amount", "10"),
            kv("channel", c),
        ])
    );
    assert_eq!(
        ledger.allowance(&t(c), &t("alice"), &t("bob")),
        Some(AllowanceResponse { allowance: 40, expires: Expiration::AtHeight(20) })
    );

    let res = ibc_packet_receive(
        &mut ledger,
        &env,
        t(c),
        Ok(IbcExecuteMsg::TransferFrom { owner: t("alice"), recipient: t("carol"), amount: 15 }),
        &from("bob"),
    )
    .unwrap();
    assert_eq!(
        res,
        receipt(vec![
            kv("method", "transfer_from"),
            kv("owner", "alice"),
            kv("recepient", "carol"),
            kv("amount", "15"),
            kv("channel", c),
        ])
    );
    assert_eq!(ledger.balance(&t(c), &t("alice")), 55);
    assert_eq!(ledger.balance(&t(c), &t("carol")), 15);

    let res = ibc_packet_receive(
        &mut ledger,
        &env,
        t(c),
        Ok(IbcExecuteMsg::BurnFrom { owner: t("alice"), amount: 5 }),
        &from("bob"),
    )
    .unwrap();
    assert_eq!(
        res,
        receipt(vec![kv("action", "burn_from"), kv("from", "alice"), kv("amount", "5")])
    );
    assert_eq!(ledger.balance(&t(c), &t("alice")), 50);
    assert_eq!(ledger.token_info(&t(c)), Some(&minted(90)));

    let res = ibc_packet_receive(
        &mut ledger,
        &env,
        t(c),
        Ok(IbcExecuteMsg::Send { contract: t("vault"), amount: 1, msg: b"x".to_vec() }),
        &from("carol"),
    )
    .unwrap();
    assert_eq!(
        res,
        IbcReceiveResponse {
            acknowledgement: Some(Ack::Result(vec![b'1'])),
            attributes: vec![
                kv("method", "send"),
                kv("contract", "vault"),
                kv("amount", "1"),
                kv("channel", c),
            ],
            messages: vec![WasmExecute {
                contract_addr: t("vault"),
                msg: br#"{"receive":{"sender":"carol","amount":"1","msg":"eA=="}}"#.to_vec(),
            }],
        }
    );
    assert_eq!(ledger.balance(&t(c), &t("vault")), 1);

    let res = ibc_packet_receive(
        &mut ledger,
        &env,
        t(c),
        Ok(IbcExecuteMsg::SendFrom {
            owner: t("alice"),
            contract: t("vault"),
            amount: 20,
            msg: vec![],
        }),
        &from("bob"),
    )
    .unwrap();
    assert_eq!(
        res,
        IbcReceiveResponse {
            acknowledgement: Some(Ack::Result(vec![b'1'])),
            attributes: vec![
                kv("method", "send_from"),
                kv("owner", "alice"),
                kv("contract", "vault"),
                kv("amount", "20"),
            ],
            messages: vec![WasmExecute {
                contract_addr: t("vault"),
                msg: br#"{"receive":{"sender":"bob","amount":"20","msg":""}}"#.to_vec(),
            }],
        }
    );
    assert_eq!(ledger.balance(&t(c), &t("alice")), 30);
    assert_eq!(ledger.balance(&t(c), &t("vault")), 21);
    assert_eq!(
        ledger.allowance(&t(c), &t("alice"), &t("bob")),
        Some(AllowanceResponse { allowance: 0, expires: Expiration::AtHeight(20) })
    );
    assert_eq!(
        ledger.allowance_by_spender(&t(c), &t("bob"), &t("alice")),
        Some(AllowanceResponse { allowance: 0, expires: Expiration::AtHeight(20) })
    );
}

#[test]
fn decrease_packet_lowers_the_allowance() {
    let mut ledger = Ledger::new();
    ledger.set_allowance(
        &t("channel-0"),
        &t("alice"),
        &t("bob"),
        AllowanceResponse { allowance: 10, expires: Expiration::Never },
    );
    ibc_packet_receive(
        &mut ledger,
        &env_at(1),
        t("channel-0"),
        Ok(IbcExecuteMsg::DecreaseAllowance { spender: t("bob"), amount: 10, expires: None }),
        &from("alice"),
    )
    .unwrap();
    assert_eq!(ledger.allowance(&t("channel-0"), &t("alice"), &t("bob")), None);
}

#[test]
fn every_refusal_becomes_a_failure_acknowledgement() {
    let c = "channel-0";
    let env = env_at(10);
    let cases: Vec<(&str, IbcExecuteMsg, &str)> = vec![
        (
            "alice",
            IbcExecuteMsg::IncreaseAllowance { spender: t("alice"), amount: 1, expires: None },
            "Cannot set to own account",
        ),
        (
            "alice",
            IbcExecuteMsg::IncreaseAllowance {
                spender: t("bob"),
                amount: 1,
                expires: Some(Expiration::AtHeight(10)),
            },
            "Invalid expiration value",
        ),
        (
            "alice",
            IbcExecuteMsg::DecreaseAllowance { spender: t("bob"), amount: 1, expires: None },
            "No allowance for this account",
        ),
        (
            "spender",
            IbcExecuteMsg::BurnFrom { owner: t("lapsed"), amount: 0 },
            "Allowance is expired",
        ),
        ("alice", IbcExecuteMsg::Transfer { recipient: t("bob"), amount: 1 }, "Overflow"),
        ("alice", IbcExecuteMsg::Mint { recipient: t("bob"), amount: 1 }, "Unauthorized"),
        (
            "minter",
            IbcExecuteMsg::Mint { recipient: t("bob"), amount: 11 },
            "Minting cannot exceed the cap",
        ),
        (
            "alice",
            IbcExecuteMsg::Send { contract: t("vault"), amount: 1, msg: vec![] },
            "Overflow",
        ),
    ];
    for (sender, msg, text) in cases {
        let mut ledger = Ledger::new();
        let mut info = minted(0);
        info.mint = Some(MinterData { minter: t("minter"), cap: Some(10) });
        ledger.set_token_info(&t(c), info.clone());
        ledger.set_allowance(
            &t(c),
            &t("lapsed"),
            &t("spender"),
            AllowanceResponse { allowance: 5, expires: Expiration::AtHeight(1) },
        );
        let res = ibc_packet_receive(&mut ledger, &env, t(c), Ok(msg), &from(sender)).unwrap();
        assert_eq!(res, refusal(text));
        assert!(ledger.balance_entries().is_empty());
        assert_eq!(ledger.allowance_entries().len(), 1);
        assert_eq!(ledger.token_info(&t(c)), Some(&info));
        assert!(ledger.count_entries().is_empty());
    }
}

#[test]
fn burn_packet_without_token_record_is_refused() {
    let mut ledger = Ledger::new();
    ledger.set_balance(&t("channel-0"), &t("alice"), 3);
    let res = ibc_packet_receive(
        &mut ledger,
        &env_at(1),
        t("channel-0"),
        Ok(IbcExecuteMsg::Burn { amount: 1 }),
        &from("alice"),
    )
    .unwrap();
    assert_eq!(res, refusal("Token info not found"));
    assert_eq!(ledger.balance(&t("channel-0"), &t("alice")), 3);
}

#[test]
fn response_builders_keep_what_was_set() {
    let res = IbcReceiveResponse::new()
        .add_attribute("k", "v")
        .set_messages(vec![WasmExecute { contract_addr: t("x"), msg: vec![7] }])
        .set_ack(make_ack_success());
    assert_eq!(
        res,
        IbcReceiveResponse {
            acknowledgement: Some(Ack::Result(vec![49])),
            attributes: vec![kv("k", "v")],
            messages: vec![WasmExecute { contract_addr: t("x"), msg: vec![7] }],
        }
    );
    assert_eq!(IbcReceiveResponse::new().acknowledgement, None);
    assert_eq!(
        IbcBasicResponse::new().add_attribute("a", "b"),
        IbcBasicResponse { attributes: vec![kv("a", "b")] }
    );
}
