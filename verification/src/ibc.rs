//! The channel side of the ledger: the check that a proposed channel is one
//! this ledger can speak on, the steps of a channel's life, and the
//! dispatcher that turns every received packet into an acknowledgement.

use crate::allowances::{
    burn_from_outcome, decrease_outcome, deduct_outcome, execute_burn_from,
    execute_decrease_allowance, execute_increase_allowance, execute_send_from,
    execute_transfer_from, increase_outcome, lemma_allowances_keep_supply_backed,
    send_from_outcome, transfer_from_outcome,
};
use crate::amount::{decimal_text, to_text};
use crate::balances::{
    burn_outcome, lemma_burn_keeps_supply_backed, lemma_mint_keeps_supply_backed,
    lemma_move_keeps_supply_backed, mint_outcome, move_outcome,
};
use crate::contract::{
    execute_burn, execute_mint, execute_send, execute_transfer, increment_count,
    increment_outcome, lemma_counts_keep_supply_backed, send_outcome, try_increment,
};
use crate::error::ContractError;
use crate::expiration::{BlockInfo, Expiration};
use crate::msg::{Env, IbcExecuteMsg, MessageInfo};
use crate::receiver::receive_msg_encoding;
use crate::response::{
    make_ack_fail, make_ack_success, AckView, IbcBasicResponse, IbcReceiveResponse,
    IbcReceiveResponseView,
};
use crate::state::{Ledger, LedgerView};
use vstd::prelude::*;
use vstd::string::*;

verus! {

/// The protocol version that both ends of a channel must advertise.
pub const IBC_VERSION: &'static str = "counter-1";

/// How a channel delivers its packets.
#[derive(Clone, Copy, Debug, PartialEq, Eq)]
pub enum IbcOrder {
    Unordered,
    Ordered,
}

/// One end of a channel.
#[derive(Clone, Debug, PartialEq, Eq)]
pub struct IbcEndpoint {
    pub port_id: String,
    pub channel_id: String,
}

/// A channel as a handshake step proposes it.
#[derive(Clone, Debug, PartialEq, Eq)]
pub struct IbcChannel {
    pub endpoint: IbcEndpoint,
    pub counterparty_endpoint: IbcEndpoint,
    pub order: IbcOrder,
    pub version: String,
    pub connection_id: String,
}

/// The error of a call that cannot fail.
pub type Never = std::convert::Infallible;

/// Whether a channel with this order and version, and this version of the
/// counterparty where it is known, is one that the ledger accepts.
pub open spec fn channel_accepted(
    order: IbcOrder,
    version: Seq<char>,
    counterparty_version: Option<Seq<char>>,
) -> bool {
    &&& order == IbcOrder::Unordered
    &&& version == IBC_VERSION@
    &&& counterparty_version is Some ==> counterparty_version->Some_0 == IBC_VERSION@
}

/// The version that a refusal for a wrong version names: the channel's own
/// where that is wrong, else the counterparty's.
pub open spec fn refused_version(version: Seq<char>, counterparty_version: Option<Seq<char>>) -> Seq<
    char,
> {
    if version != IBC_VERSION@ {
        version
    } else {
        counterparty_version->Some_0
    }
}

/// The views of an optional version.
pub open spec fn version_view(version: Option<&str>) -> Option<Seq<char>> {
    match version {
        Some(text) => Some(text@),
        None => None,
    }
}

/// Checks a proposed channel: its delivery must be unordered, its version
/// must be `IBC_VERSION`, and so must the counterparty's where it is known.
/// The order is checked first, then the channel's version, then the
/// counterparty's.
pub fn validate_order_and_version(channel: &IbcChannel, counterparty_version: Option<&str>) -> (result:
    Result<(), ContractError>)
    ensures
        result is Ok <==> channel_accepted(
            channel.order,
            channel.version@,
            version_view(counterparty_version),
        ),
        channel.order != IbcOrder::Unordered ==> result == Err::<(), ContractError>(
            ContractError::OrderedChannelRejected,
        ),
        result is Err && channel.order == IbcOrder::Unordered ==> {
            &&& result->Err_0 is InvalidChannelVersion
            &&& result->Err_0->actual@ == refused_version(
                channel.version@,
                version_view(counterparty_version),
            )
            &&& result->Err_0->expected@ == IBC_VERSION@
        },
{
    match channel.order {
        IbcOrder::Unordered => {},
        IbcOrder::Ordered => {
            return Err(ContractError::OrderedChannelRejected);
        },
    }
    let expected = String::from_str(IBC_VERSION);
    if !(channel.version == expected) {
        return Err(
            ContractError::InvalidChannelVersion { actual: channel.version.clone(), expected },
        );
    }
    if let Some(version) = counterparty_version {
        let actual = String::from_str(version);
        if !(actual == expected) {
            return Err(ContractError::InvalidChannelVersion { actual, expected });
        }
    }
    Ok(())
}

/// The first steps of the handshake: accepts or refuses the proposed
/// channel. It touches no state.
pub fn ibc_channel_open(channel: &IbcChannel, counterparty_version: Option<&str>) -> (result: Result<
    (),
    ContractError,
>)
    ensures
        result is Ok <==> channel_accepted(
            channel.order,
            channel.version@,
            version_view(counterparty_version),
        ),
        channel.order != IbcOrder::Unordered ==> result == Err::<(), ContractError>(
            ContractError::OrderedChannelRejected,
        ),
        result is Err && channel.order == IbcOrder::Unordered ==> {
            &&& result->Err_0 is InvalidChannelVersion
            &&& result->Err_0->actual@ == refused_version(
                channel.version@,
                version_view(counterparty_version),
            )
            &&& result->Err_0->expected@ == IBC_VERSION@
        },
{
    validate_order_and_version(channel, counterparty_version)
}

/// The last steps of the handshake: checks the channel again and, where it
/// is accepted, sets its counter to zero. A refused channel leaves the
/// ledger as it was.
pub fn ibc_channel_connect(
    ledger: &mut Ledger,
    channel: &IbcChannel,
    counterparty_version: Option<&str>,
) -> (result: Result<IbcBasicResponse, ContractError>)
    requires
        old(ledger).wf(),
    ensures
        final(ledger).wf(),
        old(ledger)@.keeps_supply_backed(final(ledger)@),
        result is Ok <==> channel_accepted(
            channel.order,
            channel.version@,
            version_view(counterparty_version),
        ),
        result is Ok ==> {
            &&& final(ledger)@ == old(ledger)@.with_count(channel.endpoint.channel_id@, 0)
            &&& result->Ok_0@ == seq![
                ("method"@, "ibc_channel_connect"@),
                ("channel_id"@, channel.endpoint.channel_id@),
            ]
        },
        result is Err ==> final(ledger)@ == old(ledger)@,
        channel.order != IbcOrder::Unordered ==> result == Err::<IbcBasicResponse, ContractError>(
            ContractError::OrderedChannelRejected,
        ),
        result is Err && channel.order == IbcOrder::Unordered ==> {
            &&& result->Err_0 is InvalidChannelVersion
            &&& result->Err_0->actual@ == refused_version(
                channel.version@,
                version_view(counterparty_version),
            )
            &&& result->Err_0->expected@ == IBC_VERSION@
        },
{
    match validate_order_and_version(channel, counterparty_version) {
        Ok(_) => {},
        Err(error) => {
            return Err(error);
        },
    }
    ledger.set_connection_count(&channel.endpoint.channel_id, 0);
    proof {
        lemma_counts_keep_supply_backed(old(ledger)@, ledger@);
    }
    let response = IbcBasicResponse::new().add_attribute(
        "method",
        "ibc_channel_connect",
    ).add_attribute("channel_id", channel.endpoint.channel_id.as_str());
    assert(response@ =~= seq![
        ("method"@, "ibc_channel_connect"@),
        ("channel_id"@, channel.endpoint.channel_id@),
    ]);
    Ok(response)
}

/// The end of a channel: removes its counter. The balances, allowances and
/// token record of the channel stay. Never fails.
pub fn ibc_channel_close(ledger: &mut Ledger, channel: &IbcChannel) -> (result: Result<
    IbcBasicResponse,
    ContractError,
>)
    requires
        old(ledger).wf(),
    ensures
        final(ledger).wf(),
        old(ledger)@.keeps_supply_backed(final(ledger)@),
        final(ledger)@ == old(ledger)@.without_count(channel.endpoint.channel_id@),
        result is Ok,
        result->Ok_0@ == seq![
            ("method"@, "ibc_channel_close"@),
            ("channel"@, channel.endpoint.channel_id@),
        ],
{
    ledger.remove_connection_count(&channel.endpoint.channel_id);
    proof {
        lemma_counts_keep_supply_backed(old(ledger)@, ledger@);
    }
    let response = IbcBasicResponse::new().add_attribute("method", "ibc_channel_close").add_attribute(
        "channel",
        channel.endpoint.channel_id.as_str(),
    );
    assert(response@ =~= seq![
        ("method"@, "ibc_channel_close"@),
        ("channel"@, channel.endpoint.channel_id@),
    ]);
    Ok(response)
}

/// The ledger after `sender` has had `msg` carried out on `channel`.
pub open spec fn packet_outcome(
    state: LedgerView,
    block: BlockInfo,
    sender: Seq<char>,
    channel: Seq<char>,
    msg: IbcExecuteMsg,
) -> Result<LedgerView, ContractError> {
    match msg {
        IbcExecuteMsg::Increment => increment_outcome(state, channel),
        IbcExecuteMsg::Transfer { recipient, amount } => move_outcome(
            state,
            channel,
            sender,
            recipient@,
            amount,
        ),
        IbcExecuteMsg::Burn { amount } => burn_outcome(state, channel, sender, amount),
        IbcExecuteMsg::TransferFrom { owner, recipient, amount } => transfer_from_outcome(
            state,
            block,
            sender,
            owner@,
            recipient@,
            amount,
            channel,
        ),
        IbcExecuteMsg::IncreaseAllowance { spender, amount, expires } => increase_outcome(
            state,
            block,
            sender,
            spender@,
            amount,
            expires,
            channel,
        ),
        IbcExecuteMsg::DecreaseAllowance { spender, amount, expires } => decrease_outcome(
            state,
            block,
            sender,
            spender@,
            amount,
            expires,
            channel,
        ),
        IbcExecuteMsg::Mint { recipient, amount } => mint_outcome(
            state,
            sender,
            channel,
            recipient@,
            amount,
        ),
        IbcExecuteMsg::BurnFrom { owner, amount } => burn_from_outcome(
            state,
            block,
            sender,
            owner@,
            amount,
            channel,
        ),
        IbcExecuteMsg::Send { contract, amount, msg } => send_outcome(
            state,
            sender,
            contract@,
            amount,
            channel,
            receive_msg_encoding(sender, amount, msg@),
        ),
        IbcExecuteMsg::SendFrom { owner, contract, amount, msg } => send_from_outcome(
            state,
            block,
            sender,
            owner@,
            contract@,
            amount,
            channel,
            receive_msg_encoding(sender, amount, msg@),
        ),
    }
}

/// The ledger after a packet with this message has been received: the
/// outcome where the message is carried out, the ledger as it was where it
/// is refused.
pub open spec fn after_packet(
    state: LedgerView,
    block: BlockInfo,
    sender: Seq<char>,
    channel: Seq<char>,
    msg: IbcExecuteMsg,
) -> LedgerView {
    match packet_outcome(state, block, sender, channel, msg) {
        Ok(after) => after,
        Err(_) => state,
    }
}

/// One received packet whose body decoded: the block it arrived in, the
/// account it speaks for, the channel it came on, and its message.
pub ghost struct Arrival {
    pub block: BlockInfo,
    pub sender: Seq<char>,
    pub channel: Seq<char>,
    pub msg: IbcExecuteMsg,
}

/// The ledger after the packets of `arrivals` have been received, one after
/// the other.
pub open spec fn after_arrivals(state: LedgerView, arrivals: Seq<Arrival>) -> LedgerView
    decreases arrivals.len(),
{
    if arrivals.len() == 0 {
        state
    } else {
        let last = arrivals.last();
        after_packet(
            after_arrivals(state, arrivals.drop_last()),
            last.block,
            last.sender,
            last.channel,
            last.msg,
        )
    }
}

/// A change that leaves both allowance indexes alone keeps them mirrored.
proof fn lemma_same_allowances_mirrored(before: LedgerView, after: LedgerView)
    requires
        after.allowances == before.allowances,
        after.allowances_spender == before.allowances_spender,
        before.mirrored(),
    ensures
        after.mirrored(),
{
    assert forall|c: Seq<char>, o: Seq<char>, s: Seq<char>|
        after.allowance(c, o, s) == after.allowance_by_spender(c, s, o) by {
        assert(before.allowance(c, o, s) == before.allowance_by_spender(c, s, o)) by {
            assert(before.allowances.contains_key((c, o, s)) || !before.allowances.contains_key(
                (c, o, s),
            ));
        }
    }
}

/// Whatever message a packet carries, and whether it is carried out or
/// refused, receiving it keeps the two allowance indexes mirrored, keeps the
/// total supply of every channel that was the sum of its balances so, and
/// leaves finitely many balances.
pub proof fn lemma_packet_keeps_laws(
    state: LedgerView,
    block: BlockInfo,
    sender: Seq<char>,
    channel: Seq<char>,
    msg: IbcExecuteMsg,
)
    requires
        state.mirrored(),
        state.balances.dom().finite(),
    ensures
        after_packet(state, block, sender, channel, msg).mirrored(),
        after_packet(state, block, sender, channel, msg).balances.dom().finite(),
        state.keeps_supply_backed(after_packet(state, block, sender, channel, msg)),
{
    let after = after_packet(state, block, sender, channel, msg);
    if packet_outcome(state, block, sender, channel, msg) is Ok {
        match msg {
            IbcExecuteMsg::Increment => {
                lemma_same_allowances_mirrored(state, after);
                lemma_counts_keep_supply_backed(state, after);
            },
            IbcExecuteMsg::Transfer { recipient, amount } => {
                lemma_same_allowances_mirrored(state, after);
                lemma_move_keeps_supply_backed(state, channel, sender, recipient@, amount);
            },
            IbcExecuteMsg::Burn { amount } => {
                lemma_same_allowances_mirrored(state, after);
                lemma_burn_keeps_supply_backed(state, channel, sender, amount);
            },
            IbcExecuteMsg::TransferFrom { owner, recipient, amount } => {
                let record = deduct_outcome(state, owner@, sender, block, amount, channel)->Ok_0;
                let spent = state.with_allowance(channel, owner@, sender, record);
                state.lemma_with_allowance_mirrored(channel, owner@, sender, record);
                lemma_allowances_keep_supply_backed(state, spent);
                lemma_same_allowances_mirrored(spent, after);
                lemma_move_keeps_supply_backed(spent, channel, owner@, recipient@, amount);
            },
            IbcExecuteMsg::IncreaseAllowance { spender, amount, expires } => {
                let record = after.allowances[(channel, sender, spender@)];
                state.lemma_with_allowance_mirrored(channel, sender, spender@, record);
                lemma_allowances_keep_supply_backed(state, after);
            },
            IbcExecuteMsg::DecreaseAllowance { spender, amount, expires } => {
                if amount < state.allowances[(channel, sender, spender@)].allowance {
                    let record = after.allowances[(channel, sender, spender@)];
                    state.lemma_with_allowance_mirrored(channel, sender, spender@, record);
                } else {
                    state.lemma_without_allowance_mirrored(channel, sender, spender@);
                }
                lemma_allowances_keep_supply_backed(state, after);
            },
            IbcExecuteMsg::Mint { recipient, amount } => {
                lemma_same_allowances_mirrored(state, after);
                lemma_mint_keeps_supply_backed(state, sender, channel, recipient@, amount);
            },
            IbcExecuteMsg::BurnFrom { owner, amount } => {
                let record = deduct_outcome(state, owner@, sender, block, amount, channel)->Ok_0;
                let spent = state.with_allowance(channel, owner@, sender, record);
                state.lemma_with_allowance_mirrored(channel, owner@, sender, record);
                lemma_allowances_keep_supply_backed(state, spent);
                lemma_same_allowances_mirrored(spent, after);
                lemma_burn_keeps_supply_backed(spent, channel, owner@, amount);
            },
            IbcExecuteMsg::Send { contract, amount, msg } => {
                lemma_same_allowances_mirrored(state, after);
                lemma_move_keeps_supply_backed(state, channel, sender, contract@, amount);
            },
            IbcExecuteMsg::SendFrom { owner, contract, amount, msg } => {
                let record = deduct_outcome(state, owner@, sender, block, amount, channel)->Ok_0;
                let spent = state.with_allowance(channel, owner@, sender, record);
                state.lemma_with_allowance_mirrored(channel, owner@, sender, record);
                lemma_allowances_keep_supply_backed(state, spent);
                lemma_same_allowances_mirrored(spent, after);
                lemma_move_keeps_supply_backed(spent, channel, owner@, contract@, amount);
            },
        }
    }
}

/// After any sequence of received packets the two allowance indexes are
/// still mirrored, and every channel whose total supply was the sum of its
/// balances before the first packet has it so after the last.
pub proof fn lemma_arrivals_keep_laws(state: LedgerView, arrivals: Seq<Arrival>)
    requires
        state.mirrored(),
        state.balances.dom().finite(),
    ensures
        after_arrivals(state, arrivals).mirrored(),
        after_arrivals(state, arrivals).balances.dom().finite(),
        state.keeps_supply_backed(after_arrivals(state, arrivals)),
    decreases arrivals.len(),
{
    if arrivals.len() > 0 {
        let last = arrivals.last();
        let before = after_arrivals(state, arrivals.drop_last());
        lemma_arrivals_keep_laws(state, arrivals.drop_last());
        lemma_packet_keeps_laws(before, last.block, last.sender, last.channel, last.msg);
    }
}

/// The attributes of the response to a packet whose message was carried
/// out, for the ledger as it was before.
pub open spec fn packet_attributes(state: LedgerView, channel: Seq<char>, msg: IbcExecuteMsg) -> Seq<
    (Seq<char>, Seq<char>),
> {
    match msg {
        IbcExecuteMsg::Increment => seq![
            ("method"@, "execute_increment"@),
            ("count"@, decimal_text(increment_count(state, channel)->Ok_0 as u128)),
        ],
        IbcExecuteMsg::Transfer { recipient, amount } => seq![
            ("method"@, "execute_transfer"@),
            ("receipient"@, recipient@),
            ("amount"@, decimal_text(amount)),
            ("channel"@, channel),
        ],
        IbcExecuteMsg::Burn { amount } => seq![
            ("method"@, "execute_burn"@),
            ("amount"@, decimal_text(amount)),
            ("channel"@, channel),
        ],
        IbcExecuteMsg::TransferFrom { owner, recipient, amount } => seq![
            ("method"@, "transfer_from"@),
            ("owner"@, owner@),
            ("recepient"@, recipient@),
            ("amount"@, decimal_text(amount)),
            ("channel"@, channel),
        ],
        IbcExecuteMsg::IncreaseAllowance { spender, amount, expires } => seq![
            ("method"@, "increase_allowance"@),
            ("spender"@, spender@),
            ("amount"@, decimal_text(amount)),
            ("channel"@, channel),
        ],
        IbcExecuteMsg::DecreaseAllowance { spender, amount, expires } => seq![
            ("method"@, "decrease_allowance"@),
            ("spender"@, spender@),
            ("amount"@, decimal_text(amount)),
            ("channel"@, channel),
        ],
        IbcExecuteMsg::Mint { recipient, amount } => seq![
            ("method"@, "mint"@),
            ("recipient"@, recipient@),
            ("amount"@, decimal_text(amount)),
            ("channel"@, channel),
        ],
        IbcExecuteMsg::BurnFrom { owner, amount } => seq![
            ("action"@, "burn_from"@),
            ("from"@, owner@),
            ("amount"@, decimal_text(amount)),
        ],
        IbcExecuteMsg::Send { contract, amount, msg } => seq![
            ("method"@, "send"@),
            ("contract"@, contract@),
            ("amount"@, decimal_text(amount)),
            ("channel"@, channel),
        ],
        IbcExecuteMsg::SendFrom { owner, contract, amount, msg } => seq![
            ("method"@, "send_from"@),
            ("owner"@, owner@),
            ("contract"@, contract@),
            ("amount"@, decimal_text(amount)),
        ],
    }
}

/// The calls that the response to a packet carries when `sender` has had
/// `msg` carried out: the notification of the receiving contract for a send,
/// none otherwise.
pub open spec fn packet_messages(sender: Seq<char>, msg: IbcExecuteMsg) -> Seq<(Seq<char>, Seq<u8>)> {
    match msg {
        IbcExecuteMsg::Send { contract, amount, msg } => seq![
            (contract@, receive_msg_encoding(sender, amount, msg@)->Some_0),
        ],
        IbcExecuteMsg::SendFrom { owner, contract, amount, msg } => seq![
            (contract@, receive_msg_encoding(sender, amount, msg@)->Some_0),
        ],
        _ => Seq::empty(),
    }
}

/// The response to a packet whose message was carried out: the success
/// acknowledgement with these attributes and calls.
pub open spec fn receipt(
    attributes: Seq<(Seq<char>, Seq<char>)>,
    messages: Seq<(Seq<char>, Seq<u8>)>,
) -> IbcReceiveResponseView {
    IbcReceiveResponseView {
        acknowledgement: Some(AckView::Result(seq![49u8])),
        attributes,
        messages,
    }
}

/// The response to a packet that failed with an error of this description:
/// the failure acknowledgement that carries it.
pub open spec fn refusal(description: Seq<char>) -> IbcReceiveResponseView {
    IbcReceiveResponseView {
        acknowledgement: Some(AckView::Error(description)),
        attributes: seq![("method"@, "ibc_packet_receive"@), ("error"@, description)],
        messages: Seq::empty(),
    }
}

/// A handler has done its work: where the operation succeeds the ledger is
/// its outcome and the response is the receipt; where it fails the ledger is
/// as before and the error is handed on.
pub open spec fn handled(
    before: LedgerView,
    after: LedgerView,
    result: Result<IbcReceiveResponse, ContractError>,
    outcome: Result<LedgerView, ContractError>,
    attributes: Seq<(Seq<char>, Seq<char>)>,
    messages: Seq<(Seq<char>, Seq<u8>)>,
) -> bool {
    match outcome {
        Ok(state) => after == state && result is Ok && result->Ok_0@ == receipt(
            attributes,
            messages,
        ),
        Err(error) => after == before && result == Err::<IbcReceiveResponse, ContractError>(error),
    }
}

/// Handles a send on the sender's word and writes the receipt, with the
/// notification for the contract.
fn send_from(
    ledger: &mut Ledger,
    env: &Env,
    info: &MessageInfo,
    owner: String,
    contract: String,
    amount: u128,
    msg: Vec<u8>,
    channel: String,
) -> (result: Result<IbcReceiveResponse, ContractError>)
    requires
        old(ledger).wf(),
    ensures
        final(ledger).wf(),
        old(ledger)@.keeps_supply_backed(final(ledger)@),
        handled(
            old(ledger)@,
            final(ledger)@,
            result,
            packet_outcome(
                old(ledger)@,
                env.block,
                info.sender@,
                channel@,
                IbcExecuteMsg::SendFrom { owner, contract, amount, msg },
            ),
            packet_attributes(
                old(ledger)@,
                channel@,
                IbcExecuteMsg::SendFrom { owner, contract, amount, msg },
            ),
            packet_messages(info.sender@, IbcExecuteMsg::SendFrom { owner, contract, amount, msg }),
        ),
{
    let done = match execute_send_from(
        ledger,
        env,
        info,
        owner.clone(),
        contract.clone(),
        amount,
        msg,
        channel,
    ) {
        Ok(done) => done,
        Err(error) => {
            return Err(error);
        },
    };
    let response = IbcReceiveResponse::new().add_attribute("method", "send_from").add_attribute(
        "owner",
        owner.as_str(),
    ).add_attribute("contract", contract.as_str()).add_attribute(
        "amount",
        to_text(amount).as_str(),
    ).set_messages(done.messages).set_ack(make_ack_success());
    assert(response@.attributes =~= seq![
        ("method"@, "send_from"@),
        ("owner"@, owner@),
        ("contract"@, contract@),
        ("amount"@, decimal_text(amount)),
    ]);
    Ok(response)
}

/// Handles the lowering of an allowance and writes the receipt.
fn decrease_allowance(
    ledger: &mut Ledger,
    env: &Env,
    info: &MessageInfo,
    spender: String,
    amount: u128,
    expires: Option<Expiration>,
    channel: String,
) -> (result: Result<IbcReceiveResponse, ContractError>)
    requires
        old(ledger).wf(),
    ensures
        final(ledger).wf(),
        old(ledger)@.keeps_supply_backed(final(ledger)@),
        handled(
            old(ledger)@,
            final(ledger)@,
            result,
            packet_outcome(
                old(ledger)@,
                env.block,
                info.sender@,
                channel@,
                IbcExecuteMsg::DecreaseAllowance { spender, amount, expires },
            ),
            packet_attributes(
                old(ledger)@,
                channel@,
                IbcExecuteMsg::DecreaseAllowance { spender, amount, expires },
            ),
            Seq::empty(),
        ),
{
    match execute_decrease_allowance(
        ledger,
        env,
        info,
        spender.clone(),
        amount,
        expires,
        channel.clone(),
    ) {
        Ok(_) => {},
        Err(error) => {
            return Err(error);
        },
    }
    let response = IbcReceiveResponse::new().add_attribute(
        "method",
        "decrease_allowance",
    ).add_attribute("spender", spender.as_str()).add_attribute(
        "amount",
        to_text(amount).as_str(),
    ).add_attribute("channel", channel.as_str()).set_ack(make_ack_success());
    assert(response@.attributes =~= seq![
        ("method"@, "decrease_allowance"@),
        ("spender"@, spender@),
        ("amount"@, decimal_text(amount)),
        ("channel"@, channel@),
    ]);
    Ok(response)
}

/// Handles the raising of an allowance and writes the receipt.
fn increase_allowance(
    ledger: &mut Ledger,
    env: &Env,
    info: &MessageInfo,
    spender: String,
    amount: u128,
    expires: Option<Expiration>,
    channel: String,
) -> (result: Result<IbcReceiveResponse, ContractError>)
    requires
        old(ledger).wf(),
    ensures
        final(ledger).wf(),
        old(ledger)@.keeps_supply_backed(final(ledger)@),
        handled(
            old(ledger)@,
            final(ledger)@,
            result,
            packet_outcome(
                old(ledger)@,
                env.block,
                info.sender@,
                channel@,
                IbcExecuteMsg::IncreaseAllowance { spender, amount, expires },
            ),
            packet_attributes(
                old(ledger)@,
                channel@,
                IbcExecuteMsg::IncreaseAllowance { spender, amount, expires },
            ),
            Seq::empty(),
        ),
{
    match execute_increase_allowance(
        ledger,
        env,
        info,
        spender.clone(),
        amount,
        expires,
        channel.clone(),
    ) {
        Ok(_) => {},
        Err(error) => {
            return Err(error);
        },
    }
    let response = IbcReceiveResponse::new().add_attribute(
        "method",
        "increase_allowance",
    ).add_attribute("spender", spender.as_str()).add_attribute(
        "amount",
        to_text(amount).as_str(),
    ).add_attribute("channel", channel.as_str()).set_ack(make_ack_success());
    assert(response@.attributes =~= seq![
        ("method"@, "increase_allowance"@),
        ("spender"@, spender@),
        ("amount"@, decimal_text(amount)),
        ("channel"@, channel@),
    ]);
    Ok(response)
}

/// Handles a burn on the sender's word and writes the receipt.
fn burn_from(
    ledger: &mut Ledger,
    env: &Env,
    info: &MessageInfo,
    owner: String,
    amount: u128,
    channel: String,
) -> (result: Result<IbcReceiveResponse, ContractError>)
    requires
        old(ledger).wf(),
    ensures
        final(ledger).wf(),
        old(ledger)@.keeps_supply_backed(final(ledger)@),
        handled(
            old(ledger)@,
            final(ledger)@,
            result,
            packet_outcome(
                old(ledger)@,
                env.block,
                info.sender@,
                channel@,
                IbcExecuteMsg::BurnFrom { owner, amount },
            ),
            packet_attributes(old(ledger)@, channel@, IbcExecuteMsg::BurnFrom { owner, amount }),
            Seq::empty(),
        ),
{
    match execute_burn_from(ledger, env, info, owner.clone(), amount, channel) {
        Ok(_) => {},
        Err(error) => {
            return Err(error);
        },
    }
    let response = IbcReceiveResponse::new().add_attribute("action", "burn_from").add_attribute(
        "from",
        owner.as_str(),
    ).add_attribute("amount", to_text(amount).as_str()).set_ack(make_ack_success());
    assert(response@.attributes =~= seq![
        ("action"@, "burn_from"@),
        ("from"@, owner@),
        ("amount"@, decimal_text(amount)),
    ]);
    Ok(response)
}

/// Handles a mint and writes the receipt.
fn mint(
    ledger: &mut Ledger,
    env: &Env,
    info: &MessageInfo,
    recipient: String,
    amount: u128,
    channel: String,
) -> (result: Result<IbcReceiveResponse, ContractError>)
    requires
        old(ledger).wf(),
    ensures
        final(ledger).wf(),
        old(ledger)@.keeps_supply_backed(final(ledger)@),
        handled(
            old(ledger)@,
            final(ledger)@,
            result,
            packet_outcome(
                old(ledger)@,
                env.block,
                info.sender@,
                channel@,
                IbcExecuteMsg::Mint { recipient, amount },
            ),
            packet_attributes(old(ledger)@, channel@, IbcExecuteMsg::Mint { recipient, amount }),
            Seq::empty(),
        ),
{
    match execute_mint(ledger, env, info, recipient.clone(), amount, channel.clone()) {
        Ok(_) => {},
        Err(error) => {
            return Err(error);
        },
    }
    let response = IbcReceiveResponse::new().add_attribute("method", "mint").add_attribute(
        "recipient",
        recipient.as_str(),
    ).add_attribute("amount", to_text(amount).as_str()).add_attribute(
        "channel",
        channel.as_str(),
    ).set_ack(make_ack_success());
    assert(response@.attributes =~= seq![
        ("method"@, "mint"@),
        ("recipient"@, recipient@),
        ("amount"@, decimal_text(amount)),
        ("channel"@, channel@),
    ]);
    Ok(response)
}

/// Handles a send and writes the receipt, with the notification for the
/// contract.
fn send(
    ledger: &mut Ledger,
    env: &Env,
    info: &MessageInfo,
    contract: String,
    amount: u128,
    msg: Vec<u8>,
    channel: String,
) -> (result: Result<IbcReceiveResponse, ContractError>)
    requires
        old(ledger).wf(),
    ensures
        final(ledger).wf(),
        old(ledger)@.keeps_supply_backed(final(ledger)@),
        handled(
            old(ledger)@,
            final(ledger)@,
            result,
            packet_outcome(
                old(ledger)@,
                env.block,
                info.sender@,
                channel@,
                IbcExecuteMsg::Send { contract, amount, msg },
            ),
            packet_attributes(
                old(ledger)@,
                channel@,
                IbcExecuteMsg::Send { contract, amount, msg },
            ),
            packet_messages(info.sender@, IbcExecuteMsg::Send { contract, amount, msg }),
        ),
{
    let done = match execute_send(ledger, env, info, contract.clone(), amount, msg, channel.clone()) {
        Ok(done) => done,
        Err(error) => {
            return Err(error);
        },
    };
    let response = IbcReceiveResponse::new().add_attribute("method", "send").add_attribute(
        "contract",
        contract.as_str(),
    ).add_attribute("amount", to_text(amount).as_str()).add_attribute(
        "channel",
        channel.as_str(),
    ).set_messages(done.messages).set_ack(make_ack_success());
    assert(response@.attributes =~= seq![
        ("method"@, "send"@),
        ("contract"@, contract@),
        ("amount"@, decimal_text(amount)),
        ("channel"@, channel@),
    ]);
    Ok(response)
}

/// Handles a burn and writes the receipt.
fn burn(ledger: &mut Ledger, env: &Env, info: &MessageInfo, amount: u128, channel: String) -> (result:
    Result<IbcReceiveResponse, ContractError>)
    requires
        old(ledger).wf(),
    ensures
        final(ledger).wf(),
        old(ledger)@.keeps_supply_backed(final(ledger)@),
        handled(
            old(ledger)@,
            final(ledger)@,
            result,
            packet_outcome(
                old(ledger)@,
                env.block,
                info.sender@,
                channel@,
                IbcExecuteMsg::Burn { amount },
            ),
            packet_attributes(old(ledger)@, channel@, IbcExecuteMsg::Burn { amount }),
            Seq::empty(),
        ),
{
    match execute_burn(ledger, env, info, amount, channel.clone()) {
        Ok(_) => {},
        Err(error) => {
            return Err(error);
        },
    }
    let response = IbcReceiveResponse::new().add_attribute("method", "execute_burn").add_attribute(
        "amount",
        to_text(amount).as_str(),
    ).add_attribute("channel", channel.as_str()).set_ack(make_ack_success());
    assert(response@.attributes =~= seq![
        ("method"@, "execute_burn"@),
        ("amount"@, decimal_text(amount)),
        ("channel"@, channel@),
    ]);
    Ok(response)
}

/// Handles a transfer on the sender's word and writes the receipt.
fn transfer_from(
    ledger: &mut Ledger,
    env: &Env,
    info: &MessageInfo,
    owner: String,
    recipient: String,
    amount: u128,
    channel: String,
) -> (result: Result<IbcReceiveResponse, ContractError>)
    requires
        old(ledger).wf(),
    ensures
        final(ledger).wf(),
        old(ledger)@.keeps_supply_backed(final(ledger)@),
        handled(
            old(ledger)@,
            final(ledger)@,
            result,
            packet_outcome(
                old(ledger)@,
                env.block,
                info.sender@,
                channel@,
                IbcExecuteMsg::TransferFrom { owner, recipient, amount },
            ),
            packet_attributes(
                old(ledger)@,
                channel@,
                IbcExecuteMsg::TransferFrom { owner, recipient, amount },
            ),
            Seq::empty(),
        ),
{
    match execute_transfer_from(
        ledger,
        env,
        info,
        owner.clone(),
        recipient.clone(),
        amount,
        channel.clone(),
    ) {
        Ok(_) => {},
        Err(error) => {
            return Err(error);
        },
    }
    let response = IbcReceiveResponse::new().add_attribute("method", "transfer_from").add_attribute(
        "owner",
        owner.as_str(),
    ).add_attribute("recepient", recipient.as_str()).add_attribute(
        "amount",
        to_text(amount).as_str(),
    ).add_attribute("channel", channel.as_str()).set_ack(make_ack_success());
    assert(response@.attributes =~= seq![
        ("method"@, "transfer_from"@),
        ("owner"@, owner@),
        ("recepient"@, recipient@),
        ("amount"@, decimal_text(amount)),
        ("channel"@, channel@),
    ]);
    Ok(response)
}

/// Handles a transfer and writes the receipt.
fn transfer(
    ledger: &mut Ledger,
    env: &Env,
    info: &MessageInfo,
    recipient: String,
    amount: u128,
    channel: String,
) -> (result: Result<IbcReceiveResponse, ContractError>)
    requires
        old(ledger).wf(),
    ensures
        final(ledger).wf(),
        old(ledger)@.keeps_supply_backed(final(ledger)@),
        handled(
            old(ledger)@,
            final(ledger)@,
            result,
            packet_outcome(
                old(ledger)@,
                env.block,
                info.sender@,
                channel@,
                IbcExecuteMsg::Transfer { recipient, amount },
            ),
            packet_attributes(
                old(ledger)@,
                channel@,
                IbcExecuteMsg::Transfer { recipient, amount },
            ),
            Seq::empty(),
        ),
{
    match execute_transfer(ledger, env, info, recipient.clone(), amount, channel.clone()) {
        Ok(_) => {},
        Err(error) => {
            return Err(error);
        },
    }
    let response = IbcReceiveResponse::new().add_attribute(
        "method",
        "execute_transfer",
    ).add_attribute("receipient", recipient.as_str()).add_attribute(
        "amount",
        to_text(amount).as_str(),
    ).add_attribute("channel", channel.as_str()).set_ack(make_ack_success());
    assert(response@.attributes =~= seq![
        ("method"@, "execute_transfer"@),
        ("receipient"@, recipient@),
        ("amount"@, decimal_text(amount)),
        ("channel"@, channel@),
    ]);
    Ok(response)
}

/// Handles an increment of the channel's counter and writes the receipt.
fn execute_increment(ledger: &mut Ledger, channel: String) -> (result: Result<
    IbcReceiveResponse,
    ContractError,
>)
    requires
        old(ledger).wf(),
    ensures
        final(ledger).wf(),
        old(ledger)@.keeps_supply_backed(final(ledger)@),
        handled(
            old(ledger)@,
            final(ledger)@,
            result,
            increment_outcome(old(ledger)@, channel@),
            packet_attributes(old(ledger)@, channel@, IbcExecuteMsg::Increment),
            Seq::empty(),
        ),
{
    let count = match try_increment(ledger, channel) {
        Ok(count) => count,
        Err(error) => {
            return Err(error);
        },
    };
    let response = IbcReceiveResponse::new().add_attribute(
        "method",
        "execute_increment",
    ).add_attribute("count", to_text(count as u128).as_str()).set_ack(make_ack_success());
    assert(response@.attributes =~= seq![
        ("method"@, "execute_increment"@),
        ("count"@, decimal_text(count as u128)),
    ]);
    Ok(response)
}

/// Carries out the message of a packet that arrived on `channel`, given what
/// decoding its body gave: the message, or the decoder's complaint. A body
/// that did not decode fails with `PayloadDecodeFailure`; a message is
/// handed to its operation, and the packet fails as the operation does.
/// Every failure leaves the ledger as it was.
pub fn do_ibc_packet_receive(
    ledger: &mut Ledger,
    info: &MessageInfo,
    env: &Env,
    channel: String,
    packet: Result<IbcExecuteMsg, String>,
) -> (result: Result<IbcReceiveResponse, ContractError>)
    requires
        old(ledger).wf(),
    ensures
        final(ledger).wf(),
        old(ledger)@.keeps_supply_backed(final(ledger)@),
        match packet {
            Ok(msg) => handled(
                old(ledger)@,
                final(ledger)@,
                result,
                packet_outcome(old(ledger)@, env.block, info.sender@, channel@, msg),
                packet_attributes(old(ledger)@, channel@, msg),
                packet_messages(info.sender@, msg),
            ),
            Err(reason) => {
                &&& final(ledger)@ == old(ledger)@
                &&& result is Err
                &&& result->Err_0 is PayloadDecodeFailure
                &&& result->Err_0->reason@ == reason@
            },
        },
{
    let msg = match packet {
        Ok(msg) => msg,
        Err(reason) => {
            return Err(ContractError::PayloadDecodeFailure { reason });
        },
    };
    match msg {
        IbcExecuteMsg::Increment => execute_increment(ledger, channel),
        IbcExecuteMsg::Transfer { recipient, amount } => transfer(
            ledger,
            env,
            info,
            recipient,
            amount,
            channel,
        ),
        IbcExecuteMsg::Burn { amount } => burn(ledger, env, info, amount, channel),
        IbcExecuteMsg::TransferFrom { owner, recipient, amount } => transfer_from(
            ledger,
            env,
            info,
            owner,
            recipient,
            amount,
            channel,
        ),
        IbcExecuteMsg::IncreaseAllowance { spender, amount, expires } => increase_allowance(
            ledger,
            env,
            info,
            spender,
            amount,
            expires,
            channel,
        ),
        IbcExecuteMsg::DecreaseAllowance { spender, amount, expires } => decrease_allowance(
            ledger,
            env,
            info,
            spender,
            amount,
            expires,
            channel,
        ),
        IbcExecuteMsg::Mint { recipient, amount } => mint(ledger, env, info, recipient, amount, channel),
        IbcExecuteMsg::BurnFrom { owner, amount } => burn_from(
            ledger,
            env,
            info,
            owner,
            amount,
            channel,
        ),
        IbcExecuteMsg::Send { contract, amount, msg } => send(
            ledger,
            env,
            info,
            contract,
            amount,
            msg,
            channel,
        ),
        IbcExecuteMsg::SendFrom { owner, contract, amount, msg } => send_from(
            ledger,
            env,
            info,
            owner,
            contract,
            amount,
            msg,
            channel,
        ),
    }
}

/// Receives a packet on `channel` and always answers with an
/// acknowledgement: success where the message was carried out, failure with
/// the error's description where the body did not decode or the operation
/// refused. A failure leaves the ledger as it was. The call itself never
/// fails.
pub fn ibc_packet_receive(
    ledger: &mut Ledger,
    env: &Env,
    channel: String,
    packet: Result<IbcExecuteMsg, String>,
    info: &MessageInfo,
) -> (result: Result<IbcReceiveResponse, Never>)
    requires
        old(ledger).wf(),
    ensures
        final(ledger).wf(),
        old(ledger)@.keeps_supply_backed(final(ledger)@),
        result is Ok,
        final(ledger)@ == match packet {
            Ok(msg) => after_packet(old(ledger)@, env.block, info.sender@, channel@, msg),
            Err(_) => old(ledger)@,
        },
        match packet {
            Ok(msg) => match packet_outcome(old(ledger)@, env.block, info.sender@, channel@, msg) {
                Ok(after) => final(ledger)@ == after && result->Ok_0@ == receipt(
                    packet_attributes(old(ledger)@, channel@, msg),
                    packet_messages(info.sender@, msg),
                ),
                Err(error) => final(ledger)@ == old(ledger)@ && result->Ok_0@ == refusal(
                    error.description_spec(),
                ),
            },
            Err(reason) => final(ledger)@ == old(ledger)@ && result->Ok_0@ == refusal(reason@),
        },
{
    match do_ibc_packet_receive(ledger, info, env, channel, packet) {
        Ok(response) => Ok(response),
        Err(error) => {
            let response = IbcReceiveResponse::new().add_attribute(
                "method",
                "ibc_packet_receive",
            ).add_attribute("error", error.description().as_str()).set_ack(
                make_ack_fail(error.description()),
            );
            assert(response@.attributes =~= seq![
                ("method"@, "ibc_packet_receive"@),
                ("error"@, error.description_spec()),
            ]);
            Ok(response)
        },
    }
}

/// The acknowledgement of a packet that this ledger sent has arrived. The
/// ledger keeps no record of the packets it sends, so there is nothing to do.
pub fn ibc_packet_ack() -> (result: Result<IbcBasicResponse, ContractError>)
    ensures
        result is Ok,
        result->Ok_0@ == seq![("method"@, "ibc_packet_ack"@)],
{
    let response = IbcBasicResponse::new().add_attribute("method", "ibc_packet_ack");
    assert(response@ =~= seq![("method"@, "ibc_packet_ack"@)]);
    Ok(response)
}

/// A packet that this ledger sent has timed out. The ledger keeps no record
/// of the packets it sends, so there is nothing to do.
pub fn ibc_packet_timeout() -> (result: Result<IbcBasicResponse, ContractError>)
    ensures
        result is Ok,
        result->Ok_0@ == seq![("method"@, "ibc_packet_timeout"@)],
{
    let response = IbcBasicResponse::new().add_attribute("method", "ibc_packet_timeout");
    assert(response@ =~= seq![("method"@, "ibc_packet_timeout"@)]);
    Ok(response)
}

} // verus!
