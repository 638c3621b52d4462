//! What an operation hands back: attributes that describe it, messages to
//! send on, and for a received packet the acknowledgement.

use vstd::prelude::*;
use vstd::string::*;

verus! {

/// A key and a value that describe a step of an operation.
#[derive(Clone, Debug, PartialEq, Eq)]
pub struct Attribute {
    pub key: String,
    pub value: String,
}

impl View for Attribute {
    type V = (Seq<char>, Seq<char>);

    open spec fn view(&self) -> (Seq<char>, Seq<char>) {
        (self.key@, self.value@)
    }
}

/// The attribute with this key and value.
pub fn attr(key: &str, value: &str) -> (attribute: Attribute)
    ensures
        attribute@ == (key@, value@),
{
    Attribute { key: String::from_str(key), value: String::from_str(value) }
}

/// The keys and values of `attributes`, in order.
pub open spec fn attribute_views(attributes: Seq<Attribute>) -> Seq<(Seq<char>, Seq<char>)> {
    Seq::new(attributes.len(), |i: int| attributes[i]@)
}

/// A call of a contract: its address and the encoded message for it. No
/// funds go with it.
#[derive(Clone, Debug, PartialEq, Eq)]
pub struct WasmExecute {
    pub contract_addr: String,
    pub msg: Vec<u8>,
}

impl View for WasmExecute {
    type V = (Seq<char>, Seq<u8>);

    open spec fn view(&self) -> (Seq<char>, Seq<u8>) {
        (self.contract_addr@, self.msg@)
    }
}

/// The addresses and bodies of `messages`, in order.
pub open spec fn message_views(messages: Seq<WasmExecute>) -> Seq<(Seq<char>, Seq<u8>)> {
    Seq::new(messages.len(), |i: int| messages[i]@)
}

/// What a response holds.
pub ghost struct ResponseView {
    pub attributes: Seq<(Seq<char>, Seq<char>)>,
    pub messages: Seq<(Seq<char>, Seq<u8>)>,
}

/// What a ledger operation hands back on success.
#[derive(Clone, Debug, PartialEq, Eq)]
pub struct Response {
    pub attributes: Vec<Attribute>,
    pub messages: Vec<WasmExecute>,
}

impl View for Response {
    type V = ResponseView;

    open spec fn view(&self) -> ResponseView {
        ResponseView {
            attributes: attribute_views(self.attributes@),
            messages: message_views(self.messages@),
        }
    }
}

impl Response {
    /// The response with no attribute and no message.
    pub fn new() -> (response: Self)
        ensures
            response@.attributes == Seq::<(Seq<char>, Seq<char>)>::empty(),
            response@.messages == Seq::<(Seq<char>, Seq<u8>)>::empty(),
    {
        let response = Response { attributes: Vec::new(), messages: Vec::new() };
        assert(response@.attributes =~= Seq::empty());
        assert(response@.messages =~= Seq::empty());
        response
    }

    /// This response with one more attribute at the end.
    pub fn add_attribute(self, key: &str, value: &str) -> (response: Self)
        ensures
            response@.attributes == self@.attributes.push((key@, value@)),
            response@.messages == self@.messages,
    {
        let mut response = self;
        response.attributes.push(attr(key, value));
        assert(response@.attributes =~= self@.attributes.push((key@, value@)));
        response
    }

    /// This response with one more message at the end.
    pub fn add_message(self, message: WasmExecute) -> (response: Self)
        ensures
            response@.attributes == self@.attributes,
            response@.messages == self@.messages.push(message@),
    {
        let mut response = self;
        response.messages.push(message);
        assert(response@.messages =~= self@.messages.push(message@));
        response
    }
}

/// What an acknowledgement holds.
pub ghost enum AckView {
    Result(Seq<u8>),
    Error(Seq<char>),
}

/// The acknowledgement of a received packet: success with opaque bytes, or
/// failure with the reason.
#[derive(Clone, Debug, PartialEq, Eq)]
pub enum Ack {
    Result(Vec<u8>),
    Error(String),
}

impl View for Ack {
    type V = AckView;

    open spec fn view(&self) -> AckView {
        match self {
            Ack::Result(bytes) => AckView::Result(bytes@),
            Ack::Error(reason) => AckView::Error(reason@),
        }
    }
}

/// The success acknowledgement: the one byte `1` in ASCII.
pub fn make_ack_success() -> (ack: Ack)
    ensures
        ack@ == AckView::Result(seq![49u8]),
{
    let mut bytes: Vec<u8> = Vec::new();
    bytes.push(49u8);
    assert(bytes@ =~= seq![49u8]);
    Ack::Result(bytes)
}

/// The failure acknowledgement that carries `err`.
pub fn make_ack_fail(err: String) -> (ack: Ack)
    ensures
        ack@ == AckView::Error(err@),
{
    Ack::Error(err)
}

/// What the response to a received packet holds.
pub ghost struct IbcReceiveResponseView {
    pub acknowledgement: Option<AckView>,
    pub attributes: Seq<(Seq<char>, Seq<char>)>,
    pub messages: Seq<(Seq<char>, Seq<u8>)>,
}

/// The response to a received packet.
#[derive(Clone, Debug, PartialEq, Eq)]
pub struct IbcReceiveResponse {
    /// Absent only while the response is being built.
    pub acknowledgement: Option<Ack>,
    pub attributes: Vec<Attribute>,
    pub messages: Vec<WasmExecute>,
}

impl View for IbcReceiveResponse {
    type V = IbcReceiveResponseView;

    open spec fn view(&self) -> IbcReceiveResponseView {
        IbcReceiveResponseView {
            acknowledgement: match self.acknowledgement {
                Some(ack) => Some(ack@),
                None => None,
            },
            attributes: attribute_views(self.attributes@),
            messages: message_views(self.messages@),
        }
    }
}

impl IbcReceiveResponse {
    /// The response with no acknowledgement yet, no attribute and no message.
    pub fn new() -> (response: Self)
        ensures
            response@.acknowledgement is None,
            response@.attributes == Seq::<(Seq<char>, Seq<char>)>::empty(),
            response@.messages == Seq::<(Seq<char>, Seq<u8>)>::empty(),
    {
        let response = IbcReceiveResponse {
            acknowledgement: None,
            attributes: Vec::new(),
            messages: Vec::new(),
        };
        assert(response@.attributes =~= Seq::empty());
        assert(response@.messages =~= Seq::empty());
        response
    }

    /// This response with one more attribute at the end.
    pub fn add_attribute(self, key: &str, value: &str) -> (response: Self)
        ensures
            response@.acknowledgement == self@.acknowledgement,
            response@.attributes == self@.attributes.push((key@, value@)),
            response@.messages == self@.messages,
    {
        let mut response = self;
        response.attributes.push(attr(key, value));
        assert(response@.attributes =~= self@.attributes.push((key@, value@)));
        response
    }

    /// This response with `messages` in place of its own.
    pub fn set_messages(self, messages: Vec<WasmExecute>) -> (response: Self)
        ensures
            response@.acknowledgement == self@.acknowledgement,
            response@.attributes == self@.attributes,
            response@.messages == message_views(messages@),
    {
        let mut response = self;
        response.messages = messages;
        response
    }

    /// This response with `ack` as its acknowledgement.
    pub fn set_ack(self, ack: Ack) -> (response: Self)
        ensures
            response@.acknowledgement == Some(ack@),
            response@.attributes == self@.attributes,
            response@.messages == self@.messages,
    {
        let mut response = self;
        response.acknowledgement = Some(ack);
        response
    }
}

/// The response to a step of a channel's life: attributes only.
#[derive(Clone, Debug, PartialEq, Eq)]
pub struct IbcBasicResponse {
    pub attributes: Vec<Attribute>,
}

impl View for IbcBasicResponse {
    type V = Seq<(Seq<char>, Seq<char>)>;

    open spec fn view(&self) -> Seq<(Seq<char>, Seq<char>)> {
        attribute_views(self.attributes@)
    }
}

impl IbcBasicResponse {
    /// The response with no attribute.
    pub fn new() -> (response: Self)
        ensures
            response@ == Seq::<(Seq<char>, Seq<char>)>::empty(),
    {
        let response = IbcBasicResponse { attributes: Vec::new() };
        assert(response@ =~= Seq::empty());
        response
    }

    /// This response with one more attribute at the end.
    pub fn add_attribute(self, key: &str, value: &str) -> (response: Self)
        ensures
            response@ == self@.push((key@, value@)),
    {
        let mut response = self;
        response.attributes.push(attr(key, value));
        assert(response@ =~= self@.push((key@, value@)));
        response
    }
}

} // verus!
