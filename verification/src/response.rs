//! What a successful command hands back to the host: attributes that tell
//! what was done, and messages that the host is to deliver.

use vstd::prelude::*;
use crate::state::{Coin, CoinView};

verus! {

/// A key and a value that tell of one thing that a command did.
#[derive(Debug, PartialEq, Eq)]
pub struct EventAttribute {
    pub key: String,
    pub value: String,
}

impl View for EventAttribute {
    type V = (Seq<char>, Seq<char>);

    open spec fn view(&self) -> (Seq<char>, Seq<char>) {
        (self.key@, self.value@)
    }
}

impl EventAttribute {
    /// The attribute of this key and value.
    pub fn new(key: &str, value: &str) -> (a: Self)
        ensures
            a@ == (key@, value@),
    {
        EventAttribute { key: key.to_string(), value: value.to_string() }
    }
}

/// What the host is asked to do after a command.
#[derive(Debug, PartialEq, Eq)]
pub enum HostMsg {
    /// Tell `contract` that `sender` has sent it the token, and pass `msg` on.
    ReceiveNft { contract: String, sender: String, token_id: String, msg: Vec<u8> },
    /// Pay `amount` out of the registry's funds to `to_address`.
    Send { to_address: String, amount: Coin },
}

/// `HostMsg` as a mathematical value.
pub enum HostMsgView {
    ReceiveNft { contract: Seq<char>, sender: Seq<char>, token_id: Seq<char>, msg: Seq<u8> },
    Send { to_address: Seq<char>, amount: CoinView },
}

impl View for HostMsg {
    type V = HostMsgView;

    open spec fn view(&self) -> HostMsgView {
        match self {
            HostMsg::ReceiveNft { contract, sender, token_id, msg } => HostMsgView::ReceiveNft {
                contract: contract@,
                sender: sender@,
                token_id: token_id@,
                msg: msg@,
            },
            HostMsg::Send { to_address, amount } => HostMsgView::Send {
                to_address: to_address@,
                amount: amount@,
            },
        }
    }
}

/// The answer to a command that was carried out.
#[derive(Debug, PartialEq, Eq)]
pub struct Response {
    pub messages: Vec<HostMsg>,
    pub attributes: Vec<EventAttribute>,
}

/// `Response` as a mathematical value.
#[verifier::ext_equal]
pub struct ResponseView {
    pub messages: Seq<HostMsgView>,
    pub attributes: Seq<(Seq<char>, Seq<char>)>,
}

impl View for Response {
    type V = ResponseView;

    open spec fn view(&self) -> ResponseView {
        ResponseView {
            messages: Seq::new(self.messages@.len(), |i: int| self.messages@[i]@),
            attributes: Seq::new(self.attributes@.len(), |i: int| self.attributes@[i]@),
        }
    }
}

impl ResponseView {
    /// The answer without messages and attributes.
    pub open spec fn empty() -> ResponseView {
        ResponseView { messages: Seq::empty(), attributes: Seq::empty() }
    }

    /// The answer with one more attribute at the end.
    pub open spec fn add_attribute(self, key: Seq<char>, value: Seq<char>) -> ResponseView {
        ResponseView { messages: self.messages, attributes: self.attributes.push((key, value)) }
    }

    /// The answer with more attributes at the end.
    pub open spec fn add_attributes(self, more: Seq<(Seq<char>, Seq<char>)>) -> ResponseView {
        ResponseView { messages: self.messages, attributes: self.attributes + more }
    }

    /// The answer with one more message at the end.
    pub open spec fn add_message(self, msg: HostMsgView) -> ResponseView {
        ResponseView { messages: self.messages.push(msg), attributes: self.attributes }
    }
}

impl Response {
    /// The answer without messages and attributes.
    pub fn new() -> (r: Self)
        ensures
            r@ == ResponseView::empty(),
    {
        let r = Response { messages: Vec::new(), attributes: Vec::new() };
        assert(r@.messages =~= Seq::empty());
        assert(r@.attributes =~= Seq::empty());
        r
    }

    /// The answer with one more attribute at the end.
    pub fn add_attribute(self, key: &str, value: &str) -> (r: Self)
        ensures
            r@ == self@.add_attribute(key@, value@),
    {
        let mut r = self;
        r.attributes.push(EventAttribute::new(key, value));
        assert(r@.attributes =~= self@.attributes.push((key@, value@)));
        assert(r@.messages =~= self@.messages);
        r
    }

    /// The answer with more attributes at the end.
    pub fn add_attributes(self, more: Vec<EventAttribute>) -> (r: Self)
        ensures
            r@ == self@.add_attributes(Seq::new(more@.len(), |i: int| more@[i]@)),
    {
        let mut r = self;
        let mut rest = more;
        r.attributes.append(&mut rest);
        assert(r@.attributes =~= self@.attributes + Seq::new(
            more@.len(),
            |i: int| more@[i]@,
        ));
        assert(r@.messages =~= self@.messages);
        r
    }

    /// The answer with one more message at the end.
    pub fn add_message(self, msg: HostMsg) -> (r: Self)
        ensures
            r@ == self@.add_message(msg@),
    {
        let mut r = self;
        r.messages.push(msg);
        assert(r@.messages =~= self@.messages.push(msg@));
        assert(r@.attributes =~= self@.attributes);
        r
    }
}

} // verus!
