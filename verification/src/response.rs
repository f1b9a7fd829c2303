//! What the ledger hands back from a call: the transfers that the host is
//! to carry out, and attributes that describe what was done.

use vstd::prelude::*;
use crate::msg::{coins_view, Coin, CoinView};

verus! {

/// An instruction to the bank.
#[derive(Clone, Debug, PartialEq, Eq)]
pub enum BankMsg {
    /// Sends `amount` from the ledger's holdings to `to_address`.
    Send { to_address: String, amount: Vec<Coin> },
}

/// A [`BankMsg`] as contracts speak of it.
#[verifier::ext_equal]
pub struct BankMsgView {
    pub to_address: Seq<char>,
    pub amount: Seq<CoinView>,
}

impl View for BankMsg {
    type V = BankMsgView;

    open spec fn view(&self) -> BankMsgView {
        match *self {
            BankMsg::Send { to_address, amount } => BankMsgView {
                to_address: to_address@,
                amount: coins_view(amount@),
            },
        }
    }
}

/// A key and a value that describe a call.
#[derive(Clone, Debug, PartialEq, Eq)]
pub struct Attribute {
    pub key: String,
    pub value: String,
}

/// An [`Attribute`] as contracts speak of it.
pub struct AttributeView {
    pub key: Seq<char>,
    pub value: Seq<char>,
}

impl View for Attribute {
    type V = AttributeView;

    open spec fn view(&self) -> AttributeView {
        AttributeView { key: self.key@, value: self.value@ }
    }
}

/// The result of a call that went through.
#[derive(Clone, Debug, PartialEq, Eq)]
pub struct Response {
    /// The transfers to carry out, in order.
    pub messages: Vec<BankMsg>,
    /// What was done, for whoever observes the call.
    pub attributes: Vec<Attribute>,
}

/// A [`Response`] as contracts speak of it.
#[verifier::ext_equal]
pub struct ResponseView {
    pub messages: Seq<BankMsgView>,
    pub attributes: Seq<AttributeView>,
}

impl View for Response {
    type V = ResponseView;

    open spec fn view(&self) -> ResponseView {
        ResponseView {
            messages: Seq::new(self.messages@.len(), |i: int| self.messages@[i]@),
            attributes: Seq::new(self.attributes@.len(), |i: int| self.attributes@[i]@),
        }
    }
}

impl Response {
    /// A response with no transfer and no attribute.
    pub fn new() -> (response: Response)
        ensures
            response@ == (ResponseView { messages: seq![], attributes: seq![] }),
    {
        Response { messages: Vec::new(), attributes: Vec::new() }
    }

    /// This response with one more attribute at the end.
    pub fn add_attribute(self, key: String, value: String) -> (response: Response)
        ensures
            response@ == (ResponseView {
                messages: self@.messages,
                attributes: self@.attributes.push(AttributeView { key: key@, value: value@ }),
            }),
    {
        let mut response = self;
        response.attributes.push(Attribute { key, value });
        response
    }

    /// This response with one more transfer at the end.
    pub fn add_message(self, msg: BankMsg) -> (response: Response)
        ensures
            response@ == (ResponseView {
                messages: self@.messages.push(msg@),
                attributes: self@.attributes,
            }),
    {
        let mut response = self;
        response.messages.push(msg);
        response
    }
}

} // verus!
