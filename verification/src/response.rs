//! What a successful operation hands back: instructions for the host to
//! carry out and attributes that describe what was done.

use vstd::prelude::*;
use vstd::string::StringExecFns;

use crate::funds::{coins_view, Coin, CoinView};

verus! {

/// A key and a value that describe one aspect of what was done.
#[derive(Clone, Debug, PartialEq, Eq)]
pub struct Attribute {
    pub key: String,
    pub value: String,
}

/// The mathematical value of an [`Attribute`].
pub struct AttributeView {
    pub key: Seq<char>,
    pub value: Seq<char>,
}

impl View for Attribute {
    type V = AttributeView;

    open spec fn view(&self) -> AttributeView {
        AttributeView { key: self.key@, value: self.value@ }
    }
}

/// An instruction to the host's bank.
#[derive(Clone, Debug, PartialEq, Eq)]
pub enum BankMsg {
    /// Transfer `amount` from the ledger's custody to `to_address`.
    Send { to_address: String, amount: Vec<Coin> },
}

/// The mathematical value of a [`BankMsg`].
pub enum BankMsgView {
    Send { to_address: Seq<char>, amount: Seq<CoinView> },
}

impl View for BankMsg {
    type V = BankMsgView;

    open spec fn view(&self) -> BankMsgView {
        match self {
            BankMsg::Send { to_address, amount } => BankMsgView::Send {
                to_address: to_address@,
                amount: coins_view(amount@),
            },
        }
    }
}

/// The outcome of a successful operation.
#[derive(Clone, Debug, PartialEq, Eq)]
pub struct Response {
    /// Instructions for the host, in the order in which to carry them out.
    pub messages: Vec<BankMsg>,
    /// Attributes, in the order in which they were added.
    pub attributes: Vec<Attribute>,
}

/// The mathematical value of a [`Response`].
pub struct ResponseView {
    pub messages: Seq<BankMsgView>,
    pub attributes: Seq<AttributeView>,
}

impl View for Response {
    type V = ResponseView;

    open spec fn view(&self) -> ResponseView {
        ResponseView {
            messages: self.messages@.map_values(|m: BankMsg| m@),
            attributes: self.attributes@.map_values(|a: Attribute| a@),
        }
    }
}

/// The attribute `key=value`.
pub open spec fn attr(key: Seq<char>, value: Seq<char>) -> AttributeView {
    AttributeView { key, value }
}

/// A response that carries only attributes.
pub open spec fn plain_response(attributes: Seq<AttributeView>) -> ResponseView {
    ResponseView { messages: Seq::empty(), attributes }
}

impl Response {
    /// The response with no instruction and no attribute.
    pub fn new() -> (response: Response)
        ensures
            response@ == plain_response(Seq::empty()),
    {
        let response = Response { messages: Vec::new(), attributes: Vec::new() };
        assert(response@.messages =~= Seq::empty());
        assert(response@.attributes =~= Seq::empty());
        response
    }

    /// Adds `msg` after the instructions already there.
    pub fn add_message(self, msg: BankMsg) -> (response: Response)
        ensures
            response@ == (ResponseView { messages: self@.messages.push(msg@), ..self@ }),
    {
        let mut response = self;
        response.messages.push(msg);
        assert(response@.messages =~= self@.messages.push(msg@));
        assert(response@.attributes =~= self@.attributes);
        response
    }

    /// Adds the attribute `key=value` after the attributes already there.
    pub fn add_attribute(self, key: &str, value: String) -> (response: Response)
        ensures
            response@ == (ResponseView {
                attributes: self@.attributes.push(attr(key@, value@)),
                ..self@
            }),
    {
        let mut response = self;
        response.attributes.push(Attribute { key: String::from_str(key), value });
        assert(response@.attributes =~= self@.attributes.push(attr(key@, value@)));
        assert(response@.messages =~= self@.messages);
        response
    }
}

} // verus!
