//! The effects an operation returns to the host, and their models.
//!
//! An operation's outcome is a [`Response`]: bank transfers to perform,
//! calls to forward (each tagged with a correlation ticket), and
//! observation events.  The host applies a response atomically — all of it
//! or none.

use vstd::prelude::*;

use crate::error::ContractError;
use crate::error::ErrorV;
use crate::msg::Coin;
use crate::msg::CoinV;
use crate::msg::CollectionExecuteMsg;
use crate::msg::CollectionMsgV;

verus! {

/// One key/value pair of an observation event.
#[derive(Debug, PartialEq, Eq)]
pub struct Attribute {
    pub key: String,
    pub value: String,
}

/// Model of an [`Attribute`].
#[verifier::ext_equal]
pub ghost struct AttributeV {
    pub key: Seq<char>,
    pub value: Seq<char>,
}

impl View for Attribute {
    type V = AttributeV;

    open spec fn view(&self) -> AttributeV {
        AttributeV { key: self.key@, value: self.value@ }
    }
}

impl DeepView for Attribute {
    type V = AttributeV;

    open spec fn deep_view(&self) -> AttributeV {
        self.view()
    }
}

/// A structured observation record attached to a successful outcome.
#[derive(Debug, PartialEq, Eq)]
pub struct Event {
    pub ty: String,
    pub attributes: Vec<Attribute>,
}

/// Model of an [`Event`].
#[verifier::ext_equal]
pub ghost struct EventV {
    pub ty: Seq<char>,
    pub attributes: Seq<AttributeV>,
}

impl View for Event {
    type V = EventV;

    open spec fn view(&self) -> EventV {
        EventV { ty: self.ty@, attributes: self.attributes.deep_view() }
    }
}

impl DeepView for Event {
    type V = EventV;

    open spec fn deep_view(&self) -> EventV {
        self.view()
    }
}

/// An unconditional transfer of funds to one recipient, performed by the
/// host's bank module.
#[derive(Debug, PartialEq, Eq)]
pub struct BankMsg {
    pub to_address: String,
    pub amount: Vec<Coin>,
}

/// Model of a [`BankMsg`].
#[verifier::ext_equal]
pub ghost struct BankMsgV {
    pub to_address: Seq<char>,
    pub amount: Seq<CoinV>,
}

impl View for BankMsg {
    type V = BankMsgV;

    open spec fn view(&self) -> BankMsgV {
        BankMsgV { to_address: self.to_address@, amount: self.amount.deep_view() }
    }
}

impl DeepView for BankMsg {
    type V = BankMsgV;

    open spec fn deep_view(&self) -> BankMsgV {
        self.view()
    }
}

/// A call forwarded to the downstream registry, tagged with the correlation
/// ticket under which its completion will come back.
#[derive(Debug, PartialEq, Eq)]
pub struct SubMsg {
    pub id: u64,
    pub contract_addr: String,
    pub message: CollectionExecuteMsg,
    pub funds: Vec<Coin>,
    pub reply_on_success: bool,
}

/// Model of a [`SubMsg`].
#[verifier::ext_equal]
pub ghost struct SubMsgV {
    pub id: u64,
    pub contract_addr: Seq<char>,
    pub message: CollectionMsgV,
    pub funds: Seq<CoinV>,
    pub reply_on_success: bool,
}

impl View for SubMsg {
    type V = SubMsgV;

    open spec fn view(&self) -> SubMsgV {
        SubMsgV {
            id: self.id,
            contract_addr: self.contract_addr@,
            message: self.message@,
            funds: self.funds.deep_view(),
            reply_on_success: self.reply_on_success,
        }
    }
}

impl DeepView for SubMsg {
    type V = SubMsgV;

    open spec fn deep_view(&self) -> SubMsgV {
        self.view()
    }
}

/// Everything one operation hands back to the host, as one atomic unit.
#[derive(Debug, PartialEq, Eq)]
pub struct Response {
    pub messages: Vec<BankMsg>,
    pub sub_msgs: Vec<SubMsg>,
    pub events: Vec<Event>,
}

/// Model of a [`Response`].
#[verifier::ext_equal]
pub ghost struct ResponseV {
    pub messages: Seq<BankMsgV>,
    pub sub_msgs: Seq<SubMsgV>,
    pub events: Seq<EventV>,
}

impl ResponseV {
    /// The outcome that carries no effect at all.
    pub open spec fn empty() -> ResponseV {
        ResponseV { messages: Seq::empty(), sub_msgs: Seq::empty(), events: Seq::empty() }
    }
}

impl View for Response {
    type V = ResponseV;

    open spec fn view(&self) -> ResponseV {
        ResponseV {
            messages: self.messages.deep_view(),
            sub_msgs: self.sub_msgs.deep_view(),
            events: self.events.deep_view(),
        }
    }
}

impl DeepView for Response {
    type V = ResponseV;

    open spec fn deep_view(&self) -> ResponseV {
        self.view()
    }
}

impl Response {
    /// A response with no effects.
    pub fn new_empty() -> (r: Response)
        ensures
            r@ == ResponseV::empty(),
    {
        let r = Response { messages: Vec::new(), sub_msgs: Vec::new(), events: Vec::new() };
        proof {
            assert(r@ =~~= ResponseV::empty());
        }
        r
    }
}

/// The model of an operation outcome: the response's model on success, the
/// error's model on failure.
pub open spec fn response_result_view(r: Result<Response, ContractError>) -> Result<
    ResponseV,
    ErrorV,
> {
    match r {
        Ok(response) => Ok(response@),
        Err(e) => Err(e@),
    }
}

/// The model of a fee-reconciliation outcome: the transfers' models on
/// success, the error's model on failure.
pub open spec fn bank_result_view(r: Result<Vec<BankMsg>, ContractError>) -> Result<
    Seq<BankMsgV>,
    ErrorV,
> {
    match r {
        Ok(msgs) => Ok(msgs.deep_view()),
        Err(e) => Err(e@),
    }
}

} // verus!
