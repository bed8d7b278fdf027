//! Message and data types of the collection manager, together with their
//! mathematical models.
//!
//! Every executable type has a ghost counterpart (its [`View`]) built from
//! `Seq`, `int` and `Option`; the contracts of the whole crate are stated
//! over those models.

use vstd::prelude::*;

use crate::codec::decode_num_tokens;
use crate::codec::encode_num_tokens;
use crate::codec::spec_decode_num_tokens;
use crate::codec::spec_encode_num_tokens;
use crate::error::ContractError;
use crate::error::ErrorV;

verus! {

/// One quantity of a single denomination.
#[derive(Debug, PartialEq, Eq)]
pub struct Coin {
    pub denom: String,
    pub amount: u128,
}

/// Model of a [`Coin`]: the denomination's characters and the amount as an
/// unbounded integer.
#[verifier::ext_equal]
pub ghost struct CoinV {
    pub denom: Seq<char>,
    pub amount: int,
}

impl View for Coin {
    type V = CoinV;

    open spec fn view(&self) -> CoinV {
        CoinV { denom: self.denom@, amount: self.amount as int }
    }
}

impl DeepView for Coin {
    type V = CoinV;

    open spec fn deep_view(&self) -> CoinV {
        self.view()
    }
}

impl Clone for Coin {
    fn clone(&self) -> (c: Self)
        ensures
            c@ == self@,
    {
        Coin { denom: self.denom.clone(), amount: self.amount }
    }
}

/// The mutable configuration: who receives payments, and the price (if any)
/// asked for a mint.
#[derive(Debug, PartialEq, Eq)]
pub struct PaymentParams {
    pub beneficiary: String,
    pub mint_price: Option<Coin>,
}

/// Model of [`PaymentParams`].
#[verifier::ext_equal]
pub ghost struct PaymentParamsV {
    pub beneficiary: Seq<char>,
    pub mint_price: Option<CoinV>,
}

impl PaymentParamsV {
    /// The configuration invariant: a configured price is strictly positive.
    pub open spec fn valid(self) -> bool {
        match self.mint_price {
            Some(price) => price.amount > 0,
            None => true,
        }
    }
}

impl View for PaymentParams {
    type V = PaymentParamsV;

    open spec fn view(&self) -> PaymentParamsV {
        PaymentParamsV {
            beneficiary: self.beneficiary@,
            mint_price: match self.mint_price {
                Some(price) => Some(price@),
                None => None,
            },
        }
    }
}

impl DeepView for PaymentParams {
    type V = PaymentParamsV;

    open spec fn deep_view(&self) -> PaymentParamsV {
        self.view()
    }
}

impl Clone for PaymentParams {
    fn clone(&self) -> (c: Self)
        ensures
            c@ == self@,
    {
        PaymentParams {
            beneficiary: self.beneficiary.clone(),
            mint_price: match &self.mint_price {
                Some(price) => Some(price.clone()),
                None => None,
            },
        }
    }
}

impl PaymentParams {
    /// Accepts the configuration exactly when a configured price is
    /// strictly positive; a zero price is rejected before it is ever stored.
    pub fn validate(&self) -> (r: Result<(), ContractError>)
        ensures
            r matches Ok(_) <==> self@.valid(),
            !self@.valid() ==> (r matches Err(e) && e@ == ErrorV::ZeroPrice),
    {
        match &self.mint_price {
            Some(price) if price.amount == 0 => Err(ContractError::ZeroPrice),
            _ => Ok(()),
        }
    }
}

/// The inbound request that installs the first configuration.
#[derive(Debug, PartialEq, Eq)]
pub struct InstantiateMsg {
    pub payment_params: PaymentParams,
}

/// The operation forwarded to the downstream registry: a mint, carrying the
/// new item and its owner, or any other operation, which the manager treats
/// uniformly.
#[derive(Debug, PartialEq, Eq)]
pub enum CollectionExecuteMsg {
    Mint { token_id: String, owner: String, token_uri: Option<String> },
    Other,
}

/// Model of a [`CollectionExecuteMsg`].
#[verifier::ext_equal]
pub ghost enum CollectionMsgV {
    Mint { token_id: Seq<char>, owner: Seq<char>, token_uri: Option<Seq<char>> },
    Other,
}

impl View for CollectionExecuteMsg {
    type V = CollectionMsgV;

    open spec fn view(&self) -> CollectionMsgV {
        match self {
            CollectionExecuteMsg::Mint { token_id, owner, token_uri } => CollectionMsgV::Mint {
                token_id: token_id@,
                owner: owner@,
                token_uri: match token_uri {
                    Some(uri) => Some(uri@),
                    None => None,
                },
            },
            CollectionExecuteMsg::Other => CollectionMsgV::Other,
        }
    }
}

impl DeepView for CollectionExecuteMsg {
    type V = CollectionMsgV;

    open spec fn deep_view(&self) -> CollectionMsgV {
        self.view()
    }
}

/// The manager's execute surface: forward an operation to a collection.
#[derive(Debug, PartialEq, Eq)]
pub enum ExecuteMsg {
    PassThrough { collection: String, message: CollectionExecuteMsg },
}

/// The caller of an operation and the funds attached to it.
#[derive(Debug, PartialEq, Eq)]
pub struct MessageInfo {
    pub sender: String,
    pub funds: Vec<Coin>,
}

/// The manager's query surface.
#[derive(Debug, PartialEq, Eq)]
pub enum QueryMsg {
    GetPaymentParams,
}

/// Answer to [`QueryMsg::GetPaymentParams`].
#[derive(Debug, PartialEq, Eq)]
pub struct GetPaymentParamsResponse {
    pub payment_params: PaymentParams,
}

/// The privileged update surface.
#[derive(Debug, PartialEq, Eq)]
pub enum SudoMsg {
    UpdatePaymentParams(PaymentParams),
}

/// The upgrade-time migration request.
#[derive(Debug, PartialEq, Eq)]
pub struct MigrateMsg {
    pub payment_params: PaymentParams,
}

/// The record the downstream registry is expected to answer with: its item
/// count after the forwarded call.
#[derive(Debug, PartialEq, Eq)]
pub struct NameServiceExecuteMsgResponse {
    pub num_tokens: u64,
}

impl NameServiceExecuteMsgResponse {
    /// The record on the wire, in the downstream service's canonical
    /// rendering.
    pub fn to_json_vec(&self) -> (v: Vec<u8>)
        ensures
            v@ == spec_encode_num_tokens(self.num_tokens as int),
    {
        encode_num_tokens(self.num_tokens)
    }

    /// Reads the record back from wire bytes; anything but a well-formed
    /// record yields nothing.
    pub fn from_json_slice(data: &[u8]) -> (r: Option<Self>)
        ensures
            match spec_decode_num_tokens(data@) {
                Some(count) => r matches Some(resp) && resp.num_tokens == count,
                None => r is None,
            },
    {
        match decode_num_tokens(data) {
            Some(num_tokens) => Some(NameServiceExecuteMsgResponse { num_tokens }),
            None => None,
        }
    }
}

/// Completion of a forwarded call, as delivered by the host.
#[derive(Debug, PartialEq, Eq)]
pub enum SubMsgResult {
    Success(Option<Vec<u8>>),
    Failure(String),
}

/// Model of a [`SubMsgResult`].
#[verifier::ext_equal]
pub ghost enum SubMsgResultV {
    Success(Option<Seq<u8>>),
    Failure(Seq<char>),
}

impl View for SubMsgResult {
    type V = SubMsgResultV;

    open spec fn view(&self) -> SubMsgResultV {
        match self {
            SubMsgResult::Success(data) => SubMsgResultV::Success(
                match data {
                    Some(bytes) => Some(bytes@),
                    None => None,
                },
            ),
            SubMsgResult::Failure(reason) => SubMsgResultV::Failure(reason@),
        }
    }
}

impl DeepView for SubMsgResult {
    type V = SubMsgResultV;

    open spec fn deep_view(&self) -> SubMsgResultV {
        self.view()
    }
}

/// The asynchronous completion of a previously forwarded call, keyed by the
/// correlation ticket it was sent out with.
#[derive(Debug, PartialEq, Eq)]
pub struct Reply {
    pub id: u64,
    pub result: SubMsgResult,
}

/// Model of a [`Reply`].
#[verifier::ext_equal]
pub ghost struct ReplyV {
    pub id: u64,
    pub result: SubMsgResultV,
}

impl View for Reply {
    type V = ReplyV;

    open spec fn view(&self) -> ReplyV {
        ReplyV { id: self.id, result: self.result@ }
    }
}

impl DeepView for Reply {
    type V = ReplyV;

    open spec fn deep_view(&self) -> ReplyV {
        self.view()
    }
}

} // verus!
