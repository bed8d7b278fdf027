//! The manager's operation surface.
//!
//! Five operations exist: installing the first configuration, forwarding
//! an operation to a collection (with fee reconciliation and a pre-call
//! count observation), handling the forwarded call's asynchronous
//! completion, reading the configuration, and replacing it (privileged
//! update or upgrade-time migration).  Each executable entry point is
//! pinned to a constructive model function; the host around the library
//! only moves bytes and persists what an operation left in the store.

use vstd::prelude::*;
use vstd::slice::slice_subrange;

use crate::codec::dec_str;
use crate::codec::spec_decode_num_tokens;
use crate::codec::u128_to_dec_string;
use crate::codec::u64_to_dec_string;
use crate::error::ContractError;
use crate::error::ErrorV;
use crate::msg::CoinV;
use crate::msg::CollectionExecuteMsg;
use crate::msg::CollectionMsgV;
use crate::msg::ExecuteMsg;
use crate::msg::GetPaymentParamsResponse;
use crate::msg::InstantiateMsg;
use crate::msg::MessageInfo;
use crate::msg::MigrateMsg;
use crate::msg::NameServiceExecuteMsgResponse;
use crate::msg::PaymentParams;
use crate::msg::PaymentParamsV;
use crate::msg::QueryMsg;
use crate::msg::Reply;
use crate::msg::SubMsgResult;
use crate::msg::SubMsgResultV;
use crate::msg::SudoMsg;
use crate::reconcile::funds_fit;
use crate::reconcile::handle_pre_mint_funds;
use crate::reconcile::spec_handle_pre_mint;
use crate::reconcile::spec_refund_all;
use crate::response::response_result_view;
use crate::response::Attribute;
use crate::response::AttributeV;
use crate::response::BankMsg;
use crate::response::Event;
use crate::response::EventV;
use crate::response::Response;
use crate::response::ResponseV;
use crate::response::SubMsg;
use crate::response::SubMsgV;
use crate::state::ConfigStore;

verus! {

/// How many framing bytes the host prepends to an inner completion
/// payload before delivering it.
pub const REPLY_PREFIX_LEN: usize = 2;

/// The classes of in-flight forwarded calls; the ticket under which a
/// completion is routed back.  One class exists today.
#[derive(Debug, PartialEq, Eq)]
pub enum ReplyCode {
    PassThrough,
}

impl ReplyCode {
    /// The wire value of this ticket.
    pub open spec fn spec_id(self) -> u64 {
        match self {
            ReplyCode::PassThrough => 1u64,
        }
    }

    /// The wire value of this ticket.
    pub fn id(self) -> (r: u64)
        ensures
            r == self.spec_id(),
    {
        match self {
            ReplyCode::PassThrough => 1,
        }
    }

    /// Routes a completion's ticket back to its class; an unknown ticket
    /// is a host/protocol inconsistency.
    pub fn try_from_id(id: u64) -> (r: Result<ReplyCode, ContractError>)
        ensures
            match r {
                Ok(code) => code == ReplyCode::PassThrough && id == 1,
                Err(e) => id != 1 && e@ == (ErrorV::UnknownCorrelation { ticket: id }),
            },
    {
        if id == 1 {
            Ok(ReplyCode::PassThrough)
        } else {
            Err(ContractError::UnknownCorrelation { ticket: id })
        }
    }
}

/// The name every observation event of the manager carries.
pub open spec fn manager_event_name() -> Seq<char> {
    "my-collection-manager"@
}

/// The attributes reporting an installed configuration: the beneficiary,
/// then the price's denomination and amount, or an explicit "none" marker
/// when no price is configured.
pub open spec fn params_attributes(params: PaymentParamsV) -> Seq<AttributeV> {
    seq![
        AttributeV { key: "update-payment-params-beneficiary"@, value: params.beneficiary },
    ] + match params.mint_price {
        None => seq![
            AttributeV { key: "update-payment-params-mint-price"@, value: "none"@ },
        ],
        Some(price) => seq![
            AttributeV { key: "update-payment-params-mint-price-denom"@, value: price.denom },
            AttributeV {
                key: "update-payment-params-mint-price-amount"@,
                value: dec_str(price.amount),
            },
        ],
    }
}

/// Installing a configuration: a valid one is accepted and reported in a
/// change event; one carrying a zero price is rejected.
pub open spec fn spec_install(params: PaymentParamsV) -> Result<ResponseV, ErrorV> {
    if params.valid() {
        Ok(
            ResponseV {
                messages: Seq::empty(),
                sub_msgs: Seq::empty(),
                events: seq![
                    EventV { ty: manager_event_name(), attributes: params_attributes(params) },
                ],
            },
        )
    } else {
        Err(ErrorV::ZeroPrice)
    }
}

/// What the store holds after an installation attempt: the new record on
/// success, the old state untouched on rejection.
pub open spec fn spec_store_after_install(
    store: Option<PaymentParamsV>,
    params: PaymentParamsV,
) -> Option<PaymentParamsV> {
    if params.valid() {
        Some(params)
    } else {
        store
    }
}

/// Law: installing the same configuration twice is idempotent — the
/// second installation leaves exactly the store the first one produced.
/// (The reported outcome is the same both times as well: `spec_install`
/// is a function of the new configuration alone.)
pub proof fn lemma_install_idempotent(store: Option<PaymentParamsV>, params: PaymentParamsV)
    ensures
        spec_store_after_install(spec_store_after_install(store, params), params)
            == spec_store_after_install(store, params),
{
}

/// Migration: like an installation, with the software version recorded
/// ahead of the configuration attributes.
pub open spec fn spec_migrate(params: PaymentParamsV, version: Seq<char>) -> Result<
    ResponseV,
    ErrorV,
> {
    if params.valid() {
        Ok(
            ResponseV {
                messages: Seq::empty(),
                sub_msgs: Seq::empty(),
                events: seq![
                    EventV {
                        ty: manager_event_name(),
                        attributes: seq![
                            AttributeV { key: "update-contract-version"@, value: version },
                        ] + params_attributes(params),
                    },
                ],
            },
        )
    } else {
        Err(ErrorV::ZeroPrice)
    }
}

/// Forwarding an operation: a mint runs the fee reconciler first and
/// aborts wholesale on its error; any other operation returns all
/// attached funds.  On success the response carries the transfers, the
/// forwarded call — with zero attached funds, tagged with the
/// pass-through ticket, reporting only successful completion — and the
/// pre-call count observation.
pub open spec fn spec_pass_through(
    store: Option<PaymentParamsV>,
    sender: Seq<char>,
    funds: Seq<CoinV>,
    collection: Seq<char>,
    message: CollectionMsgV,
    token_count: u64,
) -> Result<ResponseV, ErrorV> {
    let fee = if message is Mint {
        spec_handle_pre_mint(store, funds, sender)
    } else {
        Ok(spec_refund_all(funds, sender))
    };
    match fee {
        Err(e) => Err(e),
        Ok(bank_msgs) => Ok(
            ResponseV {
                messages: bank_msgs,
                sub_msgs: seq![
                    SubMsgV {
                        id: ReplyCode::PassThrough.spec_id(),
                        contract_addr: collection,
                        message: message,
                        funds: Seq::empty(),
                        reply_on_success: true,
                    },
                ],
                events: seq![
                    EventV {
                        ty: manager_event_name(),
                        attributes: seq![
                            AttributeV {
                                key: "token-count-before"@,
                                value: dec_str(token_count as int),
                            },
                        ],
                    },
                ],
            },
        ),
    }
}

/// Handling a completion of the pass-through class: a failure propagates
/// verbatim; an absent or undecodable payload degrades to an empty
/// outcome; a decodable payload yields the post-call count observation.
pub open spec fn spec_reply_pass_through(result: SubMsgResultV) -> Result<ResponseV, ErrorV> {
    match result {
        SubMsgResultV::Failure(reason) => Err(ErrorV::Std { msg: reason }),
        SubMsgResultV::Success(None) => Ok(ResponseV::empty()),
        SubMsgResultV::Success(Some(data)) => if data.len() < REPLY_PREFIX_LEN as int {
            Ok(ResponseV::empty())
        } else {
            match spec_decode_num_tokens(data.skip(REPLY_PREFIX_LEN as int)) {
                None => Ok(ResponseV::empty()),
                Some(count) => Ok(
                    ResponseV {
                        messages: Seq::empty(),
                        sub_msgs: Seq::empty(),
                        events: seq![
                            EventV {
                                ty: manager_event_name(),
                                attributes: seq![
                                    AttributeV {
                                        key: "token-count-after"@,
                                        value: dec_str(count as int),
                                    },
                                ],
                            },
                        ],
                    },
                ),
            }
        },
    }
}

/// Law: a completion payload never fails the reply — whatever bytes came
/// back, a truncated or corrupted payload degrades to "no observation",
/// never to an error.
pub proof fn lemma_reply_payload_never_errs(data: Seq<u8>)
    ensures
        spec_reply_pass_through(SubMsgResultV::Success(Some(data))) is Ok,
{
}

/// Law: a correctly framed payload carrying a count produces exactly the
/// post-call observation of that count, whatever the two framing bytes
/// hold.
pub proof fn lemma_reply_framed_round_trip(count: u64, framing: Seq<u8>)
    requires
        framing.len() == REPLY_PREFIX_LEN as int,
    ensures
        spec_reply_pass_through(
            SubMsgResultV::Success(Some(framing + crate::codec::spec_encode_num_tokens(count as int))),
        ) == Ok::<ResponseV, ErrorV>(
            ResponseV {
                messages: Seq::empty(),
                sub_msgs: Seq::empty(),
                events: seq![
                    EventV {
                        ty: manager_event_name(),
                        attributes: seq![
                            AttributeV { key: "token-count-after"@, value: dec_str(count as int) },
                        ],
                    },
                ],
            },
        ),
{
    let encoded = crate::codec::spec_encode_num_tokens(count as int);
    let data = framing + encoded;
    assert(data.skip(REPLY_PREFIX_LEN as int) =~= encoded);
    crate::codec::lemma_encode_decode_round_trip(count);
}

/// A completion routed by its ticket: an unrecognized ticket fails
/// fatally, the pass-through class is handled above.
pub open spec fn spec_reply(reply: crate::msg::ReplyV) -> Result<ResponseV, ErrorV> {
    if reply.id != ReplyCode::PassThrough.spec_id() {
        Err(ErrorV::UnknownCorrelation { ticket: reply.id })
    } else {
        spec_reply_pass_through(reply.result)
    }
}

/// The machine-limit bound a forward request runs under: for a mint, the
/// aggregate of the attached funds in the price's denomination must fit
/// the coin's amount type.
pub open spec fn execute_fits(
    store: Option<PaymentParamsV>,
    funds: Seq<CoinV>,
    msg: ExecuteMsg,
) -> bool {
    match msg {
        ExecuteMsg::PassThrough { collection: _, message } => message@ is Mint ==> funds_fit(
            store,
            funds,
        ),
    }
}

/// Appends the configuration-change attributes to an event.
pub fn append_payment_params_attributes(my_event: Event, payment_params: &PaymentParams) -> (r:
    Event)
    ensures
        r@.ty == my_event@.ty,
        r@.attributes == my_event@.attributes + params_attributes(payment_params@),
{
    let ghost entry = my_event@;
    let mut my_event = my_event;
    my_event.attributes.push(
        Attribute {
            key: "update-payment-params-beneficiary".to_owned(),
            value: payment_params.beneficiary.clone(),
        },
    );
    match &payment_params.mint_price {
        None => {
            my_event.attributes.push(
                Attribute {
                    key: "update-payment-params-mint-price".to_owned(),
                    value: "none".to_owned(),
                },
            );
        },
        Some(price) => {
            my_event.attributes.push(
                Attribute {
                    key: "update-payment-params-mint-price-denom".to_owned(),
                    value: price.denom.clone(),
                },
            );
            my_event.attributes.push(
                Attribute {
                    key: "update-payment-params-mint-price-amount".to_owned(),
                    value: u128_to_dec_string(price.amount),
                },
            );
        },
    }
    proof {
        assert(my_event@.attributes =~~= entry.attributes + params_attributes(payment_params@));
    }
    my_event
}

fn install_payment_params(store: &mut ConfigStore, payment_params: PaymentParams) -> (r: Result<
    Response,
    ContractError,
>)
    ensures
        response_result_view(r) == spec_install(payment_params@),
        final(store)@ == spec_store_after_install(old(store)@, payment_params@),
        payment_params@.valid() ==> final(store).payment_params == Some(payment_params),
{
    match payment_params.validate() {
        Err(e) => Err(e),
        Ok(_) => {
            let ghost paramsv = payment_params@;
            let event = Event { ty: "my-collection-manager".to_owned(), attributes: Vec::new() };
            let event = append_payment_params_attributes(event, &payment_params);
            store.save(payment_params);
            let response = Response {
                messages: Vec::new(),
                sub_msgs: Vec::new(),
                events: vec![event],
            };
            proof {
                assert(Seq::<AttributeV>::empty() + params_attributes(paramsv) =~= params_attributes(
                    paramsv,
                ));
                assert(response@ =~~= ResponseV {
                    messages: Seq::empty(),
                    sub_msgs: Seq::empty(),
                    events: seq![
                        EventV { ty: manager_event_name(), attributes: params_attributes(paramsv) },
                    ],
                });
            }
            Ok(response)
        },
    }
}

/// Installs the first configuration at system initialization.
pub fn instantiate(store: &mut ConfigStore, msg: InstantiateMsg) -> (r: Result<
    Response,
    ContractError,
>)
    ensures
        response_result_view(r) == spec_install(msg.payment_params@),
        final(store)@ == spec_store_after_install(old(store)@, msg.payment_params@),
        msg.payment_params@.valid() ==> final(store).payment_params == Some(msg.payment_params),
{
    install_payment_params(store, msg.payment_params)
}

/// Dispatches an execute request.
pub fn execute(store: &ConfigStore, info: MessageInfo, msg: ExecuteMsg, token_count: u64) -> (r:
    Result<Response, ContractError>)
    requires
        execute_fits(store@, info.funds.deep_view(), msg),
    ensures
        msg matches ExecuteMsg::PassThrough { collection, message } ==> response_result_view(r)
            == spec_pass_through(
            store@,
            info.sender@,
            info.funds.deep_view(),
            collection@,
            message@,
            token_count,
        ),
{
    match msg {
        ExecuteMsg::PassThrough { collection, message } => execute_pass_through(
            store,
            info,
            collection,
            message,
            token_count,
        ),
    }
}

/// Forwards one operation: reconciles or refunds the attached funds,
/// forwards the inner operation with zero funds under the pass-through
/// ticket, and records the pre-call count observation.
pub fn execute_pass_through(
    store: &ConfigStore,
    info: MessageInfo,
    collection: String,
    message: CollectionExecuteMsg,
    token_count: u64,
) -> (r: Result<Response, ContractError>)
    requires
        message@ is Mint ==> funds_fit(store@, info.funds.deep_view()),
    ensures
        response_result_view(r) == spec_pass_through(
            store@,
            info.sender@,
            info.funds.deep_view(),
            collection@,
            message@,
            token_count,
        ),
{
    let ghost fundsv = info.funds.deep_view();
    let ghost collectionv = collection@;
    let ghost messagev = message@;
    let is_mint = match &message {
        CollectionExecuteMsg::Mint { .. } => true,
        CollectionExecuteMsg::Other => false,
    };
    proof {
        assert(is_mint == (messagev is Mint));
    }
    let bank_msgs: Vec<BankMsg> = if is_mint {
        match handle_pre_mint_funds(store, &info) {
            Err(e) => {
                return Err(e);
            },
            Ok(msgs) => msgs,
        }
    } else if info.funds.len() > 0 {
        let to_address = info.sender.clone();
        let mut msgs: Vec<BankMsg> = Vec::new();
        msgs.push(BankMsg { to_address, amount: info.funds });
        proof {
            assert(msgs.deep_view() =~~= spec_refund_all(fundsv, info.sender@));
        }
        msgs
    } else {
        let msgs: Vec<BankMsg> = Vec::new();
        proof {
            assert(msgs.deep_view() =~~= spec_refund_all(fundsv, info.sender@));
        }
        msgs
    };
    let sub_msg = SubMsg {
        id: ReplyCode::PassThrough.id(),
        contract_addr: collection,
        message,
        funds: Vec::new(),
        reply_on_success: true,
    };
    let event = Event {
        ty: "my-collection-manager".to_owned(),
        attributes: vec![
            Attribute { key: "token-count-before".to_owned(), value: u64_to_dec_string(token_count) },
        ],
    };
    let response = Response { messages: bank_msgs, sub_msgs: vec![sub_msg], events: vec![event] };
    proof {
        assert(response@.sub_msgs =~~= seq![
            SubMsgV {
                id: ReplyCode::PassThrough.spec_id(),
                contract_addr: collectionv,
                message: messagev,
                funds: Seq::empty(),
                reply_on_success: true,
            },
        ]);
        assert(response@.events =~~= seq![
            EventV {
                ty: manager_event_name(),
                attributes: seq![
                    AttributeV { key: "token-count-before"@, value: dec_str(token_count as int) },
                ],
            },
        ]);
        assert(response_result_view(Ok(response)) == spec_pass_through(
            store@,
            info.sender@,
            fundsv,
            collectionv,
            messagev,
            token_count,
        ));
    }
    Ok(response)
}

/// Routes a completion to its class's handler.
pub fn reply(msg: Reply) -> (r: Result<Response, ContractError>)
    ensures
        response_result_view(r) == spec_reply(msg@),
{
    match ReplyCode::try_from_id(msg.id) {
        Err(e) => Err(e),
        Ok(ReplyCode::PassThrough) => reply_pass_through(msg),
    }
}

/// Handles the completion of a forwarded call: propagates a failure,
/// decodes the optional payload, and reports the post-call count when the
/// payload yields one.
pub fn reply_pass_through(msg: Reply) -> (r: Result<Response, ContractError>)
    ensures
        response_result_view(r) == spec_reply_pass_through(msg.result@),
{
    match msg.result {
        SubMsgResult::Failure(reason) => Err(ContractError::Std { msg: reason }),
        SubMsgResult::Success(None) => Ok(Response::new_empty()),
        SubMsgResult::Success(Some(data)) => {
            if data.len() < REPLY_PREFIX_LEN {
                return Ok(Response::new_empty());
            }
            let payload = slice_subrange(data.as_slice(), REPLY_PREFIX_LEN, data.len());
            proof {
                assert(payload@ =~= data@.skip(REPLY_PREFIX_LEN as int));
            }
            match NameServiceExecuteMsgResponse::from_json_slice(payload) {
                None => Ok(Response::new_empty()),
                Some(value) => {
                    let event = Event {
                        ty: "my-collection-manager".to_owned(),
                        attributes: vec![
                            Attribute {
                                key: "token-count-after".to_owned(),
                                value: u64_to_dec_string(value.num_tokens),
                            },
                        ],
                    };
                    let response = Response {
                        messages: Vec::new(),
                        sub_msgs: Vec::new(),
                        events: vec![event],
                    };
                    proof {
                        assert(response@ =~~= ResponseV {
                            messages: Seq::empty(),
                            sub_msgs: Seq::empty(),
                            events: seq![
                                EventV {
                                    ty: manager_event_name(),
                                    attributes: seq![
                                        AttributeV {
                                            key: "token-count-after"@,
                                            value: dec_str(value.num_tokens as int),
                                        },
                                    ],
                                },
                            ],
                        });
                    }
                    Ok(response)
                },
            }
        },
    }
}

/// Reads the installed configuration; an uninitialized store is an
/// error.
pub fn query(store: &ConfigStore, msg: QueryMsg) -> (r: Result<
    GetPaymentParamsResponse,
    ContractError,
>)
    ensures
        match r {
            Ok(resp) => store@ == Some(resp.payment_params@),
            Err(e) => store@ is None && e@ == ErrorV::NotFound,
        },
{
    match msg {
        QueryMsg::GetPaymentParams => match store.load() {
            Ok(payment_params) => Ok(GetPaymentParamsResponse { payment_params }),
            Err(e) => Err(e),
        },
    }
}

/// Dispatches a privileged request.
pub fn sudo(store: &mut ConfigStore, msg: SudoMsg) -> (r: Result<Response, ContractError>)
    ensures
        msg matches SudoMsg::UpdatePaymentParams(params) ==> {
            &&& response_result_view(r) == spec_install(params@)
            &&& final(store)@ == spec_store_after_install(old(store)@, params@)
            &&& params@.valid() ==> final(store).payment_params == Some(params)
        },
{
    match msg {
        SudoMsg::UpdatePaymentParams(payment_params) => sudo_update_payment_params(
            store,
            payment_params,
        ),
    }
}

/// Replaces the configuration under privileged-update semantics.
pub fn sudo_update_payment_params(store: &mut ConfigStore, payment_params: PaymentParams) -> (r:
    Result<Response, ContractError>)
    ensures
        response_result_view(r) == spec_install(payment_params@),
        final(store)@ == spec_store_after_install(old(store)@, payment_params@),
        payment_params@.valid() ==> final(store).payment_params == Some(payment_params),
{
    install_payment_params(store, payment_params)
}

/// Replaces the configuration under upgrade-time migration semantics,
/// recording the software version in the change event.
pub fn migrate(store: &mut ConfigStore, msg: MigrateMsg, contract_version: String) -> (r: Result<
    Response,
    ContractError,
>)
    ensures
        response_result_view(r) == spec_migrate(msg.payment_params@, contract_version@),
        final(store)@ == spec_store_after_install(old(store)@, msg.payment_params@),
        msg.payment_params@.valid() ==> final(store).payment_params == Some(msg.payment_params),
{
    let payment_params = msg.payment_params;
    let ghost versionv = contract_version@;
    match payment_params.validate() {
        Err(e) => Err(e),
        Ok(_) => {
            let ghost paramsv = payment_params@;
            let mut attributes: Vec<Attribute> = Vec::new();
            attributes.push(
                Attribute { key: "update-contract-version".to_owned(), value: contract_version },
            );
            proof {
                assert(attributes.deep_view() =~= seq![
                    AttributeV { key: "update-contract-version"@, value: versionv },
                ]);
            }
            let event = Event { ty: "my-collection-manager".to_owned(), attributes };
            let event = append_payment_params_attributes(event, &payment_params);
            store.save(payment_params);
            let response = Response {
                messages: Vec::new(),
                sub_msgs: Vec::new(),
                events: vec![event],
            };
            proof {
                assert(response@ =~~= ResponseV {
                    messages: Seq::empty(),
                    sub_msgs: Seq::empty(),
                    events: seq![
                        EventV {
                            ty: manager_event_name(),
                            attributes: seq![
                                AttributeV { key: "update-contract-version"@, value: versionv },
                            ] + params_attributes(paramsv),
                        },
                    ],
                });
            }
            Ok(response)
        },
    }
}

} // verus!
