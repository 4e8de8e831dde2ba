//! The module's RPC methods: each asks through the store's routing decision and answers with an
//! envelope that says how the answer was obtained.
use vstd::prelude::*;
use vstd::string::*;

use crate::dialect::{VerifiedClass, route_label, route_text};
use crate::error::{RpcError, RpcErrorView};
use crate::json::{
    Json, JsonView, empty_object, json_read, json_text, json_written, parse_json,
};
use crate::link::{ProxyLink, VerifiedRouter, asked};
use crate::methods;
use crate::module::{ModuleState, NOT_READY, coded_err_json, err, err_json, err_of};
use crate::num::{to_unsigned, unsigned};
use crate::reply::{
    Answer, AnswerView, PostReply, PostRequest, PostRequestView, Shape, answer_view,
};
use crate::rpc::{Ask, Leg, LegView, ask, caller_deadline, deadline_of, leg_view, without_route};
use crate::store::{EthRpc, EthRpcView};
use crate::text::hexadecimal;
use crate::time::{Duration, less_by};

verus! {

/// The member of the envelope that the answer stands in.
#[derive(Clone, Copy, Debug, PartialEq, Eq, Structural)]
pub enum Field {
    Result,
    Hash,
    ChainId,
}

/// The name of a member.
pub open spec fn field_text(field: Field) -> Seq<char> {
    match field {
        Field::Result => "result"@,
        Field::Hash => "hash"@,
        Field::ChainId => "chainId"@,
    }
}

/// How an answer is put into an envelope.
#[derive(Clone, Copy, Debug, PartialEq, Eq)]
pub struct Envelope {
    pub field: Field,
    /// Whether a refusal carries the token that tells its kind.
    pub coded: bool,
    /// How the answer was obtained.
    pub route: Option<VerifiedClass>,
}

/// An answer, as JSON.
pub open spec fn answer_json(a: AnswerView) -> JsonView {
    match a {
        AnswerView::Value(v) => v,
        AnswerView::Text(s) => JsonView::Text(s),
        AnswerView::ChainId(n) => JsonView::Int(n as int),
    }
}

impl Envelope {
    /// What a call came to, in its envelope. Every answer says how it was obtained: proof-backed,
    /// forwarded by the proxy on trust, or direct.
    pub open spec fn sealed(self, outcome: Result<AnswerView, RpcErrorView>) -> JsonView {
        match outcome {
            Ok(a) => empty_object().with("ok"@, JsonView::Bool(true)).with(
                field_text(self.field),
                answer_json(a),
            ).with("route"@, JsonView::Text(route_text(self.route))),
            Err(e) => if self.coded {
                coded_err_json(e)
            } else {
                err_json(e.message())
            },
        }
    }

    /// Puts what a call came to into its envelope.
    pub fn seal(self, outcome: Result<Answer, RpcError>) -> (r: Json)
        ensures
            r@ == self.sealed(answer_view(outcome)),
    {
        match outcome {
            Ok(a) => {
                let value = match a {
                    Answer::Value(v) => v,
                    Answer::Text(s) => Json::Text(s),
                    Answer::ChainId(n) => Json::Unsigned(n),
                };
                let field = match self.field {
                    Field::Result => "result",
                    Field::Hash => "hash",
                    Field::ChainId => "chainId",
                };
                Json::object().with("ok", Json::Bool(true)).with(field, value).with(
                    "route",
                    Json::text(route_label(self.route)),
                )
            },
            Err(e) => if self.coded {
                err_of(&e)
            } else {
                err(e.message().as_str())
            },
        }
    }
}

/// A request that waits to be sent, with the envelope for its answer.
#[derive(Debug, PartialEq, Eq)]
pub struct Pending {
    pub request: PostRequest,
    pub envelope: Envelope,
}

/// How far a method has come.
#[derive(Debug, PartialEq, Eq)]
pub enum Served {
    /// The answer.
    Text(String),
    /// A node has to be asked first.
    Pending(Pending),
}

/// What a [`Served`] says.
#[verifier::ext_equal]
pub enum ServedView {
    Text(Seq<char>),
    Pending(PostRequestView, Envelope),
}

impl View for Served {
    type V = ServedView;

    open spec fn view(&self) -> ServedView {
        match *self {
            Served::Text(s) => ServedView::Text(s@),
            Served::Pending(p) => ServedView::Pending(p.request@, p.envelope),
        }
    }
}

impl Pending {
    /// The answer, given what came of the request.
    pub fn finish(&self, reply: PostReply) -> (r: String)
        ensures
            r@ == json_written(self.envelope.sealed(self.request@.outcome(reply@))),
    {
        json_text(&self.envelope.seal(self.request.finish(reply)))
    }
}

/// How far a method has come, given what its call came to.
pub open spec fn served(outcome: Result<LegView, RpcErrorView>, envelope: Envelope) -> ServedView {
    match outcome {
        Err(e) => ServedView::Text(json_written(envelope.sealed(Err(e)))),
        Ok(LegView::Answered(a)) => ServedView::Text(json_written(envelope.sealed(Ok(a)))),
        Ok(LegView::Post(p)) => ServedView::Pending(p, envelope),
    }
}

fn serve(outcome: Result<Leg, RpcError>, envelope: Envelope) -> (r: Served)
    ensures
        r@ == served(leg_view(outcome), envelope),
{
    match outcome {
        Err(e) => Served::Text(json_text(&envelope.seal(Err(e)))),
        Ok(Leg::Answered(a)) => Served::Text(json_text(&envelope.seal(Ok(a)))),
        Ok(Leg::Post(request)) => Served::Pending(Pending { request, envelope }),
    }
}

/// A refusal that asks nobody.
pub open spec fn refused(message: Seq<char>) -> ServedView {
    ServedView::Text(json_written(err_json(message)))
}

/// Whether `r` is what a method answers, and the proxy was asked as decided. The route that the
/// answer is labelled with is the one that the call took.
pub open spec fn method_run<R: VerifiedRouter>(
    state: Option<EthRpcView>,
    ask: Ask,
    field: Field,
    coded: bool,
    before: Option<ProxyLink<R>>,
    after: Option<ProxyLink<R>>,
    r: ServedView,
) -> bool {
    match state {
        None => after == before && r == refused(NOT_READY@),
        Some(store) => {
            let decision = store.decide(before is Some, ask);
            let route = store.route_of(ask.chain_id, ask.method);
            &&& decision.asks(ask, before, after)
            &&& r == served(
                without_route(decision.outcome(ask, asked(after))),
                Envelope { field, coded, route },
            )
        },
    }
}

fn not_ready() -> (r: Served)
    ensures
        r@ == refused(NOT_READY@),
{
    Served::Text(json_text(&err(NOT_READY)))
}

fn envelope(rpc: &EthRpc, chain_id: i64, method: &str, field: Field) -> (r: Envelope)
    ensures
        r == (Envelope {
            field,
            coded: false,
            route: rpc@.route_of(unsigned(chain_id), method@),
        }),
{
    Envelope { field, coded: false, route: rpc.route_of(to_unsigned(chain_id), method) }
}

/// A count that is not below zero.
pub open spec fn at_least_zero(n: i64) -> nat {
    if n > 0 {
        n as nat
    } else {
        0
    }
}

impl ModuleState {
    /// The chain id that the node itself reports.
    pub fn verify_chain_id<R: VerifiedRouter>(
        &self,
        chain_id: i64,
        router: &mut Option<ProxyLink<R>>,
    ) -> (r: Served)
        ensures
            method_run(
                self@,
                ask(unsigned(chain_id), methods::CHAIN_ID@, JsonView::Array(seq![]), Shape::ChainId),
                Field::ChainId,
                false,
                *old(router),
                *final(router),
                r@,
            ),
    {
        match self.store() {
            None => not_ready(),
            Some(rpc) => serve(
                rpc.verify_chain_id(to_unsigned(chain_id), router),
                envelope(rpc, chain_id, methods::CHAIN_ID, Field::ChainId),
            ),
        }
    }

    /// The number of the newest block.
    pub fn block_number<R: VerifiedRouter>(
        &self,
        chain_id: i64,
        router: &mut Option<ProxyLink<R>>,
    ) -> (r: Served)
        ensures
            method_run(
                self@,
                ask(unsigned(chain_id), methods::BLOCK_NUMBER@, JsonView::Array(seq![]), Shape::Text),
                Field::Result,
                false,
                *old(router),
                *final(router),
                r@,
            ),
    {
        match self.store() {
            None => not_ready(),
            Some(rpc) => serve(
                rpc.block_number(to_unsigned(chain_id), router),
                envelope(rpc, chain_id, methods::BLOCK_NUMBER, Field::Result),
            ),
        }
    }

    /// The balance of an address.
    pub fn get_balance<R: VerifiedRouter>(
        &self,
        chain_id: i64,
        address: &str,
        router: &mut Option<ProxyLink<R>>,
    ) -> (r: Served)
        ensures
            method_run(
                self@,
                ask(unsigned(chain_id), methods::GET_BALANCE@, JsonView::Array(seq![JsonView::Text(address@), JsonView::Text("latest"@)]), Shape::Text),
                Field::Result,
                false,
                *old(router),
                *final(router),
                r@,
            ),
    {
        match self.store() {
            None => not_ready(),
            Some(rpc) => serve(
                rpc.get_balance(to_unsigned(chain_id), address, router),
                envelope(rpc, chain_id, methods::GET_BALANCE, Field::Result),
            ),
        }
    }

    /// The nonce of an address.
    pub fn get_transaction_count<R: VerifiedRouter>(
        &self,
        chain_id: i64,
        address: &str,
        router: &mut Option<ProxyLink<R>>,
    ) -> (r: Served)
        ensures
            method_run(
                self@,
                ask(unsigned(chain_id), methods::GET_TRANSACTION_COUNT@, JsonView::Array(seq![JsonView::Text(address@), JsonView::Text("pending"@)]), Shape::Text),
                Field::Result,
                false,
                *old(router),
                *final(router),
                r@,
            ),
    {
        match self.store() {
            None => not_ready(),
            Some(rpc) => serve(
                rpc.get_transaction_count(to_unsigned(chain_id), address, router),
                envelope(rpc, chain_id, methods::GET_TRANSACTION_COUNT, Field::Result),
            ),
        }
    }

    /// The gas price that the node suggests.
    pub fn gas_price<R: VerifiedRouter>(
        &self,
        chain_id: i64,
        router: &mut Option<ProxyLink<R>>,
    ) -> (r: Served)
        ensures
            method_run(
                self@,
                ask(unsigned(chain_id), methods::GAS_PRICE@, JsonView::Array(seq![]), Shape::Text),
                Field::Result,
                false,
                *old(router),
                *final(router),
                r@,
            ),
    {
        match self.store() {
            None => not_ready(),
            Some(rpc) => serve(
                rpc.gas_price(to_unsigned(chain_id), router),
                envelope(rpc, chain_id, methods::GAS_PRICE, Field::Result),
            ),
        }
    }

    /// Hands a signed transaction to the network.
    pub fn send_raw_transaction<R: VerifiedRouter>(
        &self,
        chain_id: i64,
        raw_hex: &str,
        router: &mut Option<ProxyLink<R>>,
    ) -> (r: Served)
        ensures
            method_run(
                self@,
                ask(unsigned(chain_id), methods::SEND_RAW_TRANSACTION@, JsonView::Array(seq![JsonView::Text(raw_hex@)]), Shape::Text),
                Field::Hash,
                false,
                *old(router),
                *final(router),
                r@,
            ),
    {
        match self.store() {
            None => not_ready(),
            Some(rpc) => serve(
                rpc.send_raw_transaction(to_unsigned(chain_id), raw_hex, router),
                envelope(rpc, chain_id, methods::SEND_RAW_TRANSACTION, Field::Hash),
            ),
        }
    }

    /// The receipt of a transaction.
    pub fn get_transaction_receipt<R: VerifiedRouter>(
        &self,
        chain_id: i64,
        hash_hex: &str,
        router: &mut Option<ProxyLink<R>>,
    ) -> (r: Served)
        ensures
            method_run(
                self@,
                ask(unsigned(chain_id), methods::GET_TRANSACTION_RECEIPT@, JsonView::Array(seq![JsonView::Text(hash_hex@)]), Shape::Value),
                Field::Result,
                false,
                *old(router),
                *final(router),
                r@,
            ),
    {
        match self.store() {
            None => not_ready(),
            Some(rpc) => serve(
                rpc.get_transaction_receipt(to_unsigned(chain_id), hash_hex, router),
                envelope(rpc, chain_id, methods::GET_TRANSACTION_RECEIPT, Field::Result),
            ),
        }
    }

    /// A transaction.
    pub fn get_transaction_by_hash<R: VerifiedRouter>(
        &self,
        chain_id: i64,
        hash_hex: &str,
        router: &mut Option<ProxyLink<R>>,
    ) -> (r: Served)
        ensures
            method_run(
                self@,
                ask(unsigned(chain_id), methods::GET_TRANSACTION_BY_HASH@, JsonView::Array(seq![JsonView::Text(hash_hex@)]), Shape::Value),
                Field::Result,
                false,
                *old(router),
                *final(router),
                r@,
            ),
    {
        match self.store() {
            None => not_ready(),
            Some(rpc) => serve(
                rpc.get_transaction_by_hash(to_unsigned(chain_id), hash_hex, router),
                envelope(rpc, chain_id, methods::GET_TRANSACTION_BY_HASH, Field::Result),
            ),
        }
    }

    /// A read-only contract call; `call_json` is an object such as `{to, data}`. `deadline_ms` is the
    /// caller's own wall budget, of which `elapsed` is gone already. A refusal tells its kind.
    pub fn call<R: VerifiedRouter>(
        &self,
        chain_id: i64,
        call_json: &str,
        deadline_ms: Option<i64>,
        elapsed: Duration,
        router: &mut Option<ProxyLink<R>>,
    ) -> (r: Served)
        ensures
            match json_read(call_json@) {
                Err(e) => *final(router) == *old(router) && r@ == refused(e),
                Ok(parsed) => method_run(
                    self@,
                    Ask {
                        chain_id: unsigned(chain_id),
                        method: methods::CALL@,
                        params: JsonView::Array(seq![parsed, JsonView::Text("latest"@)]),
                        deadline: match deadline_of(deadline_ms) {
                            Some(d) => Some(less_by(d, elapsed@)),
                            None => None,
                        },
                        shape: Shape::Text,
                    },
                    Field::Result,
                    true,
                    *old(router),
                    *final(router),
                    r@,
                ),
            },
    {
        let parsed = match parse_json(call_json) {
            Ok(v) => v,
            Err(e) => return Served::Text(json_text(&err(e.as_str()))),
        };
        match self.store() {
            None => not_ready(),
            Some(rpc) => {
                let left = match caller_deadline(deadline_ms) {
                    Some(d) => Some(d.saturating_sub(elapsed)),
                    None => None,
                };
                serve(
                    rpc.call_within(to_unsigned(chain_id), parsed, left, router),
                    Envelope {
                        coded: true,
                        ..envelope(rpc, chain_id, methods::CALL, Field::Result)
                    },
                )
            },
        }
    }

    /// The fees of the last blocks; a negative count is none. `reward_percentiles_json` is an array.
    pub fn fee_history<R: VerifiedRouter>(
        &self,
        chain_id: i64,
        blocks: i64,
        reward_percentiles_json: &str,
        router: &mut Option<ProxyLink<R>>,
    ) -> (r: Served)
        ensures
            match json_read(reward_percentiles_json@) {
                Err(e) => *final(router) == *old(router) && r@ == refused(e),
                Ok(parsed) => method_run(
                    self@,
                    ask(
                        unsigned(chain_id),
                        methods::FEE_HISTORY@,
                        JsonView::Array(
                            seq![
                                JsonView::Text("0x"@ + hexadecimal(at_least_zero(blocks))),
                                JsonView::Text("latest"@),
                                parsed,
                            ],
                        ),
                        Shape::Value,
                    ),
                    Field::Result,
                    false,
                    *old(router),
                    *final(router),
                    r@,
                ),
            },
    {
        let parsed = match parse_json(reward_percentiles_json) {
            Ok(v) => v,
            Err(e) => return Served::Text(json_text(&err(e.as_str()))),
        };
        match self.store() {
            None => not_ready(),
            Some(rpc) => {
                let count: u64 = if blocks > 0 {
                    blocks as u64
                } else {
                    0
                };
                serve(
                    rpc.fee_history(to_unsigned(chain_id), count, parsed, router),
                    envelope(rpc, chain_id, methods::FEE_HISTORY, Field::Result),
                )
            },
        }
    }

    /// The gas that a transaction would take.
    pub fn estimate_gas<R: VerifiedRouter>(
        &self,
        chain_id: i64,
        tx_json: &str,
        router: &mut Option<ProxyLink<R>>,
    ) -> (r: Served)
        ensures
            match json_read(tx_json@) {
                Err(e) => *final(router) == *old(router) && r@ == refused(e),
                Ok(parsed) => method_run(
                    self@,
                    ask(
                        unsigned(chain_id),
                        methods::ESTIMATE_GAS@,
                        JsonView::Array(seq![parsed]),
                        Shape::Text,
                    ),
                    Field::Result,
                    false,
                    *old(router),
                    *final(router),
                    r@,
                ),
            },
    {
        let parsed = match parse_json(tx_json) {
            Ok(v) => v,
            Err(e) => return Served::Text(json_text(&err(e.as_str()))),
        };
        match self.store() {
            None => not_ready(),
            Some(rpc) => serve(
                rpc.estimate_gas(to_unsigned(chain_id), parsed, router),
                envelope(rpc, chain_id, methods::ESTIMATE_GAS, Field::Result),
            ),
        }
    }

    /// Any JSON-RPC method; `params_json` is an array.
    pub fn raw_rpc<R: VerifiedRouter>(
        &self,
        chain_id: i64,
        method: &str,
        params_json: &str,
        router: &mut Option<ProxyLink<R>>,
    ) -> (r: Served)
        ensures
            match json_read(params_json@) {
                Err(e) => *final(router) == *old(router) && r@ == refused(e),
                Ok(parsed) => method_run(
                    self@,
                    ask(unsigned(chain_id), method@, parsed, Shape::Value),
                    Field::Result,
                    false,
                    *old(router),
                    *final(router),
                    r@,
                ),
            },
    {
        let parsed = match parse_json(params_json) {
            Ok(v) => v,
            Err(e) => return Served::Text(json_text(&err(e.as_str()))),
        };
        match self.store() {
            None => not_ready(),
            Some(rpc) => serve(
                rpc.rpc_call(to_unsigned(chain_id), method, parsed, router),
                envelope(rpc, chain_id, method, Field::Result),
            ),
        }
    }

    /// Any JSON-RPC method at an explicit url, with the chain's client. Its answer is always direct:
    /// nothing proxied it, whatever the chain's mode.
    pub fn raw_rpc_url(&self, chain_id: i64, url: &str, method: &str, params_json: &str) -> (r:
        Served)
        ensures
            match (json_read(params_json@), self@) {
                (Err(e), _) => r@ == refused(e),
                (Ok(_), None) => r@ == refused(NOT_READY@),
                (Ok(params), Some(store)) => r@ == served(
                    match store.url_call(unsigned(chain_id), url@, method@, params) {
                        Ok(request) => Ok(LegView::Post(request)),
                        Err(e) => Err(e),
                    },
                    (Envelope { field: Field::Result, coded: false, route: None }),
                ),
            },
    {
        let params = match parse_json(params_json) {
            Ok(v) => v,
            Err(e) => return Served::Text(json_text(&err(e.as_str()))),
        };
        match self.store() {
            None => not_ready(),
            Some(rpc) => {
                let outcome = match rpc.rpc_call_url(to_unsigned(chain_id), url, method, params) {
                    Ok(request) => Ok(Leg::Post(request)),
                    Err(e) => Err(e),
                };
                serve(outcome, Envelope { field: Field::Result, coded: false, route: None })
            },
        }
    }
}

/// A refusal is answered at once, and what a method answers says what stands in it.
pub proof fn law_an_answer_says_what_stands_in_it(message: Seq<char>, s: String, p: Pending)
    ensures
        refused(message) == ServedView::Text(json_written(err_json(message))),
        Served::Text(s)@ == ServedView::Text(s@),
        Served::Pending(p)@ == ServedView::Pending(p.request@, p.envelope),
{
}

} // verus!
