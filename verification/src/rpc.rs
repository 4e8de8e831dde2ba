//! Which way a call goes, and how long it may take.
use vstd::prelude::*;
use vstd::string::*;

use crate::config::VerifiedProxyMode;
use crate::dialect::{
    VerifiedClass, class_of, dialect_params, normalize_verified_result, verified_class,
    verified_params, wire_form,
};
use crate::error::{RpcError, RpcErrorView};
use crate::json::{Json, JsonView, views};
use crate::link::{ProxyLink, RouterCall, VerifiedRouter, asked, made, same_link};
use crate::methods;
use crate::proxy::{
    ClientPlan, ClientPlanView, ProxyConfig, ProxyConfigView, build_client, opt_span,
};
use crate::reply::{
    Answer, AnswerView, PostRequest, PostRequestView, Shape, build_request,
    request_body, shape_answer, shaped,
};
use crate::store::{EthRpc, EthRpcView};
use crate::text::{decimal, decimal_u64, hex_u64, hexadecimal};
use crate::time::{Duration, millis, seconds, shorter};

verus! {

/// The least time worth asking with, in milliseconds. A caller that leaves less is refused in words,
/// never given more than it asked for.
pub const MIN_BUDGET_MS: u64 = 50;

/// The least time worth asking with.
pub fn min_budget() -> (r: Duration)
    ensures
        r@ == millis(MIN_BUDGET_MS as int),
{
    Duration::from_millis(MIN_BUDGET_MS)
}

/// The budget of one verified call: the configured seconds, but no less than one and no more than
/// sixty.
pub open spec fn verified_span(secs: u64) -> nat {
    seconds(
        if secs < 1 {
            1
        } else if secs > 60 {
            60
        } else {
            secs as int
        },
    )
}

/// The budget of one verified call. The configured seconds are the user's: none at all would time
/// out at once, and too many would never return.
pub fn verified_budget(secs: u64) -> (r: Duration)
    ensures
        r@ == verified_span(secs),
{
    Duration::from_secs(
        if secs < 1 {
            1
        } else if secs > 60 {
            60
        } else {
            secs
        },
    )
}

/// The wall time that a chain's timeout permits: it is spent twice, once until the headers and once
/// for the body. `0` stands for the client's own 30 seconds.
pub open spec fn wall_span(timeout_secs: u64) -> nat {
    let twice = 2 * (if timeout_secs == 0 {
        30
    } else {
        timeout_secs as int
    });
    seconds(
        if twice > u64::MAX {
            u64::MAX as int
        } else {
            twice
        },
    )
}

/// The wall time that a chain's timeout permits, and so the most that a caller's deadline may be.
pub fn configured_wall(timeout_secs: u64) -> (r: Duration)
    ensures
        r@ == wall_span(timeout_secs),
{
    let per_phase: u64 = if timeout_secs == 0 {
        30
    } else {
        timeout_secs
    };
    Duration::from_secs(
        if per_phase > u64::MAX / 2 {
            u64::MAX
        } else {
            per_phase * 2
        },
    )
}

/// The deadline that a caller's milliseconds stand for: none at all, or not above zero, is none.
pub open spec fn deadline_of(ms: Option<i64>) -> Option<nat> {
    match ms {
        Some(m) => if m > 0 {
            Some(millis(m as int))
        } else {
            None
        },
        None => None,
    }
}

/// A caller's own wall budget for one call.
pub fn caller_deadline(ms: Option<i64>) -> (r: Option<Duration>)
    ensures
        opt_span(r) == deadline_of(ms),
{
    match ms {
        Some(m) => if m > 0 {
            Some(Duration::from_millis(m as u64))
        } else {
            None
        },
        None => None,
    }
}

/// How far a call has come.
#[derive(Debug, PartialEq, Eq)]
pub enum Leg {
    /// The proxy answered.
    Answered(Answer),
    /// The node has to be asked.
    Post(PostRequest),
}

/// What a [`Leg`] says.
#[verifier::ext_equal]
pub enum LegView {
    Answered(AnswerView),
    Post(PostRequestView),
}

impl View for Leg {
    type V = LegView;

    open spec fn view(&self) -> LegView {
        match *self {
            Leg::Answered(a) => LegView::Answered(a@),
            Leg::Post(p) => LegView::Post(p@),
        }
    }
}

/// A call as it is asked for.
pub ghost struct Ask {
    pub chain_id: u64,
    pub method: Seq<char>,
    pub params: JsonView,
    /// The caller's own wall budget.
    pub deadline: Option<nat>,
    pub shape: Shape,
}

/// A call without a deadline.
pub open spec fn ask(chain_id: u64, method: Seq<char>, params: JsonView, shape: Shape) -> Ask {
    Ask { chain_id, method, params, deadline: None, shape }
}

/// What becomes of a call.
pub ghost enum Decision {
    /// It is refused, and nothing is asked.
    Refuse(RpcErrorView),
    /// The proxy is asked, and nobody else.
    AskProxy { params: JsonView, budget: nat },
    /// The node is asked, and not the proxy.
    AskNode(PostRequestView),
}

/// A deadline, held to what is configured: it may only shorten it.
pub open spec fn bounded(deadline: Option<nat>, configured: nat) -> nat {
    match deadline {
        Some(d) => shorter(d, configured),
        None => configured,
    }
}

/// The refusal of a call that leaves too little time.
pub open spec fn too_late(budget: nat, detail: Seq<char>) -> RpcErrorView {
    RpcErrorView::Timeout { budget_ms: budget / 1_000_000, detail }
}

impl EthRpcView {
    /// The client for the chain, and its endpoint.
    pub open spec fn client_for(self, chain_id: u64) -> Result<
        (ClientPlanView, Seq<char>),
        RpcErrorView,
    > {
        match self.record(chain_id) {
            None => Err(RpcErrorView::UnknownChain(chain_id)),
            Some(c) => match (ProxyConfigView {
                proxy: c.proxy,
                proxy_required: c.proxy_required,
                timeout_secs: c.timeout_secs,
            }).client() {
                Ok(plan) => Ok((plan, c.endpoint)),
                Err(e) => Err(RpcErrorView::Proxy(e.message())),
            },
        }
    }

    /// What becomes of a call. `wired` says whether there is a verified proxy to ask.
    pub open spec fn decide(self, wired: bool, ask: Ask) -> Decision {
        match self.record(ask.chain_id) {
            None => Decision::Refuse(RpcErrorView::UnknownChain(ask.chain_id)),
            Some(c) => if c.verified_proxy_mode == VerifiedProxyMode::Required {
                let budget = bounded(ask.deadline, verified_span(c.verified_timeout_secs));
                if !wired {
                    Decision::Refuse(RpcErrorView::VerifiedProxy(NOT_WIRED@))
                } else if budget < millis(MIN_BUDGET_MS as int) {
                    Decision::Refuse(too_late(budget, TOO_LATE_FOR_PROXY@))
                } else {
                    Decision::AskProxy {
                        params: JsonView::Array(dialect_params(ask.method, ask.params)),
                        budget,
                    }
                }
            } else {
                let budget = match ask.deadline {
                    Some(d) => Some(shorter(d, wall_span(c.timeout_secs))),
                    None => None,
                };
                if budget is Some && budget->0 < millis(MIN_BUDGET_MS as int) {
                    Decision::Refuse(
                        too_late(budget->0, TOO_LATE_FOR_CHAIN@ + decimal(ask.chain_id as int)),
                    )
                } else {
                    match self.client_for(ask.chain_id) {
                        Err(e) => Decision::Refuse(e),
                        Ok((client, url)) => Decision::AskNode(
                            PostRequestView {
                                client,
                                url,
                                body: request_body(ask.method, ask.params),
                                budget,
                                shape: ask.shape,
                            },
                        ),
                    }
                }
            },
        }
    }
}

impl EthRpcView {
    /// What becomes of a call to an explicit url.
    pub open spec fn url_call(
        self,
        chain_id: u64,
        url: Seq<char>,
        method: Seq<char>,
        params: JsonView,
    ) -> Result<PostRequestView, RpcErrorView> {
        if self.route_of(chain_id, method) == Some(VerifiedClass::Verified) {
            Err(RpcErrorView::VerifiedBypass(method))
        } else {
            match self.client_for(chain_id) {
                Err(e) => Err(e),
                Ok((client, _)) => Ok(
                    PostRequestView {
                        client,
                        url,
                        body: request_body(method, params),
                        budget: None,
                        shape: Shape::Value,
                    },
                ),
            }
        }
    }
}

/// What is said where no verified proxy can be asked.
pub const NOT_WIRED: &'static str = "no verified proxy is wired up";

/// What is said where too little time is left for the proxy.
pub const TOO_LATE_FOR_PROXY: &'static str = "too little time left to ask the verified proxy";

/// What is said, before the chain id, where too little time is left for the node.
pub const TOO_LATE_FOR_CHAIN: &'static str = "too little time left to ask chain ";

/// What a call comes to, given the proxy's answer. A refusal stays one.
pub open spec fn proxied_outcome(
    method: Seq<char>,
    shape: Shape,
    answer: Result<JsonView, Seq<char>>,
) -> Result<(LegView, Option<VerifiedClass>), RpcErrorView> {
    match answer {
        Err(e) => Err(RpcErrorView::VerifiedProxy(e)),
        Ok(v) => match shaped(shape, wire_form(v)) {
            Err(e) => Err(e),
            Ok(a) => Ok((LegView::Answered(a), Some(class_of(method)))),
        },
    }
}

impl Decision {
    /// Whether the leg from `before` was used as decided, and became `after`: nothing more was asked,
    /// or this call once, and the router was really asked it and gave the answer that stands there.
    pub open spec fn asks<R: VerifiedRouter>(
        self,
        ask: Ask,
        before: Option<ProxyLink<R>>,
        after: Option<ProxyLink<R>>,
    ) -> bool {
        &&& same_link(before, after)
        &&& match self {
            Decision::AskProxy { params, budget } => {
                &&& after is Some
                &&& asked(after).len() == asked(before).len() + 1
                &&& asked(after) == asked(before).push(
                    RouterCall {
                        chain_id: ask.chain_id,
                        method: ask.method,
                        params,
                        budget,
                        answer: asked(after).last().answer,
                    },
                )
                &&& made(after->0.inner(), asked(after).last())
            },
            _ => asked(after) == asked(before),
        }
    }

    /// What the call comes to, with `after` what has been asked of the proxy by then.
    pub open spec fn outcome(self, ask: Ask, after: Seq<RouterCall>) -> Result<
        (LegView, Option<VerifiedClass>),
        RpcErrorView,
    > {
        match self {
            Decision::Refuse(e) => Err(e),
            Decision::AskNode(request) => Ok((LegView::Post(request), None)),
            Decision::AskProxy { .. } => proxied_outcome(
                ask.method,
                ask.shape,
                after.last().answer,
            ),
        }
    }
}

/// The view of a routed call.
pub open spec fn routed_view(r: Result<(Leg, Option<VerifiedClass>), RpcError>) -> Result<
    (LegView, Option<VerifiedClass>),
    RpcErrorView,
> {
    match r {
        Ok((leg, class)) => Ok((leg@, class)),
        Err(e) => Err(e@),
    }
}

/// The view of a call.
pub open spec fn leg_view(r: Result<Leg, RpcError>) -> Result<LegView, RpcErrorView> {
    match r {
        Ok(leg) => Ok(leg@),
        Err(e) => Err(e@),
    }
}

/// What a routed call comes to, without the route.
pub open spec fn without_route(
    r: Result<(LegView, Option<VerifiedClass>), RpcErrorView>,
) -> Result<LegView, RpcErrorView> {
    match r {
        Ok((leg, _)) => Ok(leg),
        Err(e) => Err(e),
    }
}

/// Whether `outcome` is what the call comes to, and the proxy was asked as decided.
pub open spec fn ran<R: VerifiedRouter>(
    store: EthRpcView,
    ask: Ask,
    before: Option<ProxyLink<R>>,
    after: Option<ProxyLink<R>>,
    outcome: Result<(LegView, Option<VerifiedClass>), RpcErrorView>,
) -> bool {
    let decision = store.decide(before is Some, ask);
    &&& decision.asks(ask, before, after)
    &&& outcome == decision.outcome(ask, asked(after))
}

/// The same for a call whose route is not wanted.
pub open spec fn ran_leg<R: VerifiedRouter>(
    store: EthRpcView,
    ask: Ask,
    before: Option<ProxyLink<R>>,
    after: Option<ProxyLink<R>>,
    outcome: Result<LegView, RpcErrorView>,
) -> bool {
    let decision = store.decide(before is Some, ask);
    &&& decision.asks(ask, before, after)
    &&& outcome == without_route(decision.outcome(ask, asked(after)))
}

impl EthRpc {
    fn client_for(&self, chain_id: u64) -> (r: Result<(ClientPlan, String), RpcError>)
        ensures
            match r {
                Ok((plan, url)) => self@.client_for(chain_id) == Ok::<_, RpcErrorView>(
                    (plan@, url@),
                ),
                Err(e) => self@.client_for(chain_id) == Err::<(ClientPlanView, Seq<char>), _>(e@),
            },
    {
        let c = match self.get_chain_config(chain_id) {
            Some(c) => c,
            None => return Err(RpcError::UnknownChain(chain_id)),
        };
        let pc = ProxyConfig::new(c.proxy.clone(), c.proxy_required, c.timeout_secs);
        match build_client(&pc) {
            Ok(plan) => Ok((plan, c.endpoint.clone())),
            Err(e) => Err(RpcError::Proxy(e.message())),
        }
    }

    /// The routing decision, in the one place that every call goes through. The answer is put into
    /// `shape`; the class says whether it is proof-backed.
    fn route<R: VerifiedRouter>(
        &self,
        chain_id: u64,
        method: &str,
        params: Json,
        deadline: Option<Duration>,
        shape: Shape,
        router: &mut Option<ProxyLink<R>>,
    ) -> (r: Result<(Leg, Option<VerifiedClass>), RpcError>)
        ensures
            ran(
                self@,
                Ask {
                    chain_id,
                    method: method@,
                    params: params@,
                    deadline: opt_span(deadline),
                    shape,
                },
                *old(router),
                *final(router),
                routed_view(r),
            ),
    {
        let cfg = match self.get_chain_config(chain_id) {
            Some(c) => c,
            None => return Err(RpcError::UnknownChain(chain_id)),
        };
        if cfg.verified_proxy_mode == VerifiedProxyMode::Required {
            let proxy = match router {
                Some(proxy) => proxy,
                None => return Err(RpcError::VerifiedProxy(NOT_WIRED.to_string())),
            };
            let coerced = verified_params(method, &params);
            let configured = verified_budget(cfg.verified_timeout_secs);
            let budget = match deadline {
                Some(d) => d.min(configured),
                None => configured,
            };
            if budget.is_below(min_budget()) {
                return Err(
                    RpcError::Timeout {
                        budget_ms: budget.as_millis(),
                        detail: TOO_LATE_FOR_PROXY.to_string(),
                    },
                );
            }
            let answer = proxy.call(chain_id, method, &coerced, budget);
            return match answer {
                Err(e) => Err(RpcError::VerifiedProxy(e)),
                Ok(v) => match shape_answer(shape, normalize_verified_result(v)) {
                    Err(e) => Err(e),
                    Ok(a) => Ok((Leg::Answered(a), Some(verified_class(method)))),
                },
            };
        }
        let bound = match deadline {
            Some(d) => Some(d.min(configured_wall(cfg.timeout_secs))),
            None => None,
        };
        if let Some(b) = bound {
            if b.is_below(min_budget()) {
                return Err(
                    RpcError::Timeout {
                        budget_ms: b.as_millis(),
                        detail: String::from_str(TOO_LATE_FOR_CHAIN).concat(
                            decimal_u64(chain_id).as_str(),
                        ),
                    },
                );
            }
        }
        let (client, url) = self.client_for(chain_id)?;
        let request = PostRequest {
            client,
            url,
            body: build_request(method, params),
            budget: bound,
            shape,
        };
        Ok((Leg::Post(request), None))
    }
}

/// An array of no parameters.
fn no_params() -> (r: Json)
    ensures
        r@ == JsonView::Array(seq![]),
{
    let items: Vec<Json> = Vec::new();
    assert(views(items@) =~= seq![]);
    Json::array(items)
}

/// An array of one parameter.
fn one_param(a: Json) -> (r: Json)
    ensures
        r@ == JsonView::Array(seq![a@]),
{
    let mut items: Vec<Json> = Vec::new();
    items.push(a);
    assert(views(items@) =~= seq![a@]);
    Json::array(items)
}

/// An array of two parameters.
fn two_params(a: Json, b: Json) -> (r: Json)
    ensures
        r@ == JsonView::Array(seq![a@, b@]),
{
    let mut items: Vec<Json> = Vec::new();
    items.push(a);
    items.push(b);
    assert(views(items@) =~= seq![a@, b@]);
    Json::array(items)
}

/// An array of three parameters.
fn three_params(a: Json, b: Json, c: Json) -> (r: Json)
    ensures
        r@ == JsonView::Array(seq![a@, b@, c@]),
{
    let mut items: Vec<Json> = Vec::new();
    items.push(a);
    items.push(b);
    items.push(c);
    assert(views(items@) =~= seq![a@, b@, c@]);
    Json::array(items)
}

impl EthRpc {
    /// A raw call.
    pub fn rpc_call<R: VerifiedRouter>(
        &self,
        chain_id: u64,
        method: &str,
        params: Json,
        router: &mut Option<ProxyLink<R>>,
    ) -> (r: Result<Leg, RpcError>)
        ensures
            ran_leg(
                self@,
                ask(chain_id, method@, params@, Shape::Value),
                *old(router),
                *final(router),
                leg_view(r),
            ),
    {
        self.shaped_call(chain_id, method, params, Shape::Value, router)
    }

    /// A raw call, with the way that it went.
    pub fn rpc_call_routed<R: VerifiedRouter>(
        &self,
        chain_id: u64,
        method: &str,
        params: Json,
        router: &mut Option<ProxyLink<R>>,
    ) -> (r: Result<(Leg, Option<VerifiedClass>), RpcError>)
        ensures
            ran(
                self@,
                ask(chain_id, method@, params@, Shape::Value),
                *old(router),
                *final(router),
                routed_view(r),
            ),
    {
        self.rpc_call_routed_within(chain_id, method, params, None, router)
    }

    /// The same, bounded by the caller's own wall budget. It may only shorten what the chain permits:
    /// the store is shared with other wallets, and none may widen its own exposure.
    pub fn rpc_call_routed_within<R: VerifiedRouter>(
        &self,
        chain_id: u64,
        method: &str,
        params: Json,
        deadline: Option<Duration>,
        router: &mut Option<ProxyLink<R>>,
    ) -> (r: Result<(Leg, Option<VerifiedClass>), RpcError>)
        ensures
            ran(
                self@,
                Ask {
                    chain_id,
                    method: method@,
                    params: params@,
                    deadline: opt_span(deadline),
                    shape: Shape::Value,
                },
                *old(router),
                *final(router),
                routed_view(r),
            ),
    {
        self.route(chain_id, method, params, deadline, Shape::Value, router)
    }

    fn shaped_call<R: VerifiedRouter>(
        &self,
        chain_id: u64,
        method: &str,
        params: Json,
        shape: Shape,
        router: &mut Option<ProxyLink<R>>,
    ) -> (r: Result<Leg, RpcError>)
        ensures
            ran_leg(
                self@,
                ask(chain_id, method@, params@, shape),
                *old(router),
                *final(router),
                leg_view(r),
            ),
    {
        match self.route(chain_id, method, params, None, shape, router) {
            Ok((leg, _)) => Ok(leg),
            Err(e) => Err(e),
        }
    }

    /// The chain id that the node itself reports.
    pub fn verify_chain_id<R: VerifiedRouter>(
        &self,
        chain_id: u64,
        router: &mut Option<ProxyLink<R>>,
    ) -> (r: Result<Leg, RpcError>)
        ensures
            ran_leg(
                self@,
                ask(chain_id, methods::CHAIN_ID@, JsonView::Array(seq![]), Shape::ChainId),
                *old(router),
                *final(router),
                leg_view(r),
            ),
    {
        self.shaped_call(chain_id, methods::CHAIN_ID, no_params(), Shape::ChainId, router)
    }

    /// The number of the newest block.
    pub fn block_number<R: VerifiedRouter>(
        &self,
        chain_id: u64,
        router: &mut Option<ProxyLink<R>>,
    ) -> (r: Result<Leg, RpcError>)
        ensures
            ran_leg(
                self@,
                ask(chain_id, methods::BLOCK_NUMBER@, JsonView::Array(seq![]), Shape::Text),
                *old(router),
                *final(router),
                leg_view(r),
            ),
    {
        self.shaped_call(chain_id, methods::BLOCK_NUMBER, no_params(), Shape::Text, router)
    }

    /// The balance of an address.
    pub fn get_balance<R: VerifiedRouter>(
        &self,
        chain_id: u64,
        address: &str,
        router: &mut Option<ProxyLink<R>>,
    ) -> (r: Result<Leg, RpcError>)
        ensures
            ran_leg(
                self@,
                ask(chain_id, methods::GET_BALANCE@, JsonView::Array(seq![JsonView::Text(address@), JsonView::Text("latest"@)]), Shape::Text),
                *old(router),
                *final(router),
                leg_view(r),
            ),
    {
        self.shaped_call(chain_id, methods::GET_BALANCE, two_params(Json::text(address), Json::text("latest")), Shape::Text, router)
    }

    /// A read-only contract call; `call` is an object such as `{to, data}`.
    pub fn call<R: VerifiedRouter>(
        &self,
        chain_id: u64,
        call: Json,
        router: &mut Option<ProxyLink<R>>,
    ) -> (r: Result<Leg, RpcError>)
        ensures
            ran_leg(
                self@,
                ask(chain_id, methods::CALL@, JsonView::Array(seq![call@, JsonView::Text("latest"@)]), Shape::Text),
                *old(router),
                *final(router),
                leg_view(r),
            ),
    {
        self.shaped_call(chain_id, methods::CALL, two_params(call, Json::text("latest")), Shape::Text, router)
    }

    /// The same, bounded by the caller's own wall budget.
    pub fn call_within<R: VerifiedRouter>(
        &self,
        chain_id: u64,
        call: Json,
        deadline: Option<Duration>,
        router: &mut Option<ProxyLink<R>>,
    ) -> (r: Result<Leg, RpcError>)
        ensures
            ran_leg(
                self@,
                Ask {
                    deadline: opt_span(deadline),
                    ..ask(
                        chain_id,
                        methods::CALL@,
                        JsonView::Array(seq![call@, JsonView::Text("latest"@)]),
                        Shape::Text,
                    )
                },
                *old(router),
                *final(router),
                leg_view(r),
            ),
    {
        let params = two_params(call, Json::text("latest"));
        match self.route(chain_id, methods::CALL, params, deadline, Shape::Text, router) {
            Ok((leg, _)) => Ok(leg),
            Err(e) => Err(e),
        }
    }

    /// The nonce of an address, with what is still pending.
    pub fn get_transaction_count<R: VerifiedRouter>(
        &self,
        chain_id: u64,
        address: &str,
        router: &mut Option<ProxyLink<R>>,
    ) -> (r: Result<Leg, RpcError>)
        ensures
            ran_leg(
                self@,
                ask(chain_id, methods::GET_TRANSACTION_COUNT@, JsonView::Array(seq![JsonView::Text(address@), JsonView::Text("pending"@)]), Shape::Text),
                *old(router),
                *final(router),
                leg_view(r),
            ),
    {
        self.shaped_call(chain_id, methods::GET_TRANSACTION_COUNT, two_params(Json::text(address), Json::text("pending")), Shape::Text, router)
    }

    /// The gas price that the node suggests.
    pub fn gas_price<R: VerifiedRouter>(
        &self,
        chain_id: u64,
        router: &mut Option<ProxyLink<R>>,
    ) -> (r: Result<Leg, RpcError>)
        ensures
            ran_leg(
                self@,
                ask(chain_id, methods::GAS_PRICE@, JsonView::Array(seq![]), Shape::Text),
                *old(router),
                *final(router),
                leg_view(r),
            ),
    {
        self.shaped_call(chain_id, methods::GAS_PRICE, no_params(), Shape::Text, router)
    }

    /// The fees of the last `blocks` blocks. A node takes the count as a hexadecimal quantity.
    pub fn fee_history<R: VerifiedRouter>(
        &self,
        chain_id: u64,
        blocks: u64,
        reward_percentiles: Json,
        router: &mut Option<ProxyLink<R>>,
    ) -> (r: Result<Leg, RpcError>)
        ensures
            ran_leg(
                self@,
                ask(
                    chain_id,
                    methods::FEE_HISTORY@,
                    JsonView::Array(
                        seq![
                            JsonView::Text("0x"@ + hexadecimal(blocks as nat)),
                            JsonView::Text("latest"@),
                            reward_percentiles@,
                        ],
                    ),
                    Shape::Value,
                ),
                *old(router),
                *final(router),
                leg_view(r),
            ),
    {
        let count = String::from_str("0x").concat(hex_u64(blocks).as_str());
        let params = three_params(Json::Text(count), Json::text("latest"), reward_percentiles);
        self.shaped_call(chain_id, methods::FEE_HISTORY, params, Shape::Value, router)
    }

    /// The gas that a transaction would take.
    pub fn estimate_gas<R: VerifiedRouter>(
        &self,
        chain_id: u64,
        tx: Json,
        router: &mut Option<ProxyLink<R>>,
    ) -> (r: Result<Leg, RpcError>)
        ensures
            ran_leg(
                self@,
                ask(chain_id, methods::ESTIMATE_GAS@, JsonView::Array(seq![tx@]), Shape::Text),
                *old(router),
                *final(router),
                leg_view(r),
            ),
    {
        self.shaped_call(chain_id, methods::ESTIMATE_GAS, one_param(tx), Shape::Text, router)
    }

    /// Hands a signed transaction to the network.
    pub fn send_raw_transaction<R: VerifiedRouter>(
        &self,
        chain_id: u64,
        raw_hex: &str,
        router: &mut Option<ProxyLink<R>>,
    ) -> (r: Result<Leg, RpcError>)
        ensures
            ran_leg(
                self@,
                ask(chain_id, methods::SEND_RAW_TRANSACTION@, JsonView::Array(seq![JsonView::Text(raw_hex@)]), Shape::Text),
                *old(router),
                *final(router),
                leg_view(r),
            ),
    {
        self.shaped_call(chain_id, methods::SEND_RAW_TRANSACTION, one_param(Json::text(raw_hex)), Shape::Text, router)
    }

    /// The receipt of a transaction.
    pub fn get_transaction_receipt<R: VerifiedRouter>(
        &self,
        chain_id: u64,
        hash: &str,
        router: &mut Option<ProxyLink<R>>,
    ) -> (r: Result<Leg, RpcError>)
        ensures
            ran_leg(
                self@,
                ask(chain_id, methods::GET_TRANSACTION_RECEIPT@, JsonView::Array(seq![JsonView::Text(hash@)]), Shape::Value),
                *old(router),
                *final(router),
                leg_view(r),
            ),
    {
        self.shaped_call(chain_id, methods::GET_TRANSACTION_RECEIPT, one_param(Json::text(hash)), Shape::Value, router)
    }

    /// A transaction.
    pub fn get_transaction_by_hash<R: VerifiedRouter>(
        &self,
        chain_id: u64,
        hash: &str,
        router: &mut Option<ProxyLink<R>>,
    ) -> (r: Result<Leg, RpcError>)
        ensures
            ran_leg(
                self@,
                ask(chain_id, methods::GET_TRANSACTION_BY_HASH@, JsonView::Array(seq![JsonView::Text(hash@)]), Shape::Value),
                *old(router),
                *final(router),
                leg_view(r),
            ),
    {
        self.shaped_call(chain_id, methods::GET_TRANSACTION_BY_HASH, one_param(Json::text(hash)), Shape::Value, router)
    }

    /// A raw call to an explicit url, with the chain's client. For services beside a chain, such as
    /// a bundler, so that they too go through the network proxy. On a chain whose mode is `required`
    /// the reads that the verified route proves are refused: a url proves nothing.
    pub fn rpc_call_url(&self, chain_id: u64, url: &str, method: &str, params: Json) -> (r: Result<
        PostRequest,
        RpcError,
    >)
        ensures
            match r {
                Ok(request) => self@.url_call(chain_id, url@, method@, params@) == Ok::<
                    _,
                    RpcErrorView,
                >(request@),
                Err(e) => self@.url_call(chain_id, url@, method@, params@) == Err::<
                    PostRequestView,
                    _,
                >(e@),
            },
    {
        if let Some(VerifiedClass::Verified) = self.route_of(chain_id, method) {
            return Err(RpcError::VerifiedBypass(method.to_string()));
        }
        let (client, _) = self.client_for(chain_id)?;
        Ok(
            PostRequest {
                client,
                url: url.to_string(),
                body: build_request(method, params),
                budget: None,
                shape: Shape::Value,
            },
        )
    }
}

/// A call without a deadline has none, and a leg and what a call came to say what stands in them.
pub proof fn law_a_leg_says_what_stands_in_it(
    chain_id: u64,
    method: Seq<char>,
    params: JsonView,
    shape: Shape,
    a: Answer,
    request: PostRequest,
    leg: Leg,
    class: Option<VerifiedClass>,
    e: RpcError,
)
    ensures
        ask(chain_id, method, params, shape) == (Ask {
            chain_id,
            method,
            params,
            deadline: None,
            shape,
        }),
        Leg::Answered(a)@ == LegView::Answered(a@),
        Leg::Post(request)@ == LegView::Post(request@),
        routed_view(Ok((leg, class))) == Ok::<_, RpcErrorView>((leg@, class)),
        routed_view(Err(e)) == Err::<(LegView, Option<VerifiedClass>), _>(e@),
        leg_view(Ok(leg)) == Ok::<_, RpcErrorView>(leg@),
        leg_view(Err(e)) == Err::<LegView, _>(e@),
{
}

} // verus!
