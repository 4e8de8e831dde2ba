//! What holds of every call: where it may go, how long it may take, and what is said of it.
use vstd::prelude::*;

use crate::config::{VerifiedProxyMode, opt_string};
use crate::dialect::{
    VerifiedClass, are_bytes, block_count, class_of, dialect_params, hex_digits, is_byte,
    normalize_verified_result, proof_backed, route_label, route_text, verified_class,
    verified_params, wire_form,
};
use crate::error::{RpcError, RpcErrorView};
use crate::json::{
    Json, JsonView, empty_object, json_read, json_read_bytes, json_written,
    law_an_added_member_is_found,
};
use crate::link::{ProxyLink, RouterCall, VerifiedRouter, asked, made};
use crate::module::{ModuleState, coded_err_json, err_json, unready_json};
use crate::proxy::{
    ClientPlan, ClientPlanView, PROXY_UNSET, ProxyConfig, ProxyConfigView, ProxyError,
    ProxyErrorView, build_client, law_fail_closed, proxy_objection, supported_scheme,
};
use crate::reply::{
    Answer, AnswerView, PostReply, PostReplyView, PostRequest, PostRequestView, Shape, answer_view,
    body_outcome, build_request, http_error, joined, read_body, read_chain_id, read_response, request_body,
    response_result, shape_answer, shaped,
};
use crate::router::{MIN_PROXY_HOP_MS, passage};
use crate::rpc::{
    Ask, Decision, Leg, LegView, MIN_BUDGET_MS, caller_deadline, configured_wall, deadline_of,
    leg_view, min_budget, proxied_outcome, ran, ran_leg, routed_view, verified_budget,
    verified_span, wall_span,
};
use crate::serve::{
    Envelope, Field, Pending, Served, ServedView, at_least_zero, method_run, served,
};
use crate::store::{EthRpc, EthRpcView, texts};
use crate::text::{
    all_white, decimal, hexadecimal, law_digits_are_lower_case, law_hexadecimal_reads_back,
    law_white_space_is_all_that_vanishes, parsed_u64, quantity_value, trimmed,
};
use crate::time::{Duration, less_by, millis, seconds};
use crate::verdict::VerdictView;

verus! {

/// Whether the chain's calls have to be verified.
pub open spec fn required(store: EthRpcView, chain_id: u64) -> bool {
    store.record(chain_id) is Some && store.record(chain_id)->0.verified_proxy_mode
        == VerifiedProxyMode::Required
}

/// A call on a chain that has to be verified never goes to the node, and a proxy that refuses is not
/// answered for: there is no fallback. An answer is one that the router really gave.
pub proof fn law_required_never_falls_back<R: VerifiedRouter>(
    store: EthRpcView,
    ask: Ask,
    before: Option<ProxyLink<R>>,
    after: Option<ProxyLink<R>>,
)
    requires
        required(store, ask.chain_id),
        store.decide(before is Some, ask).asks(ask, before, after),
    ensures
        ({
            let decision = store.decide(before is Some, ask);
            let outcome = decision.outcome(ask, asked(after));
            &&& decision !is AskNode
            &&& outcome matches Ok((leg, class)) ==> {
                &&& leg is Answered
                &&& class == Some(class_of(ask.method))
                &&& asked(after).len() == asked(before).len() + 1
                &&& asked(after).last().answer is Ok
                &&& after is Some
                &&& made(after->0.inner(), asked(after).last())
            }
            &&& decision is AskProxy && asked(after).last().answer is Err ==> outcome == Err::<
                (LegView, Option<VerifiedClass>),
                _,
            >(RpcErrorView::VerifiedProxy(asked(after).last().answer->Err_0))
        }),
{
}

/// A call on a chain that is off never touches the proxy.
pub proof fn law_off_never_asks_the_proxy<R: VerifiedRouter>(
    store: EthRpcView,
    ask: Ask,
    before: Option<ProxyLink<R>>,
    after: Option<ProxyLink<R>>,
)
    requires
        !required(store, ask.chain_id),
        store.decide(before is Some, ask).asks(ask, before, after),
    ensures
        store.decide(before is Some, ask) !is AskProxy,
        asked(after) == asked(before),
{
}

/// The proxy is asked at most once for a call, for that call, and only what is asked of it is added
/// to what it was asked before.
pub proof fn law_the_proxy_is_asked_at_most_once<R: VerifiedRouter>(
    store: EthRpcView,
    ask: Ask,
    before: Option<ProxyLink<R>>,
    after: Option<ProxyLink<R>>,
)
    requires
        store.decide(before is Some, ask).asks(ask, before, after),
    ensures
        asked(before).len() <= asked(after).len() <= asked(before).len() + 1,
        asked(before).is_prefix_of(asked(after)),
        asked(after).len() > asked(before).len() ==> {
            &&& asked(after).last().chain_id == ask.chain_id
            &&& asked(after).last().method == ask.method
            &&& after is Some
            &&& made(after->0.inner(), asked(after).last())
        },
{
}

/// The route that an answer is labelled with is the one that the call took.
pub proof fn law_the_label_is_the_route(
    store: EthRpcView,
    wired: bool,
    ask: Ask,
    after: Seq<RouterCall>,
)
    ensures
        store.decide(wired, ask).outcome(ask, after) matches Ok((_, class)) ==> class
            == store.route_of(ask.chain_id, ask.method),
{
}

/// A caller's deadline only ever shortens what the chain permits. Without one, a verified call has
/// exactly what is configured, and a direct one carries no deadline of its own. Whoever is asked is
/// given enough time to answer at all.
pub proof fn law_a_deadline_only_shortens(store: EthRpcView, wired: bool, ask: Ask)
    requires
        store.record(ask.chain_id) is Some,
    ensures
        ({
            let c = store.record(ask.chain_id)->0;
            match store.decide(wired, ask) {
                Decision::AskProxy { budget, .. } => {
                    &&& budget <= verified_span(c.verified_timeout_secs)
                    &&& budget >= millis(MIN_BUDGET_MS as int)
                    &&& match ask.deadline {
                        Some(d) => budget <= d,
                        None => budget == verified_span(c.verified_timeout_secs),
                    }
                },
                Decision::AskNode(request) => match (ask.deadline, request.budget) {
                    (Some(d), Some(b)) => {
                        &&& b <= d
                        &&& b <= wall_span(c.timeout_secs)
                        &&& b >= millis(MIN_BUDGET_MS as int)
                    },
                    (None, None) => true,
                    _ => false,
                },
                Decision::Refuse(_) => true,
            }
        }),
{
}

/// A deadline that leaves too little time is refused as a timeout that names it, and nobody is
/// asked.
pub proof fn law_too_little_time_is_refused(store: EthRpcView, ask: Ask)
    requires
        store.record(ask.chain_id) is Some,
        ask.deadline is Some,
        ask.deadline->0 < millis(MIN_BUDGET_MS as int),
    ensures
        store.decide(true, ask) matches Decision::Refuse(RpcErrorView::Timeout { budget_ms, .. })
            && budget_ms == ask.deadline->0 / 1_000_000,
{
    let c = store.record(ask.chain_id)->0;
    assert(verified_span(c.verified_timeout_secs) >= seconds(1));
    assert(wall_span(c.timeout_secs) >= seconds(2));
}

/// Whatever the user configured, a verified call has between one second and sixty, and exactly what was
/// configured where that lies between.
pub proof fn law_verified_budget_is_sane(secs: u64)
    ensures
        secs == 0 ==> verified_span(secs) == 1_000_000_000,
        secs > 60 ==> verified_span(secs) == 60_000_000_000,
        seconds(1) <= verified_span(secs) <= seconds(60),
        1 <= secs <= 60 ==> verified_span(secs) == seconds(secs as int),
{
}

/// An explicit url is refused exactly the reads that the verified route proves, exactly on the
/// chains that ask for proof; and what it is refused is not sent to the proxy instead.
pub proof fn law_a_url_proves_nothing(
    store: EthRpcView,
    chain_id: u64,
    url: Seq<char>,
    method: Seq<char>,
    params: JsonView,
)
    ensures
        (required(store, chain_id) && proof_backed(method)) <==> store.url_call(
            chain_id,
            url,
            method,
            params,
        ) == Err::<PostRequestView, _>(RpcErrorView::VerifiedBypass(method)),
{
}

/// A chain that must use a network proxy and has no usable one sends nothing, neither to its node nor
/// to an explicit url. Where something is sent it goes through the proxy that is set.
pub proof fn law_no_request_in_the_clear(
    store: EthRpcView,
    wired: bool,
    ask: Ask,
    url: Seq<char>,
)
    requires
        store.record(ask.chain_id) is Some,
        store.record(ask.chain_id)->0.proxy_required,
    ensures
        ({
            let c = store.record(ask.chain_id)->0;
            let policy = ProxyConfigView {
                proxy: c.proxy,
                proxy_required: true,
                timeout_secs: c.timeout_secs,
            };
            &&& policy.client() is Err ==> {
                &&& store.decide(wired, ask) !is AskNode
                &&& store.url_call(ask.chain_id, url, ask.method, ask.params) is Err
            }
            &&& policy.url() is None && !c.contradictory() ==> {
                &&& store.decide(wired, ask) is Refuse
                &&& ask.deadline is None ==> store.decide(wired, ask) == Decision::Refuse(
                    RpcErrorView::Proxy(PROXY_UNSET@),
                )
                &&& store.url_call(ask.chain_id, url, ask.method, ask.params) == Err::<
                    PostRequestView,
                    _,
                >(RpcErrorView::Proxy(PROXY_UNSET@))
            }
            &&& store.decide(wired, ask) matches Decision::AskNode(request)
                ==> request.client.proxy is Some && request.client.proxy == policy.url()
            &&& store.url_call(ask.chain_id, url, ask.method, ask.params) matches Ok(request)
                ==> request.client.proxy is Some && request.client.proxy == policy.url()
        }),
{
    let c = store.record(ask.chain_id)->0;
    law_fail_closed(
        ProxyConfigView { proxy: c.proxy, proxy_required: true, timeout_secs: c.timeout_secs },
    );
}

/// What a node is sent is the method and the parameters as they were given: the proxy's dialect is
/// spoken to the proxy alone.
pub proof fn law_nodes_are_sent_what_was_asked(store: EthRpcView, wired: bool, ask: Ask)
    ensures
        match store.decide(wired, ask) {
            Decision::AskNode(request) => {
                &&& request.body == request_body(ask.method, ask.params)
                &&& request.url == store.record(ask.chain_id)->0.endpoint
                &&& request.shape == ask.shape
            },
            Decision::AskProxy { params, .. } => params == JsonView::Array(
                dialect_params(ask.method, ask.params),
            ),
            Decision::Refuse(_) => true,
        },
{
}

/// An answer in wire form is left alone, and so is one that was brought into it.
pub proof fn law_wire_form_is_left_alone(v: JsonView)
    ensures
        wire_form(wire_form(v)) == wire_form(v),
        v is Text ==> wire_form(v) == v,
        v is Object ==> wire_form(v) == v,
        v matches JsonView::Array(items) ==> !are_bytes(items) ==> wire_form(v) == v,
{
}

/// The time ran out only where a budget was given and the transport says that it did; everything
/// else is a transport failure, so that a slow endpoint can be told from a refused one.
pub proof fn law_a_timeout_is_told_apart(
    request: PostRequestView,
    timed_out: bool,
    causes: Seq<Seq<char>>,
)
    ensures
        ({
            let outcome = request.outcome(PostReplyView::Failed { timed_out, causes });
            &&& outcome is Err
            &&& outcome->Err_0 is Timeout <==> timed_out && request.budget is Some
            &&& outcome->Err_0 !is Timeout ==> outcome->Err_0 is Http
        }),
{
}

/// A call goes on to the proxy only where the verdict says that the proxy is usable, and then has no
/// more time than the verdict left of its budget, and enough to ask.
pub proof fn law_only_a_usable_proxy_is_asked(
    v: VerdictView,
    method: Seq<char>,
    budget: nat,
    spent: nat,
)
    ensures
        passage(v, method, budget, spent) matches Ok(left) ==> {
            &&& v.usable
            &&& left <= budget
            &&& left == less_by(budget, spent)
            &&& left >= millis(MIN_PROXY_HOP_MS as int)
        },
        !v.usable ==> passage(v, method, budget, spent) is Err,
{
}

/// Every kind of error has a token of its own, and a token is one word, not prose.
pub proof fn law_codes_tell_errors_apart(a: RpcErrorView, b: RpcErrorView)
    ensures
        a.code() == b.code() ==> same_kind(a, b),
        a.code().len() > 0,
        forall|i: int| 0 <= i < a.code().len() ==> #[trigger] a.code()[i] != ' ',
{
    reveal_strlit("unknown_chain");
    reveal_strlit("proxy");
    reveal_strlit("http");
    reveal_strlit("timeout");
    reveal_strlit("rpc");
    reveal_strlit("parse");
    reveal_strlit("verified_proxy");
    reveal_strlit("verified_bypass");
    assert("proxy"@[1] == 'r');
    assert("parse"@[1] == 'a');
    assert(a.code().len() == b.code().len() ==> same_kind(a, b) || a.code()[1] != b.code()[1]);
}

/// Whether two errors are of one kind.
pub open spec fn same_kind(a: RpcErrorView, b: RpcErrorView) -> bool {
    match a {
        RpcErrorView::UnknownChain(_) => b is UnknownChain,
        RpcErrorView::Proxy(_) => b is Proxy,
        RpcErrorView::Http(_) => b is Http,
        RpcErrorView::Timeout { .. } => b is Timeout,
        RpcErrorView::Rpc { .. } => b is Rpc,
        RpcErrorView::Parse(_) => b is Parse,
        RpcErrorView::VerifiedProxy(_) => b is VerifiedProxy,
        RpcErrorView::VerifiedBypass(_) => b is VerifiedBypass,
    }
}

/// The two hexadecimal digits of every byte stand in a row, in the order of the bytes.
proof fn lemma_hex_digits(items: Seq<JsonView>, i: int)
    requires
        forall|j: int|
            0 <= j < items.len() ==> (#[trigger] items[j]) is Int && 0 <= items[j]->Int_0 <= 255,
        0 <= i < items.len(),
    ensures
        hex_digits(items).len() == 2 * items.len(),
        hex_digits(items)[2 * i] == "0123456789abcdef"@[items[i]->Int_0 / 16],
        hex_digits(items)[2 * i + 1] == "0123456789abcdef"@[items[i]->Int_0 % 16],
    decreases items.len(),
{
    let less = items.drop_last();
    let last = items.last();
    assert(last == items[items.len() - 1]);
    let b = last->Int_0;
    law_digits_are_lower_case((b / 16) as nat);
    law_digits_are_lower_case((b % 16) as nat);
    if less.len() > 0 {
        assert forall|j: int| 0 <= j < less.len() implies (#[trigger] less[j]) is Int && 0
            <= less[j]->Int_0 <= 255 by {
            assert(less[j] == items[j]);
        }
        lemma_hex_digits(
            less,
            if i < less.len() {
                i
            } else {
                0
            },
        );
    } else {
        assert(hex_digits(less) =~= Seq::empty());
    }
}

/// An array of bytes, of whatever length, is given back as `0x` and two hexadecimal digits for each of
/// them, in order.
pub proof fn law_bytes_are_given_back_in_hexadecimal(items: Seq<JsonView>, i: int)
    requires
        forall|j: int|
            0 <= j < items.len() ==> (#[trigger] items[j]) is Int && 0 <= items[j]->Int_0 <= 255,
        0 <= i < items.len(),
    ensures
        wire_form(JsonView::Array(items)) matches JsonView::Text(s) && {
            &&& s.len() == 2 + 2 * items.len()
            &&& s[0] == '0' && s[1] == 'x'
            &&& s[2 + 2 * i] == "0123456789abcdef"@[items[i]->Int_0 / 16]
            &&& s[3 + 2 * i] == "0123456789abcdef"@[items[i]->Int_0 % 16]
        },
{
    assert(are_bytes(items)) by {
        assert forall|j: int| 0 <= j < items.len() implies is_byte(#[trigger] items[j]) by {
            assert(items[j] is Int && 0 <= items[j]->Int_0 <= 255);
        }
    }
    lemma_hex_digits(items, i);
    reveal_strlit("0x");
}

/// A bare number that is not negative and fits 64 bits is given back as a hexadecimal quantity, which
/// reads as that number. An array that is empty, or has an item that is no byte, and everything else
/// is given back as it came.
pub proof fn law_only_the_dialect_is_rewritten(v: JsonView, n: u64, i: int)
    ensures
        wire_form(JsonView::Int(n as int)) == JsonView::Text("0x"@ + hexadecimal(n as nat)),
        quantity_value("0x"@ + hexadecimal(n as nat)) == Some(n),
        v matches JsonView::Int(m) ==> m < 0 || m > u64::MAX ==> wire_form(v) == v,
        v matches JsonView::Array(items) ==> {
            &&& items.len() == 0 ==> wire_form(v) == v
            &&& 0 <= i < items.len() && !(items[i] is Int && 0 <= items[i]->Int_0 <= 255)
                ==> wire_form(v) == v
        },
        v is Null || v is Bool || v is Float || v is Text || v is Object ==> wire_form(v) == v,
{
    let none = Seq::<char>::empty();
    law_hexadecimal_reads_back(n, none, none);
    assert(none + ("0x"@ + hexadecimal(n as nat)) + none =~= "0x"@ + hexadecimal(n as nat));
    if let JsonView::Array(items) = v {
        if 0 <= i < items.len() && !(items[i] is Int && 0 <= items[i]->Int_0 <= 255) {
            assert(!is_byte(items[i]));
        }
    }
}

/// The block count that a node takes as a hexadecimal quantity is the number itself for the proxy,
/// whatever it is, and nothing else of the parameters changes.
pub proof fn law_a_block_count_is_the_same_number(n: u64, rest: Seq<JsonView>)
    ensures
        block_count(JsonView::Text("0x"@ + hexadecimal(n as nat))) == Some(n),
        dialect_params(
            "eth_feeHistory"@,
            JsonView::Array(seq![JsonView::Text("0x"@ + hexadecimal(n as nat))] + rest),
        ) == seq![JsonView::Int(n as int)] + rest,
{
    let none = Seq::<char>::empty();
    law_hexadecimal_reads_back(n, none, none);
    let given = seq![JsonView::Text("0x"@ + hexadecimal(n as nat))] + rest;
    assert(given[0] == JsonView::Text("0x"@ + hexadecimal(n as nat)));
    assert(given.update(0, JsonView::Int(n as int)) =~= seq![JsonView::Int(n as int)] + rest);
}

/// What stands first in a fee history's parameters is a number for the proxy exactly where it is `0x`
/// and a number in hexadecimal. Anything else, and what follows, stays.
pub proof fn law_only_a_block_count_is_rewritten(p: Seq<JsonView>, digits: Seq<char>)
    ensures
        ({
            let told = dialect_params("eth_feeHistory"@, JsonView::Array(p));
            &&& told.len() == p.len()
            &&& forall|i: int| 1 <= i < p.len() ==> #[trigger] told[i] == p[i]
            &&& p.len() > 0 ==> {
                &&& p[0] !is Text ==> told[0] == p[0]
                &&& p[0] matches JsonView::Text(s) ==> (s.len() < 2 || s[0] != '0' || s[1] != 'x')
                    ==> told[0] == p[0]
                &&& p[0] == JsonView::Text("0x"@ + digits) ==> told[0] == match parsed_u64(
                    digits,
                    16,
                ) {
                    Some(n) => JsonView::Int(n as int),
                    None => p[0],
                }
            }
        }),
{
    reveal_strlit("0x");
    assert(("0x"@ + digits).skip(2) =~= digits);
}

/// A nonce is asked for at `latest` where the caller asked at `pending`, which nobody can prove; every
/// other block and everything else stays.
pub proof fn law_pending_becomes_latest(p: Seq<JsonView>, i: int)
    requires
        0 <= i < p.len(),
    ensures
        ({
            let told = dialect_params("eth_getTransactionCount"@, JsonView::Array(p));
            &&& told.len() == p.len()
            &&& told[i] == if i == 1 && p[i] == JsonView::Text("pending"@) {
                JsonView::Text("latest"@)
            } else {
                p[i]
            }
        }),
{
    lemma_methods_differ();
}

/// A contract call, an estimate and an access list have three parameters for the proxy: what is given
/// stays, a block that is lacking is `latest`, and a third one that is lacking is `false`.
pub proof fn law_a_call_has_three_parameters(method: Seq<char>, p: Seq<JsonView>, i: int)
    requires
        method == "eth_call"@ || method == "eth_estimateGas"@ || method == "eth_createAccessList"@,
    ensures
        ({
            let told = dialect_params(method, JsonView::Array(p));
            &&& told.len() == if p.len() < 3 {
                3
            } else {
                p.len()
            }
            &&& 0 <= i < p.len() ==> told[i] == p[i]
            &&& p.len() <= i < 2 ==> told[i] == JsonView::Text("latest"@)
            &&& p.len() <= 2 ==> told[2] == JsonView::Bool(false)
        }),
{
    lemma_methods_differ();
}

proof fn lemma_methods_differ()
    ensures
        "eth_feeHistory"@.len() == 14,
        "eth_getTransactionCount"@.len() == 23,
        "eth_call"@.len() == 8,
        "eth_estimateGas"@.len() == 15,
        "eth_createAccessList"@.len() == 20,
{
    reveal_strlit("eth_feeHistory");
    reveal_strlit("eth_getTransactionCount");
    reveal_strlit("eth_call");
    reveal_strlit("eth_estimateGas");
    reveal_strlit("eth_createAccessList");
}

/// The parameters of every other method go to the proxy as they are, and parameters that are no array
/// count as none.
pub proof fn law_other_parameters_stay(method: Seq<char>, params: JsonView)
    ensures
        method != "eth_feeHistory"@ && method != "eth_getTransactionCount"@ && method
            != "eth_call"@ && method != "eth_estimateGas"@ && method != "eth_createAccessList"@
            ==> dialect_params(method, params) == match params {
            JsonView::Array(p) => p,
            _ => Seq::empty(),
        },
        params !is Array ==> dialect_params(method, params) == dialect_params(
            method,
            JsonView::Array(Seq::empty()),
        ),
{
}

/// Exactly five methods read what can be proved; an answer to any other that comes through the proxy is
/// forwarded, and one that did not come through it is direct.
pub proof fn law_five_reads_are_proved(store: EthRpcView, chain_id: u64, method: Seq<char>)
    ensures
        class_of(method) == VerifiedClass::Verified <==> {
            ||| method == "eth_getBalance"@
            ||| method == "eth_getTransactionCount"@
            ||| method == "eth_getCode"@
            ||| method == "eth_getStorageAt"@
            ||| method == "eth_call"@
        },
        proof_backed(method) <==> class_of(method) == VerifiedClass::Verified,
        store.route_of(chain_id, method) == if required(store, chain_id) {
            Some(class_of(method))
        } else {
            None
        },
        route_text(Some(VerifiedClass::Verified)) == "verified"@,
        route_text(Some(VerifiedClass::Proxied)) == "proxied"@,
        route_text(None) == "direct"@,
{
}

/// A proxy url can be used where it begins with one of four schemes, and nowhere else.
pub proof fn law_four_schemes_are_supported(url: Seq<char>, rest: Seq<char>)
    ensures
        supported_scheme("socks5h://"@ + rest),
        supported_scheme("socks5://"@ + rest),
        supported_scheme("http://"@ + rest),
        supported_scheme("https://"@ + rest),
        supported_scheme(url) ==> {
            ||| url == "socks5h://"@ + url.skip("socks5h://"@.len() as int)
            ||| url == "socks5://"@ + url.skip("socks5://"@.len() as int)
            ||| url == "http://"@ + url.skip("http://"@.len() as int)
            ||| url == "https://"@ + url.skip("https://"@.len() as int)
        },
{
    let a = "socks5h://"@;
    let b = "socks5://"@;
    let c = "http://"@;
    let d = "https://"@;
    assert((a + rest).take(a.len() as int) =~= a);
    assert((b + rest).take(b.len() as int) =~= b);
    assert((c + rest).take(c.len() as int) =~= c);
    assert((d + rest).take(d.len() as int) =~= d);
    if supported_scheme(url) {
        if a.len() <= url.len() && url.take(a.len() as int) == a {
            assert(url =~= url.take(a.len() as int) + url.skip(a.len() as int));
        } else if b.len() <= url.len() && url.take(b.len() as int) == b {
            assert(url =~= url.take(b.len() as int) + url.skip(b.len() as int));
        } else if c.len() <= url.len() && url.take(c.len() as int) == c {
            assert(url =~= url.take(c.len() as int) + url.skip(c.len() as int));
        } else {
            assert(url =~= url.take(d.len() as int) + url.skip(d.len() as int));
        }
    }
}

/// The proxy that a setting stands for: the url without the white space around it, and none where
/// nothing is set or nothing but white space.
pub open spec fn proxy_set(proxy: Option<Seq<char>>) -> Option<Seq<char>> {
    match proxy {
        Some(p) => if all_white(p) {
            None
        } else {
            Some(trimmed(p))
        },
        None => None,
    }
}

/// A client goes through the proxy that is set, whether or not it has to, and through none where none
/// is set. It is refused where a proxy is required and not set, where the url is of no supported kind,
/// and where the url is objected to; and nowhere else.
pub proof fn law_a_client_goes_through_the_proxy_that_is_set(config: ProxyConfigView)
    ensures
        config.client() == match proxy_set(config.proxy) {
            None => if config.proxy_required {
                Err(ProxyErrorView::ProxyRequiredButUnset)
            } else {
                Ok(
                    ClientPlanView {
                        proxy: None,
                        timeout: if config.timeout_secs == 0 {
                            None
                        } else {
                            Some((config.timeout_secs * 1_000_000_000) as nat)
                        },
                    },
                )
            },
            Some(url) => if !supported_scheme(url) {
                Err(ProxyErrorView::ProxyUnusable(url))
            } else {
                match proxy_objection(url) {
                    Some(e) => Err(ProxyErrorView::ProxyUnusable(e)),
                    None => Ok(
                        ClientPlanView {
                            proxy: Some(url),
                            timeout: if config.timeout_secs == 0 {
                                None
                            } else {
                                Some((config.timeout_secs * 1_000_000_000) as nat)
                            },
                        },
                    ),
                }
            },
        },
        config.url() == proxy_set(config.proxy),
{
    if let Some(p) = config.proxy {
        law_white_space_is_all_that_vanishes(p);
    }
}

/// Given what was said against the url, a client is refused or goes through the proxy in the same way: an
/// objection counts only where there is a url that it can be about.
pub proof fn law_an_objection_is_heard(config: ProxyConfigView, objection: Option<Seq<char>>)
    ensures
        ({
            let plan = config.plan_given(objection);
            match proxy_set(config.proxy) {
                None => {
                    &&& config.proxy_required ==> plan == Err::<ClientPlanView, _>(
                        ProxyErrorView::ProxyRequiredButUnset,
                    )
                    &&& !config.proxy_required ==> plan is Ok && plan->Ok_0.proxy is None
                    &&& config.usable_url() == if config.proxy_required {
                        Err(ProxyErrorView::ProxyRequiredButUnset)
                    } else {
                        Ok(None::<Seq<char>>)
                    }
                },
                Some(url) => {
                    &&& !supported_scheme(url) ==> plan == Err::<ClientPlanView, _>(
                        ProxyErrorView::ProxyUnusable(url),
                    )
                    &&& supported_scheme(url) && objection is Some ==> plan == Err::<
                        ClientPlanView,
                        _,
                    >(ProxyErrorView::ProxyUnusable(objection->0))
                    &&& supported_scheme(url) && objection is None ==> plan is Ok
                        && plan->Ok_0.proxy == Some(url)
                    &&& config.usable_url() == if supported_scheme(url) {
                        Ok(Some(url))
                    } else {
                        Err(ProxyErrorView::ProxyUnusable(url))
                    }
                },
            }
        }),
        config.plan_given(objection) matches Ok(plan) ==> plan.timeout == if config.timeout_secs
            == 0 {
            None
        } else {
            Some((config.timeout_secs * 1_000_000_000) as nat)
        },
{
    law_a_client_goes_through_the_proxy_that_is_set(config);
}

/// Whatever is sent for a chain, to its node or to an explicit url, goes through the network proxy that
/// its record sets, required or not, and directly where the record sets none. It carries the record's
/// timeout.
pub proof fn law_every_request_goes_through_the_proxy_that_is_set(
    store: EthRpcView,
    wired: bool,
    ask: Ask,
    url: Seq<char>,
)
    requires
        store.record(ask.chain_id) is Some,
    ensures
        ({
            let c = store.record(ask.chain_id)->0;
            let timeout = if c.timeout_secs == 0 {
                None
            } else {
                Some((c.timeout_secs * 1_000_000_000) as nat)
            };
            &&& store.decide(wired, ask) matches Decision::AskNode(request) ==> {
                &&& request.client.proxy == proxy_set(c.proxy)
                &&& request.client.timeout == timeout
                &&& request.url == c.endpoint
            }
            &&& store.url_call(ask.chain_id, url, ask.method, ask.params) matches Ok(request) ==> {
                &&& request.client.proxy == proxy_set(c.proxy)
                &&& request.client.timeout == timeout
                &&& request.url == url
            }
        }),
{
    let c = store.record(ask.chain_id)->0;
    law_a_client_goes_through_the_proxy_that_is_set(
        ProxyConfigView {
            proxy: c.proxy,
            proxy_required: c.proxy_required,
            timeout_secs: c.timeout_secs,
        },
    );
}

/// Why a chain's network proxy lets nothing through, where it does not.
pub open spec fn proxy_trouble(proxy: Option<Seq<char>>, proxy_required: bool) -> Option<
    Seq<char>,
> {
    match proxy_set(proxy) {
        None => if proxy_required {
            Some(
                "proxy required but none configured (fail-closed: refusing to send in the clear)"@,
            )
        } else {
            None
        },
        Some(url) => if !supported_scheme(url) {
            Some("proxy URL is invalid or unsupported: "@ + url)
        } else {
            match proxy_objection(url) {
                Some(e) => Some("proxy URL is invalid or unsupported: "@ + e),
                None => None,
            }
        },
    }
}

/// What becomes of a call on a chain that is off: the node is asked, with the caller's deadline cut to
/// twice the timeout and no deadline where the caller has none, unless too little time is left or the
/// network proxy lets nothing through.
pub proof fn law_a_call_that_is_off_asks_the_node(store: EthRpcView, wired: bool, ask: Ask)
    requires
        store.record(ask.chain_id) is Some,
        !required(store, ask.chain_id),
    ensures
        ({
            let c = store.record(ask.chain_id)->0;
            let phase = if c.timeout_secs == 0 {
                30
            } else {
                c.timeout_secs as int
            };
            let wall = if 2 * phase > u64::MAX {
                u64::MAX * 1_000_000_000
            } else {
                2 * phase * 1_000_000_000
            };
            let short = ask.deadline is Some && (ask.deadline->0 < 50_000_000 || wall
                < 50_000_000);
            let trouble = proxy_trouble(c.proxy, c.proxy_required);
            &&& short ==> store.decide(wired, ask) == Decision::Refuse(
                RpcErrorView::Timeout {
                    budget_ms: ask.deadline->0 / 1_000_000,
                    detail: "too little time left to ask chain "@ + decimal(ask.chain_id as int),
                },
            )
            &&& !short && trouble is Some ==> store.decide(wired, ask) == Decision::Refuse(
                RpcErrorView::Proxy(trouble->0),
            )
            &&& !short && trouble is None ==> {
                &&& store.decide(wired, ask) is AskNode
                &&& store.decide(wired, ask)->AskNode_0.body == request_body(ask.method, ask.params)
                &&& store.decide(wired, ask)->AskNode_0.shape == ask.shape
                &&& store.decide(wired, ask)->AskNode_0.budget == match ask.deadline {
                    None => None,
                    Some(d) => if d <= wall {
                        Some(d)
                    } else {
                        Some(wall as nat)
                    },
                }
            }
        }),
{
    let c = store.record(ask.chain_id)->0;
    law_a_client_goes_through_the_proxy_that_is_set(
        ProxyConfigView {
            proxy: c.proxy,
            proxy_required: c.proxy_required,
            timeout_secs: c.timeout_secs,
        },
    );
}

/// What becomes of a call on a chain that has to be verified: the proxy is asked, in its dialect, with
/// the configured seconds held between one and sixty and the caller's deadline where that is shorter,
/// unless there is no proxy to ask or too little time. A chain without a record is refused.
pub proof fn law_a_call_that_is_required_asks_the_proxy(store: EthRpcView, wired: bool, ask: Ask)
    ensures
        store.record(ask.chain_id) is None ==> store.decide(wired, ask) == Decision::Refuse(
            RpcErrorView::UnknownChain(ask.chain_id),
        ),
        required(store, ask.chain_id) ==> {
            let secs = store.record(ask.chain_id)->0.verified_timeout_secs;
            let most = if secs == 0 {
                1_000_000_000
            } else if secs > 60 {
                60_000_000_000
            } else {
                secs * 1_000_000_000
            };
            let budget = if ask.deadline is Some && ask.deadline->0 < most {
                ask.deadline->0 as int
            } else {
                most
            };
            &&& !wired ==> store.decide(wired, ask) == Decision::Refuse(
                RpcErrorView::VerifiedProxy("no verified proxy is wired up"@),
            )
            &&& wired && budget < 50_000_000 ==> store.decide(wired, ask) == Decision::Refuse(
                RpcErrorView::Timeout {
                    budget_ms: (budget / 1_000_000) as nat,
                    detail: "too little time left to ask the verified proxy"@,
                },
            )
            &&& wired && budget >= 50_000_000 ==> store.decide(wired, ask) == (Decision::AskProxy {
                params: JsonView::Array(dialect_params(ask.method, ask.params)),
                budget: budget as nat,
            })
        },
{
}

/// What becomes of a call to an explicit url: refused for a chain without a record, for a read that has
/// to be proved and where the network proxy lets nothing through; else the url is asked just this,
/// without a deadline.
pub proof fn law_an_explicit_url_is_asked_what_was_asked(
    store: EthRpcView,
    chain_id: u64,
    url: Seq<char>,
    method: Seq<char>,
    params: JsonView,
)
    ensures
        ({
            let r = store.url_call(chain_id, url, method, params);
            let c = store.record(chain_id)->0;
            let bypass = required(store, chain_id) && class_of(method) == VerifiedClass::Verified;
            let trouble = proxy_trouble(c.proxy, c.proxy_required);
            &&& store.record(chain_id) is None ==> r == Err::<PostRequestView, _>(
                RpcErrorView::UnknownChain(chain_id),
            )
            &&& store.record(chain_id) is Some && bypass ==> r == Err::<PostRequestView, _>(
                RpcErrorView::VerifiedBypass(method),
            )
            &&& store.record(chain_id) is Some && !bypass && trouble is Some ==> r == Err::<
                PostRequestView,
                _,
            >(RpcErrorView::Proxy(trouble->0))
            &&& store.record(chain_id) is Some && !bypass && trouble is None ==> {
                &&& r is Ok
                &&& r->Ok_0.url == url
                &&& r->Ok_0.body == request_body(method, params)
                &&& r->Ok_0.budget is None
                &&& r->Ok_0.shape == Shape::Value
            }
        }),
{
    let c = store.record(chain_id)->0;
    law_a_client_goes_through_the_proxy_that_is_set(
        ProxyConfigView {
            proxy: c.proxy,
            proxy_required: c.proxy_required,
            timeout_secs: c.timeout_secs,
        },
    );
}

/// A chain's timeout is spent twice, once until the headers and once for the body; 0 stands for half a
/// minute. A caller's milliseconds are a deadline where they are above zero.
pub proof fn law_a_timeout_is_spent_twice(timeout_secs: u64, ms: i64)
    ensures
        wall_span(0) == 60_000_000_000,
        0 < timeout_secs && 2 * timeout_secs <= u64::MAX ==> wall_span(timeout_secs) == timeout_secs
            * 2_000_000_000,
        2 * timeout_secs > u64::MAX ==> wall_span(timeout_secs) == u64::MAX * 1_000_000_000,
        deadline_of(None) is None,
        ms <= 0 ==> deadline_of(Some(ms)) is None,
        ms > 0 ==> deadline_of(Some(ms)) == Some((ms * 1_000_000) as nat),
{
}

/// Where the proxy is asked it is asked this call, with these parameters and this budget; nobody else
/// is asked anything. What it answers is brought into wire form and into the shape that was asked for.
pub proof fn law_the_proxy_is_asked_what_was_decided<R: VerifiedRouter>(
    decision: Decision,
    ask: Ask,
    before: Option<ProxyLink<R>>,
    after: Option<ProxyLink<R>>,
)
    requires
        decision.asks(ask, before, after),
    ensures
        decision matches Decision::AskProxy { params, budget } ==> {
            let call = asked(after).last();
            &&& asked(after) == asked(before).push(call)
            &&& call.chain_id == ask.chain_id
            &&& call.method == ask.method
            &&& call.params == params
            &&& call.budget == budget
            &&& after is Some
            &&& made(after->0.inner(), call)
            &&& call.answer matches Err(e) ==> decision.outcome(ask, asked(after)) == Err::<
                (LegView, Option<VerifiedClass>),
                _,
            >(RpcErrorView::VerifiedProxy(e))
            &&& call.answer matches Ok(v) ==> match shaped(ask.shape, wire_form(v)) {
                Ok(a) => decision.outcome(ask, asked(after)) == Ok::<_, RpcErrorView>(
                    (LegView::Answered(a), Some(class_of(ask.method))),
                ),
                Err(e) => decision.outcome(ask, asked(after)) == Err::<
                    (LegView, Option<VerifiedClass>),
                    _,
                >(e),
            }
        },
        decision matches Decision::Refuse(e) ==> {
            &&& asked(after) == asked(before)
            &&& decision.outcome(ask, asked(after)) == Err::<(LegView, Option<VerifiedClass>), _>(e)
        },
        decision matches Decision::AskNode(request) ==> {
            &&& asked(after) == asked(before)
            &&& decision.outcome(ask, asked(after)) == Ok::<_, RpcErrorView>(
                (LegView::Post(request), None::<VerifiedClass>),
            )
        },
{
    if let Decision::AskProxy { params, budget } = decision {
        let answer = asked(after).last().answer;
        assert(decision.outcome(ask, asked(after)) == proxied_outcome(
            ask.method,
            ask.shape,
            answer,
        ));
    }
}

/// A call comes to what was decided of it, and one whose route is not wanted comes to the same without
/// the route.
pub proof fn law_a_call_comes_to_what_was_decided<R: VerifiedRouter>(
    store: EthRpcView,
    ask: Ask,
    before: Option<ProxyLink<R>>,
    after: Option<ProxyLink<R>>,
    routed: Result<(LegView, Option<VerifiedClass>), RpcErrorView>,
    leg: Result<LegView, RpcErrorView>,
)
    ensures
        ran(store, ask, before, after, routed) ==> {
            &&& store.decide(before is Some, ask).asks(ask, before, after)
            &&& routed == store.decide(before is Some, ask).outcome(ask, asked(after))
        },
        ran_leg(store, ask, before, after, leg) ==> {
            &&& store.decide(before is Some, ask).asks(ask, before, after)
            &&& match store.decide(before is Some, ask).outcome(ask, asked(after)) {
                Ok((l, _)) => leg == Ok::<_, RpcErrorView>(l),
                Err(e) => leg == Err::<LegView, _>(e),
            }
        },
{
}

/// A request names its method and carries its parameters, in the envelope that a node expects.
pub proof fn law_a_request_names_its_call(method: Seq<char>, params: JsonView)
    ensures
        ({
            let body = request_body(method, params);
            &&& body is Object
            &&& body->Object_0.len() == 4
            &&& body.get("jsonrpc"@) == Some(JsonView::Text("2.0"@))
            &&& body.get("id"@) == Some(JsonView::Int(1))
            &&& body.get("method"@) == Some(JsonView::Text(method))
            &&& body.get("params"@) == Some(params)
        }),
{
    reveal_strlit("jsonrpc");
    reveal_strlit("id");
    reveal_strlit("method");
    reveal_strlit("params");
    assert("method"@[0] == 'm' && "params"@[0] == 'p');
    assert("jsonrpc"@.len() == 7 && "id"@.len() == 2 && "method"@.len() == 6 && "params"@.len() == 6);
    let b1 = empty_object().with("jsonrpc"@, JsonView::Text("2.0"@));
    let b2 = b1.with("id"@, JsonView::Int(1));
    let b3 = b2.with("method"@, JsonView::Text(method));
    law_an_added_member_is_found(
        empty_object(),
        "jsonrpc"@,
        JsonView::Text("2.0"@),
        "id"@,
    );
    law_an_added_member_is_found(b1, "id"@, JsonView::Int(1), "jsonrpc"@);
    law_an_added_member_is_found(b2, "method"@, JsonView::Text(method), "jsonrpc"@);
    law_an_added_member_is_found(b2, "method"@, JsonView::Text(method), "id"@);
    law_an_added_member_is_found(b3, "params"@, params, "jsonrpc"@);
    law_an_added_member_is_found(b3, "params"@, params, "id"@);
    law_an_added_member_is_found(b3, "params"@, params, "method"@);
}

/// A response is its result, unless it carries an error, which then is what it comes to, with its code
/// and message; one with neither is refused.
pub proof fn law_a_response_is_its_result_or_its_error(v: JsonView)
    ensures
        v.get("error"@) is None ==> match v.get("result"@) {
            Some(result) => response_result(v) == Ok::<_, RpcErrorView>(result),
            None => response_result(v) == Err::<JsonView, _>(
                RpcErrorView::Parse("response had no `result`"@),
            ),
        },
        v.get("error"@) matches Some(e) ==> {
            &&& response_result(v) is Err
            &&& response_result(v)->Err_0 is Rpc
            &&& response_result(v)->Err_0->code == match e.get("code"@) {
                Some(JsonView::Int(n)) => if i64::MIN <= n <= i64::MAX {
                    n
                } else {
                    0
                },
                _ => 0,
            }
            &&& response_result(v)->Err_0->message == match e.get("message"@) {
                Some(JsonView::Text(s)) => s,
                _ => Seq::empty(),
            }
        },
{
    reveal_strlit("");
    assert(""@ =~= Seq::empty());
}

/// A result comes as it is, or as its text, which is the JSON where it is no text, or as the number that
/// this text spells in hexadecimal.
pub proof fn law_a_result_takes_the_shape_asked_for(v: JsonView, n: u64)
    ensures
        shaped(Shape::Value, v) == Ok::<_, RpcErrorView>(AnswerView::Value(v)),
        v matches JsonView::Text(s) ==> {
            &&& shaped(Shape::Text, v) == Ok::<_, RpcErrorView>(AnswerView::Text(s))
            &&& shaped(Shape::ChainId, v) == match quantity_value(s) {
                Some(id) => Ok(AnswerView::ChainId(id)),
                None => Err(RpcErrorView::Parse("bad chainId: "@ + s)),
            }
        },
        v !is Text ==> {
            &&& shaped(Shape::Text, v) == Ok::<_, RpcErrorView>(AnswerView::Text(json_written(v)))
            &&& shaped(Shape::ChainId, v) == match quantity_value(json_written(v)) {
                Some(id) => Ok(AnswerView::ChainId(id)),
                None => Err(RpcErrorView::Parse("bad chainId: "@ + json_written(v))),
            }
        },
        shaped(Shape::ChainId, JsonView::Text("0x"@ + hexadecimal(n as nat))) == Ok::<
            _,
            RpcErrorView,
        >(AnswerView::ChainId(n)),
{
    let none = Seq::<char>::empty();
    law_hexadecimal_reads_back(n, none, none);
    assert(none + ("0x"@ + hexadecimal(n as nat)) + none =~= "0x"@ + hexadecimal(n as nat));
}

/// Causes stand one behind the other, outermost first, each but the first behind a colon.
pub proof fn law_causes_stand_in_a_row(causes: Seq<Seq<char>>, cause: Seq<char>)
    ensures
        joined(Seq::empty()) == Seq::<char>::empty(),
        joined(seq![cause]) == cause,
        causes.len() > 0 ==> joined(causes.push(cause)) == joined(causes) + ": "@ + cause,
{
    assert(causes.push(cause).drop_last() =~= causes);
}

/// What is made of what came back. A body is read and its result put into shape; a body that cannot be
/// read is a transport failure, and so is a request without a response, but for a deadline that ran
/// out; a client that could not be built is the network proxy's fault.
pub proof fn law_what_is_made_of_what_came_back(
    request: PostRequestView,
    body: Seq<u8>,
    causes: Seq<Seq<char>>,
    timed_out: bool,
    e: Seq<char>,
)
    ensures
        match json_read_bytes(body) {
            Err(why) => request.outcome(PostReplyView::Body(body)) == Err::<AnswerView, _>(
                RpcErrorView::Http("error decoding response body: "@ + why),
            ),
            Ok(v) => match response_result(v) {
                Ok(result) => request.outcome(PostReplyView::Body(body)) == shaped(
                    request.shape,
                    result,
                ),
                Err(why) => request.outcome(PostReplyView::Body(body)) == Err::<AnswerView, _>(why),
            },
        },
        request.outcome(PostReplyView::Body(body)) == body_outcome(
            request.shape,
            json_read_bytes(body),
        ),
        request.outcome(PostReplyView::Failed { timed_out, causes }) == Err::<AnswerView, _>(
            if timed_out && request.budget is Some {
                RpcErrorView::Timeout {
                    budget_ms: request.budget->0 / 1_000_000,
                    detail: joined(causes),
                }
            } else {
                RpcErrorView::Http(joined(causes))
            },
        ),
        request.outcome(PostReplyView::Unbuilt(e)) == Err::<AnswerView, _>(
            RpcErrorView::Proxy("failed to build HTTP client: "@ + e),
        ),
{
}

/// What each kind of error is called and what a user reads of it.
pub proof fn law_errors_are_told_in_words(
    id: u64,
    code: i64,
    budget_ms: nat,
    s: Seq<char>,
)
    ensures
        RpcErrorView::UnknownChain(id).code() == "unknown_chain"@,
        RpcErrorView::Proxy(s).code() == "proxy"@,
        RpcErrorView::Http(s).code() == "http"@,
        (RpcErrorView::Timeout { budget_ms, detail: s }).code() == "timeout"@,
        (RpcErrorView::Rpc { code, message: s }).code() == "rpc"@,
        RpcErrorView::Parse(s).code() == "parse"@,
        RpcErrorView::VerifiedProxy(s).code() == "verified_proxy"@,
        RpcErrorView::VerifiedBypass(s).code() == "verified_bypass"@,
        RpcErrorView::UnknownChain(id).message() == "no configuration for chain "@ + decimal(
            id as int,
        ),
        RpcErrorView::Proxy(s).message() == "proxy: "@ + s,
        RpcErrorView::Http(s).message() == "http: "@ + s,
        (RpcErrorView::Timeout { budget_ms, detail: s }).message() == "no answer within "@
            + decimal(budget_ms as int) + "ms: "@ + s,
        (RpcErrorView::Rpc { code, message: s }).message() == "rpc error "@ + decimal(code as int)
            + ": "@ + s,
        RpcErrorView::Parse(s).message() == "parse: "@ + s,
        RpcErrorView::VerifiedProxy(s).message() == "verified proxy: "@ + s,
        RpcErrorView::VerifiedBypass(s).message() == s
            + " is proof-backed on this chain's verified route: refused through an explicit url, which cannot prove it (use raw_rpc)"@,
{
}

/// A refusal says that it is one and why; where it tells its kind it has the kind's token too, and before
/// the module's context is there, the state that says so.
pub proof fn law_a_refusal_says_why(message: Seq<char>, e: RpcErrorView)
    ensures
        err_json(message).get("ok"@) == Some(JsonView::Bool(false)),
        err_json(message).get("error"@) == Some(JsonView::Text(message)),
        err_json(message)->Object_0.len() == 2,
        coded_err_json(e).get("ok"@) == Some(JsonView::Bool(false)),
        coded_err_json(e).get("code"@) == Some(JsonView::Text(e.code())),
        coded_err_json(e).get("error"@) == Some(JsonView::Text(e.message())),
        coded_err_json(e)->Object_0.len() == 3,
        unready_json().get("ok"@) == Some(JsonView::Bool(false)),
        unready_json().get("state"@) == Some(JsonView::Text("unready"@)),
        unready_json().get("error"@) == Some(
            JsonView::Text("eth_rpc not initialized (context not ready)"@),
        ),
        unready_json()->Object_0.len() == 3,
{
    reveal_strlit("ok");
    reveal_strlit("error");
    reveal_strlit("code");
    reveal_strlit("state");
    assert("error"@[0] == 'e' && "state"@[0] == 's');
    assert("ok"@.len() == 2 && "code"@.len() == 4 && "error"@.len() == 5 && "state"@.len() == 5);
    let no = JsonView::Bool(false);
    let told = JsonView::Text(message);
    let b1 = empty_object().with("ok"@, no);
    law_an_added_member_is_found(empty_object(), "ok"@, no, "error"@);
    law_an_added_member_is_found(b1, "error"@, told, "ok"@);
    let code = JsonView::Text(e.code());
    law_an_added_member_is_found(b1, "code"@, code, "ok"@);
    let b2 = b1.with("code"@, code);
    law_an_added_member_is_found(b2, "error"@, JsonView::Text(e.message()), "ok"@);
    law_an_added_member_is_found(b2, "error"@, JsonView::Text(e.message()), "code"@);
    let state = JsonView::Text("unready"@);
    law_an_added_member_is_found(b1, "state"@, state, "ok"@);
    let b3 = b1.with("state"@, state);
    let why = JsonView::Text("eth_rpc not initialized (context not ready)"@);
    law_an_added_member_is_found(b3, "error"@, why, "ok"@);
    law_an_added_member_is_found(b3, "error"@, why, "state"@);
}

/// What a call came to stands in the envelope as it is, under its member's name, with the way that it
/// was obtained; a refusal stands in it as one.
pub proof fn law_an_envelope_holds_what_a_call_came_to(
    envelope: Envelope,
    v: JsonView,
    s: Seq<char>,
    n: u64,
    e: RpcErrorView,
)
    ensures
        ({
            let name = match envelope.field {
                Field::Result => "result"@,
                Field::Hash => "hash"@,
                Field::ChainId => "chainId"@,
            };
            let route = match envelope.route {
                Some(VerifiedClass::Verified) => "verified"@,
                Some(VerifiedClass::Proxied) => "proxied"@,
                None => "direct"@,
            };
            let value = envelope.sealed(Ok(AnswerView::Value(v)));
            let text = envelope.sealed(Ok(AnswerView::Text(s)));
            let id = envelope.sealed(Ok(AnswerView::ChainId(n)));
            &&& value.get(name) == Some(v)
            &&& value.get("ok"@) == Some(JsonView::Bool(true))
            &&& value.get("route"@) == Some(JsonView::Text(route))
            &&& value->Object_0.len() == 3
            &&& text.get(name) == Some(JsonView::Text(s))
            &&& text.get("ok"@) == Some(JsonView::Bool(true))
            &&& text.get("route"@) == Some(JsonView::Text(route))
            &&& text->Object_0.len() == 3
            &&& id.get(name) == Some(JsonView::Int(n as int))
            &&& id.get("ok"@) == Some(JsonView::Bool(true))
            &&& id.get("route"@) == Some(JsonView::Text(route))
            &&& id->Object_0.len() == 3
        }),
        envelope.coded ==> envelope.sealed(Err(e)) == coded_err_json(e),
        !envelope.coded ==> envelope.sealed(Err(e)) == err_json(e.message()),
{
    lemma_sealed_members(envelope, AnswerView::Value(v), v);
    lemma_sealed_members(envelope, AnswerView::Text(s), JsonView::Text(s));
    lemma_sealed_members(envelope, AnswerView::ChainId(n), JsonView::Int(n as int));
}

proof fn lemma_sealed_members(envelope: Envelope, a: AnswerView, told: JsonView)
    requires
        told == match a {
            AnswerView::Value(v) => v,
            AnswerView::Text(s) => JsonView::Text(s),
            AnswerView::ChainId(n) => JsonView::Int(n as int),
        },
    ensures
        ({
            let name = match envelope.field {
                Field::Result => "result"@,
                Field::Hash => "hash"@,
                Field::ChainId => "chainId"@,
            };
            let sealed = envelope.sealed(Ok(a));
            &&& sealed.get(name) == Some(told)
            &&& sealed.get("ok"@) == Some(JsonView::Bool(true))
            &&& sealed.get("route"@) == Some(JsonView::Text(route_text(envelope.route)))
            &&& sealed->Object_0.len() == 3
        }),
{
    reveal_strlit("ok");
    reveal_strlit("route");
    reveal_strlit("result");
    reveal_strlit("hash");
    reveal_strlit("chainId");
    let name = match envelope.field {
        Field::Result => "result"@,
        Field::Hash => "hash"@,
        Field::ChainId => "chainId"@,
    };
    assert("ok"@.len() == 2 && "route"@.len() == 5 && name.len() > 2 && name.len() != 5);
    let yes = JsonView::Bool(true);
    let route = JsonView::Text(route_text(envelope.route));
    let b1 = empty_object().with("ok"@, yes);
    let b2 = b1.with(name, told);
    law_an_added_member_is_found(empty_object(), "ok"@, yes, name);
    law_an_added_member_is_found(b1, name, told, "ok"@);
    law_an_added_member_is_found(b2, "route"@, route, "ok"@);
    law_an_added_member_is_found(b2, "route"@, route, name);
}

/// A method answers with what its call came to, labelled with the way that the call took; where a node
/// has to be asked first the request waits, with the envelope for its answer. Before the module's
/// context is there it refuses and asks nobody.
pub proof fn law_a_method_answers_what_its_call_came_to<R: VerifiedRouter>(
    state: Option<EthRpcView>,
    ask: Ask,
    field: Field,
    coded: bool,
    before: Option<ProxyLink<R>>,
    after: Option<ProxyLink<R>>,
    r: ServedView,
)
    requires
        method_run(state, ask, field, coded, before, after, r),
    ensures
        state is None ==> after == before && r == ServedView::Text(
            json_written(err_json("eth_rpc not initialized (context not ready)"@)),
        ),
        state matches Some(store) ==> {
            let decision = store.decide(before is Some, ask);
            &&& decision.asks(ask, before, after)
            &&& match decision.outcome(ask, asked(after)) {
                Ok((LegView::Answered(a), class)) => r == ServedView::Text(
                    json_written((Envelope { field, coded, route: class }).sealed(Ok(a))),
                ),
                Ok((LegView::Post(request), class)) => r == ServedView::Pending(
                    request,
                    Envelope { field, coded, route: class },
                ),
                Err(e) => r == ServedView::Text(
                    json_written(
                        if coded {
                            coded_err_json(e)
                        } else {
                            err_json(e.message())
                        },
                    ),
                ),
            }
        },
{
    if let Some(store) = state {
        law_the_label_is_the_route(store, before is Some, ask, asked(after));
    }
}

/// What a call came to is answered at once where it is in, and waits where a node has to be asked.
pub proof fn law_what_is_in_is_answered_at_once(
    envelope: Envelope,
    a: AnswerView,
    request: PostRequestView,
    e: RpcErrorView,
)
    ensures
        served(Ok(LegView::Answered(a)), envelope) == ServedView::Text(
            json_written(envelope.sealed(Ok(a))),
        ),
        served(Ok(LegView::Post(request)), envelope) == ServedView::Pending(request, envelope),
        served(Err(e), envelope) == ServedView::Text(json_written(envelope.sealed(Err(e)))),
{
}

/// A count of blocks below zero is none, and any other is itself.
pub proof fn law_a_negative_count_is_none(n: i64)
    ensures
        n < 0 ==> at_least_zero(n) == 0,
        n >= 0 ==> at_least_zero(n) == n,
{
}

/// A call for a chain under its signed id, without a deadline.
pub open spec fn plain_ask(
    chain_id: i64,
    method: Seq<char>,
    params: Seq<JsonView>,
    shape: Shape,
) -> Ask {
    Ask {
        chain_id: if chain_id >= 0 {
            chain_id as u64
        } else {
            (chain_id + 0x1_0000_0000_0000_0000) as u64
        },
        method,
        params: JsonView::Array(params),
        deadline: None,
        shape,
    }
}

/// The chain id is asked for without parameters and answered as a number.
pub proof fn law_a_chain_id_is_asked_of_the_node<R: VerifiedRouter>(
    m: ModuleState,
    chain_id: i64,
    router: &mut Option<ProxyLink<R>>,
    r: Served,
)
    requires
        call_ensures(ModuleState::verify_chain_id::<R>, (&m, chain_id, router), r),
    ensures
        method_run(
            m@,
            plain_ask(chain_id, "eth_chainId"@, seq![], Shape::ChainId),
            Field::ChainId,
            false,
            *old(router),
            *final(router),
            r@,
        ),
{
}

/// The newest block's number is asked for without parameters.
pub proof fn law_the_newest_block_is_asked_for<R: VerifiedRouter>(
    m: ModuleState,
    chain_id: i64,
    router: &mut Option<ProxyLink<R>>,
    r: Served,
)
    requires
        call_ensures(ModuleState::block_number::<R>, (&m, chain_id, router), r),
    ensures
        method_run(
            m@,
            plain_ask(chain_id, "eth_blockNumber"@, seq![], Shape::Text),
            Field::Result,
            false,
            *old(router),
            *final(router),
            r@,
        ),
{
}

/// The balance of the address is asked for at the newest block.
pub proof fn law_a_balance_is_asked_for_at_the_newest_block<R: VerifiedRouter>(
    m: ModuleState,
    chain_id: i64,
    address: &str,
    router: &mut Option<ProxyLink<R>>,
    r: Served,
)
    requires
        call_ensures(ModuleState::get_balance::<R>, (&m, chain_id, address, router), r),
    ensures
        method_run(
            m@,
            plain_ask(chain_id, "eth_getBalance"@, seq![JsonView::Text(address@), JsonView::Text("latest"@)], Shape::Text),
            Field::Result,
            false,
            *old(router),
            *final(router),
            r@,
        ),
{
}

/// The nonce of the address is asked for with what is still pending.
pub proof fn law_a_nonce_counts_what_is_pending<R: VerifiedRouter>(
    m: ModuleState,
    chain_id: i64,
    address: &str,
    router: &mut Option<ProxyLink<R>>,
    r: Served,
)
    requires
        call_ensures(ModuleState::get_transaction_count::<R>, (&m, chain_id, address, router), r),
    ensures
        method_run(
            m@,
            plain_ask(chain_id, "eth_getTransactionCount"@, seq![JsonView::Text(address@), JsonView::Text("pending"@)], Shape::Text),
            Field::Result,
            false,
            *old(router),
            *final(router),
            r@,
        ),
{
}

/// The gas price is asked for without parameters.
pub proof fn law_a_gas_price_is_asked_for<R: VerifiedRouter>(
    m: ModuleState,
    chain_id: i64,
    router: &mut Option<ProxyLink<R>>,
    r: Served,
)
    requires
        call_ensures(ModuleState::gas_price::<R>, (&m, chain_id, router), r),
    ensures
        method_run(
            m@,
            plain_ask(chain_id, "eth_gasPrice"@, seq![], Shape::Text),
            Field::Result,
            false,
            *old(router),
            *final(router),
            r@,
        ),
{
}

/// A signed transaction is handed on as it is, and its hash answered.
pub proof fn law_a_transaction_is_handed_on<R: VerifiedRouter>(
    m: ModuleState,
    chain_id: i64,
    raw_hex: &str,
    router: &mut Option<ProxyLink<R>>,
    r: Served,
)
    requires
        call_ensures(ModuleState::send_raw_transaction::<R>, (&m, chain_id, raw_hex, router), r),
    ensures
        method_run(
            m@,
            plain_ask(chain_id, "eth_sendRawTransaction"@, seq![JsonView::Text(raw_hex@)], Shape::Text),
            Field::Hash,
            false,
            *old(router),
            *final(router),
            r@,
        ),
{
}

/// A receipt is asked for by the transaction's hash.
pub proof fn law_a_receipt_is_asked_for_by_hash<R: VerifiedRouter>(
    m: ModuleState,
    chain_id: i64,
    hash_hex: &str,
    router: &mut Option<ProxyLink<R>>,
    r: Served,
)
    requires
        call_ensures(ModuleState::get_transaction_receipt::<R>, (&m, chain_id, hash_hex, router), r),
    ensures
        method_run(
            m@,
            plain_ask(chain_id, "eth_getTransactionReceipt"@, seq![JsonView::Text(hash_hex@)], Shape::Value),
            Field::Result,
            false,
            *old(router),
            *final(router),
            r@,
        ),
{
}

/// A transaction is asked for by its hash.
pub proof fn law_a_transaction_is_asked_for_by_hash<R: VerifiedRouter>(
    m: ModuleState,
    chain_id: i64,
    hash_hex: &str,
    router: &mut Option<ProxyLink<R>>,
    r: Served,
)
    requires
        call_ensures(ModuleState::get_transaction_by_hash::<R>, (&m, chain_id, hash_hex, router), r),
    ensures
        method_run(
            m@,
            plain_ask(chain_id, "eth_getTransactionByHash"@, seq![JsonView::Text(hash_hex@)], Shape::Value),
            Field::Result,
            false,
            *old(router),
            *final(router),
            r@,
        ),
{
}

/// A contract is called at the newest block, within what is left of the caller's own time; what cannot be
/// read is refused and nobody asked. A refusal tells its kind.
pub proof fn law_a_contract_is_called_within_the_callers_time<R: VerifiedRouter>(
    m: ModuleState,
    chain_id: i64,
    call_json: &str,
    deadline_ms: Option<i64>,
    elapsed: Duration,
    router: &mut Option<ProxyLink<R>>,
    r: Served,
)
    requires
        call_ensures(ModuleState::call::<R>, (&m, chain_id, call_json, deadline_ms, elapsed, router), r),
    ensures
        match json_read(call_json@) {
            Err(e) => *final(router) == *old(router) && r@ == ServedView::Text(
                json_written(err_json(e)),
            ),
            Ok(parsed) => method_run(
                m@,
                Ask {
                    deadline: match deadline_ms {
                        Some(ms) => if ms <= 0 {
                            None
                        } else if ms * 1_000_000 <= elapsed@ {
                            Some(0)
                        } else {
                            Some((ms * 1_000_000 - elapsed@) as nat)
                        },
                        None => None,
                    },
                    ..plain_ask(
                        chain_id,
                        "eth_call"@,
                        seq![parsed, JsonView::Text("latest"@)],
                        Shape::Text,
                    )
                },
                Field::Result,
                true,
                *old(router),
                *final(router),
                r@,
            ),
        },
{
}

/// Fees are asked for by the count of blocks, as a hexadecimal quantity, up to the newest block; what cannot
/// be read is refused and nobody asked.
pub proof fn law_fees_are_asked_for_by_count<R: VerifiedRouter>(
    m: ModuleState,
    chain_id: i64,
    blocks: i64,
    percentiles_json: &str,
    router: &mut Option<ProxyLink<R>>,
    r: Served,
)
    requires
        call_ensures(ModuleState::fee_history::<R>, (&m, chain_id, blocks, percentiles_json, router), r),
    ensures
        match json_read(percentiles_json@) {
            Err(e) => *final(router) == *old(router) && r@ == ServedView::Text(
                json_written(err_json(e)),
            ),
            Ok(parsed) => method_run(
                m@,
                plain_ask(
                    chain_id,
                    "eth_feeHistory"@,
                    seq![
                        JsonView::Text(
                            "0x"@ + hexadecimal(
                                if blocks > 0 {
                                    blocks as nat
                                } else {
                                    0
                                },
                            ),
                        ),
                        JsonView::Text("latest"@),
                        parsed,
                    ],
                    Shape::Value,
                ),
                Field::Result,
                false,
                *old(router),
                *final(router),
                r@,
            ),
        },
{
}

/// Gas is estimated of the transaction that was given; what cannot be read is refused and nobody asked.
pub proof fn law_gas_is_estimated_of_what_was_given<R: VerifiedRouter>(
    m: ModuleState,
    chain_id: i64,
    tx_json: &str,
    router: &mut Option<ProxyLink<R>>,
    r: Served,
)
    requires
        call_ensures(ModuleState::estimate_gas::<R>, (&m, chain_id, tx_json, router), r),
    ensures
        match json_read(tx_json@) {
            Err(e) => *final(router) == *old(router) && r@ == ServedView::Text(
                json_written(err_json(e)),
            ),
            Ok(parsed) => method_run(
                m@,
                plain_ask(chain_id, "eth_estimateGas"@, seq![parsed], Shape::Text),
                Field::Result,
                false,
                *old(router),
                *final(router),
                r@,
            ),
        },
{
}

/// Any method goes with the parameters that were given; what cannot be read is refused and nobody asked.
pub proof fn law_any_method_goes_as_it_was_given<R: VerifiedRouter>(
    m: ModuleState,
    chain_id: i64,
    method: &str,
    params_json: &str,
    router: &mut Option<ProxyLink<R>>,
    r: Served,
)
    requires
        call_ensures(ModuleState::raw_rpc::<R>, (&m, chain_id, method, params_json, router), r),
    ensures
        match json_read(params_json@) {
            Err(e) => *final(router) == *old(router) && r@ == ServedView::Text(
                json_written(err_json(e)),
            ),
            Ok(parsed) => method_run(
                m@,
                Ask {
                    params: parsed,
                    ..plain_ask(chain_id, method@, seq![], Shape::Value)
                },
                Field::Result,
                false,
                *old(router),
                *final(router),
                r@,
            ),
        },
{
}

/// What is asked of an explicit url is answered as direct, and nothing is asked where the parameters cannot
/// be read or the module's context is not there.
pub proof fn law_an_explicit_url_is_always_direct(
    m: ModuleState,
    chain_id: i64,
    url: &str,
    method: &str,
    params_json: &str,
    r: Served,
)
    requires
        call_ensures(ModuleState::raw_rpc_url, (&m, chain_id, url, method, params_json), r),
    ensures
        ({
            let direct = Envelope { field: Field::Result, coded: false, route: None };
            let id = plain_ask(chain_id, method@, seq![], Shape::Value).chain_id;
            match (json_read(params_json@), m@) {
                (Err(e), _) => r@ == ServedView::Text(json_written(err_json(e))),
                (Ok(_), None) => r@ == ServedView::Text(
                    json_written(err_json("eth_rpc not initialized (context not ready)"@)),
                ),
                (Ok(params), Some(store)) => match store.url_call(id, url@, method@, params) {
                    Ok(request) => r@ == ServedView::Pending(request, direct),
                    Err(e) => r@ == ServedView::Text(json_written(err_json(e.message()))),
                },
            }
        }),
{
}

/// A store's own calls go as they were given: with the caller's deadline where there is one, or without.
pub proof fn law_a_stores_calls_go_as_they_were_given<R: VerifiedRouter>(
    rpc: EthRpc,
    chain_id: u64,
    method: &str,
    params: Json,
    deadline: Option<Duration>,
    url: &str,
    router: &mut Option<ProxyLink<R>>,
    routed: Result<(Leg, Option<VerifiedClass>), RpcError>,
    leg: Result<Leg, RpcError>,
    request: Result<PostRequest, RpcError>,
)
    ensures
        ({
            let given = Ask {
                chain_id,
                method: method@,
                params: params@,
                deadline: None,
                shape: Shape::Value,
            };
            let timed = Ask {
                deadline: match deadline {
                    Some(d) => Some(d@),
                    None => None,
                },
                ..given
            };
            let called = Ask {
                method: "eth_call"@,
                params: JsonView::Array(seq![params@, JsonView::Text("latest"@)]),
                shape: Shape::Text,
                ..given
            };
            &&& call_ensures(EthRpc::rpc_call::<R>, (&rpc, chain_id, method, params, router), leg)
                ==> ran_leg(rpc@, given, *old(router), *final(router), leg_view(leg))
            &&& call_ensures(
                EthRpc::rpc_call_routed::<R>,
                (&rpc, chain_id, method, params, router),
                routed,
            ) ==> ran(rpc@, given, *old(router), *final(router), routed_view(routed))
            &&& call_ensures(
                EthRpc::rpc_call_routed_within::<R>,
                (&rpc, chain_id, method, params, deadline, router),
                routed,
            ) ==> ran(rpc@, timed, *old(router), *final(router), routed_view(routed))
            &&& call_ensures(EthRpc::call::<R>, (&rpc, chain_id, params, router), leg) ==> ran_leg(
                rpc@,
                called,
                *old(router),
                *final(router),
                leg_view(leg),
            )
            &&& call_ensures(EthRpc::rpc_call_url, (&rpc, chain_id, url, method, params), request)
                ==> match (request, rpc@.url_call(chain_id, url@, method@, params@)) {
                (Ok(sent), Ok(told)) => sent@ == told,
                (Err(e), Err(told)) => e@ == told,
                _ => false,
            }
        }),
{
}

/// What the dialect's functions give is what the dialect is: the parameters, the result in wire form, the
/// class of a method and the label of a route.
pub proof fn law_the_dialect_is_spoken(
    method: &str,
    params: Json,
    v: Json,
    r: Json,
    class: VerifiedClass,
    route: Option<VerifiedClass>,
    label: &'static str,
)
    ensures
        call_ensures(verified_params, (method, &params), r) ==> r@ == JsonView::Array(
            dialect_params(method@, params@),
        ),
        call_ensures(normalize_verified_result, (v,), r) ==> r@ == wire_form(v@),
        call_ensures(verified_class, (method,), class) ==> class == class_of(method@),
        call_ensures(route_label, (route,), label) ==> label@ == route_text(route),
{
}

/// What is made of a reply, step by step: the request that goes out, the result in a response, its shape,
/// the error for no response, and the envelope around it all.
pub proof fn law_a_reply_is_read_step_by_step(
    method: &str,
    params: Json,
    body: Json,
    parsed: Result<Json, String>,
    result: Result<Json, RpcError>,
    shape: Shape,
    answer: Result<Answer, RpcError>,
    timed_out: bool,
    causes: Vec<String>,
    budget: Option<Duration>,
    e: RpcError,
    request: PostRequest,
    reply: PostReply,
    envelope: Envelope,
    pending: Pending,
    text: String,
)
    ensures
        call_ensures(build_request, (method, params), body) ==> body@ == request_body(
            method@,
            params@,
        ),
        call_ensures(read_response, (&body,), result) ==> match (result, response_result(body@)) {
            (Ok(v), Ok(told)) => v@ == told,
            (Err(e), Err(told)) => e@ == told,
            _ => false,
        },
        call_ensures(shape_answer, (shape, body), answer) ==> answer_view(answer) == shaped(
            shape,
            body@,
        ),
        call_ensures(read_chain_id, (text,), answer) ==> match answer {
            Ok(a) => quantity_value(text@) is Some && a == Answer::ChainId(
                quantity_value(text@)->0,
            ),
            Err(e) => quantity_value(text@) is None && e@ == RpcErrorView::Parse(
                "bad chainId: "@ + text@,
            ),
        },
        call_ensures(read_body, (shape, parsed), answer) ==> match parsed {
            Err(e) => answer_view(answer) == Err::<AnswerView, _>(
                RpcErrorView::Http("error decoding response body: "@ + e@),
            ),
            Ok(v) => match response_result(v@) {
                Err(e) => answer_view(answer) == Err::<AnswerView, _>(e),
                Ok(told) => answer_view(answer) == shaped(shape, told),
            },
        },
        call_ensures(http_error, (timed_out, &causes, budget), e) ==> e@ == if timed_out
            && budget is Some {
            RpcErrorView::Timeout {
                budget_ms: budget->0@ / 1_000_000,
                detail: joined(texts(causes@)),
            }
        } else {
            RpcErrorView::Http(joined(texts(causes@)))
        },
        call_ensures(PostRequest::finish, (&request, reply), answer) ==> answer_view(answer)
            == request@.outcome(reply@),
        call_ensures(Envelope::seal, (envelope, answer), body) ==> body@ == envelope.sealed(
            answer_view(answer),
        ),
        call_ensures(Pending::finish, (&pending, reply), text) ==> text@ == json_written(
            pending.envelope.sealed(pending.request@.outcome(reply@)),
        ),
{
}

/// The spans that a call is held to, as they are computed: never less than 50 milliseconds, a verified call
/// between one second and sixty, a direct one twice its timeout, and a caller's own milliseconds.
pub proof fn law_spans_are_computed_as_configured(
    secs: u64,
    ms: Option<i64>,
    span: Duration,
    deadline: Option<Duration>,
)
    ensures
        call_ensures(min_budget, (), span) ==> span@ == 50_000_000,
        call_ensures(verified_budget, (secs,), span) ==> span@ == verified_span(secs),
        call_ensures(configured_wall, (secs,), span) ==> span@ == wall_span(secs),
        call_ensures(caller_deadline, (ms,), deadline) ==> match deadline {
            Some(d) => ms is Some && ms->0 > 0 && d@ == ms->0 * 1_000_000,
            None => ms is None || ms->0 <= 0,
        },
{
}

/// A client is planned as its setting and what was said against the url permit, and an error is told in its
/// own words.
pub proof fn law_a_client_is_planned_as_set(
    config: ProxyConfig,
    plan: Result<ClientPlan, ProxyError>,
    url: Result<Option<String>, ProxyError>,
    objection: Option<String>,
    e: ProxyError,
    told: RpcError,
    text: String,
    token: &'static str,
)
    ensures
        call_ensures(build_client, (&config,), plan) ==> match (plan, config@.client()) {
            (Ok(p), Ok(view)) => p@ == view,
            (Err(e), Err(view)) => e@ == view,
            _ => false,
        },
        call_ensures(ProxyConfig::plan_given, (&config, objection), plan) ==> match (
            plan,
            config@.plan_given(opt_string(objection)),
        ) {
            (Ok(p), Ok(view)) => p@ == view,
            (Err(e), Err(view)) => e@ == view,
            _ => false,
        },
        call_ensures(ProxyConfig::usable_url, (&config,), url) ==> match (
            url,
            config@.usable_url(),
        ) {
            (Ok(u), Ok(view)) => opt_string(u) == view,
            (Err(e), Err(view)) => e@ == view,
            _ => false,
        },
        call_ensures(ProxyError::message, (&e,), text) ==> text@ == match e {
            ProxyError::ProxyRequiredButUnset =>
                "proxy required but none configured (fail-closed: refusing to send in the clear)"@,
            ProxyError::ProxyUnusable(s) => "proxy URL is invalid or unsupported: "@ + s@,
            ProxyError::Build(s) => "failed to build HTTP client: "@ + s@,
        },
        call_ensures(RpcError::message, (&told,), text) ==> text@ == told@.message(),
        call_ensures(RpcError::code, (&told,), token) ==> token@ == told@.code(),
{
}

} // verus!
