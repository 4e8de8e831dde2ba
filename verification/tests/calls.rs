use std::sync::{Arc, Mutex};

use eth_rpc_module::config::{
    default_verified_timeout, ChainConfig, ConfigSource, VerifiedProxyMode,
};
use eth_rpc_module::dialect::{route_label, verified_class, verified_params, VerifiedClass};
use eth_rpc_module::error::RpcError;
use eth_rpc_module::json::{parse_json, Json};
use eth_rpc_module::link::{ProxyLink, VerifiedRouter};
use eth_rpc_module::methods;
use eth_rpc_module::reply::{Answer, PostReply, PostRequest};
use eth_rpc_module::rpc::{
    caller_deadline, configured_wall, min_budget, verified_budget, Leg,
};
use eth_rpc_module::store::EthRpc;
use eth_rpc_module::time::Duration;

fn json(text: &str) -> Json {
    parse_json(text).unwrap()
}

/// Records what the verified leg was asked for, so that the dialect is seen on the wire.
struct Spy {
    seen: Mutex<Vec<(String, Json)>>,
    budget: Mutex<Option<Duration>>,
    answer: Result<Json, String>,
}

struct SpyRouter(Arc<Spy>);

impl VerifiedRouter for SpyRouter {
    fn call(&self, _chain_id: u64, method: &str, params: &Json, budget: Duration) -> Result<Json, String> {
        self.0.seen.lock().unwrap().push((method.to_string(), params.clone()));
        *self.0.budget.lock().unwrap() = Some(budget);
        self.0.answer.clone()
    }
}

/// A verified leg, and the spy at its end.
struct Wired {
    link: Option<ProxyLink<SpyRouter>>,
    spy: Arc<Spy>,
}

fn wired(answer: Result<Json, String>) -> Wired {
    let spy = Arc::new(Spy { seen: Mutex::new(vec![]), budget: Mutex::new(None), answer });
    Wired { link: Some(ProxyLink::new(SpyRouter(spy.clone()))), spy }
}

impl Wired {
    fn ok(text: &str) -> Wired {
        wired(Ok(json(text)))
    }

    fn failing() -> Wired {
        wired(Err("proxy is not running".to_string()))
    }
}

fn nobody() -> Option<ProxyLink<SpyRouter>> {
    None
}

fn last(w: &Wired) -> (String, Json) {
    w.spy.seen.lock().unwrap().last().cloned().unwrap()
}

fn count(w: &Wired) -> usize {
    w.spy.seen.lock().unwrap().len()
}

fn budget(w: &Wired) -> Option<Duration> {
    *w.spy.budget.lock().unwrap()
}

fn item(v: &Json, i: usize) -> Json {
    v.as_array().unwrap()[i].clone()
}

fn cfg(endpoint: &str) -> ChainConfig {
    ChainConfig {
        endpoint: endpoint.to_string(),
        proxy: None,
        proxy_required: false,
        timeout_secs: 5,
        verified_proxy_mode: VerifiedProxyMode::Off,
        verified_timeout_secs: 15,
        source: ConfigSource::External,
    }
}

fn moded(mode: VerifiedProxyMode) -> ChainConfig {
    ChainConfig {
        endpoint: "http://127.0.0.1:1/never".to_string(),
        proxy: None,
        proxy_required: false,
        timeout_secs: 1,
        verified_proxy_mode: mode,
        verified_timeout_secs: 1,
        source: ConfigSource::External,
    }
}

fn verified_rpc() -> EthRpc {
    let mut r = EthRpc::new();
    r.set_chain_config(1, moded(VerifiedProxyMode::Required)).unwrap();
    r
}

fn off_rpc() -> EthRpc {
    let mut r = EthRpc::new();
    r.set_chain_config(1, moded(VerifiedProxyMode::Off)).unwrap();
    r
}

fn body(text: &str) -> PostReply {
    PostReply::Body(text.as_bytes().to_vec())
}

/// What a transport reports where nothing listens.
fn refused() -> PostReply {
    PostReply::Failed {
        timed_out: false,
        causes: vec![
            "error sending request for url (http://127.0.0.1:1/)".to_string(),
            "client error (Connect)".to_string(),
            "Connection refused (os error 111)".to_string(),
        ],
    }
}

fn post(leg: Result<Leg, RpcError>) -> PostRequest {
    match leg.unwrap() {
        Leg::Post(request) => request,
        other => panic!("expected a request to the node, got {other:?}"),
    }
}

fn answered(leg: Result<Leg, RpcError>) -> Answer {
    match leg.unwrap() {
        Leg::Answered(a) => a,
        other => panic!("expected an answer of the proxy, got {other:?}"),
    }
}

fn text(s: &str) -> Answer {
    Answer::Text(s.to_string())
}

#[test]
fn no_deadline_means_exactly_what_every_caller_got_before_the_parameter_existed() {
    assert_eq!(caller_deadline(None), None);
    assert_eq!(caller_deadline(Some(0)), None, "0 is how this stack spells `leave it`");
    assert_eq!(caller_deadline(Some(-1)), None);
    assert_eq!(caller_deadline(Some(2500)), Some(Duration::from_millis(2500)));
}

#[test]
fn a_caller_may_shorten_the_configured_bound_but_never_widen_it() {
    let configured = configured_wall(8);
    let shorter = Duration::from_millis(2_000);
    let longer = Duration::from_secs(600);
    assert_eq!(shorter.min(configured), shorter, "a shorter deadline wins");
    assert_eq!(longer.min(configured), configured, "a longer one does not");
}

#[test]
fn the_configured_wall_is_twice_the_seconds_because_the_client_times_each_phase() {
    assert_eq!(configured_wall(8), Duration::from_secs(16));
    assert_eq!(configured_wall(0), Duration::from_secs(60), "0 is the client's own 30s");
    assert_eq!(configured_wall(u64::MAX), Duration::from_secs(u64::MAX), "and it saturates");
}

#[test]
fn a_deadline_too_small_to_buy_a_handshake_is_refused_rather_than_rounded_up() {
    assert!(Duration::from_millis(10) < min_budget());
    assert!(min_budget() <= Duration::from_millis(50));
}

#[test]
fn a_timeout_is_its_own_kind_because_a_caller_acts_differently_on_it() {
    let slow = RpcError::Timeout { budget_ms: 3000, detail: "stalled".to_string() };
    let down = RpcError::Http("error sending request for url (...)".to_string());
    assert_eq!(slow.code(), "timeout");
    assert_eq!(down.code(), "http");
    assert!(slow.message().contains("3000ms"), "the budget is named: {}", slow.message());
}

#[test]
fn every_refusal_carries_a_code_that_is_not_the_message() {
    for e in [
        RpcError::UnknownChain(1),
        RpcError::Proxy("p".to_string()),
        RpcError::Http("h".to_string()),
        RpcError::Timeout { budget_ms: 1, detail: "d".to_string() },
        RpcError::Rpc { code: -32000, message: "m".to_string() },
        RpcError::Parse("p".to_string()),
        RpcError::VerifiedProxy("v".to_string()),
        RpcError::VerifiedBypass("b".to_string()),
    ] {
        assert!(!e.code().is_empty(), "{e:?} has no code");
        assert!(!e.code().contains(' '), "a code is a token, not prose: {}", e.code());
        assert_ne!(e.code(), e.message());
    }
}

#[test]
fn every_error_reads_as_documented() {
    let cases = [
        (RpcError::UnknownChain(7), "no configuration for chain 7"),
        (RpcError::Proxy("p".to_string()), "proxy: p"),
        (RpcError::Http("h".to_string()), "http: h"),
        (RpcError::Timeout { budget_ms: 40, detail: "d".to_string() }, "no answer within 40ms: d"),
        (RpcError::Rpc { code: -32000, message: "boom".to_string() }, "rpc error -32000: boom"),
        (RpcError::Rpc { code: i64::MIN, message: "".to_string() }, "rpc error -9223372036854775808: "),
        (RpcError::Parse("x".to_string()), "parse: x"),
        (RpcError::VerifiedProxy("v".to_string()), "verified proxy: v"),
        (
            RpcError::VerifiedBypass("eth_call".to_string()),
            "eth_call is proof-backed on this chain's verified route: refused through an explicit url, which cannot prove it (use raw_rpc)",
        ),
    ];
    for (e, message) in cases {
        assert_eq!(e.message(), message);
    }
}

#[test]
fn unknown_chain_errors() {
    let r = EthRpc::new();
    let mut none = nobody();
    assert!(matches!(r.get_balance(999, "0x0", &mut none), Err(RpcError::UnknownChain(999))));
    assert!(matches!(
        r.rpc_call_url(999, "http://x", "eth_call", json("[]")),
        Err(RpcError::UnknownChain(999))
    ));
}

#[test]
fn fail_closed_when_proxy_required_but_unset() {
    let mut r = EthRpc::new();
    r.set_chain_config(1, ChainConfig { proxy_required: true, ..cfg("https://eth.example") }).unwrap();
    let mut none = nobody();
    match r.get_balance(1, "0x0000000000000000000000000000000000000000", &mut none) {
        Err(RpcError::Proxy(e)) => assert_eq!(
            e,
            "proxy required but none configured (fail-closed: refusing to send in the clear)"
        ),
        other => panic!("expected fail-closed Proxy error, got {other:?}"),
    }
}

#[test]
fn parses_get_balance_against_mock_node() {
    let mut r = EthRpc::new();
    r.set_chain_config(1, cfg("http://127.0.0.1:8545")).unwrap();
    let request = post(r.get_balance(1, "0x0000000000000000000000000000000000000000", &mut nobody()));
    assert_eq!(request.url, "http://127.0.0.1:8545");
    assert_eq!(request.body.text_at("jsonrpc"), Some("2.0"));
    assert_eq!(request.body.i64_at("id"), Some(1));
    assert_eq!(request.body.text_at("method"), Some("eth_getBalance"));
    assert_eq!(
        request.body.get("params"),
        Some(&json(r#"["0x0000000000000000000000000000000000000000","latest"]"#))
    );
    assert_eq!(request.budget, None);
    let bal = request.finish(body(r#"{"jsonrpc":"2.0","id":1,"result":"0x1234"}"#)).unwrap();
    assert_eq!(bal, text("0x1234"));
}

#[test]
fn verify_chain_id_decodes_hex() {
    let mut r = EthRpc::new();
    r.set_chain_config(10, cfg("http://node")).unwrap();
    let request = post(r.verify_chain_id(10, &mut nobody()));
    assert_eq!(
        request.finish(body(r#"{"jsonrpc":"2.0","id":1,"result":"0xa"}"#)).unwrap(),
        Answer::ChainId(10)
    );
    assert_eq!(
        request.finish(body(r#"{"result":"ten"}"#)).unwrap_err().message(),
        "parse: bad chainId: ten"
    );
    // A number is no quantity: its text has no prefix.
    assert_eq!(
        request.finish(body(r#"{"result":10}"#)).unwrap_err().message(),
        "parse: bad chainId: 10"
    );
}

#[test]
fn a_transport_failure_names_its_cause_and_not_just_the_stage() {
    let mut r = EthRpc::new();
    r.set_chain_config(1, cfg("http://127.0.0.1:1")).unwrap();
    let err = post(r.verify_chain_id(1, &mut nobody())).finish(refused()).unwrap_err().message();
    assert!(err.starts_with("http: error sending request"), "got {err}");
    let after_url = err.split_once(')').map(|(_, rest)| rest).unwrap_or("");
    assert!(after_url.contains(':'), "no cause chain in {err}");
    assert_eq!(
        err,
        "http: error sending request for url (http://127.0.0.1:1/): client error (Connect): Connection refused (os error 111)"
    );
}

#[test]
fn surfaces_rpc_error() {
    let mut r = EthRpc::new();
    r.set_chain_config(1, cfg("http://node")).unwrap();
    let request = post(r.gas_price(1, &mut nobody()));
    match request.finish(body(r#"{"jsonrpc":"2.0","id":1,"error":{"code":-32000,"message":"boom"}}"#)) {
        Err(RpcError::Rpc { code, message }) => {
            assert_eq!(code, -32000);
            assert_eq!(message, "boom");
        }
        other => panic!("expected Rpc error, got {other:?}"),
    }
    // An error without a code or a message is still an error, and outranks a result.
    match request.finish(body(r#"{"error":null,"result":"0x1"}"#)) {
        Err(RpcError::Rpc { code, message }) => assert_eq!((code, message.as_str()), (0, "")),
        other => panic!("expected Rpc error, got {other:?}"),
    }
}

#[test]
fn a_response_that_is_no_response_is_refused() {
    let mut r = EthRpc::new();
    r.set_chain_config(1, cfg("http://node")).unwrap();
    let request = post(r.gas_price(1, &mut nobody()));
    assert_eq!(
        request.finish(body("{}")).unwrap_err(),
        RpcError::Parse("response had no `result`".to_string())
    );
    match request.finish(body("<html>")) {
        Err(RpcError::Http(e)) => assert_eq!(
            e,
            "error decoding response body: expected value at line 1 column 1"
        ),
        other => panic!("expected a decoding error, got {other:?}"),
    }
    assert!(matches!(request.finish(PostReply::Body(vec![0xff, 0xfe])), Err(RpcError::Http(_))));
    assert_eq!(
        request.finish(PostReply::Unbuilt("no roots".to_string())).unwrap_err().message(),
        "proxy: failed to build HTTP client: no roots"
    );
    // A result that is no text reads as JSON.
    assert_eq!(request.finish(body(r#"{"result":{"b":1,"a":[true,null]}}"#)).unwrap(), text(r#"{"a":[true,null],"b":1}"#));
}

#[test]
fn only_an_expired_budget_is_a_timeout() {
    let mut r = EthRpc::new();
    r.set_chain_config(1, cfg("http://node")).unwrap();
    let expired = || PostReply::Failed { timed_out: true, causes: vec!["a".to_string(), "b".to_string()] };
    let unbounded = post(r.call(1, json("{}"), &mut nobody()));
    assert_eq!(unbounded.finish(expired()).unwrap_err(), RpcError::Http("a: b".to_string()));
    let bounded = post(r.call_within(1, json("{}"), Some(Duration::from_millis(2500)), &mut nobody()));
    assert_eq!(bounded.budget, Some(Duration::from_millis(2500)));
    assert_eq!(
        bounded.finish(expired()).unwrap_err(),
        RpcError::Timeout { budget_ms: 2500, detail: "a: b".to_string() }
    );
    assert_eq!(
        bounded.finish(refused()).unwrap_err().code(),
        "http"
    );
}

#[test]
fn a_deadline_bounds_both_legs_and_widens_neither() {
    let mut r = EthRpc::new();
    r.set_chain_config(1, cfg("http://node")).unwrap();
    let long = Some(Duration::from_secs(600));
    assert_eq!(
        post(r.call_within(1, json("{}"), long, &mut nobody())).budget,
        Some(Duration::from_secs(10)),
        "twice the chain's five seconds"
    );
    let tiny = Some(Duration::from_millis(49));
    assert_eq!(
        r.call_within(1, json("{}"), tiny, &mut nobody()).unwrap_err(),
        RpcError::Timeout { budget_ms: 49, detail: "too little time left to ask chain 1".to_string() }
    );

    let v = verified_rpc();
    let mut spy = Wired::ok("\"0x1\"");
    v.call_within(1, json("{}"), long, &mut spy.link).unwrap();
    assert_eq!(budget(&spy), Some(Duration::from_secs(1)));
    v.call_within(1, json("{}"), Some(Duration::from_millis(700)), &mut spy.link).unwrap();
    assert_eq!(budget(&spy), Some(Duration::from_millis(700)));
    assert_eq!(
        v.call_within(1, json("{}"), tiny, &mut spy.link).unwrap_err(),
        RpcError::Timeout {
            budget_ms: 49,
            detail: "too little time left to ask the verified proxy".to_string()
        }
    );
    assert_eq!(count(&spy), 2, "the refused call asked nobody");
}

#[test]
fn fee_history_block_count_becomes_a_number_on_the_verified_leg_only() {
    let mut spy = Wired::ok(r#"{ "baseFeePerGas": ["0x1"] }"#);
    let r = verified_rpc();
    r.fee_history(1, 4, json("[25]"), &mut spy.link).unwrap();
    let (m, p) = last(&spy);
    assert_eq!(m, "eth_feeHistory");
    assert_eq!(item(&p, 0), json("4"), "a hex blockCount returns success with EMPTY arrays");
    assert_eq!(item(&verified_params("eth_getBalance", &json(r#"["0xa", "latest"]"#)), 1), json("\"latest\""));
    // A node still gets the quantity.
    let request = post(off_rpc().fee_history(1, 20, json("[25]"), &mut nobody()));
    assert_eq!(request.body.get("params"), Some(&json(r#"["0x14","latest",[25]]"#)));
}

#[test]
fn pending_becomes_latest_because_pending_is_unverifiable() {
    let mut spy = Wired::ok("\"0x7\"");
    let r = verified_rpc();
    r.get_transaction_count(1, "0xabc", &mut spy.link).unwrap();
    assert_eq!(item(&last(&spy).1, 1), json("\"latest\""), "a light client has no header for `pending`");
    let request = post(off_rpc().get_transaction_count(1, "0xabc", &mut nobody()));
    assert_eq!(request.body.get("params"), Some(&json(r#"["0xabc","pending"]"#)));
}

#[test]
fn estimate_gas_and_call_gain_the_upstream_third_parameter() {
    let mut spy = Wired::ok("\"0x5208\"");
    let r = verified_rpc();
    r.estimate_gas(1, json(r#"{ "to": "0xabc" }"#), &mut spy.link).unwrap();
    let (_, p) = last(&spy);
    assert_eq!(p.as_array().unwrap().len(), 3, "a one-arg estimate_gas is refused outright");
    assert_eq!(item(&p, 2), json("false"));
    r.call(1, json(r#"{ "to": "0xabc" }"#), &mut spy.link).unwrap();
    assert_eq!(last(&spy).1.as_array().unwrap().len(), 3);
}

#[test]
fn the_dialect_leaves_what_it_does_not_know() {
    assert_eq!(verified_params("eth_call", &json("[]")), json(r#"["latest","latest",false]"#));
    assert_eq!(verified_params("eth_call", &json("[1,2,3,4]")), json("[1,2,3,4]"));
    assert_eq!(verified_params("eth_feeHistory", &json(r#"["0xzz","latest"]"#)), json(r#"["0xzz","latest"]"#));
    assert_eq!(verified_params("eth_feeHistory", &json(r#"["0X4"]"#)), json(r#"["0X4"]"#));
    assert_eq!(verified_params("eth_getLogs", &json(r#"[{"a":1}]"#)), json(r#"[{"a":1}]"#));
    assert_eq!(verified_params("eth_getLogs", &json(r#"{"a":1}"#)), json("[]"), "no array counts as none");
}

#[test]
fn a_failing_verified_leg_refuses_and_never_falls_back() {
    let mut spy = Wired::failing();
    let r = verified_rpc();
    let e = r.get_balance(1, "0xabc", &mut spy.link).unwrap_err();
    assert!(matches!(e, RpcError::VerifiedProxy(_)), "got {e:?}");
    assert!(e.message().contains("proxy is not running"));
    assert_eq!(count(&spy), 1, "one attempt, and no retry against the endpoint");
    assert_eq!(
        r.get_balance(1, "0xabc", &mut nobody()).unwrap_err().message(),
        "verified proxy: no verified proxy is wired up"
    );
}

#[test]
fn a_byte_array_result_is_normalised_back_to_a_hex_string() {
    let mut spy = Wired::ok("[0, 32, 87, 69, 84, 72]");
    let r = verified_rpc();
    assert_eq!(
        answered(r.call(1, json(r#"{ "to": "0xabc" }"#), &mut spy.link)),
        text("0x002057455448")
    );
}

#[test]
fn a_bare_number_result_is_normalised_back_to_a_hex_quantity() {
    let mut spy = Wired::ok("11579774");
    let r = verified_rpc();
    assert_eq!(answered(r.block_number(1, &mut spy.link)), text("0xb0b17e"));
    assert_eq!(answered(r.verify_chain_id(1, &mut spy.link)), Answer::ChainId(11579774));
}

#[test]
fn a_result_already_in_wire_form_is_left_alone() {
    let r = verified_rpc();
    let mut spy = Wired::ok("\"0x1afd6402e6259dc342259\"");
    assert_eq!(answered(r.get_balance(1, "0xabc", &mut spy.link)), text("0x1afd6402e6259dc342259"));
    let mut spy2 = Wired::ok(r#"{ "baseFeePerGas": ["0x59bceec"], "oldestBlock": "0x1" }"#);
    match answered(r.fee_history(1, 4, json("[50]"), &mut spy2.link)) {
        Answer::Value(v) => assert_eq!(item(v.get("baseFeePerGas").unwrap(), 0), json("\"0x59bceec\"")),
        other => panic!("expected a value, got {other:?}"),
    }
    // Neither a negative number nor a byte that is none is the proxy's dialect.
    for wire in ["-1", "1.5", "[]", "[256]", "[1,\"2\"]", "null"] {
        let mut spy3 = Wired::ok(wire);
        assert_eq!(
            answered(r.get_transaction_receipt(1, "0xabc", &mut spy3.link)),
            Answer::Value(json(wire)),
            "{wire}"
        );
    }
}

#[test]
fn only_proof_backed_reads_are_classed_verified() {
    for m in ["eth_getBalance", "eth_getTransactionCount", "eth_getCode", "eth_getStorageAt", "eth_call"] {
        assert_eq!(verified_class(m), VerifiedClass::Verified, "{m}");
    }
    for m in [
        "eth_gasPrice",
        "eth_maxPriorityFeePerGas",
        "eth_feeHistory",
        "eth_estimateGas",
        "eth_sendRawTransaction",
        "eth_blockNumber",
    ] {
        assert_eq!(verified_class(m), VerifiedClass::Proxied, "{m}");
    }
}

#[test]
fn off_mode_never_touches_the_router() {
    let mut spy = Wired::ok("\"0x1\"");
    let r = off_rpc();
    assert!(post(r.get_balance(1, "0xabc", &mut spy.link)).finish(refused()).is_err());
    assert_eq!(count(&spy), 0, "off mode must not route");
}

#[test]
fn the_configured_verified_timeout_is_what_the_verified_leg_is_given() {
    let mut spy = Wired::ok("\"0x1\"");
    let mut r = verified_rpc();
    r.get_balance(1, "0xabc", &mut spy.link).unwrap();
    assert_eq!(budget(&spy), Some(Duration::from_secs(1)), "the record says 1s");
    assert!(r.patch_chain_transport(1, None, Some(25)));
    r.get_balance(1, "0xabc", &mut spy.link).unwrap();
    assert_eq!(budget(&spy), Some(Duration::from_secs(25)));
}

#[test]
fn an_unusable_verified_timeout_is_clamped_rather_than_honoured() {
    assert_eq!(verified_budget(0), Duration::from_secs(1), "0 would time out instantly");
    assert_eq!(verified_budget(9_999), Duration::from_secs(60));
    assert_eq!(verified_budget(default_verified_timeout()), Duration::from_secs(15));
}

#[test]
fn the_route_label_separates_a_proven_read_from_a_forwarded_one() {
    let r = verified_rpc();
    assert_eq!(route_label(r.route_of(1, methods::GET_BALANCE)), "verified");
    assert_eq!(route_label(r.route_of(1, methods::GET_TRANSACTION_RECEIPT)), "proxied");
    assert_eq!(route_label(r.route_of(1, methods::GAS_PRICE)), "proxied");
    let off = off_rpc();
    assert_eq!(route_label(off.route_of(1, methods::GET_BALANCE)), "direct");
    assert_eq!(route_label(off.route_of(999, methods::GET_BALANCE)), "direct");
}

#[test]
fn the_route_a_caller_labels_with_is_the_one_the_call_actually_took() {
    let r = verified_rpc();
    let mut spy = Wired::ok("\"0x1\"");
    for m in [methods::GET_BALANCE, methods::GAS_PRICE, methods::SEND_RAW_TRANSACTION] {
        let (_, class) = r.rpc_call_routed(1, m, json("[]"), &mut spy.link).unwrap();
        assert_eq!(class, r.route_of(1, m), "{m}");
    }
    let (leg, class) = off_rpc().rpc_call_routed(1, methods::GET_BALANCE, json("[]"), &mut spy.link).unwrap();
    assert!(matches!(leg, Leg::Post(_)));
    assert_eq!(class, None);
}

#[test]
fn the_url_escape_hatch_refuses_a_proof_backed_read_on_a_verified_chain() {
    let r = verified_rpc();
    for m in [
        methods::GET_BALANCE,
        methods::CALL,
        methods::GET_TRANSACTION_COUNT,
        "eth_getCode",
        "eth_getStorageAt",
    ] {
        match r.rpc_call_url(1, "https://any-node.example", m, json("[]")) {
            Err(RpcError::VerifiedBypass(got)) => assert_eq!(got, m),
            other => panic!("expected a refusal for {m}, got {other:?}"),
        }
    }
}

#[test]
fn the_url_escape_hatch_still_submits_on_a_verified_chain() {
    let r = verified_rpc();
    for m in ["eth_sendUserOperation", methods::SEND_RAW_TRANSACTION] {
        let request = r.rpc_call_url(1, "http://127.0.0.1:1/bundler", m, json("[]")).unwrap();
        assert_eq!(request.url, "http://127.0.0.1:1/bundler");
        assert_eq!(request.body.text_at("method"), Some(m));
        match request.finish(refused()) {
            Err(RpcError::Http(_)) => {}
            other => panic!("expected {m} to be attempted, got {other:?}"),
        }
    }
    let request = off_rpc().rpc_call_url(1, "http://127.0.0.1:1/x", methods::GET_BALANCE, json("[]")).unwrap();
    match request.finish(refused()) {
        Err(RpcError::Http(_)) => {}
        other => panic!("expected the call to be attempted, got {other:?}"),
    }
}

#[test]
fn every_helper_asks_for_its_own_method() {
    let r = off_rpc();
    let mut none = nobody();
    let cases = [
        (post(r.verify_chain_id(1, &mut none)), "eth_chainId", "[]"),
        (post(r.block_number(1, &mut none)), "eth_blockNumber", "[]"),
        (post(r.gas_price(1, &mut none)), "eth_gasPrice", "[]"),
        (post(r.call(1, json(r#"{"to":"0x1"}"#), &mut none)), "eth_call", r#"[{"to":"0x1"},"latest"]"#),
        (post(r.estimate_gas(1, json(r#"{"to":"0x1"}"#), &mut none)), "eth_estimateGas", r#"[{"to":"0x1"}]"#),
        (post(r.send_raw_transaction(1, "0x02", &mut none)), "eth_sendRawTransaction", r#"["0x02"]"#),
        (post(r.get_transaction_receipt(1, "0xh", &mut none)), "eth_getTransactionReceipt", r#"["0xh"]"#),
        (post(r.get_transaction_by_hash(1, "0xh", &mut none)), "eth_getTransactionByHash", r#"["0xh"]"#),
        (post(r.rpc_call(1, "eth_syncing", json("[1]"), &mut none)), "eth_syncing", "[1]"),
    ];
    for (request, method, params) in cases {
        assert_eq!(request.body.text_at("method"), Some(method));
        assert_eq!(request.body.get("params"), Some(&json(params)), "{method}");
    }
}
