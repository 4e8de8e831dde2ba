use std::sync::{Arc, Mutex};

use eth_rpc_module::config::{ChainConfig, ChainConfigWire, ConfigSource, VerifiedProxyMode};
use eth_rpc_module::json::{json_text, parse_json, Json};
use eth_rpc_module::link::{ProxyLink, VerifiedRouter};
use eth_rpc_module::module::{gate_answer, gate_required, Effects, Event, ModuleState};
use eth_rpc_module::proxy::{build_client, ClientPlan, ProxyConfig, ProxyError};
use eth_rpc_module::reply::PostReply;
use eth_rpc_module::serve::{Pending, Served};
use eth_rpc_module::time::Duration;
use eth_rpc_module::verdict::{classify_status, Verdict};

const NOT_READY: &str = r#"{"error":"eth_rpc not initialized (context not ready)","ok":false}"#;
const UNREADY: &str = r#"{"error":"eth_rpc not initialized (context not ready)","ok":false,"state":"unready"}"#;

struct Canned {
    answer: Result<Json, String>,
    asked: Arc<Mutex<usize>>,
}

impl VerifiedRouter for Canned {
    fn call(&self, _chain_id: u64, _method: &str, _params: &Json, _budget: Duration) -> Result<Json, String> {
        *self.asked.lock().unwrap() += 1;
        self.answer.clone()
    }
}

type Link = Option<ProxyLink<Canned>>;

fn canned(text: &str) -> (Link, Arc<Mutex<usize>>) {
    let asked = Arc::new(Mutex::new(0));
    let router = Canned { answer: Ok(parse_json(text).unwrap()), asked: asked.clone() };
    (Some(ProxyLink::new(router)), asked)
}

fn nobody() -> Link {
    None
}

fn ready() -> ModuleState {
    let mut m = ModuleState::default();
    m.on_context_ready(vec![]);
    m
}

fn wire(endpoint: &str) -> ChainConfigWire {
    ChainConfigWire {
        endpoint: endpoint.to_string(),
        proxy: None,
        proxy_required: false,
        timeout_secs: 8,
        verified_proxy_mode: None,
        verified_timeout_secs: None,
    }
}

/// A module with chain 1 configured.
fn configured(mode: VerifiedProxyMode) -> ModuleState {
    let mut m = ready();
    let w = ChainConfigWire { verified_proxy_mode: Some(mode), ..wire("http://node") };
    assert!(m.set_chain_config(1, Some(w)).0);
    m
}

fn text(s: Served) -> String {
    match s {
        Served::Text(t) => t,
        other => panic!("expected an answer, got {other:?}"),
    }
}

fn pending(s: Served) -> Pending {
    match s {
        Served::Pending(p) => p,
        other => panic!("expected a request, got {other:?}"),
    }
}

fn body(text: &str) -> PostReply {
    PostReply::Body(text.as_bytes().to_vec())
}

fn none() -> Effects {
    Effects { invalidate: vec![], events: vec![] }
}

#[test]
fn nothing_answers_before_the_context_is_there() {
    let mut m = ModuleState::default();
    assert_eq!(m.set_chain_config(1, Some(wire("x"))), (false, none()));
    assert_eq!(m.remove_chain_config(1), (false, none()));
    assert_eq!(m.get_chain_config(1), NOT_READY);
    assert_eq!(m.list_chains(), NOT_READY);
    assert_eq!(m.config_status(), UNREADY);
    assert_eq!(m.init_defaults(), (UNREADY.to_string(), none()));
    assert_eq!(m.proxy_mode(1), Err(NOT_READY.to_string()));
    assert_eq!(m.patch_chain_transport(1, 1, 1), (NOT_READY.to_string(), none()));
    assert_eq!(m.patch_chain_endpoint(1, "x"), (NOT_READY.to_string(), none()));
    assert_eq!(m.set_verified_proxy_mode(1, "off"), (NOT_READY.to_string(), none()));
    assert_eq!(m.ensure_chain_config(1, Ok(ChainConfig::builtin("x"))), (NOT_READY.to_string(), none()));
    assert_eq!(text(m.block_number(1, &mut nobody())), NOT_READY);
    assert_eq!(text(m.raw_rpc(1, "eth_x", "[]", &mut nobody())), NOT_READY);
    assert_eq!(text(m.raw_rpc_url(1, "u", "eth_x", "[]")), NOT_READY);
    assert!(m.take_save().is_none());
}

#[test]
fn a_config_write_announces_what_moved() {
    let mut m = ready();
    let (ok, effects) = m.set_chain_config(1, Some(wire("http://node")));
    assert!(ok);
    assert_eq!(effects, Effects { invalidate: vec![1], events: vec![Event::ChainConfigChanged(1)] });
    assert!(m.take_save().is_some());
    // The same again wakes nobody, but the verdict is still dropped.
    let (ok, effects) = m.set_chain_config(1, Some(wire("http://node")));
    assert!(ok);
    assert_eq!(effects, Effects { invalidate: vec![1], events: vec![] });
    // What could not be parsed is refused and follows nothing.
    assert_eq!(m.set_chain_config(1, None), (false, none()));

    let (answer, effects) = m.set_verified_proxy_mode(1, "  Required ");
    assert_eq!(answer, r#"{"chainId":1,"ok":true,"verifiedProxyMode":"required"}"#);
    assert_eq!(
        effects.events,
        vec![Event::ChainConfigChanged(1), Event::VerifiedProxyModeChanged(1, "required")]
    );
    let socks = ChainConfigWire { proxy_required: true, ..wire("http://node") };
    let (ok, effects) = m.set_chain_config(1, Some(socks));
    assert!(!ok, "a contradiction is refused");
    assert_eq!(effects, Effects { invalidate: vec![1], events: vec![] });

    let (removed, effects) = m.remove_chain_config(1);
    assert!(removed);
    assert_eq!(
        effects.events,
        vec![Event::ChainConfigChanged(1), Event::VerifiedProxyModeChanged(1, "off")]
    );
    assert_eq!(m.remove_chain_config(1), (false, Effects { invalidate: vec![1], events: vec![] }));
}

#[test]
fn a_mode_that_cannot_be_set_is_refused_in_words() {
    let mut m = ready();
    assert_eq!(
        m.set_verified_proxy_mode(5, "preferred").0,
        r#"{"error":"unknown verified proxy mode 'preferred' (expected off or required)","ok":false}"#
    );
    assert_eq!(
        m.set_verified_proxy_mode(5, "off").0,
        r#"{"error":"no configuration for chain 5","ok":false}"#
    );
    m.set_chain_config(5, Some(ChainConfigWire { proxy_required: true, ..wire("x") }));
    assert_eq!(
        m.set_verified_proxy_mode(5, "required").0,
        r#"{"error":"proxyRequired and verifiedProxyMode=required cannot both be set: the verified proxy makes its own connections and cannot honour a SOCKS proxy configured here","ok":false}"#
    );
}

#[test]
fn patches_answer_what_they_did() {
    let mut m = configured(VerifiedProxyMode::Off);
    assert_eq!(
        m.patch_chain_transport(1, 8, 0),
        (r#"{"ok":true}"#.to_string(), Effects { invalidate: vec![1], events: vec![] }),
        "the timeout was eight already"
    );
    assert_eq!(m.patch_chain_transport(1, 9, -3).1.events, vec![Event::ChainConfigChanged(1)]);
    assert_eq!(m.patch_chain_transport(2, 9, 9).0, r#"{"ok":false}"#);
    assert_eq!(
        m.patch_chain_endpoint(7, "  http://seven ").0,
        r#"{"chainId":7,"endpoint":"http://seven","ok":true}"#
    );
    assert_eq!(
        m.patch_chain_endpoint(7, " \t\u{3000}"),
        (r#"{"error":"endpoint must not be empty","ok":false}"#.to_string(), none())
    );
    assert_eq!(m.list_chains(), r#"{"chains":[1,7],"ok":true}"#);
}

#[test]
fn seeding_answers_what_it_wrote() {
    let mut m = ready();
    assert_eq!(
        m.ensure_chain_config(1, Err("expected value at line 1 column 1".to_string())),
        (r#"{"error":"expected value at line 1 column 1","ok":false}"#.to_string(), none())
    );
    let bad = ChainConfig {
        proxy_required: true,
        verified_proxy_mode: VerifiedProxyMode::Required,
        ..ChainConfig::builtin("x")
    };
    assert!(m.ensure_chain_config(1, Ok(bad)).0.contains("cannot both be set"));
    assert_eq!(
        m.ensure_chain_config(1, Ok(ChainConfig::builtin("http://mine"))).0,
        r#"{"ok":true,"seeded":["*"]}"#
    );
    assert_eq!(
        m.ensure_chain_config(1, Ok(ChainConfig::builtin("http://other"))).0,
        r#"{"ok":true,"seeded":[]}"#
    );
    assert_eq!(
        m.get_chain_config(1),
        r#"{"config":{"endpoint":"http://mine","proxy":null,"proxyRequired":false,"source":"external","timeoutSecs":8,"verifiedProxyMode":"off","verifiedTimeoutSecs":15},"ok":true}"#,
        "a caller's seed is a caller's, whatever it claims"
    );
    let (answer, effects) = m.init_defaults();
    assert_eq!(answer, r#"{"applied":true,"ok":true,"seeded":{"1":[],"11155111":["*"],"560048":["*"]}}"#);
    assert_eq!(effects.invalidate, vec![11155111, 560048]);
    assert_eq!(
        effects.events,
        vec![Event::ChainConfigChanged(11155111), Event::ChainConfigChanged(560048)]
    );
    assert_eq!(
        m.init_defaults(),
        (
            r#"{"applied":false,"ok":true,"seeded":{"1":[],"11155111":[],"560048":[]}}"#.to_string(),
            none()
        )
    );
}

#[test]
fn chain_ids_cross_the_boundary_by_their_bits() {
    let mut m = ready();
    assert_eq!(m.get_chain_config(-1), r#"{"error":"no config for chain -1","ok":false}"#);
    let (ok, effects) = m.set_chain_config(-1, Some(wire("x")));
    assert!(ok);
    assert_eq!(effects.invalidate, vec![u64::MAX]);
    assert_eq!(effects.events, vec![Event::ChainConfigChanged(-1)]);
    assert_eq!(m.list_chains(), r#"{"chains":[18446744073709551615],"ok":true}"#);
}

#[test]
fn a_restart_opens_what_was_saved() {
    let mut m = configured(VerifiedProxyMode::Required);
    let saved = m.take_save().unwrap();
    assert!(m.take_save().is_none());
    let mut again = ModuleState::default();
    again.on_context_ready(saved);
    assert_eq!(again.get_chain_config(1), m.get_chain_config(1));
    assert_eq!(again.config_status(), m.config_status());
    assert_eq!(again.proxy_mode(1), Ok(Some(VerifiedProxyMode::Required)));
}

#[test]
fn a_direct_answer_is_sealed_once_it_is_in() {
    let m = configured(VerifiedProxyMode::Off);
    let p = pending(m.get_balance(1, "0xabc", &mut nobody()));
    assert_eq!(p.request.url, "http://node");
    assert_eq!(p.finish(body(r#"{"result":"0x1234"}"#)), r#"{"ok":true,"result":"0x1234","route":"direct"}"#);
    assert_eq!(
        p.finish(body(r#"{"error":{"code":3,"message":"no"}}"#)),
        r#"{"error":"rpc error 3: no","ok":false}"#
    );
    let p = pending(m.verify_chain_id(1, &mut nobody()));
    assert_eq!(p.finish(body(r#"{"result":"0x1"}"#)), r#"{"chainId":1,"ok":true,"route":"direct"}"#);
    let p = pending(m.send_raw_transaction(1, "0x02", &mut nobody()));
    assert_eq!(p.finish(body(r#"{"result":"0xhash"}"#)), r#"{"hash":"0xhash","ok":true,"route":"direct"}"#);
    let p = pending(m.get_transaction_receipt(1, "0xh", &mut nobody()));
    assert_eq!(p.finish(body(r#"{"result":null}"#)), r#"{"ok":true,"result":null,"route":"direct"}"#);
    let p = pending(m.fee_history(1, -5, "[10]", &mut nobody()));
    assert_eq!(
        p.request.body.get("params"),
        Some(&parse_json(r#"["0x0","latest",[10]]"#).unwrap()),
        "a negative count is none"
    );
}

#[test]
fn every_method_asks_for_its_own() {
    let m = configured(VerifiedProxyMode::Off);
    let mut none = nobody();
    let served = [
        (m.block_number(1, &mut none), "eth_blockNumber", "[]"),
        (m.gas_price(1, &mut none), "eth_gasPrice", "[]"),
        (m.get_transaction_count(1, "0xa", &mut none), "eth_getTransactionCount", r#"["0xa","pending"]"#),
        (m.get_transaction_by_hash(1, "0xh", &mut none), "eth_getTransactionByHash", r#"["0xh"]"#),
        (m.estimate_gas(1, "{}", &mut none), "eth_estimateGas", "[{}]"),
        (m.call(1, "{}", None, Duration::from_secs(0), &mut none), "eth_call", r#"[{},"latest"]"#),
        (m.raw_rpc(1, "eth_getLogs", "[1]", &mut none), "eth_getLogs", "[1]"),
        (m.raw_rpc_url(1, "http://bundler", "eth_send", "[2]"), "eth_send", "[2]"),
    ];
    for (s, method, params) in served {
        let p = pending(s);
        assert_eq!(p.request.body.text_at("method"), Some(method));
        assert_eq!(p.request.body.get("params"), Some(&parse_json(params).unwrap()), "{method}");
        assert_eq!(p.envelope.route, None);
    }
}

#[test]
fn a_verified_answer_says_what_it_is() {
    let m = configured(VerifiedProxyMode::Required);
    let (mut proxy, asked) = canned("\"0x7\"");
    assert_eq!(
        text(m.get_balance(1, "0xa", &mut proxy)),
        r#"{"ok":true,"result":"0x7","route":"verified"}"#
    );
    assert_eq!(text(m.gas_price(1, &mut proxy)), r#"{"ok":true,"result":"0x7","route":"proxied"}"#);
    assert_eq!(*asked.lock().unwrap(), 2);
    assert_eq!(
        text(m.get_balance(1, "0xa", &mut nobody())),
        r#"{"error":"verified proxy: no verified proxy is wired up","ok":false}"#
    );
    assert_eq!(
        text(m.raw_rpc_url(1, "http://any", "eth_call", "[]")),
        r#"{"error":"eth_call is proof-backed on this chain's verified route: refused through an explicit url, which cannot prove it (use raw_rpc)","ok":false}"#
    );
    let p = pending(m.raw_rpc_url(1, "http://bundler", "eth_sendUserOperation", "[]"));
    assert_eq!(
        p.finish(body(r#"{"result":true}"#)),
        r#"{"ok":true,"result":true,"route":"direct"}"#,
        "nothing proxied it"
    );
}

#[test]
fn a_call_tells_the_kind_of_its_refusal() {
    let m = configured(VerifiedProxyMode::Off);
    let refused = text(m.call(1, "{}", Some(1000), Duration::from_millis(980), &mut nobody()));
    assert_eq!(
        refused,
        r#"{"code":"timeout","error":"no answer within 20ms: too little time left to ask chain 1","ok":false}"#
    );
    let p = pending(m.call(1, "{}", Some(1000), Duration::from_millis(100), &mut nobody()));
    assert_eq!(p.request.budget, Some(Duration::from_millis(900)), "what is gone is gone");
    assert_eq!(
        p.finish(PostReply::Failed { timed_out: true, causes: vec!["slow".to_string()] }),
        r#"{"code":"timeout","error":"no answer within 900ms: slow","ok":false}"#
    );
    let p = pending(m.call(1, "{}", Some(0), Duration::from_millis(100), &mut nobody()));
    assert_eq!(p.request.budget, None);
    assert_eq!(
        text(m.call(2, "{}", None, Duration::from_millis(0), &mut nobody())),
        r#"{"code":"unknown_chain","error":"no configuration for chain 2","ok":false}"#
    );
}

#[test]
fn what_is_no_json_is_refused_before_anybody_is_asked() {
    let m = configured(VerifiedProxyMode::Required);
    let (mut proxy, asked) = canned("\"0x7\"");
    let refusal = r#"{"error":"expected value at line 1 column 1","ok":false}"#;
    assert_eq!(text(m.call(1, "nope", None, Duration::from_secs(0), &mut proxy)), r#"{"error":"expected ident at line 1 column 2","ok":false}"#);
    assert_eq!(text(m.estimate_gas(1, "?", &mut proxy)), refusal);
    assert_eq!(text(m.fee_history(1, 1, "?", &mut proxy)), refusal);
    assert_eq!(text(m.raw_rpc(1, "eth_x", "?", &mut proxy)), refusal);
    assert_eq!(text(m.raw_rpc_url(1, "u", "eth_x", "?")), refusal);
    assert_eq!(*asked.lock().unwrap(), 0);
}

#[test]
fn the_gate_is_reported_per_chain() {
    let m = configured(VerifiedProxyMode::Required);
    let mode = m.proxy_mode(1).unwrap();
    assert!(gate_required(mode));
    let stopped = classify_status(1, &parse_json(r#"{"state":"stopped"}"#).unwrap());
    assert_eq!(
        json_text(&gate_answer(1, mode, stopped)),
        r#"{"action":"open_verified_proxy","blocking":true,"chainId":1,"detail":"state is 'stopped'","message":"The verified proxy is not started.","mode":"required","ok":true,"state":"stopped","usable":false}"#
    );
    let absent = m.proxy_mode(-9).unwrap();
    assert_eq!(absent, None);
    assert!(!gate_required(absent));
    let answer = gate_answer(-9, absent, Verdict::disabled());
    assert_eq!(answer.text_at("detail"), Some("no configuration for chain -9"));
    assert_eq!(answer.text_at("mode"), Some("off"));
    assert_eq!(answer.bool_at("blocking"), Some(false));
}

fn policy(proxy: Option<&str>, required: bool, timeout: u64) -> ProxyConfig {
    ProxyConfig::new(proxy.map(|p| p.to_string()), required, timeout)
}

#[test]
fn a_client_goes_through_the_proxy_that_is_set_or_not_at_all() {
    assert_eq!(
        build_client(&policy(Some("  socks5h://127.0.0.1:9050 "), true, 8)),
        Ok(ClientPlan {
            proxy: Some("socks5h://127.0.0.1:9050".to_string()),
            timeout: Some(Duration::from_secs(8)),
        })
    );
    for ok in ["socks5://h:1", "http://h", "https://h:8080"] {
        assert_eq!(build_client(&policy(Some(ok), false, 0)), Ok(ClientPlan { proxy: Some(ok.to_string()), timeout: None }));
    }
    assert_eq!(build_client(&policy(None, false, 0)), Ok(ClientPlan { proxy: None, timeout: None }));
    assert_eq!(build_client(&policy(Some("  "), false, 0)), Ok(ClientPlan { proxy: None, timeout: None }));
    assert_eq!(build_client(&policy(None, true, 0)), Err(ProxyError::ProxyRequiredButUnset));
    assert_eq!(build_client(&policy(Some(" "), true, 0)), Err(ProxyError::ProxyRequiredButUnset));
    for bad in ["ftp://h", "socks4://h", "127.0.0.1:9050", "socks5h:/h"] {
        let e = build_client(&policy(Some(bad), false, 0)).unwrap_err();
        assert_eq!(e, ProxyError::ProxyUnusable(bad.to_string()));
        assert_eq!(e.message(), format!("proxy URL is invalid or unsupported: {bad}"));
    }
}

#[test]
fn a_proxy_url_that_does_not_parse_is_unusable_though_its_kind_is_known() {
    match build_client(&policy(Some("http://[::bad"), true, 8)) {
        Err(ProxyError::ProxyUnusable(e)) => assert_eq!(e, "builder error"),
        other => panic!("expected the url to be refused, got {other:?}"),
    }
    let cfg = policy(Some("http://h"), true, 8);
    assert_eq!(
        cfg.plan_given(Some("no".to_string())),
        Err(ProxyError::ProxyUnusable("no".to_string()))
    );
    assert!(cfg.plan_given(None).is_ok());
    assert_eq!(
        ProxyError::Build("x".to_string()).message(),
        "failed to build HTTP client: x"
    );
}

#[test]
fn a_record_that_names_no_writer_is_a_callers() {
    assert_eq!(ConfigSource::default(), ConfigSource::External);
    assert_eq!(VerifiedProxyMode::default(), VerifiedProxyMode::Off);
}
