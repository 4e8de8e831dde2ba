use std::cell::{Cell, RefCell};
use std::rc::Rc;

use eth_rpc_module::gate::{
    evaluate, hop_budget, GateCache, GateStep, HEALTH_TTL_SECS, READY_TTL_SECS,
};
use eth_rpc_module::json::{parse_json, Json};
use eth_rpc_module::probes::{GateProbe, Probes};
use eth_rpc_module::router::{pass_gate, unwrap_reply, VerifiedProxyRouter};
use eth_rpc_module::time::{Duration, Instant};
use eth_rpc_module::verdict::{
    classify_modules_state, classify_readiness, classify_status, Readiness, Verdict, PROXY_MODULE,
};

fn json(text: &str) -> Json {
    parse_json(text).unwrap()
}

/// A perfect snapshot of a running proxy, but for what a test replaces.
fn snapshot(chain_id: i64, started: i64, uptime: i64, block: &str, updated: i64, keep_alive: &str) -> Json {
    json(&format!(
        r#"{{"state":"running","network":"sepolia","chainId":{chain_id},"startedAt":{started},"uptimeSeconds":{uptime},"lastError":"","head":{{"blockNumber":"{block}","updatedAt":{updated}}},"keepAlive":"{keep_alive}"}}"#
    ))
}

fn running(chain_id: i64) -> Json {
    snapshot(chain_id, 1_700_000_000, 120, "0x5f5e100", 1_700_000_115, "on")
}

fn listing(proxy_state: Option<&str>, partial: bool) -> Json {
    let proxy = match proxy_state {
        Some(st) => format!(r#",{{"module":"{PROXY_MODULE}","state":"{st}"}}"#),
        None => "".to_string(),
    };
    json(&format!(
        r#"{{"modules":[{{"module":"eth_rpc_module","state":"ready"}}{proxy}],"partial":{partial},"seq":7}}"#
    ))
}

/// Stands in for the two host modules and counts what is asked of them.
struct Spy {
    listing: RefCell<Option<Json>>,
    status: Result<Json, String>,
    record: Option<Json>,
    probes: Cell<usize>,
    records: Cell<usize>,
    reads: Cell<usize>,
}

struct SpyProbe(Rc<Spy>);

impl GateProbe for SpyProbe {
    fn readiness(&self) -> Readiness {
        self.0.reads.set(self.0.reads.get() + 1);
        classify_readiness(self.0.listing.borrow().as_ref())
    }

    fn proxy_status(&self) -> Result<Json, String> {
        self.0.probes.set(self.0.probes.get() + 1);
        self.0.status.clone()
    }

    fn module_record(&self) -> Option<Json> {
        self.0.records.set(self.0.records.get() + 1);
        self.0.record.clone()
    }
}

/// Probes, and the spy behind them.
struct Spied {
    host: Probes<SpyProbe>,
    spy: Rc<Spy>,
}

impl Spied {
    fn with(listing: Option<Json>, status: Result<Json, String>, record: Option<Json>) -> Spied {
        let spy = Rc::new(Spy {
            listing: RefCell::new(listing),
            status,
            record,
            probes: Cell::new(0),
            records: Cell::new(0),
            reads: Cell::new(0),
        });
        Spied { host: Probes::new(SpyProbe(spy.clone())), spy }
    }

    fn new(listing: Option<Json>) -> Spied {
        Spied::with(listing, Ok(running(1)), None)
    }

    /// The proxy is loaded between two polls.
    fn loads(&self) {
        *self.spy.listing.borrow_mut() = Some(listing(Some("ready"), false));
    }
}

fn probes(s: &Spied) -> usize {
    s.spy.probes.get()
}

fn records(s: &Spied) -> usize {
    s.spy.records.get()
}

fn reads(s: &Spied) -> usize {
    s.spy.reads.get()
}

fn at(secs: u64) -> Instant {
    Instant::since_start(Duration::from_secs(1000 + secs))
}

#[test]
fn the_gate_is_paid_for_out_of_the_budget_rather_than_squeezed_into_it() {
    let floor = Duration::from_millis(50);
    assert_eq!(
        hop_budget(Duration::from_millis(3000), Duration::from_millis(400), floor),
        Some(Duration::from_millis(2600)),
        "what the proxy gate spent comes off the top"
    );
}

#[test]
fn a_budget_the_gate_has_already_eaten_refuses_rather_than_asking_with_nothing_left() {
    let floor = Duration::from_millis(50);
    assert_eq!(hop_budget(Duration::from_millis(400), Duration::from_millis(397), floor), None);
    assert_eq!(
        hop_budget(Duration::from_millis(10), Duration::from_secs(9), floor),
        None,
        "and an overspent gate saturates rather than wrapping"
    );
    assert_eq!(hop_budget(Duration::from_millis(60), Duration::from_millis(10), floor), Some(floor));
}

#[test]
fn a_running_proxy_on_our_chain_with_a_fresh_head_is_the_only_usable_verdict() {
    let v = classify_status(11155111, &running(11155111));
    assert_eq!((v.state, v.usable, v.action), ("ready", true, "none"));
    assert_eq!(v.detail, "", "detail is empty, never absent");
}

#[test]
fn a_proxy_on_another_chain_answers_confidently_and_wrongly_so_it_is_refused() {
    let v = classify_status(11155111, &running(1));
    assert_eq!((v.state, v.usable, v.action), ("wrong_chain", false, "open_verified_proxy"));
    assert!(v.message.contains("chain 1") && v.message.contains("11155111"), "{}", v.message);
}

#[test]
fn an_empty_head_is_start_up_inside_the_grace_and_a_fault_outside_it() {
    let early = snapshot(1, 1_700_000_000, 12, "", 1_700_000_115, "on");
    assert_eq!(classify_status(1, &early).state, "syncing");
    assert_eq!(classify_status(1, &early).action, "wait");

    let trapped = snapshot(1, 1_700_000_000, 300, "", 1_700_000_115, "on");
    let v = classify_status(1, &trapped);
    assert_eq!((v.state, v.usable, v.action), ("unhealthy", false, "restart_or_reload"));
    assert!(v.detail.contains("300s"), "{}", v.detail);

    // The grace ends at thirty seconds sharp.
    assert_eq!(classify_status(1, &snapshot(1, 0, 29, "", 0, "on")).state, "syncing");
    assert_eq!(classify_status(1, &snapshot(1, 0, 30, "", 0, "on")).state, "unhealthy");
}

#[test]
fn a_frozen_head_is_caught_even_though_the_heartbeat_stays_green() {
    let stale = snapshot(1, 1_700_000_000, 120, "0x5f5e100", 1_700_000_000 - 80, "on");
    let v = classify_status(1, &stale);
    assert_eq!((v.state, v.usable), ("unhealthy", false));
    assert!(v.detail.contains("stale"), "{}", v.detail);
    assert_eq!(v.detail, "verified head is 200s stale");

    // Sixty seconds are not stale yet, and a clock that is not told is not held against the head.
    assert_eq!(classify_status(1, &snapshot(1, 1000, 120, "0x1", 1060, "on")).state, "ready");
    assert_eq!(classify_status(1, &snapshot(1, 1000, 120, "0x1", 1059, "on")).state, "unhealthy");
    assert_eq!(classify_status(1, &snapshot(1, 1000, 120, "0x1", 0, "on")).state, "ready");
}

#[test]
fn staleness_is_measured_against_the_proxys_own_clock_not_ours() {
    let skewed = snapshot(1, 2_300_000_000, 120, "0x5f5e100", 2_300_000_115, "on");
    assert_eq!(classify_status(1, &skewed).state, "ready");
}

#[test]
fn a_clock_at_the_end_of_time_does_not_overflow() {
    let far = snapshot(1, i64::MAX, i64::MAX, "0x1", 1, "on");
    assert_eq!(classify_status(1, &far).detail, "verified head is 18446744073709551613s stale");
}

#[test]
fn keep_alive_off_is_its_own_fault_because_no_restart_fixes_it() {
    let drifting = snapshot(1, 1_700_000_000, 120, "0x5f5e100", 1_700_000_115, "off");
    let v = classify_status(1, &drifting);
    assert_eq!((v.state, v.usable, v.action), ("unhealthy", false, "open_verified_proxy"));
}

#[test]
fn the_lifecycle_states_map_to_their_own_verdicts() {
    let cases = [
        ("uninitialized", "unconfigured", "open_verified_proxy"),
        ("configured", "stopped", "open_verified_proxy"),
        ("stopped", "stopped", "open_verified_proxy"),
        ("starting", "syncing", "wait"),
        ("stopping", "syncing", "wait"),
        ("degraded", "unhealthy", "restart_or_reload"),
        ("error", "unhealthy", "restart_or_reload"),
    ];
    for (wire, state, action) in cases {
        let v = classify_status(1, &json(&format!(r#"{{"state":"{wire}","lastError":""}}"#)));
        assert_eq!((v.state, v.action), (state, action), "{wire}");
        assert!(!v.usable, "{wire}");
    }
}

#[test]
fn an_unrecognised_state_is_named_and_never_panics_or_passes() {
    let v = classify_status(1, &json(r#"{ "state": "quantum" }"#));
    assert_eq!((v.state, v.usable), ("unhealthy", false));
    assert!(v.detail.contains("quantum"), "{}", v.detail);
    assert_eq!(classify_status(1, &json("{}")).state, "unhealthy");
}

#[test]
fn a_last_error_is_carried_into_detail() {
    let v = classify_status(1, &json(r#"{ "state": "degraded", "lastError": "heartbeat failed x3" }"#));
    assert_eq!(v.detail, "heartbeat failed x3");
}

#[test]
fn modules_state_only_ever_sharpens_the_reason_a_failed_probe_already_gave() {
    for record in [None, Some(&Json::Null)] {
        let v = classify_modules_state(record, "not reachable");
        assert_eq!((v.state, v.action), ("missing", "install_or_load"));
        assert!(v.detail.contains("not reachable"), "{}", v.detail);
    }

    let cases = [
        ("unloaded", "missing", "install_or_load"),
        ("loading", "syncing", "wait"),
        ("loaded", "syncing", "wait"),
        ("error", "unhealthy", "restart_or_reload"),
        ("ready", "unhealthy", "restart_or_reload"),
        ("stopping", "missing", "install_or_load"),
    ];
    for (wire, state, action) in cases {
        let rec = json(&format!(r#"{{"module":"verified_proxy_module","state":"{wire}"}}"#));
        let v = classify_modules_state(Some(&rec), "not reachable");
        assert_eq!((v.state, v.action), (state, action), "{wire}");
        assert!(!v.usable, "{wire}");
    }
}

#[test]
fn a_crashed_module_reports_the_hosts_reason() {
    let rec = json(r#"{ "state": "error", "reason": "exited with signal 11" }"#);
    let v = classify_modules_state(Some(&rec), "timed out");
    assert_eq!(v.message, "The Verified Proxy module stopped unexpectedly.");
    assert_eq!(v.detail, "exited with signal 11");
}

#[test]
fn blocking_is_exactly_required_and_not_usable() {
    let ready = classify_status(1, &running(1));
    assert_eq!(ready.to_json(1, true).bool_at("blocking"), Some(false));
    assert_eq!(ready.to_json(1, false).bool_at("blocking"), Some(false));

    let broken = classify_status(1, &json(r#"{ "state": "stopped" }"#));
    assert_eq!(broken.to_json(1, true).bool_at("blocking"), Some(true));
    assert_eq!(broken.to_json(1, false).bool_at("blocking"), Some(false));
    assert_eq!(Verdict::disabled().to_json(1, false).bool_at("blocking"), Some(false));
}

#[test]
fn every_verdict_stays_inside_the_two_closed_sets() {
    let states = [
        "disabled", "ready", "syncing", "missing", "unconfigured", "stopped", "wrong_chain", "unhealthy",
    ];
    let actions = ["none", "wait", "install_or_load", "open_verified_proxy", "restart_or_reload"];
    let mut all = vec![Verdict::disabled(), classify_status(1, &running(1))];
    for wire in [
        "uninitialized", "configured", "stopped", "starting", "stopping", "degraded", "error", "quantum", "running",
    ] {
        all.push(classify_status(9, &json(&format!(r#"{{"state":"{wire}","keepAlive":"on"}}"#))));
    }
    for wire in ["unloaded", "loading", "loaded", "ready", "error", "quantum"] {
        all.push(classify_modules_state(Some(&json(&format!(r#"{{"state":"{wire}"}}"#))), "x"));
    }
    for v in all {
        assert!(states.contains(&v.state), "{}", v.state);
        assert!(actions.contains(&v.action), "{}", v.action);
        assert!(!v.message.is_empty(), "{}", v.state);
    }
}

#[test]
fn the_wire_shape_always_carries_every_key() {
    let j = Verdict::disabled().to_json(11155111, false);
    for k in ["ok", "chainId", "mode", "state", "usable", "blocking", "message", "action", "detail"] {
        assert!(j.get(k).is_some(), "missing {k}");
    }
    assert_eq!(j.text_at("mode"), Some("off"));
    assert_eq!(j.bool_at("ok"), Some(true), "a reachable outcome is ok:true even when unusable");
}

#[test]
fn a_proxy_the_host_says_is_not_loaded_costs_zero_probes() {
    for absent in [None, Some("unloaded")] {
        let mut spy = Spied::new(Some(listing(absent, false)));
        let v = evaluate(1, &mut spy.host);
        assert_eq!((v.state, v.action), ("missing", "install_or_load"), "{absent:?}");
        assert_eq!(probes(&spy), 0, "the 1500ms status probe must not run");
        assert_eq!(records(&spy), 0, "and neither must the refinement");
        assert!(!v.detail.is_empty(), "the verdict still says why");
    }
}

#[test]
fn a_registry_with_nothing_to_say_still_probes() {
    let cases = [
        ("unfed: empty and complete", json(r#"{ "modules": [], "partial": false, "seq": 0 }"#)),
        ("unfed: empty and partial", json(r#"{ "modules": [], "partial": true, "seq": 0 }"#)),
        ("partial, proxy not in it", listing(None, true)),
        ("no partial flag", json(r#"{ "modules": [{ "module": "x", "state": "ready" }] }"#)),
        ("not a listing at all", json(r#"{ "ok": true }"#)),
        ("null", Json::Null),
    ];
    for (name, l) in cases {
        let mut spy = Spied::new(Some(l));
        assert_eq!(evaluate(1, &mut spy.host).state, "ready", "{name}");
        assert_eq!(probes(&spy), 1, "{name}");
    }
    let mut spy = Spied::new(None);
    assert_eq!(evaluate(1, &mut spy.host).state, "ready");
    assert_eq!(probes(&spy), 1);
}

#[test]
fn loaded_is_not_configured_started_or_synced_so_it_is_still_probed() {
    for state in ["loading", "loaded", "ready", "stopping", "error", "quantum"] {
        assert_eq!(
            classify_readiness(Some(&listing(Some(state), false))),
            Readiness::Loaded,
            "{state}"
        );
    }
    let mut spy =
        Spied::with(Some(listing(Some("ready"), false)), Ok(json(r#"{ "state": "stopped" }"#)), None);
    let v = evaluate(1, &mut spy.host);
    assert_eq!((v.state, v.usable, v.action), ("stopped", false, "open_verified_proxy"));
    assert_eq!(probes(&spy), 1);
}

#[test]
fn a_verdict_the_probe_paid_for_is_reused_inside_health_ttl() {
    let mut spy = Spied::new(Some(listing(Some("ready"), false)));
    let mut cache = GateCache::default();
    assert_eq!(cache.verdict_at(at(0), 1, &mut spy.host).state, "ready");
    assert_eq!(cache.verdict_at(at(4), 1, &mut spy.host).state, "ready");
    assert_eq!(probes(&spy), 1, "the 1500ms probe must not run twice inside 5s");
    cache.verdict_at(at(HEALTH_TTL_SECS), 1, &mut spy.host);
    assert_eq!(probes(&spy), 2, "and must run again once the verdict is stale");
}

#[test]
fn a_missing_verdict_the_probe_paid_for_is_cached_like_any_other() {
    let mut spy = Spied::with(Some(listing(None, true)), Err("timed out".to_string()), None);
    let mut cache = GateCache::default();
    assert_eq!(cache.verdict_at(at(0), 1, &mut spy.host).state, "missing");
    assert_eq!(cache.verdict_at(at(4), 1, &mut spy.host).state, "missing");
    assert_eq!(probes(&spy), 1);
}

#[test]
fn a_proxy_that_has_just_loaded_is_seen_within_ready_ttl_not_ready_plus_health() {
    let mut spy = Spied::new(Some(listing(None, false)));
    let mut cache = GateCache::default();
    assert_eq!(cache.verdict_at(at(0), 1, &mut spy.host).state, "missing");
    assert_eq!(cache.verdict_at(at(1), 1, &mut spy.host).state, "missing");
    assert_eq!((reads(&spy), probes(&spy)), (1, 0), "and it stays free to recompute");

    spy.loads();
    assert_eq!(
        cache.verdict_at(at(READY_TTL_SECS), 1, &mut spy.host).state,
        "ready",
        "a missing verdict must not outlive the listing it rests on"
    );
}

#[test]
fn invalidating_a_chain_drops_the_host_readiness_that_verdict_rested_on() {
    let mut spy = Spied::new(Some(listing(None, false)));
    let mut cache = GateCache::default();
    assert_eq!(cache.verdict_at(at(0), 1, &mut spy.host).state, "missing");

    spy.loads();
    cache.invalidate(1);
    assert_eq!(cache.verdict_at(at(0), 1, &mut spy.host).state, "ready");
    assert_eq!(reads(&spy), 2);
}

#[test]
fn one_readiness_lookup_serves_every_chain_a_wallet_polls() {
    let mut spy = Spied::new(Some(listing(Some("ready"), false)));
    let mut cache = GateCache::default();
    for chain in [1u64, 5, 9] {
        cache.verdict_at(at(0), chain, &mut spy.host);
    }
    assert_eq!(reads(&spy), 1, "readiness is a host fact, not a per-chain one");
    assert_eq!(probes(&spy), 3, "the verdict is not: each chain gets its own");
}

#[test]
fn a_failed_probe_is_still_refined_by_the_record() {
    let mut spy = Spied::with(
        Some(listing(Some("loaded"), false)),
        Err("timed out".to_string()),
        Some(json(r#"{ "state": "error", "reason": "exited with signal 11" }"#)),
    );
    let v = evaluate(1, &mut spy.host);
    assert_eq!((v.state, v.action), ("unhealthy", "restart_or_reload"));
    assert_eq!(v.detail, "exited with signal 11");
    assert_eq!((probes(&spy), records(&spy)), (1, 1));
}

#[test]
fn the_steps_lead_where_the_whole_leads() {
    let mut cache = GateCache::new();
    assert!(matches!(cache.begin(at(0), 1), GateStep::AskReadiness));
    assert!(matches!(cache.on_readiness(at(0), Readiness::Unknown), GateStep::AskStatus));
    match cache.on_status(at(0), 1, Err("timed out".to_string())) {
        GateStep::AskRecord(e) => assert_eq!(e, "timed out"),
        _ => panic!("a failed status asks for the record"),
    }
    let v = cache.on_record(at(0), 1, "timed out", None);
    assert_eq!(v.detail, "status() did not answer (timed out); modules_state could not confirm it");
    match cache.begin(at(4), 1) {
        GateStep::Done(held) => assert_eq!(held.detail, v.detail),
        _ => panic!("the verdict is held"),
    }
    assert!(matches!(cache.begin(at(1), 2), GateStep::AskStatus), "the readiness is held for every chain");
    match cache.on_readiness(at(9), Readiness::NotLoaded("gone".to_string())) {
        GateStep::Done(v) => assert_eq!((v.state, v.detail.as_str()), ("missing", "gone")),
        _ => panic!("a positive absence needs no probe"),
    }
    match cache.on_status(at(9), 1, Ok(running(1))) {
        GateStep::Done(v) => assert!(v.usable),
        _ => panic!("a status is a verdict"),
    }
}

#[test]
fn an_off_chain_probes_nothing() {
    let mut router = VerifiedProxyRouter::default();
    let mut spy = Spied::new(Some(listing(Some("ready"), false)));
    assert_eq!(router.verdict(at(0), 1, false, &mut spy.host).state, "disabled");
    assert_eq!((reads(&spy), probes(&spy), records(&spy)), (0, 0, 0));
    assert!(matches!(router.begin(at(0), 1, false), GateStep::Done(_)));
    assert!(matches!(router.begin(at(0), 1, true), GateStep::AskReadiness));
    assert_eq!(router.verdict(at(0), 1, true, &mut spy.host).state, "ready");
    assert_eq!((reads(&spy), probes(&spy)), (1, 1));
}

#[test]
fn a_shut_gate_says_why_and_an_open_one_how_long() {
    let ready = classify_status(1, &running(1));
    let budget = Duration::from_millis(3000);
    assert_eq!(
        pass_gate(&ready, "eth_call", budget, Duration::from_millis(400)),
        Ok(Duration::from_millis(2600))
    );
    assert_eq!(
        pass_gate(&ready, "eth_call", budget, Duration::from_millis(2951)),
        Err("the verified gate spent 2951ms of a 3000ms budget, leaving too little to ask the proxy for eth_call".to_string())
    );
    assert_eq!(
        pass_gate(&Verdict::disabled(), "eth_call", budget, Duration::from_millis(0)),
        Err("Verification is off. Balances come from the configured endpoint.".to_string())
    );
    let stopped = classify_status(1, &json(r#"{"state":"stopped"}"#));
    assert_eq!(
        pass_gate(&stopped, "eth_call", budget, Duration::from_millis(0)),
        Err("The verified proxy is not started. (state is 'stopped')".to_string())
    );
}

#[test]
fn the_proxys_envelope_is_taken_off() {
    let read = |text: &str| unwrap_reply("eth_call", Ok(json(text)));
    assert_eq!(read(r#"{"success":true,"value":[1,2]}"#), Ok(json("[1,2]")));
    assert_eq!(read(r#"{"success":true}"#), Ok(Json::Null));
    assert_eq!(read(r#"{"success":false,"error":"not synced"}"#), Err("eth_call: not synced".to_string()));
    assert_eq!(read(r#"{"success":"true","value":1}"#), Err("eth_call: no detail".to_string()));
    assert_eq!(
        unwrap_reply("eth_call", Err("Timeout".to_string())),
        Err("eth_call failed (Timeout)".to_string())
    );
}
