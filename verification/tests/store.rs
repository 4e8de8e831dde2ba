use std::collections::HashMap;

use eth_rpc_module::config::{
    default_timeout, default_verified_timeout, diff_chain, mode_label, ChainChange, ChainConfig, ChainConfigWire,
    ConfigSource, VerifiedProxyMode, DEFAULT_ENDPOINTS,
};
use eth_rpc_module::json::{json_text, Json};
use eth_rpc_module::store::EthRpc;

fn cfg(endpoint: &str) -> ChainConfig {
    ChainConfig {
        endpoint: endpoint.to_string(),
        proxy: None,
        proxy_required: false,
        timeout_secs: 5,
        verified_proxy_mode: VerifiedProxyMode::Off,
        verified_timeout_secs: 15,
        source: ConfigSource::External,
    }
}

fn moded(mode: VerifiedProxyMode) -> ChainConfig {
    ChainConfig {
        endpoint: "http://127.0.0.1:1/never".to_string(),
        proxy: None,
        proxy_required: false,
        timeout_secs: 1,
        verified_proxy_mode: mode,
        verified_timeout_secs: 1,
        source: ConfigSource::External,
    }
}

fn mine(mode: VerifiedProxyMode) -> ChainConfig {
    ChainConfig {
        endpoint: "https://mine".to_string(),
        proxy: None,
        proxy_required: false,
        timeout_secs: 8,
        verified_proxy_mode: mode,
        verified_timeout_secs: 15,
        source: ConfigSource::External,
    }
}

/// What a caller sends that names an endpoint and nothing else.
fn wire(endpoint: &str) -> ChainConfigWire {
    ChainConfigWire {
        endpoint: endpoint.to_string(),
        proxy: None,
        proxy_required: false,
        timeout_secs: default_timeout(),
        verified_proxy_mode: None,
        verified_timeout_secs: None,
    }
}

/// The store that a restart opens.
fn reopened(r: &EthRpc) -> EthRpc {
    EthRpc::with_store(r.store_entries())
}

fn seeded_map(v: Vec<(u64, Vec<String>)>) -> HashMap<u64, Vec<String>> {
    v.into_iter().collect()
}

fn snapshot(r: &EthRpc) -> Vec<(String, ChainConfig)> {
    r.store_entries()
}

fn diff_of(r: &mut EthRpc, chain: u64, f: impl FnOnce(&mut EthRpc)) -> ChainChange {
    let before = r.get_chain_config(chain).cloned();
    f(r);
    diff_chain(before.as_ref(), r.get_chain_config(chain))
}

fn at(v: &Json, key: &str) -> String {
    v.text_at(key).unwrap().to_string()
}

fn row(v: &Json, i: usize) -> Json {
    v.get("chains").unwrap().as_array().unwrap()[i].clone()
}

#[test]
fn config_store_roundtrip_persists() {
    let mut r = EthRpc::with_store(vec![]);
    r.set_chain_config(1, cfg("https://eth.example")).unwrap();
    r.set_chain_config(10, cfg("https://op.example")).unwrap();
    assert_eq!(r.list_chains(), vec![1, 10]);
    assert!(r.remove_chain_config(10));
    assert_eq!(r.list_chains(), vec![1]);
    let saved = r.take_save().expect("a write waits to be saved");
    assert_eq!(saved[0].0, "1", "the key is the decimal chain id");
    // Reopen: chain 1 survives, chain 10 is gone.
    let r2 = EthRpc::with_store(saved);
    assert_eq!(r2.list_chains(), vec![1]);
    assert_eq!(r2.get_chain_config(1).unwrap().endpoint, "https://eth.example");
}

#[test]
fn chains_are_listed_in_order_whatever_came_first() {
    let mut r = EthRpc::new();
    for id in [31337, 7, u64::MAX, 2, 7] {
        r.set_chain_config(id, cfg("https://one")).unwrap();
    }
    assert_eq!(r.list_chains(), vec![2, 7, 31337, u64::MAX]);
    let status = r.config_status();
    let rows = status.get("chains").unwrap().as_array().unwrap();
    let endpoints = rows.iter().filter(|row| row.get("endpoint").is_some()).count();
    assert_eq!((rows.len(), endpoints), (DEFAULT_ENDPOINTS.len() + 4, 4));
    assert_eq!(rows[0].i64_at("chainId"), Some(1));
    assert_eq!(rows[1].i64_at("chainId"), Some(2));
    assert_eq!(rows[2].i64_at("chainId"), Some(7));
    assert_eq!(rows[3].i64_at("chainId"), Some(31337));
}

#[test]
fn keys_that_are_no_chain_id_are_dropped() {
    let r = EthRpc::with_store(vec![
        ("1".to_string(), cfg("https://one")),
        ("one".to_string(), cfg("https://no")),
        ("-1".to_string(), cfg("https://no")),
        ("".to_string(), cfg("https://no")),
        ("18446744073709551616".to_string(), cfg("https://no")),
        ("18446744073709551615".to_string(), cfg("https://last")),
    ]);
    assert_eq!(r.list_chains(), vec![1, u64::MAX]);
    assert_eq!(reopened(&r).store_entries(), r.store_entries());
}

#[test]
fn a_save_is_due_after_every_write_and_only_then() {
    let mut r = EthRpc::new();
    assert!(r.take_save().is_none());
    r.set_chain_config(1, cfg("https://x")).unwrap();
    assert!(r.take_save().is_some());
    assert!(r.take_save().is_none(), "once saved there is nothing to save");
    assert!(r.ensure_chain_config(1, &cfg("https://y")).is_empty());
    assert!(!r.patch_chain_endpoint(1, "  "));
    assert!(!r.patch_chain_transport(2, Some(1), None));
    assert!(r.set_verified_proxy_mode(2, VerifiedProxyMode::Required).is_err());
    assert!(r.take_save().is_none(), "a refused write writes nothing");
    assert!(r.patch_chain_endpoint(1, "https://z"));
    assert!(r.take_save().is_some());
    r.init_defaults();
    assert!(r.take_save().is_some());
    r.init_defaults();
    assert!(r.take_save().is_none());
}

#[test]
fn a_socks_proxy_and_verified_routing_cannot_both_be_required() {
    let mut r = EthRpc::new();
    let bad = ChainConfig {
        endpoint: "https://x".to_string(),
        proxy: Some("socks5h://127.0.0.1:9050".to_string()),
        proxy_required: true,
        timeout_secs: 8,
        verified_proxy_mode: VerifiedProxyMode::Required,
        verified_timeout_secs: 15,
        source: ConfigSource::External,
    };
    assert!(bad.validate().is_err());
    assert!(r.set_chain_config(1, bad).is_err(), "the store must refuse the contradiction");
    assert!(r.get_chain_config(1).is_none());
}

#[test]
fn ensure_seeds_an_absent_chain_but_never_clobbers_a_configured_endpoint() {
    let mut r = EthRpc::new();
    let ours = moded(VerifiedProxyMode::Off);
    assert_eq!(r.ensure_chain_config(1, &ours), vec!["*".to_string()]);
    let theirs = ChainConfig { endpoint: "https://theirs".to_string(), ..ours.clone() };
    assert!(r.ensure_chain_config(1, &theirs).is_empty(), "an existing endpoint is the user's");
    assert_eq!(r.get_chain_config(1).unwrap().endpoint, "http://127.0.0.1:1/never");
}

#[test]
fn patch_rewrites_the_timeouts_we_own_and_nothing_else() {
    let mut r = EthRpc::new();
    let mut c = moded(VerifiedProxyMode::Off);
    c.timeout_secs = 30;
    c.endpoint = "https://mine".to_string();
    r.set_chain_config(1, c).unwrap();
    assert!(r.patch_chain_transport(1, Some(8), Some(15)));
    let got = r.get_chain_config(1).unwrap();
    assert_eq!((got.timeout_secs, got.verified_timeout_secs), (8, 15));
    assert_eq!(got.endpoint, "https://mine", "the user's endpoint is untouched");
    assert!(!r.patch_chain_transport(999, Some(8), None));
}

#[test]
fn patching_the_endpoint_leaves_the_verified_settings_a_whole_set_would_have_reset() {
    let mut r = EthRpc::new();
    let mut c = moded(VerifiedProxyMode::Required);
    c.endpoint = "https://old".to_string();
    c.verified_timeout_secs = 20;
    r.set_chain_config(1, c).unwrap();

    assert!(r.patch_chain_endpoint(1, "  https://new  "));
    let got = r.get_chain_config(1).unwrap();
    assert_eq!(got.endpoint, "https://new", "trimmed and written");
    assert_eq!(got.verified_proxy_mode, VerifiedProxyMode::Required, "set_chain_config resets this");
    assert_eq!(got.verified_timeout_secs, 20);

    assert!(r.patch_chain_endpoint(42, "https://fresh"));
    assert_eq!(r.get_chain_config(42).unwrap().verified_proxy_mode, VerifiedProxyMode::Off);
    assert!(!r.patch_chain_endpoint(1, "   "));
    assert_eq!(r.get_chain_config(1).unwrap().endpoint, "https://new");
}

#[test]
fn a_sibling_wallet_omitting_verified_proxy_mode_does_not_turn_verified_mode_off() {
    let mut first = EthRpc::with_store(vec![]);
    let mut c = moded(VerifiedProxyMode::Required);
    c.verified_timeout_secs = 20;
    first.set_chain_config(1, c).unwrap();

    let sibling = ChainConfigWire { timeout_secs: 30, ..wire("https://eth.llamarpc.com") };
    let mut r = reopened(&first);
    r.apply_chain_config(1, sibling).unwrap();

    let got = r.get_chain_config(1).unwrap();
    assert_eq!(got.endpoint, "https://eth.llamarpc.com", "the sibling still owns the endpoint");
    assert_eq!(got.timeout_secs, 30);
    assert_eq!(
        got.verified_proxy_mode,
        VerifiedProxyMode::Required,
        "an omitted key must not revoke a security setting the user turned on"
    );
    assert_eq!(got.verified_timeout_secs, 20, "and neither may it reset the verified timeout");
}

#[test]
fn only_an_explicit_off_lowers_the_mode() {
    let mut r = EthRpc::new();
    r.set_chain_config(1, moded(VerifiedProxyMode::Required)).unwrap();
    let explicit = ChainConfigWire {
        verified_proxy_mode: Some(VerifiedProxyMode::Off),
        verified_timeout_secs: Some(9),
        ..wire("https://x")
    };
    r.apply_chain_config(1, explicit).unwrap();
    let got = r.get_chain_config(1).unwrap();
    assert_eq!(got.verified_proxy_mode, VerifiedProxyMode::Off, "an explicit off is honoured");
    assert_eq!(got.verified_timeout_secs, 9);

    r.apply_chain_config(7, wire("https://y")).unwrap();
    let fresh = r.get_chain_config(7).unwrap();
    assert_eq!(fresh.verified_proxy_mode, VerifiedProxyMode::Off);
    assert_eq!(fresh.verified_timeout_secs, default_verified_timeout());
}

#[test]
fn a_socks_requirement_arriving_later_is_refused_rather_than_dropping_the_mode() {
    let mut r = EthRpc::new();
    r.set_chain_config(1, moded(VerifiedProxyMode::Required)).unwrap();
    let socks = ChainConfigWire {
        proxy: Some("socks5h://127.0.0.1:9050".to_string()),
        proxy_required: true,
        ..wire("https://x")
    };
    assert!(
        r.apply_chain_config(1, socks).is_err(),
        "resolving the contradiction silently is what dropped the mode before"
    );
    assert_eq!(r.get_chain_config(1).unwrap().verified_proxy_mode, VerifiedProxyMode::Required);
}

#[test]
fn switching_mode_on_a_socks_required_chain_is_refused_and_rolled_back() {
    let mut r = EthRpc::new();
    let mut c = moded(VerifiedProxyMode::Off);
    c.proxy = Some("socks5h://1".to_string());
    c.proxy_required = true;
    r.set_chain_config(1, c).unwrap();
    let e = r.set_verified_proxy_mode(1, VerifiedProxyMode::Required).unwrap_err();
    assert!(e.starts_with("proxyRequired and verifiedProxyMode=required cannot both be set"), "{e}");
    assert_eq!(
        r.get_chain_config(1).unwrap().verified_proxy_mode,
        VerifiedProxyMode::Off,
        "a refused switch must not leave the mode changed"
    );
    assert_eq!(
        r.set_verified_proxy_mode(9, VerifiedProxyMode::Off).unwrap_err(),
        "no configuration for chain 9"
    );
}

#[test]
fn the_shipped_defaults_cover_the_wallets_three_chains_with_verified_routing_off() {
    let ids: Vec<u64> = DEFAULT_ENDPOINTS.iter().map(|&(id, _)| id).collect();
    assert_eq!(ids, vec![1, 11155111, 560048]);
    for &(_, url) in DEFAULT_ENDPOINTS.iter() {
        let c = ChainConfig::builtin(url);
        assert!(url.starts_with("https://"), "{url} must not be plaintext http");
        assert_eq!(
            c.verified_proxy_mode,
            VerifiedProxyMode::Off,
            "verified routing needs an archive node the public defaults are not"
        );
        assert_eq!(c.source, ConfigSource::Builtin);
        assert!(c.proxy.is_none() && !c.proxy_required);
        c.validate().expect("a shipped default must be representable");
    }
}

#[test]
fn initializing_twice_writes_nothing_the_second_time() {
    let mut r = EthRpc::new();
    let first = seeded_map(r.init_defaults());
    for &(id, _) in DEFAULT_ENDPOINTS.iter() {
        assert_eq!(first[&id], vec!["*".to_string()], "chain {id} should be seeded whole");
    }
    let after_first = snapshot(&r);

    let second = seeded_map(r.init_defaults());
    for &(id, _) in DEFAULT_ENDPOINTS.iter() {
        assert!(second[&id].is_empty(), "chain {id} was rewritten by a second call");
    }
    assert_eq!(snapshot(&r), after_first, "a second init_defaults must not change a byte");
}

#[test]
fn initialization_is_still_a_no_op_after_a_restart() {
    let mut first = EthRpc::with_store(vec![]);
    first.init_defaults();
    let stored = snapshot(&first);
    let mut r = reopened(&first);
    assert!(seeded_map(r.init_defaults()).values().all(|f| f.is_empty()));
    assert_eq!(snapshot(&r), stored);
}

#[test]
fn a_user_endpoint_and_verified_mode_survive_initialization() {
    let mut r = EthRpc::new();
    let mut own = ChainConfig::builtin("https://my-own-archive.example");
    own.verified_proxy_mode = VerifiedProxyMode::Required;
    own.verified_timeout_secs = 42;
    own.timeout_secs = 3;
    own.source = ConfigSource::External;
    r.set_chain_config(1, own).unwrap();

    let seeded = seeded_map(r.init_defaults());
    assert!(seeded[&1].is_empty(), "a configured chain must not be touched");
    assert_eq!(seeded[&11155111], vec!["*".to_string()], "the absent chains still get seeded");

    let got = r.get_chain_config(1).unwrap();
    assert_eq!(got.endpoint, "https://my-own-archive.example");
    assert_eq!(
        got.verified_proxy_mode,
        VerifiedProxyMode::Required,
        "seeding a default must never revoke verified routing the user turned on"
    );
    assert_eq!((got.verified_timeout_secs, got.timeout_secs), (42, 3));
    assert_eq!(got.source, ConfigSource::External);
}

#[test]
fn a_default_fills_an_absent_endpoint_without_touching_the_rest_of_the_record() {
    let mut r = EthRpc::new();
    let mut half = ChainConfig::builtin("");
    half.proxy = Some("socks5h://127.0.0.1:9050".to_string());
    half.proxy_required = true;
    half.source = ConfigSource::External;
    r.set_chain_config(11155111, half).unwrap();

    let seeded = seeded_map(r.init_defaults());
    assert_eq!(seeded[&11155111], vec!["endpoint".to_string()]);
    let got = r.get_chain_config(11155111).unwrap();
    assert_eq!(got.endpoint, "https://ethereum-sepolia-rpc.publicnode.com");
    assert_eq!(
        got.proxy.as_deref(),
        Some("socks5h://127.0.0.1:9050"),
        "the fail-closed proxy policy is the user's, not ours to reset"
    );
    assert!(got.proxy_required);
    assert_eq!(got.source, ConfigSource::External, "and the record stays the user's");
}

#[test]
fn a_users_edit_relabels_a_defaulted_chain_as_theirs() {
    let mut r = EthRpc::new();
    r.init_defaults();
    assert_eq!(r.get_chain_config(1).unwrap().source, ConfigSource::Builtin);

    assert!(r.patch_chain_endpoint(1, "https://theirs.example"));
    assert_eq!(r.get_chain_config(1).unwrap().source, ConfigSource::External);
    r.set_verified_proxy_mode(11155111, VerifiedProxyMode::Required).unwrap();
    assert_eq!(r.get_chain_config(11155111).unwrap().source, ConfigSource::External);
    assert!(r.patch_chain_transport(560048, Some(12), None));
    assert_eq!(r.get_chain_config(560048).unwrap().source, ConfigSource::External);
}

#[test]
fn a_caller_cannot_declare_its_own_write_to_be_a_default() {
    let mut r = EthRpc::new();
    r.apply_chain_config(1, wire("https://theirs")).unwrap();
    assert_eq!(r.get_chain_config(1).unwrap().source, ConfigSource::External);
    // And so init_defaults leaves the endpoint alone.
    assert!(seeded_map(r.init_defaults())[&1].is_empty());
    assert_eq!(r.get_chain_config(1).unwrap().endpoint, "https://theirs");

    // A whole record does carry a source, and a caller's says what it likes.
    let cfg = ChainConfig::from_caller_json(ChainConfig::builtin("https://theirs"));
    assert_eq!(cfg.source, ConfigSource::External);
    let mut g = EthRpc::new();
    assert_eq!(g.ensure_chain_config(1, &cfg), vec!["*".to_string()]);
    assert_eq!(g.get_chain_config(1).unwrap().source, ConfigSource::External);
    let s = g.config_status();
    assert_eq!(at(&row(&s, 0), "source"), "external");
    assert_eq!(at(&s, "source"), "external");
}

#[test]
fn a_chains_json_written_before_source_existed_reads_back_as_external() {
    // A record that names no writer gets the default, and the default is a caller.
    let legacy = ChainConfig {
        timeout_secs: 30,
        source: ConfigSource::default(),
        ..ChainConfig::builtin("https://legacy")
    };
    let r = EthRpc::with_store(vec![("1".to_string(), legacy)]);
    assert_eq!(r.get_chain_config(1).unwrap().source, ConfigSource::External);
}

#[test]
fn an_empty_store_reports_unconfigured_and_still_lists_what_it_could_seed() {
    let s = EthRpc::new().config_status();
    assert_eq!(s.bool_at("ok"), Some(true));
    assert_eq!(at(&s, "state"), "unconfigured");
    assert_eq!(at(&s, "source"), "none");
    let rows = s.get("chains").unwrap().as_array().unwrap();
    assert_eq!(rows.len(), DEFAULT_ENDPOINTS.len());
    assert_eq!(rows[0].i64_at("chainId"), Some(1));
    assert_eq!(rows[0].text_at("state"), Some("unconfigured"));
    assert_eq!(rows[0].text_at("source"), Some("none"));
    assert!(rows[0].get("endpoint").is_none(), "no record means no endpoint to report");
}

#[test]
fn config_status_separates_a_default_from_a_value_the_user_chose() {
    let mut r = EthRpc::new();
    r.init_defaults();
    let s = r.config_status();
    assert_eq!((at(&s, "state").as_str(), at(&s, "source").as_str()), ("configured", "default"));
    assert_eq!(at(&row(&s, 0), "source"), "default");
    assert_eq!(at(&row(&s, 0), "endpoint"), "https://ethereum-rpc.publicnode.com");
    assert_eq!(at(&row(&s, 0), "verifiedProxyMode"), "off");

    assert!(r.patch_chain_endpoint(1, "https://theirs.example"));
    let s = r.config_status();
    assert_eq!(at(&s, "source"), "external", "one external chain makes the roll-up external");
    assert_eq!(at(&row(&s, 0), "source"), "external");
    assert_eq!(at(&row(&s, 1), "source"), "default", "the others are unchanged");
}

#[test]
fn a_chain_outside_the_defaults_is_reported_but_never_seeded() {
    let mut r = EthRpc::new();
    r.set_chain_config(31337, ChainConfig::builtin("http://127.0.0.1:8545")).unwrap();
    r.init_defaults();
    let status = r.config_status();
    let rows = status.get("chains").unwrap().as_array().unwrap();
    assert_eq!(rows.len(), DEFAULT_ENDPOINTS.len() + 1);
    assert_eq!(rows[1].i64_at("chainId"), Some(31337), "the union is sorted by chainId");
    assert_eq!(rows[1].text_at("state"), Some("configured"));
    assert_eq!(r.get_chain_config(31337).unwrap().endpoint, "http://127.0.0.1:8545");
}

#[test]
fn a_record_has_one_json_form() {
    let mut c = cfg("https://x");
    c.proxy = Some("socks5h://h".to_string());
    c.proxy_required = true;
    assert_eq!(
        json_text(&c.to_json()),
        r#"{"endpoint":"https://x","proxy":"socks5h://h","proxyRequired":true,"source":"external","timeoutSecs":5,"verifiedProxyMode":"off","verifiedTimeoutSecs":15}"#
    );
    let mut b = ChainConfig::builtin("y");
    b.verified_proxy_mode = VerifiedProxyMode::Required;
    assert_eq!(
        json_text(&b.to_json()),
        r#"{"endpoint":"y","proxy":null,"proxyRequired":false,"source":"default","timeoutSecs":8,"verifiedProxyMode":"required","verifiedTimeoutSecs":15}"#
    );
}

#[test]
fn a_new_chain_reports_its_record_but_no_gate_move() {
    let mut r = EthRpc::new();
    let c = diff_of(&mut r, 1, |r| {
        r.set_chain_config(1, mine(VerifiedProxyMode::Off)).unwrap();
    });
    assert_eq!(
        c,
        ChainChange { config: true, mode: None },
        "a chain arriving off was already effectively off"
    );
}

#[test]
fn rewriting_the_same_record_reports_nothing() {
    let mut r = EthRpc::new();
    r.set_chain_config(1, mine(VerifiedProxyMode::Off)).unwrap();
    let c = diff_of(&mut r, 1, |r| {
        r.set_chain_config(1, mine(VerifiedProxyMode::Off)).unwrap();
    });
    assert!(!c.any(), "an identical write must not wake every subscriber");
}

#[test]
fn a_sibling_rewriting_the_same_config_on_every_start_reports_nothing() {
    let mut r = EthRpc::new();
    let push = || ChainConfigWire { timeout_secs: 8, verified_timeout_secs: Some(15), ..wire("https://mine") };
    r.apply_chain_config(1, push()).unwrap();
    let c = diff_of(&mut r, 1, |r| {
        r.apply_chain_config(1, push()).unwrap();
    });
    assert!(!c.any());
}

#[test]
fn turning_the_gate_on_reports_the_record_and_the_mode() {
    let mut r = EthRpc::new();
    r.set_chain_config(1, mine(VerifiedProxyMode::Off)).unwrap();
    let c = diff_of(&mut r, 1, |r| {
        r.set_verified_proxy_mode(1, VerifiedProxyMode::Required).unwrap();
    });
    assert_eq!(c, ChainChange { config: true, mode: Some(VerifiedProxyMode::Required) });
    assert_eq!(mode_label(c.mode.unwrap()), "required");
}

#[test]
fn setting_the_mode_to_what_it_already_is_reports_nothing() {
    let mut r = EthRpc::new();
    r.set_chain_config(1, mine(VerifiedProxyMode::Required)).unwrap();
    let c = diff_of(&mut r, 1, |r| {
        r.set_verified_proxy_mode(1, VerifiedProxyMode::Required).unwrap();
    });
    assert!(!c.any(), "the wallet polls this gate; a no-op set must not look like a flip");
}

#[test]
fn a_refused_mode_switch_reports_nothing() {
    let mut r = EthRpc::new();
    let mut c0 = mine(VerifiedProxyMode::Off);
    c0.proxy_required = true;
    r.set_chain_config(1, c0).unwrap();
    let c = diff_of(&mut r, 1, |r| {
        assert!(r.set_verified_proxy_mode(1, VerifiedProxyMode::Required).is_err());
    });
    assert!(!c.any(), "a refusal changed nothing, so it announces nothing");
}

#[test]
fn removing_a_required_chain_closes_the_gate() {
    let mut r = EthRpc::new();
    r.set_chain_config(1, mine(VerifiedProxyMode::Required)).unwrap();
    let c = diff_of(&mut r, 1, |r| {
        assert!(r.remove_chain_config(1));
    });
    assert_eq!(
        c,
        ChainChange { config: true, mode: Some(VerifiedProxyMode::Off) },
        "no config reads as off, and a consumer gating on required must hear it"
    );
}

#[test]
fn removing_an_absent_chain_reports_nothing() {
    let mut r = EthRpc::new();
    let c = diff_of(&mut r, 7, |r| {
        assert!(!r.remove_chain_config(7));
    });
    assert!(!c.any());
}

#[test]
fn patching_an_endpoint_reports_the_record_only_when_it_moved() {
    let mut r = EthRpc::new();
    r.set_chain_config(1, mine(VerifiedProxyMode::Required)).unwrap();
    let moved = diff_of(&mut r, 1, |r| {
        assert!(r.patch_chain_endpoint(1, "https://new"));
    });
    assert_eq!(
        moved,
        ChainChange { config: true, mode: None },
        "an endpoint change does not move the proxy gate"
    );
    let same = diff_of(&mut r, 1, |r| {
        assert!(r.patch_chain_endpoint(1, "  https://new  "));
    });
    assert!(!same.any(), "the trimmed value is what is stored, so this is a no-op");
    let refused = diff_of(&mut r, 1, |r| {
        assert!(!r.patch_chain_endpoint(1, "   "));
    });
    assert!(!refused.any());
}

#[test]
fn patching_the_same_timeouts_reports_nothing() {
    let mut r = EthRpc::new();
    r.set_chain_config(1, mine(VerifiedProxyMode::Off)).unwrap();
    let same = diff_of(&mut r, 1, |r| {
        assert!(r.patch_chain_transport(1, Some(8), Some(15)));
    });
    assert!(!same.any());
    let moved = diff_of(&mut r, 1, |r| {
        assert!(r.patch_chain_transport(1, Some(9), None));
    });
    assert_eq!(moved, ChainChange { config: true, mode: None });
}

#[test]
fn ensure_reports_only_the_chain_it_actually_seeded() {
    let mut r = EthRpc::new();
    let ours = mine(VerifiedProxyMode::Off);
    let seeded = diff_of(&mut r, 1, |r| {
        assert!(!r.ensure_chain_config(1, &ours).is_empty());
    });
    assert_eq!(seeded, ChainChange { config: true, mode: None });
    let again = diff_of(&mut r, 1, |r| {
        assert!(r.ensure_chain_config(1, &ours).is_empty());
    });
    assert!(!again.any());
}

#[test]
fn seeding_defaults_reports_each_chain_once_and_never_again() {
    let mut r = EthRpc::new();
    let first = r.init_defaults();
    assert_eq!(first.iter().filter(|(_, w)| !w.is_empty()).count(), DEFAULT_ENDPOINTS.len());
    let second = r.init_defaults();
    assert!(second.iter().all(|(_, w)| w.is_empty()), "a second call announces nothing");
    for &(id, _) in DEFAULT_ENDPOINTS.iter() {
        assert_eq!(
            r.get_chain_config(id).unwrap().verified_proxy_mode,
            VerifiedProxyMode::Off,
            "seeding never moves the proxy gate, so it emits no mode event"
        );
    }
}

#[test]
fn the_record_is_durable_before_the_change_is_decided() {
    let mut r = EthRpc::with_store(vec![]);
    r.set_chain_config(1, mine(VerifiedProxyMode::Off)).unwrap();
    r.take_save();

    let before = r.get_chain_config(1).cloned();
    r.set_verified_proxy_mode(1, VerifiedProxyMode::Required).unwrap();
    let on_disk = r.take_save().expect("what changed waits to be saved at once");
    let change = diff_chain(before.as_ref(), r.get_chain_config(1));
    assert_eq!(change.mode, Some(VerifiedProxyMode::Required));
    assert_eq!(on_disk[0].1.verified_proxy_mode, VerifiedProxyMode::Required);
}
