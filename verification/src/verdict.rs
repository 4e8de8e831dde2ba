//! The verdict on a verified proxy, that is, what state one chain's verified leg is in, whether a call
//! would answer now, and what the user has to do about it.
use vstd::prelude::*;
use vstd::string::*;

use crate::json::{Json, JsonView, empty_object, opt_view, views};
use crate::num::{signed, to_signed};
use crate::text::{decimal, decimal_i128, decimal_u64, same_text};

verus! {

/// A running proxy with no head yet is starting up for this long; then it is a fault.
pub const HEAD_GRACE_SECS: i64 = 30;

/// How far the verified head may lag the proxy's own clock before the proxy is not tracking.
pub const HEAD_STALE_SECS: i64 = 60;

/// The module that a verdict is about.
pub const PROXY_MODULE: &'static str = "verified_proxy_module";

/// One chain's verdict. `state` and `action` are closed sets, and `action` is a field of its own:
/// `unhealthy` alone maps to two actions.
#[derive(Debug, PartialEq, Eq)]
pub struct Verdict {
    pub state: &'static str,
    pub usable: bool,
    pub message: String,
    pub action: &'static str,
    pub detail: String,
}

/// What a [`Verdict`] says.
#[verifier::ext_equal]
pub struct VerdictView {
    pub state: Seq<char>,
    pub usable: bool,
    pub message: Seq<char>,
    pub action: Seq<char>,
    pub detail: Seq<char>,
}

impl View for Verdict {
    type V = VerdictView;

    open spec fn view(&self) -> VerdictView {
        VerdictView {
            state: self.state@,
            usable: self.usable,
            message: self.message@,
            action: self.action@,
            detail: self.detail@,
        }
    }
}

impl Clone for Verdict {
    fn clone(&self) -> (r: Self)
        ensures
            r == *self,
    {
        Verdict {
            state: self.state,
            usable: self.usable,
            message: self.message.clone(),
            action: self.action,
            detail: self.detail.clone(),
        }
    }
}

/// A verdict on a leg that cannot be used, with nothing to add.
pub open spec fn unusable(state: Seq<char>, action: Seq<char>, message: Seq<char>) -> VerdictView {
    VerdictView { state, usable: false, message, action, detail: Seq::empty() }
}

pub open spec fn disabled_verdict() -> VerdictView {
    unusable(
        "disabled"@,
        "none"@,
        "Verification is off. Balances come from the configured endpoint."@,
    )
}

pub open spec fn ready_verdict() -> VerdictView {
    VerdictView { usable: true, ..unusable("ready"@, "none"@, "Verified."@) }
}

pub open spec fn syncing_verdict() -> VerdictView {
    unusable("syncing"@, "wait"@, "The verified proxy is starting up."@)
}

pub open spec fn missing_verdict() -> VerdictView {
    unusable("missing"@, "install_or_load"@, "The Verified Proxy module is not running."@)
}

pub open spec fn unconfigured_verdict() -> VerdictView {
    unusable(
        "unconfigured"@,
        "open_verified_proxy"@,
        "The verified proxy has not been set up yet."@,
    )
}

pub open spec fn stopped_verdict() -> VerdictView {
    unusable("stopped"@, "open_verified_proxy"@, "The verified proxy is not started."@)
}

pub open spec fn wrong_chain_verdict(theirs: i64, ours: u64) -> VerdictView {
    unusable(
        "wrong_chain"@,
        "open_verified_proxy"@,
        "The verified proxy is on chain "@ + decimal(theirs as int) + ", not "@ + decimal(
            ours as int,
        ) + ". It serves one chain at a time."@,
    )
}

pub open spec fn keep_alive_off_verdict() -> VerdictView {
    unusable(
        "unhealthy"@,
        "open_verified_proxy"@,
        "The verified proxy has keep-alive turned off, so its verified head drifts."@,
    )
}

pub open spec fn crashed_verdict() -> VerdictView {
    unusable(
        "unhealthy"@,
        "restart_or_reload"@,
        "The Verified Proxy module stopped unexpectedly."@,
    )
}

pub open spec fn not_tracking_verdict() -> VerdictView {
    unusable(
        "unhealthy"@,
        "restart_or_reload"@,
        "The verified proxy is running but not tracking the chain."@,
    )
}

impl VerdictView {
    /// The same verdict with `detail` added.
    pub open spec fn detailed(self, detail: Seq<char>) -> VerdictView {
        VerdictView { detail, ..self }
    }

    /// Whether the state is one of the eight that exist.
    pub open spec fn known_state(self) -> bool {
        ||| self.state == "disabled"@
        ||| self.state == "ready"@
        ||| self.state == "syncing"@
        ||| self.state == "missing"@
        ||| self.state == "unconfigured"@
        ||| self.state == "stopped"@
        ||| self.state == "wrong_chain"@
        ||| self.state == "unhealthy"@
    }

    /// Whether the action is one of the five that exist.
    pub open spec fn known_action(self) -> bool {
        ||| self.action == "none"@
        ||| self.action == "wait"@
        ||| self.action == "install_or_load"@
        ||| self.action == "open_verified_proxy"@
        ||| self.action == "restart_or_reload"@
    }

    /// The wire shape that every consumer reads.
    pub open spec fn to_json(self, chain_id: i64, mode_required: bool) -> JsonView {
        empty_object().with("ok"@, JsonView::Bool(true)).with(
            "chainId"@,
            JsonView::Int(chain_id as int),
        ).with(
            "mode"@,
            JsonView::Text(
                if mode_required {
                    "required"@
                } else {
                    "off"@
                },
            ),
        ).with("state"@, JsonView::Text(self.state)).with(
            "usable"@,
            JsonView::Bool(self.usable),
        ).with("blocking"@, JsonView::Bool(mode_required && !self.usable)).with(
            "message"@,
            JsonView::Text(self.message),
        ).with("action"@, JsonView::Text(self.action)).with(
            "detail"@,
            JsonView::Text(self.detail),
        )
    }
}

impl Verdict {
    fn of(state: &'static str, action: &'static str, message: &str) -> (r: Self)
        ensures
            r@ == unusable(state@, action@, message@),
    {
        Verdict {
            state,
            usable: false,
            message: message.to_string(),
            action,
            detail: String::new(),
        }
    }

    fn detailed(self, detail: &str) -> (r: Self)
        ensures
            r@ == self@.detailed(detail@),
    {
        Verdict { detail: detail.to_string(), ..self }
    }

    pub fn disabled() -> (r: Self)
        ensures
            r@ == disabled_verdict(),
    {
        Self::of(
            "disabled",
            "none",
            "Verification is off. Balances come from the configured endpoint.",
        )
    }

    fn ready() -> (r: Self)
        ensures
            r@ == ready_verdict(),
    {
        Verdict { usable: true, ..Self::of("ready", "none", "Verified.") }
    }

    fn syncing() -> (r: Self)
        ensures
            r@ == syncing_verdict(),
    {
        Self::of("syncing", "wait", "The verified proxy is starting up.")
    }

    fn missing() -> (r: Self)
        ensures
            r@ == missing_verdict(),
    {
        Self::of("missing", "install_or_load", "The Verified Proxy module is not running.")
    }

    /// The verdict on a proxy that the host says is not loaded, and why it says so.
    pub fn not_loaded(why: &str) -> (r: Self)
        ensures
            r@ == missing_verdict().detailed(why@),
    {
        Self::missing().detailed(why)
    }

    fn unconfigured() -> (r: Self)
        ensures
            r@ == unconfigured_verdict(),
    {
        Self::of(
            "unconfigured",
            "open_verified_proxy",
            "The verified proxy has not been set up yet.",
        )
    }

    fn stopped() -> (r: Self)
        ensures
            r@ == stopped_verdict(),
    {
        Self::of("stopped", "open_verified_proxy", "The verified proxy is not started.")
    }

    fn wrong_chain(theirs: i64, ours: u64) -> (r: Self)
        ensures
            r@ == wrong_chain_verdict(theirs, ours),
    {
        let message = String::from_str("The verified proxy is on chain ").concat(
            decimal_i128(theirs as i128).as_str(),
        ).concat(", not ").concat(decimal_u64(ours).as_str()).concat(
            ". It serves one chain at a time.",
        );
        Self::of("wrong_chain", "open_verified_proxy", message.as_str())
    }

    /// Keep-alive off is a fault of its own: the verified head drifts backwards, and no restart
    /// fixes a configuration choice.
    fn keep_alive_off() -> (r: Self)
        ensures
            r@ == keep_alive_off_verdict(),
    {
        Self::of(
            "unhealthy",
            "open_verified_proxy",
            "The verified proxy has keep-alive turned off, so its verified head drifts.",
        )
    }

    fn crashed() -> (r: Self)
        ensures
            r@ == crashed_verdict(),
    {
        Self::of(
            "unhealthy",
            "restart_or_reload",
            "The Verified Proxy module stopped unexpectedly.",
        )
    }

    fn not_tracking() -> (r: Self)
        ensures
            r@ == not_tracking_verdict(),
    {
        Self::of(
            "unhealthy",
            "restart_or_reload",
            "The verified proxy is running but not tracking the chain.",
        )
    }

    /// The wire shape that every consumer reads. Every key is always present; `detail` is empty
    /// rather than absent when there is nothing to add.
    pub fn to_json(&self, chain_id: i64, mode_required: bool) -> (r: Json)
        ensures
            r@ == self@.to_json(chain_id, mode_required),
    {
        let mode = if mode_required {
            "required"
        } else {
            "off"
        };
        Json::object().with("ok", Json::Bool(true)).with("chainId", Json::number(chain_id)).with(
            "mode",
            Json::text(mode),
        ).with("state", Json::text(self.state)).with("usable", Json::Bool(self.usable)).with(
            "blocking",
            Json::Bool(mode_required && !self.usable),
        ).with("message", Json::text(self.message.as_str())).with(
            "action",
            Json::text(self.action),
        ).with("detail", Json::text(self.detail.as_str()))
    }
}

/// `before`, then `name` in quotes.
pub open spec fn quoted(before: Seq<char>, name: Seq<char>) -> Seq<char> {
    before + "'"@ + name + "'"@
}

fn quote(before: &str, name: &str) -> (r: String)
    ensures
        r@ == quoted(before@, name@),
{
    String::from_str(before).concat("'").concat(name).concat("'")
}

/// The member called `key` of the snapshot's head.
pub open spec fn head_at(snapshot: JsonView, key: Seq<char>) -> Option<JsonView> {
    match snapshot.get("head"@) {
        Some(head) => head.get(key),
        None => None,
    }
}

/// A number that may be absent, 0 where it is.
pub open spec fn or_zero(n: Option<i64>) -> i64 {
    match n {
        Some(n) => n,
        None => 0,
    }
}

/// When the verified head was last updated, by the proxy's clock; 0 where it does not say.
pub open spec fn head_updated(snapshot: JsonView) -> i64 {
    match head_at(snapshot, "updatedAt"@) {
        Some(v) => or_zero(v.as_i64()),
        None => 0,
    }
}

/// Whether the snapshot names no verified block.
pub open spec fn head_empty(snapshot: JsonView) -> bool {
    match head_at(snapshot, "blockNumber"@) {
        Some(v) => match v.as_text() {
            Some(s) => s.len() == 0,
            None => true,
        },
        None => true,
    }
}

/// How far the verified head is behind the proxy's own clock. It is counted entirely on that
/// clock, so that a skew of ours cannot matter.
pub open spec fn head_lag(snapshot: JsonView) -> int {
    or_zero(snapshot.i64_at("startedAt"@)) + or_zero(snapshot.i64_at("uptimeSeconds"@))
        - head_updated(snapshot)
}

/// The verdict on a running proxy.
pub open spec fn running_verdict(chain_id: u64, snapshot: JsonView) -> VerdictView {
    let theirs = or_zero(snapshot.i64_at("chainId"@));
    let uptime = or_zero(snapshot.i64_at("uptimeSeconds"@));
    if theirs != signed(chain_id) {
        wrong_chain_verdict(theirs, chain_id)
    } else if snapshot.text_at("keepAlive"@) == Some("off"@) {
        keep_alive_off_verdict().detailed("keepAlive is 'off'"@)
    } else if head_empty(snapshot) {
        if uptime < HEAD_GRACE_SECS {
            syncing_verdict().detailed("no verified head yet, up "@ + decimal(uptime as int) + "s"@)
        } else {
            not_tracking_verdict().detailed(
                "no verified head after "@ + decimal(uptime as int) + "s"@,
            )
        }
    } else if or_zero(snapshot.i64_at("startedAt"@)) > 0 && head_updated(snapshot) > 0 && head_lag(
        snapshot,
    ) > HEAD_STALE_SECS {
        not_tracking_verdict().detailed(
            "verified head is "@ + decimal(head_lag(snapshot)) + "s stale"@,
        )
    } else {
        ready_verdict()
    }
}

/// The error that the snapshot carries, empty where it carries none.
pub open spec fn last_error(snapshot: JsonView) -> Seq<char> {
    match snapshot.text_at("lastError"@) {
        Some(e) => e,
        None => Seq::empty(),
    }
}

/// The verdict on a status snapshot.
pub open spec fn status_verdict(chain_id: u64, snapshot: JsonView) -> VerdictView {
    match snapshot.text_at("state"@) {
        None => not_tracking_verdict().detailed("status carried no state"@),
        Some(state) => if state == "uninitialized"@ {
            unconfigured_verdict()
        } else if state == "configured"@ || state == "stopped"@ {
            stopped_verdict().detailed(quoted("state is "@, state))
        } else if state == "starting"@ || state == "stopping"@ {
            syncing_verdict().detailed(quoted("state is "@, state))
        } else if state == "error"@ || state == "degraded"@ {
            not_tracking_verdict().detailed(
                if last_error(snapshot).len() == 0 {
                    quoted("state is "@, state)
                } else {
                    last_error(snapshot)
                },
            )
        } else if state == "running"@ {
            running_verdict(chain_id, snapshot)
        } else {
            not_tracking_verdict().detailed(quoted("unrecognised state "@, state))
        },
    }
}

fn zero_unless(n: Option<i64>) -> (r: i64)
    ensures
        r == or_zero(n),
{
    match n {
        Some(n) => n,
        None => 0,
    }
}

fn classify_running(chain_id: u64, snapshot: &Json) -> (r: Verdict)
    ensures
        r@ == running_verdict(chain_id, snapshot@),
{
    // A proxy synced to a different chain answers confidently and wrongly.
    let theirs: i64 = zero_unless(snapshot.i64_at("chainId"));
    if theirs != to_signed(chain_id) {
        return Verdict::wrong_chain(theirs, chain_id);
    }
    let keep_alive_off = match snapshot.text_at("keepAlive") {
        Some(mode) => same_text(mode, "off"),
        None => false,
    };
    if keep_alive_off {
        return Verdict::keep_alive_off().detailed("keepAlive is 'off'");
    }
    let started_at: i64 = zero_unless(snapshot.i64_at("startedAt"));
    let uptime: i64 = zero_unless(snapshot.i64_at("uptimeSeconds"));
    let head = snapshot.get("head");
    let updated: Option<i64> = match head {
        Some(h) => h.i64_at("updatedAt"),
        None => None,
    };
    let head_at: i64 = zero_unless(updated);
    let head_is_empty = match head {
        Some(h) => match h.text_at("blockNumber") {
            Some(s) => s.is_empty(),
            None => true,
        },
        None => true,
    };
    if head_is_empty {
        // Past the grace this is the restart trap: running again, with a head that never refills.
        let up = decimal_i128(uptime as i128);
        return if uptime < HEAD_GRACE_SECS {
            Verdict::syncing().detailed(
                String::from_str("no verified head yet, up ").concat(up.as_str()).concat(
                    "s",
                ).as_str(),
            )
        } else {
            Verdict::not_tracking().detailed(
                String::from_str("no verified head after ").concat(up.as_str()).concat(
                    "s",
                ).as_str(),
            )
        };
    }
    let lag: i128 = started_at as i128 + uptime as i128 - head_at as i128;
    if started_at > 0 && head_at > 0 && lag > HEAD_STALE_SECS as i128 {
        return Verdict::not_tracking().detailed(
            String::from_str("verified head is ").concat(decimal_i128(lag).as_str()).concat(
                "s stale",
            ).as_str(),
        );
    }
    Verdict::ready()
}

/// Classifies a status snapshot of the proxy. The snapshot is the object itself, never an envelope
/// around it. A state that is not recognised is named: it never passes for ready.
pub fn classify_status(chain_id: u64, snapshot: &Json) -> (r: Verdict)
    ensures
        r@ == status_verdict(chain_id, snapshot@),
{
    let state = match snapshot.text_at("state") {
        Some(state) => state,
        None => return Verdict::not_tracking().detailed("status carried no state"),
    };
    if same_text(state, "uninitialized") {
        Verdict::unconfigured()
    } else if same_text(state, "configured") || same_text(state, "stopped") {
        Verdict::stopped().detailed(quote("state is ", state).as_str())
    } else if same_text(state, "starting") || same_text(state, "stopping") {
        Verdict::syncing().detailed(quote("state is ", state).as_str())
    } else if same_text(state, "error") || same_text(state, "degraded") {
        match snapshot.text_at("lastError") {
            Some(e) if !e.is_empty() => Verdict::not_tracking().detailed(e),
            _ => Verdict::not_tracking().detailed(quote("state is ", state).as_str()),
        }
    } else if same_text(state, "running") {
        classify_running(chain_id, snapshot)
    } else {
        Verdict::not_tracking().detailed(quote("unrecognised state ", state).as_str())
    }
}

/// What the host's registry says of [`PROXY_MODULE`] right now.
#[derive(Debug, PartialEq, Eq)]
pub enum Readiness {
    /// Positively absent or unloaded: the only answer allowed to skip the probe.
    NotLoaded(String),
    /// Present in some live state. Loaded is not configured, started, synced or on our chain.
    Loaded,
    /// No information. Never a reason to conclude anything.
    Unknown,
}

/// What a [`Readiness`] says.
#[verifier::ext_equal]
pub enum ReadinessView {
    NotLoaded(Seq<char>),
    Loaded,
    Unknown,
}

impl View for Readiness {
    type V = ReadinessView;

    open spec fn view(&self) -> ReadinessView {
        match *self {
            Readiness::NotLoaded(why) => ReadinessView::NotLoaded(why@),
            Readiness::Loaded => ReadinessView::Loaded,
            Readiness::Unknown => ReadinessView::Unknown,
        }
    }
}

impl Clone for Readiness {
    fn clone(&self) -> (r: Self)
        ensures
            r == *self,
    {
        match self {
            Readiness::NotLoaded(why) => Readiness::NotLoaded(why.clone()),
            Readiness::Loaded => Readiness::Loaded,
            Readiness::Unknown => Readiness::Unknown,
        }
    }
}

/// Why a complete listing without the proxy counts as a refusal.
pub const NOT_LISTED: &'static str = "modules_state lists every module the host knows, and this is not one of them";

/// The first record of [`PROXY_MODULE`] in a listing.
pub open spec fn proxy_record(modules: Seq<JsonView>) -> Option<JsonView>
    decreases modules.len(),
{
    if modules.len() == 0 {
        None
    } else if modules[0].text_at("module"@) == Some(PROXY_MODULE@) {
        Some(modules[0])
    } else {
        proxy_record(modules.drop_first())
    }
}

/// What a listing of the host's modules says of the proxy. Only a complete listing that is not
/// empty can say that it is not loaded.
pub open spec fn readiness_of(listing: Option<JsonView>) -> ReadinessView {
    match listing {
        None => ReadinessView::Unknown,
        Some(l) => match l.get("modules"@) {
            None => ReadinessView::Unknown,
            Some(m) => match m.as_array() {
                None => ReadinessView::Unknown,
                Some(modules) => if modules.len() == 0 || l.bool_at("partial"@) != Some(false) {
                    ReadinessView::Unknown
                } else {
                    match proxy_record(modules) {
                        None => ReadinessView::NotLoaded(NOT_LISTED@),
                        Some(record) => match record.text_at("state"@) {
                            None => ReadinessView::Unknown,
                            Some(state) => if state == "unloaded"@ {
                                ReadinessView::NotLoaded("modules_state says 'unloaded'"@)
                            } else {
                                ReadinessView::Loaded
                            },
                        },
                    }
                },
            },
        },
    }
}

fn find_proxy_record(modules: &Vec<Json>) -> (r: Option<&Json>)
    ensures
        opt_view(r) == proxy_record(views(modules@)),
{
    let ghost all = views(modules@);
    let mut i: usize = 0;
    assert(all.skip(0) =~= all);
    while i < modules.len()
        invariant
            i <= modules.len(),
            all == views(modules@),
            proxy_record(all) == proxy_record(all.skip(i as int)),
        decreases modules.len() - i,
    {
        assert(all.skip(i as int)[0] == all[i as int]);
        assert(all.skip(i as int).drop_first() =~= all.skip(i + 1));
        let found = match modules[i].text_at("module") {
            Some(name) => same_text(name, PROXY_MODULE),
            None => false,
        };
        if found {
            return Some(&modules[i]);
        }
        i = i + 1;
    }
    None
}

/// Reads a listing of the host's modules. An empty or partial listing is no information, not
/// negative information: a host that feeds its registry nothing answers just that, and concluding
/// from it would blank a working wallet.
pub fn classify_readiness(listing: Option<&Json>) -> (r: Readiness)
    ensures
        r@ == readiness_of(opt_view(listing)),
{
    let listing = match listing {
        Some(l) => l,
        None => return Readiness::Unknown,
    };
    let modules = match listing.get("modules") {
        Some(m) => match m.as_array() {
            Some(modules) => modules,
            None => return Readiness::Unknown,
        },
        None => return Readiness::Unknown,
    };
    // A listing with no `partial` flag is a shape that is not recognised, so it reads as partial.
    let complete = match listing.bool_at("partial") {
        Some(partial) => !partial,
        None => false,
    };
    if modules.len() == 0 || !complete {
        return Readiness::Unknown;
    }
    match find_proxy_record(modules) {
        None => Readiness::NotLoaded(NOT_LISTED.to_string()),
        Some(record) => match record.text_at("state") {
            Some(state) => if same_text(state, "unloaded") {
                Readiness::NotLoaded("modules_state says 'unloaded'".to_string())
            } else {
                // A crashed module may already have been restarted, and only the probe knows.
                Readiness::Loaded
            },
            None => Readiness::Unknown,
        },
    }
}

/// The verdict on a proxy whose status probe failed with `error`, given the host's record of it.
pub open spec fn failed_probe_verdict(
    record: Option<JsonView>,
    error: Seq<char>,
) -> VerdictView {
    let state = match record {
        Some(r) => r.text_at("state"@),
        None => None,
    };
    let reason = match record {
        Some(r) => match r.text_at("reason"@) {
            Some(reason) => reason,
            None => Seq::empty(),
        },
        None => Seq::empty(),
    };
    match state {
        None => missing_verdict().detailed(
            "status() did not answer ("@ + error + "); modules_state could not confirm it"@,
        ),
        Some(state) => if state == "unloaded"@ {
            missing_verdict().detailed("modules_state says 'unloaded'"@)
        } else if state == "error"@ {
            crashed_verdict().detailed(
                if reason.len() == 0 {
                    "modules_state says 'error'"@
                } else {
                    reason
                },
            )
        } else if state == "loading"@ || state == "loaded"@ {
            syncing_verdict().detailed(quoted("modules_state says "@, state))
        } else if state == "ready"@ {
            not_tracking_verdict().detailed(
                "modules_state says 'ready' but status() did not answer ("@ + error + ")"@,
            )
        } else {
            missing_verdict().detailed(quoted("modules_state reported unrecognised state "@, state))
        },
    }
}

/// Refines a failed status probe with what the host thinks. It is asked only once the probe has
/// failed, so it can sharpen the reason but never veto a proxy that can be reached.
pub fn classify_modules_state(record: Option<&Json>, probe_error: &str) -> (r: Verdict)
    ensures
        r@ == failed_probe_verdict(opt_view(record), probe_error@),
{
    let known = match record {
        Some(r) => r.text_at("state"),
        None => None,
    };
    let state = match known {
        Some(state) => state,
        None => return Verdict::missing().detailed(
            String::from_str("status() did not answer (").concat(probe_error).concat(
                "); modules_state could not confirm it",
            ).as_str(),
        ),
    };
    let reason = match record {
        Some(r) => r.text_at("reason"),
        None => None,
    };
    if same_text(state, "unloaded") {
        Verdict::missing().detailed("modules_state says 'unloaded'")
    } else if same_text(state, "error") {
        match reason {
            Some(reason) if !reason.is_empty() => Verdict::crashed().detailed(reason),
            _ => Verdict::crashed().detailed("modules_state says 'error'"),
        }
    } else if same_text(state, "loading") || same_text(state, "loaded") {
        Verdict::syncing().detailed(quote("modules_state says ", state).as_str())
    } else if same_text(state, "ready") {
        Verdict::not_tracking().detailed(
            String::from_str("modules_state says 'ready' but status() did not answer (").concat(
                probe_error,
            ).concat(")").as_str(),
        )
    } else {
        Verdict::missing().detailed(
            quote("modules_state reported unrecognised state ", state).as_str(),
        )
    }
}

/// A verdict and a readiness say what stands in them.
pub proof fn law_a_verdict_says_what_stands_in_it(v: Verdict, why: String)
    ensures
        v@.state == v.state@,
        v@.usable == v.usable,
        v@.message == v.message@,
        v@.action == v.action@,
        v@.detail == v.detail@,
        Readiness::NotLoaded(why)@ == ReadinessView::NotLoaded(why@),
        Readiness::Loaded@ == ReadinessView::Loaded,
        Readiness::Unknown@ == ReadinessView::Unknown,
{
}

} // verus!
