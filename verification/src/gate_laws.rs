//! What holds of every verdict, of the order in which it is asked for, and of what is remembered.
use vstd::prelude::*;

use crate::config::VerifiedProxyMode;
use crate::gate::{
    GateCache, GateCacheView, GateStep, GateStepView, Progress, READY_TTL_SECS, cache_run,
    evaluate, evaluate_with, fresh, gate_run, hop_budget, step_after_ready,
};
use crate::json::{Json, JsonView, member, opt_view};
use crate::module::{gate_answer, gate_json, gate_required};
use crate::num::signed;
use crate::probes::{GateProbe, ProbeCall, Probes, answered, owned_view};
use crate::router::{VerifiedProxyRouter, pass_gate, passage, unwrap_reply, unwrapped};
use crate::text::decimal;
use crate::time::{Duration, Instant, seconds};
use crate::verdict::{
    Readiness, ReadinessView, Verdict, VerdictView, classify_modules_state, classify_readiness,
    classify_status, crashed_verdict, disabled_verdict, failed_probe_verdict, head_empty,
    head_updated, keep_alive_off_verdict, missing_verdict, not_tracking_verdict, or_zero,
    proxy_record, readiness_of, ready_verdict, running_verdict, status_verdict, stopped_verdict,
    syncing_verdict, unconfigured_verdict, wrong_chain_verdict,
};

verus! {

/// Whether a verdict keeps to the words that consumers know.
pub open spec fn known(v: VerdictView) -> bool {
    v.known_state() && v.known_action()
}

/// Every verdict has one of the states and one of the actions that consumers know.
pub proof fn law_verdicts_keep_to_known_words(
    chain_id: u64,
    snapshot: JsonView,
    record: Option<JsonView>,
    error: Seq<char>,
    why: Seq<char>,
)
    ensures
        known(status_verdict(chain_id, snapshot)),
        known(failed_probe_verdict(record, error)),
        known(missing_verdict().detailed(why)),
        known(disabled_verdict()),
{
}

/// The only verdict on which a verified call may go out is `ready`, and only a proxy that answered
/// for this very chain gets it.
pub proof fn law_only_ready_is_usable(
    chain_id: u64,
    snapshot: JsonView,
    record: Option<JsonView>,
    error: Seq<char>,
    why: Seq<char>,
)
    ensures
        status_verdict(chain_id, snapshot).usable ==> {
            &&& status_verdict(chain_id, snapshot) == ready_verdict()
            &&& snapshot.text_at("state"@) == Some("running"@)
            &&& or_zero(snapshot.i64_at("chainId"@)) == signed(chain_id)
            &&& !head_empty(snapshot)
        },
        !failed_probe_verdict(record, error).usable,
        !missing_verdict().detailed(why).usable,
        !disabled_verdict().usable,
{
}

/// How stale the head is depends on the proxy's clock alone: shifting that clock as a whole changes
/// no verdict.
pub proof fn law_a_shifted_clock_changes_nothing(
    chain_id: u64,
    a: JsonView,
    b: JsonView,
    shift: int,
)
    requires
        a.i64_at("chainId"@) == b.i64_at("chainId"@),
        a.text_at("keepAlive"@) == b.text_at("keepAlive"@),
        a.i64_at("uptimeSeconds"@) == b.i64_at("uptimeSeconds"@),
        head_empty(a) == head_empty(b),
        or_zero(a.i64_at("startedAt"@)) > 0,
        head_updated(a) > 0,
        or_zero(b.i64_at("startedAt"@)) > 0,
        head_updated(b) > 0,
        or_zero(b.i64_at("startedAt"@)) == or_zero(a.i64_at("startedAt"@)) + shift,
        head_updated(b) == head_updated(a) + shift,
    ensures
        running_verdict(chain_id, a) == running_verdict(chain_id, b),
{
}

/// Only a listing that is complete and not empty can say that the proxy is not loaded; anything less
/// is no information.
pub proof fn law_silence_is_no_evidence(listing: Option<JsonView>)
    ensures
        listing is None ==> readiness_of(listing) is Unknown,
        listing matches Some(l) ==> {
            ||| l.get("partial"@) != Some(JsonView::Bool(false))
            ||| l.get("modules"@) is None
            ||| l.get("modules"@)->0 !is Array
            ||| l.get("modules"@)->0->Array_0.len() == 0
        } ==> readiness_of(listing) is Unknown,
        readiness_of(listing) is NotLoaded ==> {
            &&& listing is Some
            &&& listing->0.bool_at("partial"@) == Some(false)
            &&& listing->0.get("modules"@) is Some
            &&& listing->0.get("modules"@)->0 is Array
            &&& listing->0.get("modules"@)->0->Array_0.len() > 0
        },
{
}

/// Whatever the registry says short of a positive "not loaded", the proxy itself is asked: the
/// registry can sharpen a reason, but never veto a proxy that answers.
pub proof fn law_the_registry_never_vetoes<P: GateProbe>(
    probe: P,
    chain_id: u64,
    readiness: ReadinessView,
    before: Seq<ProbeCall>,
    after: Seq<ProbeCall>,
    verdict: VerdictView,
)
    requires
        readiness !is NotLoaded,
        gate_run(probe, chain_id, readiness, before, after, verdict),
    ensures
        step_after_ready(readiness) == GateStepView::AskStatus,
        after.len() > before.len(),
        after[before.len() as int] is Status,
        after[before.len() as int]->Status_0 matches Ok(snapshot) ==> verdict == status_verdict(
            chain_id,
            snapshot,
        ) && after.len() == before.len() + 1,
{
}

/// A proxy that is positively not loaded is not probed: the verdict is in once the registry said so.
pub proof fn law_not_loaded_costs_no_probe<P: GateProbe>(
    probe: P,
    chain_id: u64,
    why: Seq<char>,
    before: Seq<ProbeCall>,
    after: Seq<ProbeCall>,
    verdict: VerdictView,
)
    requires
        gate_run(probe, chain_id, ReadinessView::NotLoaded(why), before, after, verdict),
    ensures
        after == before,
        verdict == missing_verdict().detailed(why),
{
}

/// A verdict that is held and young enough is given again without asking anybody.
pub proof fn law_a_held_verdict_costs_nothing<P: GateProbe>(
    probe: P,
    old_cache: GateCacheView,
    new_cache: GateCacheView,
    now: nat,
    chain_id: u64,
    before: Seq<ProbeCall>,
    after: Seq<ProbeCall>,
    verdict: VerdictView,
)
    requires
        old_cache.cached(now, chain_id) is Some,
        cache_run(probe, old_cache, new_cache, now, chain_id, before, after, verdict),
    ensures
        after == before,
        Some(verdict) == old_cache.cached(now, chain_id),
        new_cache == old_cache,
{
}

/// A verdict that a probe gave is held, so a burst of reads costs one probe; one that the registry
/// alone gave is not, so it cannot outlive the listing that it rests on.
pub proof fn law_only_a_probed_verdict_is_held<P: GateProbe>(
    probe: P,
    old_cache: GateCacheView,
    new_cache: GateCacheView,
    now: nat,
    chain_id: u64,
    before: Seq<ProbeCall>,
    after: Seq<ProbeCall>,
    verdict: VerdictView,
)
    requires
        old_cache.cached(now, chain_id) is None,
        cache_run(probe, old_cache, new_cache, now, chain_id, before, after, verdict),
    ensures
        (exists|i: int| before.len() <= i < after.len() && #[trigger] after[i] is Status)
            ==> new_cache.cached(now, chain_id) == Some(verdict),
        (forall|i: int| before.len() <= i < after.len() ==> #[trigger] after[i] !is Status)
            ==> new_cache.health == old_cache.health,
{
    let n = before.len() as int;
    match old_cache.ready_at(now) {
        Some(readiness) => {
            if readiness !is NotLoaded {
                assert(after[n] is Status);
            }
        },
        None => {
            let readiness = after[n]->Readiness_0;
            if readiness !is NotLoaded {
                assert(after[n + 1] is Status);
            }
        },
    }
}

/// One look into the registry serves every chain for as long as it is young enough.
pub proof fn law_one_lookup_serves_every_chain<P: GateProbe>(
    probe: P,
    c0: GateCacheView,
    c1: GateCacheView,
    c2: GateCacheView,
    first: nat,
    then_at: nat,
    chain_a: u64,
    chain_b: u64,
    t0: Seq<ProbeCall>,
    t1: Seq<ProbeCall>,
    t2: Seq<ProbeCall>,
    va: VerdictView,
    vb: VerdictView,
)
    requires
        c0.cached(first, chain_a) is None,
        c0.ready_at(first) is None,
        cache_run(probe, c0, c1, first, chain_a, t0, t1, va),
        fresh(then_at, first, READY_TTL_SECS),
        cache_run(probe, c1, c2, then_at, chain_b, t1, t2, vb),
    ensures
        forall|i: int| t1.len() <= i < t2.len() ==> #[trigger] t2[i] !is Readiness,
{
    assert(c1.ready_at(then_at) is Some);
}

/// Once a chain was written to, its next verdict is asked for anew, whatever was held.
pub proof fn law_a_write_forgets_everything_held(cache: GateCacheView, chain_id: u64, now: nat)
    ensures
        cache.without(chain_id).begin(now, chain_id) == GateStepView::AskReadiness,
{
}

/// A listing that said "not loaded" is asked for again once it is too old: nobody is told for longer
/// that a proxy which was loaded since is absent.
pub proof fn law_an_old_listing_is_not_used(cache: GateCacheView, chain_id: u64, at: nat, now: nat)
    requires
        cache.cached(now, chain_id) is None,
        cache.ready matches Some((asked_at, _)) && asked_at == at,
        now >= at + seconds(READY_TTL_SECS as int),
    ensures
        cache.begin(now, chain_id) == GateStepView::AskReadiness,
{
}

proof fn lemma_walk_gets_shorter(
    start: Progress,
    now: nat,
    chain_id: u64,
    calls: Seq<ProbeCall>,
)
    ensures
        start.walk(now, chain_id, calls) matches Some(p) ==> p.step.left() + calls.len()
            <= start.step.left(),
    decreases calls.len(),
{
    if calls.len() > 0 {
        lemma_walk_gets_shorter(start, now, chain_id, calls.drop_last());
    }
}

/// Taking the steps one by one leads where the whole leads: answers that carry the first step to a
/// verdict are exactly those that a run to that verdict asks for, and both leave the same behind.
pub proof fn law_the_steps_lead_where_the_whole_leads<P: GateProbe>(
    probe: P,
    old_cache: GateCacheView,
    new_cache: GateCacheView,
    now: nat,
    chain_id: u64,
    before: Seq<ProbeCall>,
    calls: Seq<ProbeCall>,
    verdict: VerdictView,
)
    ensures
        cache_run(probe, old_cache, new_cache, now, chain_id, before, before + calls, verdict) <==> {
            &&& Progress::start(old_cache, now, chain_id).walk(now, chain_id, calls) == Some(
                Progress { cache: new_cache, step: GateStepView::Done(verdict) },
            )
            &&& forall|i: int| 0 <= i < calls.len() ==> answered(probe, #[trigger] calls[i])
        },
{
    let start = Progress::start(old_cache, now, chain_id);
    let n = before.len() as int;
    let after = before + calls;
    lemma_walk_gets_shorter(start, now, chain_id, calls);
    reveal_with_fuel(Progress::walk, 4);
    assert(calls.len() == 0 ==> after =~= before);
    if calls.len() > 0 {
        assert(after[n] == calls[0]);
        assert(calls.len() == 1 ==> after =~= before.push(calls[0]));
    }
    if calls.len() > 1 {
        assert(after[n + 1] == calls[1]);
        assert(calls.len() == 2 ==> after =~= before.push(calls[0]).push(calls[1]));
    }
    if calls.len() > 2 {
        assert(after[n + 2] == calls[2]);
        assert(calls.len() == 3 ==> after =~= before.push(calls[0]).push(calls[1]).push(calls[2]));
    }
}

/// What is reported of a chain always has every member, whatever the verdict, and says that the chain
/// is blocked exactly where it has to be verified and cannot be.
pub proof fn law_a_report_carries_every_member(v: VerdictView, chain_id: i64, mode_required: bool)
    ensures
        ({
            let report = v.to_json(chain_id, mode_required);
            &&& report.bool_at("ok"@) == Some(true)
            &&& report.get("chainId"@) == Some(JsonView::Int(chain_id as int))
            &&& report.text_at("mode"@) == Some(
                if mode_required {
                    "required"@
                } else {
                    "off"@
                },
            )
            &&& report.text_at("state"@) == Some(v.state)
            &&& report.bool_at("usable"@) == Some(v.usable)
            &&& report.bool_at("blocking"@) == Some(mode_required && !v.usable)
            &&& report.text_at("message"@) == Some(v.message)
            &&& report.text_at("action"@) == Some(v.action)
            &&& report.text_at("detail"@) == Some(v.detail)
        }),
{
    reveal_strlit("ok");
    reveal_strlit("chainId");
    reveal_strlit("mode");
    reveal_strlit("state");
    reveal_strlit("usable");
    reveal_strlit("blocking");
    reveal_strlit("message");
    reveal_strlit("action");
    reveal_strlit("detail");
    reveal_with_fuel(member, 10);
    let m9 = v.to_json(chain_id, mode_required)->Object_0;
    let m8 = m9.drop_last();
    let m7 = m8.drop_last();
    let m6 = m7.drop_last();
    let m5 = m6.drop_last();
    let m4 = m5.drop_last();
    let m3 = m4.drop_last();
    let m2 = m3.drop_last();
    let m1 = m2.drop_last();
    assert(m9.len() == 9);
    assert(m9.last().0 == "detail"@);
    assert(m8.last().0 == "action"@);
    assert(m7.last().0 == "message"@);
    assert(m6.last().0 == "blocking"@);
    assert(m5.last().0 == "usable"@);
    assert(m4.last().0 == "state"@);
    assert(m3.last().0 == "mode"@);
    assert(m2.last().0 == "chainId"@);
    assert(m1.last().0 == "ok"@);
    assert("action"@[0] == 'a' && "detail"@[0] == 'd' && "usable"@[0] == 'u');
    assert("message"@[0] == 'm' && "chainId"@[0] == 'c');
}

/// Whether a record of the host's listing is the proxy's.
pub open spec fn names_the_proxy(record: JsonView) -> bool {
    record.get("module"@) == Some(JsonView::Text("verified_proxy_module"@))
}

/// Whether the proxy's first record in a listing is the one at `i`.
pub open spec fn first_of_the_proxy(modules: Seq<JsonView>, i: int) -> bool {
    &&& 0 <= i < modules.len()
    &&& names_the_proxy(modules[i])
    &&& forall|j: int| 0 <= j < i ==> !names_the_proxy(#[trigger] modules[j])
}

/// Wherever in a listing the proxy stands, it is found, the first time it stands there; it is not
/// found exactly where no record is its.
pub proof fn law_the_proxy_is_found_wherever_it_stands(modules: Seq<JsonView>, i: int)
    ensures
        first_of_the_proxy(modules, i) ==> proxy_record(modules) == Some(modules[i]),
        proxy_record(modules) is None <==> forall|j: int|
            0 <= j < modules.len() ==> !names_the_proxy(#[trigger] modules[j]),
    decreases modules.len(),
{
    if modules.len() > 0 {
        let rest = modules.drop_first();
        assert(forall|j: int| 0 <= j < rest.len() ==> #[trigger] rest[j] == modules[j + 1]);
        assert(names_the_proxy(modules[0]) <==> modules[0].text_at("module"@) == Some(
            "verified_proxy_module"@,
        ));
        if !names_the_proxy(modules[0]) {
            law_the_proxy_is_found_wherever_it_stands(rest, i - 1);
            if first_of_the_proxy(modules, i) {
                assert(rest[i - 1] == modules[i]);
                assert(first_of_the_proxy(rest, i - 1));
            }
            if proxy_record(modules) is None {
                assert forall|j: int| 0 <= j < modules.len() implies !names_the_proxy(
                    #[trigger] modules[j],
                ) by {
                    if j > 0 {
                        assert(rest[j - 1] == modules[j]);
                    }
                }
            }
            if forall|j: int| 0 <= j < modules.len() ==> !names_the_proxy(#[trigger] modules[j]) {
                assert forall|j: int| 0 <= j < rest.len() implies !names_the_proxy(
                    #[trigger] rest[j],
                ) by {
                    assert(rest[j] == modules[j + 1]);
                }
            }
        }
    }
}

/// What a complete listing says of the proxy: not loaded where no record is its or its first one says
/// `unloaded`, loaded where that one says anything else, and nothing where it does not say.
pub proof fn law_a_complete_listing_tells_of_the_proxy(
    listing: JsonView,
    modules: Seq<JsonView>,
    i: int,
)
    requires
        listing.get("modules"@) == Some(JsonView::Array(modules)),
        modules.len() > 0,
        listing.get("partial"@) == Some(JsonView::Bool(false)),
    ensures
        (forall|j: int| 0 <= j < modules.len() ==> !names_the_proxy(#[trigger] modules[j]))
            ==> readiness_of(Some(listing)) == ReadinessView::NotLoaded(
            "modules_state lists every module the host knows, and this is not one of them"@,
        ),
        first_of_the_proxy(modules, i) ==> readiness_of(Some(listing)) == match modules[i].get(
            "state"@,
        ) {
            Some(JsonView::Text(state)) => if state == "unloaded"@ {
                ReadinessView::NotLoaded("modules_state says 'unloaded'"@)
            } else {
                ReadinessView::Loaded
            },
            _ => ReadinessView::Unknown,
        },
{
    law_the_proxy_is_found_wherever_it_stands(modules, i);
}

/// Whether a verdict says exactly this.
pub open spec fn says(
    v: VerdictView,
    state: Seq<char>,
    usable: bool,
    action: Seq<char>,
    message: Seq<char>,
    detail: Seq<char>,
) -> bool {
    &&& v.state == state
    &&& v.usable == usable
    &&& v.action == action
    &&& v.message == message
    &&& v.detail == detail
}

/// What each verdict says, and that only `ready` is usable. A detail that is added changes nothing
/// else.
pub proof fn law_each_verdict_says_what_to_do(theirs: i64, ours: u64, v: VerdictView, why: Seq<char>)
    ensures
        ({
            let none = Seq::<char>::empty();
            &&& says(
                disabled_verdict(),
                "disabled"@,
                false,
                "none"@,
                "Verification is off. Balances come from the configured endpoint."@,
                none,
            )
            &&& says(ready_verdict(), "ready"@, true, "none"@, "Verified."@, none)
            &&& says(
                syncing_verdict(),
                "syncing"@,
                false,
                "wait"@,
                "The verified proxy is starting up."@,
                none,
            )
            &&& says(
                missing_verdict(),
                "missing"@,
                false,
                "install_or_load"@,
                "The Verified Proxy module is not running."@,
                none,
            )
            &&& says(
                unconfigured_verdict(),
                "unconfigured"@,
                false,
                "open_verified_proxy"@,
                "The verified proxy has not been set up yet."@,
                none,
            )
            &&& says(
                stopped_verdict(),
                "stopped"@,
                false,
                "open_verified_proxy"@,
                "The verified proxy is not started."@,
                none,
            )
            &&& says(
                wrong_chain_verdict(theirs, ours),
                "wrong_chain"@,
                false,
                "open_verified_proxy"@,
                "The verified proxy is on chain "@ + decimal(theirs as int) + ", not "@ + decimal(
                    ours as int,
                ) + ". It serves one chain at a time."@,
                none,
            )
            &&& says(
                keep_alive_off_verdict(),
                "unhealthy"@,
                false,
                "open_verified_proxy"@,
                "The verified proxy has keep-alive turned off, so its verified head drifts."@,
                none,
            )
            &&& says(
                crashed_verdict(),
                "unhealthy"@,
                false,
                "restart_or_reload"@,
                "The Verified Proxy module stopped unexpectedly."@,
                none,
            )
            &&& says(
                not_tracking_verdict(),
                "unhealthy"@,
                false,
                "restart_or_reload"@,
                "The verified proxy is running but not tracking the chain."@,
                none,
            )
        }),
        says(v.detailed(why), v.state, v.usable, v.action, v.message, why),
{
}

/// Whether no text stands under a key.
pub open spec fn no_text_at(v: JsonView, key: Seq<char>) -> bool {
    match v.get(key) {
        Some(JsonView::Text(_)) => false,
        _ => true,
    }
}

/// What the proxy's own state leads to, for every state that it can name and for any other. Only a
/// running proxy is looked at further.
pub proof fn law_the_state_decides_the_verdict(chain_id: u64, snapshot: JsonView, state: Seq<char>)
    ensures
        no_text_at(snapshot, "state"@) ==> status_verdict(chain_id, snapshot) == not_tracking_verdict().detailed(
            "status carried no state"@,
        ),
        snapshot.get("state"@) == Some(JsonView::Text(state)) ==> {
            let v = status_verdict(chain_id, snapshot);
            let named = "state is "@ + "'"@ + state + "'"@;
            &&& state == "uninitialized"@ ==> v == unconfigured_verdict()
            &&& state == "configured"@ ==> v == stopped_verdict().detailed(named)
            &&& state == "stopped"@ ==> v == stopped_verdict().detailed(named)
            &&& state == "starting"@ ==> v == syncing_verdict().detailed(named)
            &&& state == "stopping"@ ==> v == syncing_verdict().detailed(named)
            &&& state == "error"@ || state == "degraded"@ ==> v == not_tracking_verdict().detailed(
                match snapshot.get("lastError"@) {
                    Some(JsonView::Text(e)) => if e.len() > 0 {
                        e
                    } else {
                        named
                    },
                    _ => named,
                },
            )
            &&& state == "running"@ ==> v == running_verdict(chain_id, snapshot)
            &&& state != "uninitialized"@ && state != "configured"@ && state != "stopped"@ && state
                != "starting"@ && state != "stopping"@ && state != "error"@ && state != "degraded"@
                && state != "running"@ ==> v == not_tracking_verdict().detailed(
                "unrecognised state "@ + "'"@ + state + "'"@,
            )
        },
{
    reveal_strlit("uninitialized");
    reveal_strlit("configured");
    reveal_strlit("stopped");
    reveal_strlit("starting");
    reveal_strlit("stopping");
    reveal_strlit("error");
    reveal_strlit("degraded");
    reveal_strlit("running");
    assert("starting"@[3] == 'r' && "stopping"@[3] == 'p' && "degraded"@[3] == 'r');
    assert("starting"@[0] == 's' && "degraded"@[0] == 'd');
    assert("stopped"@[0] == 's' && "running"@[0] == 'r');
    if snapshot.get("state"@) == Some(JsonView::Text(state)) {
        let v = status_verdict(chain_id, snapshot);
        let named = "state is "@ + "'"@ + state + "'"@;
        if state == "error"@ || state == "degraded"@ {
            let told = match snapshot.get("lastError"@) {
                Some(JsonView::Text(e)) => if e.len() > 0 {
                    e
                } else {
                    named
                },
                _ => named,
            };
            assert(v == not_tracking_verdict().detailed(told));
        } else if state == "running"@ {
            assert(v == running_verdict(chain_id, snapshot));
        }
    }
}

/// The whole number under a key, 0 where there is none that fits.
pub open spec fn number_at(v: JsonView, key: Seq<char>) -> int {
    match v.get(key) {
        Some(JsonView::Int(n)) => if -0x8000_0000_0000_0000 <= n <= 0x7fff_ffff_ffff_ffff {
            n
        } else {
            0
        },
        _ => 0,
    }
}

/// What a running proxy has to show, in this order: that it is on the chain asked for, that its
/// keep-alive is not off, that it has a verified head, within half a minute, and that the head is no
/// more than a minute behind its own clock. One that shows all of it is ready.
pub proof fn law_a_running_proxy_is_ready_once_it_shows_a_fresh_head(
    chain_id: u64,
    snapshot: JsonView,
)
    ensures
        ({
            let v = running_verdict(chain_id, snapshot);
            let theirs = number_at(snapshot, "chainId"@);
            let uptime = number_at(snapshot, "uptimeSeconds"@);
            let started = number_at(snapshot, "startedAt"@);
            let head = match snapshot.get("head"@) {
                Some(head) => head,
                None => JsonView::Null,
            };
            let updated = number_at(head, "updatedAt"@);
            let on_chain = theirs == if chain_id <= 0x7fff_ffff_ffff_ffff {
                chain_id as int
            } else {
                chain_id - 0x1_0000_0000_0000_0000
            };
            let kept_alive = snapshot.get("keepAlive"@) != Some(JsonView::Text("off"@));
            let has_head = head.get("blockNumber"@) matches Some(JsonView::Text(number))
                && number.len() > 0;
            let lag = started + uptime - updated;
            let stale = started > 0 && updated > 0 && lag > 60;
            &&& !on_chain ==> v == wrong_chain_verdict(theirs as i64, chain_id)
            &&& on_chain && !kept_alive ==> v == keep_alive_off_verdict().detailed(
                "keepAlive is 'off'"@,
            )
            &&& on_chain && kept_alive && !has_head && uptime < 30 ==> v
                == syncing_verdict().detailed(
                "no verified head yet, up "@ + decimal(uptime) + "s"@,
            )
            &&& on_chain && kept_alive && !has_head && uptime >= 30 ==> v
                == not_tracking_verdict().detailed(
                "no verified head after "@ + decimal(uptime) + "s"@,
            )
            &&& on_chain && kept_alive && has_head && stale ==> v
                == not_tracking_verdict().detailed(
                "verified head is "@ + decimal(lag) + "s stale"@,
            )
            &&& on_chain && kept_alive && has_head && !stale ==> v == ready_verdict()
            &&& v.usable <==> on_chain && kept_alive && has_head && !stale
        }),
{
    assert(or_zero(snapshot.i64_at("chainId"@)) == number_at(snapshot, "chainId"@));
    assert(or_zero(snapshot.i64_at("uptimeSeconds"@)) == number_at(snapshot, "uptimeSeconds"@));
    assert(or_zero(snapshot.i64_at("startedAt"@)) == number_at(snapshot, "startedAt"@));
}

/// What the host's record of a proxy that did not answer leads to, for every state it can name and
/// for any other. None of it makes the proxy usable.
pub proof fn law_a_record_explains_a_failed_probe(
    record: Option<JsonView>,
    state: Seq<char>,
    error: Seq<char>,
)
    ensures
        ({
            let v = failed_probe_verdict(record, error);
            let known = record is Some && record->0.get("state"@) == Some(JsonView::Text(state));
            let silent = record is None || no_text_at(record->0, "state"@);
            &&& silent ==> v == missing_verdict().detailed(
                "status() did not answer ("@ + error + "); modules_state could not confirm it"@,
            )
            &&& known && state == "unloaded"@ ==> v == missing_verdict().detailed(
                "modules_state says 'unloaded'"@,
            )
            &&& known && state == "error"@ ==> v == crashed_verdict().detailed(
                match record->0.get("reason"@) {
                    Some(JsonView::Text(reason)) => if reason.len() > 0 {
                        reason
                    } else {
                        "modules_state says 'error'"@
                    },
                    _ => "modules_state says 'error'"@,
                },
            )
            &&& known && (state == "loading"@ || state == "loaded"@) ==> v
                == syncing_verdict().detailed("modules_state says "@ + "'"@ + state + "'"@)
            &&& known && state == "ready"@ ==> v == not_tracking_verdict().detailed(
                "modules_state says 'ready' but status() did not answer ("@ + error + ")"@,
            )
            &&& known && state != "unloaded"@ && state != "error"@ && state != "loading"@ && state
                != "loaded"@ && state != "ready"@ ==> v == missing_verdict().detailed(
                "modules_state reported unrecognised state "@ + "'"@ + state + "'"@,
            )
        }),
{
    reveal_strlit("unloaded");
    reveal_strlit("error");
    reveal_strlit("loading");
    reveal_strlit("loaded");
    reveal_strlit("ready");
    assert("error"@[0] == 'e' && "ready"@[0] == 'r');
}

/// What a run asks once it is not told "not loaded": the proxy's status, and the host's record of the
/// proxy after a status that failed. Every answer is one that the probe gave, and it is all that the
/// verdict rests on.
pub proof fn law_a_verdict_rests_on_what_was_asked<P: GateProbe>(
    probe: P,
    chain_id: u64,
    readiness: ReadinessView,
    before: Seq<ProbeCall>,
    after: Seq<ProbeCall>,
    verdict: VerdictView,
)
    requires
        readiness !is NotLoaded,
        gate_run(probe, chain_id, readiness, before, after, verdict),
    ensures
        ({
            let n = before.len() as int;
            &&& after.len() > n
            &&& after.take(n) == before
            &&& forall|i: int| n <= i < after.len() ==> answered(probe, #[trigger] after[i])
            &&& after[n] is Status
            &&& match after[n]->Status_0 {
                Ok(snapshot) => {
                    &&& after.len() == n + 1
                    &&& verdict == status_verdict(chain_id, snapshot)
                },
                Err(error) => {
                    &&& after.len() == n + 2
                    &&& after[n + 1] is Record
                    &&& verdict == failed_probe_verdict(after[n + 1]->Record_0, error)
                },
            }
        }),
{
    assert(after.take(before.len() as int) =~= before);
}

/// A verdict serves its own chain for five seconds and no longer, and what is known of other chains
/// and of the host stays as it is.
pub proof fn law_a_verdict_is_held_for_five_seconds(
    cache: GateCacheView,
    at: nat,
    now: nat,
    chain_id: u64,
    other: u64,
    v: VerdictView,
)
    ensures
        ({
            let held = cache.with_verdict(at, chain_id, v);
            &&& held.cached(now, chain_id) == if now < at + 5_000_000_000 {
                Some(v)
            } else {
                None
            }
            &&& other != chain_id ==> held.cached(now, other) == cache.cached(now, other)
            &&& held.ready_at(now) == cache.ready_at(now)
        }),
        GateCacheView::empty().cached(now, chain_id) is None,
{
}

/// The host's readiness serves every chain for two seconds and no longer, and no verdict changes with
/// it.
pub proof fn law_readiness_is_held_for_two_seconds(
    cache: GateCacheView,
    at: nat,
    now: nat,
    chain_id: u64,
    r: ReadinessView,
)
    ensures
        ({
            let held = cache.with_ready(at, r);
            &&& held.ready_at(now) == if now < at + 2_000_000_000 {
                Some(r)
            } else {
                None
            }
            &&& held.cached(now, chain_id) == cache.cached(now, chain_id)
        }),
        GateCacheView::empty().ready_at(now) is None,
{
}

/// A write to a chain drops that chain's verdict and the readiness, and no other chain's verdict.
pub proof fn law_a_write_forgets_one_chain(cache: GateCacheView, chain_id: u64, other: u64, now: nat)
    ensures
        cache.without(chain_id).cached(now, chain_id) is None,
        cache.without(chain_id).ready_at(now) is None,
        other != chain_id ==> cache.without(chain_id).cached(now, other) == cache.cached(
            now,
            other,
        ),
{
}

/// The first step is a held verdict; without one a held readiness decides, which ends the matter only
/// where it says "not loaded"; without that either the registry is asked.
pub proof fn law_the_first_step_uses_what_is_held(cache: GateCacheView, now: nat, chain_id: u64)
    ensures
        match (cache.cached(now, chain_id), cache.ready_at(now)) {
            (Some(v), _) => cache.begin(now, chain_id) == GateStepView::Done(v),
            (None, Some(ReadinessView::NotLoaded(why))) => {
                &&& cache.begin(now, chain_id) is Done
                &&& says(
                    cache.begin(now, chain_id)->Done_0,
                    "missing"@,
                    false,
                    "install_or_load"@,
                    "The Verified Proxy module is not running."@,
                    why,
                )
            },
            (None, Some(_)) => cache.begin(now, chain_id) is AskStatus,
            (None, None) => cache.begin(now, chain_id) is AskReadiness,
        },
{
}

/// What a run leaves behind: the readiness that it had to ask for, with the time, and a verdict that
/// the proxy was probed for, with the time. Everything else that was held is held as before.
pub proof fn law_a_run_keeps_what_it_learned<P: GateProbe>(
    probe: P,
    old_cache: GateCacheView,
    new_cache: GateCacheView,
    now: nat,
    chain_id: u64,
    before: Seq<ProbeCall>,
    after: Seq<ProbeCall>,
    verdict: VerdictView,
)
    requires
        old_cache.cached(now, chain_id) is None,
        cache_run(probe, old_cache, new_cache, now, chain_id, before, after, verdict),
    ensures
        ({
            let n = before.len() as int;
            match old_cache.ready_at(now) {
                Some(readiness) => {
                    &&& gate_run(probe, chain_id, readiness, before, after, verdict)
                    &&& new_cache.ready == old_cache.ready
                    &&& new_cache.health == if readiness is NotLoaded {
                        old_cache.health
                    } else {
                        old_cache.health.insert(chain_id, (now, verdict))
                    }
                },
                None => {
                    &&& after.len() > n
                    &&& after[n] is Readiness
                    &&& answered(probe, after[n])
                    &&& gate_run(
                        probe,
                        chain_id,
                        after[n]->Readiness_0,
                        before.push(after[n]),
                        after,
                        verdict,
                    )
                    &&& new_cache.ready == Some((now, after[n]->Readiness_0))
                    &&& new_cache.health == if after[n]->Readiness_0 is NotLoaded {
                        old_cache.health
                    } else {
                        old_cache.health.insert(chain_id, (now, verdict))
                    }
                },
            }
        }),
{
}

/// A call goes on where the verdict is usable and at least 50 milliseconds of its budget are left, with
/// exactly what is left. Otherwise it reads the verdict's message, with the detail where there is one,
/// or how the time was spent.
pub proof fn law_why_a_call_does_not_go_on(
    v: VerdictView,
    method: Seq<char>,
    budget: nat,
    spent: nat,
)
    ensures
        !v.usable && v.detail.len() == 0 ==> passage(v, method, budget, spent) == Err::<nat, _>(
            v.message,
        ),
        !v.usable && v.detail.len() > 0 ==> passage(v, method, budget, spent) == Err::<nat, _>(
            v.message + " ("@ + v.detail + ")"@,
        ),
        v.usable && budget >= spent + 50_000_000 ==> passage(v, method, budget, spent) == Ok::<
            _,
            Seq<char>,
        >((budget - spent) as nat),
        v.usable && budget < spent + 50_000_000 ==> passage(v, method, budget, spent) == Err::<
            nat,
            _,
        >(
            "the verified gate spent "@ + decimal((spent / 1_000_000) as int) + "ms of a "@
                + decimal((budget / 1_000_000) as int)
                + "ms budget, leaving too little to ask the proxy for "@ + method,
        ),
{
}

/// The proxy's answer is the value in its envelope, where the envelope says success; nothing else is
/// an answer, and what is refused names the method and the reason.
pub proof fn law_only_a_success_is_an_answer(
    method: Seq<char>,
    envelope: JsonView,
    error: Seq<char>,
)
    ensures
        unwrapped(method, Err(error)) == Err::<JsonView, _>(method + " failed ("@ + error + ")"@),
        envelope.get("success"@) == Some(JsonView::Bool(true)) ==> unwrapped(method, Ok(envelope))
            == Ok::<_, Seq<char>>(
            match envelope.get("value"@) {
                Some(value) => value,
                None => JsonView::Null,
            },
        ),
        envelope.get("success"@) != Some(JsonView::Bool(true)) ==> unwrapped(method, Ok(envelope))
            == Err::<JsonView, _>(
            method + ": "@ + match envelope.get("error"@) {
                Some(JsonView::Text(why)) => why,
                _ => "no detail"@,
            },
        ),
{
}

/// What is answered about a chain's gate is the verdict, under the chain's id and mode. A chain
/// without a record is off and the detail says that it has none.
pub proof fn law_the_answer_about_a_gate_is_its_verdict(
    chain_id: i64,
    mode: Option<VerifiedProxyMode>,
    v: VerdictView,
)
    ensures
        ({
            let answer = gate_json(chain_id, mode, v);
            let required = mode == Some(VerifiedProxyMode::Required);
            &&& answer.bool_at("ok"@) == Some(true)
            &&& answer.get("chainId"@) == Some(JsonView::Int(chain_id as int))
            &&& answer.text_at("mode"@) == Some(
                if required {
                    "required"@
                } else {
                    "off"@
                },
            )
            &&& answer.text_at("state"@) == Some(v.state)
            &&& answer.bool_at("usable"@) == Some(v.usable)
            &&& answer.bool_at("blocking"@) == Some(required && !v.usable)
            &&& answer.text_at("message"@) == Some(v.message)
            &&& answer.text_at("action"@) == Some(v.action)
            &&& answer.text_at("detail"@) == Some(
                if mode is None {
                    "no configuration for chain "@ + decimal(chain_id as int)
                } else {
                    v.detail
                },
            )
        }),
{
    let told = if mode is None {
        v.detailed("no configuration for chain "@ + decimal(chain_id as int))
    } else {
        v
    };
    law_a_report_carries_every_member(told, chain_id, mode == Some(VerifiedProxyMode::Required));
}

/// What the classifiers give is the verdict, or the readiness, that what they are given leads to, and what
/// is answered of it is what is shown.
pub proof fn law_what_is_given_is_classified(
    chain_id: u64,
    snapshot: Json,
    listing: Option<&Json>,
    record: Option<&Json>,
    error: &str,
    v: Verdict,
    r: Readiness,
    shown_id: i64,
    mode: Option<VerifiedProxyMode>,
    mode_required: bool,
    shown: Json,
)
    ensures
        call_ensures(classify_status, (chain_id, &snapshot), v) ==> v@ == status_verdict(
            chain_id,
            snapshot@,
        ),
        call_ensures(classify_readiness, (listing,), r) ==> r@ == readiness_of(opt_view(listing)),
        call_ensures(classify_modules_state, (record, error), v) ==> v@ == failed_probe_verdict(
            opt_view(record),
            error@,
        ),
        call_ensures(Verdict::disabled, (), v) ==> v@ == disabled_verdict(),
        call_ensures(Verdict::not_loaded, (error,), v) ==> v@ == missing_verdict().detailed(error@),
        call_ensures(Verdict::to_json, (&v, shown_id, mode_required), shown) ==> shown@
            == v@.to_json(shown_id, mode_required),
        call_ensures(gate_required, (mode,), mode_required) ==> (mode_required <==> mode == Some(
            VerifiedProxyMode::Required,
        )),
        call_ensures(gate_answer, (shown_id, mode, v), shown) ==> shown@ == gate_json(
            shown_id,
            mode,
            v@,
        ),
{
}

/// A verdict is asked for as the runs say: the registry first where no readiness is in hand, and only what
/// is not held where something is. A chain that need not be verified asks nobody.
pub proof fn law_verdicts_are_asked_for_in_order<P: GateProbe>(
    chain_id: u64,
    readiness: Readiness,
    cache: &mut GateCache,
    router: &mut VerifiedProxyRouter,
    now: Instant,
    mode_required: bool,
    probes: &mut Probes<P>,
    v: Verdict,
)
    ensures
        ({
            let probe = old(probes).inner();
            let before = old(probes).calls();
            let after = final(probes).calls();
            let n = before.len() as int;
            &&& call_ensures(evaluate_with::<P>, (chain_id, readiness, probes), v) ==> gate_run(
                probe,
                chain_id,
                readiness@,
                before,
                after,
                v@,
            )
            &&& call_ensures(evaluate::<P>, (chain_id, probes), v) ==> {
                &&& after.len() > n
                &&& after[n] is Readiness
                &&& answered(probe, after[n])
                &&& gate_run(
                    probe,
                    chain_id,
                    after[n]->Readiness_0,
                    before.push(after[n]),
                    after,
                    v@,
                )
            }
            &&& call_ensures(GateCache::verdict_at::<P>, (cache, now, chain_id, probes), v)
                ==> cache_run(
                probe,
                old(cache)@,
                final(cache)@,
                now@,
                chain_id,
                before,
                after,
                v@,
            )
            &&& call_ensures(
                VerifiedProxyRouter::verdict::<P>,
                (router, now, chain_id, mode_required, probes),
                v,
            ) ==> if mode_required {
                cache_run(
                    probe,
                    old(router).gate@,
                    final(router).gate@,
                    now@,
                    chain_id,
                    before,
                    after,
                    v@,
                )
            } else {
                &&& v@ == disabled_verdict()
                &&& after == before
                &&& final(router).gate@ == old(router).gate@
            }
        }),
{
}

/// The steps towards a verdict, one by one, and what each leaves held.
pub proof fn law_each_step_keeps_what_it_learned(
    cache: &mut GateCache,
    router: VerifiedProxyRouter,
    now: Instant,
    chain_id: u64,
    mode_required: bool,
    readiness: Readiness,
    answer: Result<Json, String>,
    error: &str,
    record: Option<Json>,
    step: GateStep,
    v: Verdict,
)
    ensures
        call_ensures(GateCache::begin, (&router.gate, now, chain_id), step) ==> step@
            == router.gate@.begin(now@, chain_id),
        call_ensures(
            VerifiedProxyRouter::begin,
            (&router, now, chain_id, mode_required),
            step,
        ) ==> step@ == if mode_required {
            router.gate@.begin(now@, chain_id)
        } else {
            GateStepView::Done(disabled_verdict())
        },
        call_ensures(GateCache::on_readiness, (cache, now, readiness), step) ==> {
            &&& step@ == step_after_ready(readiness@)
            &&& final(cache)@.ready == Some((now@, readiness@))
            &&& final(cache)@.health == old(cache)@.health
        },
        call_ensures(GateCache::on_status, (cache, now, chain_id, answer), step) ==> match answer {
            Ok(snapshot) => {
                &&& step@ == GateStepView::Done(status_verdict(chain_id, snapshot@))
                &&& final(cache)@.health == old(cache)@.health.insert(
                    chain_id,
                    (now@, status_verdict(chain_id, snapshot@)),
                )
                &&& final(cache)@.ready == old(cache)@.ready
            },
            Err(e) => step@ == GateStepView::AskRecord(e@) && final(cache)@ == old(cache)@,
        },
        call_ensures(GateCache::on_record, (cache, now, chain_id, error, record), v) ==> {
            &&& v@ == failed_probe_verdict(owned_view(record), error@)
            &&& final(cache)@.health == old(cache)@.health.insert(chain_id, (now@, v@))
            &&& final(cache)@.ready == old(cache)@.ready
        },
        call_ensures(GateCache::invalidate, (cache, chain_id), ()) ==> {
            &&& final(cache)@.health == old(cache)@.health.remove(chain_id)
            &&& final(cache)@.ready is None
        },
{
}

/// What is left for the hop, whether the call may make it, and what the proxy's answer says, as they are
/// computed.
pub proof fn law_a_hop_has_what_is_left(
    v: Verdict,
    method: &str,
    budget: Duration,
    spent: Duration,
    floor: Duration,
    left: Option<Duration>,
    passed: Result<Duration, String>,
    raw: Result<Json, String>,
    answer: Result<Json, String>,
)
    ensures
        call_ensures(hop_budget, (budget, spent, floor), left) ==> match left {
            Some(d) => {
                &&& d@ >= floor@
                &&& d@ == if spent@ < budget@ {
                    budget@ - spent@
                } else {
                    0
                }
            },
            None => budget@ < spent@ + floor@,
        },
        call_ensures(pass_gate, (&v, method, budget, spent), passed) ==> match (
            passed,
            passage(v@, method@, budget@, spent@),
        ) {
            (Ok(d), Ok(told)) => d@ == told,
            (Err(e), Err(told)) => e@ == told,
            _ => false,
        },
        call_ensures(unwrap_reply, (method, raw), answer) ==> match (
            answer,
            unwrapped(
                method@,
                match raw {
                    Ok(j) => Ok(j@),
                    Err(e) => Err(e@),
                },
            ),
        ) {
            (Ok(j), Ok(told)) => j@ == told,
            (Err(e), Err(told)) => e@ == told,
            _ => false,
        },
{
}

} // verus!
