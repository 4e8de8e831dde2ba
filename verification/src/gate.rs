//! The verified-proxy gate: the order in which the host's registry and the proxy are asked, and how
//! long an answer may be used again.
use std::collections::HashMap;

use vstd::prelude::*;
use vstd::string::*;

use crate::gate_laws::law_the_steps_lead_where_the_whole_leads;
use crate::json::{Json, read_view};
use crate::probes::{GateProbe, ProbeCall, Probes, answered, owned_view};
use crate::time::{Duration, Instant, less_by, seconds};
use crate::verdict::{
    Readiness, ReadinessView, Verdict, VerdictView, classify_modules_state, classify_status,
    failed_probe_verdict, missing_verdict, status_verdict,
};

verus! {

/// How long the registry's answer is used again, in seconds. Readiness is a fact of the host, not of
/// a chain, so a wallet that polls three chains shares one lookup.
pub const READY_TTL_SECS: u64 = 2;

/// How long a verdict is used again, in seconds: long enough that a burst of reads costs one probe,
/// short enough that a proxy that falls over is noticed.
pub const HEALTH_TTL_SECS: u64 = 5;

/// Whether `verdict` is the one that `readiness` leads to, and `after` what `probe` was asked by then,
/// with the answers it gave. A positive "not loaded" asks nothing more. Anything else asks the proxy, and the registry
/// about the proxy only where the proxy did not answer.
pub open spec fn gate_run<P: GateProbe>(
    probe: P,
    chain_id: u64,
    readiness: ReadinessView,
    before: Seq<ProbeCall>,
    after: Seq<ProbeCall>,
    verdict: VerdictView,
) -> bool {
    let n = before.len() as int;
    match readiness {
        ReadinessView::NotLoaded(why) => after == before && verdict == missing_verdict().detailed(
            why,
        ),
        _ => {
            &&& after.len() > n
            &&& answered(probe, after[n])
            &&& match after[n] {
                ProbeCall::Status(Ok(snapshot)) => {
                    &&& after == before.push(after[n])
                    &&& verdict == status_verdict(chain_id, snapshot)
                },
                ProbeCall::Status(Err(error)) => {
                    &&& after.len() == n + 2
                    &&& answered(probe, after[n + 1])
                    &&& after == before.push(after[n]).push(after[n + 1])
                    &&& match after[n + 1] {
                        ProbeCall::Record(record) => verdict == failed_probe_verdict(record, error),
                        _ => false,
                    }
                },
                _ => false,
            }
        },
    }
}

/// One chain's verdict, the registry first.
pub fn evaluate<P: GateProbe>(chain_id: u64, probes: &mut Probes<P>) -> (v: Verdict)
    ensures
        final(probes).inner() == old(probes).inner(),
        final(probes).calls().len() > old(probes).calls().len(),
        match final(probes).calls()[old(probes).calls().len() as int] {
            ProbeCall::Readiness(readiness) => {
                &&& answered(old(probes).inner(), ProbeCall::Readiness(readiness))
                &&& gate_run(
                    old(probes).inner(),
                    chain_id,
                    readiness,
                    old(probes).calls().push(ProbeCall::Readiness(readiness)),
                    final(probes).calls(),
                    v@,
                )
            },
            _ => false,
        },
{
    let readiness = probes.readiness();
    evaluate_with(chain_id, readiness, probes)
}

/// The same gate with the readiness already in hand.
pub fn evaluate_with<P: GateProbe>(chain_id: u64, readiness: Readiness, probes: &mut Probes<P>) -> (v:
    Verdict)
    ensures
        final(probes).inner() == old(probes).inner(),
        gate_run(
            old(probes).inner(),
            chain_id,
            readiness@,
            old(probes).calls(),
            final(probes).calls(),
            v@,
        ),
{
    if let Readiness::NotLoaded(why) = readiness {
        return Verdict::not_loaded(why.as_str());
    }
    match probes.proxy_status() {
        Ok(snapshot) => classify_status(chain_id, &snapshot),
        Err(e) => {
            let record = probes.module_record();
            classify_modules_state(record.as_ref(), e.as_str())
        },
    }
}

/// What is left of a caller's budget once the verdict has taken its part, or nothing where too
/// little is left to be worth asking. The verdict is paid for out of the budget, never squeezed into
/// it: a probe cut short for one impatient caller would answer "unknown" to everybody.
pub fn hop_budget(budget: Duration, gate_spent: Duration, floor: Duration) -> (r: Option<Duration>)
    ensures
        match r {
            Some(left) => left@ == less_by(budget@, gate_spent@) && left@ >= floor@,
            None => less_by(budget@, gate_spent@) < floor@,
        },
{
    let left = budget.saturating_sub(gate_spent);
    if left.is_below(floor) {
        None
    } else {
        Some(left)
    }
}

/// One verdict per chain and one readiness for the host, each with the time it was learned.
pub struct GateCache {
    health: HashMap<u64, (Instant, Verdict)>,
    ready: Option<(Instant, Readiness)>,
}

/// What a [`GateCache`] holds.
#[verifier::ext_equal]
pub struct GateCacheView {
    pub health: Map<u64, (nat, VerdictView)>,
    pub ready: Option<(nat, ReadinessView)>,
}

impl View for GateCache {
    type V = GateCacheView;

    closed spec fn view(&self) -> GateCacheView {
        GateCacheView {
            health: self.health@.map_values(|e: (Instant, Verdict)| (e.0@, e.1@)),
            ready: match self.ready {
                Some((at, r)) => Some((at@, r@)),
                None => None,
            },
        }
    }
}

/// Whether what was learned at `at` is still younger than `ttl_secs` at `now`.
pub open spec fn fresh(now: nat, at: nat, ttl_secs: u64) -> bool {
    less_by(now, at) < seconds(ttl_secs as int)
}

/// What comes next on the way to a verdict.
pub enum GateStep {
    /// The verdict is in.
    Done(Verdict),
    /// Ask the host's registry.
    AskReadiness,
    /// Ask the proxy for its status.
    AskStatus,
    /// The proxy failed with this error: ask the registry for its record.
    AskRecord(String),
}

/// What a [`GateStep`] says.
#[verifier::ext_equal]
pub enum GateStepView {
    Done(VerdictView),
    AskReadiness,
    AskStatus,
    AskRecord(Seq<char>),
}

impl View for GateStep {
    type V = GateStepView;

    open spec fn view(&self) -> GateStepView {
        match *self {
            GateStep::Done(v) => GateStepView::Done(v@),
            GateStep::AskReadiness => GateStepView::AskReadiness,
            GateStep::AskStatus => GateStepView::AskStatus,
            GateStep::AskRecord(e) => GateStepView::AskRecord(e@),
        }
    }
}

/// What follows once the readiness is known.
pub open spec fn step_after_ready(readiness: ReadinessView) -> GateStepView {
    match readiness {
        ReadinessView::NotLoaded(why) => GateStepView::Done(missing_verdict().detailed(why)),
        _ => GateStepView::AskStatus,
    }
}

impl GateCacheView {
    pub open spec fn empty() -> GateCacheView {
        GateCacheView { health: Map::empty(), ready: None }
    }

    /// The chain's verdict, where one is held that is young enough.
    pub open spec fn cached(self, now: nat, chain_id: u64) -> Option<VerdictView> {
        if self.health.contains_key(chain_id) && fresh(
            now,
            self.health[chain_id].0,
            HEALTH_TTL_SECS,
        ) {
            Some(self.health[chain_id].1)
        } else {
            None
        }
    }

    /// The host's readiness, where one is held that is young enough.
    pub open spec fn ready_at(self, now: nat) -> Option<ReadinessView> {
        match self.ready {
            Some((at, r)) => if fresh(now, at, READY_TTL_SECS) {
                Some(r)
            } else {
                None
            },
            None => None,
        }
    }

    pub open spec fn with_ready(self, now: nat, readiness: ReadinessView) -> GateCacheView {
        GateCacheView { ready: Some((now, readiness)), ..self }
    }

    pub open spec fn with_verdict(
        self,
        now: nat,
        chain_id: u64,
        verdict: VerdictView,
    ) -> GateCacheView {
        GateCacheView { health: self.health.insert(chain_id, (now, verdict)), ..self }
    }

    /// The cache after a verdict that rests on `readiness`. A verdict that the readiness alone gave
    /// is not kept: it costs nothing to give again, and keeping it would only go on telling a user
    /// who has just loaded the proxy that it is absent.
    pub open spec fn settled(
        self,
        now: nat,
        chain_id: u64,
        readiness: ReadinessView,
        verdict: VerdictView,
    ) -> GateCacheView {
        if readiness is NotLoaded {
            self
        } else {
            self.with_verdict(now, chain_id, verdict)
        }
    }

    /// The cache without the chain's verdict and without the readiness under it.
    pub open spec fn without(self, chain_id: u64) -> GateCacheView {
        GateCacheView { health: self.health.remove(chain_id), ready: None }
    }

    /// The first step towards a chain's verdict.
    pub open spec fn begin(self, now: nat, chain_id: u64) -> GateStepView {
        match self.cached(now, chain_id) {
            Some(v) => GateStepView::Done(v),
            None => match self.ready_at(now) {
                Some(r) => step_after_ready(r),
                None => GateStepView::AskReadiness,
            },
        }
    }
}

fn after_ready(readiness: &Readiness) -> (r: GateStep)
    ensures
        r@ == step_after_ready(readiness@),
{
    match readiness {
        Readiness::NotLoaded(why) => GateStep::Done(Verdict::not_loaded(why.as_str())),
        _ => GateStep::AskStatus,
    }
}

impl GateCache {
    pub fn new() -> (r: Self)
        ensures
            r@ == GateCacheView::empty(),
    {
        let r = GateCache { health: HashMap::new(), ready: None };
        assert(r@.health =~= Map::empty());
        r
    }

    fn cached(&self, now: Instant, chain_id: u64) -> (r: Option<Verdict>)
        ensures
            match r {
                Some(v) => self@.cached(now@, chain_id) == Some(v@),
                None => self@.cached(now@, chain_id) is None,
            },
    {
        match self.health.get(&chain_id) {
            Some(entry) => {
                let age = now.saturating_duration_since(entry.0);
                if age.is_below(Duration::from_secs(HEALTH_TTL_SECS)) {
                    Some(entry.1.clone())
                } else {
                    None
                }
            },
            None => None,
        }
    }

    fn ready_at(&self, now: Instant) -> (r: Option<Readiness>)
        ensures
            match r {
                Some(ready) => self@.ready_at(now@) == Some(ready@),
                None => self@.ready_at(now@) is None,
            },
    {
        match &self.ready {
            Some(entry) => {
                let age = now.saturating_duration_since(entry.0);
                if age.is_below(Duration::from_secs(READY_TTL_SECS)) {
                    Some(entry.1.clone())
                } else {
                    None
                }
            },
            None => None,
        }
    }

    fn remember(&mut self, now: Instant, chain_id: u64, verdict: &Verdict)
        ensures
            final(self)@ == old(self)@.with_verdict(now@, chain_id, verdict@),
    {
        self.health.insert(chain_id, (now, verdict.clone()));
        assert(self@.health =~= old(self)@.health.insert(chain_id, (now@, verdict@)));
    }

    /// The first step towards a chain's verdict, which is a held one, else what a held readiness says,
    /// else the registry has to be asked.
    pub fn begin(&self, now: Instant, chain_id: u64) -> (r: GateStep)
        ensures
            r@ == self@.begin(now@, chain_id),
    {
        match self.cached(now, chain_id) {
            Some(v) => GateStep::Done(v),
            None => match self.ready_at(now) {
                Some(r) => after_ready(&r),
                None => GateStep::AskReadiness,
            },
        }
    }

    /// Takes the registry's answer, and keeps it.
    pub fn on_readiness(&mut self, now: Instant, readiness: Readiness) -> (r: GateStep)
        ensures
            r@ == step_after_ready(readiness@),
            final(self)@ == old(self)@.with_ready(now@, readiness@),
    {
        let step = after_ready(&readiness);
        self.ready = Some((now, readiness));
        step
    }

    /// Takes the proxy's status. Where there is one the verdict is in, and kept; where there is
    /// none the registry is asked about the proxy.
    pub fn on_status(
        &mut self,
        now: Instant,
        chain_id: u64,
        answer: Result<Json, String>,
    ) -> (r: GateStep)
        ensures
            match answer {
                Ok(snapshot) => {
                    &&& r@ == GateStepView::Done(status_verdict(chain_id, snapshot@))
                    &&& final(self)@ == old(self)@.with_verdict(
                        now@,
                        chain_id,
                        status_verdict(chain_id, snapshot@),
                    )
                },
                Err(e) => r@ == GateStepView::AskRecord(e@) && final(self)@ == old(self)@,
            },
    {
        match answer {
            Ok(snapshot) => {
                let v = classify_status(chain_id, &snapshot);
                self.remember(now, chain_id, &v);
                GateStep::Done(v)
            },
            Err(e) => GateStep::AskRecord(e),
        }
    }

    /// Takes the registry's record of a proxy whose status failed with `error`. The verdict is in,
    /// and kept.
    pub fn on_record(
        &mut self,
        now: Instant,
        chain_id: u64,
        error: &str,
        record: Option<Json>,
    ) -> (r: Verdict)
        ensures
            r@ == failed_probe_verdict(owned_view(record), error@),
            final(self)@ == old(self)@.with_verdict(now@, chain_id, r@),
    {
        let v = classify_modules_state(record.as_ref(), error);
        self.remember(now, chain_id, &v);
        v
    }

    /// The chain's verdict at `now`, asking only what is not held.
    pub fn verdict_at<P: GateProbe>(
        &mut self,
        now: Instant,
        chain_id: u64,
        probes: &mut Probes<P>,
    ) -> (v: Verdict)
        ensures
            final(probes).inner() == old(probes).inner(),
            cache_run(
                old(probes).inner(),
                old(self)@,
                final(self)@,
                now@,
                chain_id,
                old(probes).calls(),
                final(probes).calls(),
                v@,
            ),
    {
        let ghost held = self@;
        let ghost before = probes.calls();
        let ghost probe = probes.inner();
        let ghost mut calls: Seq<ProbeCall> = Seq::empty();
        let mut step = self.begin(now, chain_id);
        assert(before + calls =~= before);
        loop
            invariant
                held == old(self)@,
                before == old(probes).calls(),
                probe == old(probes).inner(),
                probes.inner() == probe,
                probes.calls() == before + calls,
                forall|i: int| 0 <= i < calls.len() ==> answered(probe, #[trigger] calls[i]),
                Progress::start(held, now@, chain_id).walk(now@, chain_id, calls) == Some(
                    Progress { cache: self@, step: step@ },
                ),
            decreases step@.left(),
        {
            let ghost asked = calls;
            step = match step {
                GateStep::Done(v) => {
                    proof {
                        law_the_steps_lead_where_the_whole_leads(
                            probe,
                            held,
                            self@,
                            now@,
                            chain_id,
                            before,
                            calls,
                            v@,
                        );
                    }
                    return v;
                },
                GateStep::AskReadiness => {
                    let readiness = probes.readiness();
                    proof {
                        calls = calls.push(ProbeCall::Readiness(readiness@));
                    }
                    self.on_readiness(now, readiness)
                },
                GateStep::AskStatus => {
                    let answer = probes.proxy_status();
                    proof {
                        calls = calls.push(ProbeCall::Status(read_view(answer)));
                    }
                    self.on_status(now, chain_id, answer)
                },
                GateStep::AskRecord(e) => {
                    let record = probes.module_record();
                    proof {
                        calls = calls.push(ProbeCall::Record(owned_view(record)));
                    }
                    GateStep::Done(self.on_record(now, chain_id, e.as_str(), record))
                },
            };
            proof {
                assert(calls.drop_last() =~= asked);
                assert(before + calls =~= (before + asked).push(calls.last()));
            }
        }
    }

    /// Drops what a config write can have made stale: the chain's verdict, and the readiness under
    /// it. Dropping only the verdict would let a retry read an old "not loaded" again.
    pub fn invalidate(&mut self, chain_id: u64)
        ensures
            final(self)@ == old(self)@.without(chain_id),
    {
        self.health.remove(&chain_id);
        self.ready = None;
        assert(self@.health =~= old(self)@.health.remove(chain_id));
    }
}

impl Default for GateCache {
    fn default() -> (r: Self)
        ensures
            r@ == GateCacheView::empty(),
    {
        GateCache::new()
    }
}

/// How far the way to a verdict has come: what is held by now, and what comes next.
#[verifier::ext_equal]
pub ghost struct Progress {
    pub cache: GateCacheView,
    pub step: GateStepView,
}

impl GateStepView {
    /// The most answers that are still to come.
    pub open spec fn left(self) -> nat {
        match self {
            GateStepView::Done(_) => 0,
            GateStepView::AskRecord(_) => 1,
            GateStepView::AskStatus => 2,
            GateStepView::AskReadiness => 3,
        }
    }
}

impl Progress {
    /// The first step.
    pub open spec fn start(cache: GateCacheView, now: nat, chain_id: u64) -> Progress {
        Progress { cache, step: cache.begin(now, chain_id) }
    }

    /// The step after an answer, where it is an answer to what was asked.
    pub open spec fn next(self, now: nat, chain_id: u64, call: ProbeCall) -> Option<Progress> {
        match (self.step, call) {
            (GateStepView::AskReadiness, ProbeCall::Readiness(readiness)) => Some(
                Progress {
                    cache: self.cache.with_ready(now, readiness),
                    step: step_after_ready(readiness),
                },
            ),
            (GateStepView::AskStatus, ProbeCall::Status(Ok(snapshot))) => {
                let verdict = status_verdict(chain_id, snapshot);
                Some(
                    Progress {
                        cache: self.cache.with_verdict(now, chain_id, verdict),
                        step: GateStepView::Done(verdict),
                    },
                )
            },
            (GateStepView::AskStatus, ProbeCall::Status(Err(error))) => Some(
                Progress { step: GateStepView::AskRecord(error), ..self },
            ),
            (GateStepView::AskRecord(error), ProbeCall::Record(record)) => {
                let verdict = failed_probe_verdict(record, error);
                Some(
                    Progress {
                        cache: self.cache.with_verdict(now, chain_id, verdict),
                        step: GateStepView::Done(verdict),
                    },
                )
            },
            _ => None,
        }
    }

    /// Where a sequence of answers leads, where each answers what was asked.
    pub open spec fn walk(self, now: nat, chain_id: u64, calls: Seq<ProbeCall>) -> Option<Progress>
        decreases calls.len(),
    {
        if calls.len() == 0 {
            Some(self)
        } else {
            match self.walk(now, chain_id, calls.drop_last()) {
                Some(p) => p.next(now, chain_id, calls.last()),
                None => None,
            }
        }
    }
}

/// Whether `verdict` is the chain's at `now`, `after` what `probe` was asked by then, with the answers
/// it gave, and `new_cache` what is held afterwards.
pub open spec fn cache_run<P: GateProbe>(
    probe: P,
    old_cache: GateCacheView,
    new_cache: GateCacheView,
    now: nat,
    chain_id: u64,
    before: Seq<ProbeCall>,
    after: Seq<ProbeCall>,
    verdict: VerdictView,
) -> bool {
    let n = before.len() as int;
    match old_cache.cached(now, chain_id) {
        Some(held) => {
            &&& verdict == held
            &&& after == before
            &&& new_cache == old_cache
        },
        None => match old_cache.ready_at(now) {
            Some(readiness) => {
                &&& gate_run(probe, chain_id, readiness, before, after, verdict)
                &&& new_cache == old_cache.settled(now, chain_id, readiness, verdict)
            },
            None => {
                &&& after.len() > n
                &&& answered(probe, after[n])
                &&& match after[n] {
                    ProbeCall::Readiness(readiness) => {
                        &&& gate_run(
                            probe,
                            chain_id,
                            readiness,
                            before.push(after[n]),
                            after,
                            verdict,
                        )
                        &&& new_cache == old_cache.with_ready(now, readiness).settled(
                            now,
                            chain_id,
                            readiness,
                            verdict,
                        )
                    },
                    _ => false,
                }
            },
        },
    }
}

/// A step says what stands in it.
pub proof fn law_a_step_says_what_stands_in_it(v: Verdict, e: String)
    ensures
        GateStep::Done(v)@ == GateStepView::Done(v@),
        GateStep::AskReadiness@ == GateStepView::AskReadiness,
        GateStep::AskStatus@ == GateStepView::AskStatus,
        GateStep::AskRecord(e)@ == GateStepView::AskRecord(e@),
{
}

} // verus!
