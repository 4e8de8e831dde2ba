//! The verified leg's own decisions: whether a call may go on to the proxy, how much time is left for
//! the hop, and what the proxy's answer says.
use vstd::prelude::*;
use vstd::string::*;

use crate::gate::{GateCache, GateCacheView, GateStep, GateStepView, cache_run, hop_budget};
use crate::json::{Json, JsonView, read_view};
use crate::probes::{GateProbe, Probes};
use crate::text::{decimal, decimal_u128};
use crate::time::{Duration, Instant, less_by, millis};
use crate::verdict::{Verdict, VerdictView, disabled_verdict};

verus! {

/// How long the proxy's status may take, in milliseconds. A call to a module that is not loaded
/// blocks for as long as it is let, so an absent proxy costs this much at most.
pub const PROBE_BUDGET_MS: u64 = 1500;

/// The least time that a hop to the proxy is worth, in milliseconds.
pub const MIN_PROXY_HOP_MS: u64 = 50;

/// How long the registry may take, in milliseconds. It is a local lookup.
pub const MODULES_STATE_BUDGET_MS: u64 = 750;

/// What every verified call has to pass before it reaches the proxy.
pub struct VerifiedProxyRouter {
    pub gate: GateCache,
}

impl Default for VerifiedProxyRouter {
    fn default() -> (r: Self)
        ensures
            r.gate@ == GateCacheView::empty(),
    {
        VerifiedProxyRouter { gate: GateCache::new() }
    }
}

impl VerifiedProxyRouter {
    /// The first step towards a chain's verdict. Where the mode is not `required` the verdict is in,
    /// and nothing is asked.
    pub fn begin(&self, now: Instant, chain_id: u64, mode_required: bool) -> (r: GateStep)
        ensures
            r@ == if mode_required {
                self.gate@.begin(now@, chain_id)
            } else {
                GateStepView::Done(disabled_verdict())
            },
    {
        if !mode_required {
            return GateStep::Done(Verdict::disabled());
        }
        self.gate.begin(now, chain_id)
    }

    /// The chain's verdict at `now`. Where the mode is not `required` nothing is asked.
    pub fn verdict<P: GateProbe>(
        &mut self,
        now: Instant,
        chain_id: u64,
        mode_required: bool,
        probes: &mut Probes<P>,
    ) -> (v: Verdict)
        ensures
            final(probes).inner() == old(probes).inner(),
            if mode_required {
                cache_run(
                    old(probes).inner(),
                    old(self).gate@,
                    final(self).gate@,
                    now@,
                    chain_id,
                    old(probes).calls(),
                    final(probes).calls(),
                    v@,
                )
            } else {
                &&& v@ == disabled_verdict()
                &&& final(probes).calls() == old(probes).calls()
                &&& final(self).gate@ == old(self).gate@
            },
    {
        if !mode_required {
            return Verdict::disabled();
        }
        self.gate.verdict_at(now, chain_id, probes)
    }
}

/// What a caller reads where the proxy is not usable.
pub open spec fn refusal_text(v: VerdictView) -> Seq<char> {
    if v.detail.len() == 0 {
        v.message
    } else {
        v.message + " ("@ + v.detail + ")"@
    }
}

/// What a caller reads where the verdict took the time that the hop needed.
pub open spec fn no_time_text(method: Seq<char>, budget: nat, spent: nat) -> Seq<char> {
    "the verified gate spent "@ + decimal((spent / 1_000_000) as int) + "ms of a "@ + decimal(
        (budget / 1_000_000) as int,
    ) + "ms budget, leaving too little to ask the proxy for "@ + method
}

/// The time that a call has for the hop to the proxy, or why it may not make it.
pub open spec fn passage(v: VerdictView, method: Seq<char>, budget: nat, spent: nat) -> Result<
    nat,
    Seq<char>,
> {
    if !v.usable {
        Err(refusal_text(v))
    } else if less_by(budget, spent) < millis(MIN_PROXY_HOP_MS as int) {
        Err(no_time_text(method, budget, spent))
    } else {
        Ok(less_by(budget, spent))
    }
}

/// The time that a call has for the hop to the proxy once the verdict is in and has taken its part, or
/// why the call may not go on.
pub fn pass_gate(v: &Verdict, method: &str, budget: Duration, spent: Duration) -> (r: Result<
    Duration,
    String,
>)
    ensures
        match r {
            Ok(left) => passage(v@, method@, budget@, spent@) == Ok::<_, Seq<char>>(left@),
            Err(e) => passage(v@, method@, budget@, spent@) == Err::<nat, _>(e@),
        },
{
    if !v.usable {
        return Err(
            if v.detail.as_str().unicode_len() == 0 {
                v.message.clone()
            } else {
                v.message.clone().concat(" (").concat(v.detail.as_str()).concat(")")
            },
        );
    }
    match hop_budget(budget, spent, Duration::from_millis(MIN_PROXY_HOP_MS)) {
        Some(left) => Ok(left),
        None => Err(
            String::from_str("the verified gate spent ").concat(
                decimal_u128(spent.as_millis()).as_str(),
            ).concat("ms of a ").concat(decimal_u128(budget.as_millis()).as_str()).concat(
                "ms budget, leaving too little to ask the proxy for ",
            ).concat(method),
        ),
    }
}

/// What the proxy's answer says. It comes in an envelope: `success`, and then `value` or `error`.
pub open spec fn unwrapped(method: Seq<char>, raw: Result<JsonView, Seq<char>>) -> Result<
    JsonView,
    Seq<char>,
> {
    match raw {
        Err(e) => Err(method + " failed ("@ + e + ")"@),
        Ok(v) => if v.bool_at("success"@) == Some(true) {
            match v.get("value"@) {
                Some(value) => Ok(value),
                None => Ok(JsonView::Null),
            }
        } else {
            Err(
                method + ": "@ + (match v.text_at("error"@) {
                    Some(why) => why,
                    None => "no detail"@,
                }),
            )
        },
    }
}

/// Takes the value out of the proxy's answer.
pub fn unwrap_reply(method: &str, raw: Result<Json, String>) -> (r: Result<Json, String>)
    ensures
        read_view(r) == unwrapped(method@, read_view(raw)),
{
    match raw {
        Err(e) => Err(method.to_string().concat(" failed (").concat(e.as_str()).concat(")")),
        Ok(v) => {
            if let Some(true) = v.bool_at("success") {
                match v.get("value") {
                    Some(value) => Ok(value.clone()),
                    None => Ok(Json::Null),
                }
            } else {
                let why = match v.text_at("error") {
                    Some(why) => why,
                    None => "no detail",
                };
                Err(method.to_string().concat(": ").concat(why))
            }
        },
    }
}

} // verus!
