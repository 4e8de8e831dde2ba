//! The outbound calls behind a verdict. What is asked here is written down, and nothing can be asked
//! without being written down.
use vstd::prelude::*;

use crate::json::{Json, JsonView, read_view};
use crate::verdict::{Readiness, ReadinessView};

verus! {

/// One question behind a verdict, with the answer it got.
pub ghost enum ProbeCall {
    Readiness(ReadinessView),
    Status(Result<JsonView, Seq<char>>),
    Record(Option<JsonView>),
}

/// The view of an owned value that may be absent.
pub open spec fn owned_view(v: Option<Json>) -> Option<JsonView> {
    match v {
        Some(j) => Some(j@),
        None => None,
    }
}

/// The three outbound calls behind a verdict, so that the order they run in does not depend on what
/// makes them.
pub trait GateProbe {
    /// The host's registry, asked first.
    fn readiness(&self) -> Readiness;

    /// The proxy's own status: the expensive one.
    fn proxy_status(&self) -> Result<Json, String>;

    /// The registry's record of the proxy, only ever after a failed status.
    fn module_record(&self) -> Option<Json>;
}

/// Whether `probe` was asked this question and gave this answer.
pub open spec fn answered<P: GateProbe>(probe: P, call: ProbeCall) -> bool {
    match call {
        ProbeCall::Readiness(view) => exists|r: Readiness| #[trigger]
            call_ensures(P::readiness, (&probe,), r) && r@ == view,
        ProbeCall::Status(view) => exists|r: Result<Json, String>| #[trigger]
            call_ensures(P::proxy_status, (&probe,), r) && read_view(r) == view,
        ProbeCall::Record(view) => exists|r: Option<Json>| #[trigger]
            call_ensures(P::module_record, (&probe,), r) && owned_view(r) == view,
    }
}

/// Probes, together with what was asked of them so far and what came back.
pub struct Probes<P: GateProbe> {
    probe: P,
    log: Ghost<Seq<ProbeCall>>,
}

impl<P: GateProbe> Probes<P> {
    /// The probes themselves.
    pub closed spec fn inner(&self) -> P {
        self.probe
    }

    /// What was asked so far, and what came back.
    pub closed spec fn calls(&self) -> Seq<ProbeCall> {
        self.log@
    }

    /// Probes of which nothing was asked yet.
    pub fn new(probe: P) -> (r: Self)
        ensures
            r.inner() == probe,
            r.calls() == Seq::<ProbeCall>::empty(),
    {
        Probes { probe, log: Ghost(Seq::empty()) }
    }

    /// Asks the host's registry.
    pub(crate) fn readiness(&mut self) -> (r: Readiness)
        ensures
            call_ensures(P::readiness, (&old(self).inner(),), r),
            answered(old(self).inner(), ProbeCall::Readiness(r@)),
            final(self).inner() == old(self).inner(),
            final(self).calls() == old(self).calls().push(ProbeCall::Readiness(r@)),
    {
        let r = self.probe.readiness();
        proof {
            self.log@ = self.log@.push(ProbeCall::Readiness(r@));
        }
        r
    }

    /// Asks the proxy for its status.
    pub(crate) fn proxy_status(&mut self) -> (r: Result<Json, String>)
        ensures
            call_ensures(P::proxy_status, (&old(self).inner(),), r),
            answered(old(self).inner(), ProbeCall::Status(read_view(r))),
            final(self).inner() == old(self).inner(),
            final(self).calls() == old(self).calls().push(ProbeCall::Status(read_view(r))),
    {
        let r = self.probe.proxy_status();
        proof {
            self.log@ = self.log@.push(ProbeCall::Status(read_view(r)));
        }
        r
    }

    /// Asks the registry for its record of the proxy.
    pub(crate) fn module_record(&mut self) -> (r: Option<Json>)
        ensures
            call_ensures(P::module_record, (&old(self).inner(),), r),
            answered(old(self).inner(), ProbeCall::Record(owned_view(r))),
            final(self).inner() == old(self).inner(),
            final(self).calls() == old(self).calls().push(ProbeCall::Record(owned_view(r))),
    {
        let r = self.probe.module_record();
        proof {
            self.log@ = self.log@.push(ProbeCall::Record(owned_view(r)));
        }
        r
    }
}

/// An answer that is written down is one that the probe gave to that very question.
pub proof fn law_what_is_written_down_was_answered<P: GateProbe>(
    probe: P,
    readiness: ReadinessView,
    status: Result<JsonView, Seq<char>>,
    record: Option<JsonView>,
)
    ensures
        answered(probe, ProbeCall::Readiness(readiness)) ==> exists|r: Readiness| #[trigger]
            call_ensures(P::readiness, (&probe,), r) && r@ == readiness,
        answered(probe, ProbeCall::Status(status)) ==> exists|r: Result<Json, String>|
            {
                &&& #[trigger] call_ensures(P::proxy_status, (&probe,), r)
                &&& r matches Ok(v) ==> status == Ok::<_, Seq<char>>(v@)
                &&& r matches Err(e) ==> status == Err::<JsonView, _>(e@)
            },
        answered(probe, ProbeCall::Record(record)) ==> exists|r: Option<Json>|
            {
                &&& #[trigger] call_ensures(P::module_record, (&probe,), r)
                &&& r matches Some(v) ==> record == Some(v@)
                &&& r is None ==> record is None
            },
{
}

} // verus!
