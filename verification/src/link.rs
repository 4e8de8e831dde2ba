//! The way to the verified proxy. What is asked here is written down, and nothing can be asked without
//! being written down.
use vstd::prelude::*;

use crate::json::{Json, JsonView, read_view};
use crate::time::Duration;

verus! {

/// One call through the verified proxy, with the answer it got.
pub ghost struct RouterCall {
    pub chain_id: u64,
    pub method: Seq<char>,
    pub params: JsonView,
    pub budget: nat,
    pub answer: Result<JsonView, Seq<char>>,
}

/// Supplies the verified leg, so that the decision which leg a call takes does not depend on what
/// makes it.
pub trait VerifiedRouter: Send + Sync {
    /// Asks the proxy within `budget`. The budget comes with every call: a copy held elsewhere could
    /// go stale. An `Err` is a refusal, never a licence to fall back.
    fn call(&self, chain_id: u64, method: &str, params: &Json, budget: Duration) -> Result<
        Json,
        String,
    >;
}

/// Whether `router` was asked this and gave this answer.
pub open spec fn made<R: VerifiedRouter>(router: R, call: RouterCall) -> bool {
    exists|method: &str, params: &Json, budget: Duration, answer: Result<Json, String>|
        {
            &&& #[trigger] call_ensures(
                R::call,
                (&router, call.chain_id, method, params, budget),
                answer,
            )
            &&& method@ == call.method
            &&& params@ == call.params
            &&& budget@ == call.budget
            &&& read_view(answer) == call.answer
        }
}

/// A verified leg, together with what was asked through it so far and what came back.
pub struct ProxyLink<R: VerifiedRouter> {
    router: R,
    log: Ghost<Seq<RouterCall>>,
}

impl<R: VerifiedRouter> ProxyLink<R> {
    /// The router itself.
    pub closed spec fn inner(&self) -> R {
        self.router
    }

    /// What was asked so far, and what came back.
    pub closed spec fn calls(&self) -> Seq<RouterCall> {
        self.log@
    }

    /// A leg through which nothing was asked yet.
    pub fn new(router: R) -> (r: Self)
        ensures
            r.inner() == router,
            r.calls() == Seq::<RouterCall>::empty(),
    {
        ProxyLink { router, log: Ghost(Seq::empty()) }
    }

    /// Asks the router.
    pub(crate) fn call(
        &mut self,
        chain_id: u64,
        method: &str,
        params: &Json,
        budget: Duration,
    ) -> (r: Result<Json, String>)
        ensures
            call_ensures(R::call, (&old(self).inner(), chain_id, method, params, budget), r),
            final(self).inner() == old(self).inner(),
            final(self).calls() == old(self).calls().push(
                RouterCall {
                    chain_id,
                    method: method@,
                    params: params@,
                    budget: budget@,
                    answer: read_view(r),
                },
            ),
            made(old(self).inner(), final(self).calls().last()),
    {
        let r = self.router.call(chain_id, method, params, budget);
        proof {
            self.log@ = self.log@.push(
                RouterCall {
                    chain_id,
                    method: method@,
                    params: params@,
                    budget: budget@,
                    answer: read_view(r),
                },
            );
        }
        r
    }
}

/// What was asked through a verified leg that may be absent.
pub open spec fn asked<R: VerifiedRouter>(link: Option<ProxyLink<R>>) -> Seq<RouterCall> {
    match link {
        Some(l) => l.calls(),
        None => Seq::empty(),
    }
}

/// Whether two verified legs go through the same router, or both are absent.
pub open spec fn same_link<R: VerifiedRouter>(
    a: Option<ProxyLink<R>>,
    b: Option<ProxyLink<R>>,
) -> bool {
    match (a, b) {
        (Some(a), Some(b)) => a.inner() == b.inner(),
        (None, None) => true,
        _ => false,
    }
}

/// A call that is written down was made of the router just so: some question with this method, these
/// parameters and this budget was put to it, for this chain, and this is what it answered.
pub proof fn law_what_is_written_down_was_asked<R: VerifiedRouter>(
    router: R,
    call: RouterCall,
    link: ProxyLink<R>,
    other: ProxyLink<R>,
)
    ensures
        made(router, call) ==> exists|
            method: &str,
            params: &Json,
            budget: Duration,
            answer: Result<Json, String>,
        |
            {
                &&& #[trigger] call_ensures(
                    R::call,
                    (&router, call.chain_id, method, params, budget),
                    answer,
                )
                &&& method@ == call.method
                &&& params@ == call.params
                &&& budget@ == call.budget
                &&& answer matches Ok(v) ==> call.answer == Ok::<_, Seq<char>>(v@)
                &&& answer matches Err(e) ==> call.answer == Err::<JsonView, _>(e@)
            },
        asked(Some(link)) == link.calls(),
        asked(None::<ProxyLink<R>>) == Seq::<RouterCall>::empty(),
        same_link(Some(link), Some(other)) <==> link.inner() == other.inner(),
        !same_link(Some(link), None),
        !same_link(None, Some(link)),
        same_link(None::<ProxyLink<R>>, None),
{
}

} // verus!
