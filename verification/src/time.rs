//! Spans of time and points in time, counted in nanoseconds.
use vstd::prelude::*;

verus! {

/// A span of time.
#[derive(Clone, Copy, Debug, PartialEq, Eq, PartialOrd, Ord, Structural)]
pub struct Duration {
    nanos: u128,
}

/// A point in time, as the span since a start that every point shares.
#[derive(Clone, Copy, Debug, PartialEq, Eq, PartialOrd, Ord, Structural)]
pub struct Instant {
    nanos: u128,
}

impl View for Duration {
    type V = nat;

    closed spec fn view(&self) -> nat {
        self.nanos as nat
    }
}

impl View for Instant {
    type V = nat;

    closed spec fn view(&self) -> nat {
        self.nanos as nat
    }
}

/// The nanoseconds of `ms` milliseconds.
pub open spec fn millis(ms: int) -> nat {
    (ms * 1_000_000) as nat
}

/// The nanoseconds of `secs` seconds.
pub open spec fn seconds(secs: int) -> nat {
    (secs * 1_000_000_000) as nat
}

/// The shorter of two spans.
pub open spec fn shorter(a: nat, b: nat) -> nat {
    if b < a {
        b
    } else {
        a
    }
}

/// What is left of `a` once `b` is taken off; nothing where `b` is longer.
pub open spec fn less_by(a: nat, b: nat) -> nat {
    if b < a {
        (a - b) as nat
    } else {
        0
    }
}

impl Duration {
    pub fn from_nanos(nanos: u128) -> (r: Duration)
        ensures
            r@ == nanos,
    {
        Duration { nanos }
    }

    pub fn from_millis(ms: u64) -> (r: Duration)
        ensures
            r@ == millis(ms as int),
    {
        Duration { nanos: ms as u128 * 1_000_000 }
    }

    pub fn from_secs(secs: u64) -> (r: Duration)
        ensures
            r@ == seconds(secs as int),
    {
        Duration { nanos: secs as u128 * 1_000_000_000 }
    }

    pub fn as_nanos(self) -> (r: u128)
        ensures
            r == self@,
    {
        self.nanos
    }

    /// The whole milliseconds.
    pub fn as_millis(self) -> (r: u128)
        ensures
            r == self@ / 1_000_000,
    {
        self.nanos / 1_000_000
    }

    /// Whether this span is shorter than `other`.
    pub fn is_below(self, other: Duration) -> (r: bool)
        ensures
            r == (self@ < other@),
    {
        self.nanos < other.nanos
    }

    /// The shorter of the two.
    pub fn min(self, other: Duration) -> (r: Duration)
        ensures
            r@ == shorter(self@, other@),
    {
        if other.nanos < self.nanos {
            other
        } else {
            self
        }
    }

    /// What is left once `other` is taken off; nothing where `other` is longer.
    pub fn saturating_sub(self, other: Duration) -> (r: Duration)
        ensures
            r@ == less_by(self@, other@),
    {
        Duration { nanos: self.nanos.saturating_sub(other.nanos) }
    }
}

impl Instant {
    /// The point `span` after the start.
    pub fn since_start(span: Duration) -> (r: Instant)
        ensures
            r@ == span@,
    {
        Instant { nanos: span.nanos }
    }

    /// The span from `earlier` to this point; nothing where `earlier` is later.
    pub fn saturating_duration_since(self, earlier: Instant) -> (r: Duration)
        ensures
            r@ == less_by(self@, earlier@),
    {
        Duration { nanos: self.nanos.saturating_sub(earlier.nanos) }
    }
}

/// A second is a thousand milliseconds, and a millisecond a million nanoseconds.
pub proof fn law_spans_are_counted_in_nanoseconds(n: nat)
    ensures
        millis(n as int) == n * 1_000_000,
        seconds(n as int) == n * 1_000_000_000,
        seconds(n as int) == millis(n as int * 1_000),
{
}

/// The shorter of two spans is one of them and no longer than the other.
pub proof fn law_the_shorter_is_one_of_the_two(a: nat, b: nat)
    ensures
        shorter(a, b) <= a,
        shorter(a, b) <= b,
        shorter(a, b) == a || shorter(a, b) == b,
{
}

/// What is taken off and what is left make up the whole, and nothing is left where all is taken.
pub proof fn law_what_is_left_makes_up_the_whole(a: nat, b: nat)
    ensures
        b <= a ==> less_by(a, b) + b == a,
        b >= a ==> less_by(a, b) == 0,
{
}

/// Spans are made, compared and taken off one another as they are stated.
pub proof fn law_spans_are_reckoned_as_stated(
    n: u64,
    a: Duration,
    b: Duration,
    r: Duration,
    now: Instant,
    earlier: Instant,
    nanos: u128,
    yes: bool,
)
    ensures
        call_ensures(Duration::from_millis, (n,), r) ==> r@ == n * 1_000_000,
        call_ensures(Duration::from_secs, (n,), r) ==> r@ == n * 1_000_000_000,
        call_ensures(Duration::from_nanos, (nanos,), r) ==> r@ == nanos,
        call_ensures(Duration::as_nanos, (a,), nanos) ==> nanos == a@,
        call_ensures(Duration::as_millis, (a,), nanos) ==> nanos == a@ / 1_000_000,
        call_ensures(Duration::is_below, (a, b), yes) ==> (yes <==> a@ < b@),
        call_ensures(Duration::min, (a, b), r) ==> r@ == shorter(a@, b@),
        call_ensures(Duration::saturating_sub, (a, b), r) ==> r@ == less_by(a@, b@),
        call_ensures(Instant::since_start, (a,), now) ==> now@ == a@,
        call_ensures(Instant::saturating_duration_since, (now, earlier), r) ==> r@ == less_by(
            now@,
            earlier@,
        ),
{
}

} // verus!
