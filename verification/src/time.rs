//! Monotonic time, as the plant supplies it.

use vstd::prelude::*;

verus! {

/// A length of time in nanoseconds.
#[derive(Clone, Copy, Debug, PartialEq, Eq, Structural)]
pub struct Span {
    pub nanos: u128,
}

impl Span {
    pub open spec fn zero_spec() -> Span {
        Span { nanos: 0 }
    }

    pub fn zero() -> (r: Span)
        ensures
            r == Self::zero_spec(),
    {
        Span { nanos: 0 }
    }

    pub fn from_nanos(nanos: u128) -> (r: Span)
        ensures
            r.nanos == nanos,
    {
        Span { nanos }
    }

    pub fn as_nanos(self) -> (r: u128)
        ensures
            r == self.nanos,
    {
        self.nanos
    }

    pub fn is_zero(self) -> (r: bool)
        ensures
            r == (self.nanos == 0),
    {
        self.nanos == 0
    }
}

/// A point in time: nanoseconds since the plant's own origin.
#[derive(Clone, Copy, Debug, PartialEq, Eq, Structural)]
pub struct Time {
    pub nanos: u64,
}

impl Time {
    pub fn zero() -> (r: Time)
        ensures
            r == (Time { nanos: 0 }),
    {
        Time { nanos: 0 }
    }

    /// `self + d`, held at the last representable point. Only the low 64 bits
    /// of the span's nanoseconds take part.
    pub open spec fn later_spec(self, d: Span) -> Time {
        let low = (d.nanos % 0x1_0000_0000_0000_0000) as int;
        if self.nanos + low > u64::MAX {
            Time { nanos: u64::MAX }
        } else {
            Time { nanos: (self.nanos + low) as u64 }
        }
    }

    /// The time from `earlier` to `self`, and zero where `earlier` is later.
    pub open spec fn since_spec(self, earlier: Time) -> Span {
        if self.nanos >= earlier.nanos {
            Span { nanos: (self.nanos - earlier.nanos) as u128 }
        } else {
            Span { nanos: 0 }
        }
    }

    pub fn from_nanos(nanos: u64) -> (r: Time)
        ensures
            r == (Time { nanos }),
    {
        Time { nanos }
    }

    pub fn as_nanos(self) -> (r: u64)
        ensures
            r == self.nanos,
    {
        self.nanos
    }

    pub fn since(self, earlier: Time) -> (r: Span)
        ensures
            r == self.since_spec(earlier),
    {
        Span { nanos: self.nanos.saturating_sub(earlier.nanos) as u128 }
    }

    /// The point `d` later.
    pub fn later(self, d: Span) -> (r: Time)
        ensures
            r == self.later_spec(d),
    {
        let low: u64 = (d.nanos % 0x1_0000_0000_0000_0000) as u64;
        Time { nanos: self.nanos.saturating_add(low) }
    }
}

impl Default for Time {
    fn default() -> (r: Time)
        ensures
            r == (Time { nanos: 0 }),
    {
        Time { nanos: 0 }
    }
}

impl Default for Span {
    fn default() -> (r: Span)
        ensures
            r == Span::zero_spec(),
    {
        Span { nanos: 0 }
    }
}

/// Elapsed time never runs backwards: of two points at least one direction
/// measures zero, and both do only for equal points.
pub proof fn elapsed_never_wraps(a: Time, b: Time)
    ensures
        a.since_spec(b).nanos == 0 || b.since_spec(a).nanos == 0,
        a.since_spec(b).nanos == 0 && b.since_spec(a).nanos == 0 <==> a == b,
{
}

/// Going forward by a span and measuring back gives the span, as long as the
/// end point can be represented.
pub proof fn later_then_since(t: Time, d: Span)
    requires
        t.nanos + d.nanos <= u64::MAX,
    ensures
        t.later_spec(d).since_spec(t) == d,
{
}

/// The time between two points is their difference, forward only.
pub proof fn elapsed_time_is_the_difference(earlier: Time, t: Time)
    ensures
        earlier.nanos <= t.nanos ==> earlier.nanos + t.since_spec(earlier).nanos == t.nanos,
        t.nanos <= earlier.nanos ==> t.since_spec(earlier) == Span::zero_spec(),
        Span::zero_spec().nanos == 0,
{
}

/// Going forward adds the span. Where that would run over the end of the clock
/// the point stays at the end.
pub proof fn later_adds_the_span(t: Time, d: Span)
    requires
        d.nanos <= u64::MAX,
    ensures
        t.nanos + d.nanos <= u64::MAX ==> t.later_spec(d).nanos == t.nanos + d.nanos,
        t.nanos + d.nanos > u64::MAX ==> t.later_spec(d).nanos == u64::MAX,
{
}

} // verus!
