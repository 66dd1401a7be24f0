//! Plain-valued time: spans of time and moments on a clock, both counted in
//! nanoseconds, and the clocks that a [`Timer`](crate::Timer) reads.
use vstd::prelude::*;

verus! {

/// Nanoseconds in one second.
pub const NANOS_PER_SEC: u128 = 1_000_000_000;

/// Nanoseconds in one millisecond.
pub const NANOS_PER_MILLI: u128 = 1_000_000;

/// `a - b`, or zero where `b` exceeds `a`.
pub open spec fn saturating_diff(a: int, b: int) -> nat {
    if a >= b {
        (a - b) as nat
    } else {
        0
    }
}

/// A length of time, counted in nanoseconds.
#[derive(Clone, Copy, PartialEq, Eq, Structural, Debug, PartialOrd, Ord, Hash)]
pub struct Span {
    pub nanos: u128,
}

impl Span {
    /// The span of `nanos` nanoseconds.
    pub fn from_nanos(nanos: u128) -> (s: Span)
        ensures
            s.nanos == nanos,
    {
        Span { nanos }
    }

    /// The span of `millis` milliseconds.
    pub fn from_millis(millis: u64) -> (s: Span)
        ensures
            s.nanos == millis * NANOS_PER_MILLI,
    {
        assert(millis * NANOS_PER_MILLI <= u64::MAX * NANOS_PER_MILLI) by (nonlinear_arith);
        Span { nanos: millis as u128 * NANOS_PER_MILLI }
    }

    /// The span of `secs` seconds.
    pub fn from_secs(secs: u64) -> (s: Span)
        ensures
            s.nanos == secs * NANOS_PER_SEC,
    {
        assert(secs * NANOS_PER_SEC <= u64::MAX * NANOS_PER_SEC) by (nonlinear_arith);
        Span { nanos: secs as u128 * NANOS_PER_SEC }
    }

    /// The span of `mins` minutes.
    pub fn from_mins(mins: u32) -> (s: Span)
        ensures
            s.nanos == mins * 60 * NANOS_PER_SEC,
    {
        assert(mins * 60 * NANOS_PER_SEC <= u32::MAX * 60 * NANOS_PER_SEC) by (nonlinear_arith);
        Span { nanos: mins as u128 * 60 * NANOS_PER_SEC }
    }

    /// Whether this span is empty.
    pub fn is_zero(&self) -> (b: bool)
        ensures
            b == (self.nanos == 0),
    {
        self.nanos == 0
    }

    /// `self - other`, or the empty span where `other` is the longer one.
    pub fn saturating_sub(&self, other: Span) -> (s: Span)
        ensures
            s.nanos == saturating_diff(self.nanos as int, other.nanos as int),
    {
        if self.nanos >= other.nanos {
            Span { nanos: self.nanos - other.nanos }
        } else {
            Span { nanos: 0 }
        }
    }

    /// The whole seconds in this span.
    pub fn as_secs(&self) -> (secs: u128)
        ensures
            secs == self.nanos / NANOS_PER_SEC,
    {
        self.nanos / NANOS_PER_SEC
    }

    /// The nanoseconds past the last whole second.
    pub fn subsec_nanos(&self) -> (n: u32)
        ensures
            n == self.nanos % NANOS_PER_SEC,
    {
        (self.nanos % NANOS_PER_SEC) as u32
    }
}

/// A reading of a clock: nanoseconds since that clock's origin.
#[derive(Clone, Copy, PartialEq, Eq, Structural, Debug, PartialOrd, Ord, Hash)]
pub struct Moment {
    pub nanos: u128,
}

impl Moment {
    /// The moment `nanos` nanoseconds after the clock's origin.
    pub fn from_nanos(nanos: u128) -> (m: Moment)
        ensures
            m.nanos == nanos,
    {
        Moment { nanos }
    }

    /// The time from `earlier` to `self`, or the empty span where `earlier`
    /// is in fact later.
    pub fn duration_since(&self, earlier: Moment) -> (s: Span)
        ensures
            s.nanos == saturating_diff(self.nanos as int, earlier.nanos as int),
    {
        if self.nanos >= earlier.nanos {
            Span { nanos: self.nanos - earlier.nanos }
        } else {
            Span { nanos: 0 }
        }
    }
}

/// A source of the current moment. Each call may give any moment the clock
/// can show; `gives` says which those are, and a reading that the library
/// acts on is always one that a call returned.
pub trait Clock {
    /// Whether `m` is a moment that this clock can return; a clock that
    /// does not say may return any moment.
    open spec fn gives(&self, m: Moment) -> bool {
        true
    }

    fn now(&self) -> (m: Moment)
        ensures
            self.gives(m),
    ;
}

#[verifier::external_type_specification]
#[verifier::external_body]
pub struct ExInstant(std::time::Instant);

/// `std::time::Instant::now`: the current moment of the operating system's
/// monotonic clock. Nothing is stated of the value.
#[verifier::external_body]
fn instant_now() -> std::time::Instant {
    std::time::Instant::now()
}

/// `std::time::Instant::elapsed`: the time since `origin` by the monotonic
/// clock. Nothing is stated of the value, which depends on when the call is
/// made.
#[verifier::external_body]
fn elapsed_since(origin: &std::time::Instant) -> std::time::Duration {
    origin.elapsed()
}

/// `std::time::Duration::as_nanos`: the whole nanoseconds of `d`. The
/// duration is opaque here, so nothing is stated of the number.
#[verifier::external_body]
fn duration_nanos(d: std::time::Duration) -> u128 {
    d.as_nanos()
}

/// The operating system's monotonic clock, counted from the moment the
/// clock was made.
pub struct SystemClock {
    origin: std::time::Instant,
}

impl SystemClock {
    /// A clock whose origin is the present moment.
    pub fn new() -> SystemClock {
        SystemClock { origin: instant_now() }
    }
}

impl Clock for SystemClock {
    fn now(&self) -> (m: Moment) {
        let elapsed = elapsed_since(&self.origin);
        Moment { nanos: duration_nanos(elapsed) }
    }
}

} // verus!
