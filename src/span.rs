//! Lengths of time, held as whole seconds and a sub-second count of nanoseconds.
use vstd::prelude::*;

verus! {

/// Number of nanoseconds in one second.
pub const NANOS_PER_SEC: u32 = 1_000_000_000;

/// Number of nanoseconds in one millisecond.
pub const NANOS_PER_MILLI: u32 = 1_000_000;

/// A non-negative length of time: `secs` whole seconds plus `nanos` nanoseconds,
/// with `nanos` always below one second.
#[derive(Clone, Copy, Debug, PartialEq, Eq, Hash)]
pub struct Span {
    secs: u64,
    nanos: u32,
}

impl View for Span {
    type V = nat;

    /// The length in nanoseconds.
    closed spec fn view(&self) -> nat {
        (self.secs * NANOS_PER_SEC + self.nanos) as nat
    }
}

impl Span {
    #[verifier::type_invariant]
    spec fn well_formed(self) -> bool {
        self.nanos < NANOS_PER_SEC
    }

    /// Whole seconds of the span.
    pub closed spec fn spec_secs(self) -> nat {
        self.secs as nat
    }

    /// Nanoseconds beyond the whole seconds.
    pub closed spec fn spec_subsec_nanos(self) -> nat {
        self.nanos as nat
    }

    /// The span of `secs` seconds and `nanos` nanoseconds.
    pub fn new(secs: u64, nanos: u32) -> (r: Span)
        requires
            nanos < NANOS_PER_SEC,
        ensures
            r@ == secs * NANOS_PER_SEC + nanos,
            r.spec_secs() == secs,
            r.spec_subsec_nanos() == nanos,
    {
        Span { secs, nanos }
    }

    /// The empty span.
    pub fn zero() -> (r: Span)
        ensures
            r@ == 0,
    {
        Span { secs: 0, nanos: 0 }
    }

    /// The span of `secs` seconds.
    pub fn from_secs(secs: u64) -> (r: Span)
        ensures
            r@ == secs * NANOS_PER_SEC,
    {
        Span { secs, nanos: 0 }
    }

    /// The span of `millis` milliseconds.
    pub fn from_millis(millis: u64) -> (r: Span)
        ensures
            r@ == millis * NANOS_PER_MILLI,
    {
        let secs: u64 = millis / 1000;
        let rest: u64 = millis % 1000;
        let nanos: u32 = (rest as u32) * NANOS_PER_MILLI;
        assert(millis * 1_000_000 == secs * 1_000_000_000 + rest * 1_000_000) by (nonlinear_arith)
            requires
                secs == millis / 1000,
                rest == millis % 1000,
        ;
        Span { secs, nanos }
    }

    /// Whole seconds of the span.
    pub fn as_secs(&self) -> (r: u64)
        ensures
            r == self.spec_secs(),
    {
        self.secs
    }

    /// Nanoseconds beyond the whole seconds, always below one second.
    pub fn subsec_nanos(&self) -> (r: u32)
        ensures
            r == self.spec_subsec_nanos(),
            r < NANOS_PER_SEC,
            self@ == self.spec_secs() * NANOS_PER_SEC + r,
    {
        proof {
            use_type_invariant(self);
        }
        self.nanos
    }

    /// The whole length in nanoseconds.
    pub fn as_nanos(&self) -> (r: u128)
        ensures
            r == self@,
    {
        let secs: u128 = self.secs as u128;
        assert(secs * 1_000_000_000 <= 0xffff_ffff_ffff_ffffu128 * 1_000_000_000) by (nonlinear_arith)
            requires
                secs <= 0xffff_ffff_ffff_ffffu128,
        ;
        secs * (NANOS_PER_SEC as u128) + (self.nanos as u128)
    }

    /// Whether the span is empty.
    pub fn is_zero(&self) -> (r: bool)
        ensures
            r == (self@ == 0),
    {
        self.secs == 0 && self.nanos == 0
    }

    /// Whether this span is at least as long as `other`.
    pub fn covers(&self, other: &Span) -> (r: bool)
        ensures
            r == (self@ >= other@),
    {
        self.as_nanos() >= other.as_nanos()
    }
}

} // verus!
