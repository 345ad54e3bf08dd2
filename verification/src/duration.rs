//! Spans of time.
use vstd::prelude::*;

verus! {

/// The nanoseconds of a second.
pub const NANOS_PER_SEC: u32 = 1_000_000_000;

/// A span of time, in whole seconds and the nanoseconds over.
#[derive(Debug, Clone, Copy, PartialEq, Eq, Structural)]
pub struct Duration {
    secs: u64,
    nanos: u32,
}

impl Duration {
    #[verifier::type_invariant]
    closed spec fn inv(self) -> bool {
        self.nanos < NANOS_PER_SEC
    }

    /// The length of the span in nanoseconds.
    pub closed spec fn view(&self) -> nat {
        (self.secs * 1_000_000_000 + self.nanos) as nat
    }

    /// The longest span that there is, in nanoseconds.
    pub open spec fn longest() -> nat {
        (u64::MAX * 1_000_000_000 + 999_999_999) as nat
    }

    /// A span of whole seconds.
    pub fn from_secs(secs: u64) -> (r: Duration)
        ensures
            r@ == secs * 1_000_000_000,
    {
        Duration { secs, nanos: 0 }
    }

    /// A span of seconds, and nanoseconds over.
    pub fn new(secs: u64, nanos: u32) -> (r: Duration)
        requires
            secs + nanos / NANOS_PER_SEC <= u64::MAX,
        ensures
            r@ == secs * 1_000_000_000 + nanos,
    {
        let carry: u32 = nanos / NANOS_PER_SEC;
        Duration { secs: secs + carry as u64, nanos: nanos % NANOS_PER_SEC }
    }

    /// The whole seconds of the span.
    pub fn as_secs(&self) -> (r: u64)
        ensures
            r == self@ / 1_000_000_000,
    {
        proof {
            use_type_invariant(self);
        }
        self.secs
    }

    /// The nanoseconds over the whole seconds of the span.
    pub fn subsec_nanos(&self) -> (r: u32)
        ensures
            r == self@ % 1_000_000_000,
    {
        proof {
            use_type_invariant(self);
        }
        self.nanos
    }

    /// A span of whole milliseconds.
    pub fn from_millis(millis: u64) -> (r: Duration)
        ensures
            r@ == millis * 1_000_000,
    {
        Duration { secs: millis / 1000, nanos: ((millis % 1000) * 1_000_000) as u32 }
    }

    /// The whole milliseconds of the span.
    pub fn as_millis(&self) -> (r: u128)
        ensures
            r == self@ / 1_000_000,
    {
        proof {
            use_type_invariant(self);
            let s = self.secs as int;
            let n = self.nanos as int;
            assert((s * 1_000_000_000 + n) / 1_000_000 == s * 1000 + n / 1_000_000)
                by (nonlinear_arith);
        }
        self.secs as u128 * 1000 + (self.nanos / 1_000_000) as u128
    }

    /// Whether this span is shorter than another.
    pub fn shorter_than(&self, other: &Duration) -> (r: bool)
        ensures
            r == (self@ < other@),
    {
        proof {
            use_type_invariant(self);
            use_type_invariant(other);
        }
        self.secs < other.secs || (self.secs == other.secs && self.nanos < other.nanos)
    }

    /// The span that is left of this one when another, no longer one, is taken away.
    pub fn minus(&self, other: &Duration) -> (r: Duration)
        requires
            other@ <= self@,
        ensures
            r@ == self@ - other@,
    {
        proof {
            use_type_invariant(self);
            use_type_invariant(other);
        }
        if self.nanos >= other.nanos {
            Duration { secs: self.secs - other.secs, nanos: self.nanos - other.nanos }
        } else {
            Duration {
                secs: self.secs - other.secs - 1,
                nanos: self.nanos + NANOS_PER_SEC - other.nanos,
            }
        }
    }

    /// This span `factor` times, or the longest span where that is too long.
    pub fn saturating_mul(&self, factor: u32) -> (r: Duration)
        ensures
            r@ == if self@ * factor <= Self::longest() {
                self@ * factor
            } else {
                Self::longest() as int
            },
    {
        proof {
            use_type_invariant(self);
            let s = self.secs as int;
            let n = self.nanos as int;
            let f = factor as int;
            assert((s * 1_000_000_000 + n) * f == s * f * 1_000_000_000 + n * f) by (nonlinear_arith);
            assert(0 <= s * f <= 0xffff_ffff_ffff_ffff * 0xffff_ffff) by (nonlinear_arith)
                requires
                    0 <= s <= 0xffff_ffff_ffff_ffff,
                    0 <= f <= 0xffff_ffff,
            ;
            assert(0 <= n * f <= 999_999_999 * 0xffff_ffff) by (nonlinear_arith)
                requires
                    0 <= n <= 999_999_999,
                    0 <= f <= 0xffff_ffff,
            ;
        }
        let part: u128 = self.nanos as u128 * factor as u128;
        let whole: u128 = self.secs as u128 * factor as u128 + part / 1_000_000_000;
        if whole <= 0xffff_ffff_ffff_ffff {
            Duration { secs: whole as u64, nanos: (part % 1_000_000_000) as u32 }
        } else {
            Duration { secs: 0xffff_ffff_ffff_ffff, nanos: 999_999_999 }
        }
    }
}

} // verus!
