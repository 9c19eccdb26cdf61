//! Spans of time.

use vstd::prelude::*;

verus! {

/// The longest span a [`Duration`] holds: `u64::MAX` seconds and
/// 999 999 999 nanoseconds.
pub const MAX_NANOS: u128 = 18446744073709551615999999999;

/// The nanoseconds in a second.
pub const NANOS_PER_SEC: u128 = 1_000_000_000;

/// The nanoseconds in a millisecond.
pub const NANOS_PER_MILLI: u128 = 1_000_000;

/// A span of time, counted in nanoseconds. Its view is that count.
#[derive(Debug, Clone, Copy, PartialEq, Eq, PartialOrd, Ord, Structural)]
pub struct Duration {
    nanos: u128,
}

impl View for Duration {
    type V = nat;

    closed spec fn view(&self) -> nat {
        self.nanos as nat
    }
}

impl Duration {
    #[verifier::type_invariant]
    spec fn within_range(self) -> bool {
        self.nanos <= MAX_NANOS
    }

    /// The empty span.
    pub fn zero() -> (d: Self)
        ensures
            d@ == 0,
    {
        Duration { nanos: 0 }
    }

    /// A span of `secs` whole seconds.
    pub fn from_secs(secs: u64) -> (d: Self)
        ensures
            d@ == secs * NANOS_PER_SEC,
    {
        Duration { nanos: secs as u128 * NANOS_PER_SEC }
    }

    /// A span of `millis` whole milliseconds.
    pub fn from_millis(millis: u64) -> (d: Self)
        ensures
            d@ == millis * NANOS_PER_MILLI,
    {
        Duration { nanos: millis as u128 * NANOS_PER_MILLI }
    }

    /// Whether the span is empty.
    pub fn is_zero(self) -> (empty: bool)
        ensures
            empty == (self@ == 0),
    {
        self.nanos == 0
    }

    /// The whole seconds in the span.
    pub fn as_secs(self) -> (secs: u64)
        ensures
            secs == self@ / (NANOS_PER_SEC as nat),
    {
        proof {
            use_type_invariant(self);
        }
        (self.nanos / NANOS_PER_SEC) as u64
    }

    /// The nanoseconds beyond the whole seconds.
    pub fn subsec_nanos(self) -> (nanos: u32)
        ensures
            nanos == self@ % (NANOS_PER_SEC as nat),
    {
        (self.nanos % NANOS_PER_SEC) as u32
    }

    /// The whole milliseconds in the span.
    pub fn as_millis(self) -> (millis: u128)
        ensures
            millis == self@ / (NANOS_PER_MILLI as nat),
    {
        self.nanos / NANOS_PER_MILLI
    }

    /// Twice the span, or the longest span when that is longer than any.
    pub fn saturating_double(self) -> (d: Self)
        ensures
            d@ == if 2 * self@ <= MAX_NANOS {
                2 * self@
            } else {
                MAX_NANOS as nat
            },
    {
        proof {
            use_type_invariant(self);
        }
        if self.nanos <= MAX_NANOS / 2 {
            Duration { nanos: self.nanos * 2 }
        } else {
            Duration { nanos: MAX_NANOS }
        }
    }

    /// The shorter of two spans.
    pub fn shorter(self, other: Self) -> (d: Self)
        ensures
            d == if self@ <= other@ {
                self
            } else {
                other
            },
            self@ <= MAX_NANOS && other@ <= MAX_NANOS,
    {
        proof {
            use_type_invariant(self);
            use_type_invariant(other);
        }
        if self.nanos <= other.nanos {
            self
        } else {
            other
        }
    }

    /// The longer of two spans.
    pub fn longer(self, other: Self) -> (d: Self)
        ensures
            d == if self@ >= other@ {
                self
            } else {
                other
            },
    {
        if self.nanos >= other.nanos {
            self
        } else {
            other
        }
    }
}

/// Spans of the same length are the same span.
pub proof fn same_length_same_span(a: Duration, b: Duration)
    ensures
        a@ == b@ <==> a == b,
{
}

/// The span's whole milliseconds, or `u64::MAX` when there are more.
pub fn ms(d: Duration) -> (millis: u64)
    ensures
        millis == if d@ / (NANOS_PER_MILLI as nat) <= u64::MAX {
            d@ / (NANOS_PER_MILLI as nat)
        } else {
            u64::MAX as nat
        },
{
    let whole: u128 = d.as_millis();
    if whole <= 18446744073709551615u128 {
        whole as u64
    } else {
        u64::MAX
    }
}

/// A second has a thousand milliseconds of a million nanoseconds each, and the
/// longest span is all seconds that 64 bits count and the nanoseconds up to the
/// next one.
pub proof fn units_of_time()
    ensures
        NANOS_PER_SEC == 1_000 * NANOS_PER_MILLI,
        NANOS_PER_MILLI == 1_000_000,
        MAX_NANOS == u64::MAX * 1_000_000_000 + 999_999_999,
{
}

}
