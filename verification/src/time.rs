//! A span of time, counted in nanoseconds.
//!
//! The library measures request timeouts, keepalive intervals and reconnect backoff with this
//! type. It covers the same range as `core::time::Duration` (up to `u64::MAX` whole seconds plus
//! a fraction) and its arithmetic follows that type's documented rules: multiplication and
//! addition report overflow instead of wrapping, division truncates.

use vstd::prelude::*;

verus! {

/// Nanoseconds in one second.
pub const NANOS_PER_SEC: u128 = 1_000_000_000;

/// Nanoseconds in one millisecond.
pub const NANOS_PER_MILLI: u128 = 1_000_000;

/// The longest representable span: `u64::MAX` seconds plus 999,999,999 nanoseconds.
pub const MAX_NANOS: u128 = 18_446_744_073_709_551_615_999_999_999;

/// A non-negative span of time with nanosecond resolution.
#[derive(Debug, Clone, Copy, PartialEq, Eq, PartialOrd, Ord, Hash)]
pub struct Duration {
    nanos: u128,
}

impl Duration {
    #[verifier::type_invariant]
    spec fn in_range(self) -> bool {
        self.nanos <= MAX_NANOS
    }

    /// The span in nanoseconds.
    pub closed spec fn spec_nanos(self) -> nat {
        self.nanos as nat
    }

    /// The empty span, as a function.
    pub fn zero() -> (d: Duration)
        ensures
            d.spec_nanos() == 0,
    {
        Duration { nanos: 0 }
    }

    /// A span of `secs` whole seconds.
    pub fn from_secs(secs: u64) -> (d: Duration)
        ensures
            d.spec_nanos() == secs * NANOS_PER_SEC,
    {
        Duration { nanos: secs as u128 * NANOS_PER_SEC }
    }

    /// A span of `millis` milliseconds.
    pub fn from_millis(millis: u64) -> (d: Duration)
        ensures
            d.spec_nanos() == millis * NANOS_PER_MILLI,
    {
        Duration { nanos: millis as u128 * NANOS_PER_MILLI }
    }

    /// A span of `nanos` nanoseconds.
    pub fn from_nanos(nanos: u64) -> (d: Duration)
        ensures
            d.spec_nanos() == nanos,
    {
        Duration { nanos: nanos as u128 }
    }

    /// The whole number of seconds in the span.
    pub fn as_secs(&self) -> (s: u64)
        ensures
            s == self.spec_nanos() / (NANOS_PER_SEC as nat),
    {
        proof {
            use_type_invariant(self);
        }
        (self.nanos / NANOS_PER_SEC) as u64
    }

    /// The fractional part of the span, in nanoseconds.
    pub fn subsec_nanos(&self) -> (n: u32)
        ensures
            n == self.spec_nanos() % (NANOS_PER_SEC as nat),
            n < NANOS_PER_SEC,
    {
        (self.nanos % NANOS_PER_SEC) as u32
    }

    /// The whole number of milliseconds in the span.
    pub fn as_millis(&self) -> (m: u128)
        ensures
            m == self.spec_nanos() / (NANOS_PER_MILLI as nat),
    {
        self.nanos / NANOS_PER_MILLI
    }

    /// The span in nanoseconds.
    pub fn as_nanos(&self) -> (n: u128)
        ensures
            n == self.spec_nanos(),
            n <= MAX_NANOS,
    {
        proof {
            use_type_invariant(self);
        }
        self.nanos
    }

    /// Whether the span is empty.
    pub fn is_zero(&self) -> (b: bool)
        ensures
            b == (self.spec_nanos() == 0),
    {
        self.nanos == 0
    }

    /// `self * rhs`, or `None` when the product leaves the representable range.
    pub fn checked_mul(&self, rhs: u32) -> (r: Option<Duration>)
        ensures
            r is Some <==> self.spec_nanos() * rhs <= MAX_NANOS,
            r matches Some(d) ==> d.spec_nanos() == self.spec_nanos() * rhs,
    {
        proof {
            use_type_invariant(self);
        }
        let n = self.nanos;
        assert(n * (rhs as int) <= MAX_NANOS * 4_294_967_295) by (nonlinear_arith)
            requires
                n <= MAX_NANOS,
                rhs <= 4_294_967_295,
        ;
        let product = n * rhs as u128;
        if product <= MAX_NANOS {
            Some(Duration { nanos: product })
        } else {
            None
        }
    }

    /// `self + rhs`, or `None` when the sum leaves the representable range.
    pub fn checked_add(&self, rhs: Duration) -> (r: Option<Duration>)
        ensures
            r is Some <==> self.spec_nanos() + rhs.spec_nanos() <= MAX_NANOS,
            r matches Some(d) ==> d.spec_nanos() == self.spec_nanos() + rhs.spec_nanos(),
    {
        proof {
            use_type_invariant(self);
            use_type_invariant(&rhs);
        }
        let sum = self.nanos + rhs.nanos;
        if sum <= MAX_NANOS {
            Some(Duration { nanos: sum })
        } else {
            None
        }
    }

    /// `self / rhs`, truncated, or `None` when `rhs` is zero.
    pub fn checked_div(&self, rhs: u32) -> (r: Option<Duration>)
        ensures
            r is Some <==> rhs != 0,
            r matches Some(d) ==> d.spec_nanos() == self.spec_nanos() / (rhs as nat),
    {
        proof {
            use_type_invariant(self);
        }
        if rhs == 0 {
            None
        } else {
            let q = self.nanos / rhs as u128;
            assert(q <= self.nanos) by (nonlinear_arith)
                requires
                    q == self.nanos / (rhs as u128),
                    rhs >= 1,
            ;
            Some(Duration { nanos: q })
        }
    }

    /// Whether `self` is strictly shorter than `other`.
    pub fn is_shorter_than(&self, other: &Duration) -> (b: bool)
        ensures
            b == (self.spec_nanos() < other.spec_nanos()),
    {
        self.nanos < other.nanos
    }
}

} // verus!
