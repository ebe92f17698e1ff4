//! Conversion of raw counter ticks into the nanosecond timebase.
//!
//! The hardware counter runs freely at a fixed rate. A reading of it becomes
//! a [`Timestamp`] by scaling with that rate; the scaling divides before it
//! multiplies, so that long uptimes at multi-megahertz rates do not leave
//! the 64-bit range halfway through the computation.

use vstd::prelude::*;
use vstd::arithmetic::div_mod::{
    lemma_div_is_ordered, lemma_fundamental_div_mod, lemma_hoist_over_denominator,
};
use vstd::arithmetic::mul::lemma_mul_inequality;

verus! {

/// Nanoseconds since an arbitrary but fixed origin.
pub type Timestamp = u64;

/// Nanoseconds in one second.
pub const NANOS_PER_SECOND: u64 = 1_000_000_000;

/// The nanoseconds that `ticks` counter ticks last at `hz` ticks per second,
/// rounded down, in unbounded arithmetic.
pub open spec fn exact_nanoseconds(ticks: nat, hz: nat) -> nat {
    ticks * (NANOS_PER_SECOND as nat) / hz
}

/// The timestamp that stands for `ticks` counter ticks at `hz` ticks per
/// second: the exact value where a `Timestamp` can hold it, and the largest
/// timestamp where it cannot.
pub open spec fn nanoseconds_of(ticks: u64, hz: nat) -> Timestamp {
    if exact_nanoseconds(ticks as nat, hz) <= u64::MAX {
        exact_nanoseconds(ticks as nat, hz) as u64
    } else {
        u64::MAX
    }
}

/// The tick count that a signed native counter reading stands for: the same
/// 64 bits read as an unsigned number.
pub open spec fn counter_ticks(raw: i64) -> u64 {
    if raw >= 0 {
        raw as u64
    } else {
        (raw + 0x1_0000_0000_0000_0000) as u64
    }
}

/// The tick rate of the hardware counter, in ticks per second. Always
/// positive.
#[derive(Clone, Copy, Debug, PartialEq, Eq)]
pub struct CounterFrequency {
    ticks_per_second: u64,
}

impl CounterFrequency {
    #[verifier::type_invariant]
    spec fn positive(self) -> bool {
        self.ticks_per_second > 0
    }

    /// The tick rate as a number.
    pub closed spec fn hz(self) -> nat {
        self.ticks_per_second as nat
    }

    /// Accepts a tick rate unless it is zero.
    pub fn new(ticks_per_second: u64) -> (r: Option<CounterFrequency>)
        ensures
            r is Some <==> ticks_per_second > 0,
            r matches Some(f) ==> f.hz() == ticks_per_second,
    {
        if ticks_per_second == 0 {
            None
        } else {
            Some(CounterFrequency { ticks_per_second })
        }
    }

    /// Accepts the tick rate that the native frequency query reported, which
    /// is a signed number: zero and negative rates are refused.
    pub fn from_native(reported: i64) -> (r: Option<CounterFrequency>)
        ensures
            r is Some <==> reported > 0,
            r matches Some(f) ==> f.hz() == reported,
    {
        if reported <= 0 {
            None
        } else {
            Some(CounterFrequency { ticks_per_second: reported as u64 })
        }
    }

    /// The tick rate in ticks per second.
    pub fn ticks_per_second(&self) -> (r: u64)
        ensures
            r == self.hz(),
            r > 0,
    {
        proof {
            use_type_invariant(self);
        }
        self.ticks_per_second
    }
}

/// Scaling whole seconds and the remaining ticks separately loses nothing:
/// the two terms add up to the rounded-down value of `ticks * 10^9 / hz`.
pub proof fn lemma_split_scaling_is_exact(ticks: nat, hz: nat)
    requires
        hz > 0,
    ensures
        (ticks / hz) * (NANOS_PER_SECOND as nat) + (ticks % hz) * (NANOS_PER_SECOND as nat) / hz
            == exact_nanoseconds(ticks, hz),
        (ticks % hz) * (NANOS_PER_SECOND as nat) / hz < NANOS_PER_SECOND,
{
    let n = NANOS_PER_SECOND as int;
    let d = hz as int;
    let t = ticks as int;
    let q = t / d;
    let r = t % d;
    lemma_fundamental_div_mod(t, d);
    assert(t * n == r * n + (q * n) * d) by (nonlinear_arith)
        requires
            t == d * q + r,
    ;
    lemma_hoist_over_denominator(r * n, q * n, hz);
    assert((r * n) / d < n) by (nonlinear_arith)
        requires
            0 <= r < d,
            n > 0,
    ;
}

/// A later counter reading never converts to an earlier timestamp.
pub proof fn lemma_nanoseconds_monotonic(earlier: u64, later: u64, hz: nat)
    requires
        earlier <= later,
        hz > 0,
    ensures
        exact_nanoseconds(earlier as nat, hz) <= exact_nanoseconds(later as nat, hz),
        nanoseconds_of(earlier, hz) <= nanoseconds_of(later, hz),
{
    let n = NANOS_PER_SECOND as int;
    lemma_mul_inequality(earlier as int, later as int, n);
    lemma_div_is_ordered(earlier * n, later * n, hz as int);
}

/// Converts a raw counter reading to the nanosecond timebase.
///
/// Whole seconds and the ticks of the last, partial second are scaled
/// separately, both rounding down. The result is exact for every reading
/// whose value in nanoseconds a `Timestamp` can hold, and is the largest
/// timestamp for the others.
pub fn timestamp_from_qpc(qpc: u64, frequency: CounterFrequency) -> (r: Timestamp)
    ensures
        r == nanoseconds_of(qpc, frequency.hz()),
        exact_nanoseconds(qpc as nat, frequency.hz()) <= u64::MAX ==> r == exact_nanoseconds(
            qpc as nat,
            frequency.hz(),
        ),
{
    let hz = frequency.ticks_per_second();
    let seconds = qpc / hz;
    let rest = qpc % hz;
    proof {
        lemma_split_scaling_is_exact(qpc as nat, hz as nat);
        assert((rest as u128) * (NANOS_PER_SECOND as u128) <= u128::MAX) by (nonlinear_arith)
            requires
                rest <= u64::MAX,
                NANOS_PER_SECOND == 1_000_000_000,
        ;
    }
    // Above 18.4 GHz the product can exceed 64 bits, so it is formed in 128.
    // The quotient is below a billion.
    let scaled: u128 = (rest as u128) * (NANOS_PER_SECOND as u128) / (hz as u128);
    let part: u64 = scaled as u64;
    match seconds.checked_mul(NANOS_PER_SECOND) {
        Some(whole) => whole.saturating_add(part),
        None => u64::MAX,
    }
}

/// Converts a calibrated device timestamp, taken in the time domain of the
/// same hardware counter, to the nanosecond timebase.
pub fn timestamp_from_vulkan(calibration: u64, frequency: CounterFrequency) -> (r: u64)
    ensures
        r == nanoseconds_of(calibration, frequency.hz()),
{
    timestamp_from_qpc(calibration, frequency)
}

/// The current time, given the value that the native counter query has just
/// reported. The query reports a signed number; its 64 bits are the tick
/// count.
pub fn timestamp_now(counter: i64, frequency: CounterFrequency) -> (r: Timestamp)
    ensures
        r == nanoseconds_of(counter_ticks(counter), frequency.hz()),
{
    let ticks: u64 = if counter >= 0 {
        counter as u64
    } else {
        u64::MAX - ((-(counter + 1)) as u64)
    };
    timestamp_from_qpc(ticks, frequency)
}

} // verus!
