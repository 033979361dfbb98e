//! Time values shared by every part of the player.
//!
//! A [`Duration`] counts nanoseconds and saturates at [`DURATION_MAX_NANOS`], the largest value
//! that whole `u64` seconds plus a sub-second part can express. An [`Instant`] is a reading of a
//! monotonic clock that the caller supplies.
use core::cmp::Ordering;
use vstd::std_specs::cmp::PartialOrdSpec;
use vstd::prelude::*;

verus! {

/// Largest number of nanoseconds a [`Duration`] holds: `u64::MAX` seconds and 999 999 999 ns.
pub const DURATION_MAX_NANOS: u128 = 18_446_744_073_709_551_615_999_999_999;

/// Nanoseconds in one second.
pub const NANOS_PER_SECOND: u128 = 1_000_000_000;

/// The smaller of `nanos` and the largest duration.
pub open spec fn saturated(nanos: int) -> int {
    if nanos > DURATION_MAX_NANOS {
        DURATION_MAX_NANOS as int
    } else {
        nanos
    }
}

/// A non-negative span of time with nanosecond resolution.
#[derive(Debug, Clone, Copy, PartialEq, Eq, Structural, Ord, Hash)]
pub struct Duration {
    nanos: u128,
}

impl View for Duration {
    type V = int;

    /// The number of nanoseconds.
    closed spec fn view(&self) -> int {
        self.nanos as int
    }
}

impl Duration {
    #[verifier::type_invariant]
    pub closed spec fn in_range(self) -> bool {
        self.nanos <= DURATION_MAX_NANOS
    }

    /// The range every duration lies in.
    pub open spec fn wf(self) -> bool {
        0 <= self@ <= DURATION_MAX_NANOS
    }

    /// The empty span.
    pub fn zero() -> (r: Self)
        ensures
            r@ == 0,
    {
        Duration { nanos: 0 }
    }

    /// The longest span.
    pub fn max_value() -> (r: Self)
        ensures
            r@ == DURATION_MAX_NANOS,
    {
        Duration { nanos: DURATION_MAX_NANOS }
    }

    /// A span of `nanos` nanoseconds.
    pub fn from_nanos(nanos: u64) -> (r: Self)
        ensures
            r@ == nanos,
    {
        Duration { nanos: nanos as u128 }
    }

    /// A span of `micros` microseconds.
    pub fn from_micros(micros: u64) -> (r: Self)
        ensures
            r@ == micros * 1_000,
    {
        Duration { nanos: micros as u128 * 1_000 }
    }

    /// A span of `millis` milliseconds.
    pub fn from_millis(millis: u64) -> (r: Self)
        ensures
            r@ == millis * 1_000_000,
    {
        Duration { nanos: millis as u128 * 1_000_000 }
    }

    /// A span of `secs` seconds.
    pub fn from_secs(secs: u64) -> (r: Self)
        ensures
            r@ == secs * 1_000_000_000,
    {
        Duration { nanos: secs as u128 * 1_000_000_000 }
    }

    /// A span of `nanos` nanoseconds, or the longest span where that many do not fit.
    pub fn from_nanos_saturating(nanos: u128) -> (r: Self)
        ensures
            r@ == saturated(nanos as int),
    {
        if nanos >= DURATION_MAX_NANOS {
            Duration::max_value()
        } else {
            Duration { nanos }
        }
    }

    /// The number of nanoseconds.
    pub fn as_nanos(&self) -> (r: u128)
        ensures
            r == self@,
            r <= DURATION_MAX_NANOS,
    {
        proof {
            use_type_invariant(self);
        }
        self.nanos
    }

    /// The number of whole microseconds.
    pub fn as_micros(&self) -> (r: u128)
        ensures
            r == self@ / 1_000,
    {
        self.nanos / 1_000
    }

    /// The number of whole milliseconds.
    pub fn as_millis(&self) -> (r: u128)
        ensures
            r == self@ / 1_000_000,
    {
        self.nanos / 1_000_000
    }

    /// Whether the span is empty.
    pub fn is_zero(&self) -> (r: bool)
        ensures
            r == (self@ == 0),
    {
        self.nanos == 0
    }

    /// The sum, or the longest span where the sum does not fit.
    pub fn saturating_add(self, other: Self) -> (r: Self)
        ensures
            r@ == saturated(self@ + other@),
    {
        proof {
            use_type_invariant(&self);
            use_type_invariant(&other);
        }
        Self::from_nanos_saturating(self.nanos + other.nanos)
    }

    /// The sum, where it fits.
    pub fn checked_add(self, other: Self) -> (r: Option<Self>)
        ensures
            r is Some <==> self@ + other@ <= DURATION_MAX_NANOS,
            r matches Some(sum) ==> sum@ == self@ + other@,
    {
        proof {
            use_type_invariant(&self);
            use_type_invariant(&other);
        }
        let sum: u128 = self.nanos + other.nanos;
        if sum <= DURATION_MAX_NANOS {
            Some(Duration { nanos: sum })
        } else {
            None
        }
    }

    /// The difference, or the empty span where `other` is longer.
    pub fn saturating_sub(self, other: Self) -> (r: Self)
        ensures
            r@ == if self@ > other@ {
                self@ - other@
            } else {
                0
            },
    {
        proof {
            use_type_invariant(&self);
        }
        if self.nanos > other.nanos {
            Duration { nanos: self.nanos - other.nanos }
        } else {
            Duration { nanos: 0 }
        }
    }

    /// The difference, where it is not negative.
    pub fn checked_sub(self, other: Self) -> (r: Option<Self>)
        ensures
            r is Some <==> self@ >= other@,
            r matches Some(difference) ==> difference@ == self@ - other@,
    {
        proof {
            use_type_invariant(&self);
        }
        if self.nanos >= other.nanos {
            Some(Duration { nanos: self.nanos - other.nanos })
        } else {
            None
        }
    }

    /// The longer of two spans.
    pub fn max(self, other: Self) -> (r: Self)
        ensures
            r == if other@ >= self@ {
                other
            } else {
                self
            },
    {
        if other.nanos >= self.nanos {
            other
        } else {
            self
        }
    }

    /// The shorter of two spans.
    pub fn min(self, other: Self) -> (r: Self)
        ensures
            r == if other@ < self@ {
                other
            } else {
                self
            },
    {
        if other.nanos < self.nanos {
            other
        } else {
            self
        }
    }
}

impl Default for Duration {
    fn default() -> (r: Self)
        ensures
            r@ == 0,
    {
        Duration::zero()
    }
}

impl PartialOrd for Duration {
    fn partial_cmp(&self, other: &Self) -> (r: Option<Ordering>) {
        if self.nanos < other.nanos {
            Some(Ordering::Less)
        } else if self.nanos > other.nanos {
            Some(Ordering::Greater)
        } else {
            Some(Ordering::Equal)
        }
    }
}

impl vstd::std_specs::cmp::PartialOrdSpecImpl for Duration {
    open spec fn obeys_partial_cmp_spec() -> bool {
        true
    }

    open spec fn partial_cmp_spec(&self, other: &Self) -> Option<Ordering> {
        if self@ < other@ {
            Some(Ordering::Less)
        } else if self@ > other@ {
            Some(Ordering::Greater)
        } else {
            Some(Ordering::Equal)
        }
    }
}

/// A reading of a monotonic clock: the time since an origin that the caller has chosen once for
/// all its readings.
#[derive(Debug, Clone, Copy, PartialEq, Eq, Structural, Hash)]
pub struct Instant {
    /// Time since the origin.
    pub since_origin: Duration,
}

impl View for Instant {
    type V = int;

    /// Nanoseconds since the origin.
    open spec fn view(&self) -> int {
        self.since_origin@
    }
}

impl Instant {
    /// The reading at a time after the origin.
    pub fn at(since_origin: Duration) -> (r: Self)
        ensures
            r.since_origin == since_origin,
    {
        Instant { since_origin }
    }

    /// The reading after a while, or the last one that there is.
    pub fn after(self, delay: Duration) -> (r: Self)
        ensures
            r@ == saturated(self@ + delay@),
    {
        Instant { since_origin: self.since_origin.saturating_add(delay) }
    }

    /// The time since an earlier reading, or nothing where that is not earlier.
    pub fn saturating_duration_since(self, earlier: Self) -> (r: Duration)
        ensures
            r@ == if self@ > earlier@ {
                self@ - earlier@
            } else {
                0
            },
    {
        self.since_origin.saturating_sub(earlier.since_origin)
    }
}

/// The duration with the given number of nanoseconds.
pub closed spec fn duration(nanos: int) -> Duration {
    Duration { nanos: nanos as u128 }
}

/// A duration is determined by its number of nanoseconds.
pub broadcast proof fn lemma_duration_of_nanos(nanos: int)
    requires
        0 <= nanos <= DURATION_MAX_NANOS,
    ensures
        (#[trigger] duration(nanos))@ == nanos,
{
}

/// Every duration that exists lies in the range of durations.
pub broadcast proof fn lemma_duration_in_range(a: Duration)
    requires
        #[trigger] a.in_range(),
    ensures
        a.wf(),
{
}

/// Two durations with the same number of nanoseconds are the same duration.
pub broadcast proof fn lemma_duration_ext(a: Duration, b: Duration)
    ensures
        #[trigger] a@ == #[trigger] b@ ==> a == b,
{
}

/// No duration is negative.
pub broadcast proof fn lemma_duration_is_not_negative(a: Duration)
    ensures
        #[trigger] a@ >= 0,
{
}

/// Spans compare as their numbers of nanoseconds do.
pub proof fn law_spans_compare_as_their_numbers(a: Duration, b: Duration)
    ensures
        (a == b) <==> (a@ == b@),
        (a.partial_cmp_spec(&b) == Some(Ordering::Less)) <==> (a@ < b@),
        (a.partial_cmp_spec(&b) == Some(Ordering::Equal)) <==> (a@ == b@),
        (a.partial_cmp_spec(&b) == Some(Ordering::Greater)) <==> (a@ > b@),
{
}

/// A span made of seconds, milliseconds or microseconds tells them again, and a longer unit is a
/// thousand of the next shorter one.
pub proof fn law_units_of_time(
    count: u64,
    of_secs: Duration,
    of_millis: Duration,
    of_micros: Duration,
    of_nanos: Duration,
    nanos_of_secs: u128,
    nanos_of_nanos: u128,
    millis: u128,
    micros: u128,
)
    requires
        call_ensures(Duration::from_secs, (count,), of_secs),
        call_ensures(Duration::from_millis, (count,), of_millis),
        call_ensures(Duration::from_micros, (count,), of_micros),
        call_ensures(Duration::from_nanos, (count,), of_nanos),
        call_ensures(Duration::as_nanos, (&of_secs,), nanos_of_secs),
        call_ensures(Duration::as_nanos, (&of_nanos,), nanos_of_nanos),
        call_ensures(Duration::as_millis, (&of_millis,), millis),
        call_ensures(Duration::as_micros, (&of_micros,), micros),
    ensures
        nanos_of_nanos == count,
        micros == count,
        millis == count,
        nanos_of_secs == count * 1_000_000_000,
        of_micros@ == of_nanos@ * 1_000,
        of_millis@ == of_micros@ * 1_000,
        of_secs@ == of_millis@ * 1_000,
{
}

/// Sums and differences of spans are those of their numbers, where they are spans; otherwise the
/// checked ones are nothing, and the others stop at the longest and at the empty span.
pub proof fn law_spans_add_and_subtract(
    a: Duration,
    b: Duration,
    sum: Duration,
    checked_sum: Option<Duration>,
    difference: Duration,
    checked_difference: Option<Duration>,
    longer: Duration,
    shorter: Duration,
)
    requires
        call_ensures(Duration::saturating_add, (a, b), sum),
        call_ensures(Duration::checked_add, (a, b), checked_sum),
        call_ensures(Duration::saturating_sub, (a, b), difference),
        call_ensures(Duration::checked_sub, (a, b), checked_difference),
        call_ensures(Duration::max, (a, b), longer),
        call_ensures(Duration::min, (a, b), shorter),
    ensures
        a@ + b@ <= 18_446_744_073_709_551_615_999_999_999 ==> sum@ == a@ + b@ && checked_sum == Some(
            sum,
        ),
        a@ + b@ > 18_446_744_073_709_551_615_999_999_999 ==> sum@ == 18_446_744_073_709_551_615_999_999_999
            && checked_sum is None,
        a@ >= b@ ==> difference@ == a@ - b@ && checked_difference == Some(difference),
        a@ < b@ ==> difference@ == 0 && checked_difference is None,
        longer@ >= a@ && longer@ >= b@ && (longer == a || longer == b),
        shorter@ <= a@ && shorter@ <= b@ && (shorter == a || shorter == b),
        longer@ + shorter@ == a@ + b@,
{
}

/// A reading after a while is later by it, and the time between the two is the while, where there
/// is such a reading.
pub proof fn law_readings_lie_apart_by_the_while(
    now: Instant,
    delay: Duration,
    later: Instant,
    since: Duration,
    back: Duration,
)
    requires
        now@ + delay@ <= 18_446_744_073_709_551_615_999_999_999,
        call_ensures(Instant::after, (now, delay), later),
        call_ensures(Instant::saturating_duration_since, (later, now), since),
        call_ensures(Instant::saturating_duration_since, (now, later), back),
    ensures
        later@ == now@ + delay@,
        since@ == delay@,
        back@ == 0,
{
    lemma_duration_is_not_negative(delay);
}

} // verus!
