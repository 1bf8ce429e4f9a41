//! Clock arithmetic: wall-clock time, monotonic instants and their relation.

use vstd::prelude::*;

verus! {

/// `x`, or the bound of the 64-bit signed numbers that it lies beyond.
pub open spec fn saturated(x: int) -> int {
    if x > i64::MAX {
        i64::MAX as int
    } else if x < i64::MIN {
        i64::MIN as int
    } else {
        x
    }
}

fn saturate(x: i128) -> (r: i64)
    ensures
        r == saturated(x as int),
{
    if x > i64::MAX as i128 {
        i64::MAX
    } else if x < i64::MIN as i128 {
        i64::MIN
    } else {
        x as i64
    }
}

/// `a + b`, kept within 64 bits.
pub fn saturating_sum(a: i64, b: i64) -> (r: i64)
    ensures
        r == saturated(a + b),
{
    saturate(a as i128 + b as i128)
}

/// `a - b`, kept within 64 bits.
pub fn saturating_difference(a: i64, b: i64) -> (r: i64)
    ensures
        r == saturated(a - b),
{
    saturate(a as i128 - b as i128)
}

// ---------------------------------------------------------------------------
// Wall clock

#[verifier::external_type_specification]
#[verifier::external_body]
pub struct ExSystemTime(std::time::SystemTime);

/// Calls `std::time::SystemTime::now`. Nothing is claimed: the result is the time.
#[verifier::external_body]
fn system_now() -> (r: std::time::SystemTime) {
    std::time::SystemTime::now()
}

/// Calls `std::time::SystemTime::duration_since` with the Unix epoch; `None` is its
/// error, for a time before the epoch. Nothing is claimed of the duration.
#[verifier::external_body]
fn since_epoch(time: std::time::SystemTime) -> (r: Option<std::time::Duration>) {
    time.duration_since(std::time::UNIX_EPOCH).ok()
}

/// Calls `std::time::Duration::as_micros`. Nothing is claimed: the duration depends
/// on the time.
#[verifier::external_body]
fn whole_micros(duration: &std::time::Duration) -> (r: u128) {
    duration.as_micros()
}

/// The Unix time in microseconds for the microseconds since the epoch: their low 64
/// bits, or zero before the epoch.
pub open spec fn unix_micros_of(since_epoch: Option<u128>) -> i64 {
    match since_epoch {
        Some(micros) => micros as i64,
        None => 0,
    }
}

/// The Unix time in microseconds for the microseconds since the epoch.
pub fn unix_micros_from(since_epoch: Option<u128>) -> (r: i64)
    ensures
        r == unix_micros_of(since_epoch),
        since_epoch matches Some(micros) ==> micros <= i64::MAX ==> r == micros,
        since_epoch is None ==> r == 0,
{
    match since_epoch {
        Some(micros) => #[verifier::truncate] (micros as i64),
        None => 0,
    }
}

/// The current Unix time in microseconds; zero where the clock stands before the
/// epoch.
pub fn unix_time_micros() -> (r: i64)
    ensures
        exists|elapsed: Option<u128>| r == #[trigger] unix_micros_of(elapsed),
{
    let elapsed = match since_epoch(system_now()) {
        Some(duration) => Some(whole_micros(&duration)),
        None => None,
    };
    unix_micros_from(elapsed)
}

// ---------------------------------------------------------------------------
// Monotonic clock

/// A reading of the monotonic clock, in nanoseconds since the earliest instant that
/// it can express.
#[derive(Clone, Copy, Debug, PartialEq, Eq, Structural)]
pub struct MonotonicInstant {
    pub nanos: u64,
}

/// The reading `delta_us` microseconds after `base`, or before it where `delta_us` is
/// negative; `base` itself where the clock cannot express that instant.
pub open spec fn shifted(base: MonotonicInstant, delta_us: int) -> MonotonicInstant {
    if delta_us < 0 && base.nanos + delta_us * 1_000 < 0 {
        base
    } else {
        MonotonicInstant { nanos: (base.nanos + delta_us * 1_000) as u64 }
    }
}

/// Moves an instant by a number of microseconds.
pub fn shift_instant_by_micros(base: MonotonicInstant, delta_us: i64) -> (r: MonotonicInstant)
    requires
        base.nanos + delta_us * 1_000 <= u64::MAX,
        delta_us != i64::MIN,
    ensures
        r == shifted(base, delta_us as int),
{
    let target: i128 = base.nanos as i128 + delta_us as i128 * 1_000;
    if target < 0 {
        base
    } else {
        MonotonicInstant { nanos: target as u64 }
    }
}

/// A pair of readings of the two clocks, taken together.
#[derive(Clone, Copy, Debug, PartialEq, Eq, Structural)]
pub struct TimeAnchor {
    pub instant: MonotonicInstant,
    pub unix_micros: i64,
}

impl TimeAnchor {
    /// The Unix time at an instant: the anchor's, plus or minus the whole
    /// microseconds between the two instants.
    pub open spec fn unix_micros_at(self, instant: MonotonicInstant) -> int {
        if instant.nanos >= self.instant.nanos {
            saturated(self.unix_micros + (instant.nanos - self.instant.nanos) / 1_000)
        } else {
            saturated(self.unix_micros - (self.instant.nanos - instant.nanos) / 1_000)
        }
    }

    /// Pairs the monotonic reading `now` with a Unix time.
    pub fn at(now: MonotonicInstant, unix_micros: i64) -> (r: Self)
        ensures
            r.instant == now,
            r.unix_micros == unix_micros,
    {
        TimeAnchor { instant: now, unix_micros }
    }

    /// Pairs the monotonic reading `now` with the current Unix time.
    pub fn capture_now(now: MonotonicInstant) -> (r: Self)
        ensures
            r.instant == now,
    {
        TimeAnchor::at(now, unix_time_micros())
    }

    /// The Unix time in microseconds at an instant.
    pub fn instant_to_unix_micros(self, instant: MonotonicInstant) -> (r: i64)
        ensures
            r == self.unix_micros_at(instant),
    {
        if instant.nanos >= self.instant.nanos {
            let delta: u64 = (instant.nanos - self.instant.nanos) / 1_000;
            saturating_sum(self.unix_micros, delta as i64)
        } else {
            let delta: u64 = (self.instant.nanos - instant.nanos) / 1_000;
            saturating_difference(self.unix_micros, delta as i64)
        }
    }
}

/// Later instants never map to earlier Unix times.
pub proof fn law_unix_time_is_monotonic(
    anchor: TimeAnchor,
    earlier: MonotonicInstant,
    later: MonotonicInstant,
)
    requires
        earlier.nanos <= later.nanos,
    ensures
        anchor.unix_micros_at(earlier) <= anchor.unix_micros_at(later),
{
}

/// At its own instant an anchor gives its own Unix time.
pub proof fn law_anchor_maps_itself(anchor: TimeAnchor)
    ensures
        anchor.unix_micros_at(anchor.instant) == anchor.unix_micros,
{
}

/// Moving an instant forth and back again leads to where it started.
pub proof fn law_shift_can_be_undone(base: MonotonicInstant, delta_us: int)
    requires
        delta_us >= 0,
        base.nanos + delta_us * 1_000 <= u64::MAX,
    ensures
        shifted(shifted(base, delta_us), -delta_us) == base,
{
}

/// Moving an instant by so many microseconds moves it by a thousand times as many
/// nanoseconds, where the clock can express the result.
pub proof fn law_shift_counts_nanoseconds(base: MonotonicInstant, delta_us: int)
    requires
        0 <= base.nanos + delta_us * 1_000 <= u64::MAX,
    ensures
        shifted(base, delta_us).nanos == base.nanos + delta_us * 1_000,
{
}

/// Where an instant lies before all that the clock can express, it is not moved.
pub proof fn law_shift_out_of_range_stays(base: MonotonicInstant, delta_us: int)
    requires
        base.nanos + delta_us * 1_000 < 0,
    ensures
        shifted(base, delta_us) == base,
{
}

/// An anchor counts microseconds from its own instant in both directions: so many after
/// it are so many later in Unix time, and so many before it so many earlier.
pub proof fn law_anchor_counts_microseconds(anchor: TimeAnchor, delta_us: int)
    requires
        0 <= anchor.instant.nanos + delta_us * 1_000 <= u64::MAX,
        i64::MIN <= anchor.unix_micros + delta_us <= i64::MAX,
    ensures
        anchor.unix_micros_at(
            MonotonicInstant { nanos: (anchor.instant.nanos + delta_us * 1_000) as u64 },
        ) == anchor.unix_micros + delta_us,
{
}

/// Sums that do not fit stop at the nearest bound, and others are exact.
pub proof fn law_saturation_stops_at_the_bounds(x: int)
    ensures
        i64::MIN <= saturated(x) <= i64::MAX,
        i64::MIN <= x <= i64::MAX ==> saturated(x) == x,
        x > i64::MAX ==> saturated(x) == i64::MAX,
        x < i64::MIN ==> saturated(x) == i64::MIN,
{
}

/// Before the epoch the Unix time is zero, and after it the microseconds since.
pub proof fn law_unix_time_counts_from_the_epoch(micros: u128)
    requires
        micros <= i64::MAX,
    ensures
        unix_micros_of(Some(micros)) == micros,
        unix_micros_of(None) == 0,
{
}

/// However many microseconds have passed since the epoch, the Unix time is their low 64
/// bits.
pub proof fn law_unix_time_keeps_the_low_bits(micros: u128)
    ensures
        unix_micros_of(Some(micros)) as u64 == micros as u64,
{
    assert((micros as i64) as u64 == micros as u64) by (bit_vector);
}

} // verus!
