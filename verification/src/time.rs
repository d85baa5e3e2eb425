//! Simulation time acceleration.
//!
//! Simulated time is decoupled from wall-clock time: every wall-clock
//! nanosecond advances the simulation by the acceleration's multiplier.
//! The scaled span has to fit in a signed 64-bit count of nanoseconds, which
//! `TimeAcceleration::validate_for_duration` lets a mission check up front.

use vstd::prelude::*;
use crate::error::{HermesError, Result};

verus! {

/// `x` is representable as an `i64`.
pub open spec fn fits_i64(x: int) -> bool {
    i64::MIN <= x <= i64::MAX
}

/// A span of wall-clock time, held as its exact signed number of nanoseconds
/// (the `num_seconds() * 10^9 + subsec_nanos()` of a `chrono::Duration`).
#[derive(Debug, Clone, Copy, PartialEq, Eq)]
pub struct WallDuration {
    total_nanos: i128,
}

impl View for WallDuration {
    type V = int;

    /// The span in nanoseconds.
    closed spec fn view(&self) -> int {
        self.total_nanos as int
    }
}

impl WallDuration {
    /// The span of `total_nanos` nanoseconds.
    pub fn from_nanos(total_nanos: i128) -> (d: WallDuration)
        ensures
            d@ == total_nanos,
    {
        WallDuration { total_nanos }
    }

    /// The span in nanoseconds.
    pub fn total_nanos(&self) -> (n: i128)
        ensures
            n == self@,
    {
        self.total_nanos
    }

    /// Total number of nanoseconds in the span, or `None` when it does not
    /// fit in an `i64` (more than 2^63 ns in either direction).
    pub fn num_nanoseconds(&self) -> (n: Option<i64>)
        ensures
            n == (if fits_i64(self@) {
                Some(self@ as i64)
            } else {
                None
            }),
    {
        if i64::MIN as i128 <= self.total_nanos && self.total_nanos <= i64::MAX as i128 {
            Some(self.total_nanos as i64)
        } else {
            None
        }
    }
}

/// Time acceleration configuration.
#[derive(Debug, Clone, Copy)]
pub enum TimeAcceleration {
    /// Real-time (1:1)
    Realtime,
    /// Fast (100x)
    Fast,
    /// Ludicrous (10000x)
    Ludicrous,
    /// Custom multiplier
    Custom(u32),
}

/// The text of the configuration error for an acceleration `multiplier` that
/// overflows over a span of `max_nanos` nanoseconds, whose longest safe span
/// is `max_safe_nanos` nanoseconds.
pub uninterp spec fn acceleration_overflow_text(multiplier: i64, max_nanos: i64, max_safe_nanos: i64) -> Seq<char>;

/// Formats the configuration error for an acceleration that overflows.
///
/// Calls `format!` with `chrono::Duration::nanoseconds` for both spans.
/// Trusted: the text is the deterministic output of that `format!`, named
/// `acceleration_overflow_text`; nothing more is said of it.
#[verifier::external_body]
fn acceleration_overflow_message(multiplier: i64, max_nanos: i64, max_safe_nanos: i64) -> (msg: String)
    ensures
        msg@ == acceleration_overflow_text(multiplier, max_nanos, max_safe_nanos),
{
    format!(
        "Time acceleration {}x will overflow with duration {:?}. Maximum safe duration: {:?}",
        multiplier,
        chrono::Duration::nanoseconds(max_nanos),
        chrono::Duration::nanoseconds(max_safe_nanos),
    )
}

impl TimeAcceleration {
    /// How many simulated seconds pass per wall-clock second.
    pub open spec fn spec_multiplier(self) -> u32 {
        match self {
            TimeAcceleration::Realtime => 1,
            TimeAcceleration::Fast => 100,
            TimeAcceleration::Ludicrous => 10_000,
            TimeAcceleration::Custom(x) => x,
        }
    }

    /// Simulated nanoseconds for `wall_nanos` wall-clock nanoseconds, when
    /// both counts fit in an `i64`.
    pub open spec fn spec_simulated_nanos(self, wall_nanos: int) -> Option<i64> {
        let sim = wall_nanos * self.spec_multiplier();
        if fits_i64(wall_nanos) && fits_i64(sim) {
            Some(sim as i64)
        } else {
            None
        }
    }

    /// A span of `max_nanos` wall-clock nanoseconds can be simulated.
    pub open spec fn accepts(self, max_nanos: int) -> bool {
        self.spec_simulated_nanos(max_nanos) is Some
    }

    pub fn multiplier(&self) -> (m: u32)
        ensures
            m == self.spec_multiplier(),
            *self is Realtime ==> m == 1,
            *self is Fast ==> m == 100,
            *self is Ludicrous ==> m == 10_000,
            self matches TimeAcceleration::Custom(x) ==> m == x,
    {
        match self {
            TimeAcceleration::Realtime => 1,
            TimeAcceleration::Fast => 100,
            TimeAcceleration::Ludicrous => 10_000,
            TimeAcceleration::Custom(x) => *x,
        }
    }

    /// Simulated nanoseconds that pass during `wall` of wall-clock time, or
    /// `None` when the wall span or the scaled span does not fit in an `i64`.
    pub fn simulated_nanos(&self, wall: &WallDuration) -> (sim: Option<i64>)
        ensures
            sim == self.spec_simulated_nanos(wall@),
            sim is Some <==> fits_i64(wall@) && fits_i64(wall@ * rate_of(*self)),
            sim matches Some(n) ==> n == wall@ * rate_of(*self),
    {
        match wall.num_nanoseconds() {
            None => None,
            Some(wall_nanos) => {
                let multiplier = self.multiplier() as i64;
                wall_nanos.checked_mul(multiplier)
            },
        }
    }

    /// Validate that acceleration won't overflow for given duration.
    ///
    /// Call during initialization to verify simulation parameters are safe
    /// before starting the mission timeline.
    pub fn validate_for_duration(&self, max_duration: WallDuration) -> (r: Result<()>)
        ensures
            r is Ok <==> self.accepts(max_duration@),
            r is Ok <==> fits_i64(max_duration@) && fits_i64(max_duration@ * rate_of(*self)),
            !fits_i64(max_duration@) ==> (r matches Err(HermesError::Configuration(msg))
                && msg@ == "Duration exceeds representable range"@),
            fits_i64(max_duration@) && !self.accepts(max_duration@) ==> (r matches Err(
                HermesError::Configuration(msg),
            ) && msg@ == acceleration_overflow_text(
                self.spec_multiplier() as i64,
                max_duration@ as i64,
                (i64::MAX / (self.spec_multiplier() as i64)) as i64,
            )),
    {
        let max_nanos = match max_duration.num_nanoseconds() {
            Some(n) => n,
            None => {
                return Err(HermesError::Configuration(String::from_str("Duration exceeds representable range")));
            },
        };
        let multiplier = self.multiplier() as i64;
        match max_nanos.checked_mul(multiplier) {
            Some(_) => Ok(()),
            None => {
                // an overflowing product needs a multiplier of at least 2
                assert(multiplier > 0) by (nonlinear_arith)
                    requires
                        max_nanos * multiplier > i64::MAX || max_nanos * multiplier < i64::MIN,
                        multiplier >= 0,
                ;
                let max_safe_nanos = i64::MAX / multiplier;
                Err(HermesError::Configuration(acceleration_overflow_message(multiplier, max_nanos, max_safe_nanos)))
            },
        }
    }
}

/// The documented rate of each acceleration: simulated seconds per
/// wall-clock second.
pub open spec fn rate_of(accel: TimeAcceleration) -> int {
    match accel {
        TimeAcceleration::Realtime => 1,
        TimeAcceleration::Fast => 100,
        TimeAcceleration::Ludicrous => 10_000,
        TimeAcceleration::Custom(x) => x as int,
    }
}

/// Every acceleration runs at its documented rate; a custom acceleration
/// runs at exactly the multiplier it was given, however large.
pub proof fn lemma_multiplier_is_documented_rate(accel: TimeAcceleration, x: u32)
    ensures
        accel.spec_multiplier() == rate_of(accel),
        TimeAcceleration::Custom(x).spec_multiplier() == x,
        TimeAcceleration::Realtime.spec_multiplier() == 1,
        TimeAcceleration::Fast.spec_multiplier() == 100,
        TimeAcceleration::Ludicrous.spec_multiplier() == 10_000,
{
}

/// Validation accepts a span exactly when the span and its product with the
/// acceleration's rate both fit in an `i64`, for every acceleration,
/// custom ones included.
pub proof fn lemma_accepts_exactly_when_product_fits(accel: TimeAcceleration, max_nanos: int)
    ensures
        accel.accepts(max_nanos) <==> fits_i64(max_nanos) && fits_i64(max_nanos * rate_of(accel)),
        accel.spec_simulated_nanos(max_nanos) matches Some(n) ==> n == max_nanos * rate_of(accel),
{
}

/// A custom acceleration over a span rejects the span exactly when the
/// product with the given multiplier leaves the `i64` range.
pub proof fn lemma_custom_acceleration_checked(x: u32, max_nanos: int)
    requires
        fits_i64(max_nanos),
    ensures
        TimeAcceleration::Custom(x).accepts(max_nanos) <==> fits_i64(max_nanos * x),
{
}

/// A duration that passes validation is safe to advance by: every wall-clock
/// span from zero up to the validated one (on the same side of zero) scales
/// without overflow.
pub proof fn lemma_validated_duration_bounds_shorter_spans(accel: TimeAcceleration, max_nanos: int, wall_nanos: int)
    requires
        accel.accepts(max_nanos),
        0 <= wall_nanos <= max_nanos || max_nanos <= wall_nanos <= 0,
    ensures
        accel.accepts(wall_nanos),
{
    let m = accel.spec_multiplier() as int;
    assert(0 <= wall_nanos * m <= max_nanos * m || max_nanos * m <= wall_nanos * m <= 0) by (nonlinear_arith)
        requires
            0 <= wall_nanos <= max_nanos || max_nanos <= wall_nanos <= 0,
            m >= 0,
    ;
}

} // verus!
