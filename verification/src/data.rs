//! The validated reading type and the three-point outlier check.
//!
//! All measured quantities are fixed-point integers in thousandths of a
//! unit: temperature in milli-degrees Celsius, relative humidity in
//! milli-percent, absolute humidity in milli-grams per cubic metre.

use vstd::prelude::*;

verus! {

use crate::util::{abs_humidity_model, absolute_humidity};

/// Lowest temperature the library represents, in milli-degrees Celsius:
/// the bottom of the DHT22 sensor's measurement range.
pub const TEMP_MIN: i64 = -40_000;

/// Highest temperature the library represents, in milli-degrees Celsius:
/// the top of the DHT22 sensor's measurement range.
pub const TEMP_MAX: i64 = 80_000;

/// Lowest relative humidity, in milli-percent.
pub const REL_HUM_MIN: i64 = 0;

/// Highest relative humidity, in milli-percent.
pub const REL_HUM_MAX: i64 = 100_000;

/// Noise floor of the outlier check for temperature: 0.3 degrees Celsius.
pub const OUTLIER_DIFF_MIN_TEMP: i64 = 300;

/// Noise floor of the outlier check for relative humidity: 0.4 percent.
pub const OUTLIER_DIFF_MIN_HUMI: i64 = 400;

/// Bound on every value the outlier check accepts as an argument; wide
/// enough for any physical quantity this library carries, and small enough
/// that the window arithmetic cannot overflow an `i64`.
pub const VALUE_LIMIT: i64 = 1_000_000_000_000;

pub open spec fn temp_in_range(t: int) -> bool {
    TEMP_MIN <= t <= TEMP_MAX
}

pub open spec fn rel_hum_in_range(h: int) -> bool {
    REL_HUM_MIN <= h <= REL_HUM_MAX
}

/// One validated sensor observation.
#[derive(Clone, Copy, Debug, PartialEq, Eq, Structural)]
pub struct Data {
    /// Time of the measurement, in milliseconds since the Unix epoch.
    pub time: i64,
    /// Temperature in milli-degrees Celsius.
    pub temperature: i64,
    /// Relative humidity in milli-percent.
    pub rel_humidity: i64,
    /// Absolute humidity in milli-grams per cubic meter of air.
    pub abs_humidity: i64,
}

impl Data {
    /// A reading is well formed when its measured values lie in the
    /// sensor's range and its absolute humidity is exactly the derived
    /// value — never an independently chosen or stale number.
    pub open spec fn wf(self) -> bool {
        &&& temp_in_range(self.temperature as int)
        &&& rel_hum_in_range(self.rel_humidity as int)
        &&& self.abs_humidity == abs_humidity_model(
            self.temperature as int,
            self.rel_humidity as int,
        )
    }

    /// Builds a reading, deriving the absolute humidity from the
    /// temperature and the relative humidity.
    pub fn new(time: i64, temperature: i64, rel_humidity: i64) -> (d: Data)
        requires
            temp_in_range(temperature as int),
            rel_hum_in_range(rel_humidity as int),
        ensures
            d.time == time,
            d.temperature == temperature,
            d.rel_humidity == rel_humidity,
            d.abs_humidity == abs_humidity_model(temperature as int, rel_humidity as int),
            d.wf(),
    {
        Data {
            time,
            temperature,
            rel_humidity,
            abs_humidity: absolute_humidity(temperature, rel_humidity),
        }
    }
}

/// Law: the derived absolute humidity is a pure function of temperature
/// and relative humidity — two well-formed readings with the same measured
/// values carry the same derived value, whenever and however they were
/// built.
pub proof fn lemma_abs_humidity_deterministic(a: Data, b: Data)
    requires
        a.wf(),
        b.wf(),
        a.temperature == b.temperature,
        a.rel_humidity == b.rel_humidity,
    ensures
        a.abs_humidity == b.abs_humidity,
{
}

/// The acceptance rule of the three-point window: a candidate value is
/// accepted when it lies within the envelope of its two neighbours, widened
/// on both sides by the larger of the noise floor `min_diff` and the
/// neighbours' own spread.  Inclusive below, exclusive above.
pub open spec fn value_accepted(to_check: int, before: int, after: int, min_diff: int) -> bool {
    let high = if before >= after { before } else { after };
    let low = if before <= after { before } else { after };
    let diff = if min_diff >= high - low { min_diff } else { high - low };
    low - diff <= to_check < high + diff
}

/// Decides whether a candidate value lies inside the widened envelope of
/// the two neighbouring values.
pub fn value_is_valid(to_check: i64, before: i64, after: i64, min_diff: i64) -> (r: bool)
    requires
        -VALUE_LIMIT <= to_check <= VALUE_LIMIT,
        -VALUE_LIMIT <= before <= VALUE_LIMIT,
        -VALUE_LIMIT <= after <= VALUE_LIMIT,
        -VALUE_LIMIT <= min_diff <= VALUE_LIMIT,
    ensures
        r == value_accepted(to_check as int, before as int, after as int, min_diff as int),
{
    let high: i64 = if before >= after { before } else { after };
    let low: i64 = if before <= after { before } else { after };
    let diff: i64 = if min_diff >= high - low { min_diff } else { high - low };
    low - diff <= to_check && to_check < high + diff
}

/// Law of the window: for an ordered pair of neighbours the acceptance band
/// is exactly `[before - margin, after + margin)` with
/// `margin = max(min_diff, after - before)`.
pub proof fn lemma_window_acceptance(v: int, before: int, after: int, min_diff: int)
    requires
        before <= after,
    ensures
        value_accepted(v, before, after, min_diff) <==> {
            let margin = if min_diff >= after - before { min_diff } else { after - before };
            before - margin <= v < after + margin
        },
{
}

/// A reading is accepted by the window when both its temperature and its
/// relative humidity pass the per-field check against the same field of the
/// two neighbouring readings.
pub open spec fn reading_accepted(to_check: Data, before: Data, after: Data) -> bool {
    &&& value_accepted(
        to_check.temperature as int,
        before.temperature as int,
        after.temperature as int,
        OUTLIER_DIFF_MIN_TEMP as int,
    )
    &&& value_accepted(
        to_check.rel_humidity as int,
        before.rel_humidity as int,
        after.rel_humidity as int,
        OUTLIER_DIFF_MIN_HUMI as int,
    )
}

/// Decides whether `to_check` is consistent with its temporal neighbours:
/// the reading is an outlier if its temperature or its humidity is one.
pub fn reading_is_valid(to_check: &Data, before: &Data, after: &Data) -> (r: bool)
    requires
        temp_in_range(to_check.temperature as int),
        rel_hum_in_range(to_check.rel_humidity as int),
        temp_in_range(before.temperature as int),
        rel_hum_in_range(before.rel_humidity as int),
        temp_in_range(after.temperature as int),
        rel_hum_in_range(after.rel_humidity as int),
    ensures
        r == reading_accepted(*to_check, *before, *after),
{
    value_is_valid(
        to_check.temperature,
        before.temperature,
        after.temperature,
        OUTLIER_DIFF_MIN_TEMP,
    ) && value_is_valid(
        to_check.rel_humidity,
        before.rel_humidity,
        after.rel_humidity,
        OUTLIER_DIFF_MIN_HUMI,
    )
}

} // verus!
