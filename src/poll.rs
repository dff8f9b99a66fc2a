//! One tick of the poller: the sensor's reading where it gave one, else a
//! simulated one most of the time, else unknown.

use vstd::prelude::*;
use crate::sensor::{fit_i64, parse_reading, sensor_value};
use crate::slot::AppState;

verus! {

/// Seconds between two ticks.
pub const POLL_SECONDS: u64 = 3;

/// The lowest simulated reading, in micro-degrees.
pub const SIMULATED_LOW: i64 = 15_000_000;

/// One past the highest simulated reading, in micro-degrees.
pub const SIMULATED_HIGH: i64 = 30_000_000;

/// The chance that a tick without a sensor reading simulates one is
/// `KEEP_NUMERATOR / KEEP_DENOMINATOR`.
pub const KEEP_NUMERATOR: u32 = 4;

/// See `KEEP_NUMERATOR`.
pub const KEEP_DENOMINATOR: u32 = 5;

/// What the sensor's lines give, where the file could be read at all.
pub open spec fn sensor_reading(lines: Option<Vec<String>>) -> Option<i64> {
    match lines {
        Some(l) => fit_i64(sensor_value(l@)),
        None => None,
    }
}

/// The reading of a tick: the sensor's where it gave one; else the
/// simulated value where the keep draw came out true; else unknown.
pub open spec fn tick_outcome(sensed: Option<i64>, keep: bool, simulated: i64) -> Option<i64> {
    match sensed {
        Some(v) => Some(v),
        None => if keep {
            Some(simulated)
        } else {
            None
        },
    }
}

/// A simulated value lies in `SIMULATED_LOW..SIMULATED_HIGH`.
pub open spec fn in_simulated_range(v: i64) -> bool {
    SIMULATED_LOW <= v < SIMULATED_HIGH
}

/// Relies on rand's `Rng::random_ratio` with the thread-local generator
/// (`rand::rng`): true with chance `numerator / denominator`, always when the
/// two are equal, never when the numerator is zero. It panics on a zero
/// denominator or a numerator above it.
#[verifier::external_body]
fn chance(numerator: u32, denominator: u32) -> (r: bool)
    requires
        0 < denominator,
        numerator <= denominator,
    ensures
        numerator == denominator ==> r,
        numerator == 0 ==> !r,
{
    rand::Rng::random_ratio(&mut rand::rng(), numerator, denominator)
}

/// Relies on rand's `Rng::random_range` with the thread-local generator: a
/// value in `low..high`. It panics on an empty range.
#[verifier::external_body]
fn uniform(low: i64, high: i64) -> (r: i64)
    requires
        low < high,
    ensures
        low <= r < high,
{
    rand::Rng::random_range(&mut rand::rng(), low..high)
}

/// The reading that the sensor's lines give (`None` for lines where the
/// file could not be opened).
pub fn sensed_reading(lines: &Option<Vec<String>>) -> (r: Option<i64>)
    ensures
        r == sensor_reading(*lines),
{
    match lines {
        Some(l) => parse_reading(l),
        None => None,
    }
}

/// The reading of a tick for the sensor's reading and the draws `keep` and
/// `simulated`.
pub fn settle(sensed: Option<i64>, keep: bool, simulated: i64) -> (r: Option<i64>)
    ensures
        r == tick_outcome(sensed, keep, simulated),
{
    match sensed {
        Some(v) => Some(v),
        None => if keep {
            Some(simulated)
        } else {
            None
        },
    }
}

/// The reading of one tick. Where the sensor gave none, it draws whether to
/// simulate one (chance 4 in 5) and, if so, a value uniform over
/// `SIMULATED_LOW..SIMULATED_HIGH`.
pub fn tick_reading(lines: &Option<Vec<String>>) -> (r: Option<i64>)
    ensures
        exists|keep: bool, simulated: i64|
            in_simulated_range(simulated) && r == #[trigger] tick_outcome(
                sensor_reading(*lines),
                keep,
                simulated,
            ),
{
    let sensed = sensed_reading(lines);
    if sensed.is_some() {
        let r = settle(sensed, false, SIMULATED_LOW);
        assert(in_simulated_range(SIMULATED_LOW) && r == tick_outcome(
            sensor_reading(*lines),
            false,
            SIMULATED_LOW,
        ));
        return r;
    }
    let keep = chance(KEEP_NUMERATOR, KEEP_DENOMINATOR);
    let simulated = if keep {
        uniform(SIMULATED_LOW, SIMULATED_HIGH)
    } else {
        SIMULATED_LOW
    };
    let r = settle(sensed, keep, simulated);
    assert(in_simulated_range(simulated) && r == tick_outcome(
        sensor_reading(*lines),
        keep,
        simulated,
    ));
    r
}

/// Runs one tick and publishes its reading in `state`, overwriting what was
/// there; returns the reading.
pub fn poll_once(state: &mut AppState, lines: &Option<Vec<String>>) -> (r: Option<i64>)
    ensures
        final(state)@ == r,
        exists|keep: bool, simulated: i64|
            in_simulated_range(simulated) && r == #[trigger] tick_outcome(
                sensor_reading(*lines),
                keep,
                simulated,
            ),
{
    let reading = tick_reading(lines);
    state.write(reading);
    reading
}

/// A tick publishes the sensor's reading where there is one, whatever the
/// draws; where there is none, a true keep draw publishes the simulated
/// value, which then lies in 15 to 30 degrees, and a false one publishes
/// unknown. What the state held before plays no part.
pub proof fn lemma_tick_outcome(sensed: Option<i64>, keep: bool, simulated: i64)
    requires
        in_simulated_range(simulated),
    ensures
        sensed is Some ==> tick_outcome(sensed, keep, simulated) == sensed,
        sensed is None && keep ==> tick_outcome(sensed, keep, simulated) == Some(simulated)
            && 15_000_000 <= simulated < 30_000_000,
        sensed is None && !keep ==> tick_outcome(sensed, keep, simulated) is None,
{
}

} // verus!
