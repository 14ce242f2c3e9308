//! The fall detector: from what the accelerometer reported to "falling" or
//! "stable".
//!
//! A poll reads the status of the sensor and, only where that shows a fresh
//! sample, the sample. Each axis is converted from milli-g to whole g,
//! dropping the fraction. The board counts as falling when the sum of the
//! squares of the three axes, in g², exceeds a quarter, which spares a square
//! root. With whole numbers of g that is the case exactly when some axis
//! reaches 1 g. A poll that finds no fresh sample, or fails on the bus, counts
//! as "stable", and the next poll tries again.

use vstd::prelude::*;

verus! {

/// Milli-g in one g.
pub const MILLI_G_PER_G: i32 = 1000;

/// The threshold on the squared magnitude, as a fraction of g²: its
/// numerator.
pub const THRESHOLD_NUMERATOR: i64 = 1;

/// The threshold on the squared magnitude, as a fraction of g²: its
/// denominator.
pub const THRESHOLD_DENOMINATOR: i64 = 4;

/// Largest whole number of g that an axis can read: `i32::MAX` milli-g.
pub const MAX_WHOLE_G: i64 = 2_147_483;

/// Largest squared magnitude of a sample, in g².
pub const MAX_SQUARED_MAGNITUDE: i64 = 3 * MAX_WHOLE_G * MAX_WHOLE_G;

/// One acceleration sample: the three axes in milli-g.
#[derive(Clone, Copy, Debug, PartialEq, Eq)]
pub struct AccelerationSample {
    pub x_mg: i32,
    pub y_mg: i32,
    pub z_mg: i32,
}

/// What one poll of the sensor gave.
#[derive(Clone, Copy, Debug, PartialEq, Eq)]
pub enum SensorReading {
    /// The sensor holds no sample newer than the one read before.
    NoNewSample,
    /// The bus failed while the status or the sample was read.
    BusError,
    /// A fresh sample.
    Sample(AccelerationSample),
}

/// How a poll goes on once the status of the sensor has been read.
#[derive(Clone, Copy, Debug, PartialEq, Eq)]
pub enum PollStep {
    /// Read the sample that the sensor holds.
    ReadSample,
    /// Read nothing more: the poll ends with this reading.
    Conclude(SensorReading),
}

/// An axis in whole g: `mg / MILLI_G_PER_G`, rounded towards zero.
pub open spec fn whole_g(mg: int) -> int {
    if mg >= 0 {
        mg / (MILLI_G_PER_G as int)
    } else {
        -((-mg) / (MILLI_G_PER_G as int))
    }
}

/// Squared magnitude of a sample in g², each axis taken in whole g.
pub open spec fn squared_magnitude(sample: AccelerationSample) -> int {
    whole_g(sample.x_mg as int) * whole_g(sample.x_mg as int) + whole_g(sample.y_mg as int)
        * whole_g(sample.y_mg as int) + whole_g(sample.z_mg as int) * whole_g(
        sample.z_mg as int,
    )
}

/// Whether the squared magnitude of `sample` exceeds the threshold of
/// `THRESHOLD_NUMERATOR / THRESHOLD_DENOMINATOR` g².
pub open spec fn exceeds_threshold(sample: AccelerationSample) -> bool {
    THRESHOLD_NUMERATOR < THRESHOLD_DENOMINATOR * squared_magnitude(sample)
}

/// Whether some axis of `sample` reads 1 g or more, in either direction.
pub open spec fn reaches_one_g(sample: AccelerationSample) -> bool {
    ||| sample.x_mg <= -MILLI_G_PER_G || MILLI_G_PER_G <= sample.x_mg
    ||| sample.y_mg <= -MILLI_G_PER_G || MILLI_G_PER_G <= sample.y_mg
    ||| sample.z_mg <= -MILLI_G_PER_G || MILLI_G_PER_G <= sample.z_mg
}

/// The decision on one reading: falling only on a fresh sample whose squared
/// magnitude exceeds the threshold. Without a fresh sample, and after a bus
/// error, the board counts as stable.
pub open spec fn is_falling(reading: SensorReading) -> bool {
    match reading {
        SensorReading::Sample(sample) => exceeds_threshold(sample),
        SensorReading::NoNewSample => false,
        SensorReading::BusError => false,
    }
}

/// Decides how a poll goes on after the status read. `status` is `None`
/// where the bus failed, and otherwise says whether the sensor holds a sample
/// newer than the one read before. Only a fresh sample is read.
pub fn after_status(status: Option<bool>) -> (step: PollStep)
    ensures
        step == (match status {
            Some(true) => PollStep::ReadSample,
            Some(false) => PollStep::Conclude(SensorReading::NoNewSample),
            None => PollStep::Conclude(SensorReading::BusError),
        }),
{
    match status {
        Some(true) => PollStep::ReadSample,
        Some(false) => PollStep::Conclude(SensorReading::NoNewSample),
        None => PollStep::Conclude(SensorReading::BusError),
    }
}

/// Ends a poll with what the read of the sample gave: the sample, or `None`
/// where the bus failed.
pub fn after_sample(sample: Option<AccelerationSample>) -> (reading: SensorReading)
    ensures
        reading == (match sample {
            Some(fresh) => SensorReading::Sample(fresh),
            None => SensorReading::BusError,
        }),
{
    match sample {
        Some(fresh) => SensorReading::Sample(fresh),
        None => SensorReading::BusError,
    }
}

/// Converts one axis from milli-g to whole g, rounding towards zero.
pub fn axis_in_g(mg: i32) -> (g: i32)
    ensures
        g == whole_g(mg as int),
{
    mg / MILLI_G_PER_G
}

/// Computes the squared magnitude of `sample` in g².
pub fn squared_magnitude_of(sample: &AccelerationSample) -> (sum: i64)
    ensures
        sum == squared_magnitude(*sample),
        0 <= sum <= MAX_SQUARED_MAGNITUDE,
{
    let x: i64 = axis_in_g(sample.x_mg) as i64;
    let y: i64 = axis_in_g(sample.y_mg) as i64;
    let z: i64 = axis_in_g(sample.z_mg) as i64;
    proof {
        lemma_square_bounded(x as int);
        lemma_square_bounded(y as int);
        lemma_square_bounded(z as int);
    }
    x * x + y * y + z * z
}

/// The square of an axis in whole g stays below the square of `MAX_WHOLE_G`.
proof fn lemma_square_bounded(g: int)
    requires
        -MAX_WHOLE_G <= g <= MAX_WHOLE_G,
    ensures
        0 <= g * g <= MAX_WHOLE_G * MAX_WHOLE_G,
{
    assert(0 <= g * g <= MAX_WHOLE_G * MAX_WHOLE_G) by (nonlinear_arith)
        requires
            -MAX_WHOLE_G <= g <= MAX_WHOLE_G,
    ;
}

/// Says whether the board is falling, given what the latest poll of the
/// sensor returned.
pub fn board_is_falling(reading: &SensorReading) -> (falling: bool)
    ensures
        falling == is_falling(*reading),
        falling == (match *reading {
            SensorReading::Sample(sample) => reaches_one_g(sample),
            _ => false,
        }),
{
    match reading {
        SensorReading::Sample(sample) => {
            proof {
                lemma_threshold_is_one_g(*sample);
            }
            let sum = squared_magnitude_of(sample);
            THRESHOLD_NUMERATOR < THRESHOLD_DENOMINATOR * sum
        },
        SensorReading::NoNewSample => false,
        SensorReading::BusError => false,
    }
}

/// What the threshold amounts to. A sample exceeds it exactly when at least
/// one axis reads 1 g or more in either direction. A board at rest, with
/// gravity on one axis, is therefore reported as falling, and a board in free
/// fall, with every axis near 0 g, is not.
pub proof fn lemma_threshold_is_one_g(sample: AccelerationSample)
    ensures
        exceeds_threshold(sample) <==> reaches_one_g(sample),
{
    let x = whole_g(sample.x_mg as int);
    let y = whole_g(sample.y_mg as int);
    let z = whole_g(sample.z_mg as int);
    lemma_square_is_zero_or_positive(x);
    lemma_square_is_zero_or_positive(y);
    lemma_square_is_zero_or_positive(z);
}

/// The square of a whole number is 0 for 0 and at least 1 otherwise.
proof fn lemma_square_is_zero_or_positive(n: int)
    ensures
        n == 0 ==> n * n == 0,
        n != 0 ==> n * n >= 1,
{
    assert(n != 0 ==> n * n >= 1) by (nonlinear_arith);
}

/// Without a fresh sample the decision is "stable", whatever came before. So
/// a poll that finds no fresh sample, or fails on the bus, repeats the
/// decision of an earlier poll that was "stable".
pub proof fn lemma_no_sample_keeps_stable(previous: SensorReading, current: SensorReading)
    requires
        !(current is Sample),
        !is_falling(previous),
    ensures
        !is_falling(current),
        is_falling(current) == is_falling(previous),
{
}

} // verus!
