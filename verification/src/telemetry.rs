//! The sensor samples of a point as a renderer shows them.

use vstd::prelude::*;
use crate::track::{Sensor, TrackPoint};

verus! {

/// Metres per hour for a speed in millimetres per second, rounded down.
pub open spec fn per_hour(mm_per_s: int) -> int {
    (mm_per_s * 18) / 5
}

/// The speed of a sample in metres per hour, if it has one.
pub open spec fn speed_per_hour(speed: Option<u32>) -> Option<u64> {
    match speed {
        Some(v) => Some(per_hour(v as int) as u64),
        None => None,
    }
}

/// The samples of a point: heart rate in beats per minute, cadence per
/// minute, and speed in metres per hour (thousandths of km/h).
pub fn extract_telemetry_from_waypoint(point: &TrackPoint) -> (samples: (
    Option<u32>,
    Option<u32>,
    Option<u64>,
))
    ensures
        samples.0 == point.sensor.heart_rate,
        samples.1 == point.sensor.cadence,
        samples.2 == speed_per_hour(point.sensor.instant_speed),
{
    let speed = match point.sensor.instant_speed {
        Some(v) => Some((v as u64) * 18 / 5),
        None => None,
    };
    (point.sensor.heart_rate, point.sensor.cadence, speed)
}

/// The last value known at or before position `k`.
pub open spec fn last_known(values: Seq<Option<u32>>, k: int) -> Option<u32>
    decreases k + 1,
{
    if k < 0 || k >= values.len() {
        None
    } else {
        match values[k] {
            Some(v) => Some(v),
            None => last_known(values, k - 1),
        }
    }
}

/// The heart rates of a list of samples.
pub open spec fn heart_rates(samples: Seq<Sensor>) -> Seq<Option<u32>> {
    Seq::new(samples.len(), |i: int| samples[i].heart_rate)
}

/// The cadences of a list of samples.
pub open spec fn cadences(samples: Seq<Sensor>) -> Seq<Option<u32>> {
    Seq::new(samples.len(), |i: int| samples[i].cadence)
}

/// The speeds of a list of samples.
pub open spec fn speeds(samples: Seq<Sensor>) -> Seq<Option<u32>> {
    Seq::new(samples.len(), |i: int| samples[i].instant_speed)
}

/// The samples at position `k` with every gap filled by the last value
/// known before it.
pub open spec fn carried(samples: Seq<Sensor>, k: int) -> Sensor {
    Sensor {
        heart_rate: last_known(heart_rates(samples), k),
        cadence: last_known(cadences(samples), k),
        instant_speed: last_known(speeds(samples), k),
    }
}

fn later(now: Option<u32>, before: Option<u32>) -> (r: Option<u32>)
    ensures
        r == match now {
            Some(v) => Some(v),
            None => before,
        },
{
    match now {
        Some(v) => Some(v),
        None => before,
    }
}

/// The policy of a display that shows the last sample known: each sample
/// missing is replaced by the last one before it, if there is one. The
/// track itself is never filled this way.
pub fn carry_forward(samples: &Vec<Sensor>) -> (shown: Vec<Sensor>)
    ensures
        shown@ == Seq::new(samples@.len(), |k: int| carried(samples@, k)),
{
    let mut shown: Vec<Sensor> = Vec::new();
    let mut last = Sensor::none();
    let mut k: usize = 0;
    while k < samples.len()
        invariant
            k <= samples.len(),
            last == carried(samples@, k as int - 1),
            shown@ =~= Seq::new(k as nat, |i: int| carried(samples@, i)),
        decreases samples.len() - k,
    {
        let here = samples[k];
        last = Sensor {
            heart_rate: later(here.heart_rate, last.heart_rate),
            cadence: later(here.cadence, last.cadence),
            instant_speed: later(here.instant_speed, last.instant_speed),
        };
        shown.push(last);
        k += 1;
    }
    shown
}

/// The speed that a display shows, in metres per hour: that of the sensor
/// where it is preferred and present, else the one derived from the track,
/// else zero.
pub fn display_speed(prefer_sensor: bool, sensor: Option<u64>, derived: Option<u64>) -> (shown: u64)
    ensures
        shown == if prefer_sensor && sensor is Some {
            sensor.unwrap()
        } else if derived is Some {
            derived.unwrap()
        } else {
            0
        },
{
    match (prefer_sensor, sensor) {
        (true, Some(v)) => v,
        _ => match derived {
            Some(v) => v,
            None => 0,
        },
    }
}

} // verus!
