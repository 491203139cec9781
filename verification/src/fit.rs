//! The records of a FIT file as points of a track.

use vstd::prelude::*;
use vstd::arithmetic::div_mod::*;
use crate::summary::FitExtraData;
use crate::track::{GeoPoint, Sensor, TrackPoint};

verus! {

/// The Unix time, in seconds, at which the clock of FIT files starts: the
/// last day of 1989, at midnight UTC.
pub const FIT_EPOCH_SECS: i64 = 631_065_600;

/// Semicircles in half a turn.
pub const SEMICIRCLES: i64 = 0x8000_0000;

/// The least number of bytes that a FIT file with a header has.
pub const FIT_HEADER_BYTES: usize = 12;

/// A track read from a FIT file, with what else the file tells.
pub struct FitProcessResult {
    pub track: Vec<TrackPoint>,
    pub extra_data: FitExtraData,
}

/// An angle in 1e-7 degrees for an angle in semicircles, rounded towards
/// zero.
pub open spec fn e7_of_semicircles(raw: int) -> int {
    if raw >= 0 {
        (raw * 1_800_000_000) / (SEMICIRCLES as int)
    } else {
        -((-raw * 1_800_000_000) / (SEMICIRCLES as int))
    }
}

/// An angle in 1e-7 degrees for an angle in semicircles.
pub fn semicircles_to_e7(raw: i32) -> (angle: i64)
    ensures
        angle == e7_of_semicircles(raw as int),
        -1_800_000_000 <= angle <= 1_800_000_000,
{
    let back: i64 = if raw >= 0 {
        raw as i64
    } else {
        -(raw as i64)
    };
    let scaled: i64 = back * 1_800_000_000;
    let q: i64 = scaled / SEMICIRCLES;
    proof {
        lemma_div_is_ordered(
            scaled as int,
            (SEMICIRCLES as int) * 1_800_000_000,
            SEMICIRCLES as int,
        );
        lemma_div_multiples_vanish(1_800_000_000, SEMICIRCLES as int);
        lemma_div_pos_is_pos(scaled as int, SEMICIRCLES as int);
    }
    if raw >= 0 {
        q
    } else {
        -q
    }
}

/// A height in millimetres for the height as a FIT record holds it: fifths
/// of a metre above 500 m below the reference.
pub fn fit_altitude_mm(raw: u16) -> (height: i64)
    ensures
        height == raw * 200 - 500_000,
{
    (raw as i64) * 200 - 500_000
}

/// The instant in milliseconds since the Unix epoch for an instant in
/// seconds of the clock of FIT files.
pub fn fit_timestamp_to_utc(fit_timestamp: u32) -> (instant: i64)
    ensures
        instant == (FIT_EPOCH_SECS + fit_timestamp) * 1000,
{
    (FIT_EPOCH_SECS + fit_timestamp as i64) * 1000
}

/// The point of a record, for the values that a record may hold.
pub open spec fn record_point(
    lat: i32,
    lon: i32,
    altitude: Option<u16>,
    timestamp: Option<u32>,
    sensor: Sensor,
) -> TrackPoint {
    TrackPoint {
        position: GeoPoint {
            lat_e7: e7_of_semicircles(lat as int) as i64,
            lon_e7: e7_of_semicircles(lon as int) as i64,
        },
        elevation: match altitude {
            Some(a) => Some((a * 200 - 500_000) as i64),
            None => None,
        },
        timestamp: match timestamp {
            Some(t) => Some(((FIT_EPOCH_SECS + t) * 1000) as i64),
            None => None,
        },
        sensor,
    }
}

/// The point of a record that has a position. None where the latitude
/// lies beyond a pole.
pub fn fit_record_point(
    lat: i32,
    lon: i32,
    altitude: Option<u16>,
    timestamp: Option<u32>,
    sensor: Sensor,
) -> (point: Option<TrackPoint>)
    ensures
        point == (if record_point(lat, lon, altitude, timestamp, sensor).wf() {
            Some(record_point(lat, lon, altitude, timestamp, sensor))
        } else {
            None
        }),
{
    let p = TrackPoint {
        position: GeoPoint { lat_e7: semicircles_to_e7(lat), lon_e7: semicircles_to_e7(lon) },
        elevation: match altitude {
            Some(a) => Some(fit_altitude_mm(a)),
            None => None,
        },
        timestamp: match timestamp {
            Some(t) => Some(fit_timestamp_to_utc(t)),
            None => None,
        },
        sensor,
    };
    if p.is_wf() {
        Some(p)
    } else {
        None
    }
}

/// What is made of a FIT file without reading its records: a track of one
/// point at the origin where the file is longer than a header, else an
/// empty track; the sport is unknown.
pub fn read_and_process_fit(bytes: &[u8]) -> (result: FitProcessResult)
    ensures
        result.extra_data.sport is Some,
        result.extra_data.sport.unwrap()@ == "Unknown"@,
        result.extra_data.device_name is None,
        result.extra_data.manufacturer is None,
        result.extra_data.total_time_ms == 0,
        result.extra_data.total_distance_mm == 0,
        result.extra_data.total_calories == 0,
        result.extra_data.max_speed == 0,
        result.extra_data.heart_rates@.len() == 0,
        result.extra_data.cadences@.len() == 0,
        result.extra_data.speeds@.len() == 0,
        result.extra_data.powers@.len() == 0,
        bytes.len() > FIT_HEADER_BYTES ==> result.track@ == seq![
            TrackPoint {
                position: GeoPoint { lat_e7: 0, lon_e7: 0 },
                elevation: None,
                timestamp: None,
                sensor: Sensor::absent(),
            },
        ],
        bytes.len() <= FIT_HEADER_BYTES ==> result.track@.len() == 0,
{
    let mut track: Vec<TrackPoint> = Vec::new();
    if bytes.len() > FIT_HEADER_BYTES {
        track.push(
            TrackPoint {
                position: GeoPoint { lat_e7: 0, lon_e7: 0 },
                elevation: None,
                timestamp: None,
                sensor: Sensor::none(),
            },
        );
    }
    let extra_data = FitExtraData {
        sport: Some("Unknown".to_owned()),
        device_name: None,
        manufacturer: None,
        total_time_ms: 0,
        total_distance_mm: 0,
        total_calories: 0,
        max_speed: 0,
        heart_rates: Vec::new(),
        cadences: Vec::new(),
        speeds: Vec::new(),
        powers: Vec::new(),
    };
    FitProcessResult { track, extra_data }
}

} // verus!
