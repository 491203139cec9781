//! The recorded track: positions, heights, instants and sensor samples.

use vstd::prelude::*;

verus! {

/// The largest magnitude, in milliseconds since the Unix epoch, that an
/// instant of a well-formed point may have.
pub const INSTANT_LIMIT_MS: i64 = 1_000_000_000_000_000_000;

/// A position in degrees scaled by 1e7 (WGS84).
#[derive(Clone, Copy, Debug, PartialEq, Eq, Structural)]
pub struct GeoPoint {
    pub lat_e7: i64,
    pub lon_e7: i64,
}

/// The samples that a device may record beside the position.
#[derive(Clone, Copy, Debug, PartialEq, Eq, Structural)]
pub struct Sensor {
    /// Beats per minute.
    pub heart_rate: Option<u32>,
    /// Revolutions or steps per minute.
    pub cadence: Option<u32>,
    /// Millimetres per second.
    pub instant_speed: Option<u32>,
}

/// One sample of a track.
#[derive(Clone, Copy, Debug, PartialEq, Eq, Structural)]
pub struct TrackPoint {
    pub position: GeoPoint,
    /// Millimetres above the reference surface.
    pub elevation: Option<i64>,
    /// Milliseconds since the Unix epoch (UTC).
    pub timestamp: Option<i64>,
    pub sensor: Sensor,
}

/// The largest magnitude, in millimetres, that the height of a well-formed
/// point may have.
pub const ELEVATION_LIMIT_MM: i64 = 10_000_000_000;

/// Whether a height lies within the limit.
pub open spec fn elevation_ok(e: int) -> bool {
    -ELEVATION_LIMIT_MM <= e <= ELEVATION_LIMIT_MM
}

/// The largest magnitude of a latitude, in 1e-7 degrees.
pub const LATITUDE_LIMIT_E7: i64 = 900_000_000;

/// The largest magnitude of a longitude, in 1e-7 degrees.
pub const LONGITUDE_LIMIT_E7: i64 = 1_800_000_000;

/// Whether an instant lies within the limit.
pub open spec fn instant_ok(t: int) -> bool {
    -INSTANT_LIMIT_MS <= t <= INSTANT_LIMIT_MS
}

impl GeoPoint {
    /// A position is well formed when it names a place on the globe.
    pub open spec fn wf(&self) -> bool {
        &&& -LATITUDE_LIMIT_E7 <= self.lat_e7 <= LATITUDE_LIMIT_E7
        &&& -LONGITUDE_LIMIT_E7 <= self.lon_e7 <= LONGITUDE_LIMIT_E7
    }

    /// Whether the position is well formed.
    pub fn is_wf(&self) -> (ok: bool)
        ensures
            ok == self.wf(),
    {
        -LATITUDE_LIMIT_E7 <= self.lat_e7 && self.lat_e7 <= LATITUDE_LIMIT_E7
            && -LONGITUDE_LIMIT_E7 <= self.lon_e7 && self.lon_e7 <= LONGITUDE_LIMIT_E7
    }
}

impl Sensor {
    /// No sample at all.
    pub open spec fn absent() -> Sensor {
        Sensor { heart_rate: None, cadence: None, instant_speed: None }
    }

    /// No sample at all.
    pub fn none() -> (s: Sensor)
        ensures
            s == Sensor::absent(),
    {
        Sensor { heart_rate: None, cadence: None, instant_speed: None }
    }
}

impl TrackPoint {
    /// A point is well formed when its position is, and its instant and its
    /// height, where it has them, lie within their limits.
    pub open spec fn wf(&self) -> bool {
        &&& self.position.wf()
        &&& match self.timestamp {
            Some(t) => instant_ok(t as int),
            None => true,
        }
        &&& match self.elevation {
            Some(e) => elevation_ok(e as int),
            None => true,
        }
    }

    /// Whether the point is well formed.
    pub fn is_wf(&self) -> (ok: bool)
        ensures
            ok == self.wf(),
    {
        let instant = match self.timestamp {
            Some(t) => -INSTANT_LIMIT_MS <= t && t <= INSTANT_LIMIT_MS,
            None => true,
        };
        let height = match self.elevation {
            Some(e) => -ELEVATION_LIMIT_MM <= e && e <= ELEVATION_LIMIT_MM,
            None => true,
        };
        self.position.is_wf() && instant && height
    }

    /// A point without sensor samples; `None` when the position, the instant
    /// or the height is out of range.
    pub fn new(
        lat_e7: i64,
        lon_e7: i64,
        elevation: Option<i64>,
        timestamp: Option<i64>,
    ) -> (p: Option<TrackPoint>)
        ensures
            p == (if (TrackPoint {
                position: GeoPoint { lat_e7, lon_e7 },
                elevation,
                timestamp,
                sensor: Sensor::absent(),
            }).wf() {
                Some(
                    TrackPoint {
                        position: GeoPoint { lat_e7, lon_e7 },
                        elevation,
                        timestamp,
                        sensor: Sensor::absent(),
                    },
                )
            } else {
                None
            }),
    {
        let point = TrackPoint {
            position: GeoPoint { lat_e7, lon_e7 },
            elevation,
            timestamp,
            sensor: Sensor::none(),
        };
        if point.is_wf() {
            Some(point)
        } else {
            None
        }
    }
}

/// Every point of the track is well formed.
pub open spec fn track_wf(points: Seq<TrackPoint>) -> bool {
    forall|i: int| 0 <= i < points.len() ==> (#[trigger] points[i]).wf()
}

} // verus!
