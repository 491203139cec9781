use track_overlay::interpolate::{interpolate_gpx_points, interpolate_points, ConfigError};
use track_overlay::track::{Sensor, TrackPoint};

fn point(lat_e7: i64, lon_e7: i64, elevation: Option<i64>, timestamp: Option<i64>) -> TrackPoint {
    TrackPoint::new(lat_e7, lon_e7, elevation, timestamp).unwrap()
}

#[test]
fn ten_seconds_with_bound_two_gets_four_points() {
    let a = point(100_000_000, 200_000_000, Some(1_000), Some(0));
    let b = point(100_000_500, 200_001_000, Some(2_000), Some(10_000));
    let out = interpolate_gpx_points(&vec![a, b], 2).unwrap();
    assert_eq!(out.len(), 6);
    assert_eq!(out[0], a);
    assert_eq!(out[5], b);
    for i in 1..5usize {
        let k = i as i64;
        assert_eq!(out[i].timestamp, Some(2_000 * k));
        assert_eq!(out[i].position.lat_e7, 100_000_000 + 100 * k);
        assert_eq!(out[i].position.lon_e7, 200_000_000 + 200 * k);
        assert_eq!(out[i].elevation, Some(1_000 + 200 * k));
        assert_eq!(out[i].sensor, Sensor { heart_rate: None, cadence: None, instant_speed: None });
    }
}

#[test]
fn single_inserted_point_lies_halfway() {
    let a = point(-100, 400, Some(10), Some(1_000));
    let b = point(100, -400, Some(30), Some(11_000));
    let added = interpolate_points(&a, &b, 5);
    assert_eq!(added.len(), 1);
    assert_eq!(added[0].position.lat_e7, 0);
    assert_eq!(added[0].position.lon_e7, 0);
    assert_eq!(added[0].elevation, Some(20));
    assert_eq!(added[0].timestamp, Some(6_000));
}

#[test]
fn values_round_towards_the_first_point() {
    let a = point(0, 10, Some(0), Some(0));
    let b = point(10, 0, Some(-10), Some(3_500));
    // gap 3.5 s, bound 1 s: 4 intervals
    let added = interpolate_points(&a, &b, 1);
    assert_eq!(added.len(), 3);
    assert_eq!(added[0].position.lat_e7, 2);
    assert_eq!(added[0].position.lon_e7, 8);
    assert_eq!(added[0].elevation, Some(-2));
    assert_eq!(added[0].timestamp, Some(875));
    assert_eq!(added[1].position.lat_e7, 5);
    assert_eq!(added[2].position.lat_e7, 7);
    assert_eq!(added[2].position.lon_e7, 3);
    assert_eq!(added[2].timestamp, Some(2_625));
}

#[test]
fn pair_within_the_bound_passes_unchanged() {
    let a = point(0, 0, None, Some(0));
    let b = point(10, 10, None, Some(2_000));
    assert!(interpolate_points(&a, &b, 2).is_empty());
    assert_eq!(interpolate_gpx_points(&vec![a, b], 2).unwrap(), vec![a, b]);
}

#[test]
fn gap_just_over_the_bound_is_filled() {
    let a = point(0, 0, None, Some(0));
    let b = point(10, 10, None, Some(2_001));
    let added = interpolate_points(&a, &b, 2);
    assert_eq!(added.len(), 1);
    assert_eq!(added[0].timestamp, Some(1_000));
}

#[test]
fn pair_without_an_instant_passes_unchanged() {
    let a = point(0, 0, None, None);
    let b = point(10, 10, None, Some(100_000));
    let c = point(20, 20, None, None);
    assert!(interpolate_points(&a, &b, 1).is_empty());
    assert!(interpolate_points(&b, &c, 1).is_empty());
    assert_eq!(interpolate_gpx_points(&vec![a, b, c], 1).unwrap(), vec![a, b, c]);
}

#[test]
fn pair_that_runs_backwards_passes_unchanged() {
    let a = point(0, 0, None, Some(50_000));
    let b = point(10, 10, None, Some(0));
    assert!(interpolate_points(&a, &b, 1).is_empty());
}

#[test]
fn missing_height_counts_as_zero() {
    let a = point(0, 0, None, Some(0));
    let b = point(0, 0, Some(1_000), Some(4_000));
    let added = interpolate_points(&a, &b, 2);
    assert_eq!(added.len(), 1);
    assert_eq!(added[0].elevation, Some(500));
}

#[test]
fn bound_that_is_not_positive_is_refused() {
    let a = point(0, 0, None, Some(0));
    assert_eq!(interpolate_gpx_points(&vec![a], 0), Err(ConfigError::InvalidInterval));
    assert_eq!(interpolate_gpx_points(&vec![a], -3), Err(ConfigError::InvalidInterval));
    assert_eq!(interpolate_gpx_points(&vec![], 0), Err(ConfigError::InvalidInterval));
}

#[test]
fn empty_and_single_tracks_are_kept() {
    let a = point(1, 2, Some(3), Some(4));
    assert_eq!(interpolate_gpx_points(&vec![], 1).unwrap(), vec![]);
    assert_eq!(interpolate_gpx_points(&vec![a], 1).unwrap(), vec![a]);
}

fn sample_track() -> Vec<TrackPoint> {
    vec![
        point(0, 0, Some(0), Some(0)),
        point(1_000, 2_000, Some(5_000), Some(7_300)),
        point(1_500, 1_000, None, None),
        point(2_000, 0, Some(1_000), Some(9_000)),
        point(9_000, -5_000, Some(0), Some(30_001)),
        point(9_000, -5_000, Some(0), Some(30_001)),
    ]
}

#[test]
fn densifying_twice_adds_nothing() {
    for bound in [1i64, 2, 3, 7, 60] {
        let once = interpolate_gpx_points(&sample_track(), bound).unwrap();
        let twice = interpolate_gpx_points(&once, bound).unwrap();
        assert_eq!(once, twice);
    }
}

#[test]
fn no_gap_exceeds_the_bound() {
    for bound in [1i64, 2, 3, 7, 60] {
        let out = interpolate_gpx_points(&sample_track(), bound).unwrap();
        for pair in out.windows(2) {
            if let (Some(x), Some(y)) = (pair[0].timestamp, pair[1].timestamp) {
                assert!(y - x <= bound * 1000);
            }
        }
    }
}

#[test]
fn track_points_stay_in_order() {
    let track = sample_track();
    let out = interpolate_gpx_points(&track, 2).unwrap();
    let mut next = 0;
    for p in out.iter() {
        if next < track.len() && *p == track[next] {
            next += 1;
        }
    }
    assert_eq!(next, track.len());
    // 7.3 s: 4 intervals, 3 points; 21.001 s: 11 intervals, 10 points
    assert_eq!(out.len(), track.len() + 3 + 10);
}
