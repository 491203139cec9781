use track_overlay::align::AlignedPoint;
use track_overlay::frames::{derive_frames, Metrics, RenderableFrame};
use track_overlay::kinematics::Leg;
use track_overlay::track::TrackPoint;

fn placed(ms: i64, elevation: Option<i64>) -> AlignedPoint {
    AlignedPoint {
        video_relative_ms: ms,
        point: TrackPoint::new(0, 0, elevation, Some(1_000_000 + ms)).unwrap(),
    }
}

#[test]
fn no_points_give_no_frames() {
    assert_eq!(derive_frames(&vec![], &vec![]), vec![]);
}

#[test]
fn single_point_has_totals_only() {
    let a = placed(500, Some(7));
    let frames = derive_frames(&vec![a], &vec![]);
    assert_eq!(
        frames,
        vec![RenderableFrame {
            video_relative_ms: 500,
            source_point: a.point,
            metrics: Metrics {
                speed: None,
                bearing: None,
                g_force: None,
                cumulative_distance: Some(0),
                cumulative_elevation_gain: Some(0),
            },
        }]
    );
}

#[test]
fn metrics_come_from_the_legs_on_both_sides() {
    let points = vec![
        placed(0, Some(0)),
        placed(1_000, Some(0)),
        placed(2_000, Some(0)),
        placed(3_000, Some(2_000)),
    ];
    let legs = vec![
        Leg { distance_mm: 10_000, bearing_mdeg: -90_000 },
        Leg { distance_mm: 20_000, bearing_mdeg: 45_000 },
        Leg { distance_mm: 0, bearing_mdeg: 400_000 },
    ];
    let frames = derive_frames(&points, &legs);
    assert_eq!(frames.len(), 4);
    let m: Vec<Metrics> = frames.iter().map(|f| f.metrics).collect();
    assert_eq!(m[0].speed, None);
    assert_eq!(m[0].bearing, None);
    assert_eq!(m[0].g_force, None);
    assert_eq!(m[1].speed, Some(36_000));
    assert_eq!(m[1].bearing, Some(270_000));
    assert_eq!(m[1].g_force, Some(1_019_716));
    assert_eq!(m[2].speed, Some(72_000));
    assert_eq!(m[2].bearing, Some(45_000));
    // 20 m/s down to 2 m/s (2 m of climb in 1 s)
    assert_eq!(m[2].g_force, Some(-1_835_489));
    assert_eq!(m[3].speed, Some(7_200));
    assert_eq!(m[3].bearing, Some(40_000));
    assert_eq!(m[3].g_force, None);
    let distances: Vec<Option<u128>> = m.iter().map(|x| x.cumulative_distance).collect();
    assert_eq!(distances, vec![Some(0), Some(10_000), Some(30_000), Some(30_000)]);
    let gains: Vec<Option<u128>> = m.iter().map(|x| x.cumulative_elevation_gain).collect();
    assert_eq!(gains, vec![Some(0), Some(0), Some(0), Some(2_000)]);
    for (f, p) in frames.iter().zip(points.iter()) {
        assert_eq!(f.video_relative_ms, p.video_relative_ms);
        assert_eq!(f.source_point, p.point);
    }
}

#[test]
fn undefined_speed_is_not_made_zero() {
    let a = placed(0, None);
    let mut b = placed(1_000, None);
    b.point.timestamp = a.point.timestamp;
    let c = placed(2_000, None);
    let legs = vec![
        Leg { distance_mm: 10, bearing_mdeg: 0 },
        Leg { distance_mm: 10, bearing_mdeg: 0 },
    ];
    let frames = derive_frames(&vec![a, b, c], &legs);
    assert_eq!(frames[1].metrics.speed, None);
    assert_eq!(frames[1].metrics.g_force, None);
    assert_eq!(frames[1].metrics.bearing, Some(0));
    assert_eq!(frames[2].metrics.speed, Some(18));
}

#[test]
fn totals_grow_along_the_frames() {
    let points: Vec<AlignedPoint> = [5, 9, 2, 2, 30, 1]
        .iter()
        .enumerate()
        .map(|(i, e)| placed(i as i64 * 1_000, Some(*e)))
        .collect();
    let legs: Vec<Leg> =
        [3u64, 0, 8, 1, 1].iter().map(|d| Leg { distance_mm: *d, bearing_mdeg: 0 }).collect();
    let frames = derive_frames(&points, &legs);
    for pair in frames.windows(2) {
        assert!(pair[0].metrics.cumulative_distance <= pair[1].metrics.cumulative_distance);
        assert!(
            pair[0].metrics.cumulative_elevation_gain
                <= pair[1].metrics.cumulative_elevation_gain
        );
    }
    assert_eq!(frames[5].metrics.cumulative_distance, Some(13));
    assert_eq!(frames[5].metrics.cumulative_elevation_gain, Some(4 + 28));
}
