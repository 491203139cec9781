use track_overlay::kinematics::{
    calculate_distance_to_point, calculate_elevation_gain_to_point, calculate_g_force,
    calculate_speed_kmh, distance_3d, isqrt, normalize_bearing, rise_between, Leg, LEG_LIMIT_MM,
};
use track_overlay::track::TrackPoint;

const EARTH_RADIUS_METERS: f64 = 6_371_000.0;

fn haversine_mm(lat1: f64, lon1: f64, lat2: f64, lon2: f64) -> u64 {
    let (p1, p2) = (lat1.to_radians(), lat2.to_radians());
    let dlat = p2 - p1;
    let dlon = (lon2 - lon1).to_radians();
    let a = (dlat / 2.0).sin().powi(2) + p1.cos() * p2.cos() * (dlon / 2.0).sin().powi(2);
    let c = 2.0 * a.sqrt().atan2((1.0 - a).sqrt());
    (EARTH_RADIUS_METERS * c * 1000.0).round() as u64
}

fn point(elevation: Option<i64>, timestamp: Option<i64>) -> TrackPoint {
    TrackPoint::new(0, 0, elevation, timestamp).unwrap()
}

#[test]
fn thousandth_of_a_degree_per_second_at_the_equator() {
    let d = haversine_mm(0.0, 0.0, 0.0, 0.001);
    assert_eq!(d, 111_195);
    let p1 = TrackPoint::new(0, 0, None, Some(0)).unwrap();
    let p2 = TrackPoint::new(0, 10_000, None, Some(1_000)).unwrap();
    let speed = calculate_speed_kmh(&p1, &p2, d).unwrap();
    assert_eq!(speed, 400_302);
    assert!((speed as f64 / 1000.0 - 400.3).abs() < 0.05);
}

#[test]
fn speed_is_distance_over_time() {
    let p1 = point(None, Some(0));
    let p2 = point(None, Some(2_500));
    // 25 m in 2.5 s: 10 m/s, 36 km/h
    assert_eq!(calculate_speed_kmh(&p1, &p2, 25_000), Some(36_000));
    assert_eq!(calculate_speed_kmh(&p1, &p2, 0), Some(0));
    // rounded down
    assert_eq!(calculate_speed_kmh(&p1, &p2, 1), Some(1));
    assert_eq!(calculate_speed_kmh(&point(None, Some(0)), &point(None, Some(7)), 1), Some(514));
}

#[test]
fn speed_counts_the_difference_in_height() {
    let p1 = point(Some(1_000), Some(0));
    let p2 = point(Some(5_000), Some(1_000));
    assert_eq!(distance_3d(&p1, &p2, 3_000), 5_000);
    assert_eq!(distance_3d(&p2, &p1, 3_000), 5_000);
    assert_eq!(calculate_speed_kmh(&p1, &p2, 3_000), Some(18_000));
    let flat = point(None, Some(1_000));
    assert_eq!(distance_3d(&p1, &flat, 3_000), 3_000);
    assert_eq!(calculate_speed_kmh(&p1, &flat, 3_000), Some(10_800));
}

#[test]
fn speed_is_undefined_without_time_passing() {
    let a = point(None, Some(1_000));
    assert_eq!(calculate_speed_kmh(&a, &a, 5_000), None);
    assert_eq!(calculate_speed_kmh(&a, &point(None, Some(999)), 5_000), None);
    assert_eq!(calculate_speed_kmh(&a, &point(None, None), 5_000), None);
    assert_eq!(calculate_speed_kmh(&point(None, None), &a, 5_000), None);
}

#[test]
fn steady_motion_has_no_g_force() {
    let p1 = TrackPoint::new(0, 0, Some(0), Some(0)).unwrap();
    let p2 = TrackPoint::new(1_000, 0, Some(0), Some(2_000)).unwrap();
    let p3 = TrackPoint::new(2_000, 0, Some(0), Some(4_000)).unwrap();
    assert_eq!(calculate_g_force(&p1, &p2, &p3, 11_119, 11_119), Some(0));
}

#[test]
fn g_force_is_change_of_speed_over_time_and_gravity() {
    let p1 = point(None, Some(0));
    let p2 = point(None, Some(1_000));
    let p3 = point(None, Some(2_000));
    // 10 m/s to 20 m/s within 1 s: 10 / 9.80665 g
    assert_eq!(calculate_g_force(&p1, &p2, &p3, 10_000, 20_000), Some(1_019_716));
    assert_eq!(calculate_g_force(&p1, &p2, &p3, 20_000, 10_000), Some(-1_019_716));
}

#[test]
fn g_force_is_undefined_where_a_speed_is() {
    let p1 = point(None, Some(0));
    let p2 = point(None, Some(1_000));
    let none = point(None, None);
    assert_eq!(calculate_g_force(&p1, &p2, &none, 1, 1), None);
    assert_eq!(calculate_g_force(&none, &p1, &p2, 1, 1), None);
    assert_eq!(calculate_g_force(&p1, &p2, &p2, 1, 1), None);
    assert_eq!(calculate_g_force(&p1, &p1, &p2, 1, 1), None);
}

#[test]
fn largest_speeds_fit() {
    let p1 = point(Some(-10_000_000_000), Some(0));
    let p2 = point(Some(10_000_000_000), Some(1));
    let p3 = point(Some(10_000_000_000), Some(2));
    let v = calculate_speed_kmh(&p1, &p2, LEG_LIMIT_MM).unwrap();
    assert_eq!(v, 32_015_621_187 * 3_600);
    let g = calculate_g_force(&p1, &p2, &p3, LEG_LIMIT_MM, 0).unwrap();
    assert!(g < 0);
}

#[test]
fn square_roots_round_down() {
    assert_eq!(isqrt(0), 0);
    assert_eq!(isqrt(1), 1);
    assert_eq!(isqrt(3), 1);
    assert_eq!(isqrt(4), 2);
    assert_eq!(isqrt(99), 9);
    assert_eq!(isqrt(1_000_000_000_000), 1_000_000);
    assert_eq!(isqrt(u128::MAX), u64::MAX);
    assert_eq!(isqrt((u64::MAX as u128) * (u64::MAX as u128) - 1), u64::MAX - 1);
}

#[test]
fn bearings_fall_within_one_turn() {
    assert_eq!(normalize_bearing(0), 0);
    assert_eq!(normalize_bearing(90_000), 90_000);
    assert_eq!(normalize_bearing(-90_000), 270_000);
    assert_eq!(normalize_bearing(-180_000), 180_000);
    assert_eq!(normalize_bearing(360_000), 0);
    assert_eq!(normalize_bearing(725_000), 5_000);
    assert_eq!(normalize_bearing(-1), 359_999);
    assert_eq!(normalize_bearing(-360_000), 0);
    assert_eq!(normalize_bearing(i64::MIN), 304_192);
    assert_eq!(normalize_bearing(i64::MAX), (i64::MAX % 360_000) as u32);
}

fn legs(distances: &[u64]) -> Vec<Leg> {
    distances.iter().map(|d| Leg { distance_mm: *d, bearing_mdeg: 0 }).collect()
}

#[test]
fn distance_adds_up_leg_by_leg() {
    let l = legs(&[100, 200, 300]);
    assert_eq!(calculate_distance_to_point(&l, 0), 0);
    assert_eq!(calculate_distance_to_point(&l, 1), 100);
    assert_eq!(calculate_distance_to_point(&l, 2), 300);
    assert_eq!(calculate_distance_to_point(&l, 3), 600);
    assert_eq!(calculate_distance_to_point(&l, 10), 600);
    assert_eq!(calculate_distance_to_point(&vec![], 3), 0);
    let wide = legs(&[u64::MAX, u64::MAX]);
    assert_eq!(calculate_distance_to_point(&wide, 2), 2 * (u64::MAX as u128));
}

#[test]
fn only_rises_count_as_gain() {
    let track: Vec<TrackPoint> = [Some(10), Some(30), Some(20), None, Some(50), Some(60)]
        .iter()
        .map(|e| point(*e, None))
        .collect();
    let gains: Vec<u128> =
        (0..8).map(|i| calculate_elevation_gain_to_point(&track, i)).collect();
    assert_eq!(gains, vec![0, 20, 20, 20, 20, 30, 30, 30]);
    assert_eq!(calculate_elevation_gain_to_point(&vec![], 0), 0);
    assert_eq!(calculate_elevation_gain_to_point(&vec![], 4), 0);
    assert_eq!(rise_between(&track[1], &track[2]), 0);
    assert_eq!(rise_between(&track[0], &track[1]), 20);
}

#[test]
fn totals_never_shrink() {
    let l = legs(&[5, 0, 7, 1, 0, 9]);
    let track: Vec<TrackPoint> =
        [3, 9, 1, 4, 4, 8, 2].iter().map(|e| point(Some(*e), None)).collect();
    for i in 0..7usize {
        assert!(calculate_distance_to_point(&l, i) <= calculate_distance_to_point(&l, i + 1));
        assert!(
            calculate_elevation_gain_to_point(&track, i)
                <= calculate_elevation_gain_to_point(&track, i + 1)
        );
    }
}
