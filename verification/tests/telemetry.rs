use track_overlay::fit::{
    fit_altitude_mm, fit_record_point, fit_timestamp_to_utc, read_and_process_fit,
    semicircles_to_e7,
};
use track_overlay::summary::{largest, mean, FitExtraData, TcxExtraData};
use track_overlay::telemetry::{carry_forward, display_speed, extract_telemetry_from_waypoint};
use track_overlay::track::{GeoPoint, Sensor, TrackPoint};

fn sensor(heart_rate: Option<u32>, cadence: Option<u32>, instant_speed: Option<u32>) -> Sensor {
    Sensor { heart_rate, cadence, instant_speed }
}

#[test]
fn samples_are_handed_out_with_speed_per_hour() {
    let mut p = TrackPoint::new(0, 0, None, None).unwrap();
    assert_eq!(extract_telemetry_from_waypoint(&p), (None, None, None));
    p.sensor = sensor(Some(145), Some(165), Some(4_200));
    // 4.2 m/s is 15.12 km/h
    assert_eq!(extract_telemetry_from_waypoint(&p), (Some(145), Some(165), Some(15_120)));
    p.sensor = sensor(None, Some(0), Some(1));
    assert_eq!(extract_telemetry_from_waypoint(&p), (None, Some(0), Some(3)));
    p.sensor = sensor(None, None, Some(u32::MAX));
    assert_eq!(extract_telemetry_from_waypoint(&p).2, Some(u32::MAX as u64 * 18 / 5));
}

#[test]
fn display_carries_the_last_sample_forward() {
    let samples = vec![
        sensor(None, None, None),
        sensor(Some(100), None, None),
        sensor(None, Some(80), None),
        sensor(Some(110), None, Some(5)),
        sensor(None, None, None),
    ];
    assert_eq!(
        carry_forward(&samples),
        vec![
            sensor(None, None, None),
            sensor(Some(100), None, None),
            sensor(Some(100), Some(80), None),
            sensor(Some(110), Some(80), Some(5)),
            sensor(Some(110), Some(80), Some(5)),
        ]
    );
    assert_eq!(carry_forward(&vec![]), vec![]);
}

#[test]
fn display_prefers_the_sensor_where_told() {
    assert_eq!(display_speed(true, Some(7), Some(9)), 7);
    assert_eq!(display_speed(false, Some(7), Some(9)), 9);
    assert_eq!(display_speed(true, None, Some(9)), 9);
    assert_eq!(display_speed(true, None, None), 0);
    assert_eq!(display_speed(false, Some(7), None), 0);
}

#[test]
fn means_round_down_and_need_a_value() {
    assert_eq!(mean(&vec![]), None);
    assert_eq!(mean(&vec![145, 148, 152]), Some(148));
    assert_eq!(mean(&vec![1, 2]), Some(1));
    assert_eq!(mean(&vec![u32::MAX, u32::MAX, u32::MAX]), Some(u32::MAX));
    assert_eq!(largest(&vec![]), None);
    assert_eq!(largest(&vec![3, 9, 9, 1]), Some(9));
    assert_eq!(largest(&vec![0]), Some(0));
}

fn tcx_data() -> TcxExtraData {
    TcxExtraData {
        sport: Some("Running".to_string()),
        total_time_ms: 1_932_000,
        total_distance_mm: 5_000_000,
        total_calories: 287,
        max_speed: 6_800,
        heart_rates: vec![145, 148, 152],
        cadences: vec![165, 168, 172],
    }
}

#[test]
fn summary_of_a_tcx_activity() {
    let data = tcx_data();
    assert_eq!(data.average_heart_rate(), Some(148));
    assert_eq!(data.max_heart_rate(), Some(152));
    assert_eq!(data.average_cadence(), Some(168));
    assert_eq!(data.max_cadence(), Some(172));
    // 5000 m in 1932 s
    assert_eq!(data.average_speed(), Some(2_587));
    let empty = TcxExtraData::default();
    assert_eq!(empty.average_heart_rate(), None);
    assert_eq!(empty.max_cadence(), None);
    assert_eq!(empty.average_speed(), None);
}

#[test]
fn summary_of_a_fit_activity() {
    let data = FitExtraData {
        sport: Some("cycling".to_string()),
        device_name: Some("Edge".to_string()),
        manufacturer: None,
        total_time_ms: 10,
        total_distance_mm: 20,
        total_calories: 30,
        max_speed: 40,
        heart_rates: vec![100, 120],
        cadences: vec![90],
        speeds: vec![4_000, 6_001],
        powers: vec![200, 250, 300],
    };
    assert_eq!(data.average_heart_rate(), Some(110));
    assert_eq!(data.average_cadence(), Some(90));
    assert_eq!(data.average_speed(), Some(5_000));
    assert_eq!(data.average_power(), Some(250));
    assert_eq!(data.max_heart_rate(), Some(120));
    assert_eq!(data.max_cadence(), Some(90));
    assert_eq!(data.max_power(), Some(300));
    let tcx = data.to_tcx_extra_data();
    assert_eq!(tcx.sport, Some("cycling".to_string()));
    assert_eq!(tcx.total_time_ms, 10);
    assert_eq!(tcx.total_distance_mm, 20);
    assert_eq!(tcx.total_calories, 30);
    assert_eq!(tcx.max_speed, 40);
    assert_eq!(tcx.heart_rates, vec![100, 120]);
    assert_eq!(tcx.cadences, vec![90]);
}

#[test]
fn fit_angles_are_semicircles() {
    assert_eq!(semicircles_to_e7(0), 0);
    assert_eq!(semicircles_to_e7(i32::MIN), -1_800_000_000);
    assert_eq!(semicircles_to_e7(1 << 30), 900_000_000);
    assert_eq!(semicircles_to_e7(-(1 << 30)), -900_000_000);
    assert_eq!(semicircles_to_e7(1), 0);
    assert_eq!(semicircles_to_e7(-1), 0);
    assert_eq!(semicircles_to_e7(i32::MAX), 1_799_999_999);
    // rounded towards zero
    assert_eq!(semicircles_to_e7(-120_776_939), -101_234_060);
    assert_eq!(semicircles_to_e7(120_776_939), 101_234_060);
}

#[test]
fn fit_heights_and_instants_are_shifted() {
    assert_eq!(fit_altitude_mm(0), -500_000);
    assert_eq!(fit_altitude_mm(2_500), 0);
    assert_eq!(fit_altitude_mm(3_652), 230_400);
    assert_eq!(fit_altitude_mm(u16::MAX), 12_607_000);
    assert_eq!(fit_timestamp_to_utc(0), 631_065_600_000);
    // 2024-01-15T07:30:00Z
    assert_eq!(fit_timestamp_to_utc(1_074_238_200), 1_705_303_800_000);
    assert_eq!(fit_timestamp_to_utc(u32::MAX), (631_065_600 + 4_294_967_295) * 1000);
}

#[test]
fn fit_record_becomes_a_point() {
    let s = sensor(Some(150), None, Some(3_000));
    let p = fit_record_point(1 << 29, -(1 << 30), Some(2_600), Some(10), s).unwrap();
    assert_eq!(p.position, GeoPoint { lat_e7: 450_000_000, lon_e7: -900_000_000 });
    assert_eq!(p.elevation, Some(20_000));
    assert_eq!(p.timestamp, Some(631_065_610_000));
    assert_eq!(p.sensor, s);
    let bare = fit_record_point(0, 0, None, None, sensor(None, None, None)).unwrap();
    assert_eq!(bare, TrackPoint::new(0, 0, None, None).unwrap());
    // beyond the pole
    assert_eq!(fit_record_point((1 << 30) + 2, 0, None, None, s), None);
    assert_eq!(fit_record_point(i32::MIN, 0, None, None, s), None);
}

#[test]
fn fit_file_without_records_read_gives_a_placeholder() {
    let long = read_and_process_fit(&[0u8; 13]);
    assert_eq!(long.track, vec![TrackPoint::new(0, 0, None, None).unwrap()]);
    assert_eq!(long.extra_data.sport, Some("Unknown".to_string()));
    let short = read_and_process_fit(&[0u8; 12]);
    assert!(short.track.is_empty());
    assert_eq!(short.extra_data.sport, Some("Unknown".to_string()));
    assert!(read_and_process_fit(&[]).track.is_empty());
}
