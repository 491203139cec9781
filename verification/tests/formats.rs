use track_overlay::formats::{
    detect_file_type, file_type, fit_track_type, map_fit_sport_to_track_type,
    map_sport_to_track_type, FileType,
};

#[test]
fn test_detect_tcx_file_type() {
    let tcx_path = "test.tcx";
    let gpx_path = "test.gpx";
    let unknown_path = "test.txt";

    assert_eq!(detect_file_type(tcx_path), "TCX");
    assert_eq!(detect_file_type(gpx_path), "GPX");
    assert_eq!(detect_file_type(unknown_path), "Unknown");
}

#[test]
fn test_sport_type_mapping() {
    assert_eq!(map_sport_to_track_type("Running"), "Running");
    assert_eq!(map_sport_to_track_type("Biking"), "Cycling");
    assert_eq!(map_sport_to_track_type("Cycling"), "Cycling");
    assert_eq!(map_sport_to_track_type("Walking"), "Walking");
    assert_eq!(map_sport_to_track_type("Unknown"), "Unknown");
}

#[test]
fn file_type_ignores_case_and_reads_the_last_extension() {
    assert_eq!(file_type("ride.FIT"), FileType::Fit);
    assert_eq!(file_type("uploads/ride.Tcx"), FileType::Tcx);
    assert_eq!(file_type("a.tcx.gpx"), FileType::Gpx);
    assert_eq!(detect_file_type("activity.fit"), "FIT");
}

#[test]
fn file_type_needs_a_name_before_the_dot() {
    assert_eq!(file_type(".tcx"), FileType::Unknown);
    assert_eq!(file_type("dir/.gpx"), FileType::Unknown);
    assert_eq!(file_type("gpx"), FileType::Unknown);
    assert_eq!(file_type(""), FileType::Unknown);
    assert_eq!(file_type("test.unknown"), FileType::Unknown);
}

#[test]
fn fit_sport_is_matched_in_any_case() {
    assert_eq!(map_fit_sport_to_track_type("RUNNING"), "Running");
    assert_eq!(map_fit_sport_to_track_type("Trail_Running"), "Running");
    assert_eq!(map_fit_sport_to_track_type("mountain_biking"), "Cycling");
    assert_eq!(map_fit_sport_to_track_type("Casual_Walking"), "Walking");
    assert_eq!(map_fit_sport_to_track_type("Mountaineering"), "Hiking");
    assert_eq!(map_fit_sport_to_track_type("OPEN_WATER_SWIMMING"), "Swimming");
}

#[test]
fn fit_sport_unknown_is_kept_as_written() {
    assert_eq!(map_fit_sport_to_track_type("Kayaking"), "Kayaking");
    assert_eq!(map_fit_sport_to_track_type(""), "");
}

#[test]
fn fit_track_type_goes_by_the_lowered_name() {
    assert_eq!(fit_track_type("Anything", "cyclocross"), "Cycling");
    assert_eq!(fit_track_type("Hiking", "HIKING"), "Hiking");
    assert_eq!(fit_track_type("RUNNING", "RUNNING"), "RUNNING");
}
