use track_overlay::align::VideoWindow;
use track_overlay::i18n::Lang;
use track_overlay::video::{
    classify_probe_error, first_video_stream, get_video_time_range, video_error_message,
    window_from, StreamInfo, VideoError,
};

fn stream(codec_type: Option<&str>, creation_time: Option<&str>) -> StreamInfo {
    StreamInfo {
        codec_type: codec_type.map(|s| s.to_string()),
        creation_time: creation_time.map(|s| s.to_string()),
    }
}

fn secs(text: &str) -> Option<String> {
    Some(text.to_string())
}

#[test]
fn creation_time_is_taken_as_local_time_in_sao_paulo() {
    let streams = vec![
        stream(Some("audio"), Some("2000-01-01T00:00:00Z")),
        stream(Some("video"), Some("2024-01-15T07:30:00.000000Z")),
    ];
    // 07:30 in Sao Paulo is 10:30 UTC
    assert_eq!(
        get_video_time_range(&streams, &secs("60.500000")),
        Ok(VideoWindow { start: 1_705_314_600_000, end: 1_705_314_660_500 })
    );
}

#[test]
fn summer_time_of_the_zone_is_counted() {
    // in January 2015 the zone was two hours behind UTC
    let streams = vec![stream(Some("video"), Some("2015-01-15T12:00:00Z"))];
    assert_eq!(
        get_video_time_range(&streams, &secs("1")),
        Ok(VideoWindow { start: 1_421_330_400_000, end: 1_421_330_401_000 })
    );
}

#[test]
fn local_time_that_never_was_is_unclear() {
    // clocks went from 00:00 to 01:00 on 2018-11-04
    let streams = vec![stream(Some("video"), Some("2018-11-04T00:30:00Z"))];
    assert_eq!(get_video_time_range(&streams, &secs("1")), Err(VideoError::LocalTimeUnclear));
    // clocks went back from 00:00 to 23:00 on 2018-02-17
    let streams = vec![stream(Some("video"), Some("2018-02-17T23:30:00Z"))];
    assert_eq!(get_video_time_range(&streams, &secs("1")), Err(VideoError::LocalTimeUnclear));
}

#[test]
fn first_video_stream_decides() {
    let streams = vec![
        stream(None, Some("2024-01-15T07:30:00Z")),
        stream(Some("video"), None),
        stream(Some("video"), Some("2024-01-15T07:30:00Z")),
    ];
    assert_eq!(first_video_stream(&streams), Some(1));
    assert_eq!(get_video_time_range(&streams, &secs("1")), Err(VideoError::CreationTimeMissing));
    assert_eq!(first_video_stream(&vec![]), None);
    assert_eq!(first_video_stream(&vec![stream(Some("Video"), None)]), None);
    assert_eq!(get_video_time_range(&vec![], &secs("1")), Err(VideoError::CreationTimeMissing));
}

#[test]
fn creation_time_must_be_rfc3339() {
    let streams = vec![stream(Some("video"), Some("15/01/2024 07:30"))];
    assert_eq!(get_video_time_range(&streams, &secs("1")), Err(VideoError::CreationTimeInvalid));
    let streams = vec![stream(Some("video"), Some(""))];
    assert_eq!(get_video_time_range(&streams, &None), Err(VideoError::CreationTimeInvalid));
}

#[test]
fn duration_must_be_a_number_of_seconds() {
    assert_eq!(window_from(Some(5), &None), Err(VideoError::DurationMissing));
    assert_eq!(window_from(Some(5), &secs("long")), Err(VideoError::DurationInvalid));
    assert_eq!(window_from(Some(5), &secs("-1")), Err(VideoError::DurationInvalid));
    assert_eq!(window_from(Some(5), &secs("")), Err(VideoError::DurationInvalid));
    assert_eq!(window_from(Some(5), &secs("0")), Ok(VideoWindow { start: 5, end: 5 }));
    assert_eq!(window_from(Some(-5), &secs("1.2349")), Ok(VideoWindow { start: -5, end: 1_229 }));
    assert_eq!(window_from(None, &secs("1")), Err(VideoError::LocalTimeUnclear));
    assert_eq!(window_from(None, &None), Err(VideoError::LocalTimeUnclear));
}

#[test]
fn span_beyond_the_limit_is_refused() {
    assert_eq!(
        window_from(Some(1_000_000_000_000_000_000), &secs("0.001")),
        Err(VideoError::OutOfRange)
    );
    assert_eq!(window_from(Some(i64::MIN), &secs("1")), Err(VideoError::OutOfRange));
    assert_eq!(
        window_from(Some(0), &secs("1000000000000000")),
        Ok(VideoWindow { start: 0, end: 1_000_000_000_000_000_000 })
    );
}

#[test]
fn missing_tool_is_told_from_a_failure() {
    assert_eq!(
        classify_probe_error("No such file or directory (os error 2)"),
        VideoError::ProbeNotFound
    );
    assert_eq!(classify_probe_error("program not found"), VideoError::ProbeNotFound);
    assert_eq!(classify_probe_error("exit status 1"), VideoError::ProbeFailed);
    assert_eq!(classify_probe_error(""), VideoError::ProbeFailed);
}

#[test]
fn errors_are_told_in_both_languages() {
    assert_eq!(
        video_error_message(VideoError::CreationTimeMissing, Lang::En),
        "Tag 'creation_time' not found in the video stream."
    );
    assert_eq!(
        video_error_message(VideoError::CreationTimeMissing, Lang::Pt),
        "Tag 'creation_time' não encontrada no stream de vídeo."
    );
    assert_eq!(video_error_message(VideoError::DurationMissing, Lang::En), "Duration not found.");
    assert_eq!(
        video_error_message(VideoError::DurationMissing, Lang::Pt),
        "Duração não encontrada."
    );
    assert_eq!(
        video_error_message(VideoError::ProbeNotFound, Lang::En),
        "Command 'ffprobe' not found. Make sure FFmpeg is installed and in the system's PATH."
    );
    assert_eq!(
        video_error_message(VideoError::LocalTimeUnclear, Lang::Pt),
        "Não foi possível converter a hora local para o fuso de São Paulo."
    );
}
