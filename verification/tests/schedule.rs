use track_overlay::frames::{Metrics, RenderableFrame};
use track_overlay::projection::{Canvas, InsufficientDataError, PixelOffset, ProjectionMapper};
use track_overlay::schedule::{
    build_plan, schedule_frames, schedule_map, select_channel, AnchorPosition, AssetRef,
    ChannelKind, CompositionOp, OverlayChannel, TimeWindow,
};
use track_overlay::track::TrackPoint;

fn frame(ms: i64, lat_e7: i64, lon_e7: i64) -> RenderableFrame {
    RenderableFrame {
        video_relative_ms: ms,
        source_point: TrackPoint::new(lat_e7, lon_e7, None, Some(ms)).unwrap(),
        metrics: Metrics {
            speed: None,
            bearing: None,
            g_force: None,
            cumulative_distance: Some(0),
            cumulative_elevation_gain: Some(0),
        },
    }
}

fn frames() -> Vec<RenderableFrame> {
    vec![frame(500, 0, 0), frame(1_500, 500, 1_000), frame(1_500, 500, 1_000), frame(4_000, 1_000, 2_000)]
}

fn mapper() -> ProjectionMapper {
    let track: Vec<TrackPoint> = frames().iter().map(|f| f.source_point).collect();
    ProjectionMapper::new(&track, Canvas::new(300, 300, 20).unwrap()).unwrap()
}

fn channel(kind: ChannelKind, enabled: bool, anchor: AnchorPosition) -> OverlayChannel {
    OverlayChannel { kind, enabled, anchor }
}

#[test]
fn no_channel_enabled_gives_an_empty_plan() {
    assert_eq!(build_plan(&frames(), &vec![], None), Ok(vec![]));
    let off = vec![
        channel(ChannelKind::Speedometer, false, AnchorPosition::TopLeft),
        channel(ChannelKind::TrackMap, false, AnchorPosition::TopRight),
        channel(ChannelKind::Stats, false, AnchorPosition::BottomLeft),
    ];
    assert_eq!(build_plan(&frames(), &off, Some(mapper())), Ok(vec![]));
    assert_eq!(build_plan(&frames(), &off, None), Ok(vec![]));
}

#[test]
fn no_frame_gives_an_empty_plan() {
    let on = vec![
        channel(ChannelKind::Speedometer, true, AnchorPosition::TopLeft),
        channel(ChannelKind::TrackMap, true, AnchorPosition::TopRight),
        channel(ChannelKind::Stats, true, AnchorPosition::BottomLeft),
    ];
    assert_eq!(build_plan(&vec![], &on, None), Ok(vec![]));
    assert_eq!(build_plan(&vec![], &on, Some(mapper())), Ok(vec![]));
}

#[test]
fn each_frame_is_shown_until_the_next() {
    let ops = schedule_frames(&frames(), ChannelKind::Speedometer, AnchorPosition::TopRight);
    let windows: Vec<Option<TimeWindow>> = ops.iter().map(|o| o.window).collect();
    assert_eq!(
        windows,
        vec![
            Some(TimeWindow { start: 500, end: 1_500 }),
            Some(TimeWindow { start: 1_500, end: 1_500 }),
            Some(TimeWindow { start: 1_500, end: 4_000 }),
            Some(TimeWindow { start: 4_000, end: 5_000 }),
        ]
    );
    for (k, op) in ops.iter().enumerate() {
        assert_eq!(op.asset, AssetRef::SpeedometerFrame(k));
        assert_eq!(op.anchor, AnchorPosition::TopRight);
        assert_eq!(op.offset, None);
    }
    let stats = schedule_frames(&frames(), ChannelKind::Stats, AnchorPosition::BottomLeft);
    assert_eq!(stats[2].asset, AssetRef::StatsFrame(2));
    assert_eq!(stats[2].window, ops[2].window);
}

#[test]
fn windows_cover_the_frames_without_gap_or_overlap() {
    let f = frames();
    let ops = schedule_frames(&f, ChannelKind::Stats, AnchorPosition::TopLeft);
    assert_eq!(ops.len(), f.len());
    assert_eq!(ops[0].window.unwrap().start, f[0].video_relative_ms);
    for pair in ops.windows(2) {
        assert_eq!(pair[0].window.unwrap().end, pair[1].window.unwrap().start);
    }
    for op in ops.iter() {
        assert!(op.window.unwrap().start <= op.window.unwrap().end);
    }
    let last = ops[ops.len() - 1].window.unwrap();
    assert_eq!(last.start, f[f.len() - 1].video_relative_ms);
    assert_eq!(last.end, f[f.len() - 1].video_relative_ms + 1_000);
    for t in 0..6_000i64 {
        let shown = ops.iter().any(|o| o.window.unwrap().start <= t && t <= o.window.unwrap().end);
        assert_eq!(shown, 500 <= t && t <= 5_000);
    }
}

#[test]
fn map_is_one_base_and_a_marker_per_frame() {
    let m = mapper();
    let ops = schedule_map(&frames(), AnchorPosition::BottomRight, &m);
    assert_eq!(ops.len(), 5);
    assert_eq!(
        ops[0],
        CompositionOp {
            asset: AssetRef::MapBase,
            anchor: AnchorPosition::BottomRight,
            window: None,
            offset: None,
        }
    );
    // scale 260 px over 2000 units of longitude; the marker is centred
    assert_eq!(
        ops[1],
        CompositionOp {
            asset: AssetRef::MarkerDot,
            anchor: AnchorPosition::BottomRight,
            window: Some(TimeWindow { start: 500, end: 1_500 }),
            offset: Some(PixelOffset { x: 2_000 - 400, y: 2_000 + 13_000 - 400 }),
        }
    );
    assert_eq!(ops[2].offset, Some(PixelOffset { x: 2_000 + 13_000 - 400, y: 2_000 + 6_500 - 400 }));
    assert_eq!(ops[4].offset, Some(PixelOffset { x: 28_000 - 400, y: 2_000 - 400 }));
    assert_eq!(ops[4].window, Some(TimeWindow { start: 4_000, end: 5_000 }));
    for (k, op) in ops.iter().enumerate().skip(1) {
        let at = m.pixel(frames()[k - 1].source_point.position);
        assert_eq!(op.offset, Some(PixelOffset { x: at.x - 400, y: at.y - 400 }));
    }
}

#[test]
fn channels_stack_in_the_default_order() {
    let channels = vec![
        channel(ChannelKind::Stats, true, AnchorPosition::BottomLeft),
        channel(ChannelKind::TrackMap, true, AnchorPosition::TopRight),
        channel(ChannelKind::Speedometer, true, AnchorPosition::TopLeft),
    ];
    let plan = build_plan(&frames(), &channels, Some(mapper())).unwrap();
    assert_eq!(plan.len(), 4 + 5 + 4);
    let mut expected = schedule_frames(&frames(), ChannelKind::Speedometer, AnchorPosition::TopLeft);
    expected.extend(schedule_map(&frames(), AnchorPosition::TopRight, &mapper()));
    expected.extend(schedule_frames(&frames(), ChannelKind::Stats, AnchorPosition::BottomLeft));
    assert_eq!(plan, expected);
}

#[test]
fn disabled_channel_has_no_operation() {
    let channels = vec![
        channel(ChannelKind::Speedometer, false, AnchorPosition::TopLeft),
        channel(ChannelKind::Stats, true, AnchorPosition::BottomLeft),
    ];
    let plan = build_plan(&frames(), &channels, None).unwrap();
    assert_eq!(plan.len(), 4);
    assert!(plan.iter().all(|op| matches!(op.asset, AssetRef::StatsFrame(_))));
}

#[test]
fn first_enabled_channel_of_a_kind_decides_the_corner() {
    let channels = vec![
        channel(ChannelKind::Stats, false, AnchorPosition::TopLeft),
        channel(ChannelKind::Stats, true, AnchorPosition::TopRight),
        channel(ChannelKind::Stats, true, AnchorPosition::BottomRight),
    ];
    assert_eq!(select_channel(&channels, ChannelKind::Stats), Some(AnchorPosition::TopRight));
    assert_eq!(select_channel(&channels, ChannelKind::TrackMap), None);
    assert_eq!(select_channel(&vec![], ChannelKind::Stats), None);
}

#[test]
fn map_without_a_mapping_fails() {
    let channels = vec![channel(ChannelKind::TrackMap, true, AnchorPosition::TopRight)];
    assert_eq!(
        build_plan(&frames(), &channels, None),
        Err(InsufficientDataError::TooFewPoints)
    );
}
