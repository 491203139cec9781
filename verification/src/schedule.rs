//! Turns the frames and the enabled overlay channels into an ordered list
//! of layering operations, each visible within a window of video time.

use vstd::prelude::*;
use crate::frames::RenderableFrame;
use crate::projection::{
    InsufficientDataError,
    PixelOffset,
    ProjectionMapper,
    SUBPIXELS,
    lemma_scale_fits,
    pixel_of,
};
use crate::track::INSTANT_LIMIT_MS;

verus! {

/// How long the overlay of the last frame stays, in milliseconds.
pub const TRAILING_MS: i64 = 1000;

/// Half the size of the marker, in pixels: the marker is centred on its
/// position.
pub const MARKER_RADIUS_PX: i64 = 4;

/// A corner of the canvas.
#[derive(Clone, Copy, Debug, PartialEq, Eq, Structural)]
pub enum AnchorPosition {
    TopLeft,
    TopRight,
    BottomLeft,
    BottomRight,
}

/// What a channel shows.
#[derive(Clone, Copy, Debug, PartialEq, Eq, Structural)]
pub enum ChannelKind {
    Speedometer,
    TrackMap,
    Stats,
}

/// One overlay that the user may switch on, with the corner it sits in.
#[derive(Clone, Copy, Debug, PartialEq, Eq, Structural)]
pub struct OverlayChannel {
    pub kind: ChannelKind,
    pub enabled: bool,
    pub anchor: AnchorPosition,
}

/// The image that an operation lays over the video.
#[derive(Clone, Copy, Debug, PartialEq, Eq, Structural)]
pub enum AssetRef {
    /// The dial rendered for the frame of that index.
    SpeedometerFrame(usize),
    /// The drawn path of the whole track.
    MapBase,
    /// The dot that marks the position on the map.
    MarkerDot,
    /// The panel of totals rendered for the frame of that index.
    StatsFrame(usize),
}

/// A span of video time in milliseconds.
#[derive(Clone, Copy, Debug, PartialEq, Eq, Structural)]
pub struct TimeWindow {
    pub start: i64,
    pub end: i64,
}

/// One layering operation. It lays its asset over the output of the
/// operation before it.
#[derive(Clone, Copy, Debug, PartialEq, Eq, Structural)]
pub struct CompositionOp {
    pub asset: AssetRef,
    /// The corner that the asset, or the layer it moves within, sits in.
    pub anchor: AnchorPosition,
    /// When the asset is visible; `None` for the whole video.
    pub window: Option<TimeWindow>,
    /// Where the asset lies within the layer placed at the corner, in
    /// hundredths of a pixel; `None` for an asset that sits in the corner
    /// itself.
    pub offset: Option<PixelOffset>,
}

/// Every frame lies at or after the start of the video, within the limit.
pub open spec fn frames_wf(frames: Seq<RenderableFrame>) -> bool {
    forall|k: int|
        0 <= k < frames.len() ==> 0 <= (#[trigger] frames[k]).video_relative_ms <= 2
            * INSTANT_LIMIT_MS && frames[k].source_point.wf()
}

/// The frames follow each other in time.
pub open spec fn frames_ordered(frames: Seq<RenderableFrame>) -> bool {
    forall|i: int, j: int|
        0 <= i <= j < frames.len() ==> (#[trigger] frames[i]).video_relative_ms <= (
        #[trigger] frames[j]).video_relative_ms
}

/// The corner of the first enabled channel of a kind among the first `n`
/// channels, if there is one.
pub open spec fn selected_in(channels: Seq<OverlayChannel>, kind: ChannelKind, n: int) -> Option<
    AnchorPosition,
>
    decreases n,
{
    if n <= 0 {
        None
    } else {
        match selected_in(channels, kind, n - 1) {
            Some(a) => Some(a),
            None => if channels[n - 1].kind == kind && channels[n - 1].enabled {
                Some(channels[n - 1].anchor)
            } else {
                None
            },
        }
    }
}

/// The corner of the first enabled channel of a kind, if there is one.
pub open spec fn selected(channels: Seq<OverlayChannel>, kind: ChannelKind) -> Option<
    AnchorPosition,
> {
    selected_in(channels, kind, channels.len() as int)
}

/// The window of frame `k`: from its own time to that of the next frame,
/// or for the trailing time after the last.
pub open spec fn window_at(frames: Seq<RenderableFrame>, k: int) -> TimeWindow {
    TimeWindow {
        start: frames[k].video_relative_ms,
        end: if k + 1 < frames.len() {
            frames[k + 1].video_relative_ms
        } else {
            (frames[k].video_relative_ms + TRAILING_MS) as i64
        },
    }
}

/// The asset of a channel that is rendered once per frame.
pub open spec fn frame_asset(kind: ChannelKind, k: int) -> AssetRef {
    match kind {
        ChannelKind::Speedometer => AssetRef::SpeedometerFrame(k as usize),
        ChannelKind::Stats => AssetRef::StatsFrame(k as usize),
        ChannelKind::TrackMap => AssetRef::MarkerDot,
    }
}

/// The operations of a channel that shows one image per frame.
pub open spec fn frame_ops(frames: Seq<RenderableFrame>, kind: ChannelKind, anchor: AnchorPosition)
    -> Seq<CompositionOp> {
    Seq::new(
        frames.len(),
        |k: int|
            CompositionOp {
                asset: frame_asset(kind, k),
                anchor,
                window: Some(window_at(frames, k)),
                offset: None,
            },
    )
}

/// Where the marker of a frame lies within the map: centred on the place
/// of the frame's position.
pub open spec fn marker_offset(m: ProjectionMapper, frame: RenderableFrame) -> PixelOffset {
    PixelOffset {
        x: (pixel_of(m, frame.source_point.position).x - MARKER_RADIUS_PX * SUBPIXELS) as i64,
        y: (pixel_of(m, frame.source_point.position).y - MARKER_RADIUS_PX * SUBPIXELS) as i64,
    }
}

/// The operations of the map: the drawn path for the whole video, then one
/// marker per frame that moves within it.
pub open spec fn map_ops(frames: Seq<RenderableFrame>, anchor: AnchorPosition, m: ProjectionMapper)
    -> Seq<CompositionOp> {
    seq![CompositionOp { asset: AssetRef::MapBase, anchor, window: None, offset: None }] + Seq::new(
        frames.len(),
        |k: int|
            CompositionOp {
                asset: AssetRef::MarkerDot,
                anchor,
                window: Some(window_at(frames, k)),
                offset: Some(marker_offset(m, frames[k])),
            },
    )
}

/// The operations of one kind of channel: none where no channel of the
/// kind is enabled or there is no frame.
pub open spec fn channel_ops(
    frames: Seq<RenderableFrame>,
    channels: Seq<OverlayChannel>,
    kind: ChannelKind,
    m: Option<ProjectionMapper>,
) -> Seq<CompositionOp> {
    match selected(channels, kind) {
        Some(anchor) => if frames.len() == 0 {
            Seq::empty()
        } else {
            match kind {
                ChannelKind::TrackMap => match m {
                    Some(m) => map_ops(frames, anchor, m),
                    None => Seq::empty(),
                },
                _ => frame_ops(frames, kind, anchor),
            }
        },
        None => Seq::empty(),
    }
}

/// The whole plan: the speedometer lowest, the map over it, the totals on
/// top.
pub open spec fn plan_of(
    frames: Seq<RenderableFrame>,
    channels: Seq<OverlayChannel>,
    m: Option<ProjectionMapper>,
) -> Seq<CompositionOp> {
    channel_ops(frames, channels, ChannelKind::Speedometer, m) + channel_ops(
        frames,
        channels,
        ChannelKind::TrackMap,
        m,
    ) + channel_ops(frames, channels, ChannelKind::Stats, m)
}

/// Whether the plan needs a mapping that was not given: the map is
/// enabled, there are frames, and no mapping.
pub open spec fn lacks_mapper(
    frames: Seq<RenderableFrame>,
    channels: Seq<OverlayChannel>,
    m: Option<ProjectionMapper>,
) -> bool {
    selected(channels, ChannelKind::TrackMap) is Some && frames.len() > 0 && m is None
}

/// The corner of the first enabled channel of a kind, if there is one.
pub fn select_channel(channels: &Vec<OverlayChannel>, kind: ChannelKind) -> (found: Option<
    AnchorPosition,
>)
    ensures
        found == selected(channels@, kind),
{
    let mut i: usize = 0;
    while i < channels.len()
        invariant
            i <= channels.len(),
            selected_in(channels@, kind, i as int) is None,
        decreases channels.len() - i,
    {
        if channels[i].kind == kind && channels[i].enabled {
            let found = Some(channels[i].anchor);
            proof {
                lemma_selected_stays(channels@, kind, i as int + 1, channels.len() as int);
            }
            return found;
        }
        i += 1;
    }
    None
}

/// Once a channel is selected among the first `n`, it stays selected among
/// more.
pub proof fn lemma_selected_stays(channels: Seq<OverlayChannel>, kind: ChannelKind, n: int, m: int)
    requires
        0 <= n <= m,
        selected_in(channels, kind, n) is Some,
    ensures
        selected_in(channels, kind, m) == selected_in(channels, kind, n),
    decreases m,
{
    if n < m {
        lemma_selected_stays(channels, kind, n, m - 1);
    }
}

/// Whether the instant `t` of the video lies in the window.
pub open spec fn window_holds(w: TimeWindow, t: int) -> bool {
    w.start <= t <= w.end
}

/// Whether one of the windows of the first `n` frames holds the instant
/// `t` of the video.
pub open spec fn shown_at(frames: Seq<RenderableFrame>, n: int, t: int) -> bool {
    exists|k: int| 0 <= k < n && window_holds(#[trigger] window_at(frames, k), t)
}

/// Among the windows of the frames before `n`, one holds `t`.
proof fn lemma_some_window_holds(frames: Seq<RenderableFrame>, t: int, n: int)
    requires
        frames_wf(frames),
        frames_ordered(frames),
        0 <= n < frames.len(),
        frames[0].video_relative_ms <= t <= frames[n].video_relative_ms,
    ensures
        shown_at(frames, frames.len() as int, t),
    decreases n,
{
    if n == 0 {
        assert(window_holds(window_at(frames, 0), t));
    } else if frames[n - 1].video_relative_ms <= t {
        assert(window_holds(window_at(frames, n - 1), t));
    } else {
        lemma_some_window_holds(frames, t, n - 1);
    }
}

/// Schedule coverage: the windows of a channel start at the time of the
/// first frame, each ends where the next begins, none runs backwards, and
/// the last ends the trailing time after the last frame. Together they hold
/// every instant from the first frame to the end of the last window and no
/// other; those before the last window hold exactly the span from the
/// first frame to the last.
pub proof fn lemma_schedule_coverage(frames: Seq<RenderableFrame>)
    requires
        frames_wf(frames),
        frames_ordered(frames),
        frames.len() > 0,
    ensures
        window_at(frames, 0).start == frames.first().video_relative_ms,
        window_at(frames, frames.len() - 1).start == frames.last().video_relative_ms,
        window_at(frames, frames.len() - 1).end == frames.last().video_relative_ms + TRAILING_MS,
        forall|k: int|
            0 <= k < frames.len() - 1 ==> (#[trigger] window_at(frames, k)).end == window_at(
                frames,
                k + 1,
            ).start,
        forall|k: int|
            0 <= k < frames.len() ==> (#[trigger] window_at(frames, k)).start <= window_at(
                frames,
                k,
            ).end,
        forall|t: int|
            #[trigger] shown_at(frames, frames.len() as int, t) <==> frames.first().video_relative_ms
                <= t <= frames.last().video_relative_ms + TRAILING_MS,
        forall|t: int|
            #[trigger] shown_at(frames, frames.len() - 1, t) <==> frames.len() > 1
                && frames.first().video_relative_ms <= t <= frames.last().video_relative_ms,
{
    let n = frames.len() as int;
    let lo = frames.first().video_relative_ms as int;
    let hi = frames.last().video_relative_ms as int;
    assert forall|t: int| #[trigger] shown_at(frames, n, t) <==> lo <= t <= hi + TRAILING_MS by {
        if lo <= t <= hi + TRAILING_MS {
            if t <= hi {
                lemma_some_window_holds(frames, t, n - 1);
            } else {
                assert(window_holds(window_at(frames, n - 1), t));
            }
        }
        if shown_at(frames, n, t) {
            let k = choose|k: int| 0 <= k < n && window_holds(#[trigger] window_at(frames, k), t);
            assert(frames[0].video_relative_ms <= frames[k].video_relative_ms);
        }
    }
    assert forall|t: int| #[trigger] shown_at(frames, n - 1, t) <==> n > 1 && lo <= t <= hi by {
        if n > 1 && lo <= t <= hi {
            lemma_some_window_before_last(frames, t, n - 1);
        }
        if shown_at(frames, n - 1, t) {
            let k = choose|k: int|
                0 <= k < n - 1 && window_holds(#[trigger] window_at(frames, k), t);
            assert(frames[0].video_relative_ms <= frames[k].video_relative_ms);
            assert(frames[k + 1].video_relative_ms <= frames[n - 1].video_relative_ms);
        }
    }
}

/// The operations of a channel are shown in the windows of the frames: one
/// operation per frame for a channel that shows an image per frame, and
/// for the map one marker per frame after the drawn path, which is shown
/// throughout.
pub proof fn lemma_channel_windows(
    frames: Seq<RenderableFrame>,
    kind: ChannelKind,
    anchor: AnchorPosition,
    m: ProjectionMapper,
    k: int,
)
    requires
        0 <= k < frames.len(),
    ensures
        frame_ops(frames, kind, anchor).len() == frames.len(),
        frame_ops(frames, kind, anchor)[k].window == Some(window_at(frames, k)),
        map_ops(frames, anchor, m).len() == frames.len() + 1,
        map_ops(frames, anchor, m)[0].window is None,
        map_ops(frames, anchor, m)[k + 1].window == Some(window_at(frames, k)),
{
}

/// Among the windows of the frames before `n`, none of them the last, one
/// holds `t`.
proof fn lemma_some_window_before_last(frames: Seq<RenderableFrame>, t: int, n: int)
    requires
        1 <= n < frames.len(),
        frames[0].video_relative_ms <= t <= frames[n].video_relative_ms,
    ensures
        shown_at(frames, frames.len() - 1, t),
    decreases n,
{
    if frames[n - 1].video_relative_ms <= t {
        assert(window_holds(window_at(frames, n - 1), t));
    } else {
        lemma_some_window_before_last(frames, t, n - 1);
    }
}

fn window_exec(frames: &Vec<RenderableFrame>, k: usize) -> (w: TimeWindow)
    requires
        frames_wf(frames@),
        k < frames.len(),
    ensures
        w == window_at(frames@, k as int),
{
    let start: i64 = frames[k].video_relative_ms;
    let end: i64 = if k + 1 < frames.len() {
        frames[k + 1].video_relative_ms
    } else {
        start + TRAILING_MS
    };
    TimeWindow { start, end }
}

/// The operations of a channel that shows one image per frame, sitting in
/// the corner `anchor`.
pub fn schedule_frames(frames: &Vec<RenderableFrame>, kind: ChannelKind, anchor: AnchorPosition)
    -> (ops: Vec<CompositionOp>)
    requires
        frames_wf(frames@),
    ensures
        ops@ == frame_ops(frames@, kind, anchor),
{
    let mut ops: Vec<CompositionOp> = Vec::new();
    let mut k: usize = 0;
    while k < frames.len()
        invariant
            k <= frames.len(),
            frames_wf(frames@),
            ops@ =~= Seq::new(
                k as nat,
                |i: int|
                    CompositionOp {
                        asset: frame_asset(kind, i),
                        anchor,
                        window: Some(window_at(frames@, i)),
                        offset: None,
                    },
            ),
        decreases frames.len() - k,
    {
        let asset = match kind {
            ChannelKind::Speedometer => AssetRef::SpeedometerFrame(k),
            ChannelKind::Stats => AssetRef::StatsFrame(k),
            ChannelKind::TrackMap => AssetRef::MarkerDot,
        };
        ops.push(CompositionOp { asset, anchor, window: Some(window_exec(frames, k)), offset: None });
        k += 1;
    }
    ops
}

/// The operations of the map: the drawn path, then one marker per frame.
pub fn schedule_map(frames: &Vec<RenderableFrame>, anchor: AnchorPosition, mapper: &ProjectionMapper)
    -> (ops: Vec<CompositionOp>)
    requires
        frames_wf(frames@),
        mapper.wf(),
    ensures
        ops@ == map_ops(frames@, anchor, *mapper),
{
    let mut ops: Vec<CompositionOp> = Vec::new();
    ops.push(CompositionOp { asset: AssetRef::MapBase, anchor, window: None, offset: None });
    let ghost base = ops@;
    let mut k: usize = 0;
    while k < frames.len()
        invariant
            k <= frames.len(),
            frames_wf(frames@),
            mapper.wf(),
            base == seq![
                CompositionOp { asset: AssetRef::MapBase, anchor, window: None, offset: None },
            ],
            ops@ =~= base + Seq::new(
                k as nat,
                |i: int|
                    CompositionOp {
                        asset: AssetRef::MarkerDot,
                        anchor,
                        window: Some(window_at(frames@, i)),
                        offset: Some(marker_offset(*mapper, frames@[i])),
                    },
            ),
        decreases frames.len() - k,
    {
        let at = mapper.pixel(frames[k].source_point.position);
        proof {
            lemma_pixel_bounded(*mapper, frames@[k as int].source_point.position);
        }
        let offset = PixelOffset {
            x: at.x - MARKER_RADIUS_PX * SUBPIXELS,
            y: at.y - MARKER_RADIUS_PX * SUBPIXELS,
        };
        ops.push(
            CompositionOp {
                asset: AssetRef::MarkerDot,
                anchor,
                window: Some(window_exec(frames, k)),
                offset: Some(offset),
            },
        );
        k += 1;
    }
    ops
}

/// The layering operations for the frames and the enabled channels: the
/// speedometer first, then the map, then the totals. No channel enabled, or
/// no frame, gives an empty plan: the video is then to be copied as it is.
///
/// Fails where the map is enabled and there are frames, but no mapping.
pub fn build_plan(
    frames: &Vec<RenderableFrame>,
    channels: &Vec<OverlayChannel>,
    mapper: Option<ProjectionMapper>,
) -> (result: Result<Vec<CompositionOp>, InsufficientDataError>)
    requires
        frames_wf(frames@),
        mapper is Some ==> mapper.unwrap().wf(),
    ensures
        match result {
            Ok(plan) => !lacks_mapper(frames@, channels@, mapper) && plan@ == plan_of(
                frames@,
                channels@,
                mapper,
            ),
            Err(e) => lacks_mapper(frames@, channels@, mapper) && e
                == InsufficientDataError::TooFewPoints,
        },
{
    let mut plan: Vec<CompositionOp> = Vec::new();
    let speedometer = select_channel(channels, ChannelKind::Speedometer);
    let track_map = select_channel(channels, ChannelKind::TrackMap);
    let stats = select_channel(channels, ChannelKind::Stats);
    if frames.len() == 0 {
        return Ok(plan);
    }
    match speedometer {
        Some(anchor) => {
            let mut ops = schedule_frames(frames, ChannelKind::Speedometer, anchor);
            plan.append(&mut ops);
        },
        None => {},
    }
    match track_map {
        Some(anchor) => {
            match mapper {
                Some(m) => {
                    let mut ops = schedule_map(frames, anchor, &m);
                    plan.append(&mut ops);
                },
                None => {
                    return Err(InsufficientDataError::TooFewPoints);
                },
            }
        },
        None => {},
    }
    match stats {
        Some(anchor) => {
            let mut ops = schedule_frames(frames, ChannelKind::Stats, anchor);
            plan.append(&mut ops);
        },
        None => {},
    }
    Ok(plan)
}

/// The place of any well-formed position lies within a bound that leaves
/// room for the marker.
pub proof fn lemma_pixel_bounded(m: ProjectionMapper, p: crate::track::GeoPoint)
    requires
        m.wf(),
        p.wf(),
    ensures
        -500_000_000_000_000_000 <= pixel_of(m, p).x <= 500_000_000_000_000_000,
        -500_000_000_000_000_000 <= pixel_of(m, p).y <= 500_000_000_000_000_000,
        pixel_of(m, p).x == m.canvas.padding * SUBPIXELS + crate::projection::scaled(
            p.lon_e7 - m.bounds.min_lon,
            m.scale,
        ),
        pixel_of(m, p).y == m.canvas.padding * SUBPIXELS + crate::projection::scaled(
            m.bounds.max_lat - p.lat_e7,
            m.scale,
        ),
{
    lemma_scale_fits(m.bounds, m.canvas);
    crate::projection::lemma_scaled_bounded(p.lon_e7 - m.bounds.min_lon, m.scale);
    crate::projection::lemma_scaled_bounded(m.bounds.max_lat - p.lat_e7, m.scale);
}

} // verus!
