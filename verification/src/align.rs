//! Maps the instants of a track onto the timeline of a video by one anchor
//! and keeps the points that fall inside the video.

use vstd::prelude::*;
use crate::track::{INSTANT_LIMIT_MS, TrackPoint, instant_ok, track_wf};

verus! {

/// The span of wall-clock time that the video covers, in milliseconds since
/// the Unix epoch.
#[derive(Clone, Copy, Debug, PartialEq, Eq, Structural)]
pub struct VideoWindow {
    pub start: i64,
    pub end: i64,
}

/// The instant of the track that coincides with the start of the video.
#[derive(Clone, Copy, Debug, PartialEq, Eq, Structural)]
pub struct SyncAnchor {
    pub track_timestamp: i64,
}

/// A point of the track placed on the video's timeline.
#[derive(Clone, Copy, Debug, PartialEq, Eq, Structural)]
pub struct AlignedPoint {
    /// Milliseconds from the start of the video.
    pub video_relative_ms: i64,
    pub point: TrackPoint,
}

/// Why a track could not be aligned.
#[derive(Clone, Copy, Debug, PartialEq, Eq, Structural)]
pub enum AlignmentError {
    /// The anchor is no instant.
    UnparsableAnchor,
    /// No point of the track has an instant.
    NoTimestampedPoints,
}

impl VideoWindow {
    /// A window is well formed when both its ends lie within the limit.
    pub open spec fn wf(&self) -> bool {
        instant_ok(self.start as int) && instant_ok(self.end as int)
    }

    /// The window that starts at `start` and lasts `duration_ms`; `None`
    /// where an end of it is out of range.
    pub fn new(start: i64, duration_ms: u64) -> (w: Option<VideoWindow>)
        ensures
            match w {
                Some(w) => w.wf() && w.start == start && w.end == start + duration_ms,
                None => !instant_ok(start as int) || !instant_ok(start + duration_ms),
            },
    {
        if start < -INSTANT_LIMIT_MS || start > INSTANT_LIMIT_MS {
            return None;
        }
        if duration_ms > 2_000_000_000_000_000_000 {
            return None;
        }
        let end: i64 = start + (duration_ms as i64);
        if end > INSTANT_LIMIT_MS {
            return None;
        }
        Some(VideoWindow { start, end })
    }
}

impl SyncAnchor {
    /// An anchor is well formed when its instant lies within the limit.
    pub open spec fn wf(&self) -> bool {
        instant_ok(self.track_timestamp as int)
    }
}

/// The constant by which the track's clock is ahead of the video's.
pub open spec fn offset_of(window: VideoWindow, anchor: SyncAnchor) -> int {
    anchor.track_timestamp - window.start
}

/// The instant `t` of the track on the video's clock.
pub open spec fn adjusted(window: VideoWindow, anchor: SyncAnchor, t: int) -> int {
    t - offset_of(window, anchor)
}

/// Milliseconds from the start of the video to the track's instant `t`.
pub open spec fn video_relative(window: VideoWindow, anchor: SyncAnchor, t: int) -> int {
    adjusted(window, anchor, t) - window.start
}

/// Whether the track's instant `t` falls inside the video.
pub open spec fn in_window(window: VideoWindow, anchor: SyncAnchor, t: int) -> bool {
    window.start <= adjusted(window, anchor, t) <= window.end
}

/// Whether the point is kept: it has an instant, and that falls inside the
/// video.
pub open spec fn keeps(window: VideoWindow, anchor: SyncAnchor, p: TrackPoint) -> bool {
    match p.timestamp {
        Some(t) => in_window(window, anchor, t as int),
        None => false,
    }
}

/// A kept point on the video's timeline.
pub open spec fn placed(window: VideoWindow, anchor: SyncAnchor, p: TrackPoint) -> AlignedPoint {
    AlignedPoint {
        video_relative_ms: video_relative(window, anchor, p.timestamp.unwrap() as int) as i64,
        point: p,
    }
}

/// The kept points of a track, in the track's order.
pub open spec fn aligned(points: Seq<TrackPoint>, window: VideoWindow, anchor: SyncAnchor) -> Seq<
    AlignedPoint,
>
    decreases points.len(),
{
    if points.len() == 0 {
        Seq::empty()
    } else if keeps(window, anchor, points.last()) {
        aligned(points.drop_last(), window, anchor).push(placed(window, anchor, points.last()))
    } else {
        aligned(points.drop_last(), window, anchor)
    }
}

/// Whether some point of the track has an instant.
pub open spec fn has_timestamped(points: Seq<TrackPoint>) -> bool {
    exists|i: int| 0 <= i < points.len() && (#[trigger] points[i]).timestamp is Some
}

/// Sync exactness: the point whose instant is the anchor lies at the very
/// start of the video, and is kept by every window that does not end before
/// it starts.
pub proof fn lemma_anchor_maps_to_zero(window: VideoWindow, anchor: SyncAnchor, p: TrackPoint)
    requires
        p.timestamp == Some(anchor.track_timestamp),
    ensures
        video_relative(window, anchor, anchor.track_timestamp as int) == 0,
        window.start <= window.end ==> keeps(window, anchor, p),
        window.start <= window.end && window.wf() ==> placed(window, anchor, p).video_relative_ms
            == 0,
{
}

/// Every kept point lies between the start of the video and its end.
pub proof fn lemma_aligned_in_range(points: Seq<TrackPoint>, window: VideoWindow, anchor: SyncAnchor)
    requires
        window.wf(),
    ensures
        aligned(points, window, anchor).len() <= points.len(),
        forall|k: int|
            0 <= k < aligned(points, window, anchor).len() ==> {
                let a = #[trigger] aligned(points, window, anchor)[k];
                &&& keeps(window, anchor, a.point)
                &&& track_wf(points) ==> a.point.wf()
                &&& a == placed(window, anchor, a.point)
                &&& 0 <= a.video_relative_ms <= window.end - window.start
                &&& a.video_relative_ms == video_relative(
                    window,
                    anchor,
                    a.point.timestamp.unwrap() as int,
                )
            },
    decreases points.len(),
{
    if points.len() > 0 {
        lemma_aligned_in_range(points.drop_last(), window, anchor);
    }
}

/// Whether some point of the track has an instant.
pub fn any_timestamped(track: &Vec<TrackPoint>) -> (found: bool)
    ensures
        found == has_timestamped(track@),
{
    let mut i: usize = 0;
    while i < track.len()
        invariant
            i <= track.len(),
            forall|k: int| 0 <= k < i ==> (#[trigger] track[k]).timestamp is None,
        decreases track.len() - i,
    {
        if track[i].timestamp.is_some() {
            return true;
        }
        i += 1;
    }
    false
}

/// The kept points of the track on the video's timeline, in the track's
/// order. A track none of whose instants fall inside the video gives an
/// empty list.
pub fn place(window: &VideoWindow, anchor: &SyncAnchor, track: &Vec<TrackPoint>) -> (kept: Vec<
    AlignedPoint,
>)
    requires
        window.wf(),
        anchor.wf(),
        track_wf(track@),
    ensures
        kept@ == aligned(track@, *window, *anchor),
{
    let offset: i64 = anchor.track_timestamp - window.start;
    let mut kept: Vec<AlignedPoint> = Vec::new();
    let mut i: usize = 0;
    while i < track.len()
        invariant
            i <= track.len(),
            window.wf(),
            anchor.wf(),
            track_wf(track@),
            offset == offset_of(*window, *anchor),
            kept@ == aligned(track@.take(i as int), *window, *anchor),
        decreases track.len() - i,
    {
        let p: TrackPoint = track[i];
        proof {
            let next = track@.take(i + 1);
            assert(next.drop_last() =~= track@.take(i as int));
        }
        match p.timestamp {
            Some(t) => {
                let adjusted_t: i64 = t - offset;
                if window.start <= adjusted_t && adjusted_t <= window.end {
                    kept.push(AlignedPoint { video_relative_ms: adjusted_t - window.start, point: p });
                }
            },
            None => {},
        }
        i += 1;
    }
    assert(track@.take(i as int) =~= track@);
    kept
}

/// The kept points of the track on the video's timeline.
///
/// Fails where no point of the track has an instant. A track none of whose
/// instants fall inside the video gives an empty list, which is no failure.
pub fn align(window: &VideoWindow, anchor: &SyncAnchor, track: &Vec<TrackPoint>) -> (result: Result<
    Vec<AlignedPoint>,
    AlignmentError,
>)
    requires
        window.wf(),
        anchor.wf(),
        track_wf(track@),
    ensures
        match result {
            Ok(kept) => has_timestamped(track@) && kept@ == aligned(track@, *window, *anchor),
            Err(e) => !has_timestamped(track@) && e == AlignmentError::NoTimestampedPoints,
        },
{
    if any_timestamped(track) {
        Ok(place(window, anchor, track))
    } else {
        Err(AlignmentError::NoTimestampedPoints)
    }
}

/// The instant, in milliseconds since the Unix epoch, that chrono reads from
/// a text in its relaxed RFC 3339 form; `None` where it reads none.
pub uninterp spec fn utc_millis_of_text(text: Seq<char>) -> Option<i64>;

/// Calls chrono's `FromStr` for `DateTime<Utc>` on the text and, on
/// success, `DateTime::timestamp_millis` on what it gave. The contract only
/// gives that outcome its name: the same text always reads as the same
/// instant. Nothing is claimed about which texts are accepted.
#[verifier::external_body]
fn parse_utc_millis(text: &str) -> (ms: Option<i64>)
    ensures
        ms == utc_millis_of_text(text@),
{
    match text.parse::<chrono::DateTime<chrono::Utc>>() {
        Ok(instant) => Some(instant.timestamp_millis()),
        Err(_) => None,
    }
}

/// The anchor that a reading of an instant stands for.
pub open spec fn anchor_of(ms: Option<i64>) -> Result<SyncAnchor, AlignmentError> {
    match ms {
        Some(t) => if instant_ok(t as int) {
            Ok(SyncAnchor { track_timestamp: t })
        } else {
            Err(AlignmentError::UnparsableAnchor)
        },
        None => Err(AlignmentError::UnparsableAnchor),
    }
}

/// The anchor for a reading of an instant: an error where nothing was read
/// or the instant is out of range.
pub fn anchor_from_millis(ms: Option<i64>) -> (result: Result<SyncAnchor, AlignmentError>)
    ensures
        result == anchor_of(ms),
        result is Ok ==> result.unwrap().wf(),
{
    match ms {
        Some(t) => {
            if -INSTANT_LIMIT_MS <= t && t <= INSTANT_LIMIT_MS {
                Ok(SyncAnchor { track_timestamp: t })
            } else {
                Err(AlignmentError::UnparsableAnchor)
            }
        },
        None => Err(AlignmentError::UnparsableAnchor),
    }
}

/// The anchor written as a text in RFC 3339 form.
pub fn parse_anchor(text: &str) -> (result: Result<SyncAnchor, AlignmentError>)
    ensures
        result == anchor_of(utc_millis_of_text(text@)),
        result is Ok ==> result.unwrap().wf(),
{
    anchor_from_millis(parse_utc_millis(text))
}

/// Whether the point has an instant later than `start`.
pub open spec fn after_start(p: TrackPoint, start: int) -> bool {
    match p.timestamp {
        Some(t) => t > start,
        None => false,
    }
}

/// The index of the first point whose instant is later than the start of
/// the video: the default proposal for the anchor.
pub fn suggest_sync_point(track: &Vec<TrackPoint>, video_start: i64) -> (found: Option<usize>)
    ensures
        match found {
            Some(i) => {
                &&& i < track.len()
                &&& after_start(track[i as int], video_start as int)
                &&& forall|k: int| 0 <= k < i ==> !after_start(#[trigger] track[k], video_start as int)
            },
            None => forall|k: int|
                0 <= k < track.len() ==> !after_start(#[trigger] track[k], video_start as int),
        },
{
    let mut i: usize = 0;
    while i < track.len()
        invariant
            i <= track.len(),
            forall|k: int| 0 <= k < i ==> !after_start(#[trigger] track[k], video_start as int),
        decreases track.len() - i,
    {
        match track[i].timestamp {
            Some(t) => {
                if t > video_start {
                    return Some(i);
                }
            },
            None => {},
        }
        i += 1;
    }
    None
}

} // verus!
