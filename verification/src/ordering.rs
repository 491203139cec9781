//! A track whose instants never run backwards gives frames that follow
//! each other in time, through every stage.

use vstd::prelude::*;
use vstd::arithmetic::div_mod::*;
use crate::align::{
    AlignedPoint,
    SyncAnchor,
    VideoWindow,
    aligned,
    keeps,
    lemma_aligned_in_range,
    placed,
};
use crate::frames::{frames_of, legs_fit, placed_wf, points_of};
use crate::interpolate::{
    chain,
    densified,
    instant_or_zero,
    interval_count,
    lemma_densified_ends,
    lemma_interval_count_bounds,
    lemma_lerp_between,
    lerp,
    needs_fill,
};
use crate::kinematics::Leg;
use crate::pipeline::{
    lemma_aligned_all_kept,
    lemma_densified_kept,
    lemma_prepared_complete,
    prepared,
};
use crate::schedule::{frames_ordered, frames_wf};
use crate::track::{TrackPoint, track_wf};

verus! {

/// The instants of the track never run backwards: of two points that both
/// have an instant, the later in the track is no earlier in time.
pub open spec fn time_ordered(points: Seq<TrackPoint>) -> bool {
    forall|i: int, j: int|
        0 <= i <= j < points.len() && (#[trigger] points[i]).timestamp is Some && (
        #[trigger] points[j]).timestamp is Some ==> points[i].timestamp.unwrap()
            <= points[j].timestamp.unwrap()
}

/// Every point has an instant, and none is earlier than the one before it.
pub open spec fn steps_forward(points: Seq<TrackPoint>) -> bool {
    &&& forall|i: int| 0 <= i < points.len() ==> (#[trigger] points[i]).timestamp is Some
    &&& forall|i: int, j: int|
        0 <= i && j == i + 1 && j < points.len() ==> (#[trigger] points[i]).timestamp.unwrap() <= (
        #[trigger] points[j]).timestamp.unwrap()
}

/// The aligned points follow each other in video time.
pub open spec fn placed_ordered(placed: Seq<AlignedPoint>) -> bool {
    forall|i: int, j: int|
        0 <= i <= j < placed.len() ==> (#[trigger] placed[i]).video_relative_ms <= (
        #[trigger] placed[j]).video_relative_ms
}

/// Points that step forward are ordered in time as a whole.
pub proof fn lemma_steps_forward_ordered(points: Seq<TrackPoint>, i: int, j: int)
    requires
        steps_forward(points),
        0 <= i <= j < points.len(),
    ensures
        points[i].timestamp.unwrap() <= points[j].timestamp.unwrap(),
    decreases j - i,
{
    if i < j {
        lemma_steps_forward_ordered(points, i, j - 1);
    }
}

/// Every aligned point is a point of the track.
pub proof fn lemma_aligned_from_track(
    points: Seq<TrackPoint>,
    window: VideoWindow,
    anchor: SyncAnchor,
    k: int,
) -> (i: int)
    requires
        0 <= k < aligned(points, window, anchor).len(),
    ensures
        0 <= i < points.len(),
        aligned(points, window, anchor)[k].point == points[i],
    decreases points.len(),
{
    let head = points.drop_last();
    if keeps(window, anchor, points.last()) && k == aligned(head, window, anchor).len() {
        points.len() - 1
    } else {
        lemma_aligned_from_track(head, window, anchor, k)
    }
}

/// The points kept of a track that is ordered in time step forward.
pub proof fn lemma_aligned_steps_forward(
    points: Seq<TrackPoint>,
    window: VideoWindow,
    anchor: SyncAnchor,
)
    requires
        window.wf(),
        time_ordered(points),
    ensures
        steps_forward(points_of(aligned(points, window, anchor))),
    decreases points.len(),
{
    let out = aligned(points, window, anchor);
    let kept = points_of(out);
    lemma_aligned_in_range(points, window, anchor);
    if points.len() > 0 {
        let head = points.drop_last();
        lemma_aligned_steps_forward(head, window, anchor);
        lemma_aligned_in_range(head, window, anchor);
        let before = aligned(head, window, anchor);
        assert forall|i: int, j: int| 0 <= i && j == i + 1 && j < kept.len() implies (
        #[trigger] kept[i]).timestamp.unwrap() <= (#[trigger] kept[j]).timestamp.unwrap() by {
            if i + 1 < before.len() {
                assert(points_of(before)[i] == kept[i]);
                assert(points_of(before)[j] == kept[j]);
            } else {
                lemma_aligned_from_track(head, window, anchor, i);
            }
        }
    }
}

/// The run from a point through the inserted points to a later point steps
/// forward.
pub proof fn lemma_chain_steps_forward(a: TrackPoint, b: TrackPoint, max_secs: int)
    requires
        a.wf(),
        b.wf(),
        max_secs >= 1,
        steps_forward(seq![a, b]),
    ensures
        steps_forward(chain(a, b, max_secs)),
{
    let c = chain(a, b, max_secs);
    if needs_fill(a, b, max_secs) {
        let ta = instant_or_zero(a);
        let tb = instant_or_zero(b);
        let g = tb - ta;
        let n = interval_count(g, max_secs * 1000);
        lemma_interval_count_bounds(g, max_secs * 1000);
        assert forall|j: int| 0 <= j <= n implies (#[trigger] c[j]).timestamp == Some(
            lerp(ta, tb, j, n) as i64,
        ) && ta <= lerp(ta, tb, j, n) <= tb by {
            lemma_lerp_between(ta, tb, j, n);
        }
        assert forall|j: int, k: int| 0 <= j && k == j + 1 && k < c.len() implies (
        #[trigger] c[j]).timestamp.unwrap() <= (#[trigger] c[k]).timestamp.unwrap() by {
            assert(g * j <= g * (j + 1)) by (nonlinear_arith)
                requires
                    g > 0,
            ;
            lemma_div_is_ordered(g * j, g * (j + 1), n);
        }
    }
}

/// Densifying points that step forward gives points that step forward.
pub proof fn lemma_densified_steps_forward(points: Seq<TrackPoint>, max_secs: int)
    requires
        track_wf(points),
        max_secs >= 1,
        steps_forward(points),
    ensures
        steps_forward(densified(points, max_secs)),
    decreases points.len(),
{
    if points.len() > 1 {
        let head = points.drop_last();
        let a = points[points.len() - 2];
        let b = points[points.len() - 1];
        lemma_densified_steps_forward(head, max_secs);
        lemma_densified_ends(head, max_secs);
        assert(steps_forward(seq![a, b]));
        lemma_chain_steps_forward(a, b, max_secs);
        let d = densified(head, max_secs);
        let c = chain(a, b, max_secs);
        let whole = densified(points, max_secs);
        assert forall|j: int| 0 <= j < whole.len() implies (
        #[trigger] whole[j]).timestamp is Some by {}
        assert forall|j: int, j1: int| 0 <= j && j1 == j + 1 && j1 < whole.len() implies (
        #[trigger] whole[j]).timestamp.unwrap() <= (#[trigger] whole[j1]).timestamp.unwrap() by {
            if j + 1 >= d.len() {
                let k = j - (d.len() - 1);
                assert(c[k] == whole[j]);
                assert(c[k + 1] == whole[j1]);
            }
        }
    }
}

/// A track that is ordered in time prepares to aligned points, and to
/// frames, that follow each other in video time.
pub proof fn lemma_prepared_frames_ordered(
    track: Seq<TrackPoint>,
    window: VideoWindow,
    anchor: SyncAnchor,
    level: int,
    legs: Seq<Leg>,
)
    requires
        window.wf(),
        anchor.wf(),
        track_wf(track),
        time_ordered(track),
        level >= 1,
        legs_fit(prepared(track, window, anchor, level), legs),
    ensures
        placed_ordered(prepared(track, window, anchor, level)),
        placed_wf(prepared(track, window, anchor, level)),
        frames_ordered(frames_of(prepared(track, window, anchor, level), legs)),
        frames_wf(frames_of(prepared(track, window, anchor, level), legs)),
{
    let kept = aligned(track, window, anchor);
    let points = points_of(kept);
    let dense = densified(points, level);
    let out = prepared(track, window, anchor, level);
    lemma_aligned_in_range(track, window, anchor);
    lemma_aligned_steps_forward(track, window, anchor);
    lemma_densified_steps_forward(points, level);
    lemma_densified_kept(points, window, anchor, level);
    lemma_aligned_all_kept(dense, window, anchor);
    lemma_prepared_complete(track, window, anchor, level);
    assert forall|i: int, j: int| 0 <= i <= j < out.len() implies (
    #[trigger] out[i]).video_relative_ms <= (#[trigger] out[j]).video_relative_ms by {
        lemma_steps_forward_ordered(dense, i, j);
    }
}

} // verus!
