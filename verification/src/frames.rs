//! The frames to render: one per aligned point, with the kinematics derived
//! at that point.

use vstd::prelude::*;
use crate::align::AlignedPoint;
use crate::kinematics::{
    Leg,
    bearing_of,
    calculate_g_force,
    calculate_speed_kmh,
    climb,
    g_force_between,
    legs_wf,
    lemma_climb_monotone,
    lemma_path_length_monotone,
    lemma_total_fits,
    normalize_bearing,
    path_length,
    rise_between,
    speed_between,
};
use crate::track::{INSTANT_LIMIT_MS, TrackPoint};

verus! {

/// What is derived at one point. A value that cannot be derived is absent;
/// it is never replaced by zero here.
#[derive(Clone, Copy, Debug, PartialEq, Eq, Structural)]
pub struct Metrics {
    /// Metres per hour (thousandths of km/h) on the leg into the point.
    pub speed: Option<u64>,
    /// Thousandths of a degree from north, on the leg into the point.
    pub bearing: Option<u32>,
    /// Millionths of standard gravity, along the track.
    pub g_force: Option<i64>,
    /// Millimetres travelled since the first frame.
    pub cumulative_distance: Option<u128>,
    /// Millimetres climbed since the first frame.
    pub cumulative_elevation_gain: Option<u128>,
}

/// One instant of the video with the point of the track that belongs to it.
#[derive(Clone, Copy, Debug, PartialEq, Eq, Structural)]
pub struct RenderableFrame {
    /// Milliseconds from the start of the video.
    pub video_relative_ms: i64,
    pub source_point: TrackPoint,
    pub metrics: Metrics,
}

/// The points of a list of aligned points.
pub open spec fn points_of(placed: Seq<AlignedPoint>) -> Seq<TrackPoint> {
    Seq::new(placed.len(), |i: int| placed[i].point)
}

/// Every aligned point is well formed and lies at or after the start of the
/// video, within the limit.
pub open spec fn placed_wf(placed: Seq<AlignedPoint>) -> bool {
    forall|i: int|
        0 <= i < placed.len() ==> (#[trigger] placed[i]).point.wf() && 0
            <= placed[i].video_relative_ms <= 2 * INSTANT_LIMIT_MS
}

/// Whether `legs` holds one leg for each pair of adjacent points.
pub open spec fn legs_fit(placed: Seq<AlignedPoint>, legs: Seq<Leg>) -> bool {
    if placed.len() == 0 {
        legs.len() == 0
    } else {
        legs.len() + 1 == placed.len()
    }
}

/// What is derived at point `k`: speed and bearing from the leg into it,
/// acceleration from the legs on both sides, totals from the first point.
pub open spec fn metrics_at(placed: Seq<AlignedPoint>, legs: Seq<Leg>, k: int) -> Metrics {
    Metrics {
        speed: if k >= 1 {
            match speed_between(placed[k - 1].point, placed[k].point, legs[k - 1].distance_mm as int) {
                Some(v) => Some(v as u64),
                None => None,
            }
        } else {
            None
        },
        bearing: if k >= 1 {
            Some(bearing_of(legs[k - 1].bearing_mdeg as int) as u32)
        } else {
            None
        },
        g_force: if 1 <= k < placed.len() - 1 {
            match g_force_between(
                placed[k - 1].point,
                placed[k].point,
                placed[k + 1].point,
                legs[k - 1].distance_mm as int,
                legs[k].distance_mm as int,
            ) {
                Some(g) => Some(g as i64),
                None => None,
            }
        } else {
            None
        },
        cumulative_distance: Some(path_length(legs, k) as u128),
        cumulative_elevation_gain: Some(climb(points_of(placed), k) as u128),
    }
}

/// The frame of point `k`.
pub open spec fn frame_at(placed: Seq<AlignedPoint>, legs: Seq<Leg>, k: int) -> RenderableFrame {
    RenderableFrame {
        video_relative_ms: placed[k].video_relative_ms,
        source_point: placed[k].point,
        metrics: metrics_at(placed, legs, k),
    }
}

/// The frames of a list of aligned points.
pub open spec fn frames_of(placed: Seq<AlignedPoint>, legs: Seq<Leg>) -> Seq<RenderableFrame> {
    Seq::new(placed.len(), |k: int| frame_at(placed, legs, k))
}

/// The distance travelled up to a frame, as a number.
pub open spec fn distance_at(frame: RenderableFrame) -> int {
    match frame.metrics.cumulative_distance {
        Some(d) => d as int,
        None => 0,
    }
}

/// The height gained up to a frame, as a number.
pub open spec fn gain_at(frame: RenderableFrame) -> int {
    match frame.metrics.cumulative_elevation_gain {
        Some(g) => g as int,
        None => 0,
    }
}

/// Monotonic accumulation: along the frames neither the distance travelled
/// nor the height gained ever shrinks.
pub proof fn lemma_totals_monotone(placed: Seq<AlignedPoint>, legs: Seq<Leg>, i: int, j: int)
    requires
        legs_fit(placed, legs),
        placed.len() <= usize::MAX,
        0 <= i <= j < placed.len(),
    ensures
        distance_at(frames_of(placed, legs)[i]) <= distance_at(frames_of(placed, legs)[j]),
        gain_at(frames_of(placed, legs)[i]) <= gain_at(frames_of(placed, legs)[j]),
        distance_at(frames_of(placed, legs)[j]) == path_length(legs, j),
        gain_at(frames_of(placed, legs)[j]) == climb(points_of(placed), j),
{
    lemma_path_length_monotone(legs, i, j);
    lemma_path_length_monotone(legs, i, i);
    lemma_climb_monotone(points_of(placed), i, j);
    lemma_climb_monotone(points_of(placed), i, i);
    lemma_total_fits(i);
    lemma_total_fits(j);
}

/// The frames for a list of aligned points and the legs measured between
/// each two adjacent ones, in the same order.
pub fn derive_frames(placed: &Vec<AlignedPoint>, legs: &Vec<Leg>) -> (frames: Vec<RenderableFrame>)
    requires
        legs_fit(placed@, legs@),
        legs_wf(legs@),
        forall|i: int| 0 <= i < placed.len() ==> (#[trigger] placed[i]).point.wf(),
    ensures
        frames@ == frames_of(placed@, legs@),
        forall|i: int, j: int|
            0 <= i <= j < frames.len() ==> distance_at(#[trigger] frames[i]) <= distance_at(
                #[trigger] frames[j],
            ) && gain_at(frames[i]) <= gain_at(frames[j]),
{
    let mut frames: Vec<RenderableFrame> = Vec::new();
    let mut distance: u128 = 0;
    let mut gain: u128 = 0;
    let mut k: usize = 0;
    while k < placed.len()
        invariant
            k <= placed.len(),
            legs_fit(placed@, legs@),
            legs_wf(legs@),
            forall|i: int| 0 <= i < placed.len() ==> (#[trigger] placed[i]).point.wf(),
            k < placed.len() ==> distance == path_length(legs@, k as int),
            k < placed.len() ==> gain == climb(points_of(placed@), k as int),
            frames@ =~= Seq::new(k as nat, |i: int| frame_at(placed@, legs@, i)),
        decreases placed.len() - k,
    {
        let here: TrackPoint = placed[k].point;
        let mut speed: Option<u64> = None;
        let mut bearing: Option<u32> = None;
        let mut g_force: Option<i64> = None;
        if k >= 1 {
            let before: TrackPoint = placed[k - 1].point;
            speed = calculate_speed_kmh(&before, &here, legs[k - 1].distance_mm);
            bearing = Some(normalize_bearing(legs[k - 1].bearing_mdeg));
            if k < placed.len() - 1 {
                let after: TrackPoint = placed[k + 1].point;
                g_force =
                calculate_g_force(
                    &before,
                    &here,
                    &after,
                    legs[k - 1].distance_mm,
                    legs[k].distance_mm,
                );
            }
        }
        let frame = RenderableFrame {
            video_relative_ms: placed[k].video_relative_ms,
            source_point: here,
            metrics: Metrics {
                speed,
                bearing,
                g_force,
                cumulative_distance: Some(distance),
                cumulative_elevation_gain: Some(gain),
            },
        };
        frames.push(frame);
        if k + 1 < placed.len() {
            proof {
                lemma_path_length_monotone(legs@, k as int, k as int);
                lemma_climb_monotone(points_of(placed@), k as int, k as int);
                lemma_total_fits(k as int);
            }
            distance = distance + (legs[k].distance_mm as u128);
            let next: TrackPoint = placed[k + 1].point;
            gain = gain + (rise_between(&here, &next) as u128);
        }
        k += 1;
    }
    proof {
        assert forall|i: int, j: int| 0 <= i <= j < frames.len() implies distance_at(
            #[trigger] frames[i],
        ) <= distance_at(#[trigger] frames[j]) && gain_at(frames[i]) <= gain_at(frames[j]) by {
            lemma_totals_monotone(placed@, legs@, i, j);
        }
    }
    frames
}

} // verus!
