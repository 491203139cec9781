//! The stages of one job, from the loaded track to the plan for the
//! compositor, and the log that reports how the job ended.

use vstd::prelude::*;
use vstd::string::StringExecFns;
use crate::align::{
    AlignedPoint,
    AlignmentError,
    SyncAnchor,
    VideoWindow,
    aligned,
    any_timestamped,
    has_timestamped,
    keeps,
    lemma_aligned_in_range,
    parse_anchor,
    place,
    placed,
    anchor_of,
    utc_millis_of_text,
};
use crate::frames::{RenderableFrame, derive_frames, frames_of, legs_fit, placed_wf, points_of};
use crate::i18n::{t, translated};
use crate::interpolate::{
    ConfigError,
    densified,
    fill,
    instant_or_zero,
    interpolate_gpx_points,
    interval_count,
    lemma_interval_count_bounds,
    lemma_lerp_between,
};
use crate::kinematics::{Leg, legs_wf};
use crate::projection::{Canvas, InsufficientDataError, ProjectionMapper};
use crate::schedule::{
    ChannelKind,
    CompositionOp,
    OverlayChannel,
    build_plan,
    plan_of,
    select_channel,
    selected,
};
use crate::track::{TrackPoint, track_wf};

verus! {

/// Why a job failed.
#[derive(Clone, Copy, Debug, PartialEq, Eq, Structural)]
pub enum JobError {
    /// The configuration was refused.
    Config(ConfigError),
    /// The track or the video could not be read.
    Source,
    /// The track could not be aligned with the video.
    Alignment(AlignmentError),
    /// Too few points for what an enabled channel needs.
    InsufficientData(InsufficientDataError),
    /// The compositor failed.
    Backend,
}

/// Where a job stands. A job passes each stage once, in this order, and
/// ends as done or as failed.
#[derive(Clone, Copy, Debug, PartialEq, Eq, Structural)]
pub enum JobStage {
    Loaded,
    Aligned,
    Interpolated,
    Scheduled,
    Composed,
    Done,
    Failed,
}

/// The place of a stage in the order of the stages.
pub open spec fn stage_rank(stage: JobStage) -> int {
    match stage {
        JobStage::Loaded => 0,
        JobStage::Aligned => 1,
        JobStage::Interpolated => 2,
        JobStage::Scheduled => 3,
        JobStage::Composed => 4,
        JobStage::Done => 5,
        JobStage::Failed => 6,
    }
}

/// Whether a job that stands there goes no further.
pub open spec fn is_terminal(stage: JobStage) -> bool {
    stage == JobStage::Done || stage == JobStage::Failed
}

/// The stage after a step that went well or failed.
pub open spec fn stage_after(stage: JobStage, went_well: bool) -> JobStage {
    if is_terminal(stage) {
        stage
    } else if !went_well {
        JobStage::Failed
    } else {
        match stage {
            JobStage::Loaded => JobStage::Aligned,
            JobStage::Aligned => JobStage::Interpolated,
            JobStage::Interpolated => JobStage::Scheduled,
            JobStage::Scheduled => JobStage::Composed,
            _ => JobStage::Done,
        }
    }
}

/// The stage of a job after its next step went well or failed. A job that
/// is done or has failed stays as it is.
pub fn advance(stage: JobStage, went_well: bool) -> (next: JobStage)
    ensures
        next == stage_after(stage, went_well),
{
    match stage {
        JobStage::Done => JobStage::Done,
        JobStage::Failed => JobStage::Failed,
        _ => {
            if !went_well {
                JobStage::Failed
            } else {
                match stage {
                    JobStage::Loaded => JobStage::Aligned,
                    JobStage::Aligned => JobStage::Interpolated,
                    JobStage::Interpolated => JobStage::Scheduled,
                    JobStage::Scheduled => JobStage::Composed,
                    _ => JobStage::Done,
                }
            }
        },
    }
}

/// No stage is passed twice: a step from a stage that is not terminal
/// leads to exactly the next stage, or to failure, which every such stage
/// can reach; a terminal stage is never left.
pub proof fn lemma_stages_pass_once(stage: JobStage, went_well: bool)
    ensures
        is_terminal(stage) ==> stage_after(stage, went_well) == stage,
        !is_terminal(stage) ==> stage_after(stage, false) == JobStage::Failed,
        !is_terminal(stage) ==> stage_rank(stage_after(stage, true)) == stage_rank(stage) + 1,
        !is_terminal(stage) ==> stage_after(stage, went_well) != stage,
{
}

/// How the video is to be delivered.
#[derive(Clone, Copy, Debug, PartialEq, Eq, Structural)]
pub enum Outcome {
    /// The operations of the plan are laid over the video.
    Composite,
    /// No overlay was enabled: the video is copied as it is.
    CopyNoOverlay,
    /// No point of the track falls inside the video: the video is copied
    /// as it is.
    CopyNoMatch,
}

/// What the compositor is handed.
pub struct JobPlan {
    pub outcome: Outcome,
    pub frames: Vec<RenderableFrame>,
    pub mapper: Option<ProjectionMapper>,
    pub ops: Vec<CompositionOp>,
}

/// The points of a list of aligned points.
pub fn points_from(kept: &Vec<AlignedPoint>) -> (points: Vec<TrackPoint>)
    ensures
        points@ == points_of(kept@),
{
    let mut points: Vec<TrackPoint> = Vec::new();
    let mut i: usize = 0;
    while i < kept.len()
        invariant
            i <= kept.len(),
            points@ =~= Seq::new(i as nat, |k: int| kept@[k].point),
        decreases kept.len() - i,
    {
        points.push(kept[i].point);
        i += 1;
    }
    points
}

/// The track as the frames are made from it: the points inside the video,
/// densified, each placed on the video's timeline.
pub open spec fn prepared(
    track: Seq<TrackPoint>,
    window: VideoWindow,
    anchor: SyncAnchor,
    level: int,
) -> Seq<AlignedPoint> {
    aligned(densified(points_of(aligned(track, window, anchor)), level), window, anchor)
}

/// Why the track cannot be prepared, if it cannot: the anchor is no
/// instant, or else the bound is not positive, or else no point has an
/// instant.
pub open spec fn prepare_error(
    anchor: Result<SyncAnchor, AlignmentError>,
    level: int,
    track: Seq<TrackPoint>,
) -> Option<JobError> {
    match anchor {
        Err(e) => Some(JobError::Alignment(e)),
        Ok(_) => if level <= 0 {
            Some(JobError::Config(ConfigError::InvalidInterval))
        } else if !has_timestamped(track) {
            Some(JobError::Alignment(AlignmentError::NoTimestampedPoints))
        } else {
            None
        },
    }
}

/// Densifying points that all fall inside the video gives points that all
/// fall inside it.
pub proof fn lemma_densified_kept(
    points: Seq<TrackPoint>,
    window: VideoWindow,
    anchor: SyncAnchor,
    level: int,
)
    requires
        track_wf(points),
        level >= 1,
        forall|i: int| 0 <= i < points.len() ==> keeps(window, anchor, #[trigger] points[i]),
    ensures
        forall|j: int|
            0 <= j < densified(points, level).len() ==> keeps(
                window,
                anchor,
                #[trigger] densified(points, level)[j],
            ),
    decreases points.len(),
{
    if points.len() > 1 {
        let head = points.drop_last();
        let a = points[points.len() - 2];
        let b = points[points.len() - 1];
        lemma_densified_kept(head, window, anchor, level);
        let d = densified(head, level);
        let f = fill(a, b, level);
        let whole = densified(points, level);
        assert forall|j: int| 0 <= j < whole.len() implies keeps(window, anchor, #[trigger] whole[j]) by {
            if d.len() <= j < d.len() + f.len() {
                let k = j - d.len();
                let ta = instant_or_zero(a);
                let tb = instant_or_zero(b);
                let n = interval_count(tb - ta, level * 1000);
                lemma_interval_count_bounds(tb - ta, level * 1000);
                lemma_lerp_between(ta, tb, k + 1, n);
            }
        }
    }
}

/// Placing points that all fall inside the video keeps every one of them,
/// in order.
pub proof fn lemma_aligned_all_kept(points: Seq<TrackPoint>, window: VideoWindow, anchor: SyncAnchor)
    requires
        forall|i: int| 0 <= i < points.len() ==> keeps(window, anchor, #[trigger] points[i]),
    ensures
        aligned(points, window, anchor).len() == points.len(),
        forall|i: int|
            0 <= i < points.len() ==> #[trigger] aligned(points, window, anchor)[i] == placed(
                window,
                anchor,
                points[i],
            ),
    decreases points.len(),
{
    if points.len() > 0 {
        let head = points.drop_last();
        lemma_aligned_all_kept(head, window, anchor);
    }
}

/// The prepared track holds every point of the densified track inside the
/// video, each well formed and on the video's timeline.
pub proof fn lemma_prepared_complete(
    track: Seq<TrackPoint>,
    window: VideoWindow,
    anchor: SyncAnchor,
    level: int,
)
    requires
        window.wf(),
        anchor.wf(),
        track_wf(track),
        level >= 1,
    ensures
        points_of(prepared(track, window, anchor, level)) == densified(
            points_of(aligned(track, window, anchor)),
            level,
        ),
        placed_wf(prepared(track, window, anchor, level)),
{
    let kept = aligned(track, window, anchor);
    let points = points_of(kept);
    lemma_aligned_in_range(track, window, anchor);
    lemma_densified_kept(points, window, anchor, level);
    crate::interpolate::lemma_densified_gap_bounded(points, level);
    let dense = densified(points, level);
    lemma_aligned_all_kept(dense, window, anchor);
    lemma_aligned_in_range(dense, window, anchor);
}

/// The prepared track for an anchor that was read already.
///
/// Fails where the anchor is no instant, the bound is not positive or no
/// point has an instant, in this order.
pub fn prepare_track_with(
    window: &VideoWindow,
    anchor: Result<SyncAnchor, AlignmentError>,
    track: &Vec<TrackPoint>,
    interpolation_level: i64,
) -> (result: Result<Vec<AlignedPoint>, JobError>)
    requires
        window.wf(),
        track_wf(track@),
        anchor is Ok ==> anchor.unwrap().wf(),
    ensures
        match result {
            Ok(out) => {
                &&& prepare_error(anchor, interpolation_level as int, track@) is None
                &&& out@ == prepared(track@, *window, anchor.unwrap(), interpolation_level as int)
                &&& placed_wf(out@)
            },
            Err(e) => prepare_error(anchor, interpolation_level as int, track@) == Some(e),
        },
{
    let anchor = match anchor {
        Ok(a) => a,
        Err(e) => {
            return Err(JobError::Alignment(e));
        },
    };
    if interpolation_level <= 0 {
        return Err(JobError::Config(ConfigError::InvalidInterval));
    }
    if !any_timestamped(track) {
        return Err(JobError::Alignment(AlignmentError::NoTimestampedPoints));
    }
    let kept = place(window, &anchor, track);
    let points = points_from(&kept);
    proof {
        lemma_aligned_in_range(track@, *window, anchor);
        lemma_prepared_complete(track@, *window, anchor, interpolation_level as int);
    }
    match interpolate_gpx_points(&points, interpolation_level) {
        Ok(dense) => Ok(place(window, &anchor, &dense)),
        Err(e) => Err(JobError::Config(e)),
    }
}

/// The prepared track for an anchor written as a text in RFC 3339 form.
pub fn prepare_track(
    window: &VideoWindow,
    sync_timestamp: &str,
    track: &Vec<TrackPoint>,
    interpolation_level: i64,
) -> (result: Result<Vec<AlignedPoint>, JobError>)
    requires
        window.wf(),
        track_wf(track@),
    ensures
        match result {
            Ok(out) => {
                &&& prepare_error(
                    anchor_of(utc_millis_of_text(sync_timestamp@)),
                    interpolation_level as int,
                    track@,
                ) is None
                &&& out@ == prepared(
                    track@,
                    *window,
                    anchor_of(utc_millis_of_text(sync_timestamp@)).unwrap(),
                    interpolation_level as int,
                )
                &&& placed_wf(out@)
            },
            Err(e) => prepare_error(
                anchor_of(utc_millis_of_text(sync_timestamp@)),
                interpolation_level as int,
                track@,
            ) == Some(e),
        },
{
    prepare_track_with(window, parse_anchor(sync_timestamp), track, interpolation_level)
}

/// Whether a channel of any kind is enabled.
pub open spec fn any_selected(channels: Seq<OverlayChannel>) -> bool {
    selected(channels, ChannelKind::Speedometer) is Some || selected(
        channels,
        ChannelKind::TrackMap,
    ) is Some || selected(channels, ChannelKind::Stats) is Some
}

/// The frames and the plan for the aligned points, the legs measured
/// between them and the enabled channels. The map is fitted to `map_track`
/// on `canvas`.
///
/// With no channel enabled, or no aligned point, the plan is empty and the
/// video is to be copied. Fails where the map is enabled, there are frames,
/// and `map_track` has fewer than two points.
pub fn plan_job(
    placed: &Vec<AlignedPoint>,
    legs: &Vec<Leg>,
    channels: &Vec<OverlayChannel>,
    map_track: &Vec<TrackPoint>,
    canvas: Canvas,
) -> (result: Result<JobPlan, JobError>)
    requires
        placed_wf(placed@),
        legs_fit(placed@, legs@),
        legs_wf(legs@),
        track_wf(map_track@),
        canvas.wf(),
    ensures
        match result {
            Ok(plan) => if !any_selected(channels@) {
                &&& plan.outcome == Outcome::CopyNoOverlay
                &&& plan.frames@.len() == 0
                &&& plan.ops@.len() == 0
                &&& plan.mapper is None
            } else if placed.len() == 0 {
                &&& plan.outcome == Outcome::CopyNoMatch
                &&& plan.frames@.len() == 0
                &&& plan.ops@.len() == 0
                &&& plan.mapper is None
            } else {
                &&& plan.outcome == Outcome::Composite
                &&& plan.frames@ == frames_of(placed@, legs@)
                &&& plan.ops@ == plan_of(plan.frames@, channels@, plan.mapper)
                &&& plan.mapper is Some <==> selected(channels@, ChannelKind::TrackMap) is Some
                &&& plan.mapper is Some ==> {
                    &&& map_track.len() >= 2
                    &&& plan.mapper.unwrap().wf()
                    &&& plan.mapper.unwrap().canvas == canvas
                    &&& plan.mapper.unwrap().bounds.bounds(map_track@)
                }
            },
            Err(e) => {
                &&& placed.len() > 0
                &&& selected(channels@, ChannelKind::TrackMap) is Some
                &&& map_track.len() < 2
                &&& e == JobError::InsufficientData(InsufficientDataError::TooFewPoints)
            },
        },
{
    let speedometer = select_channel(channels, ChannelKind::Speedometer);
    let track_map = select_channel(channels, ChannelKind::TrackMap);
    let stats = select_channel(channels, ChannelKind::Stats);
    if speedometer.is_none() && track_map.is_none() && stats.is_none() {
        return Ok(
            JobPlan {
                outcome: Outcome::CopyNoOverlay,
                frames: Vec::new(),
                mapper: None,
                ops: Vec::new(),
            },
        );
    }
    if placed.len() == 0 {
        return Ok(
            JobPlan {
                outcome: Outcome::CopyNoMatch,
                frames: Vec::new(),
                mapper: None,
                ops: Vec::new(),
            },
        );
    }
    let mapper = if track_map.is_some() {
        match ProjectionMapper::new(map_track, canvas) {
            Ok(m) => Some(m),
            Err(e) => {
                return Err(JobError::InsufficientData(e));
            },
        }
    } else {
        None
    };
    let frames = derive_frames(placed, legs);
    match build_plan(&frames, channels, mapper) {
        Ok(ops) => Ok(JobPlan { outcome: Outcome::Composite, frames, mapper, ops }),
        Err(e) => Err(JobError::InsufficientData(e)),
    }
}

/// The line that closes the log of a job: that it is complete, or the
/// message for an error, a space and the error.
pub open spec fn closing_line(outcome: Result<(), String>, lang: Seq<char>) -> Seq<char> {
    match outcome {
        Ok(_) => translated("processing_complete"@, lang),
        Err(e) => translated("error_occurred"@, lang) + " "@ + e@,
    }
}

/// Closes the log of a job: `outcome` is how the job ended, `logs` what
/// was logged until then. The log gets its closing line; a failed job
/// hands it back beside its error.
pub fn run_processing(outcome: Result<(), String>, logs: Vec<String>, lang: &str) -> (result: Result<
    Vec<String>,
    (String, Vec<String>),
>)
    ensures
        match result {
            Ok(all) => {
                &&& outcome is Ok
                &&& all@.len() == logs@.len() + 1
                &&& all@.drop_last() == logs@
                &&& all@.last()@ == closing_line(outcome, lang@)
            },
            Err((message, all)) => {
                &&& outcome == Err::<(), String>(message)
                &&& all@.len() == logs@.len() + 1
                &&& all@.drop_last() == logs@
                &&& all@.last()@ == closing_line(outcome, lang@)
            },
        },
{
    let mut all = logs;
    match outcome {
        Ok(_) => {
            all.push(t("processing_complete", lang));
            Ok(all)
        },
        Err(message) => {
            let mut line = t("error_occurred", lang);
            line.append(" ");
            line.append(message.as_str());
            all.push(line);
            Err((message, all))
        },
    }
}

} // verus!
