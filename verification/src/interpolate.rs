//! Densifies a track so that no two adjacent timestamped points lie farther
//! apart in time than a bound.

use vstd::prelude::*;
use vstd::arithmetic::div_mod::*;
use vstd::arithmetic::mul::*;
use crate::track::{GeoPoint, Sensor, TrackPoint, track_wf};

verus! {

/// Why a configuration was refused.
#[derive(Clone, Copy, Debug, PartialEq, Eq, Structural)]
pub enum ConfigError {
    /// The bound on the interval between points is not positive.
    InvalidInterval,
}

/// The time from `a` to `b` in milliseconds, where both have an instant.
pub open spec fn gap_of(a: TrackPoint, b: TrackPoint) -> Option<int> {
    match (a.timestamp, b.timestamp) {
        (Some(x), Some(y)) => Some(y - x),
        _ => None,
    }
}

/// Whether the pair lies farther apart than `max_secs` seconds.
pub open spec fn needs_fill(a: TrackPoint, b: TrackPoint, max_secs: int) -> bool {
    match gap_of(a, b) {
        Some(g) => g > max_secs * 1000,
        None => false,
    }
}

/// The least number of intervals of at most `max_ms` that cover `gap`.
pub open spec fn interval_count(gap: int, max_ms: int) -> int {
    (gap + max_ms - 1) / max_ms
}

/// The value at `i / n` of the way from `a` to `b`, rounded towards `a`.
pub open spec fn lerp(a: int, b: int, i: int, n: int) -> int {
    if b >= a {
        a + ((b - a) * i) / n
    } else {
        a - ((a - b) * i) / n
    }
}

/// The height used for interpolation: zero where none was recorded.
pub open spec fn height_or_zero(p: TrackPoint) -> int {
    match p.elevation {
        Some(e) => e as int,
        None => 0,
    }
}

/// The instant used for interpolation.
pub open spec fn instant_or_zero(p: TrackPoint) -> int {
    match p.timestamp {
        Some(t) => t as int,
        None => 0,
    }
}

/// The synthetic point at `i / n` of the way from `a` to `b`. It carries no
/// sensor samples.
pub open spec fn synthetic(a: TrackPoint, b: TrackPoint, i: int, n: int) -> TrackPoint {
    TrackPoint {
        position: GeoPoint {
            lat_e7: lerp(a.position.lat_e7 as int, b.position.lat_e7 as int, i, n) as i64,
            lon_e7: lerp(a.position.lon_e7 as int, b.position.lon_e7 as int, i, n) as i64,
        },
        elevation: Some(lerp(height_or_zero(a), height_or_zero(b), i, n) as i64),
        timestamp: Some(lerp(instant_or_zero(a), instant_or_zero(b), i, n) as i64),
        sensor: Sensor::absent(),
    }
}

/// The points to insert between `a` and `b`.
pub open spec fn fill(a: TrackPoint, b: TrackPoint, max_secs: int) -> Seq<TrackPoint> {
    if needs_fill(a, b, max_secs) {
        let n = interval_count(gap_of(a, b).unwrap(), max_secs * 1000);
        Seq::new((n - 1) as nat, |k: int| synthetic(a, b, k + 1, n))
    } else {
        Seq::empty()
    }
}

/// The track with every wide pair filled.
pub open spec fn densified(points: Seq<TrackPoint>, max_secs: int) -> Seq<TrackPoint>
    decreases points.len(),
{
    if points.len() <= 1 {
        points
    } else {
        densified(points.drop_last(), max_secs) + fill(
            points[points.len() - 2],
            points[points.len() - 1],
            max_secs,
        ).push(points.last())
    }
}

/// `lerp` stays between its end values.
pub proof fn lemma_lerp_between(a: int, b: int, i: int, n: int)
    requires
        0 <= i <= n,
        0 < n,
    ensures
        a <= b ==> a <= lerp(a, b, i, n) <= b,
        b <= a ==> b <= lerp(a, b, i, n) <= a,
        i == 0 ==> lerp(a, b, i, n) == a,
        i == n ==> lerp(a, b, i, n) == b,
{
    let d = if b >= a { b - a } else { a - b };
    assert(0 <= d * i <= d * n) by (nonlinear_arith)
        requires
            0 <= d,
            0 <= i <= n,
    ;
    lemma_div_is_ordered(0, d * i, n);
    lemma_div_is_ordered(d * i, d * n, n);
    lemma_div_multiples_vanish(d, n);
    assert(d * n == n * d) by (nonlinear_arith);
    assert(0int / n == 0) by {
        lemma_div_basics(n);
    }
    if i == 0 {
        assert(d * i == 0) by (nonlinear_arith)
            requires
                i == 0,
        ;
    }
}

/// The largest number of intervals that a pair of well-formed points can need.
pub const INTERVAL_LIMIT: i64 = 2_000_000_000_000_000_000;

/// The count of intervals is at least 2 and at most the gap, for a gap
/// wider than the bound.
pub proof fn lemma_interval_count_bounds(gap: int, max_ms: int)
    requires
        0 < max_ms < gap,
    ensures
        2 <= interval_count(gap, max_ms) <= gap,
        gap <= interval_count(gap, max_ms) * max_ms,
        (interval_count(gap, max_ms) - 1) * max_ms < gap,
{
    let n = interval_count(gap, max_ms);
    lemma_fundamental_div_mod(gap + max_ms - 1, max_ms);
    lemma_mod_bound(gap + max_ms - 1, max_ms);
    assert(max_ms * n == n * max_ms) by (nonlinear_arith);
    assert((n - 1) * max_ms == n * max_ms - max_ms) by (nonlinear_arith);
    assert(n >= 2) by (nonlinear_arith)
        requires
            n * max_ms >= gap,
            gap > max_ms,
            max_ms > 0,
    ;
    assert(n <= gap) by (nonlinear_arith)
        requires
            (n - 1) * max_ms < gap,
            max_ms >= 1,
            n >= 2,
    ;
}

fn lerp_exec(a: i64, b: i64, i: i64, n: i64) -> (r: i64)
    requires
        0 <= i <= n,
        0 < n <= INTERVAL_LIMIT,
    ensures
        r == lerp(a as int, b as int, i as int, n as int),
{
    proof {
        lemma_lerp_between(a as int, b as int, i as int, n as int);
    }
    if b >= a {
        let d: i128 = b as i128 - a as i128;
        assert(0 <= d * i <= d * n <= 0x1_0000_0000_0000_0000 * INTERVAL_LIMIT) by (nonlinear_arith)
            requires
                0 <= d <= 0x1_0000_0000_0000_0000,
                0 <= i <= n <= INTERVAL_LIMIT,
        ;
        let q: i128 = (d * (i as i128)) / (n as i128);
        (a as i128 + q) as i64
    } else {
        let d: i128 = a as i128 - b as i128;
        assert(0 <= d * i <= d * n <= 0x1_0000_0000_0000_0000 * INTERVAL_LIMIT) by (nonlinear_arith)
            requires
                0 <= d <= 0x1_0000_0000_0000_0000,
                0 <= i <= n <= INTERVAL_LIMIT,
        ;
        let q: i128 = (d * (i as i128)) / (n as i128);
        (a as i128 - q) as i64
    }
}

/// The synthetic points between two points: none where either lacks an
/// instant or the pair lies within the bound.
pub fn interpolate_points(p1: &TrackPoint, p2: &TrackPoint, max_interval_secs: i64) -> (added: Vec<
    TrackPoint,
>)
    requires
        p1.wf(),
        p2.wf(),
        max_interval_secs >= 1,
    ensures
        added@ == fill(*p1, *p2, max_interval_secs as int),
{
    let mut added: Vec<TrackPoint> = Vec::new();
    let (t1, t2): (i64, i64) = match (p1.timestamp, p2.timestamp) {
        (Some(x), Some(y)) => (x, y),
        _ => {
            return added;
        },
    };
    let gap: i64 = t2 - t1;
    let max_ms: i128 = (max_interval_secs as i128) * 1000;
    if (gap as i128) <= max_ms {
        return added;
    }
    proof {
        lemma_interval_count_bounds(gap as int, max_ms as int);
    }
    let n: i64 = ((gap as i128 + max_ms - 1) / max_ms) as i64;
    let h1: i64 = match p1.elevation {
        Some(e) => e,
        None => 0,
    };
    let h2: i64 = match p2.elevation {
        Some(e) => e,
        None => 0,
    };
    let mut i: i64 = 1;
    while i < n
        invariant
            1 <= i <= n <= INTERVAL_LIMIT,
            n == interval_count(gap as int, max_ms as int),
            p1.timestamp == Some(t1),
            p2.timestamp == Some(t2),
            h1 == height_or_zero(*p1),
            h2 == height_or_zero(*p2),
            added@ =~= Seq::new((i - 1) as nat, |k: int| synthetic(*p1, *p2, k + 1, n as int)),
        decreases n - i,
    {
        let point = TrackPoint {
            position: GeoPoint {
                lat_e7: lerp_exec(p1.position.lat_e7, p2.position.lat_e7, i, n),
                lon_e7: lerp_exec(p1.position.lon_e7, p2.position.lon_e7, i, n),
            },
            elevation: Some(lerp_exec(h1, h2, i, n)),
            timestamp: Some(lerp_exec(t1, t2, i, n)),
            sensor: Sensor::none(),
        };
        proof {
            lemma_lerp_between(p1.position.lat_e7 as int, p2.position.lat_e7 as int, i as int, n as int);
            lemma_lerp_between(p1.position.lon_e7 as int, p2.position.lon_e7 as int, i as int, n as int);
            lemma_lerp_between(h1 as int, h2 as int, i as int, n as int);
            lemma_lerp_between(t1 as int, t2 as int, i as int, n as int);
        }
        added.push(point);
        i += 1;
    }
    added
}

/// No adjacent pair of `points` lies farther apart than the bound.
pub open spec fn gap_bounded(points: Seq<TrackPoint>, max_secs: int) -> bool {
    forall|j: int|
        0 <= j < points.len() - 1 ==> !needs_fill(#[trigger] points[j], points[j + 1], max_secs)
}

/// Two neighbours of an interpolated run lie at most the bound apart.
pub proof fn lemma_step_bounded(gap: int, max_ms: int, j: int)
    requires
        0 < max_ms < gap,
        0 <= j,
    ensures
        (gap * (j + 1)) / interval_count(gap, max_ms) - (gap * j) / interval_count(gap, max_ms)
            <= max_ms,
{
    let n = interval_count(gap, max_ms);
    lemma_interval_count_bounds(gap, max_ms);
    assert(gap * (j + 1) == gap * j + gap) by (nonlinear_arith);
    lemma_hoist_over_denominator(gap * j, max_ms, n as nat);
    lemma_div_is_ordered(gap * (j + 1), gap * j + max_ms * n, n);
}

/// The run from `a` through the inserted points to `b`.
pub open spec fn chain(a: TrackPoint, b: TrackPoint, max_secs: int) -> Seq<TrackPoint> {
    seq![a] + fill(a, b, max_secs).push(b)
}

/// The inserted points are well formed and the whole run keeps the bound.
pub proof fn lemma_chain_gap_bounded(a: TrackPoint, b: TrackPoint, max_secs: int)
    requires
        a.wf(),
        b.wf(),
        max_secs >= 1,
    ensures
        gap_bounded(chain(a, b, max_secs), max_secs),
        track_wf(chain(a, b, max_secs)),
{
    let c = chain(a, b, max_secs);
    if needs_fill(a, b, max_secs) {
        let ta = instant_or_zero(a);
        let tb = instant_or_zero(b);
        let g = tb - ta;
        let m = max_secs * 1000;
        let n = interval_count(g, m);
        lemma_interval_count_bounds(g, m);
        assert forall|j: int| 0 <= j <= n implies (#[trigger] c[j]).timestamp == Some(
            lerp(ta, tb, j, n) as i64,
        ) && ta <= lerp(ta, tb, j, n) <= tb by {
            lemma_lerp_between(ta, tb, j, n);
        }
        assert forall|j: int| 0 <= j < c.len() implies (#[trigger] c[j]).wf() by {
            lemma_lerp_between(ta, tb, j, n);
            lemma_lerp_between(height_or_zero(a), height_or_zero(b), j, n);
            lemma_lerp_between(a.position.lat_e7 as int, b.position.lat_e7 as int, j, n);
            lemma_lerp_between(a.position.lon_e7 as int, b.position.lon_e7 as int, j, n);
        }
        assert forall|j: int| 0 <= j < c.len() - 1 implies !needs_fill(
            #[trigger] c[j],
            c[j + 1],
            max_secs,
        ) by {
            lemma_step_bounded(g, m, j);
        }
    }
}

/// Joining two runs that keep the bound, the second starting where the
/// first ends, gives a run that keeps it.
pub proof fn lemma_join_gap_bounded(x: Seq<TrackPoint>, y: Seq<TrackPoint>, max_secs: int)
    requires
        x.len() >= 1,
        gap_bounded(x, max_secs),
        gap_bounded(seq![x.last()] + y, max_secs),
    ensures
        gap_bounded(x + y, max_secs),
{
    let z = x + y;
    let w = seq![x.last()] + y;
    assert forall|j: int| 0 <= j < z.len() - 1 implies !needs_fill(
        #[trigger] z[j],
        z[j + 1],
        max_secs,
    ) by {
        if j >= x.len() - 1 {
            let k = j - (x.len() - 1);
            assert(w[k] == z[j]);
        }
    }
}

/// A densified track begins and ends as the track does, and is no shorter.
pub proof fn lemma_densified_ends(points: Seq<TrackPoint>, max_secs: int)
    requires
        points.len() >= 1,
    ensures
        densified(points, max_secs).len() >= points.len(),
        densified(points, max_secs).first() == points.first(),
        densified(points, max_secs).last() == points.last(),
    decreases points.len(),
{
    if points.len() > 1 {
        lemma_densified_ends(points.drop_last(), max_secs);
    }
}

/// Gap bound: in a densified track no two adjacent points that both have an
/// instant lie farther apart than the bound, and every point is well formed.
pub proof fn lemma_densified_gap_bounded(points: Seq<TrackPoint>, max_secs: int)
    requires
        track_wf(points),
        max_secs >= 1,
    ensures
        gap_bounded(densified(points, max_secs), max_secs),
        track_wf(densified(points, max_secs)),
    decreases points.len(),
{
    if points.len() > 1 {
        let head = points.drop_last();
        let a = points[points.len() - 2];
        let b = points[points.len() - 1];
        let tail = fill(a, b, max_secs).push(b);
        lemma_densified_gap_bounded(head, max_secs);
        lemma_densified_ends(head, max_secs);
        lemma_chain_gap_bounded(a, b, max_secs);
        let d = densified(head, max_secs);
        lemma_join_gap_bounded(d, tail, max_secs);
        let c = chain(a, b, max_secs);
        assert forall|j: int| 0 <= j < (d + tail).len() implies (#[trigger] (d + tail)[j]).wf() by {
            if j >= d.len() {
                assert((d + tail)[j] == c[j - d.len() + 1]);
            }
        }
    }
}

/// A track that keeps the bound is left as it is.
pub proof fn lemma_densified_fixed(points: Seq<TrackPoint>, max_secs: int)
    requires
        gap_bounded(points, max_secs),
    ensures
        densified(points, max_secs) == points,
    decreases points.len(),
{
    if points.len() > 1 {
        let head = points.drop_last();
        lemma_densified_fixed(head, max_secs);
    }
}

/// Idempotence: densifying a densified track with the same bound inserts
/// nothing further.
pub proof fn lemma_densify_idempotent(points: Seq<TrackPoint>, max_secs: int)
    requires
        track_wf(points),
        max_secs >= 1,
    ensures
        densified(densified(points, max_secs), max_secs) == densified(points, max_secs),
{
    lemma_densified_gap_bounded(points, max_secs);
    lemma_densified_fixed(densified(points, max_secs), max_secs);
}

/// Where point `k` of the track stands in the densified track.
pub open spec fn slot(points: Seq<TrackPoint>, max_secs: int, k: int) -> int
    decreases points.len(),
{
    if points.len() == 0 || k >= points.len() - 1 {
        densified(points, max_secs).len() - 1
    } else {
        slot(points.drop_last(), max_secs, k)
    }
}

/// Every point of the track stands in the densified track, and in the
/// order of the track.
pub proof fn lemma_track_points_kept(points: Seq<TrackPoint>, max_secs: int, i: int, j: int)
    requires
        0 <= i <= j < points.len(),
    ensures
        0 <= slot(points, max_secs, i) <= slot(points, max_secs, j) < densified(
            points,
            max_secs,
        ).len(),
        i < j ==> slot(points, max_secs, i) < slot(points, max_secs, j),
        densified(points, max_secs)[slot(points, max_secs, i)] == points[i],
        densified(points, max_secs)[slot(points, max_secs, j)] == points[j],
    decreases points.len(),
{
    lemma_densified_ends(points, max_secs);
    if j < points.len() - 1 {
        let head = points.drop_last();
        lemma_track_points_kept(head, max_secs, i, j);
    } else if i < points.len() - 1 {
        let head = points.drop_last();
        lemma_track_points_kept(head, max_secs, i, i);
    }
}

/// The track with synthetic points inserted wherever two adjacent points
/// lie farther apart than `max_interval_secs`.
pub fn interpolate_gpx_points(points: &Vec<TrackPoint>, max_interval_secs: i64) -> (result: Result<
    Vec<TrackPoint>,
    ConfigError,
>)
    requires
        track_wf(points@),
    ensures
        match result {
            Ok(out) => {
                &&& max_interval_secs >= 1
                &&& out@ == densified(points@, max_interval_secs as int)
                &&& track_wf(out@)
                &&& gap_bounded(out@, max_interval_secs as int)
            },
            Err(e) => max_interval_secs <= 0 && e == ConfigError::InvalidInterval,
        },
{
    if max_interval_secs <= 0 {
        return Err(ConfigError::InvalidInterval);
    }
    let mut out: Vec<TrackPoint> = Vec::new();
    proof {
        lemma_densified_gap_bounded(points@, max_interval_secs as int);
    }
    if points.len() == 0 {
        return Ok(out);
    }
    out.push(points[0]);
    let mut i: usize = 1;
    while i < points.len()
        invariant
            1 <= i <= points.len(),
            max_interval_secs >= 1,
            track_wf(points@),
            out@ == densified(points@.take(i as int), max_interval_secs as int),
        decreases points.len() - i,
    {
        let mut added = interpolate_points(&points[i - 1], &points[i], max_interval_secs);
        out.append(&mut added);
        out.push(points[i]);
        proof {
            let next = points@.take(i + 1);
            assert(next.drop_last() =~= points@.take(i as int));
        }
        i += 1;
    }
    assert(points@.take(i as int) =~= points@);
    Ok(out)
}

} // verus!
