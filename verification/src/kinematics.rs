//! Distance, speed, bearing and acceleration derived from pairs and triples
//! of points, and the running totals along a track.
//!
//! The great-circle distance and the raw bearing between two positions are
//! measured outside this library and handed in as a `Leg`.

use vstd::prelude::*;
use vstd::arithmetic::div_mod::*;
use crate::track::TrackPoint;
use crate::interpolate::gap_of;

verus! {

/// The largest great-circle distance, in millimetres, that a leg may have:
/// more than half the circumference of the Earth.
pub const LEG_LIMIT_MM: u64 = 25_000_000_000;

/// Thousandths of a degree in a full turn.
pub const FULL_TURN_MDEG: i64 = 360_000;

/// Standard gravity in units of 1e-5 m/s^2.
pub const STANDARD_GRAVITY_E5: i64 = 980_665;

/// What was measured between two adjacent positions.
#[derive(Clone, Copy, Debug, PartialEq, Eq, Structural)]
pub struct Leg {
    /// Great-circle distance in millimetres.
    pub distance_mm: u64,
    /// Initial bearing in thousandths of a degree, not yet normalized.
    pub bearing_mdeg: i64,
}

impl Leg {
    /// A leg is well formed when its distance lies within the limit.
    pub open spec fn wf(&self) -> bool {
        self.distance_mm <= LEG_LIMIT_MM
    }
}

/// Every leg is well formed.
pub open spec fn legs_wf(legs: Seq<Leg>) -> bool {
    forall|i: int| 0 <= i < legs.len() ==> (#[trigger] legs[i]).wf()
}

/// `r` is the square root of `x`, rounded down.
pub open spec fn is_floor_sqrt(r: int, x: int) -> bool {
    0 <= r && r * r <= x < (r + 1) * (r + 1)
}

/// A number has one rounded-down square root.
pub proof fn lemma_floor_sqrt_unique(r: int, s: int, x: int)
    requires
        is_floor_sqrt(r, x),
        is_floor_sqrt(s, x),
    ensures
        r == s,
{
    if r < s {
        assert((r + 1) * (r + 1) <= s * s) by (nonlinear_arith)
            requires
                0 <= r + 1 <= s,
        ;
    }
    if s < r {
        assert((s + 1) * (s + 1) <= r * r) by (nonlinear_arith)
            requires
                0 <= s + 1 <= r,
        ;
    }
}

/// The square root of `x`, rounded down.
pub open spec fn floor_sqrt(x: int) -> int {
    choose|r: int| is_floor_sqrt(r, x)
}

/// What satisfies `is_floor_sqrt` is the rounded-down square root.
pub proof fn lemma_floor_sqrt_is(r: int, x: int)
    requires
        is_floor_sqrt(r, x),
    ensures
        floor_sqrt(x) == r,
{
    lemma_floor_sqrt_unique(r, floor_sqrt(x), x);
}

/// The square root of `x`, rounded down.
pub fn isqrt(x: u128) -> (r: u64)
    ensures
        is_floor_sqrt(r as int, x as int),
        r == floor_sqrt(x as int),
{
    let mut lo: u128 = 0;
    let mut hi: u128 = 0x1_0000_0000_0000_0000;
    assert(hi * hi > x) by (nonlinear_arith)
        requires
            hi == 0x1_0000_0000_0000_0000,
            x <= u128::MAX,
    ;
    while hi - lo > 1
        invariant
            lo < hi <= 0x1_0000_0000_0000_0000,
            lo * lo <= x < hi * hi,
        decreases hi - lo,
    {
        let mid: u128 = lo + (hi - lo) / 2;
        assert(mid * mid <= 0xffff_ffff_ffff_ffff * 0xffff_ffff_ffff_ffff) by (nonlinear_arith)
            requires
                0 <= mid <= 0xffff_ffff_ffff_ffff,
        ;
        if mid * mid <= x {
            lo = mid;
        } else {
            hi = mid;
        }
    }
    proof {
        lemma_floor_sqrt_is(lo as int, x as int);
    }
    lo as u64
}

/// The square of the straight-line distance for a horizontal distance and
/// two heights; the heights count only where both are known.
pub open spec fn spatial_square(horizontal_mm: int, e1: Option<i64>, e2: Option<i64>) -> int {
    match (e1, e2) {
        (Some(a), Some(b)) => horizontal_mm * horizontal_mm + (b - a) * (b - a),
        _ => horizontal_mm * horizontal_mm,
    }
}

/// The straight-line distance in millimetres, rounded down.
pub open spec fn spatial_mm(horizontal_mm: int, e1: Option<i64>, e2: Option<i64>) -> int {
    floor_sqrt(spatial_square(horizontal_mm, e1, e2))
}

/// The straight-line distance in millimetres between two points that lie
/// `horizontal_mm` apart on the ground: the root of the squares of that
/// and of the difference in height, rounded down.
pub fn distance_3d(p1: &TrackPoint, p2: &TrackPoint, horizontal_mm: u64) -> (d: u64)
    requires
        p1.wf(),
        p2.wf(),
        horizontal_mm <= LEG_LIMIT_MM,
    ensures
        d == spatial_mm(horizontal_mm as int, p1.elevation, p2.elevation),
        d <= 2 * LEG_LIMIT_MM,
{
    let h: u128 = horizontal_mm as u128;
    assert(h * h <= 25_000_000_000 * 25_000_000_000) by (nonlinear_arith)
        requires
            0 <= h <= 25_000_000_000,
    ;
    let square: u128 = match (p1.elevation, p2.elevation) {
        (Some(a), Some(b)) => {
            let v: u128 = if b >= a {
                (b - a) as u128
            } else {
                (a - b) as u128
            };
            assert(v * v <= 20_000_000_000 * 20_000_000_000) by (nonlinear_arith)
                requires
                    0 <= v <= 20_000_000_000,
            ;
            assert(v * v == (b - a) * (b - a)) by (nonlinear_arith)
                requires
                    v == b - a || v == a - b,
            ;
            h * h + v * v
        },
        _ => h * h,
    };
    let d = isqrt(square);
    assert(d <= 50_000_000_000) by (nonlinear_arith)
        requires
            d * d <= square,
            square <= 25_000_000_000 * 25_000_000_000 + 20_000_000_000 * 20_000_000_000,
    ;
    d
}

/// Metres per hour for a distance in millimetres covered in `dt_ms`
/// milliseconds, rounded down.
pub open spec fn speed_of(distance_mm: int, dt_ms: int) -> int {
    (distance_mm * 3600) / dt_ms
}

/// The speed from `p1` to `p2` in metres per hour, for the great-circle
/// distance `horizontal_mm` between them: defined only where both points
/// have an instant and the second is later than the first.
pub open spec fn speed_between(p1: TrackPoint, p2: TrackPoint, horizontal_mm: int) -> Option<int> {
    match gap_of(p1, p2) {
        Some(dt) => if dt > 0 {
            Some(speed_of(spatial_mm(horizontal_mm, p1.elevation, p2.elevation), dt))
        } else {
            None
        },
        None => None,
    }
}

/// The largest speed, in metres per hour, that two well-formed points give.
pub const SPEED_LIMIT: u64 = 180_000_000_000_000;

/// The speed from `p1` to `p2` in metres per hour (thousandths of km/h),
/// for the great-circle distance `horizontal_mm` between them. No speed is
/// given where a point lacks its instant or no time has passed.
pub fn calculate_speed_kmh(p1: &TrackPoint, p2: &TrackPoint, horizontal_mm: u64) -> (speed: Option<
    u64,
>)
    requires
        p1.wf(),
        p2.wf(),
        horizontal_mm <= LEG_LIMIT_MM,
    ensures
        match speed {
            Some(v) => speed_between(*p1, *p2, horizontal_mm as int) == Some(v as int) && v
                <= SPEED_LIMIT,
            None => speed_between(*p1, *p2, horizontal_mm as int) is None,
        },
{
    let (t1, t2): (i64, i64) = match (p1.timestamp, p2.timestamp) {
        (Some(x), Some(y)) => (x, y),
        _ => {
            return None;
        },
    };
    let dt: i64 = t2 - t1;
    if dt <= 0 {
        return None;
    }
    let d = distance_3d(p1, p2, horizontal_mm);
    let scaled: u64 = d * 3600;
    let speed: u64 = scaled / (dt as u64);
    proof {
        lemma_div_is_ordered_by_denominator(scaled as int, 1, dt as int);
        lemma_div_basics(scaled as int);
    }
    Some(speed)
}

/// The divisor that turns a change of speed in metres per hour over one
/// millisecond into millionths of standard gravity, against the factor
/// `G_FORCE_SCALE`.
pub const G_FORCE_DIVISOR: i64 = 3600 * STANDARD_GRAVITY_E5;

/// See `G_FORCE_DIVISOR`.
pub const G_FORCE_SCALE: i128 = 100_000_000_000_000;

/// The acceleration, in millionths of standard gravity, of a change from
/// `v1` to `v2` metres per hour within `dt_ms` milliseconds, rounded towards
/// zero.
pub open spec fn g_force_of(v1: int, v2: int, dt_ms: int) -> int {
    if v2 >= v1 {
        ((v2 - v1) * G_FORCE_SCALE) / (G_FORCE_DIVISOR * dt_ms)
    } else {
        -(((v1 - v2) * G_FORCE_SCALE) / (G_FORCE_DIVISOR * dt_ms))
    }
}

/// The acceleration along the track at `p2`, in millionths of standard
/// gravity: defined only where the speeds into and out of `p2` are.
pub open spec fn g_force_between(
    p1: TrackPoint,
    p2: TrackPoint,
    p3: TrackPoint,
    horizontal_12: int,
    horizontal_23: int,
) -> Option<int> {
    match (speed_between(p1, p2, horizontal_12), speed_between(p2, p3, horizontal_23)) {
        (Some(v1), Some(v2)) => Some(g_force_of(v1, v2, gap_of(p2, p3).unwrap())),
        _ => None,
    }
}

/// Equal speeds into and out of a point give no acceleration.
pub proof fn lemma_steady_speed_no_g(v: int, dt_ms: int)
    requires
        dt_ms > 0,
    ensures
        g_force_of(v, v, dt_ms) == 0,
{
    assert(G_FORCE_DIVISOR * dt_ms > 0) by (nonlinear_arith)
        requires
            dt_ms > 0,
    ;
    lemma_div_basics(G_FORCE_DIVISOR * dt_ms);
}

fn g_force_exec(v1: u64, v2: u64, dt_ms: i64) -> (g: i64)
    requires
        v1 <= SPEED_LIMIT,
        v2 <= SPEED_LIMIT,
        dt_ms > 0,
    ensures
        g == g_force_of(v1 as int, v2 as int, dt_ms as int),
{
    let den: i128 = (G_FORCE_DIVISOR as i128) * (dt_ms as i128);
    let dv: i128 = if v2 >= v1 {
        (v2 - v1) as i128
    } else {
        (v1 - v2) as i128
    };
    let num: i128 = dv * G_FORCE_SCALE;
    let q: i128 = num / den;
    proof {
        assert(den >= G_FORCE_DIVISOR) by (nonlinear_arith)
            requires
                den == G_FORCE_DIVISOR * dt_ms,
                dt_ms >= 1,
        ;
        lemma_div_is_ordered_by_denominator(num as int, G_FORCE_DIVISOR as int, den as int);
        lemma_div_is_ordered(
            num as int,
            SPEED_LIMIT * G_FORCE_SCALE,
            G_FORCE_DIVISOR as int,
        );
        lemma_div_pos_is_pos(num as int, den as int);
    }
    if v2 >= v1 {
        q as i64
    } else {
        (-q) as i64
    }
}

/// The acceleration along the track at `p2`, in millionths of standard
/// gravity, for the great-circle distances of the two legs that meet
/// there. It measures the change of speed only, not the change of
/// direction. None is given where either speed is undefined.
pub fn calculate_g_force(
    p1: &TrackPoint,
    p2: &TrackPoint,
    p3: &TrackPoint,
    horizontal_12: u64,
    horizontal_23: u64,
) -> (g: Option<i64>)
    requires
        p1.wf(),
        p2.wf(),
        p3.wf(),
        horizontal_12 <= LEG_LIMIT_MM,
        horizontal_23 <= LEG_LIMIT_MM,
    ensures
        match g {
            Some(x) => g_force_between(*p1, *p2, *p3, horizontal_12 as int, horizontal_23 as int)
                == Some(x as int),
            None => g_force_between(*p1, *p2, *p3, horizontal_12 as int, horizontal_23 as int)
                is None,
        },
{
    let v1 = match calculate_speed_kmh(p1, p2, horizontal_12) {
        Some(v) => v,
        None => {
            return None;
        },
    };
    let v2 = match calculate_speed_kmh(p2, p3, horizontal_23) {
        Some(v) => v,
        None => {
            return None;
        },
    };
    let (t2, t3): (i64, i64) = match (p2.timestamp, p3.timestamp) {
        (Some(x), Some(y)) => (x, y),
        _ => {
            return None;
        },
    };
    Some(g_force_exec(v1, v2, t3 - t2))
}

/// A bearing brought into one full turn: at least 0 and below 360 degrees.
pub open spec fn bearing_of(raw_mdeg: int) -> int {
    raw_mdeg % (FULL_TURN_MDEG as int)
}

/// The bearing, in thousandths of a degree from north, for a raw angle:
/// the same direction within [0, 360) degrees.
pub fn normalize_bearing(raw_mdeg: i64) -> (bearing: u32)
    ensures
        bearing == bearing_of(raw_mdeg as int),
        bearing < FULL_TURN_MDEG,
{
    proof {
        lemma_mod_bound(raw_mdeg as int, FULL_TURN_MDEG as int);
    }
    if raw_mdeg >= 0 {
        (raw_mdeg % FULL_TURN_MDEG) as u32
    } else {
        let back: i128 = -(raw_mdeg as i128);
        let rest: i128 = back % (FULL_TURN_MDEG as i128);
        proof {
            lemma_fundamental_div_mod(back as int, FULL_TURN_MDEG as int);
            lemma_mod_bound(back as int, FULL_TURN_MDEG as int);
            let q = (back as int) / (FULL_TURN_MDEG as int);
            if rest == 0 {
                lemma_fundamental_div_mod_converse(
                    raw_mdeg as int,
                    FULL_TURN_MDEG as int,
                    -q,
                    0,
                );
            } else {
                lemma_fundamental_div_mod_converse(
                    raw_mdeg as int,
                    FULL_TURN_MDEG as int,
                    -q - 1,
                    FULL_TURN_MDEG - rest,
                );
            }
        }
        if rest == 0 {
            0
        } else {
            (FULL_TURN_MDEG as i128 - rest) as u32
        }
    }
}

/// The length in millimetres of the path over the first `n` legs.
pub open spec fn path_length(legs: Seq<Leg>, n: int) -> int
    decreases n,
{
    if n <= 0 {
        0
    } else {
        path_length(legs, n - 1) + legs[n - 1].distance_mm
    }
}

/// The height gained from `a` to `b`: the rise where both heights are known
/// and `b` lies higher, else nothing. A descent takes nothing away.
pub open spec fn rise(a: TrackPoint, b: TrackPoint) -> int {
    match (a.elevation, b.elevation) {
        (Some(x), Some(y)) => if y > x {
            y - x
        } else {
            0
        },
        _ => 0,
    }
}

/// The height gained in millimetres from the first point up to point `n`.
pub open spec fn climb(points: Seq<TrackPoint>, n: int) -> int
    decreases n,
{
    if n <= 0 {
        0
    } else {
        climb(points, n - 1) + rise(points[n - 1], points[n])
    }
}

/// The smaller of two numbers.
pub open spec fn least(a: int, b: int) -> int {
    if a <= b {
        a
    } else {
        b
    }
}

/// Monotonic accumulation: the length of the path never shrinks as it
/// takes in more legs, and is bounded by the count of legs.
pub proof fn lemma_path_length_monotone(legs: Seq<Leg>, i: int, j: int)
    requires
        0 <= i <= j <= legs.len(),
    ensures
        0 <= path_length(legs, i) <= path_length(legs, j),
        path_length(legs, j) <= j * u64::MAX,
    decreases j,
{
    if j > 0 {
        if i < j {
            lemma_path_length_monotone(legs, i, j - 1);
        } else {
            lemma_path_length_monotone(legs, i - 1, j - 1);
        }
        assert((j - 1) * u64::MAX + u64::MAX == j * u64::MAX) by (nonlinear_arith);
    }
}

/// Monotonic accumulation: the height gained never shrinks as the track
/// goes on, and is bounded by the count of points.
pub proof fn lemma_climb_monotone(points: Seq<TrackPoint>, i: int, j: int)
    requires
        0 <= i <= j < points.len(),
    ensures
        0 <= climb(points, i) <= climb(points, j),
        climb(points, j) <= j * u64::MAX,
    decreases j,
{
    if j > 0 {
        if i < j {
            lemma_climb_monotone(points, i, j - 1);
        } else {
            lemma_climb_monotone(points, i - 1, j - 1);
        }
        assert((j - 1) * u64::MAX + u64::MAX == j * u64::MAX) by (nonlinear_arith);
    }
}

/// The bound of the two lemmas above fits the type of the totals.
pub proof fn lemma_total_fits(n: int)
    requires
        0 <= n <= usize::MAX,
    ensures
        n * u64::MAX + u64::MAX <= u128::MAX,
{
    assert(n * u64::MAX + u64::MAX <= u128::MAX) by (nonlinear_arith)
        requires
            0 <= n <= 0xffff_ffff_ffff_ffff,
    ;
}

/// The distance in millimetres travelled from the first point of a track up
/// to the point `current_index`, over the legs between adjacent points. An
/// index past the end counts as the last point.
pub fn calculate_distance_to_point(legs: &Vec<Leg>, current_index: usize) -> (total: u128)
    ensures
        total == path_length(legs@, least(current_index as int, legs.len() as int)),
{
    let end: usize = if current_index <= legs.len() {
        current_index
    } else {
        legs.len()
    };
    let mut total: u128 = 0;
    let mut i: usize = 0;
    while i < end
        invariant
            i <= end <= legs.len(),
            total == path_length(legs@, i as int),
        decreases end - i,
    {
        proof {
            lemma_path_length_monotone(legs@, i as int, i as int);
            lemma_total_fits(i as int);
        }
        total = total + (legs[i].distance_mm as u128);
        i += 1;
    }
    total
}

/// The height gained from `a` to `b` in millimetres.
pub fn rise_between(a: &TrackPoint, b: &TrackPoint) -> (r: u64)
    ensures
        r == rise(*a, *b),
{
    match (a.elevation, b.elevation) {
        (Some(x), Some(y)) => {
            if y > x {
                (y as i128 - x as i128) as u64
            } else {
                0
            }
        },
        _ => 0,
    }
}

/// The height in millimetres gained from the first point of a track up to
/// the point `current_index`. Only rises count. An index past the end
/// counts as the last point.
pub fn calculate_elevation_gain_to_point(points: &Vec<TrackPoint>, current_index: usize) -> (gain:
    u128)
    ensures
        points.len() == 0 ==> gain == 0,
        points.len() > 0 ==> gain == climb(
            points@,
            least(current_index as int, points.len() - 1),
        ),
{
    if points.len() == 0 {
        return 0;
    }
    let end: usize = if current_index <= points.len() - 1 {
        current_index
    } else {
        points.len() - 1
    };
    let mut gain: u128 = 0;
    let mut i: usize = 0;
    while i < end
        invariant
            i <= end < points.len(),
            gain == climb(points@, i as int),
        decreases end - i,
    {
        proof {
            lemma_climb_monotone(points@, i as int, i as int);
            lemma_total_fits(i as int);
        }
        gain = gain + (rise_between(&points[i], &points[i + 1]) as u128);
        i += 1;
    }
    gain
}

} // verus!
