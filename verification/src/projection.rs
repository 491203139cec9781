//! Maps the bounding box of a track onto a canvas of fixed size. The same
//! mapping places the drawn path and every marker, so the two stay aligned.

use vstd::prelude::*;
use vstd::arithmetic::div_mod::*;
use crate::track::{GeoPoint, TrackPoint, track_wf};

verus! {

/// The widest and the highest canvas, in pixels.
pub const CANVAS_LIMIT: u32 = 1_000_000;

/// Hundredths of a pixel in a pixel.
pub const SUBPIXELS: i64 = 100;

/// Too few points for what was asked.
#[derive(Clone, Copy, Debug, PartialEq, Eq, Structural)]
pub enum InsufficientDataError {
    /// A bounding box needs two points.
    TooFewPoints,
}

/// The smallest box of longitudes and latitudes around a set of points, in
/// 1e-7 degrees.
#[derive(Clone, Copy, Debug, PartialEq, Eq, Structural)]
pub struct BoundingBox {
    pub min_lon: i64,
    pub max_lon: i64,
    pub min_lat: i64,
    pub max_lat: i64,
}

/// The raster to draw on, in pixels.
#[derive(Clone, Copy, Debug, PartialEq, Eq, Structural)]
pub struct Canvas {
    pub width: u32,
    pub height: u32,
    pub padding: u32,
}

/// Pixels per 1e-7 degree, as a fraction.
#[derive(Clone, Copy, Debug, PartialEq, Eq, Structural)]
pub struct Scale {
    pub num: i64,
    pub den: i64,
}

/// A place on the canvas in hundredths of a pixel, from its top left corner.
#[derive(Clone, Copy, Debug, PartialEq, Eq, Structural)]
pub struct PixelOffset {
    pub x: i64,
    pub y: i64,
}

/// The mapping from positions to places on the canvas.
#[derive(Clone, Copy, Debug, PartialEq, Eq, Structural)]
pub struct ProjectionMapper {
    pub bounds: BoundingBox,
    pub canvas: Canvas,
    pub scale: Scale,
}

impl BoundingBox {
    /// A box is well formed when its corners are places on the globe and
    /// neither range runs backwards.
    pub open spec fn wf(&self) -> bool {
        &&& (GeoPoint { lat_e7: self.min_lat, lon_e7: self.min_lon }).wf()
        &&& (GeoPoint { lat_e7: self.max_lat, lon_e7: self.max_lon }).wf()
        &&& self.min_lon <= self.max_lon
        &&& self.min_lat <= self.max_lat
    }

    /// Whether the position lies in the box.
    pub open spec fn contains(&self, p: GeoPoint) -> bool {
        &&& self.min_lon <= p.lon_e7 <= self.max_lon
        &&& self.min_lat <= p.lat_e7 <= self.max_lat
    }

    /// Whether the box is the smallest around the first `n` of the points.
    pub open spec fn bounds_first(&self, points: Seq<TrackPoint>, n: int) -> bool {
        &&& forall|i: int| 0 <= i < n ==> self.contains((#[trigger] points[i]).position)
        &&& exists|i: int| 0 <= i < n && (#[trigger] points[i]).position.lon_e7 == self.min_lon
        &&& exists|i: int| 0 <= i < n && (#[trigger] points[i]).position.lon_e7 == self.max_lon
        &&& exists|i: int| 0 <= i < n && (#[trigger] points[i]).position.lat_e7 == self.min_lat
        &&& exists|i: int| 0 <= i < n && (#[trigger] points[i]).position.lat_e7 == self.max_lat
    }

    /// Whether the box is the smallest around the points.
    pub open spec fn bounds(&self, points: Seq<TrackPoint>) -> bool {
        self.bounds_first(points, points.len() as int)
    }
}

impl Canvas {
    /// A canvas is well formed when it is no larger than the limit and the
    /// padding on both sides leaves room.
    pub open spec fn wf(&self) -> bool {
        &&& self.width <= CANVAS_LIMIT
        &&& self.height <= CANVAS_LIMIT
        &&& 2 * self.padding <= self.width
        &&& 2 * self.padding <= self.height
    }

    /// The width inside the padding.
    pub open spec fn inner_width(&self) -> int {
        self.width - 2 * self.padding
    }

    /// The height inside the padding.
    pub open spec fn inner_height(&self) -> int {
        self.height - 2 * self.padding
    }

    /// The canvas of that size; `None` where it is not well formed.
    pub fn new(width: u32, height: u32, padding: u32) -> (c: Option<Canvas>)
        ensures
            c == (if (Canvas { width, height, padding }).wf() {
                Some(Canvas { width, height, padding })
            } else {
                None
            }),
    {
        if width <= CANVAS_LIMIT && height <= CANVAS_LIMIT && padding <= CANVAS_LIMIT && 2 * padding
            <= width && 2 * padding <= height {
            Some(Canvas { width, height, padding })
        } else {
            None
        }
    }
}

/// The smallest box around the points of a track. It needs two points.
pub fn bounding_box(points: &Vec<TrackPoint>) -> (result: Result<
    BoundingBox,
    InsufficientDataError,
>)
    requires
        track_wf(points@),
    ensures
        match result {
            Ok(b) => points.len() >= 2 && b.wf() && b.bounds(points@),
            Err(e) => points.len() < 2 && e == InsufficientDataError::TooFewPoints,
        },
{
    if points.len() < 2 {
        return Err(InsufficientDataError::TooFewPoints);
    }
    let first: GeoPoint = points[0].position;
    let mut b = BoundingBox {
        min_lon: first.lon_e7,
        max_lon: first.lon_e7,
        min_lat: first.lat_e7,
        max_lat: first.lat_e7,
    };
    let mut i: usize = 1;
    while i < points.len()
        invariant
            1 <= i <= points.len(),
            track_wf(points@),
            b.wf(),
            b.bounds_first(points@, i as int),
        decreases points.len() - i,
    {
        let p: GeoPoint = points[i].position;
        let ghost before = b;
        if p.lon_e7 < b.min_lon {
            b.min_lon = p.lon_e7;
        }
        if p.lon_e7 > b.max_lon {
            b.max_lon = p.lon_e7;
        }
        if p.lat_e7 < b.min_lat {
            b.min_lat = p.lat_e7;
        }
        if p.lat_e7 > b.max_lat {
            b.max_lat = p.lat_e7;
        }
        proof {
            assert forall|k: int| 0 <= k < i + 1 implies b.contains(
                (#[trigger] points[k]).position,
            ) by {
                if k < i {
                    assert(before.contains(points[k].position));
                }
            }
        }
        i += 1;
    }
    Ok(b)
}

/// The scale that fits the box into the canvas inside its padding: the
/// smaller of the scales of the two axes, and zero where the box has no
/// extent along an axis.
pub open spec fn scale_of(b: BoundingBox, c: Canvas) -> Scale {
    let lon_range = b.max_lon - b.min_lon;
    let lat_range = b.max_lat - b.min_lat;
    if lon_range == 0 || lat_range == 0 {
        Scale { num: 0, den: 1 }
    } else if c.inner_width() * lat_range <= c.inner_height() * lon_range {
        Scale { num: c.inner_width() as i64, den: lon_range as i64 }
    } else {
        Scale { num: c.inner_height() as i64, den: lat_range as i64 }
    }
}

/// The distance `delta`, in 1e-7 degrees, on the canvas in hundredths of a
/// pixel, rounded down.
pub open spec fn scaled(delta: int, s: Scale) -> int {
    (delta * s.num * SUBPIXELS) / (s.den as int)
}

/// The place of a position on the canvas. North is up: the row grows as
/// the latitude falls.
pub open spec fn pixel_of(m: ProjectionMapper, p: GeoPoint) -> PixelOffset {
    PixelOffset {
        x: (m.canvas.padding * SUBPIXELS + scaled(p.lon_e7 - m.bounds.min_lon, m.scale)) as i64,
        y: (m.canvas.padding * SUBPIXELS + scaled(m.bounds.max_lat - p.lat_e7, m.scale)) as i64,
    }
}

/// The scale is that of one axis and no larger than that of the other, so
/// the whole box falls inside the padding.
pub proof fn lemma_scale_fits(b: BoundingBox, c: Canvas)
    requires
        b.wf(),
        c.wf(),
    ensures
        scale_of(b, c).den > 0,
        0 <= scale_of(b, c).num <= CANVAS_LIMIT,
        scale_of(b, c).num * (b.max_lon - b.min_lon) <= c.inner_width() * scale_of(b, c).den,
        scale_of(b, c).num * (b.max_lat - b.min_lat) <= c.inner_height() * scale_of(b, c).den,
{
    let lon_range = b.max_lon - b.min_lon;
    let lat_range = b.max_lat - b.min_lat;
    let s = scale_of(b, c);
    if lon_range != 0 && lat_range != 0 && c.inner_width() * lat_range > c.inner_height()
        * lon_range {
        assert(s.num * lon_range <= c.inner_width() * s.den) by (nonlinear_arith)
            requires
                c.inner_width() * lat_range > c.inner_height() * lon_range,
                s.num == c.inner_height(),
                s.den == lat_range,
        ;
    }
}

impl ProjectionMapper {
    /// A mapping is well formed when its box and its canvas are, and its
    /// scale is the one that fits the box into the canvas.
    pub open spec fn wf(&self) -> bool {
        &&& self.bounds.wf()
        &&& self.canvas.wf()
        &&& self.scale == scale_of(self.bounds, self.canvas)
    }
}

/// A position inside the box falls on the canvas inside the padding.
pub proof fn lemma_pixel_inside(m: ProjectionMapper, p: GeoPoint)
    requires
        m.wf(),
        m.bounds.contains(p),
    ensures
        m.canvas.padding * SUBPIXELS <= pixel_of(m, p).x <= (m.canvas.width - m.canvas.padding)
            * SUBPIXELS,
        m.canvas.padding * SUBPIXELS <= pixel_of(m, p).y <= (m.canvas.height - m.canvas.padding)
            * SUBPIXELS,
{
    lemma_scale_fits(m.bounds, m.canvas);
    lemma_scaled_within(p.lon_e7 - m.bounds.min_lon, m.bounds.max_lon - m.bounds.min_lon, m.scale,
        m.canvas.inner_width());
    lemma_scaled_within(p.lat_e7 - m.bounds.min_lat, m.bounds.max_lat - m.bounds.min_lat, m.scale,
        m.canvas.inner_height());
    lemma_scaled_within(m.bounds.max_lat - p.lat_e7, m.bounds.max_lat - m.bounds.min_lat, m.scale,
        m.canvas.inner_height());
}

/// A distance within a range that fits `room` pixels takes at most `room`
/// pixels.
pub proof fn lemma_scaled_within(delta: int, range: int, s: Scale, room: int)
    requires
        0 <= delta <= range,
        s.den > 0,
        0 <= s.num,
        s.num * range <= room * s.den,
    ensures
        0 <= scaled(delta, s) <= room * SUBPIXELS,
{
    let den = s.den as int;
    assert(0 <= delta * s.num * SUBPIXELS <= (room * SUBPIXELS) * den) by (nonlinear_arith)
        requires
            0 <= delta <= range,
            0 <= s.num,
            s.num * range <= room * den,
            SUBPIXELS == 100,
    ;
    lemma_div_is_ordered(0, delta * s.num * SUBPIXELS, den);
    lemma_div_is_ordered(delta * s.num * SUBPIXELS, (room * SUBPIXELS) * den, den);
    lemma_div_multiples_vanish(room * SUBPIXELS, den);
    assert((room * SUBPIXELS) * den == den * (room * SUBPIXELS)) by (nonlinear_arith);
    lemma_div_basics(den);
}

/// The distance between two positions on the globe stays within a bound on
/// any canvas.
pub proof fn lemma_scaled_bounded(delta: int, s: Scale)
    requires
        -4_000_000_000 <= delta <= 4_000_000_000,
        0 <= s.num <= CANVAS_LIMIT,
        0 < s.den,
    ensures
        -400_000_000_000_000_000 <= scaled(delta, s) <= 400_000_000_000_000_000,
{
    let den = s.den as int;
    let n = delta * s.num * SUBPIXELS;
    assert(-400_000_000_000_000_000 <= n <= 400_000_000_000_000_000) by (nonlinear_arith)
        requires
            n == delta * s.num * SUBPIXELS,
            -4_000_000_000 <= delta <= 4_000_000_000,
            0 <= s.num <= 1_000_000,
            SUBPIXELS == 100,
    ;
    lemma_fundamental_div_mod(n, den);
    lemma_mod_bound(n, den);
    let q = n / den;
    assert(-400_000_000_000_000_000 <= q <= 400_000_000_000_000_000) by (nonlinear_arith)
        requires
            n == den * q + n % den,
            0 <= n % den < den,
            den >= 1,
            -400_000_000_000_000_000 <= n <= 400_000_000_000_000_000,
    ;
}

/// `-(m / d)` rounded down for a numerator that is not positive.
proof fn lemma_floor_of_negative(m: int, d: int)
    requires
        0 <= m,
        0 < d,
    ensures
        (-m) / d == -((m + d - 1) / d),
{
    let c = (m + d - 1) / d;
    let r = (m + d - 1) % d;
    lemma_fundamental_div_mod(m + d - 1, d);
    lemma_mod_bound(m + d - 1, d);
    assert(d * (-c) == -(d * c)) by (nonlinear_arith);
    lemma_fundamental_div_mod_converse(-m, d, -c, d - 1 - r);
}

fn scaled_exec(delta: i64, s: Scale) -> (q: i64)
    requires
        -4_000_000_000 <= delta <= 4_000_000_000,
        0 <= s.num <= CANVAS_LIMIT,
        0 < s.den,
    ensures
        q == scaled(delta as int, s),
        -400_000_000_000_000_000 <= q <= 400_000_000_000_000_000,
{
    let den: i128 = s.den as i128;
    if delta >= 0 {
        assert(0 <= delta * s.num <= 4_000_000_000_000_000 && 0 <= delta * s.num * SUBPIXELS
            <= 400_000_000_000_000_000) by (nonlinear_arith)
            requires
                0 <= delta <= 4_000_000_000,
                0 <= s.num <= 1_000_000,
                SUBPIXELS == 100,
        ;
        let n: i128 = (delta as i128) * (s.num as i128) * (SUBPIXELS as i128);
        proof {
            lemma_div_is_ordered_by_denominator(n as int, 1, den as int);
            lemma_div_basics(n as int);
            lemma_div_pos_is_pos(n as int, den as int);
        }
        (n / den) as i64
    } else {
        let back: i128 = -(delta as i128);
        assert(0 <= back * s.num <= 4_000_000_000_000_000 && 0 <= back * s.num * SUBPIXELS
            <= 400_000_000_000_000_000) by (nonlinear_arith)
            requires
                0 <= back <= 4_000_000_000,
                0 <= s.num <= 1_000_000,
                SUBPIXELS == 100,
        ;
        let n: i128 = back * (s.num as i128) * (SUBPIXELS as i128);
        assert(delta * s.num * SUBPIXELS == -(back * s.num * SUBPIXELS)) by (nonlinear_arith)
            requires
                back == -delta,
        ;
        let up: i128 = (n + den - 1) / den;
        proof {
            lemma_floor_of_negative(n as int, den as int);
            lemma_div_is_ordered_by_denominator((n + den - 1) as int, 1, den as int);
            lemma_div_basics((n + den - 1) as int);
            lemma_div_pos_is_pos((n + den - 1) as int, den as int);
            if n >= 1 {
                assert(n + den - 1 <= n * den) by (nonlinear_arith)
                    requires
                        n >= 1,
                        den >= 1,
                ;
                lemma_div_is_ordered((n + den - 1) as int, (n * den) as int, den as int);
                lemma_div_multiples_vanish(n as int, den as int);
                assert(n * den == den * n) by (nonlinear_arith);
            } else {
                lemma_basic_div((den - 1) as int, den as int);
            }
        }
        (-up) as i64
    }
}

impl ProjectionMapper {
    /// The mapping that fits the bounding box of the track into the canvas.
    /// It needs two points.
    pub fn new(points: &Vec<TrackPoint>, canvas: Canvas) -> (result: Result<
        ProjectionMapper,
        InsufficientDataError,
    >)
        requires
            track_wf(points@),
            canvas.wf(),
        ensures
            match result {
                Ok(m) => {
                    &&& points.len() >= 2
                    &&& m.wf()
                    &&& m.canvas == canvas
                    &&& m.bounds.bounds(points@)
                },
                Err(e) => points.len() < 2 && e == InsufficientDataError::TooFewPoints,
            },
    {
        let bounds = match bounding_box(points) {
            Ok(b) => b,
            Err(e) => {
                return Err(e);
            },
        };
        let lon_range: i64 = bounds.max_lon - bounds.min_lon;
        let lat_range: i64 = bounds.max_lat - bounds.min_lat;
        let inner_width: i64 = (canvas.width - 2 * canvas.padding) as i64;
        let inner_height: i64 = (canvas.height - 2 * canvas.padding) as i64;
        let scale = if lon_range == 0 || lat_range == 0 {
            Scale { num: 0, den: 1 }
        } else {
            assert(inner_width * lat_range <= 1_000_000 * 4_000_000_000) by (nonlinear_arith)
                requires
                    0 <= inner_width <= 1_000_000,
                    0 <= lat_range <= 4_000_000_000,
            ;
            assert(inner_height * lon_range <= 1_000_000 * 4_000_000_000) by (nonlinear_arith)
                requires
                    0 <= inner_height <= 1_000_000,
                    0 <= lon_range <= 4_000_000_000,
            ;
            if inner_width * lat_range <= inner_height * lon_range {
                Scale { num: inner_width, den: lon_range }
            } else {
                Scale { num: inner_height, den: lat_range }
            }
        };
        Ok(ProjectionMapper { bounds, canvas, scale })
    }

    /// The place of a position on the canvas, in hundredths of a pixel.
    pub fn pixel(&self, p: GeoPoint) -> (at: PixelOffset)
        requires
            self.wf(),
            p.wf(),
        ensures
            at == pixel_of(*self, p),
    {
        proof {
            lemma_scale_fits(self.bounds, self.canvas);
        }
        let dx = scaled_exec(p.lon_e7 - self.bounds.min_lon, self.scale);
        let dy = scaled_exec(self.bounds.max_lat - p.lat_e7, self.scale);
        let pad: i64 = (self.canvas.padding as i64) * SUBPIXELS;
        PixelOffset { x: pad + dx, y: pad + dy }
    }
}

} // verus!
