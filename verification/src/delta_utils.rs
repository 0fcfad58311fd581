//! Curve interpolation and duration estimation: linear and Catmull-Rom
//! interpolators over integer millimeter points, sampling-based arc length for
//! curved segments, travel durations at a configured speed, the work-envelope
//! test, and the greedy nearest-neighbour particle route.
//!
//! Interpolation weights are whole percents of the segment (the arc-length
//! estimator samples at 1% steps), so every interpolated coordinate is an
//! exact floor of the corresponding rational Catmull-Rom value.

use vstd::prelude::*;
use vstd::slice::slice_index_get;

use crate::errors::ToolpathError;
use crate::geometry::{BlenderPoint3, MAX_COORD};
use crate::import_types::BlenderParticle;
use crate::numeric::{
    div_floor_i64, is_sqrt_floor, isqrt_u64, lemma_sqrt_floor_unique, sqrt_floor,
};

verus! {

/// Coordinate bound (mm) accepted by the distance computations.  Interior
/// Catmull-Rom samples can overshoot their control points, so this is wider
/// than `MAX_COORD`.
pub const DIST_COORD_BOUND: i64 = 32_000_000;

/// Bound on any coordinate of an interior Catmull-Rom sample whose control
/// points are within `MAX_COORD`.
pub const CATMULL_COORD_BOUND: i64 = 12_100_000;

/// All coordinates of `p` within `m` in magnitude.
pub open spec fn within(p: BlenderPoint3, m: int) -> bool {
    -m <= p.x <= m && -m <= p.y <= m && -m <= p.z <= m
}

/// Squared 3D Euclidean distance between two points.
pub open spec fn dist_sq(a: BlenderPoint3, b: BlenderPoint3) -> int {
    (a.x - b.x) * (a.x - b.x) + (a.y - b.y) * (a.y - b.y) + (a.z - b.z) * (a.z - b.z)
}

/// The 3D distance in mm between two points, rounded down.
pub fn distance_3d(a: &BlenderPoint3, b: &BlenderPoint3) -> (r: u64)
    requires
        within(*a, DIST_COORD_BOUND as int),
        within(*b, DIST_COORD_BOUND as int),
    ensures
        is_sqrt_floor(dist_sq(*a, *b), r as int),
        r == sqrt_floor(dist_sq(*a, *b)),
        a == b ==> r == 0,
        r <= 120_000_000,
{
    let dx = a.x - b.x;
    let dy = a.y - b.y;
    let dz = a.z - b.z;
    assert(0 <= dx * dx <= 4_100_000_000_000_000 && 0 <= dy * dy <= 4_100_000_000_000_000 && 0
        <= dz * dz <= 4_100_000_000_000_000) by (nonlinear_arith)
        requires
            -64_000_000 <= dx <= 64_000_000,
            -64_000_000 <= dy <= 64_000_000,
            -64_000_000 <= dz <= 64_000_000,
    ;
    let sq: i64 = dx * dx + dy * dy + dz * dz;
    let r = isqrt_u64(sq as u64);
    proof {
        if a == b {
            lemma_sqrt_floor_unique(0, 0);
        }
        assert(r <= 120_000_000) by (nonlinear_arith)
            requires
                (r as int) * (r as int) <= sq as int,
                sq <= 12_300_000_000_000_000,
        ;
    }
    r
}

/// Whether `point` lies inside the machine's cylindrical work envelope:
/// within 200 mm of the vertical axis and strictly between the cylinder ends
/// at 0 mm and 200 mm height.
pub open spec fn spec_point_legal(p: BlenderPoint3) -> bool {
    p.x * p.x + p.y * p.y <= 200 * 200 && 0 < p.z < 200
}

/// Work-envelope test for a candidate effector position.
pub fn is_point_legal(point: &BlenderPoint3) -> (r: bool)
    requires
        within(*point, DIST_COORD_BOUND as int),
    ensures
        r == spec_point_legal(*point),
{
    assert(0 <= point.x * point.x <= 0x1000_0000_0000_0000 && 0 <= point.y * point.y
        <= 0x1000_0000_0000_0000) by (nonlinear_arith)
        requires
            -64_000_000 <= point.x <= 64_000_000,
            -64_000_000 <= point.y <= 64_000_000,
    ;
    let planar: i64 = point.x * point.x + point.y * point.y;
    planar <= 200 * 200 && point.z > 0 && point.z < 200
}

/// Exact numerator of a linear blend at `k` percent: the interpolated
/// coordinate is this divided by 100, rounded down.
pub open spec fn line_num(a: int, b: int, k: int) -> int {
    a * (100 - k) + b * k
}

/// A point `k` percent of the way from `a` to `b`.  Rejected unless `k` is
/// strictly between the endpoints: callers already hold exact endpoint
/// values, so endpoints are never produced by interpolation.
pub fn interpolate_line_point(a: &BlenderPoint3, b: &BlenderPoint3, weight_pct: u32) -> (r: Result<
    BlenderPoint3,
    ToolpathError,
>)
    requires
        within(*a, DIST_COORD_BOUND as int),
        within(*b, DIST_COORD_BOUND as int),
    ensures
        r is Ok <==> 0 < weight_pct < 100,
        !(0 < weight_pct < 100) ==> r == Err::<BlenderPoint3, ToolpathError>(
            ToolpathError::InterpolationWeight,
        ),
        r matches Ok(p) ==> {
            &&& p.x == line_num(a.x as int, b.x as int, weight_pct as int) / 100
            &&& p.y == line_num(a.y as int, b.y as int, weight_pct as int) / 100
            &&& p.z == line_num(a.z as int, b.z as int, weight_pct as int) / 100
        },
        r matches Ok(p) ==> within(p, DIST_COORD_BOUND as int),
{
    if weight_pct == 0 || weight_pct >= 100 {
        return Err(ToolpathError::InterpolationWeight);
    }
    let k = weight_pct as i64;
    assert(-3_200_000_000 <= a.x * (100 - k) <= 3_200_000_000 && -3_200_000_000 <= b.x * k
        <= 3_200_000_000 && -3_200_000_000 <= a.y * (100 - k) <= 3_200_000_000 && -3_200_000_000
        <= b.y * k <= 3_200_000_000 && -3_200_000_000 <= a.z * (100 - k) <= 3_200_000_000
        && -3_200_000_000 <= b.z * k <= 3_200_000_000) by (nonlinear_arith)
        requires
            0 < k < 100,
            within(*a, DIST_COORD_BOUND as int),
            within(*b, DIST_COORD_BOUND as int),
            DIST_COORD_BOUND == 32_000_000,
    ;
    let p = BlenderPoint3 {
        x: div_floor_i64(a.x * (100 - k) + b.x * k, 100),
        y: div_floor_i64(a.y * (100 - k) + b.y * k, 100),
        z: div_floor_i64(a.z * (100 - k) + b.z * k, 100),
    };
    proof {
        lemma_line_component_in_bounds(a.x as int, b.x as int, k as int);
        lemma_line_component_in_bounds(a.y as int, b.y as int, k as int);
        lemma_line_component_in_bounds(a.z as int, b.z as int, k as int);
    }
    Ok(p)
}

/// A convex combination of two bounded coordinates stays bounded.
proof fn lemma_line_component_in_bounds(a: int, b: int, k: int)
    requires
        -(DIST_COORD_BOUND as int) <= a <= DIST_COORD_BOUND as int,
        -(DIST_COORD_BOUND as int) <= b <= DIST_COORD_BOUND as int,
        0 < k < 100,
    ensures
        -(100 * DIST_COORD_BOUND as int) <= line_num(a, b, k) <= 100 * DIST_COORD_BOUND as int,
        -(DIST_COORD_BOUND as int) <= line_num(a, b, k) / 100 <= DIST_COORD_BOUND as int,
{
    assert(-(100 * DIST_COORD_BOUND as int) <= line_num(a, b, k) <= 100 * DIST_COORD_BOUND as int)
        by (nonlinear_arith)
        requires
            -(DIST_COORD_BOUND as int) <= a <= DIST_COORD_BOUND as int,
            -(DIST_COORD_BOUND as int) <= b <= DIST_COORD_BOUND as int,
            0 < k < 100,
    ;
    vstd::arithmetic::div_mod::lemma_div_is_ordered(
        -(100 * DIST_COORD_BOUND as int),
        line_num(a, b, k),
        100,
    );
    vstd::arithmetic::div_mod::lemma_div_is_ordered(
        line_num(a, b, k),
        100 * DIST_COORD_BOUND as int,
        100,
    );
    assert(100 * DIST_COORD_BOUND as int == 3_200_000_000);
    assert(3_200_000_000int / 100 == 32_000_000);
    assert((-3_200_000_000int) / 100 == -32_000_000);
}

/// Scale denominator of the fixed-point Catmull-Rom evaluation: the basis is
/// halved and the weight is in percent, so the numerator carries a factor of
/// 2 * 100^3.
pub const CATMULL_SCALE: i64 = 2_000_000;

/// Exact numerator of one coordinate of the Catmull-Rom basis
///
/// ```text
///                             [  0  2  0  0 ]   [ p0 ]
/// q(t) = 0.5( 1, t, t^2, t^3 ) [ -1  0  1  0 ] * [ p1 ]
///                             [  2 -5  4 -1 ]   [ p2 ]
///                             [ -1  3 -3  1 ]   [ p3 ]
/// ```
///
/// evaluated at t = k/100 and scaled by `CATMULL_SCALE`; the interpolated
/// coordinate is this divided by `CATMULL_SCALE`, rounded down.
pub open spec fn catmull_num(p0: int, p1: int, p2: int, p3: int, k: int) -> int {
    2_000_000 * p1 + 10_000 * k * (p2 - p0) + 100 * (k * k) * (2 * p0 - 5 * p1 + 4 * p2 - p3) + (k
        * k * k) * (-p0 + 3 * p1 - 3 * p2 + p3)
}

/// One interpolated Catmull-Rom coordinate at t = k/100.
pub open spec fn catmull_coord(p0: int, p1: int, p2: int, p3: int, k: int) -> int {
    catmull_num(p0, p1, p2, p3, k) / (CATMULL_SCALE as int)
}

/// The interpolated Catmull-Rom point at t = k/100.
pub open spec fn catmull_point(
    p0: BlenderPoint3,
    p1: BlenderPoint3,
    p2: BlenderPoint3,
    p3: BlenderPoint3,
    k: int,
) -> BlenderPoint3 {
    BlenderPoint3 {
        x: catmull_coord(p0.x as int, p1.x as int, p2.x as int, p3.x as int, k) as i64,
        y: catmull_coord(p0.y as int, p1.y as int, p2.y as int, p3.y as int, k) as i64,
        z: catmull_coord(p0.z as int, p1.z as int, p2.z as int, p3.z as int, k) as i64,
    }
}

/// The Catmull-Rom basis sums to one, so interpolation is affine in the
/// control points: control points on a common line yield exact interpolants
/// on that line.  Concretely, if `p_i == a + s_i * d` then the scaled
/// interpolant is `CATMULL_SCALE * a` plus a multiple of the direction `d`,
/// with the multiplier given by interpolating the scalars `s_i` themselves.
pub proof fn lemma_catmull_affine(a: int, d: int, s0: int, s1: int, s2: int, s3: int, k: int)
    ensures
        catmull_num(a + s0 * d, a + s1 * d, a + s2 * d, a + s3 * d, k) == CATMULL_SCALE * a
            + catmull_num(s0, s1, s2, s3, k) * d,
{
    let n = catmull_num(a + s0 * d, a + s1 * d, a + s2 * d, a + s3 * d, k);
    let w = catmull_num(s0, s1, s2, s3, k);
    // The three scalar groups of the basis, taken of the line parameters.
    let u1 = s2 - s0;
    let u2 = 2 * s0 - 5 * s1 + 4 * s2 - s3;
    let u3 = -s0 + 3 * s1 - 3 * s2 + s3;
    // Each group of shifted points collapses to the same group of the
    // parameters, stretched by the direction; the offsets `a` cancel.
    assert((a + s2 * d) - (a + s0 * d) == u1 * d) by (nonlinear_arith)
        requires
            u1 == s2 - s0,
    ;
    assert(2 * (a + s0 * d) - 5 * (a + s1 * d) + 4 * (a + s2 * d) - (a + s3 * d) == u2 * d)
        by (nonlinear_arith)
        requires
            u2 == 2 * s0 - 5 * s1 + 4 * s2 - s3,
    ;
    assert(-(a + s0 * d) + 3 * (a + s1 * d) - 3 * (a + s2 * d) + (a + s3 * d) == u3 * d)
        by (nonlinear_arith)
        requires
            u3 == -s0 + 3 * s1 - 3 * s2 + s3,
    ;
    assert(n == 2_000_000 * (a + s1 * d) + 10_000 * k * (u1 * d) + 100 * (k * k) * (u2 * d) + (k * k
        * k) * (u3 * d));
    // Re-associate each term so the direction factors out.
    assert(2_000_000 * (a + s1 * d) == 2_000_000 * a + (2_000_000 * s1) * d) by (nonlinear_arith);
    assert(10_000 * k * (u1 * d) == (10_000 * k * u1) * d) by (nonlinear_arith);
    assert(100 * (k * k) * (u2 * d) == (100 * (k * k) * u2) * d) by (nonlinear_arith);
    assert((k * k * k) * (u3 * d) == ((k * k * k) * u3) * d) by (nonlinear_arith);
    assert((2_000_000 * s1) * d + (10_000 * k * u1) * d + (100 * (k * k) * u2) * d + ((k * k * k)
        * u3) * d == w * d) by (nonlinear_arith)
        requires
            w == 2_000_000 * s1 + 10_000 * k * u1 + 100 * (k * k) * u2 + (k * k * k) * u3,
    ;
}

/// Four collinear control points give collinear exact interpolants, for every
/// interior weight: the scaled interpolated point lies on the line through
/// `a` with direction `(dx, dy, dz)` at the scalar parameter obtained by
/// interpolating the points' own line parameters `s_i`.
pub proof fn lemma_catmull_collinear(
    p0: BlenderPoint3,
    p1: BlenderPoint3,
    p2: BlenderPoint3,
    p3: BlenderPoint3,
    a: BlenderPoint3,
    dx: int,
    dy: int,
    dz: int,
    s0: int,
    s1: int,
    s2: int,
    s3: int,
    k: int,
)
    requires
        p0.x == a.x + s0 * dx && p0.y == a.y + s0 * dy && p0.z == a.z + s0 * dz,
        p1.x == a.x + s1 * dx && p1.y == a.y + s1 * dy && p1.z == a.z + s1 * dz,
        p2.x == a.x + s2 * dx && p2.y == a.y + s2 * dy && p2.z == a.z + s2 * dz,
        p3.x == a.x + s3 * dx && p3.y == a.y + s3 * dy && p3.z == a.z + s3 * dz,
    ensures
        catmull_num(p0.x as int, p1.x as int, p2.x as int, p3.x as int, k) == CATMULL_SCALE * a.x
            + catmull_num(s0, s1, s2, s3, k) * dx,
        catmull_num(p0.y as int, p1.y as int, p2.y as int, p3.y as int, k) == CATMULL_SCALE * a.y
            + catmull_num(s0, s1, s2, s3, k) * dy,
        catmull_num(p0.z as int, p1.z as int, p2.z as int, p3.z as int, k) == CATMULL_SCALE * a.z
            + catmull_num(s0, s1, s2, s3, k) * dz,
{
    lemma_catmull_affine(a.x as int, dx, s0, s1, s2, s3, k);
    lemma_catmull_affine(a.y as int, dy, s0, s1, s2, s3, k);
    lemma_catmull_affine(a.z as int, dz, s0, s1, s2, s3, k);
}

/// One axis of the fixed-point Catmull-Rom evaluation.
fn catmull_axis(p0: i64, p1: i64, p2: i64, p3: i64, k: i64) -> (r: i64)
    requires
        -MAX_COORD <= p0 <= MAX_COORD,
        -MAX_COORD <= p1 <= MAX_COORD,
        -MAX_COORD <= p2 <= MAX_COORD,
        -MAX_COORD <= p3 <= MAX_COORD,
        1 <= k <= 99,
    ensures
        r == catmull_coord(p0 as int, p1 as int, p2 as int, p3 as int, k as int),
        -CATMULL_COORD_BOUND <= r <= CATMULL_COORD_BOUND,
{
    assert(1 <= (k as int) * (k as int) <= 9_801) by (nonlinear_arith)
        requires
            1 <= k <= 99,
    ;
    let k2 = k * k;
    assert(1 <= (k2 as int) * (k as int) <= 970_299) by (nonlinear_arith)
        requires
            1 <= k <= 99,
            k2 as int == (k as int) * (k as int),
    ;
    let k3 = k2 * k;
    let d1 = p2 - p0;
    let d2 = 2 * p0 - 5 * p1 + 4 * p2 - p3;
    let d3 = -p0 + 3 * p1 - 3 * p2 + p3;
    assert(-2_000_000_000_000 <= 10_000 * k * d1 <= 2_000_000_000_000 && -12_000_000_000_000 <= 100
        * k2 * d2 <= 12_000_000_000_000 && -8_000_000_000_000 <= k3 * d3 <= 8_000_000_000_000)
        by (nonlinear_arith)
        requires
            1 <= k <= 99,
            1 <= k2 <= 9_801,
            1 <= k3 <= 970_299,
            -2_000_000 <= d1 <= 2_000_000,
            -12_000_000 <= d2 <= 12_000_000,
            -8_000_000 <= d3 <= 8_000_000,
    ;
    let num = 2_000_000 * p1 + 10_000 * k * d1 + 100 * k2 * d2 + k3 * d3;
    let r = div_floor_i64(num, CATMULL_SCALE);
    proof {
        assert(num == catmull_num(p0 as int, p1 as int, p2 as int, p3 as int, k as int));
        vstd::arithmetic::div_mod::lemma_div_is_ordered(
            -24_000_000_000_000,
            num as int,
            CATMULL_SCALE as int,
        );
        vstd::arithmetic::div_mod::lemma_div_is_ordered(
            num as int,
            24_000_000_000_000,
            CATMULL_SCALE as int,
        );
        assert(24_000_000_000_000int / 2_000_000 == 12_000_000);
        assert((-24_000_000_000_000int) / 2_000_000 == -12_000_000);
    }
    r
}

/// A point `k` percent of the way along the Catmull-Rom segment whose four
/// control points open the slice.  Rejected for weights outside the open
/// interior, exactly as the linear interpolator is.
pub fn interpolate_catmull_point(p: &[BlenderPoint3], weight_pct: u32) -> (r: Result<
    BlenderPoint3,
    ToolpathError,
>)
    requires
        p@.len() >= 4,
        forall|i: int| 0 <= i < 4 ==> p@[i].in_bounds(),
    ensures
        r is Ok <==> 0 < weight_pct < 100,
        !(0 < weight_pct < 100) ==> r == Err::<BlenderPoint3, ToolpathError>(
            ToolpathError::InterpolationWeight,
        ),
        r matches Ok(q) ==> q == catmull_point(p@[0], p@[1], p@[2], p@[3], weight_pct as int),
        r matches Ok(q) ==> within(q, CATMULL_COORD_BOUND as int),
{
    if weight_pct == 0 || weight_pct >= 100 {
        return Err(ToolpathError::InterpolationWeight);
    }
    let k = weight_pct as i64;
    let p0 = *slice_index_get(p, 0);
    let p1 = *slice_index_get(p, 1);
    let p2 = *slice_index_get(p, 2);
    let p3 = *slice_index_get(p, 3);
    Ok(
        BlenderPoint3 {
            x: catmull_axis(p0.x, p1.x, p2.x, p3.x, k),
            y: catmull_axis(p0.y, p1.y, p2.y, p3.y, k),
            z: catmull_axis(p0.z, p1.z, p2.z, p3.z, k),
        },
    )
}

/// Accumulated sampled arc length of a Catmull-Rom segment from the 1%
/// sample up to the `k`% sample: the sum of the rounded distances between
/// consecutive interior samples.
pub open spec fn catmull_arc_to(
    p0: BlenderPoint3,
    p1: BlenderPoint3,
    p2: BlenderPoint3,
    p3: BlenderPoint3,
    k: int,
) -> int
    decreases k,
{
    if k <= 1 {
        0
    } else {
        catmull_arc_to(p0, p1, p2, p3, k - 1) + sqrt_floor(
            dist_sq(catmull_point(p0, p1, p2, p3, k - 1), catmull_point(p0, p1, p2, p3, k)),
        )
    }
}

/// Estimated length of a Catmull-Rom segment, by sampling the interpolator
/// at the 98 evenly spaced interior parameters 1% .. 98% and summing the
/// consecutive Euclidean distances.
pub fn distance_catmull(control_points: &[BlenderPoint3]) -> (r: u64)
    requires
        control_points@.len() >= 4,
        forall|i: int| 0 <= i < 4 ==> control_points@[i].in_bounds(),
    ensures
        r == catmull_arc_to(
            control_points@[0],
            control_points@[1],
            control_points@[2],
            control_points@[3],
            98,
        ),
        r <= 12_000_000_000,
{
    let ghost q0 = control_points@[0];
    let ghost q1 = control_points@[1];
    let ghost q2 = control_points@[2];
    let ghost q3 = control_points@[3];
    let mut length: u64 = 0;
    let mut k: u32 = 2;
    while k <= 98
        invariant
            2 <= k <= 99,
            control_points@.len() >= 4,
            forall|i: int| 0 <= i < 4 ==> control_points@[i].in_bounds(),
            q0 == control_points@[0] && q1 == control_points@[1] && q2 == control_points@[2] && q3
                == control_points@[3],
            length == catmull_arc_to(q0, q1, q2, q3, k - 1),
            length <= (k - 1) * 120_000_000,
        decreases 99 - k,
    {
        let a = match interpolate_catmull_point(control_points, k - 1) {
            Ok(v) => v,
            Err(_) => {
                assert(false);
                BlenderPoint3 { x: 0, y: 0, z: 0 }
            },
        };
        let b = match interpolate_catmull_point(control_points, k) {
            Ok(v) => v,
            Err(_) => {
                assert(false);
                BlenderPoint3 { x: 0, y: 0, z: 0 }
            },
        };
        let step = distance_3d(&a, &b);
        length = length + step;
        k = k + 1;
    }
    length
}

/// Travel duration in whole milliseconds for a distance in mm at a speed in
/// mm/s: the exact quotient rounded down, clamped below to the 10 ms floor
/// (so no move degenerates to an unexecutable duration) and above to the
/// widest representable duration.
pub open spec fn duration_spec(dist: int, speed: int) -> int {
    let ms = dist * 1000 / speed;
    if ms < 10 {
        10
    } else if ms > 0xFFFF_FFFF {
        0xFFFF_FFFF
    } else {
        ms
    }
}

/// The distance that the duration model assigns to a window of points: the
/// straight-line distance of a pair, or the sampled arc length of a
/// Catmull-Rom window of four.
pub open spec fn spec_travel_distance(points: Seq<BlenderPoint3>) -> int {
    if points.len() == 2 {
        sqrt_floor(dist_sq(points[0], points[1]))
    } else {
        catmull_arc_to(points[0], points[1], points[2], points[3], 98)
    }
}

/// Travel duration for a window of points at `speed` mm/s.  Exactly two
/// points (a line) and exactly four points (a Catmull-Rom window) are
/// supported; a single point spans no distance and is reported as its own
/// error, and any other count is unsupported.
pub fn calculate_duration(points: &[BlenderPoint3], speed: u32) -> (r: Result<u32, ToolpathError>)
    requires
        1 <= speed,
        forall|i: int| 0 <= i < points@.len() ==> points@[i].in_bounds(),
    ensures
        r is Ok <==> (points@.len() == 2 || points@.len() == 4),
        points@.len() == 1 ==> r == Err::<u32, ToolpathError>(ToolpathError::SinglePointDuration),
        points@.len() != 1 && points@.len() != 2 && points@.len() != 4 ==> r == Err::<
            u32,
            ToolpathError,
        >(ToolpathError::UnsupportedPointCount),
        r matches Ok(d) ==> d == duration_spec(spec_travel_distance(points@), speed as int),
{
    let distance: u64;
    match points.len() {
        1 => {
            return Err(ToolpathError::SinglePointDuration);
        },
        2 => {
            distance = distance_3d(slice_index_get(points, 0), slice_index_get(points, 1));
        },
        4 => {
            distance = distance_catmull(points);
        },
        _ => {
            return Err(ToolpathError::UnsupportedPointCount);
        },
    }
    let ms: u64 = distance * 1000 / (speed as u64);
    let duration: u32 = if ms < 10 {
        10
    } else if ms > 0xFFFF_FFFF {
        0xFFFF_FFFF
    } else {
        ms as u32
    };
    Ok(duration)
}

/// At a fixed speed, a longer distance never takes less time.
pub proof fn lemma_duration_monotone_distance(d1: int, d2: int, speed: int)
    requires
        0 <= d1 <= d2,
        1 <= speed,
    ensures
        duration_spec(d1, speed) <= duration_spec(d2, speed),
{
    vstd::arithmetic::div_mod::lemma_div_is_ordered(d1 * 1000, d2 * 1000, speed);
}

/// Over a fixed distance, a higher speed never takes more time.
pub proof fn lemma_duration_antitone_speed(dist: int, s1: int, s2: int)
    requires
        0 <= dist,
        1 <= s1 <= s2,
    ensures
        duration_spec(dist, s2) <= duration_spec(dist, s1),
{
    vstd::arithmetic::div_mod::lemma_div_is_ordered_by_denominator(dist * 1000, s1, s2);
}

/// Preview vertices for a segment: the two endpoints of a line window, or
/// the 98 interior samples of a Catmull-Rom window.  Unknown spline kinds
/// produce no vertices.
pub fn vertex_from_spline(spline_type: u32, geometry: &[BlenderPoint3]) -> (r: Vec<
    (i64, i64, i64),
>)
    requires
        spline_type == 2 ==> geometry@.len() >= 4 && (forall|i: int|
            0 <= i < 4 ==> geometry@[i].in_bounds()),
    ensures
        spline_type == 1 ==> r@.len() == geometry@.len() && (forall|i: int|
            0 <= i < r@.len() ==> r@[i] == (geometry@[i].x, geometry@[i].y, geometry@[i].z)),
        spline_type == 2 ==> r@.len() == 98 && (forall|i: int|
            0 <= i < 98 ==> r@[i] == {
                let q = catmull_point(geometry@[0], geometry@[1], geometry@[2], geometry@[3], i + 1);
                (q.x, q.y, q.z)
            }),
        spline_type != 1 && spline_type != 2 ==> r@.len() == 0,
{
    let mut points_list: Vec<(i64, i64, i64)> = Vec::new();
    if spline_type == 1 {
        let mut i: usize = 0;
        while i < geometry.len()
            invariant
                0 <= i <= geometry@.len(),
                points_list@.len() == i,
                forall|j: int|
                    0 <= j < i ==> points_list@[j] == (
                        geometry@[j].x,
                        geometry@[j].y,
                        geometry@[j].z,
                    ),
            decreases geometry@.len() - i,
        {
            let p = slice_index_get(geometry, i);
            points_list.push((p.x, p.y, p.z));
            i = i + 1;
        }
    } else if spline_type == 2 {
        let mut k: u32 = 1;
        while k <= 98
            invariant
                1 <= k <= 99,
                geometry@.len() >= 4,
                forall|i: int| 0 <= i < 4 ==> geometry@[i].in_bounds(),
                points_list@.len() == k - 1,
                forall|j: int|
                    0 <= j < k - 1 ==> points_list@[j] == {
                        let q = catmull_point(
                            geometry@[0],
                            geometry@[1],
                            geometry@[2],
                            geometry@[3],
                            j + 1,
                        );
                        (q.x, q.y, q.z)
                    },
            decreases 99 - k,
        {
            let point = match interpolate_catmull_point(geometry, k) {
                Ok(v) => v,
                Err(_) => {
                    assert(false);
                    BlenderPoint3 { x: 0, y: 0, z: 0 }
                },
            };
            points_list.push((point.x, point.y, point.z));
            k = k + 1;
        }
    }
    points_list
}

/// Relies on rand::random_range: returns a uniformly random value of the
/// given range, here [0, n).  Panics only on an empty range, which the
/// precondition rules out; the thread-local generator's first seeding can
/// also abort if the operating system's entropy source fails, an
/// environment failure on par with allocation failure.
#[verifier::external_body]
fn random_index(n: usize) -> (r: usize)
    requires
        n > 0,
    ensures
        r < n,
{
    rand::random_range(0..n)
}

/// All particle locations of `s` within the distance computations' bound.
pub open spec fn particles_within(s: Seq<BlenderParticle>) -> bool {
    forall|i: int|
        0 <= i < s.len() ==> within(#[trigger] s[i].location, DIST_COORD_BOUND as int)
}

/// Rounded 3D distance between two particles' positions, the measure the
/// route heuristic minimizes.
pub open spec fn particle_gap(a: BlenderParticle, b: BlenderParticle) -> int {
    sqrt_floor(dist_sq(a.location, b.location))
}

/// Reorder a particle set into a chain of next-nearest neighbours, to
/// shorten the total transit distance.  The walk starts at a uniformly
/// random particle — non-deterministic pathing through the cloud is
/// desirable, as it fuzzes artifacts influenced by transit moves — and
/// repeatedly appends the remaining particle closest to the last appended
/// one.  This is a greedy approximation of the shortest route, not an
/// optimal one.
///
/// The result visits every particle of the input exactly once (it is a
/// permutation of the input, which is drained); it starts at some input
/// particle, and each later entry is nearest — no particle still unchosen
/// at that step (that is, no later entry of the result) lies strictly
/// closer to the previous entry.
pub fn sort_particles(particles: &mut Vec<BlenderParticle>) -> (r: Vec<BlenderParticle>)
    requires
        old(particles)@.len() >= 1,
        particles_within(old(particles)@),
    ensures
        final(particles)@.len() == 0,
        r@.len() == old(particles)@.len(),
        r@.to_multiset() == old(particles)@.to_multiset(),
        exists|start: int| 0 <= start < old(particles)@.len() && r@[0] == old(particles)@[start],
        forall|k: int, j: int|
            1 <= k <= j < r@.len() ==> #[trigger] particle_gap(r@[k - 1], r@[k])
                <= #[trigger] particle_gap(r@[k - 1], r@[j]),
{
    broadcast use vstd::seq_lib::group_to_multiset_ensures;

    let ghost orig = particles@;
    let mut sorted_particles: Vec<BlenderParticle> = Vec::new();

    // Randomly pick a starting point; the rest of the walk is deterministic
    // in that choice.
    let random_start = random_index(particles.len());
    let ghost start_idx = random_start as int;
    let first = particles.remove(random_start);
    sorted_particles.push(first);
    proof {
        assert(sorted_particles@[0] == orig[start_idx]);
        assert(sorted_particles@.to_multiset().add(particles@.to_multiset()) =~= orig.to_multiset());
        assert(particles_within(particles@)) by {
            assert(forall|i: int|
                0 <= i < particles@.len() ==> #[trigger] particles@[i] == if i < random_start {
                    orig[i]
                } else {
                    orig[i + 1]
                });
        }
    }

    while particles.len() > 0
        invariant
            sorted_particles@.len() >= 1,
            sorted_particles@.len() + particles@.len() == orig.len(),
            sorted_particles@.to_multiset().add(particles@.to_multiset()) == orig.to_multiset(),
            particles_within(particles@),
            particles_within(sorted_particles@),
            0 <= start_idx < orig.len(),
            sorted_particles@[0] == orig[start_idx],
            forall|k: int, j: int|
                1 <= k <= j < sorted_particles@.len() ==> #[trigger] particle_gap(
                    sorted_particles@[k - 1],
                    sorted_particles@[k],
                ) <= #[trigger] particle_gap(sorted_particles@[k - 1], sorted_particles@[j]),
            forall|k: int, q: int|
                1 <= k < sorted_particles@.len() && 0 <= q < particles@.len()
                    ==> #[trigger] particle_gap(sorted_particles@[k - 1], sorted_particles@[k])
                    <= #[trigger] particle_gap(sorted_particles@[k - 1], particles@[q]),
        decreases particles@.len(),
    {
        // Search from the most recently sorted point.
        let check_p = sorted_particles[sorted_particles.len() - 1];

        let mut closest_index: usize = 0;
        let mut closest_dist: u64 = distance_3d(&check_p.location, &particles[0].location);
        let mut i: usize = 1;
        while i < particles.len()
            invariant
                1 <= i <= particles@.len(),
                closest_index < particles@.len(),
                particles@.len() >= 1,
                particles_within(particles@),
                within(check_p.location, DIST_COORD_BOUND as int),
                closest_dist == particle_gap(check_p, particles@[closest_index as int]),
                forall|q: int|
                    0 <= q < i ==> closest_dist <= #[trigger] particle_gap(check_p, particles@[q]),
            decreases particles@.len() - i,
        {
            let dist = distance_3d(&check_p.location, &particles[i].location);
            if dist < closest_dist {
                closest_dist = dist;
                closest_index = i;
            }
            i = i + 1;
        }

        // Move the closest point of this pass into the sorted vector.
        let ghost before = particles@;
        let ghost sorted_before = sorted_particles@;
        let next = particles.remove(closest_index);
        sorted_particles.push(next);
        proof {
            before.to_multiset_ensures();
            sorted_before.to_multiset_ensures();
            assert(before.contains(next)) by {
                assert(before[closest_index as int] == next);
            }
            assert(before.remove(closest_index as int).to_multiset() =~= before.to_multiset()
                .remove(next));
            assert(sorted_before.push(next).to_multiset() =~= sorted_before.to_multiset().insert(
                next,
            ));
            assert(sorted_particles@.to_multiset().add(particles@.to_multiset())
                =~= orig.to_multiset());
            assert(particles_within(particles@)) by {
                assert(forall|j: int|
                    0 <= j < particles@.len() ==> #[trigger] particles@[j] == if j < closest_index {
                        before[j]
                    } else {
                        before[j + 1]
                    });
            }
            assert(particles_within(sorted_particles@)) by {
                assert(forall|j: int|
                    0 <= j < sorted_particles@.len() - 1
                        ==> #[trigger] sorted_particles@[j] == sorted_particles@.drop_last()[j]);
            }
            // The appended particle is nearest among what remained, and
            // everything still remaining maps back into the searched set,
            // so both greedy-chain invariants carry over.
            let bign = sorted_before.len() as int;
            assert(forall|j: int|
                0 <= j < bign ==> #[trigger] sorted_particles@[j] == sorted_before[j]);
            assert(sorted_particles@[bign] == next);
            assert(forall|j: int|
                0 <= j < particles@.len() ==> #[trigger] particles@[j] == (if j < closest_index {
                    before[j]
                } else {
                    before[j + 1]
                }));
            assert forall|k: int, j: int|
                1 <= k <= j < sorted_particles@.len() implies #[trigger] particle_gap(
                sorted_particles@[k - 1],
                sorted_particles@[k],
            ) <= #[trigger] particle_gap(sorted_particles@[k - 1], sorted_particles@[j]) by {
                if j < bign {
                    // Both entries predate this step.
                } else if k < bign {
                    // Old choice against the newly appended particle: it was
                    // still remaining when the old choice was made.
                    assert(particle_gap(sorted_before[k - 1], sorted_before[k]) <= particle_gap(
                        sorted_before[k - 1],
                        before[closest_index as int],
                    ));
                } else {
                    // k == j == the new entry: reflexive.
                }
            }
            assert forall|k: int, q: int|
                1 <= k < sorted_particles@.len() && 0 <= q < particles@.len()
                    implies #[trigger] particle_gap(
                sorted_particles@[k - 1],
                sorted_particles@[k],
            ) <= #[trigger] particle_gap(sorted_particles@[k - 1], particles@[q]) by {
                let src = if q < closest_index {
                    q
                } else {
                    q + 1
                };
                assert(particles@[q] == before[src]);
                if k < bign {
                    assert(particle_gap(sorted_before[k - 1], sorted_before[k]) <= particle_gap(
                        sorted_before[k - 1],
                        before[src],
                    ));
                } else {
                    // The fresh choice: the scan compared it against every
                    // then-remaining particle.
                    assert(check_p == sorted_before[bign - 1]);
                    assert(closest_dist <= particle_gap(check_p, before[src]));
                }
            }
        }
    }
    sorted_particles
}

} // verus!
