//! The shape classifier: a pure decision over a gesture snapshot and the
//! expected shape. All geometry is exact integer arithmetic over logical
//! coordinates; thresholds are named constants.

use vstd::prelude::*;

use crate::MAX_DIM;
use crate::MIN_TRACE_POINTS;
use crate::TRACE_CAPACITY;
use crate::edge::EdgeFlags;
use crate::geom::LogicalPoint;
use crate::trace::GestureSnapshot;
use crate::trace::GestureTrace;
use crate::trace::all_in_bounds;

verus! {

/// The gesture vocabulary: the shapes a session can expect.
#[derive(Clone, Copy, Debug, PartialEq, Eq, Structural)]
pub enum Segno {
    /// A rectangle drawn around the screen border.
    Rettangolo,
    /// A roughly circular loop.
    Cerchio,
    /// A short horizontal dash.
    Meno,
}

/// A rectangle's trace polygon must fill at least this fraction
/// (numerator over denominator) of its bounding box.
pub const RECT_AREA_NUM: i64 = 1;

/// Denominator of the rectangle fill fraction.
pub const RECT_AREA_DEN: i64 = 2;

/// A rectangle's points must progress at least this many eighth turns
/// around their centroid, in one consistent direction.
pub const RECT_MIN_EIGHTH_TURNS: i64 = 6;

/// Lower end of the circle radius band: squared distances may not fall
/// below this fraction (over `CIRCLE_BAND_DEN`) of their mean.
pub const CIRCLE_BAND_LOW: i64 = 64;

/// Upper end of the circle radius band, over `CIRCLE_BAND_DEN`.
pub const CIRCLE_BAND_HIGH: i64 = 144;

/// Denominator of the circle radius band.
pub const CIRCLE_BAND_DEN: i64 = 100;

/// Smallest mean radius (in logical units) a circle may have.
pub const CIRCLE_MIN_RADIUS: i64 = 20;

/// A circle's points must progress at least this many eighth turns around
/// their centroid, in one consistent direction.
pub const CIRCLE_MIN_EIGHTH_TURNS: i64 = 7;

/// A dash's bounding box must be at least this many times wider than tall.
pub const DASH_MIN_ASPECT: i64 = 6;

/// A dash must span at least one part in `DASH_SPAN_DEN` of the logical
/// screen width.
pub const DASH_SPAN_DEN: i64 = 10;

/// How far (in logical units) a dash point may sit from the mean height.
pub const DASH_DEV_TOL: i64 = 10;

/// Largest scaled centroid offset: `TRACE_CAPACITY * MAX_DIM`.
pub const REL_BOUND: i64 = 268435456;

/// Largest shoelace term: `2 * MAX_DIM * MAX_DIM`.
pub const DAREA_TERM_BOUND: i64 = 8589934592;

/// Largest shoelace sum: `(TRACE_CAPACITY + 1) * DAREA_TERM_BOUND`.
pub const DAREA_BOUND: i64 = 35192962023424;

/// Absolute value.
pub open spec fn abs_i(v: int) -> int {
    if v >= 0 {
        v
    } else {
        -v
    }
}

/// The product of two values stays within the product of their bounds.
pub proof fn lemma_mul_bounds(a: int, b: int, ba: int, bb: int)
    by (nonlinear_arith)
    requires
        -ba <= a <= ba,
        -bb <= b <= bb,
        0 <= ba,
        0 <= bb,
    ensures
        -(ba * bb) <= a * b <= ba * bb,
{
}

/// A square is non-negative and stays within the square of the bound.
pub proof fn lemma_sq_bound(a: int, ba: int)
    by (nonlinear_arith)
    requires
        -ba <= a <= ba,
        0 <= ba,
    ensures
        0 <= a * a <= ba * ba,
{
}

/// Smallest x coordinate among the first `n` points.
pub open spec fn min_x_upto(s: Seq<LogicalPoint>, n: int) -> int
    decreases n,
{
    if n <= 1 {
        s[0].x as int
    } else if (s[n - 1].x as int) < min_x_upto(s, n - 1) {
        s[n - 1].x as int
    } else {
        min_x_upto(s, n - 1)
    }
}

/// Largest x coordinate among the first `n` points.
pub open spec fn max_x_upto(s: Seq<LogicalPoint>, n: int) -> int
    decreases n,
{
    if n <= 1 {
        s[0].x as int
    } else if (s[n - 1].x as int) > max_x_upto(s, n - 1) {
        s[n - 1].x as int
    } else {
        max_x_upto(s, n - 1)
    }
}

/// Smallest y coordinate among the first `n` points.
pub open spec fn min_y_upto(s: Seq<LogicalPoint>, n: int) -> int
    decreases n,
{
    if n <= 1 {
        s[0].y as int
    } else if (s[n - 1].y as int) < min_y_upto(s, n - 1) {
        s[n - 1].y as int
    } else {
        min_y_upto(s, n - 1)
    }
}

/// Largest y coordinate among the first `n` points.
pub open spec fn max_y_upto(s: Seq<LogicalPoint>, n: int) -> int
    decreases n,
{
    if n <= 1 {
        s[0].y as int
    } else if (s[n - 1].y as int) > max_y_upto(s, n - 1) {
        s[n - 1].y as int
    } else {
        max_y_upto(s, n - 1)
    }
}

/// Width of the trace's bounding box.
pub open spec fn bbox_w(s: Seq<LogicalPoint>) -> int {
    max_x_upto(s, s.len() as int) - min_x_upto(s, s.len() as int)
}

/// Height of the trace's bounding box.
pub open spec fn bbox_h(s: Seq<LogicalPoint>) -> int {
    max_y_upto(s, s.len() as int) - min_y_upto(s, s.len() as int)
}

/// Sum of the x coordinates of the first `n` points.
pub open spec fn sum_x_upto(s: Seq<LogicalPoint>, n: int) -> int
    decreases n,
{
    if n <= 0 {
        0
    } else {
        sum_x_upto(s, n - 1) + s[n - 1].x
    }
}

/// Sum of the y coordinates of the first `n` points.
pub open spec fn sum_y_upto(s: Seq<LogicalPoint>, n: int) -> int
    decreases n,
{
    if n <= 0 {
        0
    } else {
        sum_y_upto(s, n - 1) + s[n - 1].y
    }
}

/// Sum of all x coordinates.
pub open spec fn sum_x(s: Seq<LogicalPoint>) -> int {
    sum_x_upto(s, s.len() as int)
}

/// Sum of all y coordinates.
pub open spec fn sum_y(s: Seq<LogicalPoint>) -> int {
    sum_y_upto(s, s.len() as int)
}

/// Cross product of two points taken as vectors from the origin: one term
/// of the shoelace sum.
pub open spec fn cross2(a: LogicalPoint, b: LogicalPoint) -> int {
    a.x * b.y - a.y * b.x
}

/// Shoelace sum over the first `n` points (the open part of the polygon).
pub open spec fn darea_upto(s: Seq<LogicalPoint>, n: int) -> int
    decreases n,
{
    if n <= 1 {
        0
    } else {
        darea_upto(s, n - 1) + cross2(s[n - 2], s[n - 1])
    }
}

/// Twice the signed area of the closed polygon the trace draws, in trace
/// order. Retracing a path backwards cancels its contribution, so this
/// value is sensitive to the order points were sampled in.
pub open spec fn double_area(s: Seq<LogicalPoint>) -> int {
    if s.len() < 2 {
        0
    } else {
        darea_upto(s, s.len() as int) + cross2(s[s.len() - 1], s[0])
    }
}

/// All coordinate sums of a bounded in-bounds trace stay in range.
pub proof fn lemma_sum_bounds(s: Seq<LogicalPoint>, n: int)
    requires
        all_in_bounds(s, MAX_DIM as int, MAX_DIM as int),
        0 <= n <= s.len(),
    ensures
        0 <= sum_x_upto(s, n) <= n * MAX_DIM,
        0 <= sum_y_upto(s, n) <= n * MAX_DIM,
    decreases n,
{
    if n > 0 {
        lemma_sum_bounds(s, n - 1);
        assert(s[n - 1].in_bounds(MAX_DIM as int, MAX_DIM as int));
    }
}

/// Find the bounding box of a trace.
fn bbox_of(t: &GestureTrace) -> (r: (i64, i64, i64, i64))
    requires
        0 < t@.len(),
        all_in_bounds(t@, MAX_DIM as int, MAX_DIM as int),
    ensures
        r.0 == min_x_upto(t@, t@.len() as int),
        r.1 == max_x_upto(t@, t@.len() as int),
        r.2 == min_y_upto(t@, t@.len() as int),
        r.3 == max_y_upto(t@, t@.len() as int),
        0 <= r.0 <= r.1 <= MAX_DIM,
        0 <= r.2 <= r.3 <= MAX_DIM,
{
    let n = t.len();
    let p0 = t.get(0);
    let mut mnx = p0.x;
    let mut mxx = p0.x;
    let mut mny = p0.y;
    let mut mxy = p0.y;
    assert(t@[0].in_bounds(MAX_DIM as int, MAX_DIM as int));
    let mut i: usize = 1;
    while i < n
        invariant
            1 <= i <= n,
            n == t@.len(),
            all_in_bounds(t@, MAX_DIM as int, MAX_DIM as int),
            mnx == min_x_upto(t@, i as int),
            mxx == max_x_upto(t@, i as int),
            mny == min_y_upto(t@, i as int),
            mxy == max_y_upto(t@, i as int),
            0 <= mnx <= mxx <= MAX_DIM,
            0 <= mny <= mxy <= MAX_DIM,
        decreases n - i,
    {
        let p = t.get(i);
        assert(t@[i as int].in_bounds(MAX_DIM as int, MAX_DIM as int));
        if p.x < mnx {
            mnx = p.x;
        }
        if p.x > mxx {
            mxx = p.x;
        }
        if p.y < mny {
            mny = p.y;
        }
        if p.y > mxy {
            mxy = p.y;
        }
        i = i + 1;
    }
    (mnx, mxx, mny, mxy)
}

/// Sum the coordinates of a trace.
fn coord_sums(t: &GestureTrace) -> (r: (i64, i64))
    requires
        t.wf(),
        all_in_bounds(t@, MAX_DIM as int, MAX_DIM as int),
    ensures
        r.0 == sum_x(t@),
        r.1 == sum_y(t@),
        0 <= r.0 <= t@.len() * MAX_DIM,
        0 <= r.1 <= t@.len() * MAX_DIM,
{
    let n = t.len();
    let mut sx: i64 = 0;
    let mut sy: i64 = 0;
    let mut i: usize = 0;
    while i < n
        invariant
            0 <= i <= n,
            n == t@.len(),
            n <= TRACE_CAPACITY,
            all_in_bounds(t@, MAX_DIM as int, MAX_DIM as int),
            sx == sum_x_upto(t@, i as int),
            sy == sum_y_upto(t@, i as int),
            0 <= sx <= i * MAX_DIM,
            0 <= sy <= i * MAX_DIM,
        decreases n - i,
    {
        let p = t.get(i);
        assert(t@[i as int].in_bounds(MAX_DIM as int, MAX_DIM as int));
        sx = sx + p.x;
        sy = sy + p.y;
        i = i + 1;
    }
    (sx, sy)
}

/// Twice the signed area of the trace polygon.
fn double_area_of(t: &GestureTrace) -> (r: i64)
    requires
        t.wf(),
        all_in_bounds(t@, MAX_DIM as int, MAX_DIM as int),
    ensures
        r == double_area(t@),
        -DAREA_BOUND <= r <= DAREA_BOUND,
{
    let n = t.len();
    if n < 2 {
        return 0;
    }
    let mut da: i64 = 0;
    let mut i: usize = 1;
    while i < n
        invariant
            1 <= i <= n,
            2 <= n == t@.len(),
            n <= TRACE_CAPACITY,
            all_in_bounds(t@, MAX_DIM as int, MAX_DIM as int),
            da == darea_upto(t@, i as int),
            -(i as int) * DAREA_TERM_BOUND <= da <= (i as int) * DAREA_TERM_BOUND,
        decreases n - i,
    {
        let a = t.get(i - 1);
        let b = t.get(i);
        assert(t@[i - 1].in_bounds(MAX_DIM as int, MAX_DIM as int));
        assert(t@[i as int].in_bounds(MAX_DIM as int, MAX_DIM as int));
        proof {
            lemma_mul_bounds(a.x as int, b.y as int, MAX_DIM as int, MAX_DIM as int);
            lemma_mul_bounds(a.y as int, b.x as int, MAX_DIM as int, MAX_DIM as int);
        }
        da = da + (a.x * b.y - a.y * b.x);
        i = i + 1;
    }
    let a = t.get(n - 1);
    let b = t.get(0);
    assert(t@[n - 1].in_bounds(MAX_DIM as int, MAX_DIM as int));
    assert(t@[0].in_bounds(MAX_DIM as int, MAX_DIM as int));
    proof {
        lemma_mul_bounds(a.x as int, b.y as int, MAX_DIM as int, MAX_DIM as int);
        lemma_mul_bounds(a.y as int, b.x as int, MAX_DIM as int, MAX_DIM as int);
    }
    da + (a.x * b.y - a.y * b.x)
}

/// Every point sits within `DASH_DEV_TOL` of the mean height: the trace
/// deviation from the best-fit horizontal line is small. Stated without
/// division: `n * y` is compared against the sum of all heights.
pub open spec fn dash_dev_ok(s: Seq<LogicalPoint>) -> bool {
    forall|i: int|
        0 <= i < s.len() ==> abs_i(
            s.len() * (#[trigger] s[i].y) - sum_y(s),
        ) <= s.len() * DASH_DEV_TOL
}

/// Check the dash deviation bound for every point.
fn dash_dev_ok_of(t: &GestureTrace, sy: i64) -> (r: bool)
    requires
        t.wf(),
        all_in_bounds(t@, MAX_DIM as int, MAX_DIM as int),
        sy == sum_y(t@),
        0 <= sy <= t@.len() * MAX_DIM,
    ensures
        r == dash_dev_ok(t@),
{
    let n = t.len();
    let mut i: usize = 0;
    while i < n
        invariant
            0 <= i <= n,
            n == t@.len(),
            n <= TRACE_CAPACITY,
            all_in_bounds(t@, MAX_DIM as int, MAX_DIM as int),
            sy == sum_y(t@),
            0 <= sy <= n * MAX_DIM,
            forall|j: int|
                0 <= j < i ==> abs_i(
                    t@.len() * (#[trigger] t@[j].y) - sum_y(t@),
                ) <= t@.len() * DASH_DEV_TOL,
        decreases n - i,
    {
        let p = t.get(i);
        assert(t@[i as int].in_bounds(MAX_DIM as int, MAX_DIM as int));
        proof {
            lemma_mul_bounds(n as int, p.y as int, TRACE_CAPACITY as int, MAX_DIM as int);
            lemma_mul_bounds(n as int, DASH_DEV_TOL as int, TRACE_CAPACITY as int, DASH_DEV_TOL as int);
        }
        let d: i64 = (n as i64) * p.y - sy;
        let ad = if d < 0 {
            -d
        } else {
            d
        };
        if ad > (n as i64) * DASH_DEV_TOL {
            return false;
        }
        i = i + 1;
    }
    true
}

/// The dash signature: a bounding box at least `DASH_MIN_ASPECT` times
/// wider than tall, spanning at least a tenth of the logical screen
/// width, with every point close to the mean height.
pub open spec fn spec_dash(s: Seq<LogicalPoint>, width: int) -> bool {
    &&& bbox_w(s) >= DASH_MIN_ASPECT * bbox_h(s)
    &&& bbox_w(s) * DASH_SPAN_DEN >= width
    &&& dash_dev_ok(s)
}

/// x offset of point `i` from the centroid, scaled by the point count so
/// it stays an exact integer.
pub open spec fn rel_x(s: Seq<LogicalPoint>, i: int) -> int {
    s.len() * s[i].x - sum_x(s)
}

/// y offset of point `i` from the centroid, scaled by the point count.
pub open spec fn rel_y(s: Seq<LogicalPoint>, i: int) -> int {
    s.len() * s[i].y - sum_y(s)
}

/// Squared distance of point `i` from the centroid, scaled by the squared
/// point count.
pub open spec fn sqd(s: Seq<LogicalPoint>, i: int) -> int {
    rel_x(s, i) * rel_x(s, i) + rel_y(s, i) * rel_y(s, i)
}

/// Sum of `sqd` over the first `k` points.
pub open spec fn sum_sqd_upto(s: Seq<LogicalPoint>, k: int) -> int
    decreases k,
{
    if k <= 0 {
        0
    } else {
        sum_sqd_upto(s, k - 1) + sqd(s, k - 1)
    }
}

/// Sum of the scaled squared centroid distances of all points.
pub open spec fn sum_sqd(s: Seq<LogicalPoint>) -> int {
    sum_sqd_upto(s, s.len() as int)
}

/// Every squared centroid distance stays within the configured band
/// around the mean squared distance. Stated without division: both sides
/// are scaled by the point count and `CIRCLE_BAND_DEN`.
pub open spec fn circle_band_ok(s: Seq<LogicalPoint>) -> bool {
    forall|i: int|
        0 <= i < s.len() ==> {
            &&& CIRCLE_BAND_DEN * s.len() * (#[trigger] sqd(s, i)) >= CIRCLE_BAND_LOW * sum_sqd(s)
            &&& CIRCLE_BAND_DEN * s.len() * sqd(s, i) <= CIRCLE_BAND_HIGH * sum_sqd(s)
        }
}

/// The mean squared centroid distance reaches the minimum radius. Stated
/// without division: the sum is compared against the cubed point count.
pub open spec fn circle_radius_ok(s: Seq<LogicalPoint>) -> bool {
    sum_sqd(s) >= s.len() * s.len() * s.len() * (CIRCLE_MIN_RADIUS * CIRCLE_MIN_RADIUS)
}

/// Which of eight 45-degree sectors around the centroid a vector points
/// into, numbered in order of increasing angle.
pub open spec fn spec_octant(rx: int, ry: int) -> int {
    if rx >= 0 && ry >= 0 {
        if rx >= ry {
            0
        } else {
            1
        }
    } else if rx < 0 && ry >= 0 {
        if ry >= -rx {
            2
        } else {
            3
        }
    } else if rx < 0 && ry < 0 {
        if -rx >= -ry {
            4
        } else {
            5
        }
    } else {
        if -ry > rx {
            6
        } else {
            7
        }
    }
}

/// Cross product of the centroid-relative vectors of points `i` and `j`:
/// its sign gives the turning direction from one to the other.
pub open spec fn rel_cross(s: Seq<LogicalPoint>, i: int, j: int) -> int {
    rel_x(s, i) * rel_y(s, j) - rel_y(s, i) * rel_x(s, j)
}

/// Signed number of sector boundaries crossed when moving from sector
/// `o1` to sector `o2`, taking the short way round; a half-turn follows
/// the sign of the cross product `c`.
pub open spec fn spec_oct_delta(o1: int, o2: int, c: int) -> int {
    let d: int = (o2 - o1 + 8) % 8;
    if d == 0 {
        0
    } else if d <= 3 {
        d
    } else if d == 4 {
        if c >= 0 {
            4
        } else {
            -4
        }
    } else {
        d - 8
    }
}

/// Sector of point `i` around the centroid.
pub open spec fn oct_of(s: Seq<LogicalPoint>, i: int) -> int {
    spec_octant(rel_x(s, i), rel_y(s, i))
}

/// Net signed sector steps accumulated over the first `k` points: the
/// total angular progress of the trace, in eighth turns.
pub open spec fn winding_upto(s: Seq<LogicalPoint>, k: int) -> int
    decreases k,
{
    if k <= 1 {
        0
    } else {
        winding_upto(s, k - 1) + spec_oct_delta(
            oct_of(s, k - 2),
            oct_of(s, k - 1),
            rel_cross(s, k - 2, k - 1),
        )
    }
}

/// Net angular progress of the whole trace, in eighth turns.
pub open spec fn winding(s: Seq<LogicalPoint>) -> int {
    winding_upto(s, s.len() as int)
}

/// Scaled centroid offsets of point `i`, as machine integers.
fn rel_of(t: &GestureTrace, i: usize, sx: i64, sy: i64) -> (r: (i64, i64))
    requires
        t.wf(),
        all_in_bounds(t@, MAX_DIM as int, MAX_DIM as int),
        i < t@.len(),
        sx == sum_x(t@),
        sy == sum_y(t@),
        0 <= sx <= t@.len() * MAX_DIM,
        0 <= sy <= t@.len() * MAX_DIM,
    ensures
        r.0 == rel_x(t@, i as int),
        r.1 == rel_y(t@, i as int),
        -REL_BOUND <= r.0 <= REL_BOUND,
        -REL_BOUND <= r.1 <= REL_BOUND,
{
    let n = t.len();
    let p = t.get(i);
    assert(t@[i as int].in_bounds(MAX_DIM as int, MAX_DIM as int));
    proof {
        lemma_mul_bounds(n as int, p.x as int, TRACE_CAPACITY as int, MAX_DIM as int);
        lemma_mul_bounds(n as int, p.y as int, TRACE_CAPACITY as int, MAX_DIM as int);
    }
    ((n as i64) * p.x - sx, (n as i64) * p.y - sy)
}

/// Sum the scaled squared centroid distances of a trace.
fn sum_sqd_of(t: &GestureTrace, sx: i64, sy: i64) -> (total: i128)
    requires
        t.wf(),
        all_in_bounds(t@, MAX_DIM as int, MAX_DIM as int),
        sx == sum_x(t@),
        sy == sum_y(t@),
        0 <= sx <= t@.len() * MAX_DIM,
        0 <= sy <= t@.len() * MAX_DIM,
    ensures
        total == sum_sqd(t@),
        0 <= total <= (t@.len() as int) * 144115188075855872,
{
    let n = t.len();
    let mut total: i128 = 0;
    let mut i: usize = 0;
    while i < n
        invariant
            0 <= i <= n,
            n == t@.len(),
            n <= TRACE_CAPACITY,
            t.wf(),
            all_in_bounds(t@, MAX_DIM as int, MAX_DIM as int),
            sx == sum_x(t@),
            sy == sum_y(t@),
            0 <= sx <= n * MAX_DIM,
            0 <= sy <= n * MAX_DIM,
            total == sum_sqd_upto(t@, i as int),
            0 <= total <= (i as int) * 144115188075855872,
        decreases n - i,
    {
        let (rx, ry) = rel_of(t, i, sx, sy);
        proof {
            lemma_sq_bound(rx as int, 268435456);
            lemma_sq_bound(ry as int, 268435456);
        }
        let d: i128 = (rx as i128) * (rx as i128) + (ry as i128) * (ry as i128);
        total = total + d;
        i = i + 1;
    }
    total
}

/// Check the radius band for every point of a trace.
fn circle_band_ok_of(t: &GestureTrace, sx: i64, sy: i64, total: i128) -> (r: bool)
    requires
        t.wf(),
        all_in_bounds(t@, MAX_DIM as int, MAX_DIM as int),
        sx == sum_x(t@),
        sy == sum_y(t@),
        0 <= sx <= t@.len() * MAX_DIM,
        0 <= sy <= t@.len() * MAX_DIM,
        total == sum_sqd(t@),
        0 <= total <= (t@.len() as int) * 144115188075855872,
    ensures
        r == circle_band_ok(t@),
{
    let n = t.len();
    let mut i: usize = 0;
    while i < n
        invariant
            0 <= i <= n,
            n == t@.len(),
            n <= TRACE_CAPACITY,
            t.wf(),
            all_in_bounds(t@, MAX_DIM as int, MAX_DIM as int),
            sx == sum_x(t@),
            sy == sum_y(t@),
            0 <= sx <= n * MAX_DIM,
            0 <= sy <= n * MAX_DIM,
            total == sum_sqd(t@),
            0 <= total <= (n as int) * 144115188075855872,
            forall|j: int|
                0 <= j < i ==> {
                    &&& CIRCLE_BAND_DEN * t@.len() * (#[trigger] sqd(t@, j)) >= CIRCLE_BAND_LOW
                        * sum_sqd(t@)
                    &&& CIRCLE_BAND_DEN * t@.len() * sqd(t@, j) <= CIRCLE_BAND_HIGH * sum_sqd(t@)
                },
        decreases n - i,
    {
        let (rx, ry) = rel_of(t, i, sx, sy);
        proof {
            lemma_sq_bound(rx as int, 268435456);
            lemma_sq_bound(ry as int, 268435456);
        }
        let d: i128 = (rx as i128) * (rx as i128) + (ry as i128) * (ry as i128);
        proof {
            lemma_mul_bounds((CIRCLE_BAND_DEN as int) * (n as int), d as int, 409600, 144115188075855872);
        }
        let lhs: i128 = (CIRCLE_BAND_DEN as i128) * (n as i128) * d;
        assert(d == sqd(t@, i as int));
        assert(lhs == CIRCLE_BAND_DEN * t@.len() * sqd(t@, i as int));
        if lhs < (CIRCLE_BAND_LOW as i128) * total {
            assert(!circle_band_ok(t@));
            return false;
        }
        if lhs > (CIRCLE_BAND_HIGH as i128) * total {
            assert(!circle_band_ok(t@));
            return false;
        }
        i = i + 1;
    }
    true
}

/// Net sector winding of a trace around its centroid.
fn winding_of(t: &GestureTrace, sx: i64, sy: i64) -> (w: i64)
    requires
        t.wf(),
        all_in_bounds(t@, MAX_DIM as int, MAX_DIM as int),
        1 <= t@.len(),
        sx == sum_x(t@),
        sy == sum_y(t@),
        0 <= sx <= t@.len() * MAX_DIM,
        0 <= sy <= t@.len() * MAX_DIM,
    ensures
        w == winding(t@),
        -16384 <= w <= 16384,
{
    let n = t.len();
    let mut w: i64 = 0;
    let mut i: usize = 1;
    while i < n
        invariant
            1 <= i <= n,
            1 <= n == t@.len(),
            n <= TRACE_CAPACITY,
            t.wf(),
            all_in_bounds(t@, MAX_DIM as int, MAX_DIM as int),
            sx == sum_x(t@),
            sy == sum_y(t@),
            0 <= sx <= n * MAX_DIM,
            0 <= sy <= n * MAX_DIM,
            w == winding_upto(t@, i as int),
            -4 * (i as int) <= w <= 4 * (i as int),
        decreases n - i,
    {
        let (ax, ay) = rel_of(t, i - 1, sx, sy);
        let (bx, by) = rel_of(t, i, sx, sy);
        let oa = octant_of(ax, ay);
        let ob = octant_of(bx, by);
        proof {
            lemma_mul_bounds(ax as int, by as int, 268435456, 268435456);
            lemma_mul_bounds(ay as int, bx as int, 268435456, 268435456);
        }
        let c: i128 = (ax as i128) * (by as i128) - (ay as i128) * (bx as i128);
        let d: i64 = (ob - oa + 8) % 8;
        let step: i64 = if d == 0 {
            0
        } else if d <= 3 {
            d
        } else if d == 4 {
            if c >= 0 {
                4
            } else {
                -4
            }
        } else {
            d - 8
        };
        assert(step == spec_oct_delta(oa as int, ob as int, c as int));
        w = w + step;
        i = i + 1;
    }
    w
}

/// Which 45-degree sector a centroid-relative vector points into.
fn octant_of(rx: i64, ry: i64) -> (o: i64)
    requires
        -REL_BOUND <= rx <= REL_BOUND,
        -REL_BOUND <= ry <= REL_BOUND,
    ensures
        o == spec_octant(rx as int, ry as int),
        0 <= o <= 7,
{
    if rx >= 0 && ry >= 0 {
        if rx >= ry {
            0
        } else {
            1
        }
    } else if rx < 0 && ry >= 0 {
        if ry >= -rx {
            2
        } else {
            3
        }
    } else if rx < 0 && ry < 0 {
        if -rx >= -ry {
            4
        } else {
            5
        }
    } else {
        if -ry > rx {
            6
        } else {
            7
        }
    }
}

/// The circle signature: the mean radius reaches the minimum, every
/// radius stays within the band around the mean, and the trace progresses
/// close to a full turn around its centroid in one direction.
pub open spec fn spec_circle(s: Seq<LogicalPoint>) -> bool {
    &&& circle_radius_ok(s)
    &&& circle_band_ok(s)
    &&& abs_i(winding(s)) >= CIRCLE_MIN_EIGHTH_TURNS
}

/// The rectangle signature: every screen edge was touched, the trace
/// polygon fills most of its bounding box, and the points progress
/// monotonically around the centroid rather than doubling back.
pub open spec fn spec_rect(s: Seq<LogicalPoint>, flags: EdgeFlags) -> bool {
    &&& flags.all_set()
    &&& RECT_AREA_DEN * abs_i(double_area(s)) >= 2 * RECT_AREA_NUM * (bbox_w(s) * bbox_h(s))
    &&& abs_i(winding(s)) >= RECT_MIN_EIGHTH_TURNS
}

/// What it means for a snapshot to match an expected shape: enough points,
/// and the geometric signature of that shape.
pub open spec fn spec_classify(
    s: Seq<LogicalPoint>,
    flags: EdgeFlags,
    width: int,
    height: int,
    shape: Segno,
) -> bool {
    &&& s.len() >= MIN_TRACE_POINTS
    &&& match shape {
        Segno::Rettangolo => spec_rect(s, flags),
        Segno::Cerchio => spec_circle(s),
        Segno::Meno => spec_dash(s, width),
    }
}

/// Classify a snapshot against the expected shape. Pure: reads the
/// snapshot, mutates nothing.
pub fn classify(snap: &GestureSnapshot, shape: Segno) -> (r: bool)
    requires
        snap.wf(),
    ensures
        r == spec_classify(
            snap.trace@,
            snap.flags,
            snap.width as int,
            snap.height as int,
            shape,
        ),
{
    let n = snap.trace.len();
    if n < MIN_TRACE_POINTS {
        return false;
    }
    proof {
        assert forall|i: int| 0 <= i < snap.trace@.len() implies #[trigger] snap.trace@[i].in_bounds(
            MAX_DIM as int,
            MAX_DIM as int,
        ) by {
            assert(snap.trace@[i].in_bounds(snap.width as int, snap.height as int));
        }
        lemma_sum_bounds(snap.trace@, snap.trace@.len() as int);
    }
    match shape {
        Segno::Rettangolo => {
            if !snap.flags.check_all_set() {
                return false;
            }
            let (mnx, mxx, mny, mxy) = bbox_of(&snap.trace);
            let da = double_area_of(&snap.trace);
            let ada = if da < 0 {
                -da
            } else {
                da
            };
            let bw = mxx - mnx;
            let bh = mxy - mny;
            proof {
                lemma_mul_bounds(bw as int, bh as int, 65536, 65536);
            }
            let boxa = bw * bh;
            proof {
                lemma_mul_bounds(2 * RECT_AREA_NUM as int, boxa as int, 2, 4294967296);
            }
            if RECT_AREA_DEN * ada < 2 * RECT_AREA_NUM * boxa {
                return false;
            }
            let (sx, sy) = coord_sums(&snap.trace);
            let w = winding_of(&snap.trace, sx, sy);
            let aw = if w < 0 {
                -w
            } else {
                w
            };
            aw >= RECT_MIN_EIGHTH_TURNS
        },
        Segno::Cerchio => {
            let (sx, sy) = coord_sums(&snap.trace);
            let total = sum_sqd_of(&snap.trace, sx, sy);
            proof {
                lemma_mul_bounds(n as int, n as int, 4096, 4096);
                lemma_mul_bounds((n as int) * (n as int), n as int, 16777216, 4096);
                lemma_mul_bounds(CIRCLE_MIN_RADIUS as int, CIRCLE_MIN_RADIUS as int, 20, 20);
            }
            let n3: i128 = (n as i128) * (n as i128) * (n as i128);
            let min_r2: i128 = (CIRCLE_MIN_RADIUS as i128) * (CIRCLE_MIN_RADIUS as i128);
            proof {
                lemma_mul_bounds(n3 as int, min_r2 as int, 68719476736, 400);
            }
            if total < n3 * min_r2 {
                return false;
            }
            if !circle_band_ok_of(&snap.trace, sx, sy, total) {
                return false;
            }
            let w = winding_of(&snap.trace, sx, sy);
            let aw = if w < 0 {
                -w
            } else {
                w
            };
            aw >= CIRCLE_MIN_EIGHTH_TURNS
        },
        Segno::Meno => {
            let (mnx, mxx, mny, mxy) = bbox_of(&snap.trace);
            let bw = mxx - mnx;
            let bh = mxy - mny;
            if bw < DASH_MIN_ASPECT * bh {
                return false;
            }
            if bw * DASH_SPAN_DEN < snap.width {
                return false;
            }
            let (_sx, sy) = coord_sums(&snap.trace);
            dash_dev_ok_of(&snap.trace, sy)
        },
    }
}

/// Below the minimum point count no shape matches: a near-stationary
/// trace is never read as a gesture.
pub proof fn lemma_short_trace_never_matches(
    s: Seq<LogicalPoint>,
    flags: EdgeFlags,
    width: int,
    height: int,
    shape: Segno,
)
    requires
        s.len() < MIN_TRACE_POINTS,
    ensures
        !spec_classify(s, flags, width, height, shape),
{
}

} // verus!

