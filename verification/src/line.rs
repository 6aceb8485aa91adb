//! The digital line that the renderer draws between two pixels: the
//! all-octant error-accumulating (Bresenham) walk, as a mathematical object,
//! and the facts about it that the drawing code and its users rely on.

use vstd::prelude::*;

verus! {

pub open spec fn abs(v: int) -> int {
    if v < 0 { -v } else { v }
}

pub open spec fn max(a: int, b: int) -> int {
    if a < b { b } else { a }
}

/// Horizontal extent `|x1 - x0|` of the segment.
pub open spec fn seg_dx(x0: int, x1: int) -> int {
    abs(x1 - x0)
}

/// Direction of the horizontal steps: `+1` towards a larger `x1`, else `-1`.
pub open spec fn seg_sx(x0: int, x1: int) -> int {
    if x0 < x1 { 1 } else { -1 }
}

/// How far `x` has moved from `x0` in the direction of `x1`.
pub open spec fn progress(x0: int, x1: int, x: int) -> int {
    if x0 < x1 { x - x0 } else { x0 - x }
}

/// The walk's starting state `(x, y, err)`.
pub open spec fn line_start(x0: int, y0: int, x1: int, y1: int) -> (int, int, int) {
    (x0, y0, seg_dx(x0, x1) - seg_dx(y0, y1))
}

/// One step of the walk: with `e2 = 2 * err`, step horizontally when
/// `e2 > -dy` and vertically when `e2 < dx` (both tests on the same `e2`).
pub open spec fn line_step(x0: int, y0: int, x1: int, y1: int, s: (int, int, int)) -> (int, int, int) {
    let dx = seg_dx(x0, x1);
    let dy = seg_dx(y0, y1);
    let e2 = 2 * s.2;
    let x = if e2 > -dy { s.0 + seg_sx(x0, x1) } else { s.0 };
    let e1 = if e2 > -dy { s.2 - dy } else { s.2 };
    let y = if e2 < dx { s.1 + seg_sx(y0, y1) } else { s.1 };
    let e = if e2 < dx { e1 + dx } else { e1 };
    (x, y, e)
}

/// The state after `k` steps.
pub open spec fn line_state(x0: int, y0: int, x1: int, y1: int, k: nat) -> (int, int, int)
    decreases k,
{
    if k == 0 {
        line_start(x0, y0, x1, y1)
    } else {
        line_step(x0, y0, x1, y1, line_state(x0, y0, x1, y1, (k - 1) as nat))
    }
}

/// Number of steps the walk takes: the larger of the two extents.
pub open spec fn line_steps(x0: int, y0: int, x1: int, y1: int) -> nat {
    max(seg_dx(x0, x1), seg_dx(y0, y1)) as nat
}

/// The pixels of the line from `(x0, y0)` to `(x1, y1)`, in drawing order.
pub open spec fn line_points(x0: int, y0: int, x1: int, y1: int) -> Seq<(int, int)> {
    Seq::new(
        line_steps(x0, y0, x1, y1) + 1,
        |k: int|
            (line_state(x0, y0, x1, y1, k as nat).0, line_state(x0, y0, x1, y1, k as nat).1),
    )
}

/// What holds of the walk after `k <= line_steps` steps.
pub open spec fn line_state_inv(x0: int, y0: int, x1: int, y1: int, k: nat) -> bool {
    let dx = seg_dx(x0, x1);
    let dy = seg_dx(y0, y1);
    let s = line_state(x0, y0, x1, y1, k);
    let i = progress(x0, x1, s.0);
    let j = progress(y0, y1, s.1);
    &&& 0 <= i <= dx
    &&& 0 <= j <= dy
    &&& s.2 == dx - dy - i * dy + j * dx
    &&& -3 * dy <= 2 * s.2 <= 3 * dx
    &&& dx > dy ==> 2 * s.2 > -dy
    &&& dy > dx ==> 2 * s.2 < dx
    &&& dx == dy ==> s.2 == 0
    &&& dx >= dy && dx > 0 ==> dx - 2 * dy <= 2 * s.2 < 3 * dx - 2 * dy
    &&& dy > dx ==> 2 * dx - 3 * dy < 2 * s.2 <= 2 * dx - dy
    &&& dx >= dy ==> i == k
    &&& dy >= dx ==> j == k
}

proof fn lemma_no_overshoot(dx: int, dy: int, i: int, j: int, e: int)
    requires
        0 <= i <= dx,
        0 <= j <= dy,
        e == dx - dy - i * dy + j * dx,
    ensures
        i == dx && j < dy ==> 2 * e <= -2 * dy,
        j == dy && i < dx ==> 2 * e >= 2 * dx,
        i == dx ==> e == dx * (1 + j - dy) - dy,
{
    if i == dx && j < dy {
        assert(j * dx <= (dy - 1) * dx) by (nonlinear_arith)
            requires
                j <= dy - 1,
                dx >= 0,
        ;
        assert((dy - 1) * dx == dy * dx - dx) by (nonlinear_arith);
        assert(i * dy == dx * dy) by (nonlinear_arith)
            requires
                i == dx,
        ;
    }
    if j == dy && i < dx {
        assert(i * dy <= (dx - 1) * dy) by (nonlinear_arith)
            requires
                i <= dx - 1,
                dy >= 0,
        ;
        assert((dx - 1) * dy == dx * dy - dy) by (nonlinear_arith);
        assert(j * dx == dx * dy) by (nonlinear_arith)
            requires
                j == dy,
        ;
    }
    if i == dx {
        assert(dx * (1 + j - dy) == dx + j * dx - dx * dy) by (nonlinear_arith);
        assert(i * dy == dx * dy) by (nonlinear_arith)
            requires
                i == dx,
        ;
    }
}

proof fn lemma_end_reached(dx: int, dy: int, j: int, e: int)
    requires
        dx > dy,
        0 <= j <= dy,
        e == dx * (1 + j - dy) - dy,
        2 * e > -dy,
    ensures
        j == dy,
{
    if j < dy {
        assert(dx * (1 + j - dy) <= 0) by (nonlinear_arith)
            requires
                dx > 0,
                1 + j - dy <= 0,
        ;
    }
}

/// The walk's invariant holds at every step up to `line_steps`.
pub proof fn lemma_line_state_inv(x0: int, y0: int, x1: int, y1: int, k: nat)
    requires
        k <= line_steps(x0, y0, x1, y1),
    ensures
        line_state_inv(x0, y0, x1, y1, k),
    decreases k,
{
    let dx = seg_dx(x0, x1);
    let dy = seg_dx(y0, y1);
    if k == 0 {
        let s = line_state(x0, y0, x1, y1, 0);
        assert(progress(x0, x1, s.0) == 0);
        assert(progress(y0, y1, s.1) == 0);
        assert(0 * dy == 0 && 0 * dx == 0) by (nonlinear_arith);
    } else {
        let km = (k - 1) as nat;
        lemma_line_state_inv(x0, y0, x1, y1, km);
        let s = line_state(x0, y0, x1, y1, km);
        let t = line_state(x0, y0, x1, y1, k);
        assert(t == line_step(x0, y0, x1, y1, s));
        let i = progress(x0, x1, s.0);
        let j = progress(y0, y1, s.1);
        let e = s.2;
        let e2 = 2 * e;
        let xs = e2 > -dy;
        let ys = e2 < dx;
        lemma_no_overshoot(dx, dy, i, j, e);
        // the major coordinate has not reached its end yet
        assert(dx >= dy ==> i < dx);
        assert(dy >= dx ==> j < dy);
        assert(xs ==> i < dx);
        assert(ys ==> j < dy);
        let i2 = if xs { i + 1 } else { i };
        let j2 = if ys { j + 1 } else { j };
        assert(progress(x0, x1, t.0) == i2);
        assert(progress(y0, y1, t.1) == j2);
        assert((i + 1) * dy == i * dy + dy) by (nonlinear_arith);
        assert((j + 1) * dx == j * dx + dx) by (nonlinear_arith);
        assert(t.2 == dx - dy - i2 * dy + j2 * dx);
    }
}

/// The walk is at `(x1, y1)` after exactly `line_steps` steps, and not before.
pub proof fn lemma_line_end(x0: int, y0: int, x1: int, y1: int, k: nat)
    requires
        k <= line_steps(x0, y0, x1, y1),
    ensures
        (line_state(x0, y0, x1, y1, k).0 == x1 && line_state(x0, y0, x1, y1, k).1 == y1) <==> k
            == line_steps(x0, y0, x1, y1),
{
    lemma_line_state_inv(x0, y0, x1, y1, k);
    let dx = seg_dx(x0, x1);
    let dy = seg_dx(y0, y1);
    let s = line_state(x0, y0, x1, y1, k);
    let i = progress(x0, x1, s.0);
    let j = progress(y0, y1, s.1);
    assert(s.0 == x1 <==> i == dx);
    assert(s.1 == y1 <==> j == dy);
    if k == line_steps(x0, y0, x1, y1) {
        if dx > dy {
            lemma_no_overshoot(dx, dy, i, j, s.2);
            lemma_end_reached(dx, dy, j, s.2);
        } else if dy > dx {
            lemma_no_overshoot(dy, dx, j, i, -s.2);
            assert(-s.2 == dy - dx - j * dx + i * dy);
            lemma_end_reached(dy, dx, i, -s.2);
        }
    }
}

/// The pixels of a line start at the first endpoint and end at the second;
/// there are `max(|x1 - x0|, |y1 - y0|) + 1` of them, all distinct and inside the
/// segment's bounding box; each step moves to one of the eight neighbours, never
/// away from the end point in either coordinate.
pub proof fn lemma_line_points(x0: int, y0: int, x1: int, y1: int)
    ensures
        ({
            let pts = line_points(x0, y0, x1, y1);
            &&& pts.len() == max(seg_dx(x0, x1), seg_dx(y0, y1)) + 1
            &&& pts[0] == (x0, y0)
            &&& pts.last() == (x1, y1)
            &&& forall|k: int|
                0 <= k < pts.len() ==> {
                    &&& 0 <= progress(x0, x1, #[trigger] pts[k].0) <= seg_dx(x0, x1)
                    &&& 0 <= progress(y0, y1, pts[k].1) <= seg_dx(y0, y1)
                }
            &&& forall|k: int|
                0 <= k < pts.len() - 1 ==> {
                    &&& (pts[k + 1].0 == #[trigger] pts[k].0 || pts[k + 1].0 == pts[k].0 + seg_sx(x0, x1))
                    &&& (pts[k + 1].1 == pts[k].1 || pts[k + 1].1 == pts[k].1 + seg_sx(y0, y1))
                    &&& pts[k + 1] != pts[k]
                }
            &&& forall|k1: int, k2: int|
                0 <= k1 < k2 < pts.len() ==> #[trigger] pts[k1] != #[trigger] pts[k2]
        }),
{
    let pts = line_points(x0, y0, x1, y1);
    let n = line_steps(x0, y0, x1, y1);
    let dx = seg_dx(x0, x1);
    let dy = seg_dx(y0, y1);
    lemma_line_end(x0, y0, x1, y1, n);
    assert forall|k: int|
        0 <= k < pts.len() implies {
            &&& 0 <= progress(x0, x1, #[trigger] pts[k].0) <= seg_dx(x0, x1)
            &&& 0 <= progress(y0, y1, pts[k].1) <= seg_dx(y0, y1)
        } by {
        lemma_line_state_inv(x0, y0, x1, y1, k as nat);
    }
    assert forall|k: int|
        0 <= k < pts.len() - 1 implies {
            &&& (pts[k + 1].0 == #[trigger] pts[k].0 || pts[k + 1].0 == pts[k].0 + seg_sx(x0, x1))
            &&& (pts[k + 1].1 == pts[k].1 || pts[k + 1].1 == pts[k].1 + seg_sx(y0, y1))
            &&& pts[k + 1] != pts[k]
        } by {
        lemma_line_state_inv(x0, y0, x1, y1, k as nat);
        lemma_line_state_inv(x0, y0, x1, y1, (k + 1) as nat);
        assert(line_state(x0, y0, x1, y1, (k + 1) as nat) == line_step(
            x0,
            y0,
            x1,
            y1,
            line_state(x0, y0, x1, y1, k as nat),
        ));
    }
    assert forall|k1: int, k2: int| 0 <= k1 < k2 < pts.len() implies #[trigger] pts[k1]
        != #[trigger] pts[k2] by {
        lemma_line_state_inv(x0, y0, x1, y1, k1 as nat);
        lemma_line_state_inv(x0, y0, x1, y1, k2 as nat);
    }
}

/// Every pixel of a line is a nearest pixel to the ideal segment: at `i`
/// steps along x and `j` along y from the start, the vertical (or, for steep
/// lines, horizontal) distance to the true line, `(j * dx - i * dy) / max(dx, dy)`,
/// is at most half a pixel. The walk advances one pixel along the longer axis
/// at every step, and a tie is resolved towards the start on the shorter axis:
/// for lines no steeper than 45 degrees `j` is the one integer with
/// `-dx <= 2 * (j * dx - i * dy) < dx`, for steeper ones `i` is the one with
/// `-dy < 2 * (j * dx - i * dy) <= dy`.
pub proof fn lemma_line_points_near_segment(x0: int, y0: int, x1: int, y1: int)
    ensures
        ({
            let pts = line_points(x0, y0, x1, y1);
            let dx = seg_dx(x0, x1);
            let dy = seg_dx(y0, y1);
            forall|k: int|
                0 <= k < pts.len() ==> {
                    let i = progress(x0, x1, (#[trigger] pts[k]).0);
                    let j = progress(y0, y1, pts[k].1);
                    &&& -max(dx, dy) <= 2 * (j * dx - i * dy) <= max(dx, dy)
                    &&& dx >= dy ==> i == k && -dx <= 2 * (j * dx - i * dy) && (dx == 0 || 2 * (j
                        * dx - i * dy) < dx)
                    &&& dy > dx ==> j == k && -dy < 2 * (j * dx - i * dy) <= dy
                }
        }),
{
    let pts = line_points(x0, y0, x1, y1);
    assert forall|k: int| 0 <= k < pts.len() implies {
        let i = progress(x0, x1, (#[trigger] pts[k]).0);
        let j = progress(y0, y1, pts[k].1);
        let dx = seg_dx(x0, x1);
        let dy = seg_dx(y0, y1);
        &&& -max(dx, dy) <= 2 * (j * dx - i * dy) <= max(dx, dy)
        &&& dx >= dy ==> i == k && -dx <= 2 * (j * dx - i * dy) && (dx == 0 || 2 * (j * dx - i * dy)
            < dx)
        &&& dy > dx ==> j == k && -dy < 2 * (j * dx - i * dy) <= dy
    } by {
        lemma_line_state_inv(x0, y0, x1, y1, k as nat);
    }
}

} // verus!
