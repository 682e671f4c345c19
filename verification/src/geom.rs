use vstd::prelude::*;

use crate::units::{PMAX, QMAX, isqrt_u64, sqrt_floor};

verus! {

/// A point or displacement in fixed-point world coordinates.
#[derive(Clone, Copy, PartialEq, Eq, Structural, Debug)]
pub struct Vec2i {
    pub x: i64,
    pub y: i64,
}

/// An axis-aligned rectangle: corner of least coordinates plus extent.
#[derive(Clone, Copy, PartialEq, Eq, Structural, Debug)]
pub struct Recti {
    pub x: i64,
    pub y: i64,
    pub w: i64,
    pub h: i64,
}

/// A coordinate the library accepts: small enough that sums and squared
/// distances stay inside `i64`.
pub open spec fn in_coord(v: int) -> bool {
    -PMAX <= v <= PMAX
}

pub open spec fn vec_wf(v: Vec2i) -> bool {
    in_coord(v.x as int) && in_coord(v.y as int)
}

pub open spec fn rect_wf(r: Recti) -> bool {
    in_coord(r.x as int) && in_coord(r.y as int) && 0 <= r.w <= QMAX && 0 <= r.h <= QMAX
}

/// Two rectangles overlap when their closed extents meet on both axes;
/// touching edges count as overlap.
pub open spec fn rects_overlap(a: Recti, b: Recti) -> bool {
    &&& a.x <= b.x + b.w
    &&& b.x <= a.x + a.w
    &&& a.y <= b.y + b.h
    &&& b.y <= a.y + a.h
}

pub fn overlaps(a: &Recti, b: &Recti) -> (r: bool)
    requires
        rect_wf(*a),
        rect_wf(*b),
    ensures
        r == rects_overlap(*a, *b),
{
    a.x <= b.x + b.w && b.x <= a.x + a.w && a.y <= b.y + b.h && b.y <= a.y + a.h
}

/// `inner` lies entirely within `outer`.
pub open spec fn rect_contains(outer: Recti, inner: Recti) -> bool {
    &&& outer.x <= inner.x
    &&& inner.x + inner.w <= outer.x + outer.w
    &&& outer.y <= inner.y
    &&& inner.y + inner.h <= outer.y + outer.h
}

/// A rectangle that misses a container misses everything inside it.
pub proof fn lemma_miss_container_miss_contained(outer: Recti, inner: Recti, q: Recti)
    requires
        rect_contains(outer, inner),
        !rects_overlap(q, outer),
    ensures
        !rects_overlap(q, inner),
{
}

/// Squared length of a vector.
pub open spec fn norm_sq(v: Vec2i) -> int {
    v.x * v.x + v.y * v.y
}

/// Squared distance between two points.
pub open spec fn dist_sq(a: Vec2i, b: Vec2i) -> int {
    (a.x - b.x) * (a.x - b.x) + (a.y - b.y) * (a.y - b.y)
}

/// Fixed-point distance: the floor of the Euclidean distance.
pub open spec fn dist_spec(a: Vec2i, b: Vec2i) -> int {
    sqrt_floor(dist_sq(a, b) as nat) as int
}

/// Neither coordinate difference exceeds the fixed-point distance.
pub proof fn lemma_component_within_dist(a: Vec2i, b: Vec2i)
    ensures
        -dist_spec(a, b) <= a.x - b.x <= dist_spec(a, b),
        -dist_spec(a, b) <= a.y - b.y <= dist_spec(a, b),
{
    let dx = a.x - b.x;
    let dy = a.y - b.y;
    assert(dx * dx >= 0 && dy * dy >= 0) by (nonlinear_arith);
    let s = dist_sq(a, b);
    let d = sqrt_floor(s as nat) as int;
    crate::units::lemma_sqrt_floor_bounds(s as nat);
    assert(d * d <= s < (d + 1) * (d + 1));
    if dx > d {
        assert(dx * dx >= (d + 1) * (d + 1)) by (nonlinear_arith)
            requires
                dx >= d + 1,
                d >= 0,
        ;
        assert(dx * dx <= s) by (nonlinear_arith)
            requires
                s == dx * dx + dy * dy,
                dy * dy >= 0,
        ;
    }
    if dx < -d {
        assert(dx * dx >= (d + 1) * (d + 1)) by (nonlinear_arith)
            requires
                dx <= -(d + 1),
                d >= 0,
        ;
        assert(dx * dx <= s) by (nonlinear_arith)
            requires
                s == dx * dx + dy * dy,
                dy * dy >= 0,
        ;
    }
    if dy > d {
        assert(dy * dy >= (d + 1) * (d + 1)) by (nonlinear_arith)
            requires
                dy >= d + 1,
                d >= 0,
        ;
        assert(dy * dy <= s) by (nonlinear_arith)
            requires
                s == dx * dx + dy * dy,
                dx * dx >= 0,
        ;
    }
    if dy < -d {
        assert(dy * dy >= (d + 1) * (d + 1)) by (nonlinear_arith)
            requires
                dy <= -(d + 1),
                d >= 0,
        ;
        assert(dy * dy <= s) by (nonlinear_arith)
            requires
                s == dx * dx + dy * dy,
                dx * dx >= 0,
        ;
    }
}

pub fn dist_between(a: &Vec2i, b: &Vec2i) -> (d: i64)
    requires
        vec_wf(*a),
        vec_wf(*b),
    ensures
        d == dist_spec(*a, *b),
        0 <= d < 600_000_000,
        d * d <= dist_sq(*a, *b),
        dist_sq(*a, *b) < (d + 1) * (d + 1),
{
    let dx = a.x - b.x;
    let dy = a.y - b.y;
    proof {
        assert(dx * dx <= 160_000_000_000_000_000int && dx * dx >= 0) by (nonlinear_arith)
            requires
                -2 * PMAX <= dx <= 2 * PMAX,
                PMAX == 200_000_000,
        ;
        assert(dy * dy <= 160_000_000_000_000_000int && dy * dy >= 0) by (nonlinear_arith)
            requires
                -2 * PMAX <= dy <= 2 * PMAX,
                PMAX == 200_000_000,
        ;
    }
    let sq: i64 = dx * dx + dy * dy;
    let r = isqrt_u64(sq as u64);
    proof {
        assert(sq as u64 == sq);
        assert(r < 600_000_000) by (nonlinear_arith)
            requires
                r * r <= 320_000_000_000_000_000,
        ;
    }
    r as i64
}

} // verus!
