//! Integer rectangles and clip intersection.
//!
//! All drawing state works on axis-aligned rectangles with integer
//! coordinates.  Scene items stay within [`SCENE_LIMIT`]; rectangles that
//! arise from translating and clipping scene rectangles stay within the wider
//! [`RECT_LIMIT`], so every sum of a coordinate and an extent fits in `i64`.

use vstd::prelude::*;

verus! {

/// Bound on the coordinates and extents of rectangles handed to the drawing
/// protocol by the scene.
pub const SCENE_LIMIT: i64 = 0x8000_0000;

/// Bound within which every rectangle held by the drawing state stays.
/// Translating a scene rectangle by an in-scene offset cannot leave it.
pub const RECT_LIMIT: i64 = 0x2_0000_0000;

/// An axis-aligned rectangle: origin `(x, y)`, extent `w` by `h`.
/// An extent of zero (or less) means the rectangle covers no point.
#[derive(Clone, Copy, PartialEq, Eq, Structural, Debug)]
pub struct Rect {
    pub x: i64,
    pub y: i64,
    pub w: i64,
    pub h: i64,
}

/// A rectangle the drawing state may hold: nonnegative extents, everything
/// within [`RECT_LIMIT`].
pub open spec fn rect_wf(r: Rect) -> bool {
    &&& -RECT_LIMIT <= r.x <= RECT_LIMIT
    &&& -RECT_LIMIT <= r.y <= RECT_LIMIT
    &&& 0 <= r.w <= RECT_LIMIT
    &&& 0 <= r.h <= RECT_LIMIT
}

/// A rectangle the scene may hand in: nonnegative extents, everything within
/// [`SCENE_LIMIT`].
pub open spec fn rect_in_scene(r: Rect) -> bool {
    &&& -SCENE_LIMIT <= r.x <= SCENE_LIMIT
    &&& -SCENE_LIMIT <= r.y <= SCENE_LIMIT
    &&& 0 <= r.w <= SCENE_LIMIT
    &&& 0 <= r.h <= SCENE_LIMIT
}

/// The point `(px, py)` lies inside `r`.
pub open spec fn rect_contains(r: Rect, px: int, py: int) -> bool {
    &&& r.x <= px < r.x + r.w
    &&& r.y <= py < r.y + r.h
}

/// `r` covers no point.
pub open spec fn rect_is_empty(r: Rect) -> bool {
    r.w <= 0 || r.h <= 0
}

/// `a` and `b` share no point.
pub open spec fn rects_disjoint(a: Rect, b: Rect) -> bool {
    forall|px: int, py: int| !(rect_contains(a, px, py) && rect_contains(b, px, py))
}

/// The normalized intersection of `a` and `b`: its origin is the upper of the
/// two origins, and its extents shrink to zero when the rectangles share no
/// point.
pub open spec fn spec_intersect(a: Rect, b: Rect) -> Rect {
    let lo_x = if a.x >= b.x { a.x } else { b.x };
    let lo_y = if a.y >= b.y { a.y } else { b.y };
    let a_x1 = a.x + a.w;
    let b_x1 = b.x + b.w;
    let hi_x = if a_x1 <= b_x1 { a_x1 } else { b_x1 };
    let a_y1 = a.y + a.h;
    let b_y1 = b.y + b.h;
    let hi_y = if a_y1 <= b_y1 { a_y1 } else { b_y1 };
    Rect {
        x: lo_x,
        y: lo_y,
        w: if hi_x >= lo_x { (hi_x - lo_x) as i64 } else { 0 },
        h: if hi_y >= lo_y { (hi_y - lo_y) as i64 } else { 0 },
    }
}

/// `r` shifted by `(dx, dy)`.
pub open spec fn spec_translate(r: Rect, dx: i64, dy: i64) -> Rect {
    Rect { x: (r.x + dx) as i64, y: (r.y + dy) as i64, w: r.w, h: r.h }
}

/// The intersection contains exactly the points both rectangles contain, is
/// well formed, and is empty exactly when the rectangles are disjoint.
pub proof fn lemma_intersect(a: Rect, b: Rect)
    requires
        rect_wf(a),
        rect_wf(b),
    ensures
        rect_wf(spec_intersect(a, b)),
        forall|px: int, py: int|
            rect_contains(spec_intersect(a, b), px, py) <==> (rect_contains(a, px, py)
                && rect_contains(b, px, py)),
        rect_is_empty(spec_intersect(a, b)) <==> rects_disjoint(a, b),
{
    let r = spec_intersect(a, b);
    assert forall|px: int, py: int|
        rect_contains(r, px, py) <==> (rect_contains(a, px, py) && rect_contains(
            b,
            px,
            py,
        )) by {};
    if !rect_is_empty(r) {
        assert(rect_contains(r, r.x as int, r.y as int));
        assert(!rects_disjoint(a, b));
    }
}

/// A translated scene rectangle stays well formed when the offset is within
/// the scene bound.
pub proof fn lemma_translate_wf(r: Rect, dx: i64, dy: i64)
    requires
        rect_in_scene(r),
        -SCENE_LIMIT <= dx <= SCENE_LIMIT,
        -SCENE_LIMIT <= dy <= SCENE_LIMIT,
    ensures
        rect_wf(spec_translate(r, dx, dy)),
        forall|px: int, py: int|
            rect_contains(spec_translate(r, dx, dy), px, py) <==> rect_contains(
                r,
                px - dx,
                py - dy,
            ),
{
}

/// Computes [`spec_intersect`].
pub fn intersect(a: &Rect, b: &Rect) -> (r: Rect)
    requires
        rect_wf(*a),
        rect_wf(*b),
    ensures
        r == spec_intersect(*a, *b),
        rect_wf(r),
{
    proof {
        lemma_intersect(*a, *b);
    }
    let lo_x = if a.x >= b.x { a.x } else { b.x };
    let lo_y = if a.y >= b.y { a.y } else { b.y };
    let a_x1 = a.x + a.w;
    let b_x1 = b.x + b.w;
    let hi_x = if a_x1 <= b_x1 { a_x1 } else { b_x1 };
    let a_y1 = a.y + a.h;
    let b_y1 = b.y + b.h;
    let hi_y = if a_y1 <= b_y1 { a_y1 } else { b_y1 };
    Rect {
        x: lo_x,
        y: lo_y,
        w: if hi_x >= lo_x { hi_x - lo_x } else { 0 },
        h: if hi_y >= lo_y { hi_y - lo_y } else { 0 },
    }
}

/// Reports whether `r` covers no point.
pub fn is_empty(r: &Rect) -> (e: bool)
    ensures
        e == rect_is_empty(*r),
{
    r.w <= 0 || r.h <= 0
}

} // verus!
