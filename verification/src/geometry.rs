//! Axis-aligned rectangles on the pixel grid, and the two rectangle queries
//! that the drawing code takes from `embedded-graphics-core`.
use vstd::prelude::*;

use embedded_graphics_core::geometry::{Point as GfxPoint, Size};
use embedded_graphics_core::primitives::Rectangle;

verus! {

/// A position on the pixel grid.
#[derive(Debug, Clone, Copy, PartialEq, Eq, Structural)]
pub struct Point {
    pub x: i32,
    pub y: i32,
}

/// Division of integers rounding toward zero, as integer division does in Rust.
pub open spec fn trunc_div(a: int, b: int) -> int {
    if a == 0 {
        0
    } else if a > 0 && b > 0 {
        a / b
    } else if a < 0 && b < 0 {
        (-a) / (-b)
    } else if a < 0 {
        -((-a) / b)
    } else {
        -(a / (-b))
    }
}

/// A quotient rounded toward zero is no larger in magnitude than the dividend.
pub proof fn lemma_trunc_div_bounded(a: int, b: int)
    requires
        b != 0,
    ensures
        -(if a < 0 { -a } else { a }) <= trunc_div(a, b) <= (if a < 0 { -a } else { a }),
{
    let m = if a < 0 { -a } else { a };
    let n = if b < 0 { -b } else { b };
    assert(0 <= m / n <= m) by (nonlinear_arith)
        requires
            m >= 0,
            n > 0,
    ;
}

/// Division of `i32` values rounding toward zero stays in `i32`, except for
/// the minimum divided by -1.
pub proof fn lemma_trunc_div_fits(a: i32, b: i32)
    requires
        b != 0,
        !(a == i32::MIN && b == -1),
    ensures
        i32::MIN <= trunc_div(a as int, b as int) <= i32::MAX,
{
    lemma_trunc_div_bounded(a as int, b as int);
    if a == i32::MIN && b < -1 {
        let m = -(a as int);
        let n = -(b as int);
        assert(m / n <= m / 2) by (nonlinear_arith)
            requires
                m >= 0,
                n >= 2,
        ;
    }
}

/// A rectangle given by its top-left corner and its size in pixels.
#[derive(Debug, Clone, Copy, PartialEq, Eq, Structural)]
pub struct Rect {
    pub x: i32,
    pub y: i32,
    pub width: u32,
    pub height: u32,
}

/// The rectangle's far edges can be computed in `i32` without overflow.
pub open spec fn rect_fits(r: Rect) -> bool {
    &&& r.width <= i32::MAX
    &&& r.height <= i32::MAX
    &&& r.x + r.width <= i32::MAX
    &&& r.y + r.height <= i32::MAX
}

/// The rectangle covers no pixel.
pub open spec fn rect_is_empty(r: Rect) -> bool {
    r.width == 0 || r.height == 0
}

/// The pixel `(px, py)` lies in the rectangle.
pub open spec fn rect_has_point(r: Rect, px: int, py: int) -> bool {
    &&& !rect_is_empty(r)
    &&& r.x <= px < r.x + r.width
    &&& r.y <= py < r.y + r.height
}

/// The half-open spans `[a, a + alen)` and `[b, b + blen)` share a pixel.
pub open spec fn spans_overlap(a: int, alen: int, b: int, blen: int) -> bool {
    a < b + blen && b < a + alen
}

/// Two non-empty rectangles share at least one pixel.
pub open spec fn rects_overlap(a: Rect, b: Rect) -> bool {
    &&& !rect_is_empty(a)
    &&& !rect_is_empty(b)
    &&& spans_overlap(a.x as int, a.width as int, b.x as int, b.width as int)
    &&& spans_overlap(a.y as int, a.height as int, b.y as int, b.height as int)
}

pub open spec fn max_int(a: int, b: int) -> int {
    if a >= b { a } else { b }
}

pub open spec fn min_int(a: int, b: int) -> int {
    if a <= b { a } else { b }
}

/// The pixels two overlapping rectangles have in common.
pub open spec fn rect_overlap(a: Rect, b: Rect) -> Rect {
    let left = max_int(a.x as int, b.x as int);
    let top = max_int(a.y as int, b.y as int);
    let right = min_int(a.x + a.width, b.x + b.width);
    let bottom = min_int(a.y + a.height, b.y + b.height);
    Rect { x: left as i32, y: top as i32, width: (right - left) as u32, height: (bottom - top) as u32 }
}

/// `Rectangle::contains` of `embedded-graphics-core`.
///
/// Claimed of the outside code: a point lies in a rectangle exactly when the
/// rectangle is non-empty and the point is between its top-left corner and its
/// bottom-right corner, both included. The bottom-right corner is computed in
/// `i32`, hence the requirement that it fits.
#[verifier::external_body]
pub(crate) fn rect_contains(r: Rect, px: i32, py: i32) -> (inside: bool)
    requires
        rect_fits(r),
    ensures
        inside == rect_has_point(r, px as int, py as int),
{
    Rectangle::new(GfxPoint::new(r.x, r.y), Size::new(r.width, r.height)).contains(GfxPoint::new(px, py))
}

/// `Rectangle::intersection` of `embedded-graphics-core`.
///
/// Claimed of the outside code: when both rectangles are non-empty and share a
/// pixel, the result is exactly the rectangle of the shared pixels; otherwise the
/// result is empty (zero width or zero height). Both rectangles' corners are
/// computed in `i32`, hence the requirements.
#[verifier::external_body]
pub(crate) fn rect_intersection(a: Rect, b: Rect) -> (r: Rect)
    requires
        rect_fits(a),
        rect_fits(b),
    ensures
        rects_overlap(a, b) ==> r == rect_overlap(a, b),
        !rects_overlap(a, b) ==> rect_is_empty(r),
{
    let first = Rectangle::new(GfxPoint::new(a.x, a.y), Size::new(a.width, a.height));
    let second = Rectangle::new(GfxPoint::new(b.x, b.y), Size::new(b.width, b.height));
    let common = first.intersection(&second);
    Rect {
        x: common.top_left.x,
        y: common.top_left.y,
        width: common.size.width,
        height: common.size.height,
    }
}

} // verus!
