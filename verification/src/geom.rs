//! The data model: 2-D vectors, the moving body, the viewport, and the
//! bounding-box edge geometry that the wall reflector decides on.
//!
//! The coordinate system is viewport-centered: the origin is the middle of
//! the screen, `position` is the center of the sprite's bounding box, and
//! the box extends `size / 2` to each side. Edge positions are therefore
//! half-integers; to keep everything exact, the edge spec functions return
//! *doubled* edge coordinates (`left_edge2` is twice the left edge measured
//! from the viewport's left wall).

use vstd::arithmetic::div_mod::{lemma_fundamental_div_mod, lemma_mod_division_less_than_divisor};
use vstd::prelude::*;

verus! {

/// Bound on every coordinate, velocity component, size component and
/// viewport dimension the library accepts (2^60). It leaves room for the
/// doubled-edge arithmetic below to stay inside `i64` while being far
/// larger than any realistic screen coordinate.
pub const COORD_LIMIT: i64 = 0x1000_0000_0000_0000;

/// A 2-D vector of integer coordinates, used for positions, velocities and
/// extents alike.
#[derive(Clone, Copy, Debug, PartialEq, Eq, Structural)]
pub struct Vec2 {
    pub x: i64,
    pub y: i64,
}

/// Mathematical model of a [`Vec2`]: the same two components as unbounded
/// integers.
pub struct Vec2View {
    pub x: int,
    pub y: int,
}

impl View for Vec2 {
    type V = Vec2View;

    open spec fn view(&self) -> Vec2View {
        Vec2View { x: self.x as int, y: self.y as int }
    }
}

/// The one simulated entity: a sprite-sized axis-aligned box, centered at
/// `position`, moving at `velocity` (units per time unit).
#[derive(Clone, Copy, Debug, PartialEq, Eq, Structural)]
pub struct MovingBody {
    pub position: Vec2,
    pub velocity: Vec2,
    pub size: Vec2,
}

/// Mathematical model of a [`MovingBody`].
pub struct BodyView {
    pub position: Vec2View,
    pub velocity: Vec2View,
    pub size: Vec2View,
}

impl View for MovingBody {
    type V = BodyView;

    open spec fn view(&self) -> BodyView {
        BodyView { position: self.position@, velocity: self.velocity@, size: self.size@ }
    }
}

/// The fixed rectangular space the body must stay inside.
#[derive(Clone, Copy, Debug, PartialEq, Eq, Structural)]
pub struct Viewport {
    pub width: i64,
    pub height: i64,
}

/// Mathematical model of a [`Viewport`].
pub struct ViewportView {
    pub width: int,
    pub height: int,
}

impl View for Viewport {
    type V = ViewportView;

    open spec fn view(&self) -> ViewportView {
        ViewportView { width: self.width as int, height: self.height as int }
    }
}

/// Both components lie within the machine bound the library works under.
pub open spec fn in_coord_range(v: Vec2View) -> bool {
    &&& -COORD_LIMIT <= v.x <= COORD_LIMIT
    &&& -COORD_LIMIT <= v.y <= COORD_LIMIT
}

/// Well-formed body: non-negative extents, and every component bounded so
/// the edge arithmetic cannot overflow.
pub open spec fn body_wf(b: BodyView) -> bool {
    &&& 0 <= b.size.x
    &&& 0 <= b.size.y
    &&& in_coord_range(b.position)
    &&& in_coord_range(b.velocity)
    &&& in_coord_range(b.size)
}

/// Well-formed viewport: non-negative, bounded dimensions.
pub open spec fn viewport_wf(vp: ViewportView) -> bool {
    &&& 0 <= vp.width <= COORD_LIMIT
    &&& 0 <= vp.height <= COORD_LIMIT
}

/// Twice the left edge of the body's bounding box, measured from the left
/// wall: the box touches or penetrates the left wall exactly when this is
/// `<= 0`.
pub open spec fn left_edge2(b: BodyView, vp: ViewportView) -> int {
    2 * b.position.x + vp.width - b.size.x
}

/// Twice the right edge, measured from the left wall: the box touches or
/// penetrates the right wall exactly when this is `>= 2 * vp.width`.
pub open spec fn right_edge2(b: BodyView, vp: ViewportView) -> int {
    2 * b.position.x + vp.width + b.size.x
}

/// Twice the bottom edge, measured from the bottom wall: bottom contact is
/// `<= 0`.
pub open spec fn bottom_edge2(b: BodyView, vp: ViewportView) -> int {
    2 * b.position.y + vp.height - b.size.y
}

/// Twice the top edge, measured from the bottom wall: top contact is
/// `>= 2 * vp.height`.
pub open spec fn top_edge2(b: BodyView, vp: ViewportView) -> int {
    2 * b.position.y + vp.height + b.size.y
}

/// The body's bounding box lies strictly inside the viewport on both axes.
pub open spec fn strictly_interior(b: BodyView, vp: ViewportView) -> bool {
    &&& 0 < left_edge2(b, vp)
    &&& right_edge2(b, vp) < 2 * vp.width
    &&& 0 < bottom_edge2(b, vp)
    &&& top_edge2(b, vp) < 2 * vp.height
}

/// Halving that rounds toward zero, the rounding the wall clamps use: a
/// clamp target that is not a whole coordinate moves to the nearest whole
/// coordinate on the interior side of the wall.
pub open spec fn half_toward_zero(n: int) -> int {
    if n >= 0 {
        n / 2
    } else {
        -((-n) / 2)
    }
}

/// `2 * half_toward_zero(n)` is `n` rounded toward zero by at most one,
/// and is `n` exactly when `n` is even.
pub proof fn lemma_half_toward_zero_bounds(n: int)
    ensures
        n >= 0 ==> n - 1 <= 2 * half_toward_zero(n) <= n,
        n < 0 ==> n <= 2 * half_toward_zero(n) <= n + 1,
        n % 2 == 0 ==> 2 * half_toward_zero(n) == n,
        (-n) % 2 == 0 ==> 2 * half_toward_zero(n) == n,
{
    lemma_fundamental_div_mod(n, 2);
    lemma_mod_division_less_than_divisor(n, 2);
    lemma_fundamental_div_mod(-n, 2);
    lemma_mod_division_less_than_divisor(-n, 2);
}

} // verus!
