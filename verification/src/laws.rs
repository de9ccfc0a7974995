//! The guarantees the simulation gives, stated over the mathematical model
//! and proved once and for all: linearity of the integrator, containment
//! after a tick, exactness of a wall reflection, idempotence away from the
//! walls, and preservation of the body's speed across any run of ticks.

use vstd::prelude::*;

use crate::geom::{
    bottom_edge2, left_edge2, lemma_half_toward_zero_bounds, right_edge2, strictly_interior,
    top_edge2, BodyView, Vec2View, ViewportView,
};
use crate::sim::{advanced, reflected, stepped};

verus! {

/// The squared magnitude of a vector: compared before and after
/// reflections, which may only flip the signs of the components.
pub open spec fn speed2(v: Vec2View) -> int {
    v.x * v.x + v.y * v.y
}

/// The body after `dts` successive ticks, one tick per elapsed time in the
/// sequence.
pub open spec fn stepped_all(b: BodyView, vp: ViewportView, dts: Seq<int>) -> BodyView
    decreases dts.len(),
{
    if dts.len() == 0 {
        b
    } else {
        stepped_all(stepped(b, vp, dts[0]), vp, dts.subrange(1, dts.len() as int))
    }
}

/// The integrator is linear in elapsed time: advancing by `dt1` and then
/// by `dt2` lands exactly where advancing once by `dt1 + dt2` lands, with
/// the same velocity and size. (No wall is involved: this speaks of the
/// integrator alone.)
pub proof fn lemma_advance_additive(b: BodyView, dt1: int, dt2: int)
    requires
        0 <= dt1,
        0 <= dt2,
    ensures
        advanced(advanced(b, dt1), dt2) == advanced(b, dt1 + dt2),
{
    assert(b.velocity.x * dt1 + b.velocity.x * dt2 == b.velocity.x * (dt1 + dt2))
        by (nonlinear_arith);
    assert(b.velocity.y * dt1 + b.velocity.y * dt2 == b.velocity.y * (dt1 + dt2))
        by (nonlinear_arith);
}

/// Containment: as long as the body fits in the viewport on each axis,
/// the reflector leaves every bounding-box edge on or inside the walls —
/// whatever position the integrator produced.
pub proof fn lemma_reflect_contains(b: BodyView, vp: ViewportView)
    requires
        0 <= b.size.x <= vp.width,
        0 <= b.size.y <= vp.height,
    ensures
        0 <= left_edge2(reflected(b, vp), vp),
        right_edge2(reflected(b, vp), vp) <= 2 * vp.width,
        0 <= bottom_edge2(reflected(b, vp), vp),
        top_edge2(reflected(b, vp), vp) <= 2 * vp.height,
{
    lemma_half_toward_zero_bounds(vp.width - b.size.x);
    lemma_half_toward_zero_bounds(b.size.x - vp.width);
    lemma_half_toward_zero_bounds(vp.height - b.size.y);
    lemma_half_toward_zero_bounds(b.size.y - vp.height);
}

/// Containment for a whole tick: after `step`, with a body that fits the
/// viewport, every bounding-box edge is on or inside the walls.
pub proof fn lemma_step_contains(b: BodyView, vp: ViewportView, dt: int)
    requires
        0 <= b.size.x <= vp.width,
        0 <= b.size.y <= vp.height,
    ensures
        0 <= left_edge2(stepped(b, vp, dt), vp),
        right_edge2(stepped(b, vp, dt), vp) <= 2 * vp.width,
        0 <= bottom_edge2(stepped(b, vp, dt), vp),
        top_edge2(stepped(b, vp, dt), vp) <= 2 * vp.height,
{
    lemma_reflect_contains(advanced(b, dt), vp);
}

/// A left-wall reflection is exact: on left contact without simultaneous
/// right contact, the horizontal velocity is negated and the clamp seats
/// the left edge on the wall — exactly on it when the gap
/// `viewport.width - size.x` is even (the seat is a whole coordinate),
/// and half a unit inside it when the gap is odd.
pub proof fn lemma_reflect_left_wall(b: BodyView, vp: ViewportView)
    requires
        left_edge2(b, vp) <= 0,
        right_edge2(b, vp) < 2 * vp.width,
        b.size.x <= vp.width,
    ensures
        reflected(b, vp).velocity.x == -b.velocity.x,
        0 <= left_edge2(reflected(b, vp), vp) <= 1,
        (vp.width - b.size.x) % 2 == 0 ==> left_edge2(reflected(b, vp), vp) == 0,
{
    lemma_half_toward_zero_bounds(b.size.x - vp.width);
}

/// Away from the walls the reflector does nothing: a body whose bounding
/// box is strictly interior to the viewport passes through unchanged.
pub proof fn lemma_reflect_interior_identity(b: BodyView, vp: ViewportView)
    requires
        strictly_interior(b, vp),
    ensures
        reflected(b, vp) == b,
{
}

/// One reflection preserves speed: wall contact only flips the sign of a
/// velocity component, never its magnitude.
pub proof fn lemma_reflect_preserves_speed(b: BodyView, vp: ViewportView)
    ensures
        speed2(reflected(b, vp).velocity) == speed2(b.velocity),
{
    assert((-b.velocity.x) * (-b.velocity.x) == b.velocity.x * b.velocity.x)
        by (nonlinear_arith);
    assert((-b.velocity.y) * (-b.velocity.y) == b.velocity.y * b.velocity.y)
        by (nonlinear_arith);
}

/// Speed is preserved across any number of ticks, and so across any number
/// of wall reflections: the integrator never touches the velocity and each
/// reflection keeps its magnitude.
pub proof fn lemma_steps_preserve_speed(b: BodyView, vp: ViewportView, dts: Seq<int>)
    ensures
        speed2(stepped_all(b, vp, dts).velocity) == speed2(b.velocity),
    decreases dts.len(),
{
    if dts.len() > 0 {
        lemma_reflect_preserves_speed(advanced(b, dts[0]), vp);
        lemma_steps_preserve_speed(stepped(b, vp, dts[0]), vp, dts.subrange(1, dts.len() as int));
    }
}

} // verus!
