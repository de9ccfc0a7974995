//! The simulation core, run once per tick: the integrator advances the
//! body by `velocity * dt`, then the wall reflector checks each axis
//! independently against the viewport walls, flips the velocity component
//! on contact and clamps the position onto the wall.
//!
//! Both axes are decided from the position the integrator produced, before
//! any clamp is applied, and the two wall checks of one axis run in
//! sequence: when both walls of an axis are in contact at once (the body as
//! wide as the viewport, or wider) the velocity component is flipped twice
//! — a net no-op — and the high-wall clamp, running last, wins. Contact is
//! detected only after integration; a fast enough body can tunnel past a
//! wall within one tick without triggering a reflection.

use vstd::prelude::*;

use crate::geom::{
    body_wf, half_toward_zero, in_coord_range, lemma_half_toward_zero_bounds, viewport_wf,
    BodyView, MovingBody, Vec2, Vec2View, Viewport, ViewportView, COORD_LIMIT,
};

verus! {

/// The integrator's result: position advanced by `velocity * dt`, velocity
/// and size unchanged.
pub open spec fn advanced(b: BodyView, dt: int) -> BodyView {
    BodyView {
        position: Vec2View {
            x: b.position.x + b.velocity.x * dt,
            y: b.position.y + b.velocity.y * dt,
        },
        velocity: b.velocity,
        size: b.size,
    }
}

/// One axis of the wall reflector, for a body centered at `p` with extent
/// `s` and velocity component `v` in a viewport of dimension `w`: returns
/// the corrected `(position, velocity)` pair.
///
/// `lo` is contact with the low wall (left or bottom), `hi` with the high
/// wall; both are decided from the incoming `p`. Each contact flips the
/// velocity component, so simultaneous contact flips it back, and the high
/// clamp overwrites the low clamp because it runs second.
pub open spec fn reflect_axis(p: int, v: int, s: int, w: int) -> (int, int) {
    let lo = 2 * p + w - s <= 0;
    let hi = 2 * p + w + s >= 2 * w;
    let np = if hi {
        half_toward_zero(w - s)
    } else if lo {
        half_toward_zero(s - w)
    } else {
        p
    };
    let nv = if lo != hi {
        -v
    } else {
        v
    };
    (np, nv)
}

/// The wall reflector's result: [`reflect_axis`] applied to each axis
/// independently, size unchanged.
pub open spec fn reflected(b: BodyView, vp: ViewportView) -> BodyView {
    let rx = reflect_axis(b.position.x, b.velocity.x, b.size.x, vp.width);
    let ry = reflect_axis(b.position.y, b.velocity.y, b.size.y, vp.height);
    BodyView {
        position: Vec2View { x: rx.0, y: ry.0 },
        velocity: Vec2View { x: rx.1, y: ry.1 },
        size: b.size,
    }
}

/// One whole tick: integrate, then reflect.
pub open spec fn stepped(b: BodyView, vp: ViewportView, dt: int) -> BodyView {
    reflected(advanced(b, dt), vp)
}

/// Exact halving toward zero on machine integers.
fn half_toward_zero_i64(n: i64) -> (r: i64)
    requires
        -2 * COORD_LIMIT <= n <= 2 * COORD_LIMIT,
    ensures
        r as int == half_toward_zero(n as int),
        -COORD_LIMIT <= r as int <= COORD_LIMIT,
{
    proof {
        lemma_half_toward_zero_bounds(n as int);
    }
    if n >= 0 {
        n / 2
    } else {
        -(-n / 2)
    }
}

/// The integrator. Advances the body's position by `velocity * dt` and
/// leaves velocity and size untouched; it is linear in `dt`, so two
/// successive calls cover the same ground as one call with the summed
/// elapsed time. `dt` counts time units since the previous tick; a
/// negative `dt` is not expected from a monotonic clock and simply runs
/// the motion backwards.
pub fn advance(body: &MovingBody, dt: i64) -> (r: MovingBody)
    requires
        body_wf(body@),
        in_coord_range(advanced(body@, dt as int).position),
    ensures
        r@ == advanced(body@, dt as int),
        body_wf(r@),
{
    let x = body.position.x + body.velocity.x * dt;
    let y = body.position.y + body.velocity.y * dt;
    MovingBody {
        position: Vec2 { x, y },
        velocity: body.velocity,
        size: body.size,
    }
}

/// The wall reflector. Checks both axes of the body's bounding box against
/// the viewport walls, decides every contact from the incoming position,
/// then flips the touched velocity components and clamps the position onto
/// the touched wall (the box edge lands on the wall exactly when the gap
/// `viewport dimension - size` is even, and half a unit inside it when the
/// gap is odd).
pub fn reflect(body: &MovingBody, viewport: &Viewport) -> (r: MovingBody)
    requires
        body_wf(body@),
        viewport_wf(viewport@),
    ensures
        r@ == reflected(body@, viewport@),
        body_wf(r@),
{
    let w = viewport.width;
    let h = viewport.height;
    let sx = body.size.x;
    let sy = body.size.y;
    let mut px = body.position.x;
    let mut py = body.position.y;
    let mut vx = body.velocity.x;
    let mut vy = body.velocity.y;

    let left_contact = 2 * px + w - sx <= 0;
    let right_contact = 2 * px + w + sx >= 2 * w;
    let bottom_contact = 2 * py + h - sy <= 0;
    let top_contact = 2 * py + h + sy >= 2 * h;

    if left_contact {
        vx = -vx;
        px = half_toward_zero_i64(sx - w);
    }
    if right_contact {
        vx = -vx;
        px = half_toward_zero_i64(w - sx);
    }
    if bottom_contact {
        vy = -vy;
        py = half_toward_zero_i64(sy - h);
    }
    if top_contact {
        vy = -vy;
        py = half_toward_zero_i64(h - sy);
    }

    MovingBody {
        position: Vec2 { x: px, y: py },
        velocity: Vec2 { x: vx, y: vy },
        size: body.size,
    }
}

/// One whole simulation tick: the integrator, then the wall reflector.
pub fn step(body: &MovingBody, viewport: &Viewport, dt: i64) -> (r: MovingBody)
    requires
        body_wf(body@),
        viewport_wf(viewport@),
        in_coord_range(advanced(body@, dt as int).position),
    ensures
        r@ == stepped(body@, viewport@, dt as int),
        body_wf(r@),
{
    let moved = advance(body, dt);
    reflect(&moved, viewport)
}

/// Builds the starting state: the body sits at the origin — the center of
/// the viewport-centered coordinate system — with the given extents and
/// velocity. The host derives the velocity vector from its configured
/// speed and starting angle (`speed * (cos angle, sin angle)`, scaled to
/// the integer unit) before calling in.
pub fn init(viewport: &Viewport, size: Vec2, velocity: Vec2) -> (r: MovingBody)
    requires
        viewport_wf(viewport@),
        0 <= size@.x,
        0 <= size@.y,
        in_coord_range(size@),
        in_coord_range(velocity@),
    ensures
        r@.position.x == 0,
        r@.position.y == 0,
        r@.velocity == velocity@,
        r@.size == size@,
        body_wf(r@),
{
    MovingBody { position: Vec2 { x: 0, y: 0 }, velocity, size }
}

} // verus!
