use dvd_bounce::geom::{MovingBody, Vec2, Viewport};
use dvd_bounce::sim::{advance, init, reflect, step};

fn body(px: i64, py: i64, vx: i64, vy: i64, sx: i64, sy: i64) -> MovingBody {
    MovingBody {
        position: Vec2 { x: px, y: py },
        velocity: Vec2 { x: vx, y: vy },
        size: Vec2 { x: sx, y: sy },
    }
}

fn vp720() -> Viewport {
    Viewport { width: 720, height: 480 }
}

/// Doubled distance of the left bounding-box edge from the left wall.
fn left_edge2(b: &MovingBody, vp: &Viewport) -> i64 {
    2 * b.position.x + vp.width - b.size.x
}

/// Doubled distance of the right bounding-box edge from the left wall.
fn right_edge2(b: &MovingBody, vp: &Viewport) -> i64 {
    2 * b.position.x + vp.width + b.size.x
}

fn bottom_edge2(b: &MovingBody, vp: &Viewport) -> i64 {
    2 * b.position.y + vp.height - b.size.y
}

fn top_edge2(b: &MovingBody, vp: &Viewport) -> i64 {
    2 * b.position.y + vp.height + b.size.y
}

fn assert_contained(b: &MovingBody, vp: &Viewport) {
    assert!(left_edge2(b, vp) >= 0);
    assert!(right_edge2(b, vp) <= 2 * vp.width);
    assert!(bottom_edge2(b, vp) >= 0);
    assert!(top_edge2(b, vp) <= 2 * vp.height);
}

#[test]
fn init_centers_body() {
    let b = init(&vp720(), Vec2 { x: 100, y: 50 }, Vec2 { x: 70, y: 70 });
    assert_eq!(b.position, Vec2 { x: 0, y: 0 });
    assert_eq!(b.velocity, Vec2 { x: 70, y: 70 });
    assert_eq!(b.size, Vec2 { x: 100, y: 50 });
}

#[test]
fn advance_moves_linearly() {
    let b = body(3, 4, 10, -2, 100, 50);
    let moved = advance(&b, 5);
    assert_eq!(moved.position, Vec2 { x: 53, y: -6 });
    assert_eq!(moved.velocity, b.velocity);
    assert_eq!(moved.size, b.size);
}

#[test]
fn advance_twice_matches_single_advance() {
    let b = body(-7, 11, 13, -4, 20, 20);
    let split = advance(&advance(&b, 7), 9);
    let whole = advance(&b, 16);
    assert_eq!(split, whole);
}

#[test]
fn advance_zero_dt_is_identity() {
    let b = body(5, -9, 42, 17, 8, 8);
    assert_eq!(advance(&b, 0), b);
}

#[test]
fn advance_negative_dt_reverses_motion() {
    // Not expected from a monotonic clock; documented as running backwards.
    let b = body(10, 20, 3, -5, 6, 6);
    assert_eq!(advance(&b, -2).position, Vec2 { x: 4, y: 30 });
}

#[test]
fn reflect_interior_is_identity() {
    let b = body(0, 0, 100, 100, 100, 50);
    assert_eq!(reflect(&b, &vp720()), b);
}

#[test]
fn reflect_left_wall_flips_and_clamps() {
    // Left edge sits 5 units beyond the wall: 2*(-315) + 720 - 100 == -10.
    let b = body(-315, 0, 37, 5, 100, 50);
    assert_eq!(left_edge2(&b, &vp720()), -10);
    let r = reflect(&b, &vp720());
    assert_eq!(r.velocity, Vec2 { x: -37, y: 5 });
    assert_eq!(r.position, Vec2 { x: -310, y: 0 });
    assert_eq!(left_edge2(&r, &vp720()), 0);
}

#[test]
fn reflect_right_wall_flips_and_clamps() {
    let b = body(320, 0, 80, 0, 100, 50);
    let r = reflect(&b, &vp720());
    assert_eq!(r.velocity, Vec2 { x: -80, y: 0 });
    assert_eq!(r.position.x, 310);
    assert_eq!(right_edge2(&r, &vp720()), 2 * vp720().width);
}

#[test]
fn reflect_bottom_wall_flips_and_clamps() {
    let b = body(0, -220, 4, -9, 100, 50);
    let r = reflect(&b, &vp720());
    assert_eq!(r.velocity, Vec2 { x: 4, y: 9 });
    assert_eq!(r.position.y, -215);
    assert_eq!(bottom_edge2(&r, &vp720()), 0);
}

#[test]
fn reflect_top_wall_flips_and_clamps() {
    let b = body(0, 230, 4, 9, 100, 50);
    let r = reflect(&b, &vp720());
    assert_eq!(r.velocity, Vec2 { x: 4, y: -9 });
    assert_eq!(r.position.y, 215);
    assert_eq!(top_edge2(&r, &vp720()), 2 * vp720().height);
}

#[test]
fn corner_contact_flips_both_axes() {
    let b = body(350, 250, 9, 7, 100, 50);
    let r = reflect(&b, &vp720());
    assert_eq!(r.velocity, Vec2 { x: -9, y: -7 });
    assert_eq!(r.position, Vec2 { x: 310, y: 215 });
}

#[test]
fn step_scenario_interior_then_right_wall() {
    // Viewport 720x480, body 100x50 at the center, velocity (100, 100).
    let vp = vp720();
    let b = init(&vp, Vec2 { x: 100, y: 50 }, Vec2 { x: 100, y: 100 });

    // One unit of time: position (100, 100), well inside, nothing reflected.
    let t1 = step(&b, &vp, 1);
    assert_eq!(t1.position, Vec2 { x: 100, y: 100 });
    assert_eq!(t1.velocity, Vec2 { x: 100, y: 100 });
    assert_eq!(reflect(&t1, &vp), t1);

    // Three more units: the integrator alone would reach (400, 400), past
    // the right wall's limit (720 - 100) / 2 == 310, so the horizontal
    // velocity flips and the position clamps to exactly 310. The top wall
    // (limit (480 - 50) / 2 == 215) is hit in the same tick.
    let t2 = step(&t1, &vp, 3);
    assert_eq!(t2.position.x, 310);
    assert_eq!(t2.velocity.x, -100);
    assert_eq!(t2.position.y, 215);
    assert_eq!(t2.velocity.y, -100);
}

#[test]
fn step_keeps_body_contained() {
    let vp = vp720();
    let mut b = init(&vp, Vec2 { x: 100, y: 50 }, Vec2 { x: 173, y: -89 });
    for _ in 0..500 {
        b = step(&b, &vp, 1);
        assert_contained(&b, &vp);
    }
}

#[test]
fn speed_is_preserved_across_reflections() {
    let vp = vp720();
    let mut b = init(&vp, Vec2 { x: 100, y: 50 }, Vec2 { x: 173, y: -89 });
    let speed2 = b.velocity.x * b.velocity.x + b.velocity.y * b.velocity.y;
    let mut bounced: u32 = 0;
    for _ in 0..500 {
        let next = step(&b, &vp, 1);
        if next.velocity != b.velocity {
            bounced += 1;
        }
        b = next;
        assert_eq!(b.velocity.x * b.velocity.x + b.velocity.y * b.velocity.y, speed2);
    }
    assert!(bounced > 0);
}

#[test]
fn body_as_large_as_viewport_touches_both_walls() {
    // Both walls of each axis are in contact at once: each velocity
    // component is flipped twice (a net no-op) and the high-wall clamp,
    // running last, leaves the body centered.
    let vp = Viewport { width: 100, height: 100 };
    let b = body(0, 0, 5, -5, 100, 100);
    assert_eq!(reflect(&b, &vp), b);
}

#[test]
fn body_larger_than_viewport_keeps_velocity() {
    // Documented boundary behavior for an oversized body: both branches of
    // the axis fire, the velocity is unchanged and the last clamp wins.
    let vp = Viewport { width: 100, height: 100 };
    let b = body(0, 0, 5, 0, 300, 100);
    let r = reflect(&b, &vp);
    assert_eq!(r.velocity, Vec2 { x: 5, y: 0 });
    assert_eq!(r.position.x, -100);
}

#[test]
fn odd_gap_clamps_half_unit_inside() {
    // Gap width - size == 5 is odd: the exact wall seat would be the
    // half-integer 2.5, so the clamp lands half a unit inside, at 2.
    let vp = Viewport { width: 7, height: 7 };
    let b = body(10, 0, 1, 0, 2, 2);
    let r = reflect(&b, &vp);
    assert_eq!(r.position.x, 2);
    assert_eq!(r.velocity.x, -1);
}

#[test]
fn zero_size_body_bounces_on_the_wall_itself() {
    let vp = Viewport { width: 10, height: 10 };
    let b = body(-5, 0, -2, 0, 0, 0);
    let r = reflect(&b, &vp);
    assert_eq!(r.position.x, -5);
    assert_eq!(r.velocity.x, 2);
    assert_eq!(left_edge2(&r, &vp), 0);
}
