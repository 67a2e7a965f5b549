//! End-to-end tests of the integrator on concrete fixed-point values
//! (thousandths of a unit: `1000` is one meter, one second, or one
//! mass unit).

use ballsim::body::Body;
use ballsim::config::Config;
use ballsim::step::{bounce_x, bounce_y, collide, integrate, scaled_position, step};
use ballsim::vec3::Vec3;

fn v(x: i64, y: i64) -> Vec3 {
    Vec3 { x, y, z: 0 }
}

fn still_body(position: Vec3, mass: i64, radius: i64) -> Body {
    Body::new(position, v(0, 0), v(0, 0), mass, radius)
}

/// A configuration with every force off and collisions on, for isolating
/// single passes.
fn forceless() -> Config {
    let mut cfg = Config::standard();
    cfg.gravity = 0;
    cfg.friction = 0;
    cfg
}

#[test]
fn elastic_exchange_of_equal_masses() {
    // Two unit-mass balls of radius 10, 15 units apart on the x axis,
    // closing at 1 unit/s each: one collision-pass evaluation reverses
    // both velocities and pushes them to exactly 20 units of separation.
    let a = Body::new(v(0, 0), v(1000, 0), v(0, 0), 1000, 10_000);
    let b = Body::new(v(15_000, 0), v(-1000, 0), v(0, 0), 1000, 10_000);
    let snap = vec![a, b];

    let a2 = collide(&a, &snap, 0);
    let b2 = collide(&b, &snap, 1);

    assert_eq!(a2.velocity, v(-1000, 0));
    assert_eq!(b2.velocity, v(1000, 0));
    assert_eq!(a2.position, v(-2500, 0));
    assert_eq!(b2.position, v(17_500, 0));
    assert_eq!(b2.position.x - a2.position.x, 20_000);
}

#[test]
fn lone_body_integrates_as_euler() {
    // One ball, mass 1, far from the floor: a 0.1 s tick under standard
    // gravity (-9.81) and friction adds -0.981 to the y velocity, and the
    // position then moves by the new velocity times dt.
    let a = still_body(v(0, 0), 1000, 10_000);
    let mut bodies = vec![a];
    let removed = step(&mut bodies, 100, &Config::standard());

    assert!(removed.is_empty());
    assert_eq!(bodies.len(), 1);
    assert_eq!(bodies[0].velocity, v(0, -981));
    assert_eq!(bodies[0].position, v(0, -98));
    assert!(!bodies[0].fixed);
}

#[test]
fn external_acceleration_feeds_integration() {
    // An external acceleration of 1 unit/s^2 along x shows up scaled by dt
    // in the velocity, before friction would have anything to drag.
    let a = Body::new(v(0, 0), v(0, 0), v(1000, 0), 1000, 10_000);
    let snap = vec![a];
    let mut cfg = forceless();
    cfg.collisions_enabled = false;

    let a2 = integrate(&a, &snap, 500, &cfg);
    assert_eq!(a2.velocity, v(500, 0));
    assert_eq!(a2.position, v(250, 0));
}

#[test]
fn friction_drags_against_velocity() {
    // Gravity off, friction 0.5: a = -0.5 * v, so one 0.1 s tick takes
    // 1 unit/s of x velocity down to 0.95.
    let a = Body::new(v(0, 0), v(1000, 0), v(0, 0), 1000, 10_000);
    let snap = vec![a];
    let mut cfg = Config::standard();
    cfg.gravity = 0;

    let a2 = integrate(&a, &snap, 100, &cfg);
    assert_eq!(a2.velocity, v(950, 0));
    assert_eq!(a2.position, v(95, 0));
}

#[test]
fn fixed_body_is_untouched() {
    // A fixed ball keeps position and velocity through a tick, whatever
    // they are, and survives it.
    let mut a = Body::new(v(5000, -7000), v(123_456, -654_321), v(0, 0), 1500, 20_000);
    a.fixed = true;
    let mut bodies = vec![a];
    let removed = step(&mut bodies, 100, &Config::standard());

    assert!(removed.is_empty());
    assert_eq!(bodies.len(), 1);
    assert_eq!(bodies[0], a);
}

#[test]
fn coincident_bodies_exert_nothing() {
    // Two balls at the same point: no attraction, no collision response,
    // and the arithmetic stays exact (no division by the zero normal).
    let a = still_body(v(0, 0), 1000, 10_000);
    let b = still_body(v(0, 0), 2000, 10_000);
    let mut bodies = vec![a, b];
    let removed = step(&mut bodies, 100, &forceless());

    assert!(removed.is_empty());
    assert_eq!(bodies.len(), 2);
    assert_eq!(bodies[0].position, v(0, 0));
    assert_eq!(bodies[1].position, v(0, 0));
    assert_eq!(bodies[0].velocity, v(0, 0));
    assert_eq!(bodies[1].velocity, v(0, 0));
}

#[test]
fn body_outside_universe_despawns() {
    // At x = 210 with scale 2, the scaled position 420 is far past the
    // 200-wide universe box: the ball is dropped and its index reported.
    let far = still_body(v(210_000, 0), 1000, 10_000);
    let near = still_body(v(0, 0), 1000, 10_000);
    let mut bodies = vec![far, near];
    let removed = step(&mut bodies, 100, &forceless());

    assert_eq!(removed, vec![0]);
    assert_eq!(bodies.len(), 1);
    assert_eq!(bodies[0].position.x, 0);
}

#[test]
fn left_edge_bounce_flips_and_clamps() {
    // Moving left across the left window edge: the x velocity flips sign
    // and the x position clamps to the edge plus half the radius.
    let a = Body::new(v(-210_000, 0), v(-1000, 0), v(0, 0), 1000, 10_000);
    let cfg = Config::standard();

    let a2 = bounce_x(&a, &cfg);
    assert_eq!(a2.velocity.x, 1000);
    assert_eq!(a2.position.x, -395_000);
    assert_eq!(a2.velocity.y, 0);
    assert_eq!(a2.position.y, 0);
}

#[test]
fn moving_right_ignores_left_edge() {
    // The same crossing position, but moving right: the left-edge check
    // leaves the ball alone.
    let a = Body::new(v(-210_000, 0), v(1000, 0), v(0, 0), 1000, 10_000);
    let cfg = Config::standard();

    let a2 = bounce_x(&a, &cfg);
    assert_eq!(a2, a);
}

#[test]
fn slow_body_near_floor_comes_to_rest() {
    // Standard window height 400: the floor line is -200 + 1. A ball of
    // radius 10 at y = -196 with speed 0.5 < 1 is put to rest: fixed, zero
    // velocity, position kept — and it stays so on the next tick.
    let a = Body::new(v(0, -196_000), v(500, 0), v(0, 0), 1000, 10_000);
    let mut bodies = vec![a];
    let cfg = Config::standard();

    let removed = step(&mut bodies, 100, &cfg);
    assert!(removed.is_empty());
    assert_eq!(bodies.len(), 1);
    assert!(bodies[0].fixed);
    assert_eq!(bodies[0].velocity, v(0, 0));
    assert_eq!(bodies[0].position, v(0, -196_000));

    let frozen = bodies[0];
    let removed2 = step(&mut bodies, 100, &cfg);
    assert!(removed2.is_empty());
    assert_eq!(bodies[0], frozen);
}

#[test]
fn fast_body_near_floor_keeps_moving() {
    // Same spot, but at 2 units/s: too fast for rest detection.
    let a = Body::new(v(0, -196_000), v(2000, 0), v(0, 0), 1000, 10_000);
    let mut bodies = vec![a];
    let mut cfg = forceless();
    // Keep the universe box out of the way: near the floor line the scaled
    // position is already outside the standard box.
    cfg.universe_height = 1_000_000;
    let removed = step(&mut bodies, 100, &cfg);

    assert!(removed.is_empty());
    assert!(!bodies[0].fixed);
    assert_ne!(bodies[0].velocity, v(0, 0));
}

#[test]
fn attraction_pulls_bodies_together() {
    // Gravity and friction off: two unit-mass balls 20 units apart on x
    // attract each other; with distance measured in world units
    // (scaled down by 2), the pull is 1/10^2 = 0.01 units/s^2 each way.
    let a = still_body(v(0, 0), 1000, 1000);
    let b = still_body(v(20_000, 0), 1000, 1000);
    let snap = vec![a, b];
    let cfg = forceless();

    let a2 = integrate(&a, &snap, 1000, &cfg);
    let b2 = integrate(&b, &snap, 1000, &cfg);
    assert_eq!(a2.velocity, v(10, 0));
    assert_eq!(b2.velocity, v(-10, 0));
}

#[test]
fn empty_body_set_is_a_noop() {
    let mut bodies: Vec<Body> = Vec::new();
    let removed = step(&mut bodies, 100, &Config::standard());
    assert!(removed.is_empty());
    assert!(bodies.is_empty());
}

#[test]
fn zero_dt_moves_nothing() {
    let a = still_body(v(10_000, 10_000), 1000, 10_000);
    let mut bodies = vec![a];
    let removed = step(&mut bodies, 0, &Config::standard());

    assert!(removed.is_empty());
    assert_eq!(bodies[0].position, v(10_000, 10_000));
    assert_eq!(bodies[0].velocity, v(0, 0));
}

#[test]
fn stock_body_is_a_free_unit_ball() {
    let b = Body::default();
    assert_eq!(b.position, v(0, 0));
    assert_eq!(b.velocity, v(0, 0));
    assert_eq!(b.external_acceleration, v(0, 0));
    assert_eq!(b.mass, 1000);
    assert_eq!(b.radius, 10_000);
    assert!(!b.fixed);
}

#[test]
fn top_edge_bounce_mirrors_the_left_one() {
    // Moving up across the top window edge: the y velocity flips sign and
    // the y position clamps to the edge minus half the radius.
    let a = Body::new(v(0, 210_000), v(0, 1000), v(0, 0), 1000, 10_000);
    let cfg = Config::standard();

    let a2 = bounce_y(&a, &cfg);
    assert_eq!(a2.velocity.y, -1000);
    assert_eq!(a2.position.y, 195_000);
    assert_eq!(a2.position.x, 0);
}

#[test]
fn removed_indices_come_back_increasing() {
    let far_right = still_body(v(210_000, 0), 1000, 10_000);
    let near = still_body(v(0, 0), 1000, 10_000);
    let far_left = still_body(v(-210_000, 0), 1000, 10_000);
    let mut bodies = vec![far_right, near, far_left];
    let removed = step(&mut bodies, 100, &forceless());

    assert_eq!(removed, vec![0, 2]);
    assert_eq!(bodies.len(), 1);
    assert_eq!(bodies[0].position, v(0, 0));
}

#[test]
fn render_transform_scales_the_position() {
    let b = still_body(v(10_000, -5000), 1000, 10_000);
    let cfg = Config::standard();
    assert_eq!(scaled_position(&b, &cfg), v(20_000, -10_000));
}

#[test]
fn collisions_can_be_disabled() {
    // The overlapping pair from the elastic test, with the collision pass
    // switched off: velocities pass through the tick unchanged.
    let a = Body::new(v(0, 0), v(1000, 0), v(0, 0), 1000, 10_000);
    let b = Body::new(v(15_000, 0), v(-1000, 0), v(0, 0), 1000, 10_000);
    let mut cfg = forceless();
    cfg.collisions_enabled = false;
    let mut bodies = vec![a, b];
    let removed = step(&mut bodies, 0, &cfg);

    assert!(removed.is_empty());
    assert_eq!(bodies[0].velocity, v(1000, 0));
    assert_eq!(bodies[1].velocity, v(-1000, 0));
}
