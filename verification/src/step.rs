//! The body integrator: once per simulation tick, every live body gets a
//! force-accumulation/integration pass, an inter-body collision pass, and a
//! boundary pass (despawn when outside the universe box, bounce off the
//! window edges), each pass reading a frozen snapshot of every body's state
//! as of the start of the tick. A body never acts on itself: its own
//! snapshot entry is skipped, by position in the attraction loop (the body
//! has not yet moved there) and by index in the collision pass.
//!
//! Gravity and friction are folded into the acceleration before the
//! attraction loop runs (the order the contracts below fix). Two quirks
//! are part of this simulation's deliberate flavour of physics: gravity is
//! scaled by the body's mass even though an acceleration would not be, and
//! the attraction term multiplies both masses and then divides the body's
//! own mass back out.

use vstd::prelude::*;

verus! {

use crate::body::Body;
use crate::config::Config;
use crate::fixed::{
    fp_add, fp_add_spec, fp_div, fp_div_spec, fp_mul, fp_mul_spec, fp_neg, fp_neg_spec, fp_sub,
    fp_sub_spec, FP, FP_HALF,
};
use crate::vec3::{
    vadd, vadd_spec, vdist, vdist_spec, vdiv, vdiv_spec, vdot, vdot_spec, vnorm, vnorm_spec,
    vnormalize, vnormalize_spec, vscale, vscale_spec, vsub, vsub_spec, vzero, vzero_spec, Vec3,
};

/// Half of a fixed-point scalar (rounded toward zero).
pub open spec fn half_spec(x: int) -> int {
    fp_mul_spec(x, FP_HALF as int)
}

/// Half of a fixed-point scalar (rounded toward zero).
pub fn half(x: i64) -> (r: i64)
    ensures
        r == half_spec(x as int),
{
    fp_mul(x, FP_HALF)
}

/// The floor line used by rest detection: the bottom window edge, raised by
/// the configured epsilon.
pub open spec fn rest_floor_spec(cfg: Config) -> int {
    fp_add_spec(fp_neg_spec(half_spec(cfg.window_height as int)), cfg.rest_floor_epsilon as int)
}

/// Rest detection: a body slower than the threshold whose lower edge sits
/// below the floor line comes to rest.
pub open spec fn at_rest_spec(b: Body, cfg: Config) -> bool {
    vnorm_spec(b.velocity) < cfg.rest_speed_threshold && fp_sub_spec(
        b.position.y as int,
        half_spec(b.radius as int),
    ) < rest_floor_spec(cfg)
}

/// Rest detection on a live body.
pub fn at_rest(b: &Body, cfg: &Config) -> (r: bool)
    ensures
        r == at_rest_spec(*b, *cfg),
{
    let speed = vnorm(b.velocity);
    let lower_edge = fp_sub(b.position.y, half(b.radius));
    let floor = fp_add(fp_neg(half(cfg.window_height)), cfg.rest_floor_epsilon);
    speed < cfg.rest_speed_threshold && lower_edge < floor
}

/// The gravity term: `(0, G, 0)` scaled by the body's mass (a deliberate
/// quirk; a pure acceleration would not scale by the mass).
pub open spec fn weight_spec(b: Body, cfg: Config) -> Vec3 {
    vscale_spec(Vec3 { x: 0, y: cfg.gravity, z: 0 }, b.mass as int)
}

/// The friction term: the velocity scaled by minus the drag coefficient.
pub open spec fn friction_spec(b: Body, cfg: Config) -> Vec3 {
    vscale_spec(vscale_spec(b.velocity, fp_neg_spec(FP as int)), cfg.friction as int)
}

/// The inverse-square attraction `o` exerts on `b`: along the unit vector
/// from `b` toward `o`, with magnitude `b.mass * o.mass / d^2` divided by
/// `b.mass` again (a deliberate quirk), where `d` is the distance in world
/// units (the render-space distance divided by the scale). A pair at the
/// same position, or one whose squared distance rounds to zero at
/// fixed-point resolution, contributes nothing.
pub open spec fn attraction_spec(b: Body, o: Body, cfg: Config) -> Vec3 {
    if o.position == b.position {
        vzero_spec()
    } else {
        let d = fp_div_spec(vdist_spec(b.position, o.position), cfg.scale as int);
        let d2 = fp_mul_spec(d, d);
        if d2 == 0 {
            vzero_spec()
        } else {
            let n = vnormalize_spec(vsub_spec(o.position, b.position));
            let f = vscale_spec(n, fp_div_spec(fp_mul_spec(b.mass as int, o.mass as int), d2));
            vdiv_spec(f, b.mass as int)
        }
    }
}

/// The attraction `o` exerts on `b`.
pub fn attraction(b: &Body, o: &Body, cfg: &Config) -> (r: Vec3)
    ensures
        r == attraction_spec(*b, *o, *cfg),
{
    if b.position == o.position {
        return vzero();
    }
    let d = fp_div(vdist(b.position, o.position), cfg.scale);
    let d2 = fp_mul(d, d);
    if d2 == 0 {
        return vzero();
    }
    let n = vnormalize(vsub(o.position, b.position));
    let f = vscale(n, fp_div(fp_mul(b.mass, o.mass), d2));
    vdiv(f, b.mass)
}

/// The acceleration of `b` after the external term, gravity, friction, and
/// the attraction of the first `n` snapshot bodies, accumulated in that
/// order.
pub open spec fn accel_upto_spec(b: Body, snap: Seq<Body>, n: int, cfg: Config) -> Vec3
    decreases n,
{
    if n <= 0 {
        vadd_spec(
            vadd_spec(b.external_acceleration, weight_spec(b, cfg)),
            friction_spec(b, cfg),
        )
    } else {
        vadd_spec(accel_upto_spec(b, snap, n - 1, cfg), attraction_spec(b, snap[n - 1], cfg))
    }
}

/// The full per-tick acceleration of `b` against the snapshot.
pub open spec fn accel_spec(b: Body, snap: Seq<Body>, cfg: Config) -> Vec3 {
    accel_upto_spec(b, snap, snap.len() as int, cfg)
}

/// Semi-implicit Euler over the accumulated acceleration: the velocity
/// moves first, the position then moves by the new velocity.
pub open spec fn integrate_spec(b: Body, snap: Seq<Body>, dt: int, cfg: Config) -> Body {
    let a = accel_spec(b, snap, cfg);
    let v = vadd_spec(b.velocity, vscale_spec(a, dt));
    let p = vadd_spec(b.position, vscale_spec(v, dt));
    Body { position: p, velocity: v, ..b }
}

/// Force accumulation and integration for one body against the snapshot.
#[verifier::loop_isolation(false)]
pub fn integrate(b: &Body, snap: &Vec<Body>, dt: i64, cfg: &Config) -> (r: Body)
    ensures
        r == integrate_spec(*b, snap@, dt as int, *cfg),
{
    let weight = vscale(Vec3 { x: 0, y: cfg.gravity, z: 0 }, b.mass);
    let friction = vscale(vscale(b.velocity, fp_neg(FP)), cfg.friction);
    let mut acc = vadd(vadd(b.external_acceleration, weight), friction);
    let mut k: usize = 0;
    while k < snap.len()
        invariant
            k <= snap@.len(),
            acc == accel_upto_spec(*b, snap@, k as int, *cfg),
        decreases snap@.len() - k,
    {
        let o = snap[k];
        acc = vadd(acc, attraction(b, &o, cfg));
        k = k + 1;
    }
    let v = vadd(b.velocity, vscale(acc, dt));
    let p = vadd(b.position, vscale(v, dt));
    Body { position: p, velocity: v, ..*b }
}

/// Collision of `b` against one snapshot body `o`: when the two circles
/// overlap, an elastic-style impulse along the contact normal changes `b`'s
/// velocity, and `b` is pushed back along the normal by half the overlap.
/// Only `b` changes; `o` is resolved in its own turn against the same
/// snapshot. A body at the very same position is skipped.
pub open spec fn collide_one_spec(b: Body, o: Body) -> Body {
    if o.position == b.position {
        b
    } else {
        let d = vdist_spec(b.position, o.position);
        if d < fp_add_spec(b.radius as int, o.radius as int) {
            let n = vnormalize_spec(vsub_spec(o.position, b.position));
            let rv = vsub_spec(b.velocity, o.velocity);
            let j = fp_div_spec(
                fp_mul_spec(2 * FP, vdot_spec(rv, n)),
                fp_add_spec(b.mass as int, o.mass as int),
            );
            let v = vsub_spec(b.velocity, vscale_spec(vscale_spec(n, j), o.mass as int));
            let overlap = fp_sub_spec(fp_add_spec(b.radius as int, o.radius as int), d);
            let p = vsub_spec(b.position, vscale_spec(vscale_spec(n, overlap), FP_HALF as int));
            Body { position: p, velocity: v, ..b }
        } else {
            b
        }
    }
}

/// Collision of `b` against one snapshot body.
pub fn collide_one(b: &Body, o: &Body) -> (r: Body)
    ensures
        r == collide_one_spec(*b, *o),
{
    if b.position == o.position {
        return *b;
    }
    let d = vdist(b.position, o.position);
    if d < fp_add(b.radius, o.radius) {
        let n = vnormalize(vsub(o.position, b.position));
        let rv = vsub(b.velocity, o.velocity);
        let j = fp_div(fp_mul(2 * FP, vdot(rv, n)), fp_add(b.mass, o.mass));
        let v = vsub(b.velocity, vscale(vscale(n, j), o.mass));
        let overlap = fp_sub(fp_add(b.radius, o.radius), d);
        let p = vsub(b.position, vscale(vscale(n, overlap), FP_HALF));
        Body { position: p, velocity: v, ..*b }
    } else {
        *b
    }
}

/// `b`, which entered the tick at snapshot index `self_i`, resolved
/// against the first `n` snapshot bodies in order, each resolution reading
/// the body as the previous one left it. The body's own snapshot entry is
/// passed over: a body does not collide with its own entry state.
pub open spec fn collide_upto_spec(b: Body, snap: Seq<Body>, self_i: int, n: int) -> Body
    decreases n,
{
    if n <= 0 {
        b
    } else {
        let pre = collide_upto_spec(b, snap, self_i, n - 1);
        if n - 1 == self_i {
            pre
        } else {
            collide_one_spec(pre, snap[n - 1])
        }
    }
}

/// The full collision pass for the body at snapshot index `self_i`.
pub open spec fn collide_spec(b: Body, snap: Seq<Body>, self_i: int) -> Body {
    collide_upto_spec(b, snap, self_i, snap.len() as int)
}

/// The collision pass for one body against the snapshot; `self_i` is the
/// body's own snapshot index, which the pass skips.
#[verifier::loop_isolation(false)]
pub fn collide(b: &Body, snap: &Vec<Body>, self_i: usize) -> (r: Body)
    ensures
        r == collide_spec(*b, snap@, self_i as int),
{
    let mut cur: Body = *b;
    let mut k: usize = 0;
    while k < snap.len()
        invariant
            k <= snap@.len(),
            cur == collide_upto_spec(*b, snap@, self_i as int, k as int),
        decreases snap@.len() - k,
    {
        if k != self_i {
            let o = snap[k];
            cur = collide_one(&cur, &o);
        }
        k = k + 1;
    }
    cur
}

/// The body's position in render space: the world position times the
/// world-to-render scale.
pub open spec fn scaled_position_spec(b: Body, cfg: Config) -> Vec3 {
    vscale_spec(b.position, cfg.scale as int)
}

/// Whether the body's circle, in render space, has left the universe box
/// centered at the origin on either axis.
pub open spec fn out_of_universe_spec(b: Body, cfg: Config) -> bool {
    let t = scaled_position_spec(b, cfg);
    let hr = half_spec(b.radius as int);
    ||| fp_sub_spec(t.x as int, hr) > half_spec(cfg.universe_width as int)
    ||| fp_add_spec(t.x as int, hr) < fp_neg_spec(half_spec(cfg.universe_width as int))
    ||| fp_sub_spec(t.y as int, hr) > half_spec(cfg.universe_height as int)
    ||| fp_add_spec(t.y as int, hr) < fp_neg_spec(half_spec(cfg.universe_height as int))
}

/// The body's position in render space, for the host's draw transform.
pub fn scaled_position(b: &Body, cfg: &Config) -> (r: Vec3)
    ensures
        r == scaled_position_spec(*b, *cfg),
{
    vscale(b.position, cfg.scale)
}

/// Whether the body has left the universe box.
pub fn out_of_universe(b: &Body, cfg: &Config) -> (r: bool)
    ensures
        r == out_of_universe_spec(*b, *cfg),
{
    let t = vscale(b.position, cfg.scale);
    let hr = half(b.radius);
    let hw = half(cfg.universe_width);
    let hh = half(cfg.universe_height);
    fp_sub(t.x, hr) > hw || fp_add(t.x, hr) < fp_neg(hw) || fp_sub(t.y, hr) > hh || fp_add(
        t.y,
        hr,
    ) < fp_neg(hh)
}

/// The window bounce on the `x` axis: if the body's render-space edge has
/// crossed the left window edge while still moving left, the `x` velocity
/// flips and the `x` position is clamped to the edge plus half the radius;
/// symmetrically for the right edge. The two directions are mutually
/// exclusive, and a body whose velocity points back inward is left alone.
pub open spec fn bounce_x_spec(b: Body, cfg: Config) -> Body {
    let t = scaled_position_spec(b, cfg);
    let hr = half_spec(b.radius as int);
    let hw = half_spec(cfg.window_width as int);
    if fp_sub_spec(t.x as int, hr) < fp_neg_spec(hw) && b.velocity.x < 0 {
        Body {
            velocity: Vec3 { x: fp_neg_spec(b.velocity.x as int) as i64, ..b.velocity },
            position: Vec3 { x: fp_add_spec(fp_neg_spec(hw), hr) as i64, ..b.position },
            ..b
        }
    } else if fp_add_spec(t.x as int, hr) > hw && b.velocity.x > 0 {
        Body {
            velocity: Vec3 { x: fp_neg_spec(b.velocity.x as int) as i64, ..b.velocity },
            position: Vec3 { x: fp_sub_spec(hw, hr) as i64, ..b.position },
            ..b
        }
    } else {
        b
    }
}

/// The window bounce on the `y` axis, symmetric to [`bounce_x_spec`].
pub open spec fn bounce_y_spec(b: Body, cfg: Config) -> Body {
    let t = scaled_position_spec(b, cfg);
    let hr = half_spec(b.radius as int);
    let hh = half_spec(cfg.window_height as int);
    if fp_sub_spec(t.y as int, hr) < fp_neg_spec(hh) && b.velocity.y < 0 {
        Body {
            velocity: Vec3 { y: fp_neg_spec(b.velocity.y as int) as i64, ..b.velocity },
            position: Vec3 { y: fp_add_spec(fp_neg_spec(hh), hr) as i64, ..b.position },
            ..b
        }
    } else if fp_add_spec(t.y as int, hr) > hh && b.velocity.y > 0 {
        Body {
            velocity: Vec3 { y: fp_neg_spec(b.velocity.y as int) as i64, ..b.velocity },
            position: Vec3 { y: fp_sub_spec(hh, hr) as i64, ..b.position },
            ..b
        }
    } else {
        b
    }
}

/// The boundary pass: a body outside the universe box despawns; otherwise
/// it bounces off the window edges, first on `x`, then on `y`.
pub open spec fn boundary_spec(b: Body, cfg: Config) -> Option<Body> {
    if out_of_universe_spec(b, cfg) {
        None
    } else {
        Some(bounce_y_spec(bounce_x_spec(b, cfg), cfg))
    }
}

/// The window bounce on the `x` axis.
pub fn bounce_x(b: &Body, cfg: &Config) -> (r: Body)
    ensures
        r == bounce_x_spec(*b, *cfg),
{
    let t = vscale(b.position, cfg.scale);
    let hr = half(b.radius);
    let hw = half(cfg.window_width);
    if fp_sub(t.x, hr) < fp_neg(hw) && b.velocity.x < 0 {
        Body {
            velocity: Vec3 { x: fp_neg(b.velocity.x), ..b.velocity },
            position: Vec3 { x: fp_add(fp_neg(hw), hr), ..b.position },
            ..*b
        }
    } else if fp_add(t.x, hr) > hw && b.velocity.x > 0 {
        Body {
            velocity: Vec3 { x: fp_neg(b.velocity.x), ..b.velocity },
            position: Vec3 { x: fp_sub(hw, hr), ..b.position },
            ..*b
        }
    } else {
        *b
    }
}

/// The window bounce on the `y` axis.
pub fn bounce_y(b: &Body, cfg: &Config) -> (r: Body)
    ensures
        r == bounce_y_spec(*b, *cfg),
{
    let t = vscale(b.position, cfg.scale);
    let hr = half(b.radius);
    let hh = half(cfg.window_height);
    if fp_sub(t.y, hr) < fp_neg(hh) && b.velocity.y < 0 {
        Body {
            velocity: Vec3 { y: fp_neg(b.velocity.y), ..b.velocity },
            position: Vec3 { y: fp_add(fp_neg(hh), hr), ..b.position },
            ..*b
        }
    } else if fp_add(t.y, hr) > hh && b.velocity.y > 0 {
        Body {
            velocity: Vec3 { y: fp_neg(b.velocity.y), ..b.velocity },
            position: Vec3 { y: fp_sub(hh, hr), ..b.position },
            ..*b
        }
    } else {
        *b
    }
}

/// The boundary pass for one body.
pub fn boundary(b: &Body, cfg: &Config) -> (r: Option<Body>)
    ensures
        r == boundary_spec(*b, *cfg),
{
    if out_of_universe(b, cfg) {
        None
    } else {
        let bx = bounce_x(b, cfg);
        Some(bounce_y(&bx, cfg))
    }
}

/// One full tick for the body at snapshot index `i`: a fixed body is
/// carried through untouched; a body caught by rest detection is frozen
/// with zero velocity and skips the rest of its tick; every other body is
/// integrated, resolved against the snapshot when collisions are enabled,
/// and then handed to the boundary pass, which may despawn it (`None`).
/// The body at snapshot index `i` as the integration pass and (when
/// enabled) the collision pass leave it, before the boundary pass rules
/// on it.
pub open spec fn moved_body_spec(snap: Seq<Body>, i: int, dt: int, cfg: Config) -> Body {
    let b1 = integrate_spec(snap[i], snap, dt, cfg);
    if cfg.collisions_enabled {
        collide_spec(b1, snap, i)
    } else {
        b1
    }
}

pub open spec fn step_one_spec(snap: Seq<Body>, i: int, dt: int, cfg: Config) -> Option<Body> {
    let b = snap[i];
    if b.fixed {
        Some(b)
    } else if at_rest_spec(b, cfg) {
        Some(Body { velocity: vzero_spec(), fixed: true, ..b })
    } else {
        boundary_spec(moved_body_spec(snap, i, dt, cfg), cfg)
    }
}

/// One full tick for the body at snapshot index `i`.
pub fn step_body(snap: &Vec<Body>, i: usize, dt: i64, cfg: &Config) -> (r: Option<Body>)
    requires
        i < snap@.len(),
    ensures
        r == step_one_spec(snap@, i as int, dt as int, *cfg),
{
    let b = snap[i];
    if b.fixed {
        Some(b)
    } else if at_rest(&b, cfg) {
        Some(Body { velocity: vzero(), fixed: true, ..b })
    } else {
        let b1 = integrate(&b, snap, dt, cfg);
        let b2 = if cfg.collisions_enabled {
            collide(&b1, snap, i)
        } else {
            b1
        };
        boundary(&b2, cfg)
    }
}

/// The surviving bodies among the first `n` snapshot indices, in snapshot
/// order, each as its tick leaves it.
pub open spec fn survivors_upto_spec(snap: Seq<Body>, n: int, dt: int, cfg: Config) -> Seq<Body>
    decreases n,
{
    if n <= 0 {
        Seq::empty()
    } else {
        let pre = survivors_upto_spec(snap, n - 1, dt, cfg);
        match step_one_spec(snap, n - 1, dt, cfg) {
            Some(b) => pre.push(b),
            None => pre,
        }
    }
}

/// The bodies that survive the tick, in snapshot order.
pub open spec fn survivors_spec(snap: Seq<Body>, dt: int, cfg: Config) -> Seq<Body> {
    survivors_upto_spec(snap, snap.len() as int, dt, cfg)
}

/// The despawned snapshot indices among the first `n`, in increasing order.
pub open spec fn removed_upto_spec(snap: Seq<Body>, n: int, dt: int, cfg: Config) -> Seq<usize>
    decreases n,
{
    if n <= 0 {
        Seq::empty()
    } else {
        let pre = removed_upto_spec(snap, n - 1, dt, cfg);
        match step_one_spec(snap, n - 1, dt, cfg) {
            Some(b) => pre,
            None => pre.push((n - 1) as usize),
        }
    }
}

/// The snapshot indices of the bodies that despawn this tick, increasing.
pub open spec fn removed_spec(snap: Seq<Body>, dt: int, cfg: Config) -> Seq<usize> {
    removed_upto_spec(snap, snap.len() as int, dt, cfg)
}

/// One simulation tick over the whole body set: every body is stepped
/// against the frozen entry state of `bodies`, survivors replace `bodies`
/// in order, and the entry indices of the despawned bodies are returned,
/// in increasing order, for the host to drop from its own storage.
#[verifier::loop_isolation(false)]
pub fn step(bodies: &mut Vec<Body>, dt: i64, cfg: &Config) -> (removed: Vec<usize>)
    requires
        dt >= 0,
    ensures
        final(bodies)@ == survivors_spec(old(bodies)@, dt as int, *cfg),
        removed@ == removed_spec(old(bodies)@, dt as int, *cfg),
{
    let n = bodies.len();
    let mut out: Vec<Body> = Vec::new();
    let mut removed: Vec<usize> = Vec::new();
    let mut i: usize = 0;
    while i < n
        invariant
            i <= n,
            bodies@ == old(bodies)@,
            out@ == survivors_upto_spec(old(bodies)@, i as int, dt as int, *cfg),
            removed@ == removed_upto_spec(old(bodies)@, i as int, dt as int, *cfg),
        decreases n - i,
    {
        match step_body(bodies, i, dt, cfg) {
            Some(nb) => out.push(nb),
            None => removed.push(i),
        }
        i = i + 1;
    }
    *bodies = out;
    removed
}

} // verus!
