//! Laws of the integrator: tick-level guarantees proved once and for all
//! from the contracts in [`crate::step`].

use vstd::prelude::*;

verus! {

use crate::body::Body;
use crate::config::Config;
use crate::fixed::{fp_add_spec, fp_neg_spec, fp_sub_spec};
use crate::step::{
    at_rest_spec, attraction_spec, boundary_spec, bounce_x_spec, bounce_y_spec,
    collide_one_spec, collide_upto_spec, friction_spec, half_spec, integrate_spec,
    moved_body_spec, out_of_universe_spec, removed_spec, removed_upto_spec,
    scaled_position_spec, step_one_spec, survivors_spec, survivors_upto_spec, weight_spec,
    accel_upto_spec,
};
use crate::vec3::{vadd_spec, vscale_spec, vzero_spec, lemma_vadd_zero};

/// A body whose tick produced a survivor is found in the tick's output.
pub proof fn lemma_survivor_in_output(
    snap: Seq<Body>,
    n: int,
    i: int,
    b: Body,
    dt: int,
    cfg: Config,
)
    requires
        0 <= i < n <= snap.len(),
        step_one_spec(snap, i, dt, cfg) == Some(b),
    ensures
        survivors_upto_spec(snap, n, dt, cfg).contains(b),
    decreases n,
{
    let pre = survivors_upto_spec(snap, n - 1, dt, cfg);
    if i == n - 1 {
        assert(pre.push(b)[pre.len() as int] == b);
        assert(pre.push(b).contains(b));
    } else {
        lemma_survivor_in_output(snap, n - 1, i, b, dt, cfg);
        let k = choose|k: int| 0 <= k < pre.len() && pre[k] == b;
        match step_one_spec(snap, n - 1, dt, cfg) {
            Some(b2) => {
                assert(pre.push(b2)[k] == b);
            },
            None => {},
        }
    }
}

/// A body whose tick despawned it has its index in the removed list.
pub proof fn lemma_despawned_index_reported(snap: Seq<Body>, n: int, i: int, dt: int, cfg: Config)
    requires
        0 <= i < n <= snap.len(),
        step_one_spec(snap, i, dt, cfg) is None,
    ensures
        removed_upto_spec(snap, n, dt, cfg).contains(i as usize),
    decreases n,
{
    let pre = removed_upto_spec(snap, n - 1, dt, cfg);
    if i == n - 1 {
        assert(pre.push(i as usize)[pre.len() as int] == i as usize);
        assert(pre.push(i as usize).contains(i as usize));
    } else {
        lemma_despawned_index_reported(snap, n - 1, i, dt, cfg);
        let k = choose|k: int| 0 <= k < pre.len() && pre[k] == i as usize;
        match step_one_spec(snap, n - 1, dt, cfg) {
            Some(b2) => {},
            None => {
                assert(pre.push(((n - 1) as usize))[k] == i as usize);
            },
        }
    }
}

/// A body that enters a tick with `fixed` set is carried through the tick
/// with its position and velocity (and every other field) unchanged, and
/// stands in the tick's output. Together with the rest-detection law this
/// makes `fixed` permanent: every later tick repeats this unchanged.
pub proof fn lemma_fixed_body_unchanged(snap: Seq<Body>, i: int, dt: int, cfg: Config)
    requires
        0 <= i < snap.len(),
        snap[i].fixed,
    ensures
        step_one_spec(snap, i, dt, cfg) == Some(snap[i]),
        survivors_spec(snap, dt, cfg).contains(snap[i]),
{
    lemma_survivor_in_output(snap, snap.len() as int, i, snap[i], dt, cfg);
}

/// The acceleration never picks up an attraction term when every snapshot
/// body sits at the body's own position (each such pair is skipped).
proof fn lemma_accel_no_neighbors(b: Body, snap: Seq<Body>, n: int, cfg: Config)
    requires
        0 <= n <= snap.len(),
        forall|k: int| 0 <= k < snap.len() ==> snap[k].position == b.position,
    ensures
        accel_upto_spec(b, snap, n, cfg) == accel_upto_spec(b, snap, 0, cfg),
    decreases n,
{
    if n > 0 {
        lemma_accel_no_neighbors(b, snap, n - 1, cfg);
        assert(attraction_spec(b, snap[n - 1], cfg) == vzero_spec());
        lemma_vadd_zero(accel_upto_spec(b, snap, n - 1, cfg));
    }
}

/// With no attracting neighbour (every snapshot body sits at the body's own
/// position, so every pair is skipped), the integration pass is plain
/// semi-implicit Euler over the external acceleration, gravity and
/// friction: `v' = v + a * dt`, then `p' = p + v' * dt`.
pub proof fn lemma_free_fall_is_euler(b: Body, snap: Seq<Body>, dt: int, cfg: Config)
    requires
        forall|k: int| 0 <= k < snap.len() ==> snap[k].position == b.position,
    ensures
        ({
            let a = vadd_spec(
                vadd_spec(b.external_acceleration, weight_spec(b, cfg)),
                friction_spec(b, cfg),
            );
            let v = vadd_spec(b.velocity, vscale_spec(a, dt));
            let p = vadd_spec(b.position, vscale_spec(v, dt));
            integrate_spec(b, snap, dt, cfg) == (Body { position: p, velocity: v, ..b })
        }),
{
    lemma_accel_no_neighbors(b, snap, snap.len() as int, cfg);
}

/// Two bodies at the very same position exert nothing on each other:
/// neither an attraction term nor a collision response arises from the
/// pair (the degenerate zero-length normal is skipped, not divided by).
pub proof fn lemma_coincident_pair_inert(b: Body, o: Body, cfg: Config)
    requires
        o.position == b.position,
    ensures
        attraction_spec(b, o, cfg) == vzero_spec(),
        collide_one_spec(b, o) == b,
{
}

/// A body outside the universe box does not survive its boundary pass.
pub proof fn lemma_out_of_universe_despawns(b: Body, cfg: Config)
    requires
        out_of_universe_spec(b, cfg),
    ensures
        boundary_spec(b, cfg) is None,
{
}

/// A tick despawns a body exactly when the body is free, escapes rest
/// detection, and the integration and collision passes leave it outside
/// the universe box; on every other account the tick hands a body back.
pub proof fn lemma_despawn_iff_out_of_universe(snap: Seq<Body>, i: int, dt: int, cfg: Config)
    requires
        0 <= i < snap.len(),
    ensures
        (step_one_spec(snap, i, dt, cfg) is None) <==> (!snap[i].fixed && !at_rest_spec(
            snap[i],
            cfg,
        ) && out_of_universe_spec(moved_body_spec(snap, i, dt, cfg), cfg)),
{
}

/// A body whose tick ends outside the universe box is absent from the
/// tick's survivors and its index is reported as removed.
pub proof fn lemma_despawned_body_reported(snap: Seq<Body>, i: int, dt: int, cfg: Config)
    requires
        0 <= i < snap.len(),
        step_one_spec(snap, i, dt, cfg) is None,
    ensures
        removed_spec(snap, dt, cfg).contains(i as usize),
{
    lemma_despawned_index_reported(snap, snap.len() as int, i, dt, cfg);
}

/// Every snapshot index is accounted for: a tick's survivors and its
/// removed indices together cover the whole body set, once each.
pub proof fn lemma_tick_partitions_bodies(snap: Seq<Body>, dt: int, cfg: Config)
    ensures
        survivors_spec(snap, dt, cfg).len() + removed_spec(snap, dt, cfg).len() == snap.len(),
{
    lemma_partition_upto(snap, snap.len() as int, dt, cfg);
}

proof fn lemma_partition_upto(snap: Seq<Body>, n: int, dt: int, cfg: Config)
    requires
        0 <= n <= snap.len(),
    ensures
        survivors_upto_spec(snap, n, dt, cfg).len() + removed_upto_spec(snap, n, dt, cfg).len()
            == n,
    decreases n,
{
    if n > 0 {
        lemma_partition_upto(snap, n - 1, dt, cfg);
    }
}

/// A body moving left whose render-space edge has crossed the left window
/// edge leaves its bounce with the `x` velocity flipped in sign and the
/// `x` position clamped to the edge plus half its radius; nothing else
/// about it changes.
pub proof fn lemma_left_edge_bounce(b: Body, cfg: Config)
    requires
        fp_sub_spec(scaled_position_spec(b, cfg).x as int, half_spec(b.radius as int))
            < fp_neg_spec(half_spec(cfg.window_width as int)),
        b.velocity.x < 0,
    ensures
        bounce_x_spec(b, cfg).velocity.x == fp_neg_spec(b.velocity.x as int),
        bounce_x_spec(b, cfg).position.x == fp_add_spec(
            fp_neg_spec(half_spec(cfg.window_width as int)),
            half_spec(b.radius as int),
        ),
        bounce_x_spec(b, cfg).velocity.y == b.velocity.y,
        bounce_x_spec(b, cfg).position.y == b.position.y,
        bounce_x_spec(b, cfg).mass == b.mass,
        bounce_x_spec(b, cfg).radius == b.radius,
        bounce_x_spec(b, cfg).fixed == b.fixed,
{
}

/// A body that is not moving left is unaffected by the left-edge check:
/// unless it is crossing the right edge outward (the opposite, mutually
/// exclusive case), its bounce leaves it exactly as it was.
pub proof fn lemma_moving_right_ignores_left_edge(b: Body, cfg: Config)
    requires
        b.velocity.x >= 0,
        !(fp_add_spec(scaled_position_spec(b, cfg).x as int, half_spec(b.radius as int))
            > half_spec(cfg.window_width as int) && b.velocity.x > 0),
    ensures
        bounce_x_spec(b, cfg) == b,
{
}

/// The collision pass changes only where a body is and how fast it moves:
/// its mass, radius, external acceleration and `fixed` flag pass through.
proof fn lemma_collide_keeps_identity(b: Body, snap: Seq<Body>, self_i: int, n: int)
    ensures
        collide_upto_spec(b, snap, self_i, n).mass == b.mass,
        collide_upto_spec(b, snap, self_i, n).radius == b.radius,
        collide_upto_spec(b, snap, self_i, n).external_acceleration == b.external_acceleration,
        collide_upto_spec(b, snap, self_i, n).fixed == b.fixed,
    decreases n,
{
    if n > 0 {
        lemma_collide_keeps_identity(b, snap, self_i, n - 1);
    }
}

/// The per-body state machine of a tick. A surviving body keeps its mass,
/// radius and external acceleration, and its `fixed` flag moves one way
/// only: it is set exactly when the body entered fixed or was put to rest
/// this tick, never cleared. A body despawns only while free and not at
/// rest. So a valid body stays valid, and `Free -> Fixed` and
/// `Alive -> Despawned` are the only transitions.
pub proof fn lemma_tick_state_machine(snap: Seq<Body>, i: int, dt: int, cfg: Config)
    requires
        0 <= i < snap.len(),
    ensures
        match step_one_spec(snap, i, dt, cfg) {
            Some(b2) => {
                &&& b2.mass == snap[i].mass
                &&& b2.radius == snap[i].radius
                &&& b2.external_acceleration == snap[i].external_acceleration
                &&& b2.fixed == (snap[i].fixed || at_rest_spec(snap[i], cfg))
                &&& (snap[i].valid() ==> b2.valid())
            },
            None => !snap[i].fixed && !at_rest_spec(snap[i], cfg),
        },
{
    let b = snap[i];
    if !b.fixed && !at_rest_spec(b, cfg) {
        let b1 = integrate_spec(b, snap, dt, cfg);
        let b2 = if cfg.collisions_enabled {
            collide_upto_spec(b1, snap, i, snap.len() as int)
        } else {
            b1
        };
        lemma_collide_keeps_identity(b1, snap, i, snap.len() as int);
        assert(bounce_y_spec(bounce_x_spec(b2, cfg), cfg).fixed == b2.fixed);
    }
}

/// Every removed index points into the snapshot, and the removed list is
/// strictly increasing: a host may drop them from its storage front to
/// back without re-indexing the ones still to come.
pub proof fn lemma_removed_indices_increasing(snap: Seq<Body>, dt: int, cfg: Config)
    requires
        snap.len() <= usize::MAX,
    ensures
        forall|k: int|
            0 <= k < removed_spec(snap, dt, cfg).len() ==> (removed_spec(snap, dt, cfg)[k] as int)
                < snap.len(),
        forall|k1: int, k2: int|
            0 <= k1 < k2 < removed_spec(snap, dt, cfg).len() ==> (removed_spec(snap, dt, cfg)[k1]
                as int) < (removed_spec(snap, dt, cfg)[k2] as int),
{
    lemma_removed_upto_increasing(snap, snap.len() as int, dt, cfg);
}

proof fn lemma_removed_upto_increasing(snap: Seq<Body>, n: int, dt: int, cfg: Config)
    requires
        0 <= n <= snap.len(),
        snap.len() <= usize::MAX,
    ensures
        forall|k: int|
            0 <= k < removed_upto_spec(snap, n, dt, cfg).len() ==> (removed_upto_spec(
                snap,
                n,
                dt,
                cfg,
            )[k] as int) < n,
        forall|k1: int, k2: int|
            0 <= k1 < k2 < removed_upto_spec(snap, n, dt, cfg).len() ==> (removed_upto_spec(
                snap,
                n,
                dt,
                cfg,
            )[k1] as int) < (removed_upto_spec(snap, n, dt, cfg)[k2] as int),
    decreases n,
{
    if n > 0 {
        lemma_removed_upto_increasing(snap, n - 1, dt, cfg);
        let pre = removed_upto_spec(snap, n - 1, dt, cfg);
        let cur = removed_upto_spec(snap, n, dt, cfg);
        match step_one_spec(snap, n - 1, dt, cfg) {
            Some(b2) => {
                assert(cur == pre);
            },
            None => {
                assert(cur == pre.push((n - 1) as usize));
                assert(forall|k: int| 0 <= k < pre.len() ==> cur[k] == pre[k]);
                assert(cur[pre.len() as int] == (n - 1) as usize);
            },
        }
    }
}

/// Rest detection: a free body slower than the threshold sitting within
/// the epsilon of the floor leaves its tick fixed, with zero velocity and
/// an unchanged position, skipping every force, collision and boundary
/// effect of that tick. By [`lemma_fixed_body_unchanged`] it then stays so
/// on every later tick, whatever forces would apply.
pub proof fn lemma_rest_detection(snap: Seq<Body>, i: int, dt: int, cfg: Config)
    requires
        0 <= i < snap.len(),
        !snap[i].fixed,
        at_rest_spec(snap[i], cfg),
    ensures
        step_one_spec(snap, i, dt, cfg) == Some(
            Body { velocity: vzero_spec(), fixed: true, ..snap[i] },
        ),
        survivors_spec(snap, dt, cfg).contains(
            Body { velocity: vzero_spec(), fixed: true, ..snap[i] },
        ),
{
    lemma_survivor_in_output(
        snap,
        snap.len() as int,
        i,
        Body { velocity: vzero_spec(), fixed: true, ..snap[i] },
        dt,
        cfg,
    );
}

} // verus!
