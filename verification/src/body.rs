//! The simulated particle: a circular body with a position, a velocity,
//! a caller-supplied constant acceleration, a mass and a radius, and a
//! `fixed` flag that freezes it once it has come to rest near the floor.

use vstd::prelude::*;

verus! {

use crate::vec3::Vec3;

/// One circular body. All scalars are fixed-point (thousandths of a unit);
/// positions and lengths are in world units ("meters").
#[derive(Clone, Copy, PartialEq, Eq, Structural, Debug)]
pub struct Body {
    /// World-space location; the simulation uses `x`/`y` and keeps `z` zero.
    pub position: Vec3,
    /// Current linear velocity, units per second.
    pub velocity: Vec3,
    /// Caller-supplied constant acceleration term, added every tick before
    /// the computed forces.
    pub external_acceleration: Vec3,
    /// Strictly positive mass.
    pub mass: i64,
    /// Strictly positive radius, used for collision and boundary geometry.
    pub radius: i64,
    /// Once true the body is frozen: no force, collision or boundary
    /// handling applies to it, and it never despawns.
    pub fixed: bool,
}

/// The stock body: at the origin, at rest, unit mass, radius 10, free.
pub open spec fn default_body() -> Body {
    Body {
        position: Vec3 { x: 0, y: 0, z: 0 },
        velocity: Vec3 { x: 0, y: 0, z: 0 },
        external_acceleration: Vec3 { x: 0, y: 0, z: 0 },
        mass: 1000,
        radius: 10_000,
        fixed: false,
    }
}

impl Default for Body {
    /// The stock body: at the origin, at rest, unit mass, radius 10, free.
    fn default() -> (b: Body)
        ensures
            b == default_body(),
            b.valid(),
    {
        Body {
            position: Vec3 { x: 0, y: 0, z: 0 },
            velocity: Vec3 { x: 0, y: 0, z: 0 },
            external_acceleration: Vec3 { x: 0, y: 0, z: 0 },
            mass: 1000,
            radius: 10_000,
            fixed: false,
        }
    }
}

impl Body {
    /// A live body has a strictly positive mass and radius (both are used
    /// as divisors and collision lengths every tick).
    pub open spec fn valid(self) -> bool {
        self.mass > 0 && self.radius > 0
    }

    /// A new free body at `position`, with the given velocity, external
    /// acceleration, mass and radius.
    pub fn new(
        position: Vec3,
        velocity: Vec3,
        external_acceleration: Vec3,
        mass: i64,
        radius: i64,
    ) -> (b: Body)
        requires
            mass > 0,
            radius > 0,
        ensures
            b == (Body { position, velocity, external_acceleration, mass, radius, fixed: false }),
            b.valid(),
    {
        Body { position, velocity, external_acceleration, mass, radius, fixed: false }
    }
}

} // verus!
