//! Host-configurable constants of the simulation: world and window geometry,
//! gravity, friction, the rest-detection thresholds, and the collision-pass
//! toggle. All scalar fields are fixed-point (thousandths of a unit).

use vstd::prelude::*;

verus! {

use crate::fixed::{FP, FP_HALF};

/// The constants a host hands the integrator, fixed for the life of a run.
#[derive(Clone, Copy, PartialEq, Eq, Structural, Debug)]
pub struct Config {
    /// Width of the universe box in render units; a body whose scaled
    /// position leaves the box despawns.
    pub universe_width: i64,
    /// Height of the universe box in render units.
    pub universe_height: i64,
    /// Width of the window in render units; bodies bounce off its edges.
    pub window_width: i64,
    /// Height of the window in render units; its bottom edge is the floor
    /// used by rest detection.
    pub window_height: i64,
    /// World-to-render unit ratio, strictly positive.
    pub scale: i64,
    /// Gravitational acceleration, negative (pointing down the `y` axis).
    pub gravity: i64,
    /// Linear drag coefficient applied against the current velocity.
    pub friction: i64,
    /// A body slower than this is a candidate for rest detection.
    pub rest_speed_threshold: i64,
    /// How close to the floor a slow body must sit to be put to rest.
    pub rest_floor_epsilon: i64,
    /// Whether the inter-body collision pass runs at all.
    pub collisions_enabled: bool,
}

impl Config {
    /// Geometry a configuration must satisfy: a positive world-to-render
    /// ratio (it is a divisor) and non-negative box and window extents.
    pub open spec fn valid(self) -> bool {
        &&& self.scale > 0
        &&& self.universe_width >= 0
        &&& self.universe_height >= 0
        &&& self.window_width >= 0
        &&& self.window_height >= 0
    }

    /// The stock configuration: a 200 by 200 unit universe, an 800 by 400
    /// render-unit window at 2 render units per meter, gravity -9.81,
    /// friction 0.5, rest detection below speed 1 within 1 unit of the
    /// floor, and the collision pass enabled.
    pub fn standard() -> (c: Config)
        ensures
            c == standard_config(),
            c.valid(),
    {
        Config {
            universe_width: 200 * FP,
            universe_height: 200 * FP,
            window_width: 800 * FP,
            window_height: 400 * FP,
            scale: 2 * FP,
            gravity: -9810,
            friction: FP_HALF,
            rest_speed_threshold: FP,
            rest_floor_epsilon: FP,
            collisions_enabled: true,
        }
    }
}

/// The value returned by [`Config::standard`].
pub open spec fn standard_config() -> Config {
    Config {
        universe_width: (200 * FP) as i64,
        universe_height: (200 * FP) as i64,
        window_width: (800 * FP) as i64,
        window_height: (400 * FP) as i64,
        scale: (2 * FP) as i64,
        gravity: -9810i64,
        friction: FP_HALF,
        rest_speed_threshold: FP,
        rest_floor_epsilon: FP,
        collisions_enabled: true,
    }
}

} // verus!
