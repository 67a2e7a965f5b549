//! A verified 2D ball-physics core: a fixed set of circular bodies under
//! gravity, mutual pairwise attraction, linear friction, window-edge bounces
//! and inter-body collisions, stepped once per simulation tick.
//!
//! All scalars are fixed-point `i64` values in thousandths of a unit
//! (see [`fixed`]); the host converts to and from its own number format
//! at the boundary.

pub mod fixed;
pub mod vec3;
pub mod body;
pub mod config;
pub mod step;
pub mod controller;
pub mod laws;
