//! An orbital simulation: point bodies on Keplerian orbits about a fixed
//! central mass, with collision detection and momentum-conserving merges.
//!
//! Every scalar of the simulation is a signed fixed-point number with 40
//! fractional bits (see [`fx`]), so the whole numeric core is ordinary
//! integer arithmetic and is verified end to end.

pub mod fx;
pub mod kepler;
pub mod laws;
pub mod merge;
pub mod particle;
pub mod rotation;
pub mod system;
pub mod trig;
pub mod vec3;
