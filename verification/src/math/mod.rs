//! Fixed-point scalars, vectors and segments used by the simulation.

pub mod scalar;
pub mod vec;
pub mod vec3;
pub mod segment;
pub mod trig;
