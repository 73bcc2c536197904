//! Deterministic gameplay logic of a platform fighter: Q16.16 fixed-point
//! math, fighter geometry, the per-frame input buffer, the fighter state
//! machine's decisions, baked animation sampling and the debug palette.

pub mod debug_tools;
pub mod fighter;
pub mod game_settings;
pub mod input;
pub mod keyed;
pub mod match_loading;
pub mod math;

use vstd::prelude::*;

verus! {

} // verus!
