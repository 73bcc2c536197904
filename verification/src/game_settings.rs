//! Global tuning shared by every fighter and every player.

use crate::math::scalar::FGi32;
use vstd::prelude::*;

verus! {

/// Movement tuning common to every fighter.
#[derive(Clone, Copy, PartialEq, Eq, Structural, Debug)]
pub struct FighterSettingsCommon {
    pub walk_speed_ease: FGi32,
    pub ground_max_horizontal_velocity: FGi32,
    pub ground_friction_over_walk_speed_multiplier: FGi32,
}

/// Input tuning common to every player.
#[derive(Clone, Copy, PartialEq, Eq, Structural, Debug)]
pub struct InputSettingsCommon {
    pub stick_deadzone: FGi32,
    pub trigger_deadzone: FGi32,
    pub smash_input_reset_axis_threshold: FGi32,
    pub smash_input_axis_threshold: FGi32,
    pub run_stick_threshold: FGi32,
    pub smash_input_frame_threshold: u8,
    pub input_buffer_size: u8,
}

/// The game's settings asset.
#[derive(Clone, Debug)]
pub struct GameSettings {
    pub fighter_common: FighterSettingsCommon,
    pub input_common: InputSettingsCommon,
    pub fighter_manifest_paths: Vec<String>,
    pub stage_manifest_paths: Vec<String>,
}

/// Debug drawing switches.
#[derive(Clone, Copy, PartialEq, Eq, Structural, Debug)]
pub struct DebugSettings {
    pub show_attack_hitboxes: bool,
    pub show_stage_lines: bool,
    pub show_ecb: bool,
    pub debug_gizmos_draw_in_front: bool,
}

impl DebugSettings {
    /// Every switch off.
    pub fn new() -> (r: DebugSettings)
        ensures
            !r.show_attack_hitboxes,
            !r.show_stage_lines,
            !r.show_ecb,
            !r.debug_gizmos_draw_in_front,
    {
        DebugSettings {
            show_attack_hitboxes: false,
            show_stage_lines: false,
            show_ecb: false,
            debug_gizmos_draw_in_front: false,
        }
    }
}

} // verus!
