//! Per-fighter tuning values.

use crate::input::frame::FighterInputFrame;
use crate::math::scalar::{i32_fits, q16_mul, q16_signum, FGi32};
use vstd::prelude::*;

verus! {

/// Per-fighter tuning values. These are character data, not global rules.
#[derive(Clone, Copy, PartialEq, Eq, Structural, Debug)]
pub struct FighterAttributes {
    pub base_walk_accel: FGi32,
    pub stick_walk_accel: FGi32,
    pub max_walk_vel: FGi32,
    pub dash_acceleration_duration: u32,
    pub dash_duration: u32,
    pub dash_initial_velocity: FGi32,
    pub base_dash_accel: FGi32,
    pub stick_dash_accel: FGi32,
    pub max_dash_vel: FGi32,
    pub jumpsquat_duration: u32,
    pub short_hop_vertical_velocity: FGi32,
    pub full_jump_vertical_velocity: FGi32,
    pub jump_horizontal_velocity: FGi32,
    pub landing_iasa: u32,
    pub landing_duration: u32,
    pub air_acceleration_base: FGi32,
    pub air_acceleration_stick: FGi32,
    pub max_air_horizontal_velocity: FGi32,
    pub ground_friction: FGi32,
    pub terminal_velocity: FGi32,
    pub gravity: FGi32,
    pub air_friction: FGi32,
    pub air_dodge_duration: u32,
    pub air_dodge_velocity: FGi32,
    pub air_dodge_decay: FGi32,
    pub air_jump_multiplier: FGi32,
    pub air_jump_horizontal_velocity: FGi32,
    pub weight: FGi32,
}

/// Acceleration `stick * stick_accel + sign * base_accel` and target
/// velocity `stick * max_vel`.
pub open spec fn accel_and_target(stick: int, sign: int, stick_accel: int, base_accel: int, max_vel: int) -> (int, int) {
    (q16_mul(stick, stick_accel) + q16_mul(sign, base_accel), q16_mul(stick, max_vel))
}

pub open spec fn accel_and_target_fits(stick: int, sign: int, stick_accel: int, base_accel: int, max_vel: int) -> bool {
    &&& i32_fits(q16_mul(stick, stick_accel))
    &&& i32_fits(q16_mul(sign, base_accel))
    &&& i32_fits(q16_mul(stick, stick_accel) + q16_mul(sign, base_accel))
    &&& i32_fits(q16_mul(stick, max_vel))
}

impl FighterAttributes {
    /// Dash and run: acceleration from the stick plus the base acceleration
    /// toward `direction`, and a target velocity from the stick.
    pub fn get_accel_and_target_dashrun(&self, input: &FighterInputFrame, direction: FGi32) -> (r: (FGi32, FGi32))
        requires
            accel_and_target_fits(
                input.movement.x.bits as int,
                direction.bits as int,
                self.stick_dash_accel.bits as int,
                self.base_dash_accel.bits as int,
                self.max_dash_vel.bits as int,
            ),
        ensures
            (r.0.bits as int, r.1.bits as int) == accel_and_target(
                input.movement.x.bits as int,
                direction.bits as int,
                self.stick_dash_accel.bits as int,
                self.base_dash_accel.bits as int,
                self.max_dash_vel.bits as int,
            ),
    {
        let accel = input.movement.x.mul(self.stick_dash_accel);
        let accel = accel.add(direction.mul(self.base_dash_accel));
        let target_vel = input.movement.x.mul(self.max_dash_vel);
        (accel, target_vel)
    }

    /// Walk: acceleration from the stick plus the base acceleration toward
    /// the stick's side, and a target velocity from the stick.
    pub fn get_accel_and_target_walk(&self, input: &FighterInputFrame) -> (r: (FGi32, FGi32))
        requires
            accel_and_target_fits(
                input.movement.x.bits as int,
                q16_signum(input.movement.x.bits as int),
                self.stick_walk_accel.bits as int,
                self.base_walk_accel.bits as int,
                self.max_walk_vel.bits as int,
            ),
        ensures
            (r.0.bits as int, r.1.bits as int) == accel_and_target(
                input.movement.x.bits as int,
                q16_signum(input.movement.x.bits as int),
                self.stick_walk_accel.bits as int,
                self.base_walk_accel.bits as int,
                self.max_walk_vel.bits as int,
            ),
    {
        let accel = input.movement.x.mul(self.stick_walk_accel);
        let accel = accel.add(input.movement.x.signum().mul(self.base_walk_accel));
        let target_vel = input.movement.x.mul(self.max_walk_vel);
        (accel, target_vel)
    }
}

} // verus!
