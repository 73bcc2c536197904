//! Airborne motion shared by every airborne state.

use crate::fighter::attributes::FighterAttributes;
use crate::fighter::motion::{FighterPreviousTranslation, FighterTranslation, FighterVelocity};
use crate::fighter::state::ground::{clamp_accel, clamped_accel, clamped_accel_fits};
use crate::input::buffer::FighterInput;
use crate::math::scalar::{abs_int, i32_fits, q16_mul, q16_signum, FGi32};
use crate::math::vec::{vec2_add, vec2_add_fits};
use vstd::prelude::*;

verus! {

/// Vertical velocity after gravity: pulled down by `gravity`, never below
/// minus the terminal velocity.
pub open spec fn gravity_step(vy: int, gravity: int, terminal: int) -> int {
    if vy - gravity >= -terminal {
        vy - gravity
    } else {
        -terminal
    }
}

/// One frame of gravity.
pub fn integrate_gravity(velocity: &mut FighterVelocity, attributes: &FighterAttributes)
    requires
        i32_fits(old(velocity).0.y.bits - attributes.gravity.bits),
        attributes.terminal_velocity.bits != i32::MIN,
    ensures
        final(velocity).0.x == old(velocity).0.x,
        final(velocity).0.y.bits == gravity_step(
            old(velocity).0.y.bits as int,
            attributes.gravity.bits as int,
            attributes.terminal_velocity.bits as int,
        ),
{
    velocity.0.y = velocity.0.y.sub(attributes.gravity);
    velocity.0.y = velocity.0.y.max(attributes.terminal_velocity.neg());
}

/// Horizontal velocity after air drift. With the stick centred, air friction
/// brings the velocity toward zero, stopping it outright when it is smaller
/// than the friction. Otherwise the stick accelerates the fighter toward the
/// air speed limit on its side, clamped as on the ground.
pub open spec fn air_drift(vx: int, stick: int, a: FighterAttributes) -> int {
    let f = a.air_friction.bits as int;
    let vmax = a.max_air_horizontal_velocity.bits as int;
    if stick == 0 {
        if abs_int(vx) < f {
            0
        } else {
            vx + q16_mul(-q16_signum(vx), f)
        }
    } else {
        let target = q16_mul(q16_signum(stick), vmax);
        let accel = q16_mul(q16_signum(stick), a.air_acceleration_base.bits as int)
            + q16_mul(stick, a.air_acceleration_stick.bits as int);
        vx + clamped_accel(accel, target, vx, f, vmax)
    }
}

pub open spec fn air_drift_fits(vx: int, stick: int, a: FighterAttributes) -> bool {
    let f = a.air_friction.bits as int;
    let vmax = a.max_air_horizontal_velocity.bits as int;
    if stick == 0 {
        vx != i32::MIN as int && (abs_int(vx) >= f ==> i32_fits(q16_mul(-q16_signum(vx), f)) && i32_fits(vx + q16_mul(-q16_signum(vx), f)))
    } else {
        let target = q16_mul(q16_signum(stick), vmax);
        let base = q16_mul(q16_signum(stick), a.air_acceleration_base.bits as int);
        let from_stick = q16_mul(stick, a.air_acceleration_stick.bits as int);
        &&& i32_fits(target)
        &&& i32_fits(base)
        &&& i32_fits(from_stick)
        &&& i32_fits(base + from_stick)
        &&& clamped_accel_fits(base + from_stick, target, vx, f, vmax)
        &&& i32_fits(vx + clamped_accel(base + from_stick, target, vx, f, vmax))
    }
}

/// One frame of air drift from the current stick.
pub fn apply_air_drift(velocity: &mut FighterVelocity, attribs: &FighterAttributes, input: &FighterInput)
    requires
        air_drift_fits(old(velocity).0.x.bits as int, input.current_frame.movement.x.bits as int, *attribs),
    ensures
        final(velocity).0.y == old(velocity).0.y,
        final(velocity).0.x.bits == air_drift(
            old(velocity).0.x.bits as int,
            input.current_frame.movement.x.bits as int,
            *attribs,
        ),
{
    let stick = input.get_last_frame().movement.x;
    if stick.is_zero() {
        if velocity.0.x.abs().bits < attribs.air_friction.bits {
            velocity.0.x = FGi32::zero();
        } else {
            let velocity_sign = velocity.0.x.signum();
            proof {
                let s = q16_signum(velocity.0.x.bits as int);
                assert(q16_mul(-s, 65536) == -s);
            }
            velocity.0.x = velocity.0.x.add(velocity_sign.neg().mul(attribs.air_friction));
        }
    } else {
        let sign = stick.signum();
        let target_velocity = sign.mul(attribs.max_air_horizontal_velocity);
        let acceleration = sign.mul(attribs.air_acceleration_base);
        let acceleration = acceleration.add(stick.mul(attribs.air_acceleration_stick));
        let acceleration = clamp_accel(
            acceleration,
            target_velocity,
            velocity.0.x,
            attribs.air_friction,
            attribs.max_air_horizontal_velocity,
        );
        velocity.0.x = velocity.0.x.add(acceleration);
    }
}

/// One frame of airborne motion: the position moves by the velocity and the
/// old position is kept as the previous one.
pub fn apply_air_motion(
    velocity: &FighterVelocity,
    translation: &mut FighterTranslation,
    prev_translation: &mut FighterPreviousTranslation,
)
    requires
        vec2_add_fits(old(translation).0, velocity.0),
    ensures
        final(prev_translation).0 == old(translation).0,
        final(translation).0 == vec2_add(old(translation).0, velocity.0),
{
    prev_translation.0 = translation.0;
    translation.0 = translation.0.add(velocity.0);
}


/// Gravity never pulls a fighter faster than its terminal velocity, and
/// above that speed it adds exactly the gravity.
pub proof fn gravity_respects_terminal_velocity(vy: int, gravity: int, terminal: int)
    ensures
        gravity_step(vy, gravity, terminal) >= -terminal,
        vy - gravity >= -terminal ==> gravity_step(vy, gravity, terminal) == vy - gravity,
{
}

/// With the stick released, air friction brings the horizontal speed toward
/// zero by exactly the air friction each frame, stopping it outright where
/// it is smaller; so a moving fighter always slows while the friction is
/// positive.
pub proof fn released_stick_slows_by_air_friction(vx: int, a: FighterAttributes)
    requires
        a.air_friction.bits >= 0,
    ensures
        abs_int(vx) < a.air_friction.bits ==> air_drift(vx, 0, a) == 0,
        abs_int(vx) >= a.air_friction.bits && vx > 0 ==> air_drift(vx, 0, a) == vx - a.air_friction.bits,
        abs_int(vx) >= a.air_friction.bits && vx < 0 ==> air_drift(vx, 0, a) == vx + a.air_friction.bits,
        vx != 0 && a.air_friction.bits > 0 ==> abs_int(air_drift(vx, 0, a)) < abs_int(vx),
{
    let f = a.air_friction.bits as int;
    assert((-65536) * f / 65536 == -f) by (nonlinear_arith);
    assert(65536 * f / 65536 == f) by (nonlinear_arith);
    assert(0 * f / 65536 == 0) by (nonlinear_arith);
}

} // verus!
