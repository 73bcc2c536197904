//! Falling.

use crate::fighter::motion::{FighterPreviousTranslation, FighterTranslation, FighterVelocity};
use crate::fighter::state::air::{apply_air_motion, gravity_step, integrate_gravity};
use crate::fighter::state::{stick_x, FighterState, FighterStateContext};
use crate::math::vec::{vec2_add, vec2_add_fits, FGVec2};
use crate::math::scalar::{abs_int, i32_fits, FGi32};
use vstd::prelude::*;

verus! {

#[derive(Clone, Copy, PartialEq, Eq, Structural, Debug, Hash)]
pub struct FallState;

impl FallState {
    /// Falling ends only on landing.
    pub fn check_interrupt(&self, ctx: &FighterStateContext) -> (r: Option<FighterState>)
        ensures
            r is None,
    {
        None
    }
}

/// The stick is inside the deadzone: the fighter falls.
pub open spec fn fall_input(c: &FighterStateContext) -> Option<FighterState> {
    if abs_int(stick_x(c)) < c.game_settings.input_common.stick_deadzone.bits {
        Some(FighterState::Fall(FallState))
    } else {
        None
    }
}

/// Enters `Fall` when the stick is inside the deadzone.
pub fn check_input(ctx: &FighterStateContext) -> (r: Option<FighterState>)
    requires
        ctx.input.current_frame.movement.x.bits != i32::MIN,
    ensures
        r == fall_input(ctx),
{
    let input_frame = ctx.input.get_last_frame();
    if input_frame.movement.x.abs().bits < ctx.game_settings.input_common.stick_deadzone.bits {
        return Some(FighterState::Fall(FallState));
    }
    None
}


/// `c` after one frame of airborne motion at velocity `v`.
pub open spec fn air_moved<'a>(c: FighterStateContext<'a>, v: FGVec2) -> FighterStateContext<'a> {
    FighterStateContext {
        velocity: FighterVelocity(v),
        prev_translation: FighterPreviousTranslation(c.translation.0),
        translation: FighterTranslation(vec2_add(c.translation.0, v)),
        ..c
    }
}

/// The velocity after gravity.
pub open spec fn fallen_velocity(c: &FighterStateContext) -> FGVec2 {
    FGVec2 {
        x: c.velocity.0.x,
        y: FGi32 {
            bits: gravity_step(
                c.velocity.0.y.bits as int,
                c.attributes.gravity.bits as int,
                c.attributes.terminal_velocity.bits as int,
            ) as i32,
        },
    }
}

pub open spec fn fall_update_ok(c: &FighterStateContext) -> bool {
    &&& i32_fits(c.velocity.0.y.bits - c.attributes.gravity.bits)
    &&& c.attributes.terminal_velocity.bits != i32::MIN
    &&& vec2_add_fits(c.translation.0, fallen_velocity(c))
}

impl FallState {
    pub fn on_enter(&mut self, ctx: &mut FighterStateContext)
        ensures
            *final(self) == *old(self),
            *final(ctx) == *old(ctx),
    {
    }

    /// Gravity pulls the fighter down, then it moves.
    pub fn update(&mut self, ctx: &mut FighterStateContext)
        requires
            fall_update_ok(old(ctx)),
        ensures
            *final(self) == *old(self),
            *final(ctx) == air_moved(*old(ctx), fallen_velocity(old(ctx))),
    {
        integrate_gravity(&mut ctx.velocity, ctx.attributes);
        apply_air_motion(&ctx.velocity, &mut ctx.translation, &mut ctx.prev_translation);
    }
}

impl FallState {
    /// The fighter lands where its path met the stage.
    pub fn check_collision_interrupt(
        &mut self,
        ctx: &mut FighterStateContext,
        contacts: &crate::fighter::collision::StageContacts,
    ) -> (r: Option<FighterState>)
        requires
            crate::fighter::collision::hits_measurable(contacts.ray_hits@, old(ctx).translation.0),
        ensures
            *final(self) == *old(self),
            r == crate::fighter::collision::air_landing(old(ctx), contacts.ray_hits@),
            *final(ctx) == crate::fighter::collision::context_after_landing(*old(ctx), contacts.ray_hits@),
    {
        crate::fighter::collision::airborne_collision_interrupt(ctx, &contacts.ray_hits)
    }
}

} // verus!
