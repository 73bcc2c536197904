//! Turning around.

use crate::fighter::state::dash::dash_input;
use crate::fighter::animation::AnimKind;
use crate::fighter::state::ground::{
    apply_standing_step, grounded_moved, standing_step_ok, standing_vx, GroundedStateCommon,
};
use crate::fighter::state::jump::jump_input;
use crate::fighter::state::wait::wait_input;
use crate::fighter::state::walk::walk_input;
use crate::fighter::state::{
    animation_finished, animation_known, first_some, stick_x, with_animation, FighterState,
    FighterStateContext,
};
use crate::fighter::{facing_sign, reversed};
use crate::math::scalar::q16_signum;
use vstd::prelude::*;

verus! {

#[derive(Clone, Copy, PartialEq, Eq, Structural, Debug, Hash)]
pub struct TurnState {
    pub grounded_common: GroundedStateCommon,
}

/// The stick has been held away from the facing direction for longer than
/// a smash input takes: the fighter turns.
pub open spec fn turn_input(c: &FighterStateContext, g: GroundedStateCommon) -> Option<FighterState> {
    if stick_x(c) != 0 && q16_signum(stick_x(c)) != facing_sign(c.facing_direction)
        && c.input.frames_in_x_flick_deadzone > c.game_settings.input_common.smash_input_frame_threshold {
        Some(FighterState::Turn(TurnState { grounded_common: g }))
    } else {
        None
    }
}

/// A jump at any time; once the turn animation is over, a dash, a walk or
/// standing still.
pub open spec fn turn_interrupt(s: TurnState, c: &FighterStateContext) -> Option<FighterState> {
    let g = s.grounded_common;
    if jump_input(c, g) is Some {
        jump_input(c, g)
    } else if animation_finished(c) {
        first_some(dash_input(c, g), first_some(walk_input(c, g), wait_input(c, g)))
    } else {
        None
    }
}

impl TurnState {
    pub fn check_interrupt(&self, ctx: &FighterStateContext) -> (r: Option<FighterState>)
        requires
            ctx.input.current_frame.movement.x.bits != i32::MIN,
            jump_input(ctx, self.grounded_common) is None ==> animation_known(ctx),
        ensures
            r == turn_interrupt(*self, ctx),
    {
        if let Some(state) = crate::fighter::state::jump::check_input(ctx, &self.grounded_common) {
            Some(state)
        } else if ctx.is_current_animation_finished() {
            if let Some(state) = crate::fighter::state::dash::check_input(ctx, &self.grounded_common) {
                Some(state)
            } else if let Some(state) = crate::fighter::state::walk::check_input(ctx, &self.grounded_common) {
                Some(state)
            } else if let Some(state) = crate::fighter::state::wait::check_input(ctx, &self.grounded_common) {
                Some(state)
            } else {
                None
            }
        } else {
            None
        }
    }
}

/// Enters `Turn` when the stick has been held the other way long enough.
pub fn check_input(ctx: &FighterStateContext, grounded_common: &GroundedStateCommon) -> (r: Option<FighterState>)
    ensures
        r == turn_input(ctx, *grounded_common),
{
    let input_frame = ctx.input.get_last_frame();
    let threshold = ctx.game_settings.input_common.smash_input_frame_threshold;
    if !input_frame.movement.x.is_zero() && input_frame.movement.x.signum().bits != ctx.facing_direction.to_sign().bits
        && ctx.input.get_frames_in_smash_move_deadzone() > threshold {
        return Some(FighterState::Turn(TurnState { grounded_common: *grounded_common }));
    }
    None
}


impl TurnState {
    /// The turn animation starts and the fighter faces the other way.
    pub fn on_enter(&mut self, ctx: &mut FighterStateContext)
        ensures
            *final(self) == *old(self),
            *final(ctx) == (FighterStateContext {
                facing_direction: reversed(old(ctx).facing_direction),
                ..with_animation(*old(ctx), AnimKind::Turn, false)
            }),
    {
        ctx.play_animation(AnimKind::Turn, false);
        ctx.facing_direction = ctx.facing_direction.reverse();
    }

    /// Friction brakes the fighter.
    pub fn update(&mut self, ctx: &mut FighterStateContext)
        requires
            standing_step_ok(old(ctx)),
        ensures
            *final(self) == *old(self),
            *final(ctx) == grounded_moved(*old(ctx), standing_vx(old(ctx))),
    {
        apply_standing_step(ctx);
    }
}

impl TurnState {
    /// The fighter falls where it has left the floor.
    pub fn check_collision_interrupt(
        &mut self,
        ctx: &mut FighterStateContext,
        contacts: &crate::fighter::collision::StageContacts,
    ) -> (r: Option<FighterState>)
        requires
            crate::fighter::state::ground::grounded_collision_ok(old(ctx), contacts.floor_candidates@),
        ensures
            r == crate::fighter::state::ground::left_floor(old(ctx), contacts.floor_candidates@),
            final(self).grounded_common == crate::fighter::state::ground::floor_after(
                old(self).grounded_common,
                old(ctx),
                contacts.floor_candidates@,
            ),
            *final(ctx) == crate::fighter::state::ground::context_after_floor(*old(ctx), contacts.floor_candidates@),
    {
        crate::fighter::state::ground::grounded_collision_interrupt(
            ctx,
            &mut self.grounded_common,
            &contacts.floor_candidates,
            false,
        )
    }
}

} // verus!
