//! Running.

use crate::fighter::animation::AnimKind;
use crate::fighter::attributes::{accel_and_target, accel_and_target_fits};
use crate::fighter::state::ground::{apply_moving_step, grounded_moved, moving_step_ok, moving_vx, GroundedStateCommon};
use crate::fighter::state::jump::jump_input;
use crate::fighter::state::wait::wait_input;
use crate::fighter::state::walk::walk_input;
use crate::fighter::state::{first_some, stick_x, with_animation, FighterState, FighterStateContext};
use crate::math::scalar::{abs_int, FGi32};
use vstd::prelude::*;

verus! {

#[derive(Clone, Copy, PartialEq, Eq, Structural, Debug, Hash)]
pub struct RunState {
    pub grounded_common: GroundedStateCommon,
}

/// The stick is past the run threshold: the fighter runs.
pub open spec fn run_input(c: &FighterStateContext, g: GroundedStateCommon) -> Option<FighterState> {
    if abs_int(stick_x(c)) >= c.game_settings.input_common.run_stick_threshold.bits {
        Some(FighterState::Run(RunState { grounded_common: g }))
    } else {
        None
    }
}

/// A jump; otherwise, once the stick drops below the run threshold, a walk
/// or standing still.
pub open spec fn run_interrupt(s: RunState, c: &FighterStateContext) -> Option<FighterState> {
    let g = s.grounded_common;
    if jump_input(c, g) is Some {
        jump_input(c, g)
    } else if abs_int(stick_x(c)) >= c.game_settings.input_common.run_stick_threshold.bits {
        None
    } else {
        first_some(walk_input(c, g), wait_input(c, g))
    }
}

impl RunState {
    pub fn check_interrupt(&self, ctx: &FighterStateContext) -> (r: Option<FighterState>)
        requires
            ctx.input.current_frame.movement.x.bits != i32::MIN,
        ensures
            r == run_interrupt(*self, ctx),
    {
        if let Some(state) = crate::fighter::state::jump::check_input(ctx, &self.grounded_common) {
            return Some(state);
        }
        let input_frame = ctx.input.get_last_frame();
        if input_frame.movement.x.abs().bits >= ctx.game_settings.input_common.run_stick_threshold.bits {
            None
        } else {
            match crate::fighter::state::walk::check_input(ctx, &self.grounded_common) {
                Some(s) => Some(s),
                None => crate::fighter::state::wait::check_input(ctx, &self.grounded_common),
            }
        }
    }
}

/// Enters `Run` when the stick is past the run threshold.
pub fn check_input(ctx: &FighterStateContext, ground_state_common: &GroundedStateCommon) -> (r: Option<FighterState>)
    requires
        ctx.input.current_frame.movement.x.bits != i32::MIN,
    ensures
        r == run_input(ctx, *ground_state_common),
{
    let input_frame = ctx.input.get_last_frame();
    if input_frame.movement.x.abs().bits >= ctx.game_settings.input_common.run_stick_threshold.bits {
        return Some(FighterState::Run(RunState { grounded_common: *ground_state_common }));
    }
    None
}


/// The run's acceleration and target velocity.
pub open spec fn run_accel(c: &FighterStateContext) -> (int, int) {
    accel_and_target(
        stick_x(c),
        65536,
        c.attributes.stick_dash_accel.bits as int,
        c.attributes.base_dash_accel.bits as int,
        c.attributes.max_dash_vel.bits as int,
    )
}

pub open spec fn run_update_ok(c: &FighterStateContext) -> bool {
    &&& accel_and_target_fits(
        stick_x(c),
        65536,
        c.attributes.stick_dash_accel.bits as int,
        c.attributes.base_dash_accel.bits as int,
        c.attributes.max_dash_vel.bits as int,
    )
    &&& moving_step_ok(c, run_accel(c).0, run_accel(c).1)
}

impl RunState {
    /// The run animation starts, repeating.
    pub fn on_enter(&mut self, ctx: &mut FighterStateContext)
        ensures
            *final(self) == *old(self),
            *final(ctx) == with_animation(*old(ctx), AnimKind::Run, true),
    {
        ctx.play_animation(AnimKind::Run, true);
    }

    /// The stick accelerates the fighter toward the run speed.
    pub fn update(&mut self, ctx: &mut FighterStateContext)
        requires
            run_update_ok(old(ctx)),
        ensures
            *final(self) == *old(self),
            *final(ctx) == grounded_moved(*old(ctx), moving_vx(old(ctx), run_accel(old(ctx)).0, run_accel(old(ctx)).1)),
    {
        let last_frame = ctx.input.get_last_frame();
        let (accel, target_vel) = ctx.attributes.get_accel_and_target_dashrun(&last_frame, FGi32::one());
        apply_moving_step(ctx, accel, target_vel);
    }
}

impl RunState {
    /// The fighter falls where it has left the floor.
    pub fn check_collision_interrupt(
        &mut self,
        ctx: &mut FighterStateContext,
        contacts: &crate::fighter::collision::StageContacts,
    ) -> (r: Option<FighterState>)
        requires
            crate::fighter::state::ground::grounded_collision_ok(old(ctx), contacts.floor_candidates@),
        ensures
            r == crate::fighter::state::ground::left_floor(old(ctx), contacts.floor_candidates@),
            final(self).grounded_common == crate::fighter::state::ground::floor_after(
                old(self).grounded_common,
                old(ctx),
                contacts.floor_candidates@,
            ),
            *final(ctx) == crate::fighter::state::ground::context_after_floor(*old(ctx), contacts.floor_candidates@),
    {
        crate::fighter::state::ground::grounded_collision_interrupt(
            ctx,
            &mut self.grounded_common,
            &contacts.floor_candidates,
            false,
        )
    }
}

} // verus!
