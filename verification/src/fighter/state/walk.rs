//! Walking.

use crate::fighter::state::dash::dash_input;
use crate::fighter::attributes::{accel_and_target, accel_and_target_fits};
use crate::fighter::state::ground::{apply_moving_step, grounded_moved, moving_step_ok, moving_vx, GroundedStateCommon};
use crate::fighter::state::wait::wait_input;
use crate::fighter::state::{first_some, stick_x, FighterState, FighterStateContext};
use crate::math::scalar::{abs_int, q16_signum};
use vstd::prelude::*;

verus! {

#[derive(Clone, Copy, PartialEq, Eq, Structural, Debug, Hash)]
pub struct WalkState {
    pub grounded_common: GroundedStateCommon,
}

/// The stick is out of the deadzone: the fighter walks.
pub open spec fn walk_input(c: &FighterStateContext, g: GroundedStateCommon) -> Option<FighterState> {
    if abs_int(stick_x(c)) >= c.game_settings.input_common.stick_deadzone.bits {
        Some(FighterState::Walk(WalkState { grounded_common: g }))
    } else {
        None
    }
}

/// Standing still, or a dash.
pub open spec fn walk_interrupt(s: WalkState, c: &FighterStateContext) -> Option<FighterState> {
    first_some(wait_input(c, s.grounded_common), dash_input(c, s.grounded_common))
}

impl WalkState {
    pub fn check_interrupt(&self, ctx: &FighterStateContext) -> (r: Option<FighterState>)
        requires
            ctx.input.current_frame.movement.x.bits != i32::MIN,
        ensures
            r == walk_interrupt(*self, ctx),
    {
        match crate::fighter::state::wait::check_input(ctx, &self.grounded_common) {
            Some(s) => Some(s),
            None => crate::fighter::state::dash::check_input(ctx, &self.grounded_common),
        }
    }
}

/// Enters `Walk` when the stick is out of the deadzone.
pub fn check_input(ctx: &FighterStateContext, ground_state_common: &GroundedStateCommon) -> (r: Option<FighterState>)
    requires
        ctx.input.current_frame.movement.x.bits != i32::MIN,
    ensures
        r == walk_input(ctx, *ground_state_common),
{
    let input_frame = ctx.input.get_last_frame();
    if input_frame.movement.x.abs().bits >= ctx.game_settings.input_common.stick_deadzone.bits {
        return Some(FighterState::Walk(WalkState { grounded_common: *ground_state_common }));
    }
    None
}


/// The walk's acceleration and target velocity.
pub open spec fn walk_accel(c: &FighterStateContext) -> (int, int) {
    accel_and_target(
        stick_x(c),
        q16_signum(stick_x(c)),
        c.attributes.stick_walk_accel.bits as int,
        c.attributes.base_walk_accel.bits as int,
        c.attributes.max_walk_vel.bits as int,
    )
}

pub open spec fn walk_update_ok(c: &FighterStateContext) -> bool {
    &&& accel_and_target_fits(
        stick_x(c),
        q16_signum(stick_x(c)),
        c.attributes.stick_walk_accel.bits as int,
        c.attributes.base_walk_accel.bits as int,
        c.attributes.max_walk_vel.bits as int,
    )
    &&& moving_step_ok(c, walk_accel(c).0, walk_accel(c).1)
}

impl WalkState {
    pub fn on_enter(&mut self, ctx: &mut FighterStateContext)
        ensures
            *final(self) == *old(self),
            *final(ctx) == *old(ctx),
    {
    }

    /// The stick accelerates the fighter toward its walking speed.
    pub fn update(&mut self, ctx: &mut FighterStateContext)
        requires
            walk_update_ok(old(ctx)),
        ensures
            *final(self) == *old(self),
            *final(ctx) == grounded_moved(*old(ctx), moving_vx(old(ctx), walk_accel(old(ctx)).0, walk_accel(old(ctx)).1)),
    {
        let last_frame = ctx.input.get_last_frame();
        let (accel, target_vel) = ctx.attributes.get_accel_and_target_walk(&last_frame);
        apply_moving_step(ctx, accel, target_vel);
    }
}

impl WalkState {
    /// The fighter falls where it has left the floor.
    pub fn check_collision_interrupt(
        &mut self,
        ctx: &mut FighterStateContext,
        contacts: &crate::fighter::collision::StageContacts,
    ) -> (r: Option<FighterState>)
        requires
            crate::fighter::state::ground::grounded_collision_ok(old(ctx), contacts.floor_candidates@),
        ensures
            r == crate::fighter::state::ground::left_floor(old(ctx), contacts.floor_candidates@),
            final(self).grounded_common == crate::fighter::state::ground::floor_after(
                old(self).grounded_common,
                old(ctx),
                contacts.floor_candidates@,
            ),
            *final(ctx) == crate::fighter::state::ground::context_after_floor(*old(ctx), contacts.floor_candidates@),
    {
        crate::fighter::state::ground::grounded_collision_interrupt(
            ctx,
            &mut self.grounded_common,
            &contacts.floor_candidates,
            false,
        )
    }
}

} // verus!
