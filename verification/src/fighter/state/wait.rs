//! Standing still.

use crate::fighter::state::dash::dash_input;
use crate::fighter::animation::AnimKind;
use crate::fighter::state::ground::{
    apply_standing_step, grounded_moved, standing_step_ok, standing_vx, GroundedStateCommon,
};
use crate::fighter::state::jump::jump_input;
use crate::fighter::state::walk::walk_input;
use crate::fighter::state::{first_some, stick_x, FighterState, FighterStateContext};
use crate::math::scalar::abs_int;
use vstd::prelude::*;

verus! {

#[derive(Clone, Copy, PartialEq, Eq, Structural, Debug, Hash)]
pub struct WaitState {
    pub grounded_common: GroundedStateCommon,
}

/// The stick is inside the deadzone: the fighter stands.
pub open spec fn wait_input(c: &FighterStateContext, g: GroundedStateCommon) -> Option<FighterState> {
    if abs_int(stick_x(c)) < c.game_settings.input_common.stick_deadzone.bits {
        Some(FighterState::Wait(WaitState { grounded_common: g }))
    } else {
        None
    }
}

/// A dash, a jump, or a walk, in that order.
pub open spec fn wait_interrupt(s: WaitState, c: &FighterStateContext) -> Option<FighterState> {
    first_some(
        dash_input(c, s.grounded_common),
        first_some(jump_input(c, s.grounded_common), walk_input(c, s.grounded_common)),
    )
}

impl WaitState {
    pub fn check_interrupt(&self, ctx: &FighterStateContext) -> (r: Option<FighterState>)
        requires
            ctx.input.current_frame.movement.x.bits != i32::MIN,
        ensures
            r == wait_interrupt(*self, ctx),
    {
        match crate::fighter::state::dash::check_input(ctx, &self.grounded_common) {
            Some(s) => Some(s),
            None => match crate::fighter::state::jump::check_input(ctx, &self.grounded_common) {
                Some(s) => Some(s),
                None => crate::fighter::state::walk::check_input(ctx, &self.grounded_common),
            },
        }
    }
}

/// Enters `Wait` when the stick is inside the deadzone.
pub fn check_input(ctx: &FighterStateContext, ground_state_common: &GroundedStateCommon) -> (r: Option<FighterState>)
    requires
        ctx.input.current_frame.movement.x.bits != i32::MIN,
    ensures
        r == wait_input(ctx, *ground_state_common),
{
    let input_frame = ctx.input.get_last_frame();
    if input_frame.movement.x.abs().bits < ctx.game_settings.input_common.stick_deadzone.bits {
        return Some(FighterState::Wait(WaitState { grounded_common: *ground_state_common }));
    }
    None
}


impl WaitState {
    /// The stand animation starts, repeating.
    pub fn on_enter(&mut self, ctx: &mut FighterStateContext)
        ensures
            *final(self) == *old(self),
            *final(ctx) == (FighterStateContext { animation_request: Some((AnimKind::Wait, true)), ..*old(ctx) }),
    {
        ctx.animation_request = Some((AnimKind::Wait, true));
    }

    /// Friction brakes the fighter.
    pub fn update(&mut self, ctx: &mut FighterStateContext)
        requires
            standing_step_ok(old(ctx)),
        ensures
            *final(self) == *old(self),
            *final(ctx) == grounded_moved(*old(ctx), standing_vx(old(ctx))),
    {
        apply_standing_step(ctx);
    }
}

impl WaitState {
    /// The fighter falls where it has left the floor.
    pub fn check_collision_interrupt(
        &mut self,
        ctx: &mut FighterStateContext,
        contacts: &crate::fighter::collision::StageContacts,
    ) -> (r: Option<FighterState>)
        requires
            crate::fighter::state::ground::grounded_collision_ok(old(ctx), contacts.floor_candidates@),
        ensures
            r == crate::fighter::state::ground::left_floor(old(ctx), contacts.floor_candidates@),
            final(self).grounded_common == crate::fighter::state::ground::floor_after(
                old(self).grounded_common,
                old(ctx),
                contacts.floor_candidates@,
            ),
            *final(ctx) == crate::fighter::state::ground::context_after_floor(*old(ctx), contacts.floor_candidates@),
    {
        crate::fighter::state::ground::grounded_collision_interrupt(
            ctx,
            &mut self.grounded_common,
            &contacts.floor_candidates,
            false,
        )
    }
}

} // verus!
