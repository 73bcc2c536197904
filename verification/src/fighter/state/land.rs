//! Landing.

use crate::fighter::state::dash::dash_input;
use crate::fighter::animation::AnimKind;
use crate::fighter::state::ground::{
    apply_standing_step, grounded_moved, standing_step_ok, standing_vx, GroundedStateCommon,
};
use crate::fighter::state::ground_attack::ground_attack_input;
use crate::fighter::state::jump::jump_input;
use crate::fighter::state::turn::turn_input;
use crate::fighter::state::wait::wait_input;
use crate::fighter::state::walk::walk_input;
use crate::fighter::state::{
    animation_finished, animation_known, first_some, with_animation, FighterState, FighterStateContext,
};
use vstd::prelude::*;

verus! {

#[derive(Clone, Copy, PartialEq, Eq, Structural, Debug, Hash)]
pub struct LandingState {
    pub grounded_common: GroundedStateCommon,
    pub duration_counter: u32,
}

impl LandingState {
    /// A landing that has just happened.
    pub fn create(grounded_common: GroundedStateCommon) -> (r: LandingState)
        ensures
            r == (LandingState { grounded_common, duration_counter: 0 }),
    {
        LandingState { grounded_common, duration_counter: 0 }
    }
}

/// The transitions of a standing fighter: an attack, a dash, a turn, a walk
/// or standing still, in that order.
pub open spec fn standstill_input(c: &FighterStateContext, g: GroundedStateCommon) -> Option<FighterState> {
    first_some(
        ground_attack_input(c, g),
        first_some(dash_input(c, g), first_some(turn_input(c, g), first_some(walk_input(c, g), wait_input(c, g)))),
    )
}

/// Once the landing animation is over, anything a standing fighter can do;
/// from the landing's interruptible frame on, a dash, a jump or a walk.
pub open spec fn landing_interrupt(s: LandingState, c: &FighterStateContext) -> Option<FighterState> {
    let g = s.grounded_common;
    if animation_finished(c) {
        standstill_input(c, g)
    } else if s.duration_counter >= c.attributes.landing_iasa {
        first_some(dash_input(c, g), first_some(jump_input(c, g), walk_input(c, g)))
    } else {
        None
    }
}

impl LandingState {
    pub fn check_interrupt(&self, ctx: &FighterStateContext) -> (r: Option<FighterState>)
        requires
            ctx.input.current_frame.movement.x.bits != i32::MIN,
            animation_known(ctx),
        ensures
            r == landing_interrupt(*self, ctx),
    {
        let g = &self.grounded_common;
        if ctx.is_current_animation_finished() {
            crate::fighter::state::ground::grounded_movement_standstill_common_interrupts(ctx, g)
        } else if self.duration_counter >= ctx.attributes.landing_iasa {
            match crate::fighter::state::dash::check_input(ctx, g) {
                Some(s) => Some(s),
                None => match crate::fighter::state::ground::grounded_movement_common_interrupts(ctx, g) {
                    Some(s) => Some(s),
                    None => crate::fighter::state::walk::check_input(ctx, g),
                },
            }
        } else {
            None
        }
    }
}


impl LandingState {
    /// The landing animation starts.
    pub fn on_enter(&mut self, ctx: &mut FighterStateContext)
        ensures
            *final(self) == *old(self),
            *final(ctx) == with_animation(*old(ctx), AnimKind::Landing, false),
    {
        ctx.play_animation(AnimKind::Landing, false);
    }

    /// One more frame of landing; friction brakes the fighter.
    pub fn update(&mut self, ctx: &mut FighterStateContext)
        requires
            old(self).duration_counter < u32::MAX,
            standing_step_ok(old(ctx)),
        ensures
            *final(self) == (LandingState { duration_counter: (old(self).duration_counter + 1) as u32, ..*old(self) }),
            *final(ctx) == grounded_moved(*old(ctx), standing_vx(old(ctx))),
    {
        self.duration_counter = self.duration_counter + 1;
        apply_standing_step(ctx);
    }
}

impl LandingState {
    /// The fighter falls where it has left the floor.
    pub fn check_collision_interrupt(
        &mut self,
        ctx: &mut FighterStateContext,
        contacts: &crate::fighter::collision::StageContacts,
    ) -> (r: Option<FighterState>)
        requires
            crate::fighter::state::ground::grounded_collision_ok(old(ctx), contacts.floor_candidates@),
        ensures
            r == crate::fighter::state::ground::left_floor(old(ctx), contacts.floor_candidates@),
            final(self).grounded_common == crate::fighter::state::ground::floor_after(
                old(self).grounded_common,
                old(ctx),
                contacts.floor_candidates@,
            ),
            final(self).duration_counter == old(self).duration_counter,
            *final(ctx) == crate::fighter::state::ground::context_after_floor(*old(ctx), contacts.floor_candidates@),
    {
        crate::fighter::state::ground::grounded_collision_interrupt(
            ctx,
            &mut self.grounded_common,
            &contacts.floor_candidates,
            false,
        )
    }
}

} // verus!
