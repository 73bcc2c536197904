//! Dashing.

use crate::fighter::animation::AnimKind;
use crate::fighter::attributes::{accel_and_target, accel_and_target_fits};
use crate::fighter::motion::FighterVelocity;
use crate::fighter::state::ground::{apply_moving_step, grounded_moved, moving_step_ok, moving_vx, GroundedStateCommon};
use crate::fighter::state::jump::jump_input;
use crate::fighter::state::run::run_input;
use crate::fighter::state::wait::wait_input;
use crate::fighter::state::walk::walk_input;
use crate::fighter::state::{buffered, first_some, stick_x, FighterState, FighterStateContext};
use crate::fighter::{facing_sign, FighterFacingDirection};
use crate::input::buffer::{no_lifetimes, FighterCommands, FighterInput};
use crate::math::scalar::{i32_fits, q16_mul, FGi32};
use crate::math::vec::FGVec2;
use vstd::prelude::*;

verus! {

#[derive(Clone, Copy, PartialEq, Eq, Structural, Debug, Hash)]
pub struct DashState {
    pub frames_in_dash: u32,
    pub direction: FighterFacingDirection,
    pub ground_common: GroundedStateCommon,
}

impl DashState {
    /// A dash that has just started.
    pub fn new(direction: FighterFacingDirection, ground_common: GroundedStateCommon) -> (r: DashState)
        ensures
            r == (DashState { frames_in_dash: 0, direction, ground_common }),
    {
        DashState { frames_in_dash: 0, direction, ground_common }
    }
}

/// The direction of a buffered smash input, left first.
pub open spec fn smash_direction(c: &FighterStateContext) -> Option<FighterFacingDirection> {
    if buffered(c, FighterCommands::SmashMoveLeft) {
        Some(FighterFacingDirection::Left)
    } else if buffered(c, FighterCommands::SmashMoveRight) {
        Some(FighterFacingDirection::Right)
    } else {
        None
    }
}

/// A smash input starts a dash its way.
pub open spec fn dash_input(c: &FighterStateContext, g: GroundedStateCommon) -> Option<FighterState> {
    match smash_direction(c) {
        Some(d) => Some(FighterState::Dash(DashState { frames_in_dash: 0, direction: d, ground_common: g })),
        None => None,
    }
}

/// A smash input the other way turns the dash around at any time; a jump
/// cancels it; after the acceleration phase it may become a run, and once it
/// is over a run, a walk or standing still.
pub open spec fn dash_interrupt(s: DashState, c: &FighterStateContext) -> Option<FighterState> {
    let g = s.ground_common;
    if smash_direction(c) is Some && smash_direction(c)->0 != s.direction {
        Some(FighterState::Dash(DashState { frames_in_dash: 0, direction: smash_direction(c)->0, ground_common: g }))
    } else if jump_input(c, g) is Some {
        jump_input(c, g)
    } else if s.frames_in_dash > c.attributes.dash_duration {
        first_some(run_input(c, g), first_some(walk_input(c, g), wait_input(c, g)))
    } else if s.frames_in_dash > c.attributes.dash_acceleration_duration {
        run_input(c, g)
    } else {
        None
    }
}

fn check_smash_input_with_dir(ctx: &FighterStateContext) -> (r: Option<FighterFacingDirection>)
    ensures
        r == smash_direction(ctx),
{
    if ctx.input.has_command(FighterCommands::SmashMoveLeft) {
        Some(FighterFacingDirection::Left)
    } else if ctx.input.has_command(FighterCommands::SmashMoveRight) {
        Some(FighterFacingDirection::Right)
    } else {
        None
    }
}

impl DashState {
    pub fn check_interrupt(&self, ctx: &FighterStateContext) -> (r: Option<FighterState>)
        requires
            ctx.input.current_frame.movement.x.bits != i32::MIN,
        ensures
            r == dash_interrupt(*self, ctx),
    {
        let ground = &self.ground_common;
        if let Some(direction) = check_smash_input_with_dir(ctx) {
            if direction != self.direction {
                return Some(FighterState::Dash(DashState::new(direction, *ground)));
            }
        }
        if let Some(state) = crate::fighter::state::jump::check_input(ctx, ground) {
            return Some(state);
        }
        if self.frames_in_dash > ctx.attributes.dash_duration {
            return match crate::fighter::state::run::check_input(ctx, ground) {
                Some(s) => Some(s),
                None => match crate::fighter::state::walk::check_input(ctx, ground) {
                    Some(s) => Some(s),
                    None => crate::fighter::state::wait::check_input(ctx, ground),
                },
            };
        }
        if self.frames_in_dash > ctx.attributes.dash_acceleration_duration {
            return crate::fighter::state::run::check_input(ctx, ground);
        }
        None
    }
}

/// Enters `Dash` on a buffered smash input.
pub fn check_input(ctx: &FighterStateContext, ground_common: &GroundedStateCommon) -> (r: Option<FighterState>)
    ensures
        r == dash_input(ctx, *ground_common),
{
    match check_smash_input_with_dir(ctx) {
        Some(dir) => Some(FighterState::Dash(DashState::new(dir, *ground_common))),
        None => None,
    }
}


/// The dash's acceleration and target velocity.
pub open spec fn dash_accel(s: DashState, c: &FighterStateContext) -> (int, int) {
    accel_and_target(
        stick_x(c),
        facing_sign(s.direction),
        c.attributes.stick_dash_accel.bits as int,
        c.attributes.base_dash_accel.bits as int,
        c.attributes.max_dash_vel.bits as int,
    )
}

pub open spec fn dash_update_ok(s: DashState, c: &FighterStateContext) -> bool {
    &&& s.frames_in_dash < u32::MAX
    &&& accel_and_target_fits(
        stick_x(c),
        facing_sign(s.direction),
        c.attributes.stick_dash_accel.bits as int,
        c.attributes.base_dash_accel.bits as int,
        c.attributes.max_dash_vel.bits as int,
    )
    &&& moving_step_ok(c, dash_accel(s, c).0, dash_accel(s, c).1)
}

/// `c` as a dash leaves it on entry.
pub open spec fn dash_entered<'a>(s: DashState, c: FighterStateContext<'a>) -> FighterStateContext<'a> {
    FighterStateContext {
        facing_direction: s.direction,
        input: FighterInput { command_lifetimes: no_lifetimes(), ..c.input },
        velocity: FighterVelocity(
            FGVec2 {
                x: FGi32 { bits: q16_mul(c.attributes.dash_initial_velocity.bits as int, facing_sign(s.direction)) as i32 },
                y: c.velocity.0.y,
            },
        ),
        animation_request: Some((AnimKind::Dash, false)),
        ..c
    }
}

impl DashState {
    /// The fighter faces the dash, forgets its buffered commands and starts
    /// at the dash's initial speed.
    pub fn on_enter(&mut self, ctx: &mut FighterStateContext)
        requires
            i32_fits(q16_mul(old(ctx).attributes.dash_initial_velocity.bits as int, facing_sign(old(self).direction))),
        ensures
            *final(self) == *old(self),
            *final(ctx) == dash_entered(*old(self), *old(ctx)),
    {
        ctx.facing_direction = self.direction;
        ctx.input.clear_buffer();
        ctx.velocity.0.x = ctx.attributes.dash_initial_velocity.mul(self.direction.to_sign());
        ctx.animation_request = Some((AnimKind::Dash, false));
        ctx.input.clear_buffer();
    }

    /// One more frame of dash; the stick accelerates the fighter toward the
    /// dash speed.
    pub fn update(&mut self, ctx: &mut FighterStateContext)
        requires
            dash_update_ok(*old(self), old(ctx)),
        ensures
            *final(self) == (DashState { frames_in_dash: (old(self).frames_in_dash + 1) as u32, ..*old(self) }),
            *final(ctx) == grounded_moved(
                *old(ctx),
                moving_vx(old(ctx), dash_accel(*old(self), old(ctx)).0, dash_accel(*old(self), old(ctx)).1),
            ),
    {
        self.frames_in_dash = self.frames_in_dash + 1;
        let last_frame = ctx.input.get_last_frame();
        let (accel, target_vel) = ctx.attributes.get_accel_and_target_dashrun(&last_frame, self.direction.to_sign());
        apply_moving_step(ctx, accel, target_vel);
    }
}

impl DashState {
    /// The fighter falls where it has left the floor.
    pub fn check_collision_interrupt(
        &mut self,
        ctx: &mut FighterStateContext,
        contacts: &crate::fighter::collision::StageContacts,
    ) -> (r: Option<FighterState>)
        requires
            crate::fighter::state::ground::grounded_collision_ok(old(ctx), contacts.floor_candidates@),
        ensures
            r == crate::fighter::state::ground::left_floor(old(ctx), contacts.floor_candidates@),
            final(self).ground_common == crate::fighter::state::ground::floor_after(
                old(self).ground_common,
                old(ctx),
                contacts.floor_candidates@,
            ),
            final(self).frames_in_dash == old(self).frames_in_dash,
            final(self).direction == old(self).direction,
            *final(ctx) == crate::fighter::state::ground::context_after_floor(*old(ctx), contacts.floor_candidates@),
    {
        crate::fighter::state::ground::grounded_collision_interrupt(
            ctx,
            &mut self.ground_common,
            &contacts.floor_candidates,
            true,
        )
    }
}

/// On any frame of a dash, a buffered jump cancels the dash into a jump
/// squat on the same floor, unless a smash the other way is buffered (which
/// turns the dash around first).
pub proof fn jump_cancels_dash(s: DashState, c: &FighterStateContext)
    requires
        c.input.command_lifetimes.jump > 0,
        s.direction == FighterFacingDirection::Right ==> c.input.command_lifetimes.smash_move_left == 0,
        s.direction == FighterFacingDirection::Left ==> c.input.command_lifetimes.smash_move_left > 0
            || c.input.command_lifetimes.smash_move_right == 0,
    ensures
        dash_interrupt(s, c) == Some(
            FighterState::JumpSquat(
                crate::fighter::state::jump::JumpSquatState { grounded_common: s.ground_common, duration_counter: 0 },
            ),
        ),
{
}

} // verus!
