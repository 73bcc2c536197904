//! Jump squat and jumps.

use crate::fighter::state::air_dodge::{air_dodge_input, air_dodge_input_ok, AirDodgeState};
use crate::fighter::animation::AnimKind;
use crate::fighter::attributes::FighterAttributes;
use crate::fighter::facing_sign;
use crate::fighter::motion::FighterVelocity;
use crate::fighter::state::air::{air_drift, air_drift_fits, apply_air_drift, apply_air_motion, integrate_gravity};
use crate::fighter::state::fall::{air_moved, fallen_velocity};
use crate::fighter::state::ground::{
    apply_standing_step, grounded_moved, standing_step_ok, standing_vx, GroundedStateCommon,
};
use crate::fighter::state::{buffered, stick_x, stick_y, with_animation, FighterState, FighterStateContext};
use crate::input::buffer::{with_lifetime, FighterCommands, FighterInput};
use crate::math::scalar::{i32_fits, q16_mul, q16_signum, FGi32};
use crate::math::vec::{vec2_add_fits, vec2_normalize_ok, vec2_normalize_or_zero, FGVec2};
use vstd::prelude::*;

verus! {

#[derive(Clone, Copy, PartialEq, Eq, Structural, Debug, Hash)]
pub enum JumpType {
    ShortHop,
    LongJump,
    DoubleJump,
}

#[derive(Clone, Copy, PartialEq, Eq, Structural, Debug, Hash)]
pub struct JumpState {
    pub jump_type: JumpType,
}

#[derive(Clone, Copy, PartialEq, Eq, Structural, Debug, Hash)]
pub struct JumpSquatState {
    pub grounded_common: GroundedStateCommon,
    pub duration_counter: u32,
}

impl JumpSquatState {
    /// A jump squat that has just started.
    pub fn create(grounded_common: GroundedStateCommon) -> (r: JumpSquatState)
        ensures
            r == (JumpSquatState { grounded_common, duration_counter: 0 }),
    {
        JumpSquatState { grounded_common, duration_counter: 0 }
    }
}

/// `-0.01`, by which a wavedash aims below the stick deadzone.
pub const WAVEDASH_DEADZONE_MARGIN_BITS: i32 = -655;

/// The direction a wavedash out of jump squat aims, before it is
/// normalised: along the stick, except that a purely sideways stick aims
/// just below the deadzone, and a centred stick aims straight down.
pub open spec fn wavedash_aim(c: &FighterStateContext) -> FGVec2 {
    let mv = c.input.current_frame.movement;
    let d = if stick_y(c) == 0 && stick_x(c) != 0 {
        FGVec2 {
            x: FGi32 { bits: q16_signum(stick_x(c)) as i32 },
            y: FGi32 { bits: (-c.game_settings.input_common.stick_deadzone.bits + 655) as i32 },
        }
    } else {
        vec2_normalize_or_zero(mv)
    };
    if d.x.bits == 0 && d.y.bits == 0 {
        FGVec2 { x: FGi32 { bits: 0 }, y: FGi32 { bits: -65536i32 } }
    } else {
        d
    }
}

/// A buffered shield press wavedashes out of the squat; otherwise, once the
/// squat has lasted its duration, a full jump with the jump button held and a
/// short hop without.
pub open spec fn jump_squat_interrupt(s: JumpSquatState, c: &FighterStateContext) -> Option<FighterState> {
    if buffered(c, FighterCommands::Shield) {
        Some(FighterState::AirDodge(AirDodgeState {
            duration_counter: 0,
            direction: vec2_normalize_or_zero(wavedash_aim(c)),
        }))
    } else if s.duration_counter >= c.attributes.jumpsquat_duration {
        Some(FighterState::Jump(JumpState {
            jump_type: if c.input.current_frame.jump { JumpType::LongJump } else { JumpType::ShortHop },
        }))
    } else {
        None
    }
}

pub open spec fn jump_squat_interrupt_ok(c: &FighterStateContext) -> bool {
    buffered(c, FighterCommands::Shield) ==> {
        &&& vec2_normalize_ok(c.input.current_frame.movement)
        &&& (stick_y(c) == 0 && stick_x(c) != 0) ==> {
            &&& c.game_settings.input_common.stick_deadzone.bits != i32::MIN
            &&& i32_fits(-c.game_settings.input_common.stick_deadzone.bits + 655)
        }
        &&& vec2_normalize_ok(wavedash_aim(c))
    }
}

impl JumpSquatState {
    pub fn check_interrupt(&self, ctx: &FighterStateContext) -> (r: Option<FighterState>)
        requires
            jump_squat_interrupt_ok(ctx),
        ensures
            r == jump_squat_interrupt(*self, ctx),
    {
        if ctx.input.has_command(FighterCommands::Shield) {
            let movement = ctx.input.get_last_frame().movement;
            let mut wavedash_dir = movement.normalize_or_zero();
            if movement.y.is_zero() && !movement.x.is_zero() {
                wavedash_dir.y = ctx.game_settings.input_common.stick_deadzone.neg().sub(
                    FGi32::from_bits(WAVEDASH_DEADZONE_MARGIN_BITS),
                );
                wavedash_dir.x = movement.x.signum();
            }
            if wavedash_dir.x.bits == 0 && wavedash_dir.y.bits == 0 {
                wavedash_dir = FGVec2::new(FGi32::zero(), FGi32::neg_one());
            }
            Some(FighterState::AirDodge(AirDodgeState {
                duration_counter: 0,
                direction: wavedash_dir.normalize_or_zero(),
            }))
        } else if self.duration_counter >= ctx.attributes.jumpsquat_duration {
            let jump_type = if ctx.input.get_last_frame().jump {
                JumpType::LongJump
            } else {
                JumpType::ShortHop
            };
            Some(FighterState::Jump(JumpState { jump_type }))
        } else {
            None
        }
    }
}

/// A buffered jump jumps again; otherwise a buffered shield press dodges.
pub open spec fn jump_interrupt(c: &FighterStateContext) -> Option<FighterState> {
    if buffered(c, FighterCommands::Jump) {
        Some(FighterState::Jump(JumpState { jump_type: JumpType::DoubleJump }))
    } else {
        air_dodge_input(c)
    }
}

impl JumpState {
    pub fn check_interrupt(&self, ctx: &FighterStateContext) -> (r: Option<FighterState>)
        requires
            air_dodge_input_ok(ctx),
        ensures
            r == jump_interrupt(ctx),
    {
        if ctx.input.has_command(FighterCommands::Jump) {
            Some(FighterState::Jump(JumpState { jump_type: JumpType::DoubleJump }))
        } else {
            crate::fighter::state::air_dodge::check_input(ctx)
        }
    }
}

/// A buffered jump starts a jump squat.
pub open spec fn jump_input(c: &FighterStateContext, g: GroundedStateCommon) -> Option<FighterState> {
    if buffered(c, FighterCommands::Jump) {
        Some(FighterState::JumpSquat(JumpSquatState { grounded_common: g, duration_counter: 0 }))
    } else {
        None
    }
}

/// Enters `JumpSquat` on a buffered jump.
pub fn check_input(ctx: &FighterStateContext, ground_common: &GroundedStateCommon) -> (r: Option<FighterState>)
    ensures
        r == jump_input(ctx, *ground_common),
{
    if ctx.input.has_command(FighterCommands::Jump) {
        Some(FighterState::JumpSquat(JumpSquatState::create(*ground_common)))
    } else {
        None
    }
}

/// Enters a double jump on a buffered jump.
pub fn check_input_double_jump(ctx: &FighterStateContext) -> (r: Option<FighterState>)
    ensures
        r == (if buffered(ctx, FighterCommands::Jump) {
            Some(FighterState::Jump(JumpState { jump_type: JumpType::DoubleJump }))
        } else {
            None
        }),
{
    if ctx.input.has_command(FighterCommands::Jump) {
        Some(FighterState::Jump(JumpState { jump_type: JumpType::DoubleJump }))
    } else {
        None
    }
}


impl JumpSquatState {
    /// The squat animation starts and the buffered jump is used up.
    pub fn on_enter(&mut self, ctx: &mut FighterStateContext)
        ensures
            *final(self) == *old(self),
            *final(ctx) == (FighterStateContext {
                input: FighterInput {
                    command_lifetimes: with_lifetime(old(ctx).input.command_lifetimes, FighterCommands::Jump, 0),
                    ..old(ctx).input
                },
                ..with_animation(*old(ctx), AnimKind::JumpSquat, false)
            }),
    {
        ctx.play_animation(AnimKind::JumpSquat, false);
        ctx.input.clear_command(FighterCommands::Jump);
    }

    /// One more frame of squat; friction brakes the fighter.
    pub fn update(&mut self, ctx: &mut FighterStateContext)
        requires
            old(self).duration_counter < u32::MAX,
            standing_step_ok(old(ctx)),
        ensures
            *final(self) == (JumpSquatState { duration_counter: (old(self).duration_counter + 1) as u32, ..*old(self) }),
            *final(ctx) == grounded_moved(*old(ctx), standing_vx(old(ctx))),
    {
        self.duration_counter = self.duration_counter + 1;
        apply_standing_step(ctx);
    }
}

/// The velocity after one airborne frame of a jump: gravity, then drift.
pub open spec fn jumping_velocity(c: &FighterStateContext) -> FGVec2 {
    FGVec2 {
        x: FGi32 { bits: air_drift(c.velocity.0.x.bits as int, stick_x(c), *c.attributes) as i32 },
        y: fallen_velocity(c).y,
    }
}

pub open spec fn jump_update_ok(c: &FighterStateContext) -> bool {
    &&& i32_fits(c.velocity.0.y.bits - c.attributes.gravity.bits)
    &&& c.attributes.terminal_velocity.bits != i32::MIN
    &&& air_drift_fits(c.velocity.0.x.bits as int, stick_x(c), *c.attributes)
    &&& vec2_add_fits(c.translation.0, jumping_velocity(c))
}

/// The animation a jump plays: a double jump its own; a first jump forward
/// unless the stick points away from the facing direction.
pub open spec fn jump_animation(s: JumpState, c: &FighterStateContext) -> AnimKind {
    match s.jump_type {
        JumpType::DoubleJump => AnimKind::DoubleJump,
        _ => if stick_x(c) == 0 || q16_signum(stick_x(c)) == facing_sign(c.facing_direction) {
            AnimKind::JumpForward
        } else {
            AnimKind::JumpBack
        },
    }
}

/// The vertical velocity a jump starts with.
pub open spec fn jump_vertical(s: JumpState, a: FighterAttributes) -> int {
    match s.jump_type {
        JumpType::ShortHop => a.short_hop_vertical_velocity.bits as int,
        JumpType::LongJump => a.full_jump_vertical_velocity.bits as int,
        JumpType::DoubleJump => q16_mul(a.full_jump_vertical_velocity.bits as int, a.air_jump_multiplier.bits as int),
    }
}

/// The horizontal velocity a jump starts with: a first jump adds the stick's
/// share of the jump's horizontal velocity to the current one, a double jump
/// replaces it by the stick's share of the air jump's; then the stick's share
/// of the jump's horizontal velocity is added once more.
pub open spec fn jump_horizontal_first(s: JumpState, c: &FighterStateContext) -> int {
    let a = *c.attributes;
    match s.jump_type {
        JumpType::DoubleJump => q16_mul(a.air_jump_horizontal_velocity.bits as int, stick_x(c)),
        _ => c.velocity.0.x.bits + q16_mul(a.jump_horizontal_velocity.bits as int, stick_x(c)),
    }
}

pub open spec fn jump_horizontal(s: JumpState, c: &FighterStateContext) -> int {
    jump_horizontal_first(s, c) + q16_mul(c.attributes.jump_horizontal_velocity.bits as int, stick_x(c))
}

pub open spec fn jump_enter_ok(s: JumpState, c: &FighterStateContext) -> bool {
    let a = *c.attributes;
    &&& i32_fits(jump_vertical(s, a))
    &&& i32_fits(q16_mul(a.jump_horizontal_velocity.bits as int, stick_x(c)))
    &&& s.jump_type == JumpType::DoubleJump ==> i32_fits(q16_mul(a.air_jump_horizontal_velocity.bits as int, stick_x(c)))
    &&& i32_fits(jump_horizontal_first(s, c))
    &&& i32_fits(jump_horizontal(s, c))
}

/// `c` as a jump leaves it on entry.
pub open spec fn jump_entered<'a>(s: JumpState, c: FighterStateContext<'a>) -> FighterStateContext<'a> {
    let input = if s.jump_type == JumpType::DoubleJump {
        FighterInput {
            command_lifetimes: with_lifetime(c.input.command_lifetimes, FighterCommands::Jump, 0),
            ..c.input
        }
    } else {
        c.input
    };
    FighterStateContext {
        input,
        velocity: FighterVelocity(
            FGVec2 {
                x: FGi32 { bits: jump_horizontal(s, &c) as i32 },
                y: FGi32 { bits: jump_vertical(s, *c.attributes) as i32 },
            },
        ),
        ..with_animation(c, jump_animation(s, &c), false)
    }
}

impl JumpState {
    /// The jump's animation starts and the fighter is launched.
    pub fn on_enter(&mut self, ctx: &mut FighterStateContext)
        requires
            jump_enter_ok(*old(self), old(ctx)),
        ensures
            *final(self) == *old(self),
            *final(ctx) == jump_entered(*old(self), *old(ctx)),
    {
        if self.jump_type == JumpType::DoubleJump {
            ctx.input.clear_command(FighterCommands::Jump);
        }
        let movement_stick_x = ctx.input.get_last_frame().movement.x;
        match self.jump_type {
            JumpType::ShortHop | JumpType::LongJump => {
                if movement_stick_x.is_zero() || movement_stick_x.signum().bits == ctx.facing_direction.to_sign().bits {
                    ctx.play_animation(AnimKind::JumpForward, false);
                } else {
                    ctx.play_animation(AnimKind::JumpBack, false);
                }
            },
            JumpType::DoubleJump => {
                ctx.play_animation(AnimKind::DoubleJump, false);
            },
        }
        let vertical_vel = match self.jump_type {
            JumpType::ShortHop => ctx.attributes.short_hop_vertical_velocity,
            JumpType::LongJump => ctx.attributes.full_jump_vertical_velocity,
            JumpType::DoubleJump => ctx.attributes.full_jump_vertical_velocity.mul(ctx.attributes.air_jump_multiplier),
        };
        match self.jump_type {
            JumpType::ShortHop | JumpType::LongJump => {
                ctx.velocity.0.x = ctx.velocity.0.x.add(ctx.attributes.jump_horizontal_velocity.mul(movement_stick_x));
            },
            JumpType::DoubleJump => {
                ctx.velocity.0.x = ctx.attributes.air_jump_horizontal_velocity.mul(movement_stick_x);
            },
        }
        ctx.velocity.0.y = vertical_vel;
        ctx.velocity.0.x = ctx.velocity.0.x.add(ctx.attributes.jump_horizontal_velocity.mul(movement_stick_x));
    }

    /// Gravity and the stick's drift act, then the fighter moves.
    pub fn update(&mut self, ctx: &mut FighterStateContext)
        requires
            jump_update_ok(old(ctx)),
        ensures
            *final(self) == *old(self),
            *final(ctx) == air_moved(*old(ctx), jumping_velocity(old(ctx))),
    {
        integrate_gravity(&mut ctx.velocity, ctx.attributes);
        apply_air_drift(&mut ctx.velocity, ctx.attributes, &ctx.input);
        apply_air_motion(&ctx.velocity, &mut ctx.translation, &mut ctx.prev_translation);
    }
}

impl JumpSquatState {
    /// The fighter falls where it has left the floor.
    pub fn check_collision_interrupt(
        &mut self,
        ctx: &mut FighterStateContext,
        contacts: &crate::fighter::collision::StageContacts,
    ) -> (r: Option<FighterState>)
        requires
            crate::fighter::state::ground::grounded_collision_ok(old(ctx), contacts.floor_candidates@),
        ensures
            r == crate::fighter::state::ground::left_floor(old(ctx), contacts.floor_candidates@),
            final(self).grounded_common == crate::fighter::state::ground::floor_after(
                old(self).grounded_common,
                old(ctx),
                contacts.floor_candidates@,
            ),
            final(self).duration_counter == old(self).duration_counter,
            *final(ctx) == crate::fighter::state::ground::context_after_floor(*old(ctx), contacts.floor_candidates@),
    {
        crate::fighter::state::ground::grounded_collision_interrupt(
            ctx,
            &mut self.grounded_common,
            &contacts.floor_candidates,
            false,
        )
    }
}

impl JumpState {
    /// The fighter lands where its path met the stage.
    pub fn check_collision_interrupt(
        &mut self,
        ctx: &mut FighterStateContext,
        contacts: &crate::fighter::collision::StageContacts,
    ) -> (r: Option<FighterState>)
        requires
            crate::fighter::collision::hits_measurable(contacts.ray_hits@, old(ctx).translation.0),
        ensures
            *final(self) == *old(self),
            r == crate::fighter::collision::air_landing(old(ctx), contacts.ray_hits@),
            *final(ctx) == crate::fighter::collision::context_after_landing(*old(ctx), contacts.ray_hits@),
    {
        crate::fighter::collision::airborne_collision_interrupt(ctx, &contacts.ray_hits)
    }
}

/// At the end of the jump squat, with no shield buffered, the fighter jumps
/// high when the jump button is still held and hops short when it is not;
/// before the end it stays in the squat.
pub proof fn held_jump_jumps_high(s: JumpSquatState, c: &FighterStateContext)
    requires
        c.input.command_lifetimes.shield == 0,
    ensures
        s.duration_counter >= c.attributes.jumpsquat_duration && c.input.current_frame.jump ==> jump_squat_interrupt(s, c)
            == Some(FighterState::Jump(JumpState { jump_type: JumpType::LongJump })),
        s.duration_counter >= c.attributes.jumpsquat_duration && !c.input.current_frame.jump ==> jump_squat_interrupt(
            s,
            c,
        ) == Some(FighterState::Jump(JumpState { jump_type: JumpType::ShortHop })),
        s.duration_counter < c.attributes.jumpsquat_duration ==> jump_squat_interrupt(s, c) is None,
{
}

} // verus!
