//! The fighter state machine: the states, the context they inspect and
//! change, and the dispatch from a state to its behaviour.

pub mod air;
pub mod air_dodge;
pub mod dash;
pub mod fall;
pub mod ground;
pub mod ground_attack;
pub mod jump;
pub mod land;
pub mod run;
pub mod turn;
pub mod wait;
pub mod walk;

use crate::fighter::collision;
use crate::fighter::animation::{AnimKind, FighterAnimationFrame};
use crate::fighter::attack::FighterAttackScriptAssets;
use crate::fighter::attributes::FighterAttributes;
use crate::fighter::baked_animation::{
    clip_of, name_position, position_of_name, sampled_frame_index, loop_frame_count,
    BakedFighterAnimations, FixedMat4,
};
use crate::fighter::collision::StageContacts;
use crate::fighter::ecb::{FighterECB, FighterPreviousECB};
use crate::fighter::motion::{FighterPreviousTranslation, FighterTranslation, FighterVelocity};
use crate::fighter::{FighterFacingDirection, FighterHitboxes};
use crate::game_settings::GameSettings;
use crate::input::buffer::{lifetime_of, FighterCommands, FighterInput};
use vstd::prelude::*;

use air_dodge::AirDodgeState;
use dash::DashState;
use ground::GroundedStateCommon;
use fall::FallState;
use ground_attack::GroundAttackState;
use jump::{JumpSquatState, JumpState};
use land::LandingState;
use run::RunState;
use turn::TurnState;
use wait::WaitState;
use walk::WalkState;

verus! {

/// What a state sees of its fighter and may change: the fighter's own
/// components, owned for the duration of a step, and the shared data it
/// reads.
pub struct FighterStateContext<'a> {
    pub translation: FighterTranslation,
    pub prev_translation: FighterPreviousTranslation,
    pub input: FighterInput,
    pub velocity: FighterVelocity,
    pub ecb: FighterECB,
    pub prev_ecb: FighterPreviousECB,
    pub facing_direction: FighterFacingDirection,
    pub animation_frame: FighterAnimationFrame,
    pub hitboxes: FighterHitboxes,
    /// The clip the presentation should start, and whether it repeats.
    pub animation_request: Option<(AnimKind, bool)>,
    pub game_settings: &'a GameSettings,
    pub attributes: &'a FighterAttributes,
    pub baked_animations: &'a BakedFighterAnimations,
    pub attack_scripts: &'a FighterAttackScriptAssets,
}

/// The horizontal stick position, in Q16.16 bits.
pub open spec fn stick_x(c: &FighterStateContext) -> int {
    c.input.current_frame.movement.x.bits as int
}

/// The vertical stick position, in Q16.16 bits.
pub open spec fn stick_y(c: &FighterStateContext) -> int {
    c.input.current_frame.movement.y.bits as int
}

/// Whether `command` is buffered.
pub open spec fn buffered(c: &FighterStateContext, command: FighterCommands) -> bool {
    lifetime_of(c.input.command_lifetimes, command) > 0
}

/// The first of two candidate transitions that exists.
pub open spec fn first_some(a: Option<FighterState>, b: Option<FighterState>) -> Option<FighterState> {
    if a is Some {
        a
    } else {
        b
    }
}

/// The current animation has baked frames.
pub open spec fn animation_known(c: &FighterStateContext) -> bool {
    clip_of(*c.baked_animations, c.animation_frame.kind) is Some
}

/// The animation clock has run past the current clip's frame count.
pub open spec fn animation_finished(c: &FighterStateContext) -> bool {
    match clip_of(*c.baked_animations, c.animation_frame.kind) {
        Some(clip) => (clip.frames@.len() as u32) < c.animation_frame.frame,
        None => false,
    }
}

/// `c` with an animation started from its first frame.
pub open spec fn with_animation<'a>(c: FighterStateContext<'a>, kind: AnimKind, repeat: bool) -> FighterStateContext<'a> {
    FighterStateContext {
        animation_frame: FighterAnimationFrame { kind, frame: 0, repeat },
        animation_request: Some((kind, repeat)),
        ..c
    }
}

impl<'a> FighterStateContext<'a> {
    /// Starts an animation from its first frame.
    pub fn play_animation(&mut self, kind: AnimKind, repeat: bool)
        ensures
            *final(self) == with_animation(*old(self), kind, repeat),
    {
        self.animation_request = Some((kind, repeat));
        self.animation_frame.reset(kind, repeat);
    }

    pub fn get_current_animation_frame(&self) -> (r: u32)
        ensures
            r == self.animation_frame.frame,
    {
        self.animation_frame.frame
    }

    /// Whether the clock has run past the current clip's last frame.
    pub fn is_current_animation_finished(&self) -> (r: bool)
        requires
            animation_known(self),
        ensures
            r == animation_finished(self),
    {
        match self.baked_animations.frame_count(self.animation_frame.kind) {
            Some(count) => count < self.animation_frame.frame,
            None => false,
        }
    }

    /// The parent-relative matrix of the first bone so named, in the pose
    /// the animation clock shows.
    pub fn sample_bone(&self, bone: &str) -> (r: Option<FixedMat4>)
        requires
            self.animation_frame.repeat ==> (clip_of(*self.baked_animations, self.animation_frame.kind) matches Some(c)
                ==> loop_frame_count(c.frames@.len() as int) != 0),
        ensures
            r == match clip_of(*self.baked_animations, self.animation_frame.kind) {
                Some(c) => if c.frames@.len() == 0 {
                    None
                } else {
                    let pose = c.frames@[sampled_frame_index(c.frames@.len() as int, self.animation_frame)]@;
                    match name_position(self.baked_animations.bone_names@, bone@) {
                        Some(i) => if i < pose.len() {
                            Some(pose[i])
                        } else {
                            None
                        },
                        None => None,
                    }
                },
                None => None,
            },
    {
        let pose = match self.baked_animations.sample_pose(&self.animation_frame) {
            Some(p) => p,
            None => return None,
        };
        match position_of_name(&self.baked_animations.bone_names, bone) {
            Some(i) => if i < pose.len() {
                Some(pose[i])
            } else {
                None
            },
            None => None,
        }
    }
}

/// The state a fighter is in.
#[derive(Clone, Copy, PartialEq, Eq, Structural, Debug, Hash)]
pub enum FighterState {
    Wait(WaitState),
    Walk(WalkState),
    Dash(DashState),
    Run(RunState),
    Fall(FallState),
    JumpSquat(JumpSquatState),
    Jump(JumpState),
    Land(LandingState),
    AirDodge(AirDodgeState),
    Turn(TurnState),
    GroundAttack(GroundAttackState),
}

/// The transition a state asks for this frame, if any.
pub open spec fn interrupt_of(s: FighterState, c: &FighterStateContext) -> Option<FighterState> {
    match s {
        FighterState::Wait(w) => wait::wait_interrupt(w, c),
        FighterState::Walk(w) => walk::walk_interrupt(w, c),
        FighterState::Dash(d) => dash::dash_interrupt(d, c),
        FighterState::Run(r) => run::run_interrupt(r, c),
        FighterState::Fall(_) => None,
        FighterState::JumpSquat(j) => jump::jump_squat_interrupt(j, c),
        FighterState::Jump(_) => jump::jump_interrupt(c),
        FighterState::Land(l) => land::landing_interrupt(l, c),
        FighterState::AirDodge(a) => air_dodge::air_dodge_interrupt(a, c),
        FighterState::Turn(t) => turn::turn_interrupt(t, c),
        FighterState::GroundAttack(g) => ground_attack::ground_attack_interrupt(g, c),
    }
}

/// What the interrupt check of a state needs of the context: readable
/// stick values, and the baked frames of the current animation where the
/// state waits for it to finish.
pub open spec fn interrupt_ok(s: FighterState, c: &FighterStateContext) -> bool {
    &&& c.input.current_frame.movement.x.bits != i32::MIN
    &&& match s {
        FighterState::JumpSquat(_) => jump::jump_squat_interrupt_ok(c),
        FighterState::Jump(_) => air_dodge::air_dodge_input_ok(c),
        FighterState::Land(_) | FighterState::GroundAttack(_) => animation_known(c),
        FighterState::Turn(t) => jump::jump_input(c, t.grounded_common) is None ==> animation_known(c),
        _ => true,
    }
}

impl FighterState {
    /// The state's name, for debugging.
    pub fn name(&self) -> (r: &'static str)
        ensures
            r@ == match *self {
                FighterState::Wait(_) => "Wait"@,
                FighterState::Walk(_) => "Walk"@,
                FighterState::Dash(_) => "Dash"@,
                FighterState::Run(_) => "Run"@,
                FighterState::Fall(_) => "Fall"@,
                FighterState::JumpSquat(_) => "JumpSquat"@,
                FighterState::Jump(_) => "Jump"@,
                FighterState::Land(_) => "Landing"@,
                FighterState::AirDodge(_) => "AirDodge"@,
                FighterState::Turn(_) => "Turn"@,
                FighterState::GroundAttack(_) => "GroundAttack"@,
            },
    {
        match self {
            FighterState::Wait(_) => "Wait",
            FighterState::Walk(_) => "Walk",
            FighterState::Dash(_) => "Dash",
            FighterState::Run(_) => "Run",
            FighterState::Fall(_) => "Fall",
            FighterState::JumpSquat(_) => "JumpSquat",
            FighterState::Jump(_) => "Jump",
            FighterState::Land(_) => "Landing",
            FighterState::AirDodge(_) => "AirDodge",
            FighterState::Turn(_) => "Turn",
            FighterState::GroundAttack(_) => "GroundAttack",
        }
    }

    /// The state this one gives way to this frame, if any.
    pub fn check_interrupt(&self, ctx: &FighterStateContext) -> (r: Option<FighterState>)
        requires
            interrupt_ok(*self, ctx),
        ensures
            r == interrupt_of(*self, ctx),
    {
        match self {
            FighterState::Wait(s) => s.check_interrupt(ctx),
            FighterState::Walk(s) => s.check_interrupt(ctx),
            FighterState::Dash(s) => s.check_interrupt(ctx),
            FighterState::Run(s) => s.check_interrupt(ctx),
            FighterState::Fall(s) => s.check_interrupt(ctx),
            FighterState::JumpSquat(s) => s.check_interrupt(ctx),
            FighterState::Jump(s) => s.check_interrupt(ctx),
            FighterState::Land(s) => s.check_interrupt(ctx),
            FighterState::AirDodge(s) => s.check_interrupt(ctx),
            FighterState::Turn(s) => s.check_interrupt(ctx),
            FighterState::GroundAttack(s) => s.check_interrupt(ctx),
        }
    }
}


/// What a state's frame update needs of the context: every step fits and
/// no frame counter is at its maximum.
pub open spec fn update_ok(s: FighterState, c: &FighterStateContext) -> bool {
    match s {
        FighterState::Wait(_) | FighterState::Turn(_) => ground::standing_step_ok(c),
        FighterState::Walk(_) => walk::walk_update_ok(c),
        FighterState::Dash(d) => dash::dash_update_ok(d, c),
        FighterState::Run(_) => run::run_update_ok(c),
        FighterState::Fall(_) => fall::fall_update_ok(c),
        FighterState::JumpSquat(j) => j.duration_counter < u32::MAX && ground::standing_step_ok(c),
        FighterState::Jump(_) => jump::jump_update_ok(c),
        FighterState::Land(l) => l.duration_counter < u32::MAX && ground::standing_step_ok(c),
        FighterState::AirDodge(a) => air_dodge::air_dodge_update_ok(a, c),
        FighterState::GroundAttack(_) => true,
    }
}

/// The state after its frame update: the frame counters count one more.
pub open spec fn updated_state(s: FighterState) -> FighterState {
    match s {
        FighterState::Dash(d) => FighterState::Dash(DashState { frames_in_dash: (d.frames_in_dash + 1) as u32, ..d }),
        FighterState::JumpSquat(j) => FighterState::JumpSquat(
            JumpSquatState { duration_counter: (j.duration_counter + 1) as u32, ..j },
        ),
        FighterState::Land(l) => FighterState::Land(LandingState { duration_counter: (l.duration_counter + 1) as u32, ..l }),
        FighterState::AirDodge(a) => FighterState::AirDodge(
            AirDodgeState { duration_counter: (a.duration_counter + 1) as u32, ..a },
        ),
        _ => s,
    }
}

/// `c2` is the context after the frame update of state `s` from `c`.
pub open spec fn updated_context(s: FighterState, c: FighterStateContext, c2: FighterStateContext) -> bool {
    match s {
        FighterState::Wait(_) | FighterState::Turn(_) | FighterState::JumpSquat(_) | FighterState::Land(_) => c2
            == ground::grounded_moved(c, ground::standing_vx(&c)),
        FighterState::Walk(_) => c2 == ground::grounded_moved(
            c,
            ground::moving_vx(&c, walk::walk_accel(&c).0, walk::walk_accel(&c).1),
        ),
        FighterState::Dash(d) => c2 == ground::grounded_moved(
            c,
            ground::moving_vx(&c, dash::dash_accel(d, &c).0, dash::dash_accel(d, &c).1),
        ),
        FighterState::Run(_) => c2 == ground::grounded_moved(
            c,
            ground::moving_vx(&c, run::run_accel(&c).0, run::run_accel(&c).1),
        ),
        FighterState::Fall(_) => c2 == fall::air_moved(c, fall::fallen_velocity(&c)),
        FighterState::Jump(_) => c2 == fall::air_moved(c, jump::jumping_velocity(&c)),
        FighterState::AirDodge(_) => c2 == fall::air_moved(c, air_dodge::dodge_velocity(&c)),
        FighterState::GroundAttack(g) => {
            &&& c2 == (FighterStateContext { hitboxes: c2.hitboxes, ..c })
            &&& c2.hitboxes.attack_script == c.hitboxes.attack_script
            &&& c2.hitboxes.active_hitboxes@ == match crate::fighter::attack::script_of(
                c.attack_scripts.scripts@,
                g.attack_kind,
            ) {
                Some(script) => crate::fighter::attack::active_hitbox_indices(
                    script.hitboxes@,
                    c.animation_frame.frame,
                    script.hitboxes@.len() as int,
                ),
                None => c.hitboxes.active_hitboxes@,
            }
        },
    }
}

/// What entering a state needs of the context.
pub open spec fn enter_ok(s: FighterState, c: &FighterStateContext) -> bool {
    match s {
        FighterState::Dash(d) => crate::math::scalar::i32_fits(
            crate::math::scalar::q16_mul(
                c.attributes.dash_initial_velocity.bits as int,
                crate::fighter::facing_sign(d.direction),
            ),
        ),
        FighterState::Jump(j) => jump::jump_enter_ok(j, c),
        FighterState::AirDodge(a) => {
            &&& crate::math::scalar::i32_fits(
                crate::math::scalar::q16_mul(a.direction.x.bits as int, c.attributes.air_dodge_velocity.bits as int),
            )
            &&& crate::math::scalar::i32_fits(
                crate::math::scalar::q16_mul(a.direction.y.bits as int, c.attributes.air_dodge_velocity.bits as int),
            )
        },
        FighterState::GroundAttack(g) => crate::fighter::attack::script_of(c.attack_scripts.scripts@, g.attack_kind) is Some,
        _ => true,
    }
}

/// `c2` is the context after entering state `s` from `c`.
pub open spec fn entered_context(s: FighterState, c: FighterStateContext, c2: FighterStateContext) -> bool {
    match s {
        FighterState::Wait(_) => c2 == (FighterStateContext { animation_request: Some((AnimKind::Wait, true)), ..c }),
        FighterState::Walk(_) | FighterState::Fall(_) => c2 == c,
        FighterState::Dash(d) => c2 == dash::dash_entered(d, c),
        FighterState::Run(_) => c2 == with_animation(c, AnimKind::Run, true),
        FighterState::Turn(_) => c2 == (FighterStateContext {
            facing_direction: crate::fighter::reversed(c.facing_direction),
            ..with_animation(c, AnimKind::Turn, false)
        }),
        FighterState::JumpSquat(_) => c2 == (FighterStateContext {
            input: FighterInput {
                command_lifetimes: crate::input::buffer::with_lifetime(
                    c.input.command_lifetimes,
                    FighterCommands::Jump,
                    0,
                ),
                ..c.input
            },
            ..with_animation(c, AnimKind::JumpSquat, false)
        }),
        FighterState::Jump(j) => c2 == jump::jump_entered(j, c),
        FighterState::Land(_) => c2 == with_animation(c, AnimKind::Landing, false),
        FighterState::AirDodge(a) => c2 == (FighterStateContext {
            velocity: FighterVelocity(air_dodge::dodge_launch(a, &c)),
            ..with_animation(c, AnimKind::AirDodge, false)
        }),
        FighterState::GroundAttack(g) => {
            &&& c2 == (FighterStateContext {
                hitboxes: c2.hitboxes,
                ..with_animation(c, crate::fighter::attack::attack_animation(g.attack_kind), false)
            })
            &&& c2.hitboxes.attack_script == Some(g.attack_kind)
            &&& c2.hitboxes.active_hitboxes@.len() == 0
        },
    }
}

impl FighterState {
    /// One frame of the state's own behaviour.
    pub fn update(&mut self, ctx: &mut FighterStateContext)
        requires
            update_ok(*old(self), old(ctx)),
        ensures
            *final(self) == updated_state(*old(self)),
            updated_context(*old(self), *old(ctx), *final(ctx)),
    {
        match self {
            FighterState::Wait(s) => s.update(ctx),
            FighterState::Walk(s) => s.update(ctx),
            FighterState::Dash(s) => s.update(ctx),
            FighterState::Run(s) => s.update(ctx),
            FighterState::Fall(s) => s.update(ctx),
            FighterState::JumpSquat(s) => s.update(ctx),
            FighterState::Jump(s) => s.update(ctx),
            FighterState::Land(s) => s.update(ctx),
            FighterState::AirDodge(s) => s.update(ctx),
            FighterState::Turn(s) => s.update(ctx),
            FighterState::GroundAttack(s) => s.update(ctx),
        }
    }

    /// What happens as the fighter enters this state.
    pub fn on_enter(&mut self, ctx: &mut FighterStateContext)
        requires
            enter_ok(*old(self), old(ctx)),
        ensures
            *final(self) == *old(self),
            entered_context(*old(self), *old(ctx), *final(ctx)),
    {
        match self {
            FighterState::Wait(s) => s.on_enter(ctx),
            FighterState::Walk(s) => s.on_enter(ctx),
            FighterState::Dash(s) => s.on_enter(ctx),
            FighterState::Run(s) => s.on_enter(ctx),
            FighterState::Fall(s) => s.on_enter(ctx),
            FighterState::JumpSquat(s) => s.on_enter(ctx),
            FighterState::Jump(s) => s.on_enter(ctx),
            FighterState::Land(s) => s.on_enter(ctx),
            FighterState::AirDodge(s) => s.on_enter(ctx),
            FighterState::Turn(s) => s.on_enter(ctx),
            FighterState::GroundAttack(s) => s.on_enter(ctx),
        }
    }
}


/// The floor a standing state stands on; `None` for the other states.
pub open spec fn standing_common(s: FighterState) -> Option<GroundedStateCommon> {
    match s {
        FighterState::Wait(w) => Some(w.grounded_common),
        FighterState::Walk(w) => Some(w.grounded_common),
        FighterState::Dash(d) => Some(d.ground_common),
        FighterState::Run(r) => Some(r.grounded_common),
        FighterState::JumpSquat(j) => Some(j.grounded_common),
        FighterState::Land(l) => Some(l.grounded_common),
        FighterState::Turn(t) => Some(t.grounded_common),
        _ => None,
    }
}

/// A standing state `s`, standing on `g` instead.
pub open spec fn standing_on(s: FighterState, g: GroundedStateCommon) -> FighterState {
    match s {
        FighterState::Wait(w) => FighterState::Wait(WaitState { grounded_common: g, ..w }),
        FighterState::Walk(w) => FighterState::Walk(WalkState { grounded_common: g, ..w }),
        FighterState::Dash(d) => FighterState::Dash(DashState { ground_common: g, ..d }),
        FighterState::Run(r) => FighterState::Run(RunState { grounded_common: g, ..r }),
        FighterState::JumpSquat(j) => FighterState::JumpSquat(JumpSquatState { grounded_common: g, ..j }),
        FighterState::Land(l) => FighterState::Land(LandingState { grounded_common: g, ..l }),
        FighterState::Turn(t) => FighterState::Turn(TurnState { grounded_common: g, ..t }),
        _ => s,
    }
}

/// The states in which the fighter is in the air and may land.
pub open spec fn is_airborne(s: FighterState) -> bool {
    s is Fall || s is Jump || s is AirDodge
}

/// What the collision check of a state needs of the context and the stage.
pub open spec fn collision_ok(s: FighterState, c: &FighterStateContext, k: StageContacts) -> bool {
    match standing_common(s) {
        Some(_) => ground::grounded_collision_ok(c, k.floor_candidates@),
        None => is_airborne(s) ==> collision::hits_measurable(k.ray_hits@, c.translation.0),
    }
}

/// The transition the collision check of a state asks for.
pub open spec fn collision_interrupt_of(s: FighterState, c: &FighterStateContext, k: StageContacts) -> Option<FighterState> {
    match standing_common(s) {
        Some(_) => ground::left_floor(c, k.floor_candidates@),
        None => if is_airborne(s) {
            collision::air_landing(c, k.ray_hits@)
        } else {
            None
        },
    }
}

/// The state after its own collision check.
pub open spec fn collided_state(s: FighterState, c: &FighterStateContext, k: StageContacts) -> FighterState {
    match standing_common(s) {
        Some(g) => standing_on(s, ground::floor_after(g, c, k.floor_candidates@)),
        None => s,
    }
}

/// The context after the collision check of a state.
pub open spec fn collided_context<'a>(s: FighterState, c: FighterStateContext<'a>, k: StageContacts) -> FighterStateContext<'a> {
    match standing_common(s) {
        Some(_) => ground::context_after_floor(c, k.floor_candidates@),
        None => if is_airborne(s) {
            collision::context_after_landing(c, k.ray_hits@)
        } else {
            c
        },
    }
}

impl FighterState {
    /// Resolves the fighter against the stage after it moved: a standing
    /// fighter stays on the floor or falls, an airborne one may land.
    pub fn check_collision_interrupt(&mut self, ctx: &mut FighterStateContext, contacts: &StageContacts) -> (r:
        Option<FighterState>)
        requires
            collision_ok(*old(self), old(ctx), *contacts),
        ensures
            r == collision_interrupt_of(*old(self), old(ctx), *contacts),
            *final(self) == collided_state(*old(self), old(ctx), *contacts),
            *final(ctx) == collided_context(*old(self), *old(ctx), *contacts),
    {
        match self {
            FighterState::Wait(s) => s.check_collision_interrupt(ctx, contacts),
            FighterState::Walk(s) => s.check_collision_interrupt(ctx, contacts),
            FighterState::Dash(s) => s.check_collision_interrupt(ctx, contacts),
            FighterState::Run(s) => s.check_collision_interrupt(ctx, contacts),
            FighterState::Fall(s) => s.check_collision_interrupt(ctx, contacts),
            FighterState::JumpSquat(s) => s.check_collision_interrupt(ctx, contacts),
            FighterState::Jump(s) => s.check_collision_interrupt(ctx, contacts),
            FighterState::Land(s) => s.check_collision_interrupt(ctx, contacts),
            FighterState::AirDodge(s) => s.check_collision_interrupt(ctx, contacts),
            FighterState::Turn(s) => s.check_collision_interrupt(ctx, contacts),
            FighterState::GroundAttack(s) => s.check_collision_interrupt(ctx, contacts),
        }
    }
}

/// One collision check of a fighter: where its state asks for another, the
/// fighter enters that state. Returns whether the state changed.
pub fn state_collision_step(state: &mut FighterState, ctx: &mut FighterStateContext, contacts: &StageContacts) -> (changed: bool)
    requires
        collision_ok(*old(state), old(ctx), *contacts),
    ensures
        changed == collision_interrupt_of(*old(state), old(ctx), *contacts) is Some,
        match collision_interrupt_of(*old(state), old(ctx), *contacts) {
            Some(n) => *final(state) == n && entered_context(
                n,
                collided_context(*old(state), *old(ctx), *contacts),
                *final(ctx),
            ),
            None => {
                &&& *final(state) == collided_state(*old(state), old(ctx), *contacts)
                &&& *final(ctx) == collided_context(*old(state), *old(ctx), *contacts)
            },
        },
{
    match state.check_collision_interrupt(ctx, contacts) {
        Some(new_state) => {
            let mut new_state = new_state;
            new_state.on_enter(ctx);
            *state = new_state;
            true
        },
        None => false,
    }
}

/// One interrupt check of a fighter: where its state asks for another, the
/// fighter enters that state. Returns whether the state changed.
pub fn state_interrupt_step(state: &mut FighterState, ctx: &mut FighterStateContext) -> (changed: bool)
    requires
        interrupt_ok(*old(state), old(ctx)),
        interrupt_of(*old(state), old(ctx)) matches Some(n) ==> enter_ok(n, old(ctx)),
    ensures
        changed == interrupt_of(*old(state), old(ctx)) is Some,
        match interrupt_of(*old(state), old(ctx)) {
            Some(n) => *final(state) == n && entered_context(n, *old(ctx), *final(ctx)),
            None => *final(state) == *old(state) && *final(ctx) == *old(ctx),
        },
{
    match state.check_interrupt(ctx) {
        Some(new_state) => {
            let mut new_state = new_state;
            new_state.on_enter(ctx);
            *state = new_state;
            true
        },
        None => false,
    }
}

} // verus!
