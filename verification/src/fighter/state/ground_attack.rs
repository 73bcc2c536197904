//! Grounded attacks.

use crate::fighter::attack::{
    active_hitbox_indices, attack_animation, script_of, update_active_hitbox_list, AttackKind,
};
use crate::fighter::state::ground::GroundedStateCommon;
use crate::fighter::state::wait::WaitState;
use crate::fighter::state::{
    animation_finished, animation_known, buffered, stick_y, with_animation, FighterState,
    FighterStateContext,
};
use crate::input::buffer::FighterCommands;
use vstd::prelude::*;

verus! {

#[derive(Clone, Copy, PartialEq, Eq, Structural, Debug, Hash)]
pub struct GroundAttackState {
    pub attack_kind: AttackKind,
    pub grounded_common: GroundedStateCommon,
}

/// A buffered attack press: an up tilt with the stick up, a jab otherwise.
pub open spec fn ground_attack_input(c: &FighterStateContext, g: GroundedStateCommon) -> Option<FighterState> {
    if buffered(c, FighterCommands::Attack) {
        Some(FighterState::GroundAttack(GroundAttackState {
            attack_kind: if stick_y(c) > 0 { AttackKind::UpTilt } else { AttackKind::Jab },
            grounded_common: g,
        }))
    } else {
        None
    }
}

/// The attack ends into standing still once its animation is over.
pub open spec fn ground_attack_interrupt(s: GroundAttackState, c: &FighterStateContext) -> Option<FighterState> {
    if animation_finished(c) {
        Some(FighterState::Wait(WaitState { grounded_common: s.grounded_common }))
    } else {
        None
    }
}

impl GroundAttackState {
    pub fn check_interrupt(&self, ctx: &FighterStateContext) -> (r: Option<FighterState>)
        requires
            animation_known(ctx),
        ensures
            r == ground_attack_interrupt(*self, ctx),
    {
        if ctx.is_current_animation_finished() {
            Some(FighterState::Wait(WaitState { grounded_common: self.grounded_common }))
        } else {
            None
        }
    }
}

/// Enters `GroundAttack` on a buffered attack press.
pub fn check_interrupt(ctx: &FighterStateContext, grounded_common: &GroundedStateCommon) -> (r: Option<FighterState>)
    ensures
        r == ground_attack_input(ctx, *grounded_common),
{
    if ctx.input.has_command(FighterCommands::Attack) {
        let attack_kind = if ctx.input.get_last_frame().movement.y.bits > 0 {
            AttackKind::UpTilt
        } else {
            AttackKind::Jab
        };
        Some(FighterState::GroundAttack(GroundAttackState { attack_kind, grounded_common: *grounded_common }))
    } else {
        None
    }
}


impl GroundAttackState {
    /// The attack's animation starts and its hitboxes are armed, none of
    /// them active yet.
    pub fn on_enter(&mut self, ctx: &mut FighterStateContext)
        requires
            script_of(old(ctx).attack_scripts.scripts@, old(self).attack_kind) is Some,
        ensures
            *final(self) == *old(self),
            final(ctx).hitboxes.attack_script == Some(old(self).attack_kind),
            final(ctx).hitboxes.active_hitboxes@.len() == 0,
            *final(ctx) == (FighterStateContext {
                hitboxes: final(ctx).hitboxes,
                ..with_animation(*old(ctx), attack_animation(old(self).attack_kind), false)
            }),
    {
        ctx.play_animation(self.attack_kind.get_animation(), false);
        ctx.hitboxes.attack_script = Some(self.attack_kind);
        ctx.hitboxes.active_hitboxes.clear();
    }

    /// Leaving the attack disarms its hitboxes.
    pub fn on_exit(&mut self, ctx: &mut FighterStateContext)
        ensures
            *final(self) == *old(self),
            final(ctx).hitboxes.attack_script is None,
            final(ctx).hitboxes.active_hitboxes@.len() == 0,
            *final(ctx) == (FighterStateContext { hitboxes: final(ctx).hitboxes, ..*old(ctx) }),
    {
        ctx.hitboxes.clear();
    }

    /// The hitboxes live on the current animation frame become the active
    /// ones.
    pub fn update(&mut self, ctx: &mut FighterStateContext)
        ensures
            *final(self) == *old(self),
            final(ctx).hitboxes.attack_script == old(ctx).hitboxes.attack_script,
            final(ctx).hitboxes.active_hitboxes@ == match script_of(old(ctx).attack_scripts.scripts@, old(self).attack_kind) {
                Some(script) => active_hitbox_indices(
                    script.hitboxes@,
                    old(ctx).animation_frame.frame,
                    script.hitboxes@.len() as int,
                ),
                None => old(ctx).hitboxes.active_hitboxes@,
            },
            *final(ctx) == (FighterStateContext { hitboxes: final(ctx).hitboxes, ..*old(ctx) }),
    {
        let scripts = ctx.attack_scripts;
        if let Some(script) = scripts.get(self.attack_kind) {
            let animation_frame = ctx.get_current_animation_frame();
            update_active_hitbox_list(script, &mut ctx.hitboxes.active_hitboxes, animation_frame);
        }
    }
}

impl GroundAttackState {
    /// An attack keeps the fighter where it is.
    pub fn check_collision_interrupt(
        &mut self,
        ctx: &mut FighterStateContext,
        _contacts: &crate::fighter::collision::StageContacts,
    ) -> (r: Option<FighterState>)
        ensures
            r is None,
            *final(self) == *old(self),
            *final(ctx) == *old(ctx),
    {
        None
    }
}

} // verus!
