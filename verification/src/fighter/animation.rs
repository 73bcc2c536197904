//! The simulation-owned animation clock.

use vstd::prelude::*;

verus! {

/// The animations a fighter can play.
#[derive(Clone, Copy, PartialEq, Eq, Structural, Debug, Hash)]
pub enum AnimKind {
    Wait,
    Walk,
    Run,
    Dash,
    JumpSquat,
    JumpForward,
    JumpBack,
    DoubleJump,
    Landing,
    AirDodge,
    Fall,
    Turn,
    AttackJab1,
    AttackUpTilt,
    AttackForwardTilt,
    AttackDownTilt,
}

/// The animation being played and how many frames it has been playing.
/// Gameplay samples baked data only with this value.
#[derive(Clone, Copy, PartialEq, Eq, Structural, Debug, Hash)]
pub struct FighterAnimationFrame {
    pub kind: AnimKind,
    pub frame: u32,
    pub repeat: bool,
}

impl FighterAnimationFrame {
    /// An animation at its first frame.
    pub fn new(kind: AnimKind, repeat: bool) -> (r: FighterAnimationFrame)
        ensures
            r == (FighterAnimationFrame { kind, frame: 0, repeat }),
    {
        FighterAnimationFrame { kind, frame: 0, repeat }
    }

    /// Starts another animation at its first frame.
    pub fn reset(&mut self, kind: AnimKind, repeat: bool)
        ensures
            *final(self) == (FighterAnimationFrame { kind, frame: 0, repeat }),
    {
        self.kind = kind;
        self.frame = 0;
        self.repeat = repeat;
    }

    /// One frame later; the counter stops at its maximum.
    pub fn advance(&mut self)
        ensures
            final(self).kind == old(self).kind,
            final(self).repeat == old(self).repeat,
            final(self).frame == if old(self).frame == u32::MAX {
                u32::MAX as int
            } else {
                old(self).frame + 1
            },
    {
        self.frame = self.frame.saturating_add(1);
    }
}

} // verus!
