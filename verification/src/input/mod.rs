//! Input, from the sampled device state to the buffered per-fighter state
//! that the state machine reads.

pub mod buffer;
pub mod frame;
pub mod gamecube;
pub mod keyboard;
pub mod map;

use crate::game_settings::InputSettingsCommon;
use crate::input::frame::FighterInputFrame;
use crate::math::scalar::{abs_int, FGi32};
use vstd::prelude::*;

verus! {

/// Where a local player's input comes from; a gamepad is named by the id of
/// its entity.
#[derive(Clone, Copy, PartialEq, Eq, Structural, Debug)]
pub enum LocalInputSource {
    Keyboard,
    Gamepad(u64),
}

/// Maps player slots to input sources.
#[derive(Clone, Debug)]
pub struct LocalInputAssignments(pub Vec<(usize, LocalInputSource)>);

/// Some assignment is for `slot`.
pub open spec fn slot_taken(assignments: Seq<(usize, LocalInputSource)>, slot: int) -> bool {
    exists|k: int| 0 <= k < assignments.len() && #[trigger] assignments[k].0 == slot
}

impl LocalInputAssignments {
    /// The lowest of the sixteen player slots that no assignment uses.
    pub fn get_free_player_index(&self) -> (r: Option<usize>)
        ensures
            match r {
                Some(i) => i < 16 && !slot_taken(self.0@, i as int) && forall|j: int|
                    0 <= j < i ==> slot_taken(self.0@, j),
                None => forall|j: int| 0 <= j < 16 ==> slot_taken(self.0@, j),
            },
    {
        let mut i: usize = 0;
        while i < 16
            invariant
                i <= 16,
                forall|j: int| 0 <= j < i ==> slot_taken(self.0@, j),
            decreases 16 - i,
        {
            let mut found = false;
            let mut k: usize = 0;
            while k < self.0.len()
                invariant
                    k <= self.0@.len(),
                    found == exists|m: int| 0 <= m < k && #[trigger] self.0@[m].0 == i,
                decreases self.0@.len() - k,
            {
                if self.0[k].0 == i {
                    found = true;
                }
                k = k + 1;
            }
            if !found {
                return Some(i);
            }
            i = i + 1;
        }
        None
    }

    /// The source of the first assignment for `slot`.
    pub fn get_from_slot(&self, slot: usize) -> (r: Option<LocalInputSource>)
        ensures
            match r {
                Some(s) => exists|k: int|
                    0 <= k < self.0@.len() && self.0@[k] == (slot, s) && forall|m: int|
                        0 <= m < k ==> #[trigger] self.0@[m].0 != slot,
                None => !slot_taken(self.0@, slot as int),
            },
    {
        let mut k: usize = 0;
        while k < self.0.len()
            invariant
                k <= self.0@.len(),
                forall|m: int| 0 <= m < k ==> #[trigger] self.0@[m].0 != slot,
            decreases self.0@.len() - k,
        {
            if self.0[k].0 == slot {
                return Some(self.0[k].1);
            }
            k = k + 1;
        }
        None
    }
}

/// A stick axis inside the deadzone reads as centred.
pub open spec fn deadzone_axis(v: int, deadzone: int) -> int {
    if abs_int(v) < deadzone {
        0
    } else {
        v
    }
}

/// Centres each stick axis that is inside the deadzone.
pub fn preprocess_input_frame(frame: &mut FighterInputFrame, settings: &InputSettingsCommon)
    requires
        old(frame).movement.x.bits != i32::MIN,
        old(frame).movement.y.bits != i32::MIN,
    ensures
        final(frame).movement.x.bits == deadzone_axis(
            old(frame).movement.x.bits as int,
            settings.stick_deadzone.bits as int,
        ),
        final(frame).movement.y.bits == deadzone_axis(
            old(frame).movement.y.bits as int,
            settings.stick_deadzone.bits as int,
        ),
        final(frame).directional_attack == old(frame).directional_attack,
        final(frame).jump == old(frame).jump,
        final(frame).shield == old(frame).shield,
        final(frame).attack == old(frame).attack,
{
    if frame.movement.x.abs().bits < settings.stick_deadzone.bits {
        frame.movement.x = FGi32::zero();
    }
    if frame.movement.y.abs().bits < settings.stick_deadzone.bits {
        frame.movement.y = FGi32::zero();
    }
}


/// What a local player's frame is sampled from.
#[derive(Clone, Copy, PartialEq, Eq, Structural, Debug)]
pub enum FrameSource {
    Keyboard,
    Gamepad(u64),
    /// An assigned gamepad that is gone: a neutral frame.
    Neutral,
}

/// Where a local player's frame comes from: its assigned source, a
/// neutral frame when its assigned gamepad is gone; without an assignment,
/// the gamepad on its adapter port if there is one, else the keyboard.
pub open spec fn frame_source(
    assigned: Option<LocalInputSource>,
    assigned_pad_present: bool,
    port_pad: Option<u64>,
) -> FrameSource {
    match assigned {
        Some(LocalInputSource::Gamepad(entity)) => if assigned_pad_present {
            FrameSource::Gamepad(entity)
        } else {
            FrameSource::Neutral
        },
        Some(LocalInputSource::Keyboard) => FrameSource::Keyboard,
        None => match port_pad {
            Some(entity) => FrameSource::Gamepad(entity),
            None => FrameSource::Keyboard,
        },
    }
}

/// Chooses where a local player's frame is sampled from. `assigned` is the
/// player's assignment, `assigned_pad_present` whether an assigned gamepad
/// still exists, `port_pad` the gamepad on the player's adapter port, where
/// it exists.
pub fn choose_frame_source(
    assigned: Option<LocalInputSource>,
    assigned_pad_present: bool,
    port_pad: Option<u64>,
) -> (r: FrameSource)
    ensures
        r == frame_source(assigned, assigned_pad_present, port_pad),
{
    match assigned {
        Some(LocalInputSource::Gamepad(entity)) => if assigned_pad_present {
            FrameSource::Gamepad(entity)
        } else {
            FrameSource::Neutral
        },
        Some(LocalInputSource::Keyboard) => FrameSource::Keyboard,
        None => match port_pad {
            Some(entity) => FrameSource::Gamepad(entity),
            None => FrameSource::Keyboard,
        },
    }
}


/// Applying the deadzone twice changes nothing more than applying it once.
pub proof fn deadzone_is_idempotent(v: int, deadzone: int)
    ensures
        deadzone_axis(deadzone_axis(v, deadzone), deadzone) == deadzone_axis(v, deadzone),
{
}

} // verus!
