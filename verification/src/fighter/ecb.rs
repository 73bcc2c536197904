//! Environment collision box: the diamond used to resolve a fighter against
//! the stage.

use crate::math::scalar::FGi32;
use crate::math::vec::FGVec2;
use vstd::prelude::*;

verus! {

/// The current environment collision box.
#[derive(Clone, Copy, PartialEq, Eq, Structural, Debug)]
pub struct FighterECB {
    pub vertical_half: FGi32,
    pub horizontal_half: FGi32,
}

/// The environment collision box of the previous frame.
#[derive(Clone, Copy, PartialEq, Eq, Structural, Debug)]
pub struct FighterPreviousECB {
    pub vertical_half: FGi32,
    pub horizontal_half: FGi32,
}

impl From<FighterECB> for FighterPreviousECB {
    fn from(ecb: FighterECB) -> (r: FighterPreviousECB) {
        FighterPreviousECB { vertical_half: ecb.vertical_half, horizontal_half: ecb.horizontal_half }
    }
}

impl vstd::std_specs::convert::FromSpecImpl<FighterECB> for FighterPreviousECB {
    open spec fn obeys_from_spec() -> bool {
        true
    }

    open spec fn from_spec(ecb: FighterECB) -> FighterPreviousECB {
        FighterPreviousECB { vertical_half: ecb.vertical_half, horizontal_half: ecb.horizontal_half }
    }
}

impl FighterECB {
    /// The bottom of the diamond, relative to the fighter's position: the
    /// position is the fighter's feet.
    pub fn get_bottom_point(&self) -> (r: FGVec2)
        ensures
            r.x.bits == 0,
            r.y.bits == 0,
    {
        FGVec2::zero()
    }

    /// The box as it is now, to be compared against next frame.
    pub fn snapshot(&self) -> (r: FighterPreviousECB)
        ensures
            r.vertical_half == self.vertical_half,
            r.horizontal_half == self.horizontal_half,
    {
        FighterPreviousECB::from(*self)
    }
}

impl FighterPreviousECB {
    pub fn get_bottom_point(&self) -> (r: FGVec2)
        ensures
            r.x.bits == 0,
            r.y.bits == 0,
    {
        FGVec2::zero()
    }
}

} // verus!
