//! Where a fighter is and how it moves.

use crate::fighter::baked_animation::{m4, FixedMat4};
use crate::fighter::FighterFacingDirection;
use crate::math::scalar::FGi32;
use crate::math::vec::FGVec2;
use crate::math::vec3::FGVec3;
use vstd::prelude::*;

verus! {

/// The fighter's velocity per frame.
#[derive(Clone, Copy, PartialEq, Eq, Structural, Debug)]
pub struct FighterVelocity(pub FGVec2);

/// The fighter's position on the previous frame.
#[derive(Clone, Copy, PartialEq, Eq, Structural, Debug)]
pub struct FighterPreviousTranslation(pub FGVec2);

/// The fighter's position (its feet).
#[derive(Clone, Copy, PartialEq, Eq, Structural, Debug)]
pub struct FighterTranslation(pub FGVec2);

/// Marks a fighter that stands on the ground.
#[derive(Clone, Copy, PartialEq, Eq, Structural, Debug)]
pub struct Grounded;

/// The quarter turns about Y that face a model the given way.
pub open spec fn facing_quarter_turns(d: FighterFacingDirection) -> int {
    match d {
        FighterFacingDirection::Left => 3,
        FighterFacingDirection::Right => 1,
    }
}

impl FighterTranslation {
    /// The fighter's model transform: turned to face its direction, placed
    /// at its position on the gameplay plane.
    pub fn get_3d_transform(&self, facing_dir: &FighterFacingDirection) -> (m: FixedMat4)
        ensures
            forall|c: int, rr: int|
                0 <= c < 3 && 0 <= rr < 4 ==> #[trigger] m4(m, c, rr) == rotated_identity_entry(
                    facing_quarter_turns(*facing_dir),
                    c,
                    rr,
                ),
            m4(m, 3, 0) == self.0.x.bits,
            m4(m, 3, 1) == self.0.y.bits,
            m4(m, 3, 2) == 0,
            m4(m, 3, 3) == 65536,
            m == fighter_transform(*self, *facing_dir),
    {
        let q: u8 = match facing_dir {
            FighterFacingDirection::Left => 3,
            FighterFacingDirection::Right => 1,
        };
        let id = FixedMat4::identity();
        proof {
            assert forall|c: int, r: int|
                0 <= c < 4 && 0 <= r < 4 && crate::fighter::baked_animation::rot_y_source(
                    q as int,
                    c,
                ).1 implies #[trigger] m4(
                id,
                crate::fighter::baked_animation::rot_y_source(q as int, c).0,
                r,
            ) != i32::MIN by {}
        }
        let mut o = id.rotate_y(q);
        let rotated = o;
        o.translate(FGVec3::new(self.0.x, self.0.y, FGi32::zero()));
        proof {
            assert forall|c: int, rr: int| 0 <= c < 3 && 0 <= rr < 4 implies #[trigger] m4(o, c, rr)
                == rotated_identity_entry(facing_quarter_turns(*facing_dir), c, rr) by {
                assert(m4(o, c, rr) == m4(rotated, c, rr));
            }
            let target = fighter_transform(*self, *facing_dir);
            assert forall|c: int, rr: int| 0 <= c < 4 && 0 <= rr < 4 implies #[trigger] m4(o, c, rr) == m4(target, c, rr) by {
                if c < 3 {
                    assert(m4(o, c, rr) == rotated_identity_entry(facing_quarter_turns(*facing_dir), c, rr));
                }
            }
            crate::fighter::baked_animation::lemma_mat4_ext(o, target);
        }
        o
    }
}

/// The model transform of a fighter at `t` facing `d`.
pub open spec fn fighter_transform(t: FighterTranslation, d: FighterFacingDirection) -> FixedMat4 {
    crate::fighter::baked_animation::matrix_from(
        |c: int, r: int|
            if c < 3 {
                rotated_identity_entry(facing_quarter_turns(d), c, r)
            } else if r == 0 {
                t.0.x.bits as int
            } else if r == 1 {
                t.0.y.bits as int
            } else if r == 2 {
                0
            } else {
                65536
            },
    )
}

/// Entry `(c, r)` of the identity turned by `q` quarter turns about Y.
pub open spec fn rotated_identity_entry(q: int, c: int, r: int) -> int {
    let src = crate::fighter::baked_animation::rot_y_source(q, c);
    let v: int = if src.0 == r {
        65536
    } else {
        0
    };
    if src.1 {
        -v
    } else {
        v
    }
}

} // verus!
