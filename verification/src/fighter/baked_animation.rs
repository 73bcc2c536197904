//! Deterministic, fighter-local skeletal animation samples for gameplay:
//! fixed-point matrices, baked clips and the per-fighter bone pose.

use crate::fighter::animation::{AnimKind, FighterAnimationFrame};
use crate::math::scalar::{i32_fits, q16_mul, FGWide, FGi32};
use crate::math::trig::sin_cos_spec;
use crate::math::vec3::{wide_product, FGVec3};
use vstd::arithmetic::div_mod::*;
use crate::keyed::{entries_map, entry_is_the_map_value, keys_unique, missing_key_is_not_mapped};
use vstd::prelude::*;

verus! {

/// The simulation rate that baked clips are sampled at.
pub const BAKED_ANIMATION_FPS: u32 = 60;

/// A column-major 4x4 matrix of Q16.16 values.
#[derive(Clone, Copy, PartialEq, Eq, Debug, Hash)]
pub struct FixedMat4 {
    pub cols: [[FGi32; 4]; 4],
}

/// The bits of the entry at column `c`, row `r`.
pub open spec fn m4(m: FixedMat4, c: int, r: int) -> int {
    m.cols[c][r].bits as int
}

/// Bits of entry `(c, r)` of the product `a * b`: the exact sum of the four
/// products (computed in Q96.32), narrowed toward negative infinity.
pub open spec fn mat4_entry(a: FixedMat4, b: FixedMat4, c: int, r: int) -> int {
    (m4(a, 0, r) * m4(b, c, 0) + m4(a, 1, r) * m4(b, c, 1) + m4(a, 2, r) * m4(b, c, 2) + m4(a, 3, r)
        * m4(b, c, 3)) / 65536
}

/// Every entry of `a * b` fits Q16.16.
pub open spec fn mat4_mul_fits(a: FixedMat4, b: FixedMat4) -> bool {
    forall|c: int, r: int| 0 <= c < 4 && 0 <= r < 4 ==> i32_fits(#[trigger] mat4_entry(a, b, c, r))
}

/// `m` is the product `a * b`.
pub open spec fn is_mat4_product(m: FixedMat4, a: FixedMat4, b: FixedMat4) -> bool {
    forall|c: int, r: int| 0 <= c < 4 && 0 <= r < 4 ==> #[trigger] m4(m, c, r) == mat4_entry(a, b, c, r)
}

/// Bits of coordinate `r` of the point `p` transformed by `m` (with an
/// implicit fourth coordinate of one).
pub open spec fn transform_coord(m: FixedMat4, p: FGVec3, r: int) -> int {
    (m4(m, 0, r) * p.x.bits + m4(m, 1, r) * p.y.bits + m4(m, 2, r) * p.z.bits + m4(m, 3, r) * 65536)
        / 65536
}

pub open spec fn transform_point_fits(m: FixedMat4, p: FGVec3) -> bool {
    &&& i32_fits(transform_coord(m, p, 0))
    &&& i32_fits(transform_coord(m, p, 1))
    &&& i32_fits(transform_coord(m, p, 2))
}

pub open spec fn transform_point_spec(m: FixedMat4, p: FGVec3) -> FGVec3 {
    FGVec3 {
        x: FGi32 { bits: transform_coord(m, p, 0) as i32 },
        y: FGi32 { bits: transform_coord(m, p, 1) as i32 },
        z: FGi32 { bits: transform_coord(m, p, 2) as i32 },
    }
}

/// `m` is the identity.
pub open spec fn is_identity(m: FixedMat4) -> bool {
    forall|c: int, r: int|
        0 <= c < 4 && 0 <= r < 4 ==> #[trigger] m4(m, c, r) == if c == r {
            65536int
        } else {
            0int
        }
}

/// `m` equals `old` except for the translation column, which holds `t`.
pub open spec fn with_translation_of(m: FixedMat4, old: FixedMat4, t: FGVec3) -> bool {
    &&& forall|c: int, r: int| 0 <= c < 3 && 0 <= r < 4 ==> #[trigger] m4(m, c, r) == m4(old, c, r)
    &&& m4(m, 3, 0) == t.x.bits
    &&& m4(m, 3, 1) == t.y.bits
    &&& m4(m, 3, 2) == t.z.bits
    &&& m4(m, 3, 3) == m4(old, 3, 3)
}

/// Column `c` of `m` after a rotation by `q` quarter turns about Y:
/// `(column index in self, negated)`.
pub open spec fn rot_y_source(q: int, c: int) -> (int, bool) {
    if c == 1 || c == 3 {
        (c, false)
    } else if q == 0 {
        (c, false)
    } else if q == 1 {
        if c == 0 {
            (2, true)
        } else {
            (0, false)
        }
    } else if q == 2 {
        (c, true)
    } else {
        if c == 0 {
            (2, false)
        } else {
            (0, true)
        }
    }
}

/// `m` is `old` rotated by `q` quarter turns about Y (applied on the right).
pub open spec fn is_rotated_y(m: FixedMat4, old: FixedMat4, q: int) -> bool {
    forall|c: int, r: int|
        0 <= c < 4 && 0 <= r < 4 ==> #[trigger] m4(m, c, r) == if rot_y_source(q, c).1 {
            -m4(old, rot_y_source(q, c).0, r)
        } else {
            m4(old, rot_y_source(q, c).0, r)
        }
}

/// Negating the columns a rotation negates does not overflow.
pub open spec fn rotate_y_fits(m: FixedMat4, q: int) -> bool {
    forall|c: int, r: int|
        0 <= c < 4 && 0 <= r < 4 && rot_y_source(q, c).1 ==> #[trigger] m4(
            m,
            rot_y_source(q, c).0,
            r,
        ) != i32::MIN
}

/// The nine rotation entries set by `with_rotation`, from the sines and
/// cosines of the three Euler angles.
pub open spec fn euler_entry(sx: int, cx: int, sy: int, cy: int, sz: int, cz: int, c: int, r: int) -> int {
    if c == 0 && r == 0 {
        q16_mul(cy, cz)
    } else if c == 0 && r == 1 {
        q16_mul(cx, sz) + q16_mul(q16_mul(sx, sy), cz)
    } else if c == 0 && r == 2 {
        q16_mul(sx, sz) - q16_mul(q16_mul(cx, sy), cz)
    } else if c == 1 && r == 0 {
        q16_mul(-cy, sz)
    } else if c == 1 && r == 1 {
        q16_mul(cx, cz) - q16_mul(q16_mul(sx, sy), sz)
    } else if c == 1 && r == 2 {
        q16_mul(sx, cz) + q16_mul(q16_mul(cx, sy), sz)
    } else if c == 2 && r == 0 {
        sy
    } else if c == 2 && r == 1 {
        q16_mul(-sx, cy)
    } else {
        q16_mul(cx, cy)
    }
}

/// `m` is `old` with its upper-left 3x3 block replaced by the XYZ Euler
/// rotation by `rot` (radians).
pub open spec fn with_rotation_of(m: FixedMat4, old: FixedMat4, rot: FGVec3) -> bool {
    let (sx, cx) = sin_cos_spec(rot.x.bits as int);
    let (sy, cy) = sin_cos_spec(rot.y.bits as int);
    let (sz, cz) = sin_cos_spec(rot.z.bits as int);
    &&& forall|c: int, r: int|
        0 <= c < 3 && 0 <= r < 3 ==> #[trigger] m4(m, c, r) == euler_entry(sx, cx, sy, cy, sz, cz, c, r)
    &&& forall|c: int| 0 <= c < 3 ==> #[trigger] m4(m, c, 3) == m4(old, c, 3)
    &&& forall|r: int| 0 <= r < 4 ==> #[trigger] m4(m, 3, r) == m4(old, 3, r)
}

proof fn lemma_product4_bounds(a: int, b: int)
    requires
        i32_fits(a),
        i32_fits(b),
    ensures
        -0x4000_0000_0000_0000 <= a * b <= 0x4000_0000_0000_0000,
{
    assert(-0x4000_0000_0000_0000 <= a * b <= 0x4000_0000_0000_0000) by (nonlinear_arith)
        requires
            -0x8000_0000 <= a < 0x8000_0000,
            -0x8000_0000 <= b < 0x8000_0000,
    ;
}

/// The sum of four products of Q16.16 values (exact in Q96.32), narrowed.
fn dot4(a0: FGi32, b0: FGi32, a1: FGi32, b1: FGi32, a2: FGi32, b2: FGi32, a3: FGi32, b3: FGi32) -> (r: FGi32)
    requires
        i32_fits(
            (a0.bits * b0.bits + a1.bits * b1.bits + a2.bits * b2.bits + a3.bits * b3.bits) / 65536,
        ),
    ensures
        r.bits == (a0.bits * b0.bits + a1.bits * b1.bits + a2.bits * b2.bits + a3.bits * b3.bits)
            / 65536,
{
    proof {
        lemma_product4_bounds(a0.bits as int, b0.bits as int);
        lemma_product4_bounds(a1.bits as int, b1.bits as int);
        lemma_product4_bounds(a2.bits as int, b2.bits as int);
        lemma_product4_bounds(a3.bits as int, b3.bits as int);
    }
    let value = wide_product(a0, b0).add(wide_product(a1, b1)).add(wide_product(a2, b2)).add(
        wide_product(a3, b3),
    );
    value.to_fx()
}

impl FixedMat4 {
    pub fn identity() -> (r: FixedMat4)
        ensures
            is_identity(r),
    {
        let o = FGi32::one();
        let z = FGi32::zero();
        FixedMat4 { cols: [[o, z, z, z], [z, o, z, z], [z, z, o, z], [z, z, z, o]] }
    }

    /// Entry `(c, r)` of the product `self * rhs`.
    fn product_entry(&self, rhs: &FixedMat4, c: usize, r: usize) -> (e: FGi32)
        requires
            c < 4,
            r < 4,
            i32_fits(mat4_entry(*self, *rhs, c as int, r as int)),
        ensures
            e.bits == mat4_entry(*self, *rhs, c as int, r as int),
    {
        dot4(
            self.cols[0][r],
            rhs.cols[c][0],
            self.cols[1][r],
            rhs.cols[c][1],
            self.cols[2][r],
            rhs.cols[c][2],
            self.cols[3][r],
            rhs.cols[c][3],
        )
    }

    /// The matrix product `self * rhs`, each entry rounded toward negative
    /// infinity.
    pub fn mul(self, rhs: FixedMat4) -> (m: FixedMat4)
        requires
            mat4_mul_fits(self, rhs),
        ensures
            is_mat4_product(m, self, rhs),
    {
        proof {
            assert(i32_fits(mat4_entry(self, rhs, 0, 0)));
            assert(i32_fits(mat4_entry(self, rhs, 0, 1)));
            assert(i32_fits(mat4_entry(self, rhs, 0, 2)));
            assert(i32_fits(mat4_entry(self, rhs, 0, 3)));
            assert(i32_fits(mat4_entry(self, rhs, 1, 0)));
            assert(i32_fits(mat4_entry(self, rhs, 1, 1)));
            assert(i32_fits(mat4_entry(self, rhs, 1, 2)));
            assert(i32_fits(mat4_entry(self, rhs, 1, 3)));
            assert(i32_fits(mat4_entry(self, rhs, 2, 0)));
            assert(i32_fits(mat4_entry(self, rhs, 2, 1)));
            assert(i32_fits(mat4_entry(self, rhs, 2, 2)));
            assert(i32_fits(mat4_entry(self, rhs, 2, 3)));
            assert(i32_fits(mat4_entry(self, rhs, 3, 0)));
            assert(i32_fits(mat4_entry(self, rhs, 3, 1)));
            assert(i32_fits(mat4_entry(self, rhs, 3, 2)));
            assert(i32_fits(mat4_entry(self, rhs, 3, 3)));
        }
        let c0 = [
            self.product_entry(&rhs, 0, 0),
            self.product_entry(&rhs, 0, 1),
            self.product_entry(&rhs, 0, 2),
            self.product_entry(&rhs, 0, 3),
        ];
        let c1 = [
            self.product_entry(&rhs, 1, 0),
            self.product_entry(&rhs, 1, 1),
            self.product_entry(&rhs, 1, 2),
            self.product_entry(&rhs, 1, 3),
        ];
        let c2 = [
            self.product_entry(&rhs, 2, 0),
            self.product_entry(&rhs, 2, 1),
            self.product_entry(&rhs, 2, 2),
            self.product_entry(&rhs, 2, 3),
        ];
        let c3 = [
            self.product_entry(&rhs, 3, 0),
            self.product_entry(&rhs, 3, 1),
            self.product_entry(&rhs, 3, 2),
            self.product_entry(&rhs, 3, 3),
        ];
        let m = FixedMat4 { cols: [c0, c1, c2, c3] };
        proof {
            assert forall|c: int, r: int| 0 <= c < 4 && 0 <= r < 4 implies #[trigger] m4(m, c, r)
                == mat4_entry(self, rhs, c, r) by {
                if c == 0 {
                    assert(m.cols[0] == c0);
                } else if c == 1 {
                    assert(m.cols[1] == c1);
                } else if c == 2 {
                    assert(m.cols[2] == c2);
                } else {
                    assert(m.cols[3] == c3);
                }
            }
        }
        m
    }

    /// Transforms a point (with an implicit fourth coordinate of one).
    pub fn transform_point(self, point: FGVec3) -> (r: FGVec3)
        requires
            transform_point_fits(self, point),
        ensures
            r == transform_point_spec(self, point),
    {
        let one = FGi32::one();
        let x = dot4(
            self.cols[0][0],
            point.x,
            self.cols[1][0],
            point.y,
            self.cols[2][0],
            point.z,
            self.cols[3][0],
            one,
        );
        let y = dot4(
            self.cols[0][1],
            point.x,
            self.cols[1][1],
            point.y,
            self.cols[2][1],
            point.z,
            self.cols[3][1],
            one,
        );
        let z = dot4(
            self.cols[0][2],
            point.x,
            self.cols[1][2],
            point.y,
            self.cols[2][2],
            point.z,
            self.cols[3][2],
            one,
        );
        FGVec3 { x, y, z }
    }

    /// Sets the translation column.
    pub fn translate(&mut self, translation: FGVec3)
        ensures
            with_translation_of(*final(self), *old(self), translation),
    {
        let c3 = [translation.x, translation.y, translation.z, self.cols[3][3]];
        self.cols = [self.cols[0], self.cols[1], self.cols[2], c3];
    }

    /// The matrix with its translation column set.
    pub fn with_translation(self, translation: FGVec3) -> (m: FixedMat4)
        ensures
            with_translation_of(m, self, translation),
    {
        let mut m = self;
        m.translate(translation);
        m
    }

    /// Replaces the rotation with XYZ Euler angles expressed in radians.
    pub fn with_rotation(self, rotation: FGVec3) -> (m: FixedMat4)
        ensures
            with_rotation_of(m, self, rotation),
    {
        let (sin_x, cos_x) = rotation.x.sin_cos();
        let (sin_y, cos_y) = rotation.y.sin_cos();
        let (sin_z, cos_z) = rotation.z.sin_cos();
        proof {
            lemma_euler_bounds(sin_x.bits as int, cos_x.bits as int, sin_y.bits as int, cos_y.bits as int, sin_z.bits as int, cos_z.bits as int);
        }
        let e00 = cos_y.mul(cos_z);
        let e01 = cos_x.mul(sin_z).add(sin_x.mul(sin_y).mul(cos_z));
        let e02 = sin_x.mul(sin_z).sub(cos_x.mul(sin_y).mul(cos_z));
        let e10 = cos_y.neg().mul(sin_z);
        let e11 = cos_x.mul(cos_z).sub(sin_x.mul(sin_y).mul(sin_z));
        let e12 = sin_x.mul(cos_z).add(cos_x.mul(sin_y).mul(sin_z));
        let e20 = sin_y;
        let e21 = sin_x.neg().mul(cos_y);
        let e22 = cos_x.mul(cos_y);
        let m = FixedMat4 {
            cols: [
                [e00, e01, e02, self.cols[0][3]],
                [e10, e11, e12, self.cols[1][3]],
                [e20, e21, e22, self.cols[2][3]],
                self.cols[3],
            ],
        };
        m
    }

    pub fn get_translation(&self) -> (r: FGVec3)
        ensures
            r.x.bits == m4(*self, 3, 0),
            r.y.bits == m4(*self, 3, 1),
            r.z.bits == m4(*self, 3, 2),
    {
        FGVec3::new(self.cols[3][0], self.cols[3][1], self.cols[3][2])
    }

    /// Rotates by `quarter_turns` quarter turns about the Y axis (applied on
    /// the right, as `self * rotation`).
    pub fn rotate_y(self, quarter_turns: u8) -> (m: FixedMat4)
        requires
            rotate_y_fits(self, (quarter_turns % 4) as int),
        ensures
            is_rotated_y(m, self, (quarter_turns % 4) as int),
    {
        let q: u8 = quarter_turns % 4;
        let s = self.cols;
        proof {
            assert(m4(self, 0, 0) == s[0][0].bits);
        }
        proof {
            if q == 1 {
                lemma_rot_fits_col(self, 1, 0, 2);
            } else if q == 2 {
                lemma_rot_fits_col(self, 2, 0, 0);
                lemma_rot_fits_col(self, 2, 2, 2);
            } else if q == 3 {
                lemma_rot_fits_col(self, 3, 2, 0);
            }
        }
        let m = if q == 0 {
            self
        } else if q == 1 {
            FixedMat4 { cols: [neg_col(s[2]), s[1], s[0], s[3]] }
        } else if q == 2 {
            FixedMat4 { cols: [neg_col(s[0]), s[1], neg_col(s[2]), s[3]] }
        } else {
            FixedMat4 { cols: [s[2], s[1], neg_col(s[0]), s[3]] }
        };
        proof {
            assert forall|c: int, r: int| 0 <= c < 4 && 0 <= r < 4 implies #[trigger] m4(m, c, r)
                == if rot_y_source(q as int, c).1 {
                -m4(self, rot_y_source(q as int, c).0, r)
            } else {
                m4(self, rot_y_source(q as int, c).0, r)
            } by {
                if rot_y_source(q as int, c).1 {
                    assert(m4(self, rot_y_source(q as int, c).0, r) != i32::MIN);
                }
            }
        }
        m
    }
}

proof fn lemma_rot_fits_col(m: FixedMat4, q: int, c: int, src: int)
    requires
        rotate_y_fits(m, q),
        0 <= c < 4,
        rot_y_source(q, c) == (src, true),
    ensures
        forall|i: int| 0 <= i < 4 ==> #[trigger] m.cols[src][i].bits != i32::MIN,
{
    assert forall|i: int| 0 <= i < 4 implies #[trigger] m.cols[src][i].bits != i32::MIN by {
        assert(m4(m, rot_y_source(q, c).0, i) != i32::MIN);
    }
}

/// A column with every entry negated.
fn neg_col(col: [FGi32; 4]) -> (r: [FGi32; 4])
    requires
        forall|i: int| 0 <= i < 4 ==> #[trigger] col[i].bits != i32::MIN,
    ensures
        forall|i: int| 0 <= i < 4 ==> #[trigger] r[i].bits == -col[i].bits,
{
    let r = [col[0].neg(), col[1].neg(), col[2].neg(), col[3].neg()];
    proof {
        assert forall|i: int| 0 <= i < 4 implies #[trigger] r[i].bits == -col[i].bits by {
            if i == 0 {
            } else if i == 1 {
            } else if i == 2 {
            } else {
            }
        }
    }
    r
}

proof fn lemma_mul_small(a: int, b: int)
    requires
        -0x4_0000 <= a <= 0x4_0000,
        -0x4_0000 <= b <= 0x4_0000,
    ensures
        -0x10_0000 <= q16_mul(a, b) <= 0x10_0000,
{
    assert(-0x10_0000 * 65536 <= a * b <= 0x10_0000 * 65536) by (nonlinear_arith)
        requires
            -0x4_0000 <= a <= 0x4_0000,
            -0x4_0000 <= b <= 0x4_0000,
    ;
    lemma_div_is_ordered(-0x10_0000 * 65536, a * b, 65536);
    lemma_div_is_ordered(a * b, 0x10_0000int * 65536, 65536);
}

proof fn lemma_mul_medium(a: int, b: int)
    requires
        -0x10_0000 <= a <= 0x10_0000,
        -0x4_0000 <= b <= 0x4_0000,
    ensures
        -0x40_0000 <= q16_mul(a, b) <= 0x40_0000,
{
    assert(-0x40_0000 * 65536 <= a * b <= 0x40_0000 * 65536) by (nonlinear_arith)
        requires
            -0x10_0000 <= a <= 0x10_0000,
            -0x4_0000 <= b <= 0x4_0000,
    ;
    lemma_div_is_ordered(-0x40_0000 * 65536, a * b, 65536);
    lemma_div_is_ordered(a * b, 0x40_0000int * 65536, 65536);
}

/// The Euler products of sines and cosines (each at most four in magnitude)
/// fit Q16.16.
proof fn lemma_euler_bounds(sx: int, cx: int, sy: int, cy: int, sz: int, cz: int)
    requires
        -0x4_0000 <= sx <= 0x4_0000,
        -0x4_0000 <= cx <= 0x4_0000,
        -0x4_0000 <= sy <= 0x4_0000,
        -0x4_0000 <= cy <= 0x4_0000,
        -0x4_0000 <= sz <= 0x4_0000,
        -0x4_0000 <= cz <= 0x4_0000,
    ensures
        -0x10_0000 <= q16_mul(cy, cz) <= 0x10_0000,
        -0x10_0000 <= q16_mul(cx, sz) <= 0x10_0000,
        -0x10_0000 <= q16_mul(sx, sy) <= 0x10_0000,
        -0x10_0000 <= q16_mul(sx, sz) <= 0x10_0000,
        -0x10_0000 <= q16_mul(cx, sy) <= 0x10_0000,
        -0x10_0000 <= q16_mul(-cy, sz) <= 0x10_0000,
        -0x10_0000 <= q16_mul(cx, cz) <= 0x10_0000,
        -0x10_0000 <= q16_mul(sx, cz) <= 0x10_0000,
        -0x10_0000 <= q16_mul(-sx, cy) <= 0x10_0000,
        -0x10_0000 <= q16_mul(cx, cy) <= 0x10_0000,
        -0x40_0000 <= q16_mul(q16_mul(sx, sy), cz) <= 0x40_0000,
        -0x40_0000 <= q16_mul(q16_mul(cx, sy), cz) <= 0x40_0000,
        -0x40_0000 <= q16_mul(q16_mul(sx, sy), sz) <= 0x40_0000,
        -0x40_0000 <= q16_mul(q16_mul(cx, sy), sz) <= 0x40_0000,
{
    lemma_mul_small(cy, cz);
    lemma_mul_small(cx, sz);
    lemma_mul_small(sx, sy);
    lemma_mul_small(sx, sz);
    lemma_mul_small(cx, sy);
    lemma_mul_small(-cy, sz);
    lemma_mul_small(cx, cz);
    lemma_mul_small(sx, cz);
    lemma_mul_small(-sx, cy);
    lemma_mul_small(cx, cy);
    lemma_mul_medium(q16_mul(sx, sy), cz);
    lemma_mul_medium(q16_mul(cx, sy), cz);
    lemma_mul_medium(q16_mul(sx, sy), sz);
    lemma_mul_medium(q16_mul(cx, sy), sz);
}


/// One parent-relative matrix per stored node, for each simulation frame.
#[derive(Clone, Debug)]
pub struct BakedAnimationClip {
    pub frames: Vec<Vec<FixedMat4>>,
}

/// The baked clips of a fighter: every frame of every animation, as fixed
/// point matrices, with the skeleton they belong to.
#[derive(Clone, Debug)]
pub struct BakedFighterAnimations {
    pub frame_rate: u32,
    /// Indexed exactly like every frame in each clip.
    pub bone_names: Vec<String>,
    /// Parent node for each stored node, indexed like `bone_names`.
    pub parents: Vec<Option<usize>>,
    pub clips: Vec<BakedAnimationClip>,
    /// Which clip each animation plays.
    pub clip_indices: Vec<(AnimKind, usize)>,
}

/// `j` is the first position of `names` that holds `name`.
pub open spec fn is_first_name(names: Seq<String>, name: Seq<char>, j: int) -> bool {
    &&& 0 <= j < names.len()
    &&& names[j]@ == name
    &&& forall|k: int| 0 <= k < j ==> (#[trigger] names[k])@ != name
}

/// The first position of `names` that holds `name`.
pub open spec fn name_position(names: Seq<String>, name: Seq<char>) -> Option<int> {
    if exists|j: int| is_first_name(names, name, j) {
        Some(choose|j: int| is_first_name(names, name, j))
    } else {
        None
    }
}

/// The first position of a slice of names that holds `name`.
pub fn position_of_name(names: &Vec<String>, name: &str) -> (r: Option<usize>)
    ensures
        match r {
            Some(i) => name_position(names@, name@) == Some(i as int),
            None => name_position(names@, name@) is None,
        },
{
    let target = name.to_string();
    proof {
        vstd::string::to_string_from_display_ensures_for_str(name, target);
    }
    let mut i: usize = 0;
    while i < names.len()
        invariant
            i <= names@.len(),
            target@ == name@,
            forall|k: int| 0 <= k < i ==> (#[trigger] names@[k])@ != name@,
        decreases names@.len() - i,
    {
        if names[i] == target {
            proof {
                assert(is_first_name(names@, name@, i as int));
                let c = choose|j: int| is_first_name(names@, name@, j);
                if c < i {
                    assert(names@[c]@ != name@);
                } else if c > i {
                    assert(names@[i as int]@ != name@);
                }
            }
            return Some(i);
        }
        i = i + 1;
    }
    proof {
        assert forall|j: int| !is_first_name(names@, name@, j) by {
            if 0 <= j < names@.len() {
                assert(names@[j]@ != name@);
            }
        }
    }
    None
}

/// `j` is the first entry of `indices` for `kind`.
pub open spec fn is_first_clip(indices: Seq<(AnimKind, usize)>, kind: AnimKind, j: int) -> bool {
    &&& 0 <= j < indices.len()
    &&& indices[j].0 == kind
    &&& forall|k: int| 0 <= k < j ==> (#[trigger] indices[k]).0 != kind
}

/// The clip that `kind` plays, as listed first in `indices`.
pub open spec fn clip_index_of(indices: Seq<(AnimKind, usize)>, kind: AnimKind) -> Option<usize> {
    if exists|j: int| is_first_clip(indices, kind, j) {
        Some(indices[choose|j: int| is_first_clip(indices, kind, j)].1)
    } else {
        None
    }
}

impl BakedFighterAnimations {
    /// No animation kind is listed twice, as in a map from kind to clip.
    pub open spec fn clips_keyed(&self) -> bool {
        keys_unique(self.clip_indices@)
    }
}

/// Where no kind is listed twice, the clip listed first for a kind is the
/// one the map from kind to clip holds.
pub proof fn clip_lookup_is_map_lookup(indices: Seq<(AnimKind, usize)>, kind: AnimKind)
    requires
        keys_unique(indices),
    ensures
        clip_index_of(indices, kind) == (if entries_map(indices).contains_key(kind) {
            Some(entries_map(indices)[kind])
        } else {
            None
        }),
{
    if exists|j: int| is_first_clip(indices, kind, j) {
        let c = choose|j: int| is_first_clip(indices, kind, j);
        entry_is_the_map_value(indices, kind, c);
    } else {
        assert forall|j: int| 0 <= j < indices.len() implies (#[trigger] indices[j]).0 != kind by {
            if indices[j].0 == kind {
                assert forall|k: int| 0 <= k < j implies (#[trigger] indices[k]).0 != kind by {
                    assert(indices[k].0 != indices[j].0);
                }
                assert(is_first_clip(indices, kind, j));
            }
        }
        missing_key_is_not_mapped(indices, kind);
    }
}

/// The clip that `kind` plays, if it is listed and stored.
pub open spec fn clip_of(b: BakedFighterAnimations, kind: AnimKind) -> Option<BakedAnimationClip> {
    match clip_index_of(b.clip_indices@, kind) {
        Some(i) => if i < b.clips@.len() {
            Some(b.clips@[i as int])
        } else {
            None
        },
        None => None,
    }
}

/// The loop length of a repeating clip of `len` frames, narrowed to `u32`.
pub open spec fn loop_frame_count(len: int) -> u32 {
    (if len - 1 > 1 {
        len - 1
    } else {
        1
    }) as u32
}

/// The frame that a clip of `len` frames shows for the animation clock
/// `frame`: repeating clips wrap (their last frame is the loop's first
/// again), finished one-shot clips hold their last frame.
pub open spec fn sampled_frame_index(len: int, frame: FighterAnimationFrame) -> int {
    let idx: int = if frame.repeat {
        frame.frame as int % loop_frame_count(len) as int
    } else {
        frame.frame as int
    };
    if idx < len {
        idx
    } else {
        len - 1
    }
}

/// Whether two names are equal.
pub open spec fn same_names(a: Seq<String>, i: int, j: int) -> bool {
    a[i]@ == a[j]@
}

impl BakedFighterAnimations {
    /// Whether the skeleton has a bone of this name.
    pub fn contains_bone(&self, bone: &str) -> (r: bool)
        ensures
            r == exists|j: int| 0 <= j < self.bone_names@.len() && (#[trigger] self.bone_names@[j])@ == bone@,
    {
        let p = position_of_name(&self.bone_names, bone);
        proof {
            if p is None {
                assert forall|j: int| 0 <= j < self.bone_names@.len() implies (#[trigger] self.bone_names@[j])@ != bone@ by {
                    if self.bone_names@[j]@ == bone@ {
                        lemma_first_name_exists(self.bone_names@, bone@, j);
                    }
                }
            } else {
                let c = choose|j: int| is_first_name(self.bone_names@, bone@, j);
                assert(self.bone_names@[c]@ == bone@);
            }
        }
        p.is_some()
    }

    /// Whether no two bones share a name.
    pub fn has_unique_bone_names(&self) -> (r: bool)
        ensures
            r == forall|i: int, j: int|
                0 <= i < j < self.bone_names@.len() ==> !same_names(self.bone_names@, i, j),
    {
        let n = self.bone_names.len();
        let mut j: usize = 0;
        while j < n
            invariant
                n == self.bone_names@.len(),
                j <= n,
                forall|a: int, b: int| 0 <= a < b < j ==> !same_names(self.bone_names@, a, b),
            decreases n - j,
        {
            let mut i: usize = 0;
            while i < j
                invariant
                    n == self.bone_names@.len(),
                    i <= j < n,
                    forall|a: int, b: int| 0 <= a < b < j ==> !same_names(self.bone_names@, a, b),
                    forall|a: int| 0 <= a < i ==> !same_names(self.bone_names@, a, j as int),
                decreases j - i,
            {
                if self.bone_names[i] == self.bone_names[j] {
                    proof {
                        assert(same_names(self.bone_names@, i as int, j as int));
                    }
                    return false;
                }
                i = i + 1;
            }
            j = j + 1;
        }
        true
    }

    fn clip_index(&self, kind: AnimKind) -> (r: Option<usize>)
        ensures
            r == clip_index_of(self.clip_indices@, kind),
    {
        let mut i: usize = 0;
        while i < self.clip_indices.len()
            invariant
                i <= self.clip_indices@.len(),
                forall|k: int| 0 <= k < i ==> (#[trigger] self.clip_indices@[k]).0 != kind,
            decreases self.clip_indices@.len() - i,
        {
            if self.clip_indices[i].0 == kind {
                proof {
                    assert(is_first_clip(self.clip_indices@, kind, i as int));
                    let c = choose|j: int| is_first_clip(self.clip_indices@, kind, j);
                    if c < i {
                        assert(self.clip_indices@[c].0 != kind);
                    } else if c > i {
                        assert(self.clip_indices@[i as int].0 != kind);
                    }
                }
                return Some(self.clip_indices[i].1);
            }
            i = i + 1;
        }
        proof {
            assert forall|j: int| !is_first_clip(self.clip_indices@, kind, j) by {
                if 0 <= j < self.clip_indices@.len() {
                    assert(self.clip_indices@[j].0 != kind);
                }
            }
        }
        None
    }

    fn clip(&self, kind: AnimKind) -> (r: Option<&BakedAnimationClip>)
        ensures
            match r {
                Some(c) => clip_of(*self, kind) == Some(*c),
                None => clip_of(*self, kind) is None,
            },
    {
        match self.clip_index(kind) {
            Some(i) => if i < self.clips.len() {
                Some(&self.clips[i])
            } else {
                None
            },
            None => None,
        }
    }

    /// How many frames the clip of `kind` holds.
    pub fn frame_count(&self, kind: AnimKind) -> (r: Option<u32>)
        ensures
            r == match clip_of(*self, kind) {
                Some(c) => Some(c.frames@.len() as u32),
                None => None,
            },
    {
        match self.clip(kind) {
            Some(c) => Some(c.frames.len() as u32),
            None => None,
        }
    }

    /// The pose that the animation clock shows: one matrix per stored node.
    pub fn sample_pose(&self, frame: &FighterAnimationFrame) -> (r: Option<&[FixedMat4]>)
        requires
            frame.repeat ==> (clip_of(*self, frame.kind) matches Some(c) ==> loop_frame_count(
                c.frames@.len() as int,
            ) != 0),
        ensures
            match clip_of(*self, frame.kind) {
                Some(c) => if c.frames@.len() == 0 {
                    r is None
                } else {
                    r is Some && r->0@ == c.frames@[sampled_frame_index(c.frames@.len() as int, *frame)]@
                },
                None => r is None,
            },
    {
        let clip = match self.clip(frame.kind) {
            Some(c) => c,
            None => return None,
        };
        let frames = &clip.frames;
        let len = frames.len();
        let frame_index: u32 = if frame.repeat {
            let loop_len: usize = if len.saturating_sub(1) > 1 { len.saturating_sub(1) } else { 1 };
            let loop_frame_count: u32 = loop_len as u32;
            frame.frame % loop_frame_count
        } else {
            frame.frame
        };
        if (frame_index as usize) < len {
            Some(frames[frame_index as usize].as_slice())
        } else if len > 0 {
            Some(frames[len - 1].as_slice())
        } else {
            None
        }
    }
}

proof fn lemma_first_name_exists(names: Seq<String>, name: Seq<char>, j: int)
    requires
        0 <= j < names.len(),
        names[j]@ == name,
    ensures
        exists|k: int| is_first_name(names, name, k),
    decreases j,
{
    if forall|k: int| 0 <= k < j ==> (#[trigger] names[k])@ != name {
        assert(is_first_name(names, name, j));
    } else {
        let k = choose|k: int| 0 <= k < j && (#[trigger] names[k])@ == name;
        lemma_first_name_exists(names, name, k);
    }
}


/// Entry `(c, r)` of the product, as a value.
pub open spec fn product_value(a: FixedMat4, b: FixedMat4, c: int, r: int) -> FGi32 {
    FGi32 { bits: mat4_entry(a, b, c, r) as i32 }
}

/// The product `a * b`.
pub open spec fn mat4_product(a: FixedMat4, b: FixedMat4) -> FixedMat4 {
    FixedMat4 {
        cols: [
            [product_value(a, b, 0, 0), product_value(a, b, 0, 1), product_value(a, b, 0, 2), product_value(a, b, 0, 3)],
            [product_value(a, b, 1, 0), product_value(a, b, 1, 1), product_value(a, b, 1, 2), product_value(a, b, 1, 3)],
            [product_value(a, b, 2, 0), product_value(a, b, 2, 1), product_value(a, b, 2, 2), product_value(a, b, 2, 3)],
            [product_value(a, b, 3, 0), product_value(a, b, 3, 1), product_value(a, b, 3, 2), product_value(a, b, 3, 3)],
        ],
    }
}

/// A product that fits is the product.
pub proof fn lemma_product_is_mat4_product(m: FixedMat4, a: FixedMat4, b: FixedMat4)
    requires
        mat4_mul_fits(a, b),
        is_mat4_product(m, a, b),
    ensures
        m == mat4_product(a, b),
{
    let p = mat4_product(a, b);
    assert forall|c: int, r: int| 0 <= c < 4 && 0 <= r < 4 implies m.cols[c][r] == p.cols[c][r] by {
        assert(m4(m, c, r) == mat4_entry(a, b, c, r));
        assert(i32_fits(mat4_entry(a, b, c, r)));
    }
    assert(m.cols[0] =~= p.cols[0]);
    assert(m.cols[1] =~= p.cols[1]);
    assert(m.cols[2] =~= p.cols[2]);
    assert(m.cols[3] =~= p.cols[3]);
    assert(m.cols =~= p.cols);
}


/// The uniform scale matrix with `s` on the spatial diagonal.
pub open spec fn scale_matrix(s: FGi32) -> FixedMat4 {
    let z = FGi32 { bits: 0 };
    let o = FGi32 { bits: 65536 };
    FixedMat4 { cols: [[s, z, z, z], [z, s, z, z], [z, z, s, z], [z, z, z, o]] }
}

/// The model-space transform of node `i`: its local transform composed
/// under those of its ancestors, following at most `fuel` parents. `None`
/// where a parent is out of range or the chain is longer than `fuel`.
pub open spec fn model_of(parents: Seq<Option<usize>>, local: Seq<FixedMat4>, i: int, fuel: nat) -> Option<FixedMat4>
    decreases fuel,
{
    if fuel == 0 || !(0 <= i < parents.len()) || !(0 <= i < local.len()) {
        None
    } else {
        match parents[i] {
            None => Some(local[i]),
            Some(p) => match model_of(parents, local, p as int, (fuel - 1) as nat) {
                Some(m) => Some(mat4_product(m, local[i])),
                None => None,
            },
        }
    }
}

/// Every product along the chain of node `i` fits.
pub open spec fn model_fits(parents: Seq<Option<usize>>, local: Seq<FixedMat4>, i: int, fuel: nat) -> bool
    decreases fuel,
{
    if fuel == 0 || !(0 <= i < parents.len()) || !(0 <= i < local.len()) {
        false
    } else {
        match parents[i] {
            None => true,
            Some(p) => {
                &&& model_fits(parents, local, p as int, (fuel - 1) as nat)
                &&& model_of(parents, local, p as int, (fuel - 1) as nat) matches Some(m)
                &&& mat4_mul_fits(m, local[i])
            },
        }
    }
}

/// The hierarchy resolves: every node's chain of parents ends within the
/// skeleton, every product along it fits, and so does the scaled result.
pub open spec fn pose_resolves(parents: Seq<Option<usize>>, local: Seq<FixedMat4>, scale: FGi32) -> bool {
    &&& parents.len() == local.len()
    &&& forall|i: int| 0 <= i < local.len() ==> #[trigger] model_fits(parents, local, i, local.len())
    &&& forall|i: int|
        0 <= i < local.len() ==> mat4_mul_fits(
            scale_matrix(scale),
            (#[trigger] model_of(parents, local, i, local.len()))->0,
        )
}

/// Once resolved, more fuel changes nothing.
proof fn lemma_model_fuel(parents: Seq<Option<usize>>, local: Seq<FixedMat4>, i: int, fuel: nat, more: nat)
    requires
        model_fits(parents, local, i, fuel),
        fuel <= more,
    ensures
        model_fits(parents, local, i, more),
        model_of(parents, local, i, more) == model_of(parents, local, i, fuel),
    decreases fuel,
{
    match parents[i] {
        None => {},
        Some(p) => {
            lemma_model_fuel(parents, local, p as int, (fuel - 1) as nat, (more - 1) as nat);
        },
    }
}

/// The model transform of node `index`, filling in `model` (a cache of
/// the nodes resolved so far) along the way.
fn resolve_model_transform(
    index: usize,
    parents: &[Option<usize>],
    local: &[FixedMat4],
    model: &mut Vec<Option<FixedMat4>>,
    Ghost(fuel): Ghost<nat>,
) -> (r: FixedMat4)
    requires
        parents@.len() == local@.len(),
        old(model)@.len() == local@.len(),
        model_fits(parents@, local@, index as int, fuel),
        fuel <= local@.len(),
        forall|j: int|
            0 <= j < local@.len() && (#[trigger] old(model)@[j]) is Some ==> model_fits(
                parents@,
                local@,
                j,
                local@.len(),
            ) && old(model)@[j] == model_of(parents@, local@, j, local@.len()),
    ensures
        final(model)@.len() == local@.len(),
        forall|j: int|
            0 <= j < local@.len() && (#[trigger] final(model)@[j]) is Some ==> model_fits(
                parents@,
                local@,
                j,
                local@.len(),
            ) && final(model)@[j] == model_of(parents@, local@, j, local@.len()),
        forall|j: int| 0 <= j < local@.len() && (#[trigger] old(model)@[j]) is Some ==> final(model)@[j] is Some,
        Some(r) == model_of(parents@, local@, index as int, local@.len()),
        final(model)@[index as int] == Some(r),
    decreases fuel,
{
    proof {
        lemma_model_fuel(parents@, local@, index as int, fuel, local@.len());
    }
    if let Some(value) = model[index] {
        return value;
    }
    let value = match parents[index] {
        Some(parent) => {
            let pm = resolve_model_transform(parent, parents, local, model, Ghost((fuel - 1) as nat));
            proof {
                lemma_model_fuel(parents@, local@, parent as int, (fuel - 1) as nat, local@.len());
            }
            let v = pm.mul(local[index]);
            proof {
                lemma_product_is_mat4_product(v, pm, local@[index as int]);
            }
            v
        },
        None => local[index],
    };
    model.set(index, Some(value));
    value
}

/// The current model-space pose of a fighter, recomputed every simulation
/// frame from its animation clock and its baked clips.
#[derive(Clone, Debug)]
pub struct FighterBoneMatrices {
    bone_names: Vec<String>,
    parents: Vec<Option<usize>>,
    matrices: Vec<FixedMat4>,
    previous_frame_matrices: Vec<FixedMat4>,
    local_matrices: Vec<FixedMat4>,
    previous_local_matrices: Vec<FixedMat4>,
}

impl FighterBoneMatrices {
    pub closed spec fn names(&self) -> Seq<String> {
        self.bone_names@
    }

    pub closed spec fn parents_view(&self) -> Seq<Option<usize>> {
        self.parents@
    }

    /// Model-space matrices of the current frame.
    pub closed spec fn current(&self) -> Seq<FixedMat4> {
        self.matrices@
    }

    /// Model-space matrices of the previous frame.
    pub closed spec fn previous(&self) -> Seq<FixedMat4> {
        self.previous_frame_matrices@
    }

    /// Parent-relative matrices of the current frame.
    pub closed spec fn locals(&self) -> Seq<FixedMat4> {
        self.local_matrices@
    }

    /// Parent-relative matrices of the previous frame.
    pub closed spec fn previous_locals(&self) -> Seq<FixedMat4> {
        self.previous_local_matrices@
    }

    /// No skeleton yet.
    pub fn new() -> (r: FighterBoneMatrices)
        ensures
            r.names().len() == 0,
            r.parents_view().len() == 0,
            r.current().len() == 0,
            r.previous().len() == 0,
            r.locals().len() == 0,
            r.previous_locals().len() == 0,
    {
        FighterBoneMatrices {
            bone_names: Vec::new(),
            parents: Vec::new(),
            matrices: Vec::new(),
            previous_frame_matrices: Vec::new(),
            local_matrices: Vec::new(),
            previous_local_matrices: Vec::new(),
        }
    }

    /// The previous and current model-space matrix of the first bone so
    /// named.
    pub fn get(&self, bone: &str) -> (r: Option<(FixedMat4, FixedMat4)>)
        ensures
            r == match name_position(self.names(), bone@) {
                Some(i) => if i < self.current().len() && i < self.previous().len() {
                    Some((self.previous()[i], self.current()[i]))
                } else {
                    None
                },
                None => None,
            },
    {
        match position_of_name(&self.bone_names, bone) {
            Some(i) => if i < self.matrices.len() && i < self.previous_frame_matrices.len() {
                Some((self.previous_frame_matrices[i], self.matrices[i]))
            } else {
                None
            },
            None => None,
        }
    }

    /// The current model-space matrix of the first bone so named.
    pub fn get_current(&self, bone: &str) -> (r: Option<FixedMat4>)
        ensures
            r == match name_position(self.names(), bone@) {
                Some(i) => if i < self.current().len() {
                    Some(self.current()[i])
                } else {
                    None
                },
                None => None,
            },
    {
        match position_of_name(&self.bone_names, bone) {
            Some(i) => if i < self.matrices.len() {
                Some(self.matrices[i])
            } else {
                None
            },
            None => None,
        }
    }

    /// The previous and current model-space matrix of node `index`.
    pub fn get_index(&self, index: usize) -> (r: Option<(FixedMat4, FixedMat4)>)
        ensures
            r == if index < self.previous().len() && index < self.current().len() {
                Some((self.previous()[index as int], self.current()[index as int]))
            } else {
                None
            },
    {
        if index < self.previous_frame_matrices.len() && index < self.matrices.len() {
            Some((self.previous_frame_matrices[index], self.matrices[index]))
        } else {
            None
        }
    }

    /// The current model-space matrix of node `index`.
    pub fn get_current_index(&self, index: usize) -> (r: Option<FixedMat4>)
        ensures
            r == if index < self.current().len() {
                Some(self.current()[index as int])
            } else {
                None
            },
    {
        if index < self.matrices.len() {
            Some(self.matrices[index])
        } else {
            None
        }
    }

    /// Each bone's name with its current model-space matrix, in order.
    pub fn iter(&self) -> (r: Vec<(&str, FixedMat4)>)
        ensures
            r@.len() == if self.names().len() < self.current().len() {
                self.names().len()
            } else {
                self.current().len()
            },
            forall|i: int|
                0 <= i < r@.len() ==> (#[trigger] r@[i]).0@ == self.names()[i]@ && r@[i].1
                    == self.current()[i],
    {
        let mut out: Vec<(&str, FixedMat4)> = Vec::new();
        let mut i: usize = 0;
        while i < self.bone_names.len() && i < self.matrices.len()
            invariant
                i <= self.bone_names@.len(),
                i <= self.matrices@.len(),
                out@.len() == i,
                forall|k: int|
                    0 <= k < i ==> (#[trigger] out@[k]).0@ == self.bone_names@[k]@ && out@[k].1
                        == self.matrices@[k],
            decreases self.bone_names@.len() - i,
        {
            out.push((self.bone_names[i].as_str(), self.matrices[i]));
            i = i + 1;
        }
        out
    }

    /// The current parent-relative matrix of node `index`.
    pub fn local(&self, index: usize) -> (r: Option<FixedMat4>)
        ensures
            r == if index < self.locals().len() {
                Some(self.locals()[index as int])
            } else {
                None
            },
    {
        if index < self.local_matrices.len() {
            Some(self.local_matrices[index])
        } else {
            None
        }
    }

    /// Moves to a new frame's pose: the current matrices become the previous
    /// ones, `local` becomes the current parent-relative pose, and each
    /// node's model-space matrix is its chain of parent-relative matrices
    /// composed, then scaled by `model_scale`. The skeleton is taken from the
    /// first pose and must not change afterwards.
    pub fn set_pose(
        &mut self,
        bone_names: &[String],
        parents: &[Option<usize>],
        local: &[FixedMat4],
        model_scale: FGi32,
    )
        requires
            bone_names@.len() == local@.len(),
            parents@.len() == local@.len(),
            old(self).names().len() > 0 ==> old(self).names() == bone_names@ && old(self).parents_view()
                == parents@,
            pose_resolves(parents@, local@, model_scale),
        ensures
            final(self).names() == if old(self).names().len() > 0 {
                old(self).names()
            } else {
                old(self).names() + bone_names@
            },
            final(self).parents_view() == if old(self).names().len() > 0 {
                old(self).parents_view()
            } else {
                old(self).parents_view() + parents@
            },
            final(self).previous() == old(self).current(),
            final(self).previous_locals() == old(self).locals(),
            final(self).locals() == local@,
            final(self).current().len() == local@.len(),
            forall|i: int|
                0 <= i < local@.len() ==> #[trigger] final(self).current()[i] == mat4_product(
                    scale_matrix(model_scale),
                    model_of(parents@, local@, i, local@.len())->0,
                ),
    {
        if self.bone_names.len() == 0 {
            let mut i: usize = 0;
            let ghost names0 = self.bone_names@;
            let ghost parents0 = self.parents@;
            while i < bone_names.len()
                invariant
                    i <= bone_names@.len(),
                    bone_names@.len() == parents@.len(),
                    self.bone_names@ == names0 + bone_names@.subrange(0, i as int),
                    self.parents@ == parents0 + parents@.subrange(0, i as int),
                    self.matrices@ == old(self).current(),
                    self.local_matrices@ == old(self).locals(),
                decreases bone_names@.len() - i,
            {
                self.bone_names.push(bone_names[i].clone());
                self.parents.push(parents[i]);
                proof {
                    assert(bone_names@.subrange(0, i + 1) == bone_names@.subrange(0, i as int).push(bone_names@[i as int]));
                    assert(parents@.subrange(0, i + 1) == parents@.subrange(0, i as int).push(parents@[i as int]));
                }
                i = i + 1;
            }
            proof {
                assert(bone_names@.subrange(0, i as int) == bone_names@);
                assert(parents@.subrange(0, i as int) == parents@);
            }
        }
        let ghost names1 = self.bone_names@;
        let ghost parents1 = self.parents@;
        assert(names1 == if old(self).names().len() > 0 {
            old(self).names()
        } else {
            old(self).names() + bone_names@
        });
        assert(parents1 == if old(self).names().len() > 0 {
            old(self).parents_view()
        } else {
            old(self).parents_view() + parents@
        });
        std::mem::swap(&mut self.matrices, &mut self.previous_frame_matrices);
        std::mem::swap(&mut self.local_matrices, &mut self.previous_local_matrices);
        self.local_matrices.clear();
        let n = local.len();
        let mut k: usize = 0;
        while k < n
            invariant
                n == local@.len(),
                k <= n,
                self.bone_names@ == names1,
                self.parents@ == parents1,
                self.previous_frame_matrices@ == old(self).current(),
                self.previous_local_matrices@ == old(self).locals(),
                self.local_matrices@ == local@.subrange(0, k as int),
            decreases n - k,
        {
            self.local_matrices.push(local[k]);
            proof {
                assert(local@.subrange(0, k + 1) == local@.subrange(0, k as int).push(local@[k as int]));
            }
            k = k + 1;
        }
        proof {
            assert(local@.subrange(0, n as int) == local@);
        }
        let mut model: Vec<Option<FixedMat4>> = Vec::new();
        let mut k: usize = 0;
        while k < n
            invariant
                n == local@.len(),
                k <= n,
                model@.len() == k,
                forall|j: int| 0 <= j < k ==> (#[trigger] model@[j]) is None,
            decreases n - k,
        {
            model.push(None);
            k = k + 1;
        }
        let mut index: usize = 0;
        while index < n
            invariant
                n == local@.len(),
                parents@.len() == n,
                index <= n,
                model@.len() == n,
                pose_resolves(parents@, local@, model_scale),
                forall|j: int|
                    0 <= j < n && (#[trigger] model@[j]) is Some ==> model_fits(parents@, local@, j, n as nat)
                        && model@[j] == model_of(parents@, local@, j, n as nat),
                forall|j: int| 0 <= j < index ==> (#[trigger] model@[j]) is Some,
            decreases n - index,
        {
            proof {
                assert(model_fits(parents@, local@, index as int, n as nat));
            }
            let ghost before = model@;
            resolve_model_transform(index, parents, local, &mut model, Ghost(n as nat));
            proof {
                assert forall|j: int| 0 <= j < index + 1 implies (#[trigger] model@[j]) is Some by {
                    if j < index {
                        assert(before[j] is Some);
                    }
                }
            }
            index = index + 1;
        }
        let scale = FixedMat4 {
            cols: [
                [model_scale, FGi32::zero(), FGi32::zero(), FGi32::zero()],
                [FGi32::zero(), model_scale, FGi32::zero(), FGi32::zero()],
                [FGi32::zero(), FGi32::zero(), model_scale, FGi32::zero()],
                [FGi32::zero(), FGi32::zero(), FGi32::zero(), FGi32::one()],
            ],
        };
        proof {
            assert(scale.cols =~= scale_matrix(model_scale).cols) by {
                assert(scale.cols[0] =~= scale_matrix(model_scale).cols[0]);
                assert(scale.cols[1] =~= scale_matrix(model_scale).cols[1]);
                assert(scale.cols[2] =~= scale_matrix(model_scale).cols[2]);
                assert(scale.cols[3] =~= scale_matrix(model_scale).cols[3]);
            }
        }
        let mut out: Vec<FixedMat4> = Vec::new();
        let mut k: usize = 0;
        while k < n
            invariant
                n == local@.len(),
                k <= n,
                model@.len() == n,
                scale == scale_matrix(model_scale),
                pose_resolves(parents@, local@, model_scale),
                forall|j: int|
                    0 <= j < n ==> (#[trigger] model@[j]) is Some && model@[j] == model_of(parents@, local@, j, n as nat),
                out@.len() == k,
                forall|j: int|
                    0 <= j < k ==> #[trigger] out@[j] == mat4_product(
                        scale_matrix(model_scale),
                        model_of(parents@, local@, j, n as nat)->0,
                    ),
            decreases n - k,
        {
            let m = match model[k] {
                Some(m) => m,
                None => FixedMat4::identity(),
            };
            proof {
                assert(model_of(parents@, local@, k as int, n as nat) is Some);
            }
            let scaled = scale.mul(m);
            proof {
                lemma_product_is_mat4_product(scaled, scale, m);
            }
            out.push(scaled);
            k = k + 1;
        }
        self.matrices = out;
    }
}

impl Default for FighterBoneMatrices {
    fn default() -> (r: FighterBoneMatrices)
        ensures
            r.names().len() == 0,
            r.parents_view().len() == 0,
            r.current().len() == 0,
            r.previous().len() == 0,
            r.locals().len() == 0,
            r.previous_locals().len() == 0,
    {
        FighterBoneMatrices::new()
    }
}


/// The matrix whose entry `(c, r)` is `e(c, r)`.
pub open spec fn matrix_from(e: spec_fn(int, int) -> int) -> FixedMat4 {
    FixedMat4 {
        cols: [
            [FGi32 { bits: e(0, 0) as i32 }, FGi32 { bits: e(0, 1) as i32 }, FGi32 { bits: e(0, 2) as i32 }, FGi32 { bits: e(0, 3) as i32 }],
            [FGi32 { bits: e(1, 0) as i32 }, FGi32 { bits: e(1, 1) as i32 }, FGi32 { bits: e(1, 2) as i32 }, FGi32 { bits: e(1, 3) as i32 }],
            [FGi32 { bits: e(2, 0) as i32 }, FGi32 { bits: e(2, 1) as i32 }, FGi32 { bits: e(2, 2) as i32 }, FGi32 { bits: e(2, 3) as i32 }],
            [FGi32 { bits: e(3, 0) as i32 }, FGi32 { bits: e(3, 1) as i32 }, FGi32 { bits: e(3, 2) as i32 }, FGi32 { bits: e(3, 3) as i32 }],
        ],
    }
}

/// Matrices with the same entries are the same matrix.
pub proof fn lemma_mat4_ext(a: FixedMat4, b: FixedMat4)
    requires
        forall|c: int, r: int| 0 <= c < 4 && 0 <= r < 4 ==> #[trigger] m4(a, c, r) == m4(b, c, r),
    ensures
        a == b,
{
    assert forall|c: int, r: int| 0 <= c < 4 && 0 <= r < 4 implies a.cols[c][r] == b.cols[c][r] by {
        assert(m4(a, c, r) == m4(b, c, r));
    }
    assert(a.cols[0] =~= b.cols[0]);
    assert(a.cols[1] =~= b.cols[1]);
    assert(a.cols[2] =~= b.cols[2]);
    assert(a.cols[3] =~= b.cols[3]);
    assert(a.cols =~= b.cols);
}

/// The identity rotated by the XYZ Euler angles `rot` (radians), then
/// translated by `t`.
pub open spec fn rotation_translation(rot: FGVec3, t: FGVec3) -> FixedMat4 {
    let (sx, cx) = sin_cos_spec(rot.x.bits as int);
    let (sy, cy) = sin_cos_spec(rot.y.bits as int);
    let (sz, cz) = sin_cos_spec(rot.z.bits as int);
    matrix_from(
        |c: int, r: int|
            if c < 3 && r < 3 {
                euler_entry(sx, cx, sy, cy, sz, cz, c, r)
            } else if c < 3 {
                0
            } else if r == 0 {
                t.x.bits as int
            } else if r == 1 {
                t.y.bits as int
            } else if r == 2 {
                t.z.bits as int
            } else {
                65536
            },
    )
}

impl FixedMat4 {
    /// The identity rotated by the XYZ Euler angles `rot`, then translated
    /// by `t`.
    pub fn from_rotation_translation(rot: FGVec3, t: FGVec3) -> (m: FixedMat4)
        ensures
            m == rotation_translation(rot, t),
    {
        let id = FixedMat4::identity();
        let r = id.with_rotation(rot);
        let m = r.with_translation(t);
        proof {
            let (sx, cx) = sin_cos_spec(rot.x.bits as int);
            let (sy, cy) = sin_cos_spec(rot.y.bits as int);
            let (sz, cz) = sin_cos_spec(rot.z.bits as int);
            let target = rotation_translation(rot, t);
            assert forall|c: int, rr: int| 0 <= c < 4 && 0 <= rr < 4 implies #[trigger] m4(m, c, rr) == m4(target, c, rr) by {
                if c < 3 {
                    assert(m4(m, c, rr) == m4(r, c, rr));
                    if rr < 3 {
                        assert(m4(r, c, rr) == euler_entry(sx, cx, sy, cy, sz, cz, c, rr));
                    } else {
                        assert(m4(r, c, 3) == m4(id, c, 3));
                    }
                } else if rr == 3 {
                    assert(m4(m, 3, 3) == m4(r, 3, 3));
                    assert(m4(r, 3, 3) == m4(id, 3, 3));
                }
            }
            lemma_mat4_ext(m, target);
        }
        m
    }
}


/// A repeating clip loops: the clock one loop later shows the same frame.
/// One-shot clips hold their last frame once the clock passes it.
pub proof fn sampling_wraps_and_holds(len: int, frame: FighterAnimationFrame, later: u32)
    requires
        len >= 1,
        loop_frame_count(len) != 0,
        later == frame.frame + loop_frame_count(len),
    ensures
        frame.repeat ==> sampled_frame_index(len, FighterAnimationFrame { frame: later, ..frame })
            == sampled_frame_index(len, frame),
        !frame.repeat && frame.frame >= len ==> sampled_frame_index(len, frame) == len - 1,
{
    let l = loop_frame_count(len) as int;
    assert((frame.frame as int + l) % l == (frame.frame as int) % l) by {
        vstd::arithmetic::div_mod::lemma_mod_add_multiples_vanish(frame.frame as int, l);
    }
}

/// The identity is neutral for the product, on both sides.
pub proof fn identity_is_neutral(id: FixedMat4, m: FixedMat4)
    requires
        is_identity(id),
    ensures
        mat4_mul_fits(id, m),
        mat4_mul_fits(m, id),
        mat4_product(id, m) == m,
        mat4_product(m, id) == m,
{
    assert forall|c: int, r: int| 0 <= c < 4 && 0 <= r < 4 implies #[trigger] mat4_entry(id, m, c, r) == m4(m, c, r) by {
        assert(m4(id, 0, r) == if r == 0 { 65536int } else { 0int });
        assert(m4(id, 1, r) == if r == 1 { 65536int } else { 0int });
        assert(m4(id, 2, r) == if r == 2 { 65536int } else { 0int });
        assert(m4(id, 3, r) == if r == 3 { 65536int } else { 0int });
        assert(mat4_entry(id, m, c, r) == (65536 * m4(m, c, r)) / 65536) by (nonlinear_arith)
            requires
                mat4_entry(id, m, c, r) == (m4(id, 0, r) * m4(m, c, 0) + m4(id, 1, r) * m4(m, c, 1) + m4(id, 2, r)
                    * m4(m, c, 2) + m4(id, 3, r) * m4(m, c, 3)) / 65536,
                (r == 0 ==> m4(id, 0, r) == 65536 && m4(id, 1, r) == 0 && m4(id, 2, r) == 0 && m4(id, 3, r) == 0),
                (r == 1 ==> m4(id, 0, r) == 0 && m4(id, 1, r) == 65536 && m4(id, 2, r) == 0 && m4(id, 3, r) == 0),
                (r == 2 ==> m4(id, 0, r) == 0 && m4(id, 1, r) == 0 && m4(id, 2, r) == 65536 && m4(id, 3, r) == 0),
                (r == 3 ==> m4(id, 0, r) == 0 && m4(id, 1, r) == 0 && m4(id, 2, r) == 0 && m4(id, 3, r) == 65536),
                0 <= r < 4,
        ;
    }
    assert forall|c: int, r: int| 0 <= c < 4 && 0 <= r < 4 implies #[trigger] mat4_entry(m, id, c, r) == m4(m, c, r) by {
        assert(m4(id, c, 0) == if c == 0 { 65536int } else { 0int });
        assert(m4(id, c, 1) == if c == 1 { 65536int } else { 0int });
        assert(m4(id, c, 2) == if c == 2 { 65536int } else { 0int });
        assert(m4(id, c, 3) == if c == 3 { 65536int } else { 0int });
        assert(mat4_entry(m, id, c, r) == (m4(m, c, r) * 65536) / 65536) by (nonlinear_arith)
            requires
                mat4_entry(m, id, c, r) == (m4(m, 0, r) * m4(id, c, 0) + m4(m, 1, r) * m4(id, c, 1) + m4(m, 2, r)
                    * m4(id, c, 2) + m4(m, 3, r) * m4(id, c, 3)) / 65536,
                (c == 0 ==> m4(id, c, 0) == 65536 && m4(id, c, 1) == 0 && m4(id, c, 2) == 0 && m4(id, c, 3) == 0),
                (c == 1 ==> m4(id, c, 0) == 0 && m4(id, c, 1) == 65536 && m4(id, c, 2) == 0 && m4(id, c, 3) == 0),
                (c == 2 ==> m4(id, c, 0) == 0 && m4(id, c, 1) == 0 && m4(id, c, 2) == 65536 && m4(id, c, 3) == 0),
                (c == 3 ==> m4(id, c, 0) == 0 && m4(id, c, 1) == 0 && m4(id, c, 2) == 0 && m4(id, c, 3) == 65536),
                0 <= c < 4,
        ;
    }
    lemma_mat4_ext(mat4_product(id, m), m);
    lemma_mat4_ext(mat4_product(m, id), m);
}

/// Setting the translation then reading it gives it back, and changing the
/// rotation leaves the translation as it was.
pub proof fn translation_survives_builders(m: FixedMat4, before: FixedMat4, t: FGVec3, n: FixedMat4, rot: FGVec3)
    requires
        with_translation_of(m, before, t),
        with_rotation_of(n, m, rot),
    ensures
        m4(m, 3, 0) == t.x.bits && m4(m, 3, 1) == t.y.bits && m4(m, 3, 2) == t.z.bits,
        m4(n, 3, 0) == t.x.bits && m4(n, 3, 1) == t.y.bits && m4(n, 3, 2) == t.z.bits,
{
    assert(m4(n, 3, 0) == m4(m, 3, 0));
    assert(m4(n, 3, 1) == m4(m, 3, 1));
    assert(m4(n, 3, 2) == m4(m, 3, 2));
}

/// A quarter turn about Y followed by three more gives back the matrix.
pub proof fn four_quarter_turns_restore(m: FixedMat4, m1: FixedMat4, m2: FixedMat4)
    requires
        is_rotated_y(m1, m, 1),
        is_rotated_y(m2, m1, 3),
    ensures
        m2 == m,
{
    assert forall|c: int, r: int| 0 <= c < 4 && 0 <= r < 4 implies #[trigger] m4(m2, c, r) == m4(m, c, r) by {
        assert(m4(m2, c, r) == if rot_y_source(3, c).1 {
            -m4(m1, rot_y_source(3, c).0, r)
        } else {
            m4(m1, rot_y_source(3, c).0, r)
        });
        assert(m4(m1, 0, r) == -m4(m, 2, r));
        assert(m4(m1, 1, r) == m4(m, 1, r));
        assert(m4(m1, 2, r) == m4(m, 0, r));
        assert(m4(m1, 3, r) == m4(m, 3, r));
    }
    lemma_mat4_ext(m2, m);
}

} // verus!
