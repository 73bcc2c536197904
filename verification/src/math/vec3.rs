//! Three-dimensional fixed-point vectors.

use crate::math::scalar::{
    abs_int, fixed_parse_q16, i128_fits, i32_fits, is_isqrt, lemma_isqrt_spec, q16_mul, q32_div,
    q32_sqrt, FGWide, FGi32,
};
use crate::math::vec::{lemma_norm_component_bounds, norm_component};
use vstd::prelude::*;

verus! {

/// A vector of three Q16.16 components.
#[derive(Clone, Copy, PartialEq, Eq, Structural, Debug, Hash)]
pub struct FGVec3 {
    pub x: FGi32,
    pub y: FGi32,
    pub z: FGi32,
}

pub open spec fn vec3(x: int, y: int, z: int) -> FGVec3 {
    FGVec3 { x: FGi32 { bits: x as i32 }, y: FGi32 { bits: y as i32 }, z: FGi32 { bits: z as i32 } }
}

pub open spec fn vec3_add_fits(a: FGVec3, b: FGVec3) -> bool {
    &&& i32_fits(a.x.bits + b.x.bits)
    &&& i32_fits(a.y.bits + b.y.bits)
    &&& i32_fits(a.z.bits + b.z.bits)
}

pub open spec fn vec3_sub_fits(a: FGVec3, b: FGVec3) -> bool {
    &&& i32_fits(a.x.bits - b.x.bits)
    &&& i32_fits(a.y.bits - b.y.bits)
    &&& i32_fits(a.z.bits - b.z.bits)
}

pub open spec fn vec3_neg_fits(a: FGVec3) -> bool {
    a.x.bits != i32::MIN && a.y.bits != i32::MIN && a.z.bits != i32::MIN
}

pub open spec fn vec3_add(a: FGVec3, b: FGVec3) -> FGVec3 {
    vec3(a.x.bits + b.x.bits, a.y.bits + b.y.bits, a.z.bits + b.z.bits)
}

pub open spec fn vec3_sub(a: FGVec3, b: FGVec3) -> FGVec3 {
    vec3(a.x.bits - b.x.bits, a.y.bits - b.y.bits, a.z.bits - b.z.bits)
}

pub open spec fn vec3_neg(a: FGVec3) -> FGVec3 {
    vec3(-a.x.bits, -a.y.bits, -a.z.bits)
}

pub open spec fn vec3_scale_fits(a: FGVec3, s: int) -> bool {
    &&& i32_fits(q16_mul(a.x.bits as int, s))
    &&& i32_fits(q16_mul(a.y.bits as int, s))
    &&& i32_fits(q16_mul(a.z.bits as int, s))
}

pub open spec fn vec3_scale(a: FGVec3, s: int) -> FGVec3 {
    vec3(q16_mul(a.x.bits as int, s), q16_mul(a.y.bits as int, s), q16_mul(a.z.bits as int, s))
}

/// Bits (Q96.32) of the dot product; exact.
pub open spec fn vec3_dot(a: FGVec3, b: FGVec3) -> int {
    a.x.bits * b.x.bits + a.y.bits * b.y.bits + a.z.bits * b.z.bits
}

pub open spec fn vec3_len_sq(a: FGVec3) -> int {
    vec3_dot(a, a)
}

/// The unit vector in the direction of `v` (its length computed in Q96.32),
/// or `None` for the zero vector.
pub open spec fn vec3_normalized(v: FGVec3) -> Option<FGVec3> {
    if vec3_len_sq(v) == 0 {
        None
    } else {
        let len = q32_sqrt(vec3_len_sq(v));
        Some(
            vec3(
                norm_component(v.x.bits as int, len),
                norm_component(v.y.bits as int, len),
                norm_component(v.z.bits as int, len),
            ),
        )
    }
}

proof fn lemma_square_bounds(a: int)
    requires
        i32_fits(a),
    ensures
        0 <= a * a <= 0x4000_0000_0000_0000,
{
    assert(0 <= a * a <= 0x4000_0000_0000_0000) by (nonlinear_arith)
        requires
            -0x8000_0000 <= a < 0x8000_0000,
    ;
}

proof fn lemma_product_bounds3(a: int, b: int)
    requires
        i32_fits(a),
        i32_fits(b),
    ensures
        -0x4000_0000_0000_0000 <= a * b <= 0x4000_0000_0000_0000,
{
    assert(-0x4000_0000_0000_0000 <= a * b <= 0x4000_0000_0000_0000) by (nonlinear_arith)
        requires
            -0x8000_0000 <= a < 0x8000_0000,
            -0x8000_0000 <= b < 0x8000_0000,
    ;
}

proof fn lemma_widened(a: int, b: int)
    ensures
        q32_mul_exact(a, b),
{
    assert((a * 65536) * (b * 65536) == (a * b) * 0x1_0000_0000) by (nonlinear_arith);
    vstd::arithmetic::div_mod::lemma_div_multiples_vanish(a * b, 0x1_0000_0000);
    assert((a * b) * 0x1_0000_0000 == 0x1_0000_0000 * (a * b)) by (nonlinear_arith);
}

pub open spec fn q32_mul_exact(a: int, b: int) -> bool {
    crate::math::scalar::q32_mul(a * 65536, b * 65536) == a * b
}

/// Product of two widened Q16.16 values in Q96.32: exact.
pub fn wide_product(a: FGi32, b: FGi32) -> (r: FGWide)
    ensures
        r.bits == a.bits * b.bits,
{
    proof {
        lemma_widened(a.bits as int, b.bits as int);
        lemma_product_bounds3(a.bits as int, b.bits as int);
    }
    FGWide::from_fx(a).mul(FGWide::from_fx(b))
}

impl FGVec3 {
    pub fn new(x: FGi32, y: FGi32, z: FGi32) -> (r: FGVec3)
        ensures
            r.x == x,
            r.y == y,
            r.z == z,
    {
        FGVec3 { x, y, z }
    }

    pub fn zero() -> (r: FGVec3)
        ensures
            r == vec3(0, 0, 0),
    {
        FGVec3 { x: FGi32::zero(), y: FGi32::zero(), z: FGi32::zero() }
    }

    /// Builds a vector from three decimal literals that are known to be valid.
    pub fn lit(x: &str, y: &str, z: &str) -> (r: FGVec3)
        requires
            fixed_parse_q16(x@) is Some,
            fixed_parse_q16(y@) is Some,
            fixed_parse_q16(z@) is Some,
        ensures
            r.x.bits == fixed_parse_q16(x@)->0,
            r.y.bits == fixed_parse_q16(y@)->0,
            r.z.bits == fixed_parse_q16(z@)->0,
    {
        FGVec3 { x: FGi32::lit(x), y: FGi32::lit(y), z: FGi32::lit(z) }
    }

    /// Builds a vector from three decimal literals; `None` unless all are
    /// valid.
    pub fn try_lit(x: &str, y: &str, z: &str) -> (r: Option<FGVec3>)
        ensures
            match r {
                Some(v) => fixed_parse_q16(x@) == Some(v.x.bits) && fixed_parse_q16(y@) == Some(v.y.bits)
                    && fixed_parse_q16(z@) == Some(v.z.bits),
                None => fixed_parse_q16(x@) is None || fixed_parse_q16(y@) is None || fixed_parse_q16(z@) is None,
            },
    {
        if FGi32::try_lit(x).is_some() && FGi32::try_lit(y).is_some() && FGi32::try_lit(z).is_some() {
            Some(FGVec3::lit(x, y, z))
        } else {
            None
        }
    }

    /// Dot product in Q96.32; exact and never overflows.
    pub fn dot(self, rhs: FGVec3) -> (r: FGWide)
        ensures
            r.bits == vec3_dot(self, rhs),
    {
        let px = wide_product(self.x, rhs.x);
        let py = wide_product(self.y, rhs.y);
        let pz = wide_product(self.z, rhs.z);
        proof {
            lemma_product_bounds3(self.x.bits as int, rhs.x.bits as int);
            lemma_product_bounds3(self.y.bits as int, rhs.y.bits as int);
            lemma_product_bounds3(self.z.bits as int, rhs.z.bits as int);
        }
        px.add(py).add(pz)
    }

    pub fn length_squared(self) -> (r: FGWide)
        ensures
            r.bits == vec3_len_sq(self),
    {
        self.dot(self)
    }

    /// The unit vector in the direction of `self`, or `None` for the zero
    /// vector.
    pub fn normalized(self) -> (r: Option<FGVec3>)
        ensures
            r == vec3_normalized(self),
    {
        let length_squared = self.length_squared();
        if length_squared.bits == 0 {
            return None;
        }
        proof {
            lemma_square_bounds(self.x.bits as int);
            lemma_square_bounds(self.y.bits as int);
            lemma_square_bounds(self.z.bits as int);
        }
        let length = length_squared.sqrt();
        proof {
            let ls = vec3_len_sq(self);
            lemma_isqrt_spec(ls * 0x1_0000_0000);
            lemma_norm_component_bounds(self.x.bits as int, ls, length.bits as int);
            lemma_norm_component_bounds(self.y.bits as int, ls, length.bits as int);
            lemma_norm_component_bounds(self.z.bits as int, ls, length.bits as int);
        }
        let x = FGWide::from_fx(self.x).div(length).to_fx();
        let y = FGWide::from_fx(self.y).div(length).to_fx();
        let z = FGWide::from_fx(self.z).div(length).to_fx();
        Some(FGVec3 { x, y, z })
    }

    pub fn add(self, rhs: FGVec3) -> (r: FGVec3)
        requires
            vec3_add_fits(self, rhs),
        ensures
            r == vec3_add(self, rhs),
    {
        FGVec3 { x: self.x.add(rhs.x), y: self.y.add(rhs.y), z: self.z.add(rhs.z) }
    }

    pub fn sub(self, rhs: FGVec3) -> (r: FGVec3)
        requires
            vec3_sub_fits(self, rhs),
        ensures
            r == vec3_sub(self, rhs),
    {
        FGVec3 { x: self.x.sub(rhs.x), y: self.y.sub(rhs.y), z: self.z.sub(rhs.z) }
    }

    pub fn neg(self) -> (r: FGVec3)
        requires
            vec3_neg_fits(self),
        ensures
            r == vec3_neg(self),
    {
        FGVec3 { x: self.x.neg(), y: self.y.neg(), z: self.z.neg() }
    }

    /// Product with a scalar.
    pub fn scale(self, s: FGi32) -> (r: FGVec3)
        requires
            vec3_scale_fits(self, s.bits as int),
        ensures
            r == vec3_scale(self, s.bits as int),
    {
        FGVec3 { x: self.x.mul(s), y: self.y.mul(s), z: self.z.mul(s) }
    }
}

} // verus!
