//! Two-dimensional fixed-point vectors.

use crate::math::scalar::{
    abs_int, fixed_parse_q16, floor_div_i128, i128_fits, i32_fits, i64_fits, is_isqrt, isqrt,
    lemma_isqrt_nonneg, lemma_isqrt_spec, q16_div, q16_mul, q32_div, q32_mul, q32_sqrt,
    q32_sqrt_i64, trunc_div_i128, FGWide, FGi32,
};
use vstd::arithmetic::div_mod::*;
use vstd::prelude::*;

verus! {

/// A vector of two Q16.16 components.
#[derive(Clone, Copy, PartialEq, Eq, Structural, Debug, Hash)]
pub struct FGVec2 {
    pub x: FGi32,
    pub y: FGi32,
}

/// `a - b` fits componentwise.
pub open spec fn vec2_sub_fits(a: FGVec2, b: FGVec2) -> bool {
    i32_fits(a.x.bits - b.x.bits) && i32_fits(a.y.bits - b.y.bits)
}

/// `a + b` fits componentwise.
pub open spec fn vec2_add_fits(a: FGVec2, b: FGVec2) -> bool {
    i32_fits(a.x.bits + b.x.bits) && i32_fits(a.y.bits + b.y.bits)
}

pub open spec fn vec2_sub(a: FGVec2, b: FGVec2) -> FGVec2 {
    FGVec2 {
        x: FGi32 { bits: (a.x.bits - b.x.bits) as i32 },
        y: FGi32 { bits: (a.y.bits - b.y.bits) as i32 },
    }
}

pub open spec fn vec2_add(a: FGVec2, b: FGVec2) -> FGVec2 {
    FGVec2 {
        x: FGi32 { bits: (a.x.bits + b.x.bits) as i32 },
        y: FGi32 { bits: (a.y.bits + b.y.bits) as i32 },
    }
}

/// Bits (Q96.32) of the dot product: exact, since each product of two
/// widened Q16.16 values needs no rounding.
pub open spec fn vec2_dot(a: FGVec2, b: FGVec2) -> int {
    a.x.bits * b.x.bits + a.y.bits * b.y.bits
}

/// Bits (Q96.32) of the squared length.
pub open spec fn vec2_len_sq(v: FGVec2) -> int {
    vec2_dot(v, v)
}

/// Bits (Q16.16) of the length: the square root of the squared length,
/// rounded down, then narrowed.
pub open spec fn vec2_length(v: FGVec2) -> int {
    q32_sqrt(vec2_len_sq(v)) / 65536
}

/// The length fits a Q16.16 value.
pub open spec fn vec2_length_fits(v: FGVec2) -> bool {
    i32_fits(vec2_length(v))
}

/// `length - 1` is within six raw units of zero.
pub open spec fn vec2_is_normalized(v: FGVec2) -> bool {
    abs_int(vec2_length(v) - 65536) <= 6
}

/// One component of a normalised vector: the component widened to Q32.32,
/// divided by the length (computed in Q32.32), then narrowed.
pub open spec fn norm_component(c: int, len: int) -> int {
    q32_div(c * 65536, len) / 65536
}

/// Bits (Q32.32) of the length used by `normalize`.
pub open spec fn vec2_norm_len(v: FGVec2) -> int {
    q32_sqrt(vec2_len_sq(v))
}

/// The unit vector in the direction of `v`, or `None` for the zero vector.
pub open spec fn vec2_normalize(v: FGVec2) -> Option<FGVec2> {
    if vec2_len_sq(v) == 0 {
        None
    } else {
        Some(
            FGVec2 {
                x: FGi32 { bits: norm_component(v.x.bits as int, vec2_norm_len(v)) as i32 },
                y: FGi32 { bits: norm_component(v.y.bits as int, vec2_norm_len(v)) as i32 },
            },
        )
    }
}

/// `normalize` does not overflow: only both components at `i32::MIN` make
/// the Q32.32 squared length overflow.
pub open spec fn vec2_normalize_ok(v: FGVec2) -> bool {
    !(v.x.bits == i32::MIN && v.y.bits == i32::MIN)
}

/// The unit vector in the direction of `v`, or the zero vector.
pub open spec fn vec2_normalize_or_zero(v: FGVec2) -> FGVec2 {
    match vec2_normalize(v) {
        Some(n) => n,
        None => FGVec2 { x: FGi32 { bits: 0 }, y: FGi32 { bits: 0 } },
    }
}

/// One component of a projection: `(c widened) * scale`, narrowed.
pub open spec fn proj_component(c: int, scale: int) -> int {
    q32_mul(c * 65536, scale) / 65536
}

pub open spec fn proj_component_fits(c: int, scale: int) -> bool {
    i128_fits(q32_mul(c * 65536, scale)) && i32_fits(proj_component(c, scale))
}

/// Bits (Q96.32) of the scale of the projection of `a` onto `b`.
pub open spec fn vec2_project_scale(a: FGVec2, b: FGVec2) -> int {
    q32_div(vec2_dot(a, b), vec2_len_sq(b))
}

proof fn lemma_dot_bounds(a: FGVec2, b: FGVec2)
    ensures
        -0x8000_0000_0000_0000 <= vec2_dot(a, b) <= 0x8000_0000_0000_0000,
{
    let ax = a.x.bits as int;
    let ay = a.y.bits as int;
    let bx = b.x.bits as int;
    let by = b.y.bits as int;
    assert(-0x4000_0000_0000_0000 <= ax * bx <= 0x4000_0000_0000_0000) by (nonlinear_arith)
        requires
            -0x8000_0000 <= ax < 0x8000_0000,
            -0x8000_0000 <= bx < 0x8000_0000,
    ;
    assert(-0x4000_0000_0000_0000 <= ay * by <= 0x4000_0000_0000_0000) by (nonlinear_arith)
        requires
            -0x8000_0000 <= ay < 0x8000_0000,
            -0x8000_0000 <= by < 0x8000_0000,
    ;
}

proof fn lemma_widened_product(a: int, b: int)
    ensures
        q32_mul(a * 65536, b * 65536) == a * b,
{
    assert((a * 65536) * (b * 65536) == (a * b) * 0x1_0000_0000) by (nonlinear_arith);
    lemma_div_multiples_vanish(a * b, 0x1_0000_0000);
    assert((a * b) * 0x1_0000_0000 == 0x1_0000_0000 * (a * b)) by (nonlinear_arith);
}

/// A normalised component is at most one in magnitude.
pub proof fn lemma_norm_component_bounds(c: int, ls: int, len: int)
    requires
        i32_fits(c),
        ls >= c * c,
        ls > 0,
        is_isqrt(ls * 0x1_0000_0000, len),
    ensures
        len > 0,
        abs_int(c * 65536 * 0x1_0000_0000) / len <= 0x1_0000_0000,
        i64_fits(q32_div(c * 65536, len)),
        -65536 <= norm_component(c, len) <= 65536,
{
    let w = c * 65536;
    assert(ls * 0x1_0000_0000 >= w * w) by (nonlinear_arith)
        requires
            ls >= c * c,
            w == c * 65536,
    ;
    assert(ls * 0x1_0000_0000 >= 0x1_0000_0000) by (nonlinear_arith)
        requires
            ls > 0,
    ;
    // len + 1 > |w|, so len >= |w|
    assert(len >= abs_int(w)) by (nonlinear_arith)
        requires
            (len + 1) * (len + 1) > w * w,
            len >= 0,
    ;
    assert(len > 0) by (nonlinear_arith)
        requires
            (len + 1) * (len + 1) > 0x1_0000_0000,
            len >= 0,
    ;
    let n = abs_int(w * 0x1_0000_0000);
    assert(n <= len * 0x1_0000_0000) by (nonlinear_arith)
        requires
            n == abs_int(w * 0x1_0000_0000),
            len >= abs_int(w),
    ;
    lemma_div_is_ordered(n, len * 0x1_0000_0000, len);
    lemma_div_by_multiple(0x1_0000_0000, len);
    assert((len * 0x1_0000_0000) / len == 0x1_0000_0000) by (nonlinear_arith)
        requires
            (0x1_0000_0000 * len) / len == 0x1_0000_0000,
    ;
    let q = q32_div(w, len);
    assert(-0x1_0000_0000 <= q <= 0x1_0000_0000);
    lemma_div_is_ordered(-0x1_0000_0000, q, 65536);
    lemma_div_is_ordered(q, 0x1_0000_0000, 65536);
}

impl From<(FGi32, FGi32)> for FGVec2 {
    fn from(value: (FGi32, FGi32)) -> (r: FGVec2) {
        FGVec2 { x: value.0, y: value.1 }
    }
}

impl vstd::std_specs::convert::FromSpecImpl<(FGi32, FGi32)> for FGVec2 {
    open spec fn obeys_from_spec() -> bool {
        true
    }

    open spec fn from_spec(value: (FGi32, FGi32)) -> FGVec2 {
        FGVec2 { x: value.0, y: value.1 }
    }
}

impl FGVec2 {
    pub fn new(x: FGi32, y: FGi32) -> (r: FGVec2)
        ensures
            r.x == x,
            r.y == y,
    {
        FGVec2 { x, y }
    }

    pub fn zero() -> (r: FGVec2)
        ensures
            r.x.bits == 0,
            r.y.bits == 0,
    {
        FGVec2 { x: FGi32::zero(), y: FGi32::zero() }
    }

    /// Builds a vector from two integers, which must be representable.
    pub fn from_i32(x: i32, y: i32) -> (r: FGVec2)
        requires
            -32768 <= x < 32768,
            -32768 <= y < 32768,
        ensures
            r.x.bits == x * 65536,
            r.y.bits == y * 65536,
    {
        FGVec2 { x: FGi32::from_int(x), y: FGi32::from_int(y) }
    }

    /// Builds a vector from two decimal literals that are known to be valid.
    pub fn lit(x: &str, y: &str) -> (r: FGVec2)
        requires
            fixed_parse_q16(x@) is Some,
            fixed_parse_q16(y@) is Some,
        ensures
            r.x.bits == fixed_parse_q16(x@)->0,
            r.y.bits == fixed_parse_q16(y@)->0,
    {
        FGVec2 { x: FGi32::lit(x), y: FGi32::lit(y) }
    }

    /// Builds a vector from two decimal literals; `None` unless both are
    /// valid.
    pub fn try_lit(x: &str, y: &str) -> (r: Option<FGVec2>)
        ensures
            match r {
                Some(v) => fixed_parse_q16(x@) == Some(v.x.bits) && fixed_parse_q16(y@) == Some(v.y.bits),
                None => fixed_parse_q16(x@) is None || fixed_parse_q16(y@) is None,
            },
    {
        if FGi32::try_lit(x).is_some() && FGi32::try_lit(y).is_some() {
            Some(FGVec2::lit(x, y))
        } else {
            None
        }
    }

    pub fn add(self, rhs: FGVec2) -> (r: FGVec2)
        requires
            vec2_add_fits(self, rhs),
        ensures
            r == vec2_add(self, rhs),
    {
        FGVec2 { x: self.x.add(rhs.x), y: self.y.add(rhs.y) }
    }

    pub fn sub(self, rhs: FGVec2) -> (r: FGVec2)
        requires
            vec2_sub_fits(self, rhs),
        ensures
            r == vec2_sub(self, rhs),
    {
        FGVec2 { x: self.x.sub(rhs.x), y: self.y.sub(rhs.y) }
    }

    /// Componentwise product.
    pub fn mul(self, rhs: FGVec2) -> (r: FGVec2)
        requires
            i32_fits(q16_mul(self.x.bits as int, rhs.x.bits as int)),
            i32_fits(q16_mul(self.y.bits as int, rhs.y.bits as int)),
        ensures
            r.x.bits == q16_mul(self.x.bits as int, rhs.x.bits as int),
            r.y.bits == q16_mul(self.y.bits as int, rhs.y.bits as int),
    {
        FGVec2 { x: self.x.mul(rhs.x), y: self.y.mul(rhs.y) }
    }

    /// Componentwise quotient.
    pub fn div(self, rhs: FGVec2) -> (r: FGVec2)
        requires
            rhs.x.bits != 0,
            rhs.y.bits != 0,
            i32_fits(q16_div(self.x.bits as int, rhs.x.bits as int)),
            i32_fits(q16_div(self.y.bits as int, rhs.y.bits as int)),
        ensures
            r.x.bits == q16_div(self.x.bits as int, rhs.x.bits as int),
            r.y.bits == q16_div(self.y.bits as int, rhs.y.bits as int),
    {
        FGVec2 { x: self.x.div(rhs.x), y: self.y.div(rhs.y) }
    }

    /// Product with a scalar.
    pub fn scale(self, s: FGi32) -> (r: FGVec2)
        requires
            i32_fits(q16_mul(self.x.bits as int, s.bits as int)),
            i32_fits(q16_mul(self.y.bits as int, s.bits as int)),
        ensures
            r.x.bits == q16_mul(self.x.bits as int, s.bits as int),
            r.y.bits == q16_mul(self.y.bits as int, s.bits as int),
    {
        FGVec2 { x: self.x.mul(s), y: self.y.mul(s) }
    }

    /// Quotient by a scalar.
    pub fn div_scalar(self, s: FGi32) -> (r: FGVec2)
        requires
            s.bits != 0,
            i32_fits(q16_div(self.x.bits as int, s.bits as int)),
            i32_fits(q16_div(self.y.bits as int, s.bits as int)),
        ensures
            r.x.bits == q16_div(self.x.bits as int, s.bits as int),
            r.y.bits == q16_div(self.y.bits as int, s.bits as int),
    {
        FGVec2 { x: self.x.div(s), y: self.y.div(s) }
    }

    /// Dot product in Q96.32; it is exact and never overflows.
    pub fn dot(self, rhs: FGVec2) -> (r: FGWide)
        ensures
            r.bits == vec2_dot(self, rhs),
    {
        proof {
            lemma_widened_product(self.x.bits as int, rhs.x.bits as int);
            lemma_widened_product(self.y.bits as int, rhs.y.bits as int);
            lemma_dot_bounds(self, rhs);
            lemma_dot_bounds(self, self);
            lemma_dot_bounds(rhs, rhs);
            lemma_product_bounds(self.x.bits as int, rhs.x.bits as int);
            lemma_product_bounds(self.y.bits as int, rhs.y.bits as int);
        }
        let px = FGWide::from_fx(self.x).mul(FGWide::from_fx(rhs.x));
        let py = FGWide::from_fx(self.y).mul(FGWide::from_fx(rhs.y));
        proof {
            assert(-0x4000_0000_0000_0000 <= px.bits <= 0x4000_0000_0000_0000) by (nonlinear_arith)
                requires
                    px.bits == self.x.bits * rhs.x.bits,
                    -0x8000_0000 <= self.x.bits < 0x8000_0000,
                    -0x8000_0000 <= rhs.x.bits < 0x8000_0000,
            ;
        }
        px.add(py)
    }

    /// Squared length in Q96.32; exact.
    pub fn length_squared(&self) -> (r: FGWide)
        ensures
            r.bits == vec2_len_sq(*self),
    {
        self.dot(*self)
    }

    /// Length, rounded down.
    pub fn length(self) -> (r: FGi32)
        requires
            vec2_length_fits(self),
        ensures
            r.bits == vec2_length(self),
    {
        let ls = self.length_squared();
        proof {
            assert(vec2_len_sq(self) >= 0) by (nonlinear_arith)
                requires
                    vec2_len_sq(self) == self.x.bits * self.x.bits + self.y.bits * self.y.bits,
            ;
        }
        ls.sqrt().to_fx()
    }

    /// Whether the length is one, within six raw units.
    pub fn is_normalized(self) -> (r: bool)
        requires
            vec2_length_fits(self),
        ensures
            r == vec2_is_normalized(self),
    {
        let len = self.length();
        proof {
            assert(0 <= q32_sqrt(vec2_len_sq(self))) by {
                assert(vec2_len_sq(self) >= 0) by (nonlinear_arith)
                    requires
                        vec2_len_sq(self) == self.x.bits * self.x.bits + self.y.bits
                            * self.y.bits,
                ;
                lemma_isqrt_nonneg(vec2_len_sq(self) * 0x1_0000_0000);
            }
            lemma_div_pos_is_pos(q32_sqrt(vec2_len_sq(self)), 65536);
        }
        let diff = len.sub(FGi32::one());
        diff.abs().bits <= 6
    }

    /// The projection of `self` onto the normalised vector `rhs`.
    pub fn project_onto_normalized(self, rhs: FGVec2) -> (r: FGVec2)
        requires
            vec2_length_fits(rhs),
            vec2_is_normalized(rhs),
            proj_component_fits(rhs.x.bits as int, vec2_dot(self, rhs)),
            proj_component_fits(rhs.y.bits as int, vec2_dot(self, rhs)),
        ensures
            r.x.bits == proj_component(rhs.x.bits as int, vec2_dot(self, rhs)),
            r.y.bits == proj_component(rhs.y.bits as int, vec2_dot(self, rhs)),
    {
        let scale = self.dot(rhs);
        let x = FGWide::from_fx(rhs.x).mul(scale).to_fx();
        let y = FGWide::from_fx(rhs.y).mul(scale).to_fx();
        FGVec2 { x, y }
    }

    /// The projection of `self` onto the non-zero vector `rhs`.
    pub fn project_onto(self, rhs: FGVec2) -> (r: FGVec2)
        requires
            vec2_len_sq(rhs) != 0,
            proj_component_fits(rhs.x.bits as int, vec2_project_scale(self, rhs)),
            proj_component_fits(rhs.y.bits as int, vec2_project_scale(self, rhs)),
        ensures
            r.x.bits == proj_component(rhs.x.bits as int, vec2_project_scale(self, rhs)),
            r.y.bits == proj_component(rhs.y.bits as int, vec2_project_scale(self, rhs)),
    {
        let other_len_sq = rhs.dot(rhs);
        let d = self.dot(rhs);
        proof {
            assert(vec2_len_sq(rhs) >= 0) by (nonlinear_arith)
                requires
                    vec2_len_sq(rhs) == rhs.x.bits * rhs.x.bits + rhs.y.bits * rhs.y.bits,
            ;
            lemma_dot_bounds(self, rhs);
            lemma_q32_div_fits(d.bits as int, other_len_sq.bits as int);
        }
        let scale = d.div(other_len_sq);
        let x = FGWide::from_fx(rhs.x).mul(scale).to_fx();
        let y = FGWide::from_fx(rhs.y).mul(scale).to_fx();
        FGVec2 { x, y }
    }

    /// The unit vector in the direction of `self`, or `None` for the zero
    /// vector; computed in Q32.32.
    pub fn normalize(&self) -> (r: Option<FGVec2>)
        requires
            vec2_normalize_ok(*self),
        ensures
            r == vec2_normalize(*self),
    {
        let x: i64 = self.x.bits as i64;
        let y: i64 = self.y.bits as i64;
        proof {
            assert(0 <= x * x <= 0x4000_0000_0000_0000) by (nonlinear_arith)
                requires
                    -0x8000_0000 <= x < 0x8000_0000,
            ;
            assert(0 <= y * y <= 0x4000_0000_0000_0000) by (nonlinear_arith)
                requires
                    -0x8000_0000 <= y < 0x8000_0000,
            ;
            if x * x == 0x4000_0000_0000_0000 {
                assert(x == -0x8000_0000) by (nonlinear_arith)
                    requires
                        x * x == 0x4000_0000_0000_0000,
                        -0x8000_0000 <= x < 0x8000_0000,
                ;
            }
            if y * y == 0x4000_0000_0000_0000 {
                assert(y == -0x8000_0000) by (nonlinear_arith)
                    requires
                        y * y == 0x4000_0000_0000_0000,
                        -0x8000_0000 <= y < 0x8000_0000,
                ;
            }
        }
        let length_squared: i64 = x * x + y * y;
        if length_squared == 0 {
            None
        } else {
            let len: i64 = q32_sqrt_i64(length_squared);
            proof {
                assert(length_squared >= x * x && length_squared >= y * y);
                lemma_isqrt_spec(length_squared as int * 0x1_0000_0000);
                lemma_norm_component_bounds(x as int, length_squared as int, len as int);
                lemma_norm_component_bounds(y as int, length_squared as int, len as int);
            }
            let nx: i128 = trunc_div_i128((x as i128) * 65536 * 0x1_0000_0000, len as i128);
            let ny: i128 = trunc_div_i128((y as i128) * 65536 * 0x1_0000_0000, len as i128);
            let fx: i128 = floor_div_i128(nx, 65536);
            let fy: i128 = floor_div_i128(ny, 65536);
            Some(FGVec2 { x: FGi32::from_bits(fx as i32), y: FGi32::from_bits(fy as i32) })
        }
    }

    /// `normalize`, with the zero vector for the zero vector.
    pub fn normalize_or_zero(&self) -> (r: FGVec2)
        requires
            vec2_normalize_ok(*self),
        ensures
            r == vec2_normalize_or_zero(*self),
    {
        match self.normalize() {
            Some(n) => n,
            None => FGVec2::zero(),
        }
    }

    /// The unit vector from `self` toward `to`.
    pub fn direction_to(self, to: FGVec2) -> (r: Option<FGVec2>)
        requires
            vec2_sub_fits(to, self),
            vec2_normalize_ok(vec2_sub(to, self)),
        ensures
            r == vec2_normalize(vec2_sub(to, self)),
    {
        to.sub(self).normalize()
    }

    /// The distance to `to`, rounded down.
    pub fn distance(self, to: FGVec2) -> (r: FGi32)
        requires
            vec2_sub_fits(to, self),
            vec2_length_fits(vec2_sub(to, self)),
        ensures
            r.bits == vec2_length(vec2_sub(to, self)),
    {
        to.sub(self).length()
    }

    /// The squared distance to `to`, in Q96.32; exact.
    pub fn distance_squared(self, to: FGVec2) -> (r: FGWide)
        requires
            vec2_sub_fits(to, self),
        ensures
            r.bits == vec2_len_sq(vec2_sub(to, self)),
    {
        to.sub(self).length_squared()
    }
}

proof fn lemma_product_bounds(a: int, b: int)
    requires
        i32_fits(a),
        i32_fits(b),
    ensures
        -0x4000_0000_0000_0000 <= a * b <= 0x4000_0000_0000_0000,
{
    assert(-0x4000_0000_0000_0000 <= a * b <= 0x4000_0000_0000_0000) by (nonlinear_arith)
        requires
            -0x8000_0000 <= a < 0x8000_0000,
            -0x8000_0000 <= b < 0x8000_0000,
    ;
}

/// Each component of a normalised vector is at most one in magnitude.
pub proof fn lemma_normalize_bounds(v: FGVec2)
    requires
        vec2_normalize(v) is Some,
    ensures
        -65536 <= vec2_normalize(v)->0.x.bits <= 65536,
        -65536 <= vec2_normalize(v)->0.y.bits <= 65536,
{
    let ls = vec2_len_sq(v);
    assert(ls >= v.x.bits * v.x.bits && ls >= v.y.bits * v.y.bits && ls > 0) by (nonlinear_arith)
        requires
            ls == v.x.bits * v.x.bits + v.y.bits * v.y.bits,
            ls != 0,
    ;
    lemma_isqrt_spec(ls * 0x1_0000_0000);
    lemma_norm_component_bounds(v.x.bits as int, ls, isqrt(ls * 0x1_0000_0000));
    lemma_norm_component_bounds(v.y.bits as int, ls, isqrt(ls * 0x1_0000_0000));
}

/// A quotient of a dot product by a non-zero squared length fits Q96.32.
proof fn lemma_q32_div_fits(d: int, l: int)
    requires
        -0x8000_0000_0000_0000 <= d <= 0x8000_0000_0000_0000,
        l > 0,
    ensures
        i128_fits(q32_div(d, l)),
{
    let n = abs_int(d * 0x1_0000_0000);
    assert(n <= 0x8000_0000_0000_0000_0000_0000) by (nonlinear_arith)
        requires
            n == abs_int(d * 0x1_0000_0000),
            -0x8000_0000_0000_0000 <= d <= 0x8000_0000_0000_0000,
    ;
    lemma_div_is_ordered_by_denominator(n, 1, l);
}

/// The magnitude `m` of a normalised component of `c` (divided by the
/// Q32.32 length `s`) is the exact quotient `|c| * 2^32 / s` to within one.
proof fn lemma_norm_component_error(c: int, s: int)
    requires
        s > 0,
    ensures
        (abs_int(norm_component(c, s)) - 1) * s < abs_int(c) * 0x1_0000_0000,
        abs_int(c) * 0x1_0000_0000 < (abs_int(norm_component(c, s)) + 1) * s,
{
    let b = abs_int(c) * 0x1_0000_0000;
    let a = b * 65536;
    assert(abs_int(c * 65536 * 0x1_0000_0000) == a) by (nonlinear_arith)
        requires
            a == abs_int(c) * 0x1_0000_0000 * 65536,
    ;
    assert(a >= 0) by (nonlinear_arith)
        requires
            a == abs_int(c) * 0x1_0000_0000 * 65536,
    ;
    let t = a / s;
    lemma_fundamental_div_mod(a, s);
    lemma_mod_pos_bound(a, s);
    assert(t * s <= a < (t + 1) * s) by (nonlinear_arith)
        requires
            a == s * t + a % s,
            0 <= a % s < s,
    ;
    assert(t >= 0) by (nonlinear_arith)
        requires
            a >= 0,
            a < (t + 1) * s,
            s > 0,
    ;
    let n = norm_component(c, s);
    if c >= 0 {
        assert(n == t / 65536);
        lemma_fundamental_div_mod(t, 65536);
        lemma_mod_pos_bound(t, 65536);
        assert(n >= 0);
        assert((n - 1) * s < b < (n + 1) * s) by (nonlinear_arith)
            requires
                t == 65536 * n + t % 65536,
                0 <= t % 65536 < 65536,
                t * s <= a < (t + 1) * s,
                a == b * 65536,
                s > 0,
                n >= 0,
        ;
    } else {
        assert(n == (-t) / 65536);
        lemma_fundamental_div_mod(-t, 65536);
        let r = (-t) % 65536;
        assert(0 <= r < 65536);
        let m = -n;
        assert(n <= 0);
        assert((m - 1) * s < b < (m + 1) * s) by (nonlinear_arith)
            requires
                -t == 65536 * n + r,
                0 <= r < 65536,
                m == -n,
                t * s <= a < (t + 1) * s,
                a == b * 65536,
                s > 0,
        ;
    }
}

/// A fraction `s` slightly above 65536: `(x + y)` for `x^2 + y^2 = l * 2^64`
/// stays below `1.42 * 65536 * s`.
proof fn lemma_sum_of_parts(bx: int, by: int, l: int, s: int)
    requires
        bx >= 0,
        by >= 0,
        bx * bx + by * by == l * 0x1_0000_0000 * 0x1_0000_0000,
        l * 0x1_0000_0000 < (s + 1) * (s + 1),
        s >= 65536,
    ensures
        (bx + by) * 100 < 142 * 65536 * s,
{
    assert((bx + by) * (bx + by) <= 2 * (bx * bx + by * by)) by (nonlinear_arith);
    assert(2 * l * 0x1_0000_0000 * 0x1_0000_0000 < 2 * (s + 1) * (s + 1) * 0x1_0000_0000) by (nonlinear_arith)
        requires
            l * 0x1_0000_0000 < (s + 1) * (s + 1),
    ;
    assert(20000 * (s + 1) * (s + 1) <= 20164 * s * s) by (nonlinear_arith)
        requires
            s >= 65536,
    ;
    let k = 142 * 65536 * s;
    let w = (bx + by) * 100;
    assert(w * w < k * k) by (nonlinear_arith)
        requires
            w == (bx + by) * 100,
            k == 142 * 65536 * s,
            (bx + by) * (bx + by) <= 2 * (bx * bx + by * by),
            bx * bx + by * by == l * 0x1_0000_0000 * 0x1_0000_0000,
            2 * l * 0x1_0000_0000 * 0x1_0000_0000 < 2 * (s + 1) * (s + 1) * 0x1_0000_0000,
            20000 * (s + 1) * (s + 1) <= 20164 * s * s,
    ;
    assert(w < k) by (nonlinear_arith)
        requires
            w * w < k * k,
            w >= 0,
            k >= 0,
    ;
}

/// The squared length of a normalised vector, for the integer parts: with
/// `s` the Q32.32 length of `(x, y)` and `mx`, `my` the magnitudes of the
/// normalised components, `mx^2 + my^2` is within `[1 - 4 * 2^-16, 1 + 5 *
/// 2^-16)` in Q32.32.
proof fn lemma_unit_square_bounds(x: int, y: int, s: int, mx: int, my: int)
    requires
        x * x + y * y >= 1,
        is_isqrt((x * x + y * y) * 0x1_0000_0000, s),
        mx >= 0,
        my >= 0,
        (mx - 1) * s < abs_int(x) * 0x1_0000_0000 < (mx + 1) * s,
        (my - 1) * s < abs_int(y) * 0x1_0000_0000 < (my + 1) * s,
    ensures
        0x1_0000_0000 - 4 * 65536 <= mx * mx + my * my < 0x1_0000_0000 + 5 * 65536,
{
    let l = x * x + y * y;
    assert(s >= 65536) by (nonlinear_arith)
        requires
            l >= 1,
            l * 0x1_0000_0000 < (s + 1) * (s + 1),
            s >= 0,
    ;
    let bx = abs_int(x) * 0x1_0000_0000;
    let by = abs_int(y) * 0x1_0000_0000;
    assert(abs_int(x) * abs_int(x) == x * x) by (nonlinear_arith)
        requires
            abs_int(x) == x || abs_int(x) == -x,
    ;
    assert(abs_int(y) * abs_int(y) == y * y) by (nonlinear_arith)
        requires
            abs_int(y) == y || abs_int(y) == -y,
    ;
    assert(bx * bx + by * by == l * 0x1_0000_0000 * 0x1_0000_0000) by (nonlinear_arith)
        requires
            bx == abs_int(x) * 0x1_0000_0000,
            by == abs_int(y) * 0x1_0000_0000,
            l == x * x + y * y,
            abs_int(x) * abs_int(x) == x * x,
            abs_int(y) * abs_int(y) == y * y,
    ;
    assert(bx >= 0 && by >= 0);
    lemma_sum_of_parts(bx, by, l, s);
    let rx = mx * s - bx;
    let ry = my * s - by;
    assert(-s < rx < s && -s < ry < s) by (nonlinear_arith)
        requires
            rx == mx * s - bx,
            ry == my * s - by,
            (mx - 1) * s < bx < (mx + 1) * s,
            (my - 1) * s < by < (my + 1) * s,
    ;
    let mm = mx * mx + my * my;
    let big = mm * s * s;
    let px = mx * s;
    let py = my * s;
    assert(big == px * px + py * py) by (nonlinear_arith)
        requires
            big == mm * s * s,
            mm == mx * mx + my * my,
            px == mx * s,
            py == my * s,
    ;
    assert(px == bx + rx && py == by + ry);
    assert(px * px == bx * bx + 2 * (bx * rx) + rx * rx) by (nonlinear_arith)
        requires
            px == bx + rx,
    ;
    assert(py * py == by * by + 2 * (by * ry) + ry * ry) by (nonlinear_arith)
        requires
            py == by + ry,
    ;
    assert(-(bx * s) <= bx * rx <= bx * s) by (nonlinear_arith)
        requires
            -s < rx < s,
            bx >= 0,
    ;
    assert(-(by * s) <= by * ry <= by * s) by (nonlinear_arith)
        requires
            -s < ry < s,
            by >= 0,
    ;
    assert(0 <= rx * rx < s * s) by (nonlinear_arith)
        requires
            -s < rx < s,
    ;
    assert(0 <= ry * ry < s * s) by (nonlinear_arith)
        requires
            -s < ry < s,
    ;
    let ss = s * s;
    let sum_s = (bx + by) * s;
    assert(sum_s == bx * s + by * s) by (nonlinear_arith)
        requires
            sum_s == (bx + by) * s,
    ;
    assert(sum_s * 100 < 142 * 65536 * ss) by (nonlinear_arith)
        requires
            (bx + by) * 100 < 142 * 65536 * s,
            sum_s == (bx + by) * s,
            ss == s * s,
            s > 0,
    ;
    let l2 = l * 0x1_0000_0000;
    assert(bx * bx + by * by == l2 * 0x1_0000_0000);
    assert(ss <= l2 < ss + 2 * s + 1) by (nonlinear_arith)
        requires
            ss == s * s,
            ss <= l2,
            l2 < (s + 1) * (s + 1),
    ;
    // Above: big < l2 * 2^32 + 2 sum_s + 2 ss.
    assert(big < (ss + 2 * s + 1) * 0x1_0000_0000 + 2 * sum_s + 2 * ss) by (nonlinear_arith)
        requires
            big == bx * bx + 2 * (bx * rx) + rx * rx + by * by + 2 * (by * ry) + ry * ry,
            bx * rx <= bx * s,
            by * ry <= by * s,
            rx * rx < ss,
            ry * ry < ss,
            sum_s == bx * s + by * s,
            bx * bx + by * by == l2 * 0x1_0000_0000,
            l2 < ss + 2 * s + 1,
    ;
    assert(s * 0x1_0000_0000 <= 65536 * ss && 0x1_0000_0000 <= ss) by (nonlinear_arith)
        requires
            s >= 65536,
            ss == s * s,
    ;
    assert(big < (0x1_0000_0000 + 5 * 65536) * ss) by (nonlinear_arith)
        requires
            big < (ss + 2 * s + 1) * 0x1_0000_0000 + 2 * sum_s + 2 * ss,
            sum_s * 100 < 142 * 65536 * ss,
            s * 0x1_0000_0000 <= 65536 * ss,
            0x1_0000_0000 <= ss,
            s >= 65536,
    ;
    // Below: big >= l2 * 2^32 - 2 sum_s.
    assert(big >= ss * 0x1_0000_0000 - 2 * sum_s) by (nonlinear_arith)
        requires
            big == bx * bx + 2 * (bx * rx) + rx * rx + by * by + 2 * (by * ry) + ry * ry,
            -(bx * s) <= bx * rx,
            -(by * s) <= by * ry,
            rx * rx >= 0,
            ry * ry >= 0,
            sum_s == bx * s + by * s,
            bx * bx + by * by == l2 * 0x1_0000_0000,
            ss <= l2,
    ;
    assert(big >= (0x1_0000_0000 - 4 * 65536) * ss) by (nonlinear_arith)
        requires
            big >= ss * 0x1_0000_0000 - 2 * sum_s,
            sum_s * 100 < 142 * 65536 * ss,
            ss >= 0,
    ;
    assert(big == mm * ss) by (nonlinear_arith)
        requires
            big == mm * s * s,
            ss == s * s,
    ;
    assert(0x1_0000_0000 - 4 * 65536 <= mm < 0x1_0000_0000 + 5 * 65536) by (nonlinear_arith)
        requires
            big == mm * ss,
            big < (0x1_0000_0000 + 5 * 65536) * ss,
            big >= (0x1_0000_0000 - 4 * 65536) * ss,
            ss > 0,
    ;
}

/// Normalising gives `None` for the zero vector alone. Any other vector
/// normalises to one whose squared length, narrowed to Q16.16, is within
/// four raw units of one, and whose length is within three raw units of one
/// (so it counts as normalised).
pub proof fn normalize_error_bound(v: FGVec2)
    ensures
        vec2_normalize(v) is None <==> (v.x.bits == 0 && v.y.bits == 0),
        vec2_normalize(v) matches Some(n) ==> {
            &&& abs_int(vec2_len_sq(n) / 65536 - 65536) <= 4
            &&& abs_int(vec2_length(n) - 65536) <= 3
            &&& vec2_is_normalized(n)
        },
{
    let x = v.x.bits as int;
    let y = v.y.bits as int;
    let l = vec2_len_sq(v);
    assert(l == 0 <==> (x == 0 && y == 0)) by (nonlinear_arith)
        requires
            l == x * x + y * y,
    ;
    if l != 0 {
        assert(l >= 1 && l >= x * x && l >= y * y) by (nonlinear_arith)
            requires
                l == x * x + y * y,
                l != 0,
        ;
        let s = isqrt(l * 0x1_0000_0000);
        lemma_isqrt_spec(l * 0x1_0000_0000);
        lemma_norm_component_bounds(x, l, s);
        lemma_norm_component_bounds(y, l, s);
        let n = vec2_normalize(v)->0;
        let nx = norm_component(x, s);
        let ny = norm_component(y, s);
        assert(n.x.bits == nx && n.y.bits == ny);
        lemma_norm_component_error(x, s);
        lemma_norm_component_error(y, s);
        let mx = abs_int(nx);
        let my = abs_int(ny);
        lemma_unit_square_bounds(x, y, s, mx, my);
        let mm = vec2_len_sq(n);
        assert(mm == mx * mx + my * my) by (nonlinear_arith)
            requires
                mm == nx * nx + ny * ny,
                mx == abs_int(nx),
                my == abs_int(ny),
        ;
        assert(65532 <= mm / 65536 <= 65540);
        // The length: the square root of `mm * 2^32` lies within three
        // units of `2^32` when read in Q16.16.
        let big = mm * 0x1_0000_0000;
        let r = isqrt(big);
        lemma_isqrt_spec(big);
        let lo = 0x1_0000_0000 - 3 * 65536;
        let hi = 0x1_0000_0000 + 3 * 65536;
        assert(lo * lo <= big && big < hi * hi) by (nonlinear_arith)
            requires
                big == mm * 0x1_0000_0000,
                0x1_0000_0000 - 4 * 65536 <= mm < 0x1_0000_0000 + 5 * 65536,
                lo == 0x1_0000_0000 - 3 * 65536,
                hi == 0x1_0000_0000 + 3 * 65536,
        ;
        assert(lo <= r < hi) by (nonlinear_arith)
            requires
                r * r <= big,
                big < (r + 1) * (r + 1),
                r >= 0,
                lo * lo <= big,
                big < hi * hi,
                lo >= 0,
        ;
        assert(65533 <= r / 65536 <= 65538);
        assert(vec2_length(n) == r / 65536);
    }
}

} // verus!
