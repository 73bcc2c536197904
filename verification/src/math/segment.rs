//! Fixed-point line segments.

use crate::math::scalar::{i128_fits, i32_fits, q32_div, q32_mul, FGWide, FGi32};
use crate::math::vec::{
    vec2_dot, vec2_len_sq, vec2_normalize, vec2_normalize_ok, vec2_sub, vec2_sub_fits, FGVec2,
};
use vstd::arithmetic::div_mod::*;
use vstd::prelude::*;

verus! {

/// A line segment between two points.
#[derive(Clone, Copy, PartialEq, Eq, Structural, Debug)]
pub struct FGSegment2d {
    pub point1: FGVec2,
    pub point2: FGVec2,
}

/// A point, widened to Q96.32, moved by `t` (a Q96.32 fraction in `[0, 1]`)
/// times `s`, then narrowed: the bits of `p + t * s`.
pub open spec fn lerp_component(p: int, s: int, t: int) -> int {
    (p * 65536 + q32_mul(t, s * 65536)) / 65536
}

/// The direction of the segment can be computed without overflow.
pub open spec fn segment_direction_ok(seg: FGSegment2d) -> bool {
    vec2_sub_fits(seg.point2, seg.point1) && vec2_normalize_ok(
        vec2_sub(seg.point2, seg.point1),
    )
}

/// The unit direction from the first point to the second, if they differ.
pub open spec fn segment_direction(seg: FGSegment2d) -> Option<FGVec2> {
    vec2_normalize(vec2_sub(seg.point2, seg.point1))
}

/// The counterclockwise normal of a unit direction.
pub open spec fn left_of(d: FGVec2) -> FGVec2 {
    FGVec2 { x: FGi32 { bits: (-d.y.bits) as i32 }, y: d.x }
}

/// The point of the segment closest to `point`: the projection of `point`
/// onto the segment's line, clamped to the endpoints.
pub open spec fn closest_point_spec(seg: FGSegment2d, point: FGVec2) -> FGVec2 {
    let sv = vec2_sub(seg.point2, seg.point1);
    let off = vec2_sub(point, seg.point1);
    let proj = vec2_dot(sv, off);
    let ls = vec2_len_sq(sv);
    if proj <= 0 {
        seg.point1
    } else if proj >= ls {
        seg.point2
    } else {
        let t = q32_div(proj, ls);
        FGVec2 {
            x: FGi32 { bits: lerp_component(seg.point1.x.bits as int, sv.x.bits as int, t) as i32 },
            y: FGi32 { bits: lerp_component(seg.point1.y.bits as int, sv.y.bits as int, t) as i32 },
        }
    }
}

/// Differences and products of the widened endpoint coordinates.
pub open spec fn cross2(ax: int, ay: int, bx: int, by: int) -> int {
    ax * by - ay * bx
}

/// Bits (Q96.32) of the denominator `s1 x s2` of the intersection.
pub open spec fn intersection_denom(a: FGSegment2d, b: FGSegment2d) -> int {
    let s1x = a.point2.x.bits - a.point1.x.bits;
    let s1y = a.point2.y.bits - a.point1.y.bits;
    let s2x = b.point2.x.bits - b.point1.x.bits;
    let s2y = b.point2.y.bits - b.point1.y.bits;
    -s2x * s1y + s1x * s2y
}

/// Bits (Q96.32) of the parameter along `b` of the intersection.
pub open spec fn intersection_s(a: FGSegment2d, b: FGSegment2d) -> int {
    let s1x = a.point2.x.bits - a.point1.x.bits;
    let s1y = a.point2.y.bits - a.point1.y.bits;
    let dx = a.point1.x.bits - b.point1.x.bits;
    let dy = a.point1.y.bits - b.point1.y.bits;
    q32_div(-s1y * dx + s1x * dy, intersection_denom(a, b))
}

/// Bits (Q96.32) of the parameter along `a` of the intersection.
pub open spec fn intersection_t(a: FGSegment2d, b: FGSegment2d) -> int {
    let s2x = b.point2.x.bits - b.point1.x.bits;
    let s2y = b.point2.y.bits - b.point1.y.bits;
    let dx = a.point1.x.bits - b.point1.x.bits;
    let dy = a.point1.y.bits - b.point1.y.bits;
    q32_div(s2x * dy - s2y * dx, intersection_denom(a, b))
}

/// Both parameters lie in `[0, 1]`: the segments cross.
pub open spec fn intersection_params_in_range(a: FGSegment2d, b: FGSegment2d) -> bool {
    &&& 0 <= intersection_s(a, b) <= 0x1_0000_0000
    &&& 0 <= intersection_t(a, b) <= 0x1_0000_0000
}

/// Where the segments cross, the crossing point; otherwise `None`.
/// Parallel segments never cross.
pub open spec fn segment_intersection_spec(a: FGSegment2d, b: FGSegment2d) -> Option<FGVec2> {
    if intersection_denom(a, b) == 0 {
        None
    } else if !intersection_params_in_range(a, b) {
        None
    } else {
        let t = intersection_t(a, b);
        Some(
            FGVec2 {
                x: FGi32 {
                    bits: lerp_component(
                        a.point1.x.bits as int,
                        (a.point2.x.bits - a.point1.x.bits) as int,
                        t,
                    ) as i32,
                },
                y: FGi32 {
                    bits: lerp_component(
                        a.point1.y.bits as int,
                        (a.point2.y.bits - a.point1.y.bits) as int,
                        t,
                    ) as i32,
                },
            },
        )
    }
}

/// Moving from `p` toward `p + s` by a fraction in `[0, 1]` stays between
/// the two.
pub proof fn lemma_lerp_bounds(p: int, s: int, t: int)
    requires
        0 <= t <= 0x1_0000_0000,
    ensures
        s >= 0 ==> p <= lerp_component(p, s, t) <= p + s,
        s < 0 ==> p + s <= lerp_component(p, s, t) <= p,
{
    let w = s * 65536;
    let m = q32_mul(t, w);
    if s >= 0 {
        assert(0 <= t * w <= 0x1_0000_0000 * w) by (nonlinear_arith)
            requires
                0 <= t <= 0x1_0000_0000,
                w >= 0,
        ;
        lemma_div_is_ordered(0, t * w, 0x1_0000_0000);
        lemma_div_is_ordered(t * w, 0x1_0000_0000 * w, 0x1_0000_0000);
        lemma_div_multiples_vanish(w, 0x1_0000_0000);
        assert(0 <= m <= w);
    } else {
        assert(0x1_0000_0000 * w <= t * w <= 0) by (nonlinear_arith)
            requires
                0 <= t <= 0x1_0000_0000,
                w < 0,
        ;
        lemma_div_is_ordered(t * w, 0, 0x1_0000_0000);
        lemma_div_is_ordered(0x1_0000_0000 * w, t * w, 0x1_0000_0000);
        lemma_div_multiples_vanish(w, 0x1_0000_0000);
        assert(w <= m <= 0);
    }
    lemma_div_multiples_vanish(p, 65536);
    lemma_div_multiples_vanish(p + s, 65536);
    assert(65536 * p == p * 65536);
    assert(65536 * (p + s) == p * 65536 + w);
    if s >= 0 {
        lemma_div_is_ordered(p * 65536, p * 65536 + m, 65536);
        lemma_div_is_ordered(p * 65536 + m, p * 65536 + w, 65536);
    } else {
        lemma_div_is_ordered(p * 65536 + w, p * 65536 + m, 65536);
        lemma_div_is_ordered(p * 65536 + m, p * 65536, 65536);
    }
}

/// A product of a fraction in `[0, 1]` and a widened difference of two
/// Q16.16 values fits Q96.32.
proof fn lemma_fraction_product_fits(s: int, t: int)
    requires
        0 <= t <= 0x1_0000_0000,
        -0x1_0000_0000 <= s <= 0x1_0000_0000,
    ensures
        i128_fits(q32_mul(t, s * 65536)),
        -0x1_0000_0000_0000 <= q32_mul(t, s * 65536) <= 0x1_0000_0000_0000,
{
    let w = s * 65536;
    assert(-0x1_0000_0000_0000_0000_0000 <= t * w <= 0x1_0000_0000_0000_0000_0000)
        by (nonlinear_arith)
        requires
            0 <= t <= 0x1_0000_0000,
            -0x1_0000_0000_0000 <= w <= 0x1_0000_0000_0000,
    ;
    lemma_div_is_ordered(-0x1_0000_0000_0000_0000_0000, t * w, 0x1_0000_0000);
    lemma_div_is_ordered(t * w, 0x1_0000_0000_0000_0000_0000, 0x1_0000_0000);
}

/// The exact product of two integers below `2^33` in magnitude.
proof fn lemma_small_product(a: int, b: int)
    requires
        -0x2_0000_0000 <= a <= 0x2_0000_0000,
        -0x2_0000_0000 <= b <= 0x2_0000_0000,
    ensures
        -0x4_0000_0000_0000_0000 <= a * b <= 0x4_0000_0000_0000_0000,
{
    assert(-0x4_0000_0000_0000_0000 <= a * b <= 0x4_0000_0000_0000_0000) by (nonlinear_arith)
        requires
            -0x2_0000_0000 <= a <= 0x2_0000_0000,
            -0x2_0000_0000 <= b <= 0x2_0000_0000,
    ;
}

proof fn lemma_widened_exact(a: int, b: int)
    ensures
        q32_mul(a * 65536, b * 65536) == a * b,
{
    assert((a * 65536) * (b * 65536) == (a * b) * 0x1_0000_0000) by (nonlinear_arith);
    lemma_div_multiples_vanish(a * b, 0x1_0000_0000);
    assert((a * b) * 0x1_0000_0000 == 0x1_0000_0000 * (a * b)) by (nonlinear_arith);
}

/// Product of two widened integer differences: `a * b` in Q96.32 bits.
fn wide_diff_product(a: i64, b: i64) -> (r: FGWide)
    requires
        -0x1_0000_0000 <= a <= 0x1_0000_0000,
        -0x1_0000_0000 <= b <= 0x1_0000_0000,
    ensures
        r.bits == a * b,
        -0x4_0000_0000_0000_0000 <= r.bits <= 0x4_0000_0000_0000_0000,
{
    proof {
        lemma_widened_exact(a as int, b as int);
        lemma_small_product(a as int, b as int);
    }
    FGWide::from_bits((a as i128) * 65536).mul(FGWide::from_bits((b as i128) * 65536))
}

impl FGSegment2d {
    pub fn new(point1: FGVec2, point2: FGVec2) -> (r: FGSegment2d)
        ensures
            r.point1 == point1,
            r.point2 == point2,
    {
        FGSegment2d { point1, point2 }
    }

    pub fn point1(&self) -> (r: FGVec2)
        ensures
            r == self.point1,
    {
        self.point1
    }

    pub fn point2(&self) -> (r: FGVec2)
        ensures
            r == self.point2,
    {
        self.point2
    }

    /// The unit direction from the first endpoint to the second, or `None`
    /// when the endpoints coincide.
    pub fn try_direction(&self) -> (r: Option<FGVec2>)
        requires
            segment_direction_ok(*self),
        ensures
            r == segment_direction(*self),
    {
        self.point1.direction_to(self.point2)
    }

    /// The unit direction of a segment whose endpoints differ.
    pub fn direction(&self) -> (r: FGVec2)
        requires
            segment_direction_ok(*self),
            segment_direction(*self) is Some,
        ensures
            r == segment_direction(*self)->0,
    {
        match self.try_direction() {
            Some(d) => d,
            None => FGVec2::zero(),
        }
    }

    /// The counterclockwise unit normal on the left-hand side of a segment
    /// whose endpoints differ.
    pub fn left_normal(&self) -> (r: FGVec2)
        requires
            segment_direction_ok(*self),
            segment_direction(*self) is Some,
        ensures
            r == left_of(segment_direction(*self)->0),
    {
        let o = self.direction();
        proof {
            crate::math::vec::lemma_normalize_bounds(vec2_sub(self.point2, self.point1));
        }
        FGVec2::new(o.y.neg(), o.x)
    }

    /// The point of the segment closest to `point`.
    pub fn closest_point(&self, point: FGVec2) -> (r: FGVec2)
        requires
            vec2_sub_fits(self.point2, self.point1),
            vec2_sub_fits(point, self.point1),
        ensures
            r == closest_point_spec(*self, point),
    {
        let segment_vector = self.point2.sub(self.point1);
        let offset = point.sub(self.point1);
        let projection_scaled = segment_vector.dot(offset);
        if projection_scaled.bits <= 0 {
            return self.point1;
        }
        let length_squared = segment_vector.length_squared();
        if projection_scaled.bits >= length_squared.bits {
            return self.point2;
        }
        proof {
            let p = projection_scaled.bits as int;
            let l = length_squared.bits as int;
            assert(p * 0x1_0000_0000 <= l * 0x1_0000_0000) by (nonlinear_arith)
                requires
                    0 < p < l,
            ;
            lemma_div_is_ordered(p * 0x1_0000_0000, l * 0x1_0000_0000, l);
            lemma_div_by_multiple(0x1_0000_0000, l);
            assert(l * 0x1_0000_0000 == 0x1_0000_0000 * l);
            lemma_div_pos_is_pos(p * 0x1_0000_0000, l);
        }
        let t = projection_scaled.div(length_squared);
        proof {
            lemma_fraction_product_fits(segment_vector.x.bits as int, t.bits as int);
            lemma_fraction_product_fits(segment_vector.y.bits as int, t.bits as int);
            lemma_lerp_bounds(self.point1.x.bits as int, segment_vector.x.bits as int, t.bits as int);
            lemma_lerp_bounds(self.point1.y.bits as int, segment_vector.y.bits as int, t.bits as int);
        }
        let x = FGWide::from_fx(self.point1.x).add(FGWide::from_fx(segment_vector.x).mul(t)).to_fx();
        let y = FGWide::from_fx(self.point1.y).add(FGWide::from_fx(segment_vector.y).mul(t)).to_fx();
        FGVec2::new(x, y)
    }

    /// Where this segment crosses `rhs`, the crossing point on this segment;
    /// otherwise `None`.
    pub fn segment_intersection(&self, rhs: &FGSegment2d) -> (r: Option<FGVec2>)
        ensures
            r == segment_intersection_spec(*self, *rhs),
    {
        let p0x: i64 = self.point1.x.bits as i64;
        let p0y: i64 = self.point1.y.bits as i64;
        let p1x: i64 = self.point2.x.bits as i64;
        let p1y: i64 = self.point2.y.bits as i64;
        let p2x: i64 = rhs.point1.x.bits as i64;
        let p2y: i64 = rhs.point1.y.bits as i64;
        let p3x: i64 = rhs.point2.x.bits as i64;
        let p3y: i64 = rhs.point2.y.bits as i64;
        let s1x: i64 = p1x - p0x;
        let s1y: i64 = p1y - p0y;
        let s2x: i64 = p3x - p2x;
        let s2y: i64 = p3y - p2y;
        let dx: i64 = p0x - p2x;
        let dy: i64 = p0y - p2y;
        let denom = wide_diff_product(-s2x, s1y).add(wide_diff_product(s1x, s2y));
        if denom.bits == 0 {
            return None;
        }
        let s_num = wide_diff_product(-s1y, dx).add(wide_diff_product(s1x, dy));
        let t_num = wide_diff_product(s2x, dy).sub(wide_diff_product(s2y, dx));
        proof {
            assert(-s2x * s1y == (-s2x) * s1y);
            assert(-s1y * dx == (-s1y) * dx);
            lemma_quotient_fits(s_num.bits as int, denom.bits as int);
            lemma_quotient_fits(t_num.bits as int, denom.bits as int);
        }
        let s = s_num.div(denom);
        let t = t_num.div(denom);
        if s.bits >= 0 && s.bits <= 0x1_0000_0000 && t.bits >= 0 && t.bits <= 0x1_0000_0000 {
            proof {
                lemma_fraction_product_fits(s1x as int, t.bits as int);
                lemma_fraction_product_fits(s1y as int, t.bits as int);
                lemma_lerp_bounds(p0x as int, s1x as int, t.bits as int);
                lemma_lerp_bounds(p0y as int, s1y as int, t.bits as int);
                assert(q32_mul(t.bits as int, s1x * 65536) == q32_mul(s1x * 65536, t.bits as int)) by (nonlinear_arith);
                assert(q32_mul(t.bits as int, s1y * 65536) == q32_mul(s1y * 65536, t.bits as int)) by (nonlinear_arith);
            }
            let x = FGWide::from_bits((p0x as i128) * 65536).add(
                t.mul(FGWide::from_bits((s1x as i128) * 65536)),
            ).to_fx();
            let y = FGWide::from_bits((p0y as i128) * 65536).add(
                t.mul(FGWide::from_bits((s1y as i128) * 65536)),
            ).to_fx();
            Some(FGVec2::new(x, y))
        } else {
            None
        }
    }
}

/// A quotient of two sums of products of Q16.16 differences fits Q96.32.
proof fn lemma_quotient_fits(n: int, d: int)
    requires
        -0x8_0000_0000_0000_0000 <= n <= 0x8_0000_0000_0000_0000,
        d != 0,
    ensures
        i128_fits(q32_div(n, d)),
{
    let a = crate::math::scalar::abs_int(n * 0x1_0000_0000);
    let ad = crate::math::scalar::abs_int(d);
    assert(a <= 0x8_0000_0000_0000_0000_0000_0000) by (nonlinear_arith)
        requires
            a == crate::math::scalar::abs_int(n * 0x1_0000_0000),
            -0x8_0000_0000_0000_0000 <= n <= 0x8_0000_0000_0000_0000,
    ;
    lemma_div_is_ordered_by_denominator(a, 1, ad);
}

} // verus!
