//! Angle conversions for Q16.16 values: degrees to radians and a CORDIC
//! sine/cosine.

use crate::math::scalar::{
    abs_int, i128_fits, i32_fits, q16_mul, q32_mul, trunc_div, trunc_div_i128, FGWide, FGi32,
};
use vstd::arithmetic::div_mod::*;
use vstd::prelude::*;

verus! {

/// Bits (Q96.32) of pi / 180, the decimal literal
/// `0.01745329251994329576923690768489` rounded to the nearest.
pub const DEG_TO_RAD_WIDE_BITS: i128 = 74961321;

/// Bits (Q16.16) of pi, the literal `3.14159265358979323846` rounded.
pub const PI_BITS: i32 = 205887;

/// Bits (Q16.16) of pi / 2, the literal `1.57079632679489661923` rounded.
pub const HALF_PI_BITS: i32 = 102944;

/// Bits (Q16.16) of 2 pi, the literal `6.28318530717958647692` rounded.
pub const TWO_PI_BITS: i32 = 411775;

/// Bits (Q16.16) of the inverse CORDIC gain `0.60725293500888125617`.
pub const CORDIC_GAIN_INVERSE_BITS: i32 = 39797;

/// Bits (Q16.16) of `atan(2^-i)`, for the sixteen CORDIC iterations.
pub open spec fn cordic_angle(i: int) -> int {
    if i == 0 {
        51472
    } else if i == 1 {
        30386
    } else if i == 2 {
        16055
    } else if i == 3 {
        8150
    } else if i == 4 {
        4091
    } else if i == 5 {
        2047
    } else if i == 6 {
        1024
    } else if i == 7 {
        512
    } else if i == 8 {
        256
    } else if i == 9 {
        128
    } else if i == 10 {
        64
    } else if i == 11 {
        32
    } else if i == 12 {
        16
    } else if i == 13 {
        8
    } else if i == 14 {
        4
    } else {
        2
    }
}

fn cordic_angle_exec(i: usize) -> (r: i32)
    requires
        i < 16,
    ensures
        r == cordic_angle(i as int),
{
    if i == 0 {
        51472
    } else if i == 1 {
        30386
    } else if i == 2 {
        16055
    } else if i == 3 {
        8150
    } else if i == 4 {
        4091
    } else if i == 5 {
        2047
    } else if i == 6 {
        1024
    } else if i == 7 {
        512
    } else if i == 8 {
        256
    } else if i == 9 {
        128
    } else if i == 10 {
        64
    } else if i == 11 {
        32
    } else if i == 12 {
        16
    } else if i == 13 {
        8
    } else if i == 14 {
        4
    } else {
        2
    }
}

/// Bits (Q16.16) of `2^-i`.
pub open spec fn cordic_scale(i: int) -> int
    decreases i,
{
    if i <= 0 {
        65536
    } else {
        cordic_scale(i - 1) / 2
    }
}

/// Runs the CORDIC rotations `i..16`, returning the final `(x, y)`.
pub open spec fn cordic_run(angle: int, x: int, y: int, i: int) -> (int, int)
    decreases 16 - i,
{
    if i >= 16 {
        (x, y)
    } else {
        let s = cordic_scale(i);
        if angle >= 0 {
            cordic_run(angle - cordic_angle(i), x - q16_mul(y, s), y + q16_mul(x, s), i + 1)
        } else {
            cordic_run(angle + cordic_angle(i), x + q16_mul(y, s), y - q16_mul(x, s), i + 1)
        }
    }
}

/// Remainder with the sign of the dividend, as Rust's `%` on integers.
pub open spec fn trunc_rem(a: int, b: int) -> int {
    a - b * trunc_div(a, b)
}

/// The angle folded into `[-pi, pi]`.
pub open spec fn fold_angle(a: int) -> int {
    let r = trunc_rem(a, TWO_PI_BITS as int);
    if r > PI_BITS {
        r - TWO_PI_BITS
    } else if r < -PI_BITS {
        r + TWO_PI_BITS
    } else {
        r
    }
}

/// The folded angle moved into `[-pi/2, pi/2]`, with the sign that undoes it.
pub open spec fn quadrant(a: int) -> (int, int) {
    if a > HALF_PI_BITS {
        (a - PI_BITS, -65536)
    } else if a < -HALF_PI_BITS {
        (a + PI_BITS, -65536)
    } else {
        (a, 65536)
    }
}

/// Values within four raw units of 0 or of +-1 are snapped to them.
pub open spec fn snap_axis(v: int) -> int {
    if abs_int(v) <= 4 {
        0
    } else if abs_int(abs_int(v) - 65536) <= 4 {
        if v < 0 {
            -65536
        } else {
            65536
        }
    } else {
        v
    }
}

/// `(sin, cos)` of an angle in radians, by sixteen CORDIC rotations.
pub open spec fn sin_cos_spec(a: int) -> (int, int) {
    let (angle, sign) = quadrant(fold_angle(a));
    let (x, y) = cordic_run(angle, CORDIC_GAIN_INVERSE_BITS as int, 0, 0);
    (snap_axis(q16_mul(y, sign)), snap_axis(q16_mul(x, sign)))
}

/// A bound on `|x| + |y|` after `i` rotations.
pub open spec fn cordic_bound(i: int) -> int
    decreases i,
{
    if i <= 0 {
        39797
    } else {
        cordic_bound(i - 1) + (cordic_bound(i - 1) * cordic_scale(i - 1)) / 65536 + 3
    }
}

/// Bits of `self` (in degrees) converted to radians.
pub open spec fn to_radians_spec(a: int) -> int {
    q32_mul(a * 65536, DEG_TO_RAD_WIDE_BITS as int) / 65536
}

proof fn lemma_floor_abs(v: int, s: int)
    requires
        s > 0,
    ensures
        abs_int((v * s) / 65536) <= (abs_int(v) * s) / 65536 + 1,
{
    lemma_fundamental_div_mod(v * s, 65536);
    lemma_fundamental_div_mod(abs_int(v) * s, 65536);
    lemma_mod_bound(v * s, 65536);
    lemma_mod_bound(abs_int(v) * s, 65536);
    if v < 0 {
        assert(abs_int(v) * s == -(v * s)) by (nonlinear_arith)
            requires
                v < 0,
        ;
    } else {
        assert(abs_int(v) * s == v * s);
    }
}

proof fn lemma_step_bound(x: int, y: int, s: int, b: int)
    requires
        s > 0,
        abs_int(x) + abs_int(y) <= b,
    ensures
        abs_int(x - q16_mul(y, s)) + abs_int(y + q16_mul(x, s)) <= b + (b * s) / 65536 + 3,
        abs_int(x + q16_mul(y, s)) + abs_int(y - q16_mul(x, s)) <= b + (b * s) / 65536 + 3,
{
    lemma_floor_abs(y, s);
    lemma_floor_abs(x, s);
    let ax = abs_int(x);
    let ay = abs_int(y);
    assert(ax * s + ay * s <= b * s) by (nonlinear_arith)
        requires
            ax + ay <= b,
            s > 0,
            ax >= 0,
            ay >= 0,
    ;
    lemma_fundamental_div_mod(ax * s, 65536);
    lemma_fundamental_div_mod(ay * s, 65536);
    lemma_fundamental_div_mod(b * s, 65536);
    lemma_mod_bound(ax * s, 65536);
    lemma_mod_bound(ay * s, 65536);
    lemma_mod_bound(b * s, 65536);
}

proof fn lemma_cordic_scale_pos(i: int)
    requires
        0 <= i <= 16,
    ensures
        cordic_scale(i) >= 1,
        cordic_scale(i) <= 65536,
    decreases i,
{
    reveal_with_fuel(cordic_scale, 17);
    if i > 0 {
        lemma_cordic_scale_pos(i - 1);
    }
    assert(cordic_scale(16) == 1);
}

proof fn lemma_cordic_bound_final()
    ensures
        forall|i: int| 0 <= i <= 16 ==> #[trigger] cordic_bound(i) <= 200000,
{
    reveal_with_fuel(cordic_scale, 17);
    reveal_with_fuel(cordic_bound, 17);
    assert(cordic_scale(0) == 65536);
    assert(cordic_scale(1) == 32768);
    assert(cordic_scale(2) == 16384);
    assert(cordic_scale(3) == 8192);
    assert(cordic_scale(4) == 4096);
    assert(cordic_scale(5) == 2048);
    assert(cordic_scale(6) == 1024);
    assert(cordic_scale(7) == 512);
    assert(cordic_scale(8) == 256);
    assert(cordic_scale(9) == 128);
    assert(cordic_scale(10) == 64);
    assert(cordic_scale(11) == 32);
    assert(cordic_scale(12) == 16);
    assert(cordic_scale(13) == 8);
    assert(cordic_scale(14) == 4);
    assert(cordic_scale(15) == 2);
    assert(cordic_scale(16) == 1);
    assert(cordic_bound(0) == 39797);
    assert(cordic_bound(1) == 79597);
    assert(cordic_bound(2) == 119398);
    assert(cordic_bound(3) == 149250);
    assert(cordic_bound(4) == 167909);
    assert(cordic_bound(5) == 178406);
    assert(cordic_bound(6) == 183984);
    assert(cordic_bound(7) == 186861);
    assert(cordic_bound(8) == 188323);
    assert(cordic_bound(9) == 189061);
    assert(cordic_bound(10) == 189433);
    assert(cordic_bound(11) == 189620);
    assert(cordic_bound(12) == 189715);
    assert(cordic_bound(13) == 189764);
    assert(cordic_bound(14) == 189790);
    assert(cordic_bound(15) == 189804);
    assert(cordic_bound(16) == 189812);
}

impl FGi32 {
    /// Converts an angle in degrees to radians.
    pub fn to_radians(self) -> (r: FGi32)
        ensures
            r.bits == to_radians_spec(self.bits as int),
    {
        let ghost a: int = self.bits as int;
        proof {
            let c: int = 74961321;
            let w = a * 65536;
            assert(-0x8000_0000_0000 * c <= w * c <= 0x8000_0000_0000 * c) by (nonlinear_arith)
                requires
                    -0x8000_0000 <= a < 0x8000_0000,
                    w == a * 65536,
                    c == 74961321,
            ;
            lemma_div_is_ordered(-0x8000_0000_0000 * c, w * c, 0x1_0000_0000);
            lemma_div_is_ordered(w * c, 0x8000_0000_0000 * c, 0x1_0000_0000);
            let p = q32_mul(w, c);
            assert(-0x8000 * c <= p <= 0x8000 * c);
            lemma_div_is_ordered(-0x8000 * c, p, 65536);
            lemma_div_is_ordered(p, 0x8000 * c, 65536);
        }
        FGWide::from_fx(self).mul(FGWide::from_bits(DEG_TO_RAD_WIDE_BITS)).to_fx()
    }

    /// `(sin, cos)` of an angle in radians, by sixteen CORDIC rotations;
    /// values within four raw units of 0 or of +-1 are snapped to them.
    pub fn sin_cos(self) -> (r: (FGi32, FGi32))
        ensures
            r.0.bits == sin_cos_spec(self.bits as int).0,
            r.1.bits == sin_cos_spec(self.bits as int).1,
            -0x4_0000 <= r.0.bits <= 0x4_0000,
            -0x4_0000 <= r.1.bits <= 0x4_0000,
    {
        let q: i128 = trunc_div_i128(self.bits as i128, TWO_PI_BITS as i128);
        proof {
            lemma_trunc_rem_bounds(self.bits as int, TWO_PI_BITS as int);
        }
        let rem: i32 = (self.bits as i128 - (TWO_PI_BITS as i128) * q) as i32;
        let mut angle: i32 = rem;
        if angle > PI_BITS {
            angle = angle - TWO_PI_BITS;
        } else if angle < -PI_BITS {
            angle = angle + TWO_PI_BITS;
        }
        let mut sign: i32 = 65536;
        if angle > HALF_PI_BITS {
            angle = angle - PI_BITS;
            sign = -65536;
        } else if angle < -HALF_PI_BITS {
            angle = angle + PI_BITS;
            sign = -65536;
        }
        let ghost a0 = angle as int;
        let ghost sign0 = sign as int;
        assert((a0, sign0) == quadrant(fold_angle(self.bits as int)));
        let mut x: i32 = CORDIC_GAIN_INVERSE_BITS;
        let mut y: i32 = 0;
        let mut scale: i32 = 65536;
        let mut index: usize = 0;
        proof {
            lemma_cordic_bound_final();
        }
        while index < 16
            invariant
                0 <= index <= 16,
                scale as int == cordic_scale(index as int),
                cordic_run(angle as int, x as int, y as int, index as int) == cordic_run(
                    a0,
                    CORDIC_GAIN_INVERSE_BITS as int,
                    0,
                    0,
                ),
                abs_int(x as int) + abs_int(y as int) <= cordic_bound(index as int),
                forall|i: int| 0 <= i <= 16 ==> #[trigger] cordic_bound(i) <= 200000,
                -(102944 + index as int * 51472) <= angle <= 102944 + index as int * 51472,
            decreases 16 - index,
        {
            proof {
                lemma_cordic_scale_pos(index as int);
                lemma_step_bound(x as int, y as int, scale as int, cordic_bound(index as int));
                assert(cordic_bound(index + 1) == cordic_bound(index as int) + (cordic_bound(
                    index as int,
                ) * cordic_scale(index as int)) / 65536 + 3);
                assert(cordic_bound(index + 1) <= 200000);
                assert(cordic_scale(index + 1) == cordic_scale(index as int) / 2);
                lemma_small_floor(x as int, scale as int);
                lemma_small_floor(y as int, scale as int);
            }
            let step: i32 = cordic_angle_exec(index);
            let s = FGi32::from_bits(scale);
            let xf = FGi32::from_bits(x);
            let yf = FGi32::from_bits(y);
            if angle >= 0 {
                let next_x: i32 = x - yf.mul(s).bits;
                y = y + xf.mul(s).bits;
                x = next_x;
                angle = angle - step;
            } else {
                let next_x: i32 = x + yf.mul(s).bits;
                y = y - xf.mul(s).bits;
                x = next_x;
                angle = angle + step;
            }
            scale = scale / 2;
            index = index + 1;
        }
        proof {
            lemma_small_floor(y as int, sign as int);
            lemma_small_floor(x as int, sign as int);
        }
        let ys = snap_axis_exec(FGi32::from_bits(y).mul(FGi32::from_bits(sign)).bits);
        let xs = snap_axis_exec(FGi32::from_bits(x).mul(FGi32::from_bits(sign)).bits);
        (FGi32::from_bits(ys), FGi32::from_bits(xs))
    }
}

/// A product of a value below `2^18` in magnitude by a scale of at most one
/// is at most the value in magnitude.
proof fn lemma_small_floor(v: int, s: int)
    requires
        abs_int(v) <= 200000,
        -65536 <= s <= 65536,
    ensures
        abs_int(q16_mul(v, s)) <= 200001,
        i32_fits(q16_mul(v, s)),
{
    let p = v * s;
    assert(-200000 * 65536 <= p <= 200000 * 65536) by (nonlinear_arith)
        requires
            abs_int(v) <= 200000,
            -65536 <= s <= 65536,
            p == v * s,
    ;
    lemma_div_is_ordered(-200000 * 65536, p, 65536);
    lemma_div_is_ordered(p, 200000int * 65536, 65536);
}

proof fn lemma_trunc_rem_bounds(a: int, b: int)
    requires
        b > 0,
        i32_fits(a),
    ensures
        -b < trunc_rem(a, b) < b,
        i128_fits(trunc_div(a, b)),
        abs_int(trunc_div(a, b)) <= abs_int(a),
{
    let m = abs_int(a);
    lemma_fundamental_div_mod(m, b);
    lemma_mod_bound(m, b);
    lemma_div_is_ordered_by_denominator(m, 1, b);
    lemma_div_pos_is_pos(m, b);
    if a >= 0 {
        assert(trunc_rem(a, b) == m - b * (m / b));
    } else {
        assert(trunc_div(a, b) == -(m / b));
        assert(b * (-(m / b)) == -(b * (m / b))) by (nonlinear_arith);
        assert(trunc_rem(a, b) == -(m - b * (m / b)));
    }
}

fn snap_axis_exec(v: i32) -> (r: i32)
    requires
        -0x4_0000 <= v <= 0x4_0000,
    ensures
        r == snap_axis(v as int),
        -0x4_0000 <= r <= 0x4_0000,
{
    let a: i32 = if v < 0 {
        -v
    } else {
        v
    };
    if a <= 4 {
        0
    } else {
        let d: i32 = a - 65536;
        let ad: i32 = if d < 0 {
            -d
        } else {
            d
        };
        if ad <= 4 {
            if v < 0 {
                -65536
            } else {
                65536
            }
        } else {
            v
        }
    }
}

} // verus!
