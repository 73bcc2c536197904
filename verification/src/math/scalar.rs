//! Fixed-point scalars.
//!
//! [`FGi32`] is a Q16.16 number (16 integer bits, 16 fractional bits) stored
//! in an `i32`; [`FGWide`] is a Q96.32 number stored in an `i128`, used for
//! intermediate products so that they neither lose precision nor overflow.
//! Every value is modelled by its raw bits: the real value of an `FGi32` is
//! `bits / 2^16` and that of an `FGWide` is `bits / 2^32`.

use vstd::arithmetic::div_mod::*;
use vstd::prelude::*;

verus! {

/// `2^16`, the scale of a Q16.16 value.
pub const Q16_SCALE: i64 = 65536;

pub open spec fn i32_fits(v: int) -> bool {
    i32::MIN <= v <= i32::MAX
}

pub open spec fn i64_fits(v: int) -> bool {
    i64::MIN <= v <= i64::MAX
}

pub open spec fn i128_fits(v: int) -> bool {
    i128::MIN <= v <= i128::MAX
}

pub open spec fn abs_int(v: int) -> int {
    if v < 0 {
        -v
    } else {
        v
    }
}

/// Integer division rounding toward zero, as Rust's `/` on integers does.
pub open spec fn trunc_div(n: int, d: int) -> int {
    if (n >= 0) == (d > 0) {
        abs_int(n) / abs_int(d)
    } else {
        -(abs_int(n) / abs_int(d))
    }
}

/// Bits of the product of two Q16.16 values: the exact product, rounded
/// toward negative infinity.
pub open spec fn q16_mul(a: int, b: int) -> int {
    (a * b) / 65536
}

/// Bits of the quotient of two Q16.16 values, rounded toward zero.
pub open spec fn q16_div(a: int, b: int) -> int {
    trunc_div(a * 65536, b)
}

/// Bits of the product of two Q96.32 (or Q32.32) values, rounded toward
/// negative infinity.
pub open spec fn q32_mul(a: int, b: int) -> int {
    (a * b) / 0x1_0000_0000
}

/// Bits of the quotient of two Q96.32 (or Q32.32) values, rounded toward zero.
pub open spec fn q32_div(a: int, b: int) -> int {
    trunc_div(a * 0x1_0000_0000, b)
}

/// The bits of `sign(a)` in Q16.16.
pub open spec fn q16_signum(a: int) -> int {
    if a > 0 {
        65536
    } else if a < 0 {
        -65536
    } else {
        0
    }
}

/// `r` is the integer square root of `n`: the largest `r` with `r * r <= n`.
pub open spec fn is_isqrt(n: int, r: int) -> bool {
    &&& 0 <= r
    &&& r * r <= n
    &&& n < (r + 1) * (r + 1)
}

/// The integer square root of `n` (for `n >= 0`).
pub open spec fn isqrt(n: int) -> int {
    choose|r: int| is_isqrt(n, r)
}

/// Bits of the square root of a non-negative Q96.32 (or Q32.32) value,
/// rounded down.
pub open spec fn q32_sqrt(a: int) -> int {
    isqrt(a * 0x1_0000_0000)
}

pub proof fn lemma_isqrt_unique(n: int, r: int, s: int)
    requires
        is_isqrt(n, r),
        is_isqrt(n, s),
    ensures
        r == s,
{
    if r < s {
        assert((r + 1) * (r + 1) <= s * s) by (nonlinear_arith)
            requires
                0 <= r < s,
        ;
    } else if s < r {
        assert((s + 1) * (s + 1) <= r * r) by (nonlinear_arith)
            requires
                0 <= s < r,
        ;
    }
}

pub proof fn lemma_isqrt_nonneg(n: int)
    requires
        n >= 0,
    ensures
        isqrt(n) >= 0,
{
    lemma_isqrt_spec(n);
}

/// The integer square root of a non-negative number exists.
pub proof fn lemma_isqrt_spec(n: int)
    requires
        n >= 0,
    ensures
        is_isqrt(n, isqrt(n)),
    decreases n,
{
    if n == 0 {
        assert(is_isqrt(0, 0));
    } else {
        lemma_isqrt_spec(n - 1);
        let r = isqrt(n - 1);
        if n < (r + 1) * (r + 1) {
            assert(is_isqrt(n, r));
        } else {
            assert(n == (r + 1) * (r + 1));
            assert(n < (r + 2) * (r + 2)) by (nonlinear_arith)
                requires
                    n == (r + 1) * (r + 1),
                    r >= 0,
            ;
            assert(is_isqrt(n, r + 1));
        }
    }
}

/// A witness of the integer square root is the integer square root.
pub proof fn lemma_isqrt_witness(n: int, r: int)
    requires
        is_isqrt(n, r),
    ensures
        isqrt(n) == r,
{
    assert(exists|s: int| is_isqrt(n, s));
    lemma_isqrt_unique(n, r, isqrt(n));
}

proof fn lemma_floor_div_negative(m: int, d: int)
    requires
        m >= 0,
        d > 0,
    ensures
        (-m - 1) / d == -(m / d) - 1,
{
    lemma_fundamental_div_mod(m, d);
    lemma_mod_bound(m, d);
    let q = m / d;
    let r = m % d;
    assert(-m - 1 == (-q - 1) * d + (d - 1 - r)) by (nonlinear_arith)
        requires
            m == d * q + r,
    ;
    lemma_fundamental_div_mod_converse(-m - 1, d, -q - 1, d - 1 - r);
}

/// `n / d` rounded toward negative infinity, for a positive `d`.
pub fn floor_div_i128(n: i128, d: i128) -> (r: i128)
    requires
        d > 0,
    ensures
        r == n as int / d as int,
{
    if n >= 0 {
        let q: u128 = (n as u128) / (d as u128);
        proof {
            lemma_div_is_ordered_by_denominator(n as int, 1, d as int);
        }
        q as i128
    } else {
        let m: u128 = (-(n + 1)) as u128;
        let q: u128 = m / (d as u128);
        proof {
            lemma_div_is_ordered_by_denominator(m as int, 1, d as int);
            lemma_floor_div_negative(m as int, d as int);
        }
        -(q as i128) - 1
    }
}

/// The magnitude of `n` as an unsigned value.
fn magnitude_i128(n: i128) -> (r: u128)
    ensures
        r == abs_int(n as int),
{
    if n >= 0 {
        n as u128
    } else {
        ((-(n + 1)) as u128) + 1
    }
}

/// `n / d` rounded toward zero.
pub fn trunc_div_i128(n: i128, d: i128) -> (r: i128)
    requires
        d != 0,
        i128_fits(trunc_div(n as int, d as int)),
    ensures
        r == trunc_div(n as int, d as int),
{
    let nm: u128 = magnitude_i128(n);
    let dm: u128 = magnitude_i128(d);
    let q: u128 = nm / dm;
    if (n >= 0) == (d > 0) {
        q as i128
    } else {
        if q == 0x8000_0000_0000_0000_0000_0000_0000_0000u128 {
            i128::MIN
        } else {
            -(q as i128)
        }
    }
}

/// The raw bits that `I16F16::from_str` of the `fixed` crate gives for a
/// string: `None` where the string is not a decimal number that fits.
pub uninterp spec fn fixed_parse_q16(s: Seq<char>) -> Option<i32>;

/// Calls `I16F16::from_str` of the `fixed` crate, which parses a decimal
/// number, rounding to the nearest with ties to even. Its result depends on
/// the string alone and is named `fixed_parse_q16`; nothing more is claimed.
#[verifier::external_body]
fn fixed_from_str(s: &str) -> (r: Option<i32>)
    ensures
        r == fixed_parse_q16(s@),
{
    match fixed::types::I16F16::from_str(s) {
        Ok(v) => Some(v.to_bits()),
        Err(_) => None,
    }
}

/// A Q16.16 fixed-point number, stored as its raw bits.
#[derive(Clone, Copy, PartialEq, Eq, Structural, Debug, Hash)]
pub struct FGi32 {
    pub bits: i32,
}

impl FGi32 {
    pub fn from_bits(bits: i32) -> (r: FGi32)
        ensures
            r.bits == bits,
    {
        FGi32 { bits }
    }

    pub fn to_bits(self) -> (r: i32)
        ensures
            r == self.bits,
    {
        self.bits
    }

    /// Parses a decimal literal such as `"1.5"` or `"-0.25"`; `None` where it
    /// is not one that fits.
    pub fn try_lit(s: &str) -> (r: Option<FGi32>)
        ensures
            r == (match fixed_parse_q16(s@) {
                Some(b) => Some(FGi32 { bits: b }),
                None => None,
            }),
    {
        match fixed_from_str(s) {
            Some(_) => Some(FGi32::lit(s)),
            None => None,
        }
    }

    /// Parses a decimal literal that is known to be valid.
    pub fn lit(s: &str) -> (r: FGi32)
        requires
            fixed_parse_q16(s@) is Some,
        ensures
            r.bits == fixed_parse_q16(s@)->0,
    {
        match fixed_from_str(s) {
            Some(b) => FGi32 { bits: b },
            None => FGi32 { bits: 0 },
        }
    }

    pub fn zero() -> (r: FGi32)
        ensures
            r.bits == 0,
    {
        FGi32 { bits: 0 }
    }

    pub fn one() -> (r: FGi32)
        ensures
            r.bits == 65536,
    {
        FGi32 { bits: 65536 }
    }

    pub fn neg_one() -> (r: FGi32)
        ensures
            r.bits == -65536,
    {
        FGi32 { bits: -65536 }
    }

    /// Converts an integer; the integer must be representable in Q16.16.
    pub fn from_int(n: i32) -> (r: FGi32)
        requires
            -32768 <= n < 32768,
        ensures
            r.bits == n * 65536,
    {
        FGi32 { bits: n * 65536 }
    }

    pub fn add(self, rhs: FGi32) -> (r: FGi32)
        requires
            i32_fits(self.bits + rhs.bits),
        ensures
            r.bits == self.bits + rhs.bits,
    {
        FGi32 { bits: self.bits + rhs.bits }
    }

    pub fn sub(self, rhs: FGi32) -> (r: FGi32)
        requires
            i32_fits(self.bits - rhs.bits),
        ensures
            r.bits == self.bits - rhs.bits,
    {
        FGi32 { bits: self.bits - rhs.bits }
    }

    pub fn neg(self) -> (r: FGi32)
        requires
            self.bits != i32::MIN,
        ensures
            r.bits == -self.bits,
    {
        FGi32 { bits: -self.bits }
    }

    pub fn abs(self) -> (r: FGi32)
        requires
            self.bits != i32::MIN,
        ensures
            r.bits == abs_int(self.bits as int),
    {
        if self.bits < 0 {
            FGi32 { bits: -self.bits }
        } else {
            self
        }
    }

    /// `1`, `0` or `-1` according to the sign.
    pub fn signum(self) -> (r: FGi32)
        ensures
            r.bits == q16_signum(self.bits as int),
    {
        if self.bits > 0 {
            FGi32 { bits: 65536 }
        } else if self.bits < 0 {
            FGi32 { bits: -65536 }
        } else {
            FGi32 { bits: 0 }
        }
    }

    pub fn is_zero(self) -> (r: bool)
        ensures
            r == (self.bits == 0),
    {
        self.bits == 0
    }

    pub fn is_positive(self) -> (r: bool)
        ensures
            r == (self.bits > 0),
    {
        self.bits > 0
    }

    pub fn max(self, other: FGi32) -> (r: FGi32)
        ensures
            r.bits == if self.bits >= other.bits {
                self.bits
            } else {
                other.bits
            },
    {
        if self.bits >= other.bits {
            self
        } else {
            other
        }
    }

    pub fn min(self, other: FGi32) -> (r: FGi32)
        ensures
            r.bits == if self.bits <= other.bits {
                self.bits
            } else {
                other.bits
            },
    {
        if self.bits <= other.bits {
            self
        } else {
            other
        }
    }

    /// The largest integer not greater than `self`.
    pub fn floor(self) -> (r: FGi32)
        ensures
            r.bits == (self.bits as int / 65536) * 65536,
    {
        let q: i128 = floor_div_i128(self.bits as i128, 65536);
        proof {
            lemma_div_is_ordered(i32::MIN as int, self.bits as int, 65536);
            lemma_div_is_ordered(self.bits as int, i32::MAX as int, 65536);
        }
        FGi32 { bits: (q * 65536) as i32 }
    }

    /// Product, rounded toward negative infinity.
    pub fn mul(self, rhs: FGi32) -> (r: FGi32)
        requires
            i32_fits(q16_mul(self.bits as int, rhs.bits as int)),
        ensures
            r.bits == q16_mul(self.bits as int, rhs.bits as int),
    {
        let p: i128 = (self.bits as i128) * (rhs.bits as i128);
        FGi32 { bits: floor_div_i128(p, 65536) as i32 }
    }

    /// Quotient, rounded toward zero.
    pub fn div(self, rhs: FGi32) -> (r: FGi32)
        requires
            rhs.bits != 0,
            i32_fits(q16_div(self.bits as int, rhs.bits as int)),
        ensures
            r.bits == q16_div(self.bits as int, rhs.bits as int),
    {
        let n: i128 = (self.bits as i128) * 65536;
        FGi32 { bits: trunc_div_i128(n, rhs.bits as i128) as i32 }
    }

    /// Widens to Q96.32 without loss.
    pub fn to_wide(self) -> (r: FGWide)
        ensures
            r.bits == self.bits * 65536,
    {
        FGWide { bits: (self.bits as i128) * 65536 }
    }
}

/// A Q96.32 fixed-point number, stored as its raw bits.
#[derive(Clone, Copy, PartialEq, Eq, Structural, Debug, Hash)]
pub struct FGWide {
    pub bits: i128,
}

/// Calls `<I96F32 as Mul>::mul` of the `fixed` crate. Its source multiplies
/// the two values into a 256-bit product and shifts it right by the 32
/// fractional bits, which rounds toward negative infinity; it panics (with
/// debug assertions) where the result does not fit, which `requires` excludes.
#[verifier::external_body]
fn fixed_wide_mul(a: i128, b: i128) -> (r: i128)
    requires
        i128_fits(q32_mul(a as int, b as int)),
    ensures
        r == q32_mul(a as int, b as int),
{
    (fixed::types::I96F32::from_bits(a) * fixed::types::I96F32::from_bits(b)).to_bits()
}

/// Calls `<I96F32 as Div>::div` of the `fixed` crate. Its source shifts the
/// dividend left by the 32 fractional bits into 256 bits and divides,
/// rounding toward zero; it panics on a zero divisor and (with debug
/// assertions) where the quotient does not fit, which `requires` excludes.
#[verifier::external_body]
fn fixed_wide_div(a: i128, b: i128) -> (r: i128)
    requires
        b != 0,
        i128_fits(q32_div(a as int, b as int)),
    ensures
        r == q32_div(a as int, b as int),
{
    (fixed::types::I96F32::from_bits(a) / fixed::types::I96F32::from_bits(b)).to_bits()
}

/// Calls `I96F32::sqrt` of the `fixed` crate. Its documentation promises a
/// result rounded down, `result <= sqrt(self) < result + DELTA`, which in
/// raw bits is the integer square root of `bits * 2^32`; it panics on a
/// negative value, which `requires` excludes.
#[verifier::external_body]
fn fixed_wide_sqrt(a: i128) -> (r: i128)
    requires
        a >= 0,
    ensures
        is_isqrt(a * 0x1_0000_0000, r as int),
{
    fixed::types::I96F32::from_bits(a).sqrt().to_bits()
}

/// Calls `I32F32::sqrt` of the `fixed` crate, with the same promise as for
/// `I96F32::sqrt`: the raw bits of the result are the integer square root of
/// `bits * 2^32`. It panics on a negative value, which `requires` excludes.
#[verifier::external_body]
fn fixed_q32_sqrt(a: i64) -> (r: i64)
    requires
        a >= 0,
    ensures
        is_isqrt(a * 0x1_0000_0000, r as int),
{
    fixed::types::I32F32::from_bits(a).sqrt().to_bits()
}

/// The integer square root of `bits * 2^32` for a non-negative Q32.32 value.
pub fn q32_sqrt_i64(a: i64) -> (r: i64)
    requires
        a >= 0,
    ensures
        r == q32_sqrt(a as int),
        r >= 0,
{
    let r: i64 = fixed_q32_sqrt(a);
    proof {
        lemma_isqrt_witness(a * 0x1_0000_0000, r as int);
    }
    r
}

impl FGWide {
    pub fn from_bits(bits: i128) -> (r: FGWide)
        ensures
            r.bits == bits,
    {
        FGWide { bits }
    }

    pub fn zero() -> (r: FGWide)
        ensures
            r.bits == 0,
    {
        FGWide { bits: 0 }
    }

    pub fn one() -> (r: FGWide)
        ensures
            r.bits == 0x1_0000_0000,
    {
        FGWide { bits: 0x1_0000_0000 }
    }

    pub fn from_fx(x: FGi32) -> (r: FGWide)
        ensures
            r.bits == x.bits * 65536,
    {
        x.to_wide()
    }

    pub fn add(self, rhs: FGWide) -> (r: FGWide)
        requires
            i128_fits(self.bits + rhs.bits),
        ensures
            r.bits == self.bits + rhs.bits,
    {
        FGWide { bits: self.bits + rhs.bits }
    }

    pub fn sub(self, rhs: FGWide) -> (r: FGWide)
        requires
            i128_fits(self.bits - rhs.bits),
        ensures
            r.bits == self.bits - rhs.bits,
    {
        FGWide { bits: self.bits - rhs.bits }
    }

    pub fn neg(self) -> (r: FGWide)
        requires
            self.bits != i128::MIN,
        ensures
            r.bits == -self.bits,
    {
        FGWide { bits: -self.bits }
    }

    /// Product, rounded toward negative infinity.
    pub fn mul(self, rhs: FGWide) -> (r: FGWide)
        requires
            i128_fits(q32_mul(self.bits as int, rhs.bits as int)),
        ensures
            r.bits == q32_mul(self.bits as int, rhs.bits as int),
    {
        FGWide { bits: fixed_wide_mul(self.bits, rhs.bits) }
    }

    /// Quotient, rounded toward zero.
    pub fn div(self, rhs: FGWide) -> (r: FGWide)
        requires
            rhs.bits != 0,
            i128_fits(q32_div(self.bits as int, rhs.bits as int)),
        ensures
            r.bits == q32_div(self.bits as int, rhs.bits as int),
    {
        FGWide { bits: fixed_wide_div(self.bits, rhs.bits) }
    }

    /// Square root, rounded down.
    pub fn sqrt(self) -> (r: FGWide)
        requires
            self.bits >= 0,
        ensures
            r.bits == q32_sqrt(self.bits as int),
            r.bits >= 0,
    {
        let r: i128 = fixed_wide_sqrt(self.bits);
        proof {
            lemma_isqrt_witness(self.bits * 0x1_0000_0000, r as int);
        }
        FGWide { bits: r }
    }

    /// Narrows to Q16.16, dropping the extra fractional bits (rounding toward
    /// negative infinity); the result must fit.
    pub fn to_fx(self) -> (r: FGi32)
        requires
            i32_fits(self.bits as int / 65536),
        ensures
            r.bits == self.bits as int / 65536,
    {
        FGi32 { bits: floor_div_i128(self.bits, 65536) as i32 }
    }
}

} // verus!
