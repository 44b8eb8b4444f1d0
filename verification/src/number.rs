//! Finite single-precision numbers, held by their bit patterns.
//!
//! The interpreter never computes with fractions itself. It carries each
//! number as the 32 bits of its binary32 encoding and needs only a few things
//! of it: that it is finite, its opposite, its whole part in pixels, and the
//! number that is half of a whole one. All of these can be had from the
//! pattern with integer arithmetic, and are proved here against the value
//! that the pattern encodes.
//!
//! A finite pattern with sign bit `s`, exponent field `e` and fraction field
//! `f` encodes `(-1)^s * significand * 2^(binade - 149)`, where the
//! significand is `f` and the binade 0 for `e == 0`, and `f + 2^23` and
//! `e - 1` otherwise. Every finite value is thus a whole multiple of
//! `2^-149`, and [`scaled_value`] is that multiple.

use vstd::prelude::*;
use vstd::arithmetic::div_mod::{
    lemma_basic_div, lemma_div_by_multiple, lemma_div_is_ordered,
    lemma_div_multiples_vanish_quotient, lemma_fundamental_div_mod,
    lemma_fundamental_div_mod_converse, lemma_mod_bound, lemma_mod_multiples_basic,
};
use vstd::arithmetic::mul::{
    lemma_mul_inequality, lemma_mul_is_associative, lemma_mul_is_commutative,
    lemma_mul_is_distributive_add_other_way, lemma_mul_strict_inequality,
};
use vstd::arithmetic::power2::{
    lemma2_to64, lemma_pow2_adds, lemma_pow2_pos, lemma_pow2_strictly_increases,
    lemma_pow2_unfold, pow2,
};
use vstd::bits::{lemma_u32_shl_is_mul, lemma_u32_shr_is_div};

verus! {

/// The sign bit of a pattern: set for negative numbers and for negative zero.
pub open spec fn sign_bit(bits: u32) -> bool {
    bits >= 0x8000_0000
}

/// The biased exponent of a pattern, bits 23 to 30.
pub open spec fn exponent_field(bits: u32) -> nat {
    (bits as nat / 0x80_0000) % 0x100
}

/// The fraction of a pattern, bits 0 to 22.
pub open spec fn fraction_field(bits: u32) -> nat {
    bits as nat % 0x80_0000
}

/// A pattern encodes a finite value unless its exponent field is all ones,
/// which marks the infinities and the values that are not numbers.
pub open spec fn is_finite(bits: u32) -> bool {
    exponent_field(bits) != 0xff
}

/// The integer that the fraction stands for: with the hidden leading one,
/// except in the lowest binade.
pub open spec fn significand(bits: u32) -> nat {
    if exponent_field(bits) == 0 {
        fraction_field(bits)
    } else {
        fraction_field(bits) + 0x80_0000
    }
}

/// The power of two, counted from `2^-149`, that the significand is
/// multiplied by.
pub open spec fn binade(bits: u32) -> nat {
    if exponent_field(bits) == 0 {
        0
    } else {
        (exponent_field(bits) - 1) as nat
    }
}

/// The absolute value of a finite pattern, in units of `2^-149`.
pub open spec fn magnitude(bits: u32) -> nat {
    significand(bits) * pow2(binade(bits))
}

/// The value of a finite pattern, in units of `2^-149`.
pub open spec fn scaled_value(bits: u32) -> int {
    if sign_bit(bits) {
        -(magnitude(bits) as int)
    } else {
        magnitude(bits) as int
    }
}

/// The whole part of the absolute value of a finite pattern.
pub open spec fn whole_magnitude(bits: u32) -> nat {
    magnitude(bits) / pow2(149)
}

/// The value of a finite pattern rounded toward zero to a whole number, and
/// then brought into the range of `i32`.
pub open spec fn truncation(bits: u32) -> int {
    let whole = whole_magnitude(bits) as int;
    if sign_bit(bits) {
        if whole >= 0x8000_0000 {
            i32::MIN as int
        } else {
            -whole
        }
    } else {
        if whole >= 0x8000_0000 {
            i32::MAX as int
        } else {
            whole
        }
    }
}

/// The whole number of pixels that a finite pattern stands for.
pub open spec fn pixel(bits: u32) -> i32 {
    truncation(bits) as i32
}

/// The place of the leading one of a whole number: the `p` with
/// `2^p <= n < 2^(p+1)`. Zero has none and gets 0.
pub open spec fn top_bit(n: nat) -> nat
    decreases n,
{
    if n <= 1 {
        0
    } else {
        1 + top_bit(n / 2)
    }
}

/// The distance between neighbouring numbers of single precision at `n`:
/// 1 up to `2^24`, and from there on what the 24 bits of a significand
/// leave out.
pub open spec fn granule(n: nat) -> nat {
    if top_bit(n) <= 23 {
        1
    } else {
        pow2((top_bit(n) - 23) as nat)
    }
}

/// A whole number rounded to single precision: the multiple of the granule
/// nearest to it, and of two that are equally near the even one.
pub open spec fn rounded(n: nat) -> nat {
    let g = granule(n);
    let q = n / g;
    let r = n % g;
    if 2 * r < g || (2 * r == g && q % 2 == 0) {
        q * g
    } else {
        (q + 1) * g
    }
}

/// The pattern with the sign bit flipped.
pub open spec fn negation(bits: u32) -> u32 {
    if sign_bit(bits) {
        (bits - 0x8000_0000) as u32
    } else {
        (bits + 0x8000_0000) as u32
    }
}

/// Flipping the sign bit keeps a pattern finite and turns its value into the
/// opposite value.
pub proof fn negation_is_opposite(bits: u32)
    ensures
        is_finite(negation(bits)) == is_finite(bits),
        magnitude(negation(bits)) == magnitude(bits),
        scaled_value(negation(bits)) == -scaled_value(bits),
        negation(negation(bits)) == bits,
{
    let flipped = negation(bits);
    assert(exponent_field(flipped) == exponent_field(bits) && fraction_field(flipped)
        == fraction_field(bits)) by {
        if sign_bit(bits) {
            assert(bits as nat == flipped as nat + 0x100 * 0x80_0000);
        } else {
            assert(flipped as nat == bits as nat + 0x100 * 0x80_0000);
        }
    }
}

/// Cutting down rounds toward zero: the whole part is the largest whole
/// number that the magnitude reaches.
pub proof fn whole_magnitude_is_the_floor(bits: u32)
    ensures
        whole_magnitude(bits) * pow2(149) <= magnitude(bits),
        magnitude(bits) < (whole_magnitude(bits) + 1) * pow2(149),
{
    let m = magnitude(bits) as int;
    let d = pow2(149) as int;
    lemma_pow2_pos(149);
    lemma_fundamental_div_mod(m, d);
    lemma_mod_bound(m, d);
    assert(d * (m / d) == (m / d) * d) by {
        lemma_mul_is_commutative(d, m / d);
    }
    assert((m / d + 1) * d == (m / d) * d + d) by {
        lemma_mul_is_distributive_add_other_way(d, m / d, 1);
    }
}

/// Opposite numbers have opposite whole parts, as long as the whole part
/// is in the range of `i32`.
pub proof fn truncation_of_the_opposite(bits: u32)
    requires
        whole_magnitude(bits) < 0x8000_0000,
    ensures
        truncation(negation(bits)) == -truncation(bits),
{
    negation_is_opposite(bits);
}

/// Below one: an exponent field under 127 leaves no whole part.
proof fn whole_magnitude_below_one(bits: u32)
    requires
        exponent_field(bits) < 127,
    ensures
        whole_magnitude(bits) == 0,
{
    let s = significand(bits) as int;
    let b = binade(bits);
    lemma_pow2_pos(b);
    lemma_pow2_pos(125);
    if b < 125 {
        lemma_pow2_strictly_increases(b, 125);
    }
    lemma2_to64();
    lemma_pow2_adds(24, 125);
    assert(s * pow2(b) <= s * pow2(125)) by {
        lemma_mul_inequality(pow2(b) as int, pow2(125) as int, s);
        lemma_mul_is_commutative(s, pow2(b) as int);
        lemma_mul_is_commutative(s, pow2(125) as int);
    }
    assert(s * pow2(125) < pow2(24) * pow2(125)) by {
        lemma_mul_strict_inequality(s, pow2(24) as int, pow2(125) as int);
    }
    lemma_basic_div(magnitude(bits) as int, pow2(149) as int);
}

/// From `2^31` on: an exponent field of 158 or more leaves the range of
/// `i32` on either side.
proof fn whole_magnitude_out_of_range(bits: u32)
    requires
        exponent_field(bits) >= 158,
    ensures
        whole_magnitude(bits) >= 0x8000_0000,
{
    let s = significand(bits) as int;
    let b = binade(bits);
    lemma_pow2_pos(b);
    lemma_pow2_pos(149);
    lemma_pow2_pos(157);
    if b > 157 {
        lemma_pow2_strictly_increases(157, b);
    }
    lemma2_to64();
    lemma_pow2_adds(8, 149);
    assert(pow2(23) * pow2(157) <= s * pow2(b)) by {
        lemma_mul_inequality(pow2(23) as int, s, pow2(157) as int);
        lemma_mul_inequality(pow2(157) as int, pow2(b) as int, s);
        lemma_mul_is_commutative(s, pow2(157) as int);
        lemma_mul_is_commutative(s, pow2(b) as int);
    }
    assert(pow2(23) * pow2(157) == 0x8000_0000 * pow2(149)) by {
        lemma_mul_is_associative(pow2(23) as int, pow2(8) as int, pow2(149) as int);
    }
    lemma_div_by_multiple(0x8000_0000, pow2(149) as int);
    lemma_div_is_ordered(
        0x8000_0000 * (pow2(149) as int),
        magnitude(bits) as int,
        pow2(149) as int,
    );
}

/// Between `2^23` and `2^31`: the whole part is the significand shifted left.
proof fn whole_magnitude_shifted_left(bits: u32, m: u32, k: u32)
    requires
        150 <= exponent_field(bits) < 158,
        m == significand(bits),
        k == exponent_field(bits) - 150,
    ensures
        whole_magnitude(bits) == m << k,
        (m << k) < 0x8000_0000,
{
    let p = pow2(k as nat) as int;
    lemma_pow2_pos(k as nat);
    lemma_pow2_pos(149);
    lemma_pow2_pos(7);
    if k < 7 {
        lemma_pow2_strictly_increases(k as nat, 7);
    }
    lemma2_to64();
    lemma_pow2_adds(k as nat, 149);
    assert(m * p < 0x8000_0000) by {
        lemma_mul_inequality(p, pow2(7) as int, m as int);
        lemma_mul_is_commutative(m as int, p);
    }
    lemma_u32_shl_is_mul(m, k);
    assert(magnitude(bits) == (m * p) * pow2(149)) by {
        lemma_mul_is_associative(m as int, p, pow2(149) as int);
    }
    lemma_div_by_multiple(m * p, pow2(149) as int);
}

/// Between one and `2^23`: the whole part is the significand shifted right.
proof fn whole_magnitude_shifted_right(bits: u32, m: u32, k: u32)
    requires
        127 <= exponent_field(bits) < 150,
        m == significand(bits),
        k == 150 - exponent_field(bits),
    ensures
        whole_magnitude(bits) == m >> k,
        (m >> k) < 0x8000_0000,
{
    let b = binade(bits);
    let low = pow2(b) as int;
    let p = pow2(k as nat) as int;
    lemma_pow2_pos(b);
    lemma_pow2_pos(k as nat);
    lemma_pow2_adds(b, k as nat);
    lemma_u32_shr_is_div(m, k);
    assert(magnitude(bits) == low * m) by {
        lemma_mul_is_commutative(low, m as int);
    }
    lemma_div_multiples_vanish_quotient(low, m as int, p);
    assert((m >> k) <= m) by (bit_vector);
}

/// The pattern is half of the whole number `n`, rounded to single
/// precision.
pub open spec fn is_half_of(bits: u32, n: nat) -> bool {
    !sign_bit(bits) && 2 * scaled_value(bits) == rounded(n) * pow2(149)
}

/// A whole number below `2^k` has its leading one below place `k`.
proof fn top_bit_is_below(n: nat, k: nat)
    requires
        k >= 1,
        n < pow2(k),
    ensures
        top_bit(n) < k,
    decreases k,
{
    lemma2_to64();
    if n > 1 {
        lemma_pow2_unfold(k);
        top_bit_is_below(n / 2, (k - 1) as nat);
    }
}

/// Whole numbers below `2^24` are numbers of single precision as they are:
/// rounding leaves them alone, and their halves are exact.
pub proof fn rounding_keeps_small_numbers(n: nat)
    requires
        n < 0x100_0000,
    ensures
        rounded(n) == n,
{
    lemma2_to64();
    top_bit_is_below(n, 24);
}

/// Rounding goes to a nearest neighbour: the result is a multiple of the
/// granule, and no more than half a granule away.
pub proof fn rounding_is_to_the_nearest(n: nat)
    ensures
        granule(n) > 0,
        rounded(n) % granule(n) == 0,
        2 * (rounded(n) - n) <= granule(n),
        2 * (n - rounded(n)) <= granule(n),
{
    let g = granule(n) as int;
    if top_bit(n) > 23 {
        lemma_pow2_pos((top_bit(n) - 23) as nat);
    }
    let q = n as int / g;
    let r = n as int % g;
    lemma_fundamental_div_mod(n as int, g);
    lemma_mod_bound(n as int, g);
    lemma_mod_multiples_basic(q, g);
    lemma_mod_multiples_basic(q + 1, g);
    assert(g * q == q * g && (q + 1) * g == q * g + g) by (nonlinear_arith);
}

/// The leading one of `n` is at `p` where `2^p <= n < 2^(p+1)`.
proof fn top_bit_is(n: nat, p: nat)
    requires
        pow2(p) <= n < 2 * pow2(p),
    ensures
        top_bit(n) == p,
    decreases p,
{
    lemma2_to64();
    if p == 0 {
    } else {
        lemma_pow2_unfold(p);
        top_bit_is(n / 2, (p - 1) as nat);
    }
}

/// The magnitude of a pattern put together from an exponent field and a
/// significand with its leading one.
proof fn magnitude_of_parts(bits: u32, exponent: nat, m: nat)
    requires
        1 <= exponent < 255,
        0x80_0000 <= m < 0x100_0000,
        bits == exponent * 0x80_0000 + (m - 0x80_0000),
    ensures
        !sign_bit(bits),
        is_finite(bits),
        magnitude(bits) == m * pow2((exponent - 1) as nat),
{
    let f = (m - 0x80_0000) as int;
    assert(bits as nat / 0x80_0000 == exponent && bits as nat % 0x80_0000 == f) by {
        lemma_fundamental_div_mod_converse(bits as int, 0x80_0000, exponent as int, f);
    }
}

/// Twice a magnitude `s * 2^e`, where a step of `g` whole numbers is a step
/// of `2^(e+1)` in units of `2^-149`.
proof fn twice_the_magnitude(s: nat, g: nat, e: nat, k: nat)
    requires
        g == pow2(k),
        e + 1 == k + 149,
    ensures
        2 * (s * pow2(e)) == (s * g) * pow2(149),
{
    lemma_pow2_adds(k, 149);
    lemma_pow2_unfold(e + 1);
    assert(g * pow2(149) == 2 * pow2(e));
    assert(2 * (s * pow2(e)) == (s * g) * pow2(149)) by (nonlinear_arith)
        requires
            g * pow2(149) == 2 * pow2(e),
    ;
}

/// A finite single-precision number.
///
/// Two numbers are equal when their patterns are: zero and negative zero are
/// different numbers of equal value.
#[derive(Clone, Copy, Debug, PartialEq, Eq, Structural)]
pub struct Number {
    bits: u32,
}

impl View for Number {
    type V = u32;

    /// The bit pattern of the number.
    closed spec fn view(&self) -> u32 {
        self.bits
    }
}

impl Number {
    /// Every number is finite.
    #[verifier::type_invariant]
    pub open spec fn finite(self) -> bool {
        is_finite(self@)
    }

    /// The number with the given pattern, if the pattern is finite.
    pub fn from_bits(bits: u32) -> (r: Option<Number>)
        ensures
            r is Some <==> is_finite(bits),
            r is Some ==> r->0@ == bits,
    {
        assert((bits >> 23) & 0xff == (bits / 0x80_0000) % 0x100) by (bit_vector);
        if (bits >> 23) & 0xff == 0xff {
            None
        } else {
            Some(Number { bits })
        }
    }

    /// Zero, with a clear sign bit.
    pub fn zero() -> (r: Number)
        ensures
            r@ == 0,
            is_finite(r@),
            scaled_value(r@) == 0,
    {
        assert(magnitude(0) == 0) by {
            assert(exponent_field(0) == 0 && fraction_field(0) == 0);
            assert(0 * pow2(0) == 0);
        }
        Number { bits: 0 }
    }

    /// Half of a whole number, rounded to single precision: the middle of
    /// a side that is `n` pixels long.
    pub fn half_of(n: u32) -> (r: Number)
        ensures
            is_half_of(r@, n as nat),
    {
        if n == 0 {
            assert(rounded(0) == 0);
            assert(0 * pow2(149) == 0);
            return Number::zero();
        }
        let mut p: u32 = 0;
        let mut top: u32 = 1;
        proof {
            lemma2_to64();
        }
        while p < 31 && n / 2 >= top
            invariant
                p <= 31,
                top == pow2(p as nat),
                top <= n,
            decreases 31 - p,
        {
            proof {
                lemma_pow2_unfold((p + 1) as nat);
            }
            top = top * 2;
            p = p + 1;
        }
        proof {
            top_bit_is(n as nat, p as nat);
        }
        let exponent: u32 = p + 126;
        if p <= 23 {
            let scale: u32 = 0x80_0000 / top;
            proof {
                lemma_pow2_adds(p as nat, (23 - p) as nat);
                lemma_pow2_pos((23 - p) as nat);
                lemma_div_by_multiple(pow2((23 - p) as nat) as int, top as int);
                assert(scale == pow2((23 - p) as nat)) by {
                    lemma_mul_is_commutative(pow2((23 - p) as nat) as int, top as int);
                }
                assert(0x80_0000 <= n * scale < 0x100_0000) by (nonlinear_arith)
                    requires
                        top <= n < 2 * top,
                        top * scale == 0x80_0000,
                        scale > 0,
                ;
            }
            let m: u32 = n * scale;
            let bits: u32 = exponent * 0x80_0000 + (m - 0x80_0000);
            proof {
                magnitude_of_parts(bits, exponent as nat, m as nat);
                lemma_pow2_adds((23 - p) as nat, (p + 125) as nat);
                assert(magnitude(bits) == n * pow2(148)) by (nonlinear_arith)
                    requires
                        magnitude(bits) == m * pow2((p + 125) as nat),
                        m == n * scale,
                        scale * pow2((p + 125) as nat) == pow2(148),
                ;
                lemma_pow2_unfold(149);
                assert(rounded(n as nat) == n) by (nonlinear_arith)
                    requires
                        granule(n as nat) == 1,
                        rounded(n as nat) == if 2 * (n as nat % 1) < 1 || (2 * (n as nat % 1) == 1
                            && (n as nat / 1) % 2 == 0) {
                            (n as nat / 1) * 1
                        } else {
                            (n as nat / 1 + 1) * 1
                        },
                ;
                assert(2 * (n * pow2(148)) == n * pow2(149)) by (nonlinear_arith)
                    requires
                        pow2(149) == 2 * pow2(148),
                ;
            }
            Number { bits }
        } else {
            let g: u32 = top / 0x80_0000;
            proof {
                lemma_pow2_adds(23, (p - 23) as nat);
                lemma_pow2_pos((p - 23) as nat);
                lemma_div_by_multiple(pow2((p - 23) as nat) as int, 0x80_0000);
                assert(g == pow2((p - 23) as nat));
                lemma_pow2_unfold((p - 23) as nat);
                assert(g % 2 == 0 && g >= 2);
            }
            let q: u32 = n / g;
            let rest: u32 = n % g;
            let half: u32 = g / 2;
            proof {
                assert(0x80_0000 <= n as int / g as int && (n as int / g as int) < 0x100_0000) by {
                    lemma_div_by_multiple(0x80_0000, g as int);
                    lemma_div_is_ordered(top as int, n as int, g as int);
                    lemma_fundamental_div_mod(n as int, g as int);
                    lemma_mod_bound(n as int, g as int);
                    assert((n as int / g as int) < 0x100_0000) by (nonlinear_arith)
                        requires
                            n == g * (n as int / g as int) + (n as int % g as int),
                            0 <= n as int % g as int,
                            n < 2 * top,
                            top == 0x80_0000 * g,
                            g > 0,
                    ;
                }
            }
            let up: u32 = if rest > half || (rest == half && q % 2 == 1) {
                1
            } else {
                0
            };
            let bits: u32 = exponent * 0x80_0000 + (q - 0x80_0000) + up;
            proof {
                let s = (q + up) as nat;
                assert(rounded(n as nat) == s * g);
                if s < 0x100_0000 {
                    magnitude_of_parts(bits, exponent as nat, s);
                } else {
                    magnitude_of_parts(bits, (exponent + 1) as nat, 0x80_0000);
                    lemma_pow2_unfold((p + 126) as nat);
                    assert(0x80_0000 * pow2((p + 126) as nat) == s * pow2((p + 125) as nat))
                        by (nonlinear_arith)
                        requires
                            s == 0x100_0000,
                            pow2((p + 126) as nat) == 2 * pow2((p + 125) as nat),
                    ;
                }
                twice_the_magnitude(s, g as nat, (p + 125) as nat, (p - 23) as nat);
            }
            Number { bits }
        }
    }

    /// The bit pattern of the number.
    pub fn to_bits(self) -> (r: u32)
        ensures
            r == self@,
            is_finite(r),
    {
        proof {
            use_type_invariant(&self);
        }
        self.bits
    }

    /// The opposite number: the same magnitude on the other side of zero.
    pub fn negated(self) -> (r: Number)
        ensures
            r@ == negation(self@),
            scaled_value(r@) == -scaled_value(self@),
    {
        proof {
            use_type_invariant(&self);
            negation_is_opposite(self.bits);
        }
        let bits: u32 = self.bits;
        assert(bits ^ 0x8000_0000 == if bits >= 0x8000_0000 {
            (bits - 0x8000_0000) as u32
        } else {
            (bits + 0x8000_0000) as u32
        }) by (bit_vector);
        Number { bits: bits ^ 0x8000_0000 }
    }

    /// The number cut down to a whole one: rounded toward zero, and kept
    /// within the range of `i32`.
    pub fn truncated(self) -> (r: i32)
        ensures
            r == truncation(self@),
            r == pixel(self@),
    {
        let bits: u32 = self.bits;
        let exponent: u32 = (bits >> 23) & 0xff;
        let m: u32 = (bits & 0x7f_ffff) | 0x80_0000;
        let negative: bool = bits >= 0x8000_0000;
        assert((bits >> 23) & 0xff == (bits / 0x80_0000) % 0x100) by (bit_vector);
        assert((bits & 0x7f_ffff) | 0x80_0000 == bits % 0x80_0000 + 0x80_0000) by (bit_vector);
        if exponent < 127 {
            proof {
                whole_magnitude_below_one(bits);
            }
            0
        } else if exponent >= 158 {
            proof {
                whole_magnitude_out_of_range(bits);
            }
            if negative {
                i32::MIN
            } else {
                i32::MAX
            }
        } else {
            let whole: u32 = if exponent >= 150 {
                proof {
                    whole_magnitude_shifted_left(bits, m, (exponent - 150) as u32);
                }
                m << (exponent - 150)
            } else {
                proof {
                    whole_magnitude_shifted_right(bits, m, (150 - exponent) as u32);
                }
                m >> (150 - exponent)
            };
            if negative {
                -(whole as i32)
            } else {
                whole as i32
            }
        }
    }
}

} // verus!
