//! Probabilities as IEEE 754 binary64 bit patterns.
//!
//! A [`Probability`] is the bit pattern of a binary64 number. Its model is the
//! exact number that the pattern denotes, so every comparison below is a
//! comparison of numbers and none of them rounds.

use vstd::arithmetic::div_mod;
use vstd::arithmetic::mul;
use vstd::arithmetic::power2;
use vstd::bits;
use vstd::prelude::*;

use crate::text;

verus! {

/// Bit pattern of `1.0`.
pub const ONE_BITS: u64 = 0x3FF0_0000_0000_0000;

/// Bit pattern of positive infinity.
pub const INFINITY_BITS: u64 = 0x7FF0_0000_0000_0000;

/// Bit pattern of negative zero: the sign bit alone.
pub const SIGN_BITS: u64 = 0x8000_0000_0000_0000;

/// Two to the power of the number of fraction bits.
pub const HIDDEN_BIT: u64 = 0x0010_0000_0000_0000;

/// Power of two by which a finite number is scaled in [`RealValue::Finite`].
pub const SCALE: u64 = 1074;

/// What a binary64 bit pattern denotes.
pub enum RealValue {
    /// Not a number.
    NotANumber,
    /// Negative infinity.
    NegativeInfinity,
    /// Positive infinity.
    PositiveInfinity,
    /// The number `n / 2^1074`.
    Finite(int),
}

/// The number zero.
pub open spec fn real_zero() -> RealValue {
    RealValue::Finite(0)
}

/// The number one.
pub open spec fn real_one() -> RealValue {
    RealValue::Finite(power2::pow2(SCALE as nat) as int)
}

/// Whether `a < b`: false as soon as one of them is not a number.
pub open spec fn less_than(a: RealValue, b: RealValue) -> bool {
    match (a, b) {
        (RealValue::NotANumber, _) => false,
        (_, RealValue::NotANumber) => false,
        (RealValue::NegativeInfinity, _) => b != RealValue::NegativeInfinity,
        (_, RealValue::NegativeInfinity) => false,
        (RealValue::PositiveInfinity, _) => false,
        (_, RealValue::PositiveInfinity) => true,
        (RealValue::Finite(x), RealValue::Finite(y)) => x < y,
    }
}

/// The biased exponent field of a bit pattern.
pub open spec fn exponent_field(bits: u64) -> nat {
    ((bits / HIDDEN_BIT) % 2048) as nat
}

/// The fraction field of a bit pattern.
pub open spec fn fraction_field(bits: u64) -> nat {
    (bits % HIDDEN_BIT) as nat
}

/// The absolute value of a finite pattern, times `2^1074`.
pub open spec fn magnitude(bits: u64) -> nat {
    if exponent_field(bits) == 0 {
        fraction_field(bits)
    } else {
        (HIDDEN_BIT as nat + fraction_field(bits)) * power2::pow2(
            (exponent_field(bits) - 1) as nat,
        )
    }
}

/// What a bit pattern denotes.
pub open spec fn real_value(bits: u64) -> RealValue {
    if exponent_field(bits) == 2047 {
        if fraction_field(bits) != 0 {
            RealValue::NotANumber
        } else if bits >= SIGN_BITS {
            RealValue::NegativeInfinity
        } else {
            RealValue::PositiveInfinity
        }
    } else if bits >= SIGN_BITS {
        RealValue::Finite(-(magnitude(bits) as int))
    } else {
        RealValue::Finite(magnitude(bits) as int)
    }
}

/// The number in `[0, 1)` that a random word stands for: its 53 most
/// significant bits, divided by `2^53`.
pub open spec fn roll_value(word: u64) -> RealValue {
    RealValue::Finite(
        (word / 2048) * power2::pow2((SCALE - 53) as nat),
    )
}

/// `num / den` in units of one ten-thousandth, rounded to the nearest integer,
/// and to the even one of the two where both are equally near.
pub open spec fn ten_thousandths(num: nat, den: nat) -> nat {
    let quotient = (num * 10000) / den;
    let remainder = (num * 10000) % den;
    if 2 * remainder > den || (2 * remainder == den && quotient % 2 == 1) {
        quotient + 1
    } else {
        quotient
    }
}

/// A count of ten-thousandths in decimal notation with four fractional digits.
pub open spec fn four_digits(units: nat) -> Seq<char> {
    text::decimal(units / 10000) + "."@ + text::padded_decimal(units % 10000, 4)
}

/// A probability: the bit pattern of an IEEE 754 binary64 number.
///
/// Equality is equality of the bit patterns.
#[derive(Debug, Clone, Copy, PartialEq, Eq, Structural)]
pub struct Probability {
    /// The bit pattern.
    pub bits: u64,
}

impl View for Probability {
    type V = RealValue;

    open spec fn view(&self) -> RealValue {
        real_value(self.bits)
    }
}

/// A number above zero and at most one.
pub open spec fn proper_chance(p: Probability) -> bool {
    less_than(real_zero(), p@) && !less_than(real_one(), p@)
}

/// What is left of a number when it is clamped to the interval from zero to one.
pub open spec fn clamped(p: Probability) -> Probability {
    if less_than(p@, real_zero()) {
        Probability { bits: 0 }
    } else if less_than(real_one(), p@) {
        Probability { bits: ONE_BITS }
    } else {
        p
    }
}

/// A pattern below that of infinity splits into its two fields.
proof fn lemma_fields(bits: u64)
    requires
        bits < INFINITY_BITS,
    ensures
        exponent_field(bits) == bits / HIDDEN_BIT,
        exponent_field(bits) < 2047,
        fraction_field(bits) < HIDDEN_BIT,
        bits == exponent_field(bits) * HIDDEN_BIT + fraction_field(bits),
{
}

/// Bounds on a magnitude by the exponent field.
proof fn lemma_magnitude_bounds(bits: u64)
    requires
        bits < INFINITY_BITS,
    ensures
        magnitude(bits) < HIDDEN_BIT * power2::pow2(exponent_field(bits)),
        exponent_field(bits) > 0 ==> HIDDEN_BIT * power2::pow2((exponent_field(bits) - 1) as nat)
            <= magnitude(bits),
{
    lemma_fields(bits);
    let e = exponent_field(bits);
    let f = fraction_field(bits);
    let h = HIDDEN_BIT as int;
    if e == 0 {
        power2::lemma2_to64();
    } else {
        let p = power2::pow2((e - 1) as nat) as int;
        power2::lemma_pow2_pos((e - 1) as nat);
        power2::lemma_pow2_unfold(e);
        assert((h + f) * p < h * (2 * p)) by (nonlinear_arith)
            requires
                f < h,
                p > 0,
        ;
        assert(h * p <= (h + f) * p) by (nonlinear_arith)
            requires
                f >= 0,
                p > 0,
        ;
    }
}

/// A non-negative finite pattern orders as the number that it denotes.
pub proof fn lemma_magnitude_increases(a: u64, b: u64)
    requires
        a < b < INFINITY_BITS,
    ensures
        magnitude(a) < magnitude(b),
{
    lemma_fields(a);
    lemma_fields(b);
    let ea = exponent_field(a);
    let eb = exponent_field(b);
    let fa = fraction_field(a);
    let fb = fraction_field(b);
    let h = HIDDEN_BIT as int;
    if ea == eb {
        assert(fa < fb);
        if ea > 0 {
            let p = power2::pow2((ea - 1) as nat) as int;
            power2::lemma_pow2_pos((ea - 1) as nat);
            assert((h + fa) * p < (h + fb) * p) by (nonlinear_arith)
                requires
                    fa < fb,
                    p > 0,
            ;
        }
    } else {
        assert(ea < eb);
        lemma_magnitude_bounds(a);
        lemma_magnitude_bounds(b);
        if ea < eb - 1 {
            power2::lemma_pow2_strictly_increases(ea, (eb - 1) as nat);
        }
        let pa = power2::pow2(ea) as int;
        let pb = power2::pow2((eb - 1) as nat) as int;
        assert(h * pa <= h * pb) by (nonlinear_arith)
            requires
                pa <= pb,
                h > 0,
        ;
    }
}

/// The pattern of `1.0` denotes one, and that of `0.0` zero.
pub proof fn lemma_zero_and_one()
    ensures
        real_value(0) == real_zero(),
        real_value(ONE_BITS) == real_one(),
        magnitude(ONE_BITS) == power2::pow2(SCALE as nat),
{
    assert(exponent_field(ONE_BITS) == 1023);
    assert(fraction_field(ONE_BITS) == 0);
    power2::lemma2_to64_rest();
    power2::lemma_pow2_adds(52, 1022);
}

/// A pattern without the sign bit is that of a number exactly if it is at most
/// that of infinity.
proof fn lemma_unsigned(bits: u64)
    requires
        bits < SIGN_BITS,
    ensures
        bits < INFINITY_BITS ==> real_value(bits) == RealValue::Finite(magnitude(bits) as int),
        bits == INFINITY_BITS ==> real_value(bits) == RealValue::PositiveInfinity,
        bits > INFINITY_BITS ==> real_value(bits) == RealValue::NotANumber,
{
}

/// A pattern with the sign bit denotes the negated number of the same pattern
/// without it.
proof fn lemma_signed(bits: u64)
    requires
        bits >= SIGN_BITS,
    ensures
        ({
            let rest = (bits - SIGN_BITS) as u64;
            &&& rest < INFINITY_BITS ==> real_value(bits) == RealValue::Finite(
                -(magnitude(rest) as int),
            )
            &&& rest == INFINITY_BITS ==> real_value(bits) == RealValue::NegativeInfinity
            &&& rest > INFINITY_BITS ==> real_value(bits) == RealValue::NotANumber
        }),
{
    let rest = (bits - SIGN_BITS) as u64;
    assert(exponent_field(rest) == exponent_field(bits));
    assert(fraction_field(rest) == fraction_field(bits));
}

/// Only the pattern of zero has no magnitude.
proof fn lemma_magnitude_positive(bits: u64)
    requires
        bits < INFINITY_BITS,
    ensures
        (magnitude(bits) > 0) == (bits > 0),
{
    if bits > 0 {
        lemma_magnitude_increases(0, bits);
    }
}

/// Comparing `k / 2^53` with a normal number of at most one needs only the
/// significand, once both sides are divided by the larger power of two.
proof fn lemma_roll_below_normal(k: nat, significand: nat, e: nat)
    requires
        1 <= e <= 1022,
    ensures
        (k * power2::pow2(1021) < significand * power2::pow2((e - 1) as nat)) == (k * power2::pow2(
            (1022 - e) as nat,
        ) < significand),
{
    let p = power2::pow2((e - 1) as nat) as int;
    let q = power2::pow2((1022 - e) as nat) as int;
    power2::lemma_pow2_pos((e - 1) as nat);
    power2::lemma_pow2_adds((1022 - e) as nat, (e - 1) as nat);
    assert(power2::pow2(1021) == q * p);
    mul::lemma_mul_is_associative(k as int, q, p);
    if k * q < significand {
        mul::lemma_mul_strict_inequality(k * q, significand as int, p);
    } else {
        mul::lemma_mul_inequality(significand as int, k * q, p);
    }
}

/// `2^53` in numbers, and as a bound on `k * 2^s` for large `s`.
proof fn lemma_large_shift(k: nat, s: nat)
    requires
        k >= 1,
        s >= 53,
    ensures
        k * power2::pow2(s) >= 2 * HIDDEN_BIT,
{
    power2::lemma2_to64_rest();
    if s > 53 {
        power2::lemma_pow2_strictly_increases(53, s);
    }
    mul::lemma_mul_inequality(1, k as int, power2::pow2(s) as int);
}

/// Multiplying numerator and denominator by the same factor changes nothing.
proof fn lemma_ten_thousandths_scaled(num: nat, den: nat, factor: nat)
    requires
        den > 0,
        factor > 0,
    ensures
        ten_thousandths(num * factor, den * factor) == ten_thousandths(num, den),
{
    let x = (num * 10000) as int;
    let d = den as int;
    let c = factor as int;
    let q = x / d;
    let r = x % d;
    div_mod::lemma_fundamental_div_mod(x, d);
    assert(d * c > 0) by (nonlinear_arith)
        requires
            d > 0,
            c > 0,
    ;
    assert((num * factor) * 10000 == x * c) by (nonlinear_arith)
        requires
            x == num * 10000,
            c == factor,
    ;
    assert(x * c == q * (d * c) + r * c) by (nonlinear_arith)
        requires
            x == d * q + r,
    ;
    assert(0 <= r * c < d * c) by (nonlinear_arith)
        requires
            0 <= r < d,
            c > 0,
    ;
    div_mod::lemma_fundamental_div_mod_converse(x * c, d * c, q, r * c);
    assert((2 * r > d) == (2 * (r * c) > d * c)) by (nonlinear_arith)
        requires
            c > 0,
    ;
    assert((2 * r == d) == (2 * (r * c) == d * c)) by (nonlinear_arith)
        requires
            c > 0,
    ;
}

/// Two to the power of `e`.
fn power_of_two(e: u64) -> (p: u128)
    requires
        e < 128,
    ensures
        p == power2::pow2(e as nat),
{
    let mut p: u128 = 1;
    let mut i: u64 = 0;
    proof {
        power2::lemma2_to64();
    }
    while i < e
        invariant
            i <= e < 128,
            p == power2::pow2(i as nat),
        decreases e - i,
    {
        proof {
            power2::lemma_pow2_unfold((i + 1) as nat);
            lemma_fits(i as nat);
        }
        p = p * 2;
        i += 1;
    }
    p
}

/// A power of two below `2^127` can be doubled within 128 bits.
proof fn lemma_fits(e: nat)
    requires
        e < 127,
    ensures
        power2::pow2(e) * 2 <= u128::MAX,
{
    power2::lemma2_to64_rest();
    power2::lemma_pow2_adds(63, 63);
    if e < 126 {
        power2::lemma_pow2_strictly_increases(e, 126);
    }
}

/// `num / 2^e` in ten-thousandths, rounded half to even.
fn round_to_ten_thousandths(num: u64, e: u64) -> (units: u64)
    requires
        num <= 2 * HIDDEN_BIT,
        52 <= e,
    ensures
        units == ten_thousandths(num as nat, power2::pow2(e as nat)),
        units <= 20000,
{
    proof {
        power2::lemma2_to64_rest();
        power2::lemma_pow2_pos(e as nat);
    }
    if e >= 100 {
        proof {
            power2::lemma_pow2_adds(36, 64);
            if e > 100 {
                power2::lemma_pow2_strictly_increases(100, e as nat);
            }
            let x = (num * 10000) as nat;
            let d = power2::pow2(e as nat);
            assert(2 * x < d);
            div_mod::lemma_fundamental_div_mod_converse(x as int, d as int, 0, x as int);
        }
        return 0;
    }
    let den: u128 = power_of_two(e);
    let scaled: u128 = num as u128 * 10000;
    let quotient: u128 = scaled / den;
    let remainder: u128 = scaled % den;
    proof {
        if e > 52 {
            power2::lemma_pow2_strictly_increases(52, e as nat);
        }
        if e < 100 {
            power2::lemma_pow2_strictly_increases(e as nat, 100);
        }
        power2::lemma_pow2_adds(36, 64);
        div_mod::lemma_div_is_ordered_by_denominator(
            scaled as int,
            HIDDEN_BIT as int,
            den as int,
        );
        div_mod::lemma_div_is_ordered(scaled as int, 20000 * HIDDEN_BIT, HIDDEN_BIT as int);
        if quotient == 20000 {
            lemma_exact_quotient(scaled as int, den as int);
        }
    }
    if 2 * remainder > den || (2 * remainder == den && quotient % 2 == 1) {
        quotient as u64 + 1
    } else {
        quotient as u64
    }
}

/// A quotient of twenty thousand is reached only without a remainder.
proof fn lemma_exact_quotient(x: int, d: int)
    requires
        d >= HIDDEN_BIT,
        0 <= x <= 20000 * HIDDEN_BIT,
        x / d == 20000,
    ensures
        x % d == 0,
{
    div_mod::lemma_fundamental_div_mod(x, d);
    assert(d * 20000 >= 20000 * HIDDEN_BIT);
}

/// The pattern of a number above zero and at most one lies between theirs.
pub proof fn lemma_proper_chance(p: Probability)
    ensures
        proper_chance(p) == (0 < p.bits <= ONE_BITS),
{
    lemma_zero_and_one();
    if p.bits >= SIGN_BITS {
        lemma_signed(p.bits);
    } else {
        lemma_unsigned(p.bits);
        if p.bits < INFINITY_BITS {
            lemma_magnitude_positive(p.bits);
        }
        if p.bits < ONE_BITS {
            lemma_magnitude_increases(p.bits, ONE_BITS);
        } else if ONE_BITS < p.bits < INFINITY_BITS {
            lemma_magnitude_increases(ONE_BITS, p.bits);
        }
    }
}

/// What is left above zero by clamping is a proper chance.
pub proof fn lemma_clamped(p: Probability)
    ensures
        less_than(real_zero(), clamped(p)@) ==> proper_chance(clamped(p)),
        less_than(real_zero(), clamped(p)@) == less_than(real_zero(), p@),
{
    lemma_zero_and_one();
    power2::lemma_pow2_pos(SCALE as nat);
}

/// Where the number of a pattern lies, told by the pattern.
pub proof fn lemma_pattern_order(p: Probability)
    ensures
        less_than(real_zero(), p@) == (0 < p.bits <= INFINITY_BITS),
        less_than(real_one(), p@) == (ONE_BITS < p.bits <= INFINITY_BITS),
        less_than(p@, real_zero()) == (SIGN_BITS < p.bits <= SIGN_BITS + INFINITY_BITS),
{
    lemma_zero_and_one();
    power2::lemma_pow2_pos(SCALE as nat);
    if p.bits >= SIGN_BITS {
        lemma_signed(p.bits);
        let rest = (p.bits - SIGN_BITS) as u64;
        if rest < INFINITY_BITS {
            lemma_magnitude_positive(rest);
        }
    } else {
        lemma_unsigned(p.bits);
        if p.bits < INFINITY_BITS {
            lemma_magnitude_positive(p.bits);
        }
        if p.bits < ONE_BITS {
            lemma_magnitude_increases(p.bits, ONE_BITS);
        } else if ONE_BITS < p.bits < INFINITY_BITS {
            lemma_magnitude_increases(ONE_BITS, p.bits);
        }
    }
}

/// Every random word stands for a number below one.
pub proof fn lemma_roll_below_one(word: u64)
    ensures
        less_than(roll_value(word), real_one()),
{
    power2::lemma2_to64_rest();
    power2::lemma_pow2_adds(53, 1021);
    power2::lemma_pow2_pos(1021);
    mul::lemma_mul_strict_inequality(
        (word / 2048) as int,
        power2::pow2(53) as int,
        power2::pow2(1021) as int,
    );
}

/// No random word stands for a number below zero.
pub proof fn lemma_roll_never_below_zero(word: u64)
    ensures
        !less_than(roll_value(word), real_zero()),
        !less_than(roll_value(word), real_value(0)),
{
    lemma_zero_and_one();
    power2::lemma_pow2_pos(1021);
    mul::lemma_mul_nonnegative((word / 2048) as int, power2::pow2(1021) as int);
}

impl Probability {
    /// The probability with the given bit pattern.
    pub fn from_bits(bits: u64) -> (p: Probability)
        ensures
            p.bits == bits,
    {
        Probability { bits }
    }

    /// The bit pattern.
    pub fn to_bits(self) -> (bits: u64)
        ensures
            bits == self.bits,
    {
        self.bits
    }

    /// Probability zero.
    pub fn zero() -> (p: Probability)
        ensures
            p.bits == 0,
            p@ == real_zero(),
    {
        proof {
            lemma_zero_and_one();
        }
        Probability { bits: 0 }
    }

    /// Whether the number is above zero.
    pub fn is_positive(self) -> (positive: bool)
        ensures
            positive == less_than(real_zero(), self@),
    {
        proof {
            if self.bits >= SIGN_BITS {
                lemma_signed(self.bits);
            } else {
                lemma_unsigned(self.bits);
                if self.bits < INFINITY_BITS {
                    lemma_magnitude_positive(self.bits);
                }
            }
        }
        0 < self.bits && self.bits <= INFINITY_BITS
    }

    /// Clamps the number to the interval from zero to one; what is not a number
    /// stays as it is.
    pub fn clamp_to_unit(self) -> (p: Probability)
        ensures
            p == clamped(self),
            less_than(real_zero(), p@) ==> proper_chance(p),
    {
        proof {
            lemma_zero_and_one();
            if self.bits >= SIGN_BITS {
                lemma_signed(self.bits);
                let rest = (self.bits - SIGN_BITS) as u64;
                if rest < INFINITY_BITS {
                    lemma_magnitude_positive(rest);
                }
            } else {
                lemma_unsigned(self.bits);
                if self.bits < ONE_BITS {
                    lemma_magnitude_increases(self.bits, ONE_BITS);
                } else if ONE_BITS < self.bits < INFINITY_BITS {
                    lemma_magnitude_increases(ONE_BITS, self.bits);
                }
            }
        }
        if SIGN_BITS < self.bits && self.bits <= SIGN_BITS + INFINITY_BITS {
            Probability { bits: 0 }
        } else if ONE_BITS < self.bits && self.bits <= INFINITY_BITS {
            Probability { bits: ONE_BITS }
        } else {
            self
        }
    }

    /// Whether the number that the random word stands for is below this one.
    pub fn exceeds_roll(self, word: u64) -> (below: bool)
        ensures
            below == less_than(roll_value(word), self@),
    {
        let k: u64 = word / 2048;
        proof {
            power2::lemma_pow2_pos(1021);
            mul::lemma_mul_nonnegative(k as int, power2::pow2(1021) as int);
        }
        if self.bits >= SIGN_BITS {
            proof {
                lemma_signed(self.bits);
            }
            return false;
        }
        proof {
            lemma_unsigned(self.bits);
        }
        if self.bits >= INFINITY_BITS {
            return self.bits == INFINITY_BITS;
        }
        let e: u64 = self.bits / HIDDEN_BIT;
        let f: u64 = self.bits % HIDDEN_BIT;
        proof {
            lemma_fields(self.bits);
        }
        if e == 0 {
            proof {
                power2::lemma2_to64_rest();
                power2::lemma_pow2_strictly_increases(52, 1021);
                if k > 0 {
                    mul::lemma_mul_inequality(1, k as int, power2::pow2(1021) as int);
                }
            }
            k == 0 && f > 0
        } else if e >= 1023 {
            proof {
                power2::lemma2_to64_rest();
                lemma_zero_and_one();
                if self.bits > ONE_BITS {
                    lemma_magnitude_increases(ONE_BITS, self.bits);
                }
                power2::lemma_pow2_adds(53, 1021);
                assert(k < power2::pow2(53));
                mul::lemma_mul_strict_inequality(
                    k as int,
                    power2::pow2(53) as int,
                    power2::pow2(1021) as int,
                );
            }
            true
        } else {
            let significand: u64 = HIDDEN_BIT + f;
            let s: u64 = 1022 - e;
            proof {
                lemma_roll_below_normal(k as nat, significand as nat, e as nat);
            }
            if s >= 53 {
                proof {
                    if k > 0 {
                        lemma_large_shift(k as nat, s as nat);
                    }
                }
                k == 0
            } else {
                proof {
                    bits::lemma_u64_mul_pow2_le_max_iff_max_shr(k, s, (significand - 1) as u64);
                }
                k <= (significand - 1) >> s
            }
        }
    }

    /// Appends the number with four fractional digits, rounded half to even.
    pub fn push_four_digits(self, out: &mut String)
        requires
            self.bits <= ONE_BITS,
        ensures
            final(out)@ == old(out)@ + four_digits(
                ten_thousandths(magnitude(self.bits), power2::pow2(SCALE as nat)),
            ),
    {
        let e: u64 = self.bits / HIDDEN_BIT;
        let f: u64 = self.bits % HIDDEN_BIT;
        proof {
            lemma_fields(self.bits);
        }
        let units: u64 = if e == 0 {
            round_to_ten_thousandths(f, SCALE)
        } else {
            proof {
                power2::lemma_pow2_pos((e - 1) as nat);
                power2::lemma_pow2_pos((1075 - e) as nat);
                power2::lemma_pow2_adds((1075 - e) as nat, (e - 1) as nat);
                lemma_ten_thousandths_scaled(
                    (HIDDEN_BIT + f) as nat,
                    power2::pow2((1075 - e) as nat),
                    power2::pow2((e - 1) as nat),
                );
            }
            round_to_ten_thousandths(HIDDEN_BIT + f, 1075 - e)
        };
        push_units(out, units);
    }
}

/// Appends a count of ten-thousandths in decimal notation.
fn push_units(out: &mut String, units: u64)
    ensures
        final(out)@ == old(out)@ + four_digits(units as nat),
{
    text::push_decimal(out, units / 10000);
    out.append(".");
    text::push_padded_decimal(out, units % 10000, 4);
    assert(out@ =~= old(out)@ + four_digits(units as nat));
}

/// Appends the number that a random word stands for with four fractional
/// digits, rounded half to even.
pub fn push_roll(out: &mut String, word: u64)
    ensures
        final(out)@ == old(out)@ + four_digits(
            ten_thousandths((word / 2048) as nat, power2::pow2(53)),
        ),
{
    push_units(out, round_to_ten_thousandths(word / 2048, 53));
}

} // verus!
