//! What the numbers and texts of fault injection mean.

use vstd::arithmetic::div_mod;
use vstd::arithmetic::power2;
use vstd::prelude::*;

use crate::probability;
use crate::probability::Probability;
use crate::probability::RealValue;
use crate::text;

verus! {

/// A bit pattern denotes the number that IEEE 754 gives it: with exponent field
/// `e` and fraction field `f`, `f / 2^1074` where `e` is zero and
/// `(2^52 + f) * 2^(e - 1) / 2^1074` where it is not, negated by the sign bit;
/// the greatest exponent is that of the infinities and of what is no number.
pub proof fn patterns_denote_binary64_numbers(bits: u64)
    requires
        bits < 0x8000_0000_0000_0000,
    ensures
        ({
            let e = bits as int / 0x10_0000_0000_0000;
            let f = bits as int % 0x10_0000_0000_0000;
            let negated = (bits + 0x8000_0000_0000_0000) as u64;
            &&& e == 0 ==> probability::real_value(bits) == RealValue::Finite(f)
                && probability::real_value(negated) == RealValue::Finite(-f)
            &&& 0 < e < 2047 ==> probability::real_value(bits) == RealValue::Finite(
                (0x10_0000_0000_0000 + f) * power2::pow2((e - 1) as nat),
            ) && probability::real_value(negated) == RealValue::Finite(
                -((0x10_0000_0000_0000 + f) * power2::pow2((e - 1) as nat)),
            )
            &&& e == 2047 && f == 0 ==> probability::real_value(bits)
                == RealValue::PositiveInfinity && probability::real_value(negated)
                == RealValue::NegativeInfinity
            &&& e == 2047 && f != 0 ==> probability::real_value(bits) == RealValue::NotANumber
                && probability::real_value(negated) == RealValue::NotANumber
        }),
{
    let negated = (bits + 0x8000_0000_0000_0000) as u64;
    assert(probability::exponent_field(negated) == probability::exponent_field(bits));
    assert(probability::fraction_field(negated) == probability::fraction_field(bits));
}

/// A probability stands for the number that its bit pattern denotes.
pub proof fn probabilities_are_numbers(p: Probability)
    ensures
        p@ == probability::real_value(p.bits),
        probability::real_zero() == RealValue::Finite(0),
        probability::real_one() == RealValue::Finite(power2::pow2(1074) as int),
{
}

/// Numbers compare as numbers do, the infinities lie at both ends, and what is no
/// number is neither below nor above anything.
pub proof fn comparison_is_that_of_numbers(x: int, y: int, a: RealValue)
    ensures
        probability::less_than(RealValue::Finite(x), RealValue::Finite(y)) == (x < y),
        probability::less_than(RealValue::NegativeInfinity, RealValue::Finite(x)),
        probability::less_than(RealValue::Finite(x), RealValue::PositiveInfinity),
        probability::less_than(RealValue::NegativeInfinity, RealValue::PositiveInfinity),
        !probability::less_than(a, RealValue::NegativeInfinity),
        !probability::less_than(RealValue::PositiveInfinity, a),
        !probability::less_than(a, RealValue::NotANumber),
        !probability::less_than(RealValue::NotANumber, a),
{
}

/// A random word stands for its 53 most significant bits over `2^53`: that many
/// times `2^1074` over `2^53`, in the scale of numbers.
pub proof fn words_stand_for_rolls(word: u64)
    ensures
        exists|n: int|
            probability::roll_value(word) == RealValue::Finite(n) && #[trigger] (n * power2::pow2(
                53,
            )) == (word as int / 2048) * power2::pow2(1074),
{
    let k = word as int / 2048;
    let n = k * power2::pow2(1021);
    power2::lemma_pow2_adds(1021, 53);
    vstd::arithmetic::mul::lemma_mul_is_associative(
        k,
        power2::pow2(1021) as int,
        power2::pow2(53) as int,
    );
    assert(n * power2::pow2(53) == k * power2::pow2(1074));
}

/// Clamping keeps the patterns from zero to one, negative zero, and those of no
/// number; greater ones become one, and smaller ones zero.
pub proof fn clamping_goes_by_the_pattern(p: Probability)
    ensures
        p.bits <= 0x3FF0_0000_0000_0000 ==> probability::clamped(p) == p,
        0x3FF0_0000_0000_0000 < p.bits <= 0x7FF0_0000_0000_0000 ==> probability::clamped(p) == (
        Probability { bits: 0x3FF0_0000_0000_0000 }),
        0x7FF0_0000_0000_0000 < p.bits <= 0x8000_0000_0000_0000 ==> probability::clamped(p) == p,
        0x8000_0000_0000_0000 < p.bits <= 0xFFF0_0000_0000_0000 ==> probability::clamped(p) == (
        Probability { bits: 0 }),
        0xFFF0_0000_0000_0000 < p.bits ==> probability::clamped(p) == p,
{
    probability::lemma_pattern_order(p);
}

/// The value of a text of decimal digits.
pub open spec fn digits_value(digits: Seq<char>) -> int
    decreases digits.len(),
{
    if digits.len() == 0 {
        0
    } else {
        digits_value(digits.drop_last()) * 10 + (digits.last() as int - '0' as int)
    }
}

/// The decimal notation of a number consists of digits, has the value of the
/// number and no leading zero.
pub proof fn decimals_have_their_value(n: nat)
    ensures
        text::decimal(n).len() > 0,
        forall|i: int|
            0 <= i < text::decimal(n).len() ==> '0' <= #[trigger] text::decimal(n)[i] <= '9',
        digits_value(text::decimal(n)) == n,
        n > 0 ==> text::decimal(n)[0] != '0',
        n == 0 ==> text::decimal(n).len() == 1,
    decreases n,
{
    if n < 10 {
        let s = seq![text::digit_char(n)];
        assert(s.drop_last() =~= Seq::<char>::empty());
        assert(digits_value(s.drop_last()) == 0);
    } else {
        decimals_have_their_value(n / 10);
        let s = text::decimal(n);
        assert(s.drop_last() =~= text::decimal(n / 10));
        assert(s[0] == text::decimal(n / 10)[0]);
    }
}

/// Ten to the power of `e`.
pub open spec fn power_of_ten(e: nat) -> nat
    decreases e,
{
    if e == 0 {
        1
    } else {
        10 * power_of_ten((e - 1) as nat)
    }
}

/// The last digits of a number, padded with zeros, are as many as asked for, and
/// have the value of the number modulo that power of ten.
pub proof fn padded_decimals_have_their_value(n: nat, width: nat)
    ensures
        text::padded_decimal(n, width).len() == width,
        forall|i: int|
            0 <= i < width ==> '0' <= #[trigger] text::padded_decimal(n, width)[i] <= '9',
        digits_value(text::padded_decimal(n, width)) == n % power_of_ten(width),
        power_of_ten(width) > 0,
    decreases width,
{
    if width > 0 {
        let w = (width - 1) as nat;
        padded_decimals_have_their_value(n / 10, w);
        let s = text::padded_decimal(n, width);
        assert(s.drop_last() =~= text::padded_decimal(n / 10, w));
        let p = power_of_ten(w) as int;
        div_mod::lemma_mod_breakdown(n as int, 10, p);
    }
}

/// A count of ten-thousandths is written as a decimal number with four digits
/// behind the point that has the value of the count.
pub proof fn four_digits_have_their_value(units: nat) -> (parts: (Seq<char>, Seq<char>))
    ensures
        probability::four_digits(units) == parts.0 + seq!['.'] + parts.1,
        parts.1.len() == 4,
        forall|i: int| 0 <= i < parts.0.len() ==> '0' <= #[trigger] parts.0[i] <= '9',
        forall|i: int| 0 <= i < 4 ==> '0' <= #[trigger] parts.1[i] <= '9',
        parts.0.len() > 0,
        parts.0.len() > 1 ==> parts.0[0] != '0',
        digits_value(parts.0) * 10000 + digits_value(parts.1) == units,
{
    decimals_have_their_value(units / 10000);
    padded_decimals_have_their_value(units % 10000, 4);
    reveal_with_fuel(power_of_ten, 5);
    assert(power_of_ten(4) == 10000);
    reveal_strlit(".");
    assert("."@ =~= seq!['.']);
    (text::decimal(units / 10000), text::padded_decimal(units % 10000, 4))
}

/// A fraction is rounded to the nearest count of ten-thousandths, and to the even
/// one where two are equally near.
pub proof fn rounding_is_to_the_nearest_even(num: nat, den: nat)
    requires
        den > 0,
    ensures
        ({
            let units = probability::ten_thousandths(num, den);
            let off = units * den - num * 10000;
            &&& -den <= 2 * off <= den
            &&& 2 * off == den || 2 * off == -den ==> units % 2 == 0
        }),
{
    let x = (num * 10000) as int;
    let d = den as int;
    div_mod::lemma_fundamental_div_mod(x, d);
    let q = x / d;
    assert((q + 1) * d == q * d + d) by (nonlinear_arith);
    assert(q * d == d * q) by (nonlinear_arith);
}

/// Whether the characters of `needle` stand in `haystack` one after the other
/// from position `at` on.
pub open spec fn stands_at(haystack: Seq<char>, needle: Seq<char>, at: int) -> bool {
    &&& 0 <= at <= haystack.len() - needle.len()
    &&& forall|k: int| 0 <= k < needle.len() ==> haystack[at + k] == #[trigger] needle[k]
}

/// A text occurs in another exactly if it stands there as a run of characters.
pub proof fn occurrence_is_a_run_of_characters(haystack: Seq<char>, needle: Seq<char>)
    ensures
        text::contains_text(haystack, needle) <==> exists|at: int| #[trigger]
            stands_at(haystack, needle, at),
{
    if text::contains_text(haystack, needle) {
        let at = choose|at: int| #[trigger] text::occurs_at(haystack, needle, at);
        assert forall|k: int| 0 <= k < needle.len() implies haystack[at + k] == #[trigger] needle[
        k] by {
            assert(haystack.subrange(at, at + needle.len())[k] == needle[k]);
        }
        assert(stands_at(haystack, needle, at));
    }
    if exists|at: int| #[trigger] stands_at(haystack, needle, at) {
        let at = choose|at: int| #[trigger] stands_at(haystack, needle, at);
        assert(haystack.subrange(at, at + needle.len()) =~= needle);
        assert(text::occurs_at(haystack, needle, at));
    }
}

} // verus!
