//! Binary-coded-decimal arithmetic: single bits of a number's decimal digits,
//! the weights those bits carry, and the parity of a two-digit field.

use vstd::arithmetic::div_mod::{
    lemma_breakdown, lemma_div_denominator, lemma_fundamental_div_mod, lemma_multiply_divide_lt,
    lemma_small_mod,
};
use vstd::arithmetic::mul::{
    lemma_mul_is_associative, lemma_mul_is_commutative, lemma_mul_is_distributive_add,
};
use vstd::pervasive::runtime_assert;
use vstd::prelude::*;

verus! {

/// Ten to the power `k`.
pub open spec fn pow10(k: nat) -> nat
    decreases k,
{
    if k == 0 {
        1
    } else {
        10 * pow10((k - 1) as nat)
    }
}

/// The decimal digit of `n` at position `pos`, position 0 being the ones digit.
pub open spec fn decimal_digit(n: nat, pos: nat) -> nat
    decreases pos,
{
    if pos == 0 {
        n % 10
    } else {
        decimal_digit(n / 10, (pos - 1) as nat)
    }
}

/// The weight of bit `b` inside one decimal digit: 1, 2, 4, 8.
pub open spec fn bit_weight(b: nat) -> nat {
    if b == 0 {
        1
    } else if b == 1 {
        2
    } else if b == 2 {
        4
    } else {
        8
    }
}

/// Bit `b` (0 to 3) of the digit `d`, as 0 or 1: the digit divided by the
/// bit's weight is odd.
pub open spec fn digit_bit(d: nat, b: nat) -> nat {
    if b == 0 {
        d % 2
    } else if b == 1 {
        (d / 2) % 2
    } else if b == 2 {
        (d / 4) % 2
    } else {
        (d / 8) % 2
    }
}

/// Bit `i` of `n` written in binary-coded decimal: digit `i / 4`, bit `i % 4`.
pub open spec fn bcd_spec(n: nat, i: nat) -> nat {
    digit_bit(decimal_digit(n, i / 4), i % 4)
}

/// The value that bit `i` of a binary-coded-decimal number stands for:
/// 1, 2, 4, 8, 10, 20, 40, 80, 100, 200, ...
pub open spec fn bcd_weight(i: nat) -> nat {
    bit_weight(i % 4) * pow10(i / 4)
}

/// The sum of the first `count` bits of `n`, unweighted.
pub open spec fn bcd_bit_count(n: nat, count: nat) -> nat
    decreases count,
{
    if count == 0 {
        0
    } else {
        bcd_bit_count(n, (count - 1) as nat) + bcd_spec(n, (count - 1) as nat)
    }
}

/// The number that the first `count` bits of `n` spell out, each bit taken
/// with its weight.
pub open spec fn bcd_value(n: nat, count: nat) -> nat
    decreases count,
{
    if count == 0 {
        0
    } else {
        bcd_value(n, (count - 1) as nat) + bcd_weight((count - 1) as nat) * bcd_spec(
            n,
            (count - 1) as nat,
        )
    }
}

/// Parity over the eight bits of a two-digit field.
pub open spec fn parity_spec(n: nat) -> nat {
    bcd_bit_count(n, 8) % 2
}

/// Returns bit `i` of `n` in binary-coded decimal: 1 if the bit of weight
/// `2^(i % 4)` is set in the decimal digit at position `i / 4`, else 0.
pub fn bcd(n: u32, i: u8) -> (r: u8)
    ensures
        r == bcd_spec(n as nat, i as nat),
        r == 0 || r == 1,
{
    let k: u8 = i >> 2;
    let b: u8 = i & 3;
    assert(k == i / 4 && b == i % 4) by (bit_vector)
        requires
            k == i >> 2,
            b == i & 3,
    ;
    let mut rest: u32 = n;
    let mut pos: u8 = 0;
    while pos < k
        invariant
            pos <= k,
            decimal_digit(rest as nat, (k - pos) as nat) == decimal_digit(n as nat, k as nat),
        decreases k - pos,
    {
        rest = rest / 10;
        pos = pos + 1;
    }
    let d: u8 = (rest % 10) as u8;
    let mask: u8 = 1u8 << b;
    assert(mask == bit_weight(b as nat)) by {
        assert((b == 0 && mask == 1) || (b == 1 && mask == 2) || (b == 2 && mask == 4) || (b == 3
            && mask == 8)) by (bit_vector)
            requires
                b < 4,
                mask == 1u8 << b,
        ;
    }
    assert((d & mask == 0) <==> (d / mask) % 2 == 0) by (bit_vector)
        requires
            mask == 1 || mask == 2 || mask == 4 || mask == 8,
    ;
    if d & mask == 0 {
        0
    } else {
        1
    }
}

/// Returns the parity of the two-digit field `n`: the sum of its eight
/// binary-coded-decimal bits, modulo 2. A number of three digits or more is a
/// defect of the caller, and stops the program.
pub fn parity(n: u32) -> (r: u8)
    requires
        n < 100,
    ensures
        r == parity_spec(n as nat),
        r == 0 || r == 1,
{
    runtime_assert(n < 100);
    let mut sum: u8 = 0;
    let mut i: u8 = 0;
    while i < 8
        invariant
            i <= 8,
            sum <= i,
            sum == bcd_bit_count(n as nat, i as nat),
        decreases 8 - i,
    {
        let bit: u8 = bcd(n, i);
        sum = sum + bit;
        i = i + 1;
    }
    sum % 2
}

/// Every power of ten is positive.
pub proof fn lemma_pow10_positive(k: nat)
    ensures
        pow10(k) > 0,
    decreases k,
{
    if k > 0 {
        lemma_pow10_positive((k - 1) as nat);
    }
}

/// The digit at position `pos` is what is left of `n` after dividing by
/// `10^pos`, modulo 10.
pub proof fn lemma_decimal_digit_by_division(n: nat, pos: nat)
    ensures
        pow10(pos) > 0,
        decimal_digit(n, pos) == (n / pow10(pos)) % 10,
    decreases pos,
{
    lemma_pow10_positive(pos);
    if pos == 0 {
        assert(pow10(0) == 1);
    } else {
        let below = (pos - 1) as nat;
        lemma_pow10_positive(below);
        lemma_decimal_digit_by_division(n / 10, below);
        lemma_div_denominator(n as int, 10, pow10(below) as int);
        assert(pow10(pos) == 10 * pow10(below));
    }
}

/// Every bit of a binary-coded-decimal number is 0 or 1.
pub proof fn lemma_bcd_is_bit(n: nat, i: nat)
    ensures
        bcd_spec(n, i) == 0 || bcd_spec(n, i) == 1,
{
}

/// The parity bit makes the number of ones even: a field's eight bits and
/// its parity together hold an even number of ones.
pub proof fn lemma_parity_makes_even(n: nat)
    ensures
        parity_spec(n) == 0 || parity_spec(n) == 1,
        (bcd_bit_count(n, 8) + parity_spec(n)) % 2 == 0,
{
}

/// The low `r` bits of the digit `d`, each taken with its weight.
spec fn digit_low_bits(d: nat, r: nat) -> nat
    decreases r,
{
    if r == 0 {
        0
    } else {
        digit_low_bits(d, (r - 1) as nat) + bit_weight((r - 1) as nat) * digit_bit(
            d,
            (r - 1) as nat,
        )
    }
}

/// A digit below the weight of bit `r` is spelled out by its low `r` bits,
/// and any decimal digit by all four.
proof fn lemma_digit_low_bits(d: nat, r: nat)
    requires
        r <= 4,
        d < 10,
        r < 4 ==> d < bit_weight(r),
    ensures
        digit_low_bits(d, r) == d,
{
    reveal_with_fuel(digit_low_bits, 5);
    assert(bit_weight(0) * digit_bit(d, 0) == d % 2);
    assert(bit_weight(1) * digit_bit(d, 1) == 2 * (d / 2 % 2));
    assert(bit_weight(2) * digit_bit(d, 2) == 4 * (d / 4 % 2));
    assert(bit_weight(3) * digit_bit(d, 3) == 8 * (d / 8 % 2));
}

/// The bits of one decimal digit add that digit's low bits, scaled by the
/// digit's place, to the value of the bits below.
proof fn lemma_bcd_value_in_digit(n: nat, k: nat, r: nat)
    requires
        r <= 4,
    ensures
        bcd_value(n, 4 * k + r) == bcd_value(n, 4 * k) + pow10(k) * digit_low_bits(
            decimal_digit(n, k),
            r,
        ),
    decreases r,
{
    let d = decimal_digit(n, k);
    if r == 0 {
        assert(digit_low_bits(d, 0) == 0);
        assert(pow10(k) * 0 == 0);
    } else {
        let i = (4 * k + r - 1) as nat;
        lemma_bcd_value_in_digit(n, k, (r - 1) as nat);
        assert(i / 4 == k && i % 4 == r - 1);
        assert(bcd_weight(i) * bcd_spec(n, i) == pow10(k) * (bit_weight((r - 1) as nat)
            * digit_bit(d, (r - 1) as nat))) by {
            lemma_mul_is_commutative(bit_weight((r - 1) as nat) as int, pow10(k) as int);
            lemma_mul_is_associative(
                pow10(k) as int,
                bit_weight((r - 1) as nat) as int,
                digit_bit(d, (r - 1) as nat) as int,
            );
        }
        lemma_mul_is_distributive_add(
            pow10(k) as int,
            digit_low_bits(d, (r - 1) as nat) as int,
            (bit_weight((r - 1) as nat) * digit_bit(d, (r - 1) as nat)) as int,
        );
    }
}

/// The bits of the `k` lowest decimal digits spell out `n` modulo `10^k`.
proof fn lemma_bcd_value_whole_digits(n: nat, k: nat)
    ensures
        bcd_value(n, 4 * k) == n % pow10(k),
    decreases k,
{
    if k == 0 {
        assert(pow10(0) == 1);
    } else {
        let j = (k - 1) as nat;
        lemma_bcd_value_whole_digits(n, j);
        lemma_bcd_value_in_digit(n, j, 4);
        lemma_decimal_digit_by_division(n, j);
        lemma_digit_low_bits(decimal_digit(n, j), 4);
        lemma_breakdown(n as int, pow10(j) as int, 10);
        lemma_mul_is_commutative(pow10(j) as int, 10);
    }
}

/// A number below the weight of bit `count` is recovered from its first
/// `count` binary-coded-decimal bits: six bits carry an hour, seven a minute,
/// ten a day of the year up to 399, eight a two-digit year, three a weekday.
pub proof fn lemma_bcd_value_recovers(n: nat, count: nat)
    requires
        n < bcd_weight(count),
    ensures
        bcd_value(n, count) == n,
{
    let k = count / 4;
    let r = count % 4;
    let q = n / pow10(k);
    lemma_decimal_digit_by_division(n, k);
    lemma_bcd_value_in_digit(n, k, r);
    lemma_bcd_value_whole_digits(n, k);
    assert(q < bit_weight(r)) by {
        lemma_mul_is_commutative(bit_weight(r) as int, pow10(k) as int);
        lemma_multiply_divide_lt(n as int, pow10(k) as int, bit_weight(r) as int);
    }
    assert(bit_weight(r) <= 8);
    lemma_small_mod(q, 10);
    lemma_digit_low_bits(q, r);
    lemma_fundamental_div_mod(n as int, pow10(k) as int);
}

} // verus!
