//! IEEE 754 binary64 numbers, read from their bit patterns.
//!
//! A pattern holds one sign bit, eleven exponent bits and fifty-two fraction
//! bits. Its value is given here as an integer count of the smallest positive
//! binary64 number, two to the power of -1074, so that every finite number has
//! an exact `int` for its value and the order of numbers is the order of
//! integers. The two infinities are ordered as plus and minus two to the power
//! of 1024, beyond every finite number. A NaN has no value that enters a
//! comparison: every comparison with it is false.

use vstd::prelude::*;
use vstd::arithmetic::power2::{
    lemma_pow2_adds, lemma_pow2_pos, lemma_pow2_strictly_increases, lemma_pow2_unfold, pow2,
};

verus! {

/// Weight of the sign bit.
pub const SIGN: u64 = 0x8000_0000_0000_0000;

/// Weight of the lowest exponent bit, which is also the weight that the hidden
/// leading bit of a normal number has beside its fraction.
pub const HIDDEN: u64 = 0x10_0000_0000_0000;

/// Pattern of positive infinity: the largest pattern that is not a NaN, once
/// the sign bit is set aside.
pub const INFINITY: u64 = 0x7FF0_0000_0000_0000;

/// Whether the sign bit is set.
pub open spec fn is_negative(bits: u64) -> bool {
    bits >= SIGN
}

/// The pattern without its sign bit.
pub open spec fn magnitude_bits(bits: u64) -> u64 {
    bits % SIGN
}

/// Whether the pattern is a NaN: all exponent bits set and a fraction other
/// than zero.
pub open spec fn is_nan(bits: u64) -> bool {
    magnitude_bits(bits) > INFINITY
}

/// The number that sixty-three magnitude bits denote, counted in units of two
/// to the power of -1074: the fraction alone while the exponent field is zero,
/// and otherwise the fraction with its hidden bit, doubled once for each step
/// of the exponent field above one.
pub open spec fn scaled(magnitude: u64) -> nat {
    let exponent = magnitude / HIDDEN;
    let fraction = magnitude % HIDDEN;
    if exponent == 0 {
        fraction as nat
    } else {
        ((HIDDEN + fraction) * pow2((exponent - 1) as nat)) as nat
    }
}

/// The value of a pattern that is not a NaN, in units of two to the power of
/// -1074.
pub open spec fn value(bits: u64) -> int {
    if is_negative(bits) {
        -(scaled(magnitude_bits(bits)) as int)
    } else {
        scaled(magnitude_bits(bits)) as int
    }
}

/// The value of the whole number `n`, in the units of [`value`].
pub open spec fn whole(n: nat) -> int {
    (n * pow2(1074)) as int
}

/// `a < b` as binary64 numbers.
pub open spec fn lt(a: u64, b: u64) -> bool {
    !is_nan(a) && !is_nan(b) && value(a) < value(b)
}

/// `a >= b` as binary64 numbers.
pub open spec fn ge(a: u64, b: u64) -> bool {
    !is_nan(a) && !is_nan(b) && value(a) >= value(b)
}

/// A larger magnitude pattern denotes a larger number.
pub proof fn lemma_scaled_increases(x: u64, y: u64)
    requires
        x < y,
    ensures
        scaled(x) < scaled(y),
{
    let ex = x / HIDDEN;
    let fx = x % HIDDEN;
    let ey = y / HIDDEN;
    let fy = y % HIDDEN;
    let h = HIDDEN as int;
    if ex == ey {
        if ex != 0 {
            let p = pow2((ex - 1) as nat) as int;
            lemma_pow2_pos((ex - 1) as nat);
            assert((h + fx) * p < (h + fy) * p) by (nonlinear_arith)
                requires
                    fx < fy,
                    p > 0,
            ;
        }
    } else {
        assert(ex < ey);
        let q = pow2((ey - 1) as nat) as int;
        lemma_pow2_pos((ey - 1) as nat);
        assert(h * q <= (h + fy) * q) by (nonlinear_arith)
            requires
                fy >= 0,
                q > 0,
        ;
        if ex == 0 {
            assert(h <= h * q) by (nonlinear_arith)
                requires
                    h > 0,
                    q >= 1,
            ;
        } else {
            let p = pow2((ex - 1) as nat) as int;
            lemma_pow2_pos((ex - 1) as nat);
            lemma_pow2_unfold(ex as nat);
            if ex < ey - 1 {
                lemma_pow2_strictly_increases(ex as nat, (ey - 1) as nat);
            }
            assert(2 * p <= q);
            assert((h + fx) * p < h * q) by (nonlinear_arith)
                requires
                    0 <= fx < h,
                    p > 0,
                    2 * p <= q,
            ;
        }
    }
}

/// Among patterns of one sign, the order of the magnitude patterns is the
/// order of the numbers; zero is the only magnitude pattern of the number
/// zero.
pub proof fn lemma_scaled_order(x: u64, y: u64)
    ensures
        x < y <==> scaled(x) < scaled(y),
        x == y <==> scaled(x) == scaled(y),
        scaled(0) == 0,
{
    if x < y {
        lemma_scaled_increases(x, y);
    }
    if y < x {
        lemma_scaled_increases(y, x);
    }
}

/// The pattern of a whole number. A positive pattern whose exponent field is
/// `1023 + k` denotes its fraction with the hidden bit, divided by two to the
/// power of `52 - k`; where `n` times that power is what the fraction and
/// the hidden bit come to, the pattern denotes `n`.
pub proof fn lemma_whole_pattern(bits: u64, n: nat, k: nat)
    requires
        k <= 52,
        bits < SIGN,
        bits / HIDDEN == 1023 + k,
        HIDDEN + bits % HIDDEN == n * pow2((52 - k) as nat),
    ensures
        !is_nan(bits),
        value(bits) == whole(n),
{
    let low = pow2((52 - k) as nat) as int;
    let high = pow2(1022 + k) as int;
    lemma_pow2_adds((52 - k) as nat, 1022 + k);
    assert(n * low * high == n * (low * high)) by (nonlinear_arith);
}

/// Whether the pattern is a NaN.
pub fn is_not_a_number(bits: u64) -> (nan: bool)
    ensures
        nan == is_nan(bits),
{
    bits % SIGN > INFINITY
}

/// Compares two patterns as the numbers they denote: `a < b`. Negative and
/// positive zero are equal, and a NaN on either side makes the answer false.
pub fn less_than(a: u64, b: u64) -> (less: bool)
    ensures
        less == lt(a, b),
{
    let ma: u64 = a % SIGN;
    let mb: u64 = b % SIGN;
    if ma > INFINITY || mb > INFINITY {
        return false;
    }
    proof {
        lemma_scaled_order(ma, mb);
        lemma_scaled_order(mb, ma);
        lemma_scaled_order(0, ma);
        lemma_scaled_order(0, mb);
    }
    if a >= SIGN {
        if b >= SIGN {
            mb < ma
        } else {
            ma != 0 || mb != 0
        }
    } else {
        if b >= SIGN {
            false
        } else {
            ma < mb
        }
    }
}

/// Compares two patterns as the numbers they denote: `a >= b`. A NaN on
/// either side makes the answer false.
pub fn at_least(a: u64, b: u64) -> (reached: bool)
    ensures
        reached == ge(a, b),
{
    if is_not_a_number(a) || is_not_a_number(b) {
        false
    } else {
        !less_than(a, b)
    }
}

} // verus!
