//! The frame rate label: its colour and its text.
//!
//! The colour runs from red over yellow to green as the rate rises: red below
//! 30 frames per second, green from 120 on, and between them two straight
//! ramps that meet in yellow at 60. A label without a reading is white.

use vstd::prelude::*;
use vstd::arithmetic::div_mod::lemma_div_by_multiple;
use vstd::arithmetic::power2::{
    lemma2_to64_rest, lemma_pow2_adds, lemma_pow2_pos, lemma_pow2_unfold, pow2,
};
use vstd::string::StringExecFns;
use crate::binary64::{
    at_least, is_nan, lemma_scaled_order, lemma_whole_pattern, value, whole, HIDDEN, SIGN,
};
use crate::color::{portion, pure_green, pure_red, white, Rgb, FULL};

verus! {

/// Pattern of the number 30: below it the label is red.
pub const SLOW: u64 = 0x403E_0000_0000_0000;

/// Pattern of the number 60: here the label is yellow.
pub const SMOOTH: u64 = 0x404E_0000_0000_0000;

/// Pattern of the number 120: from here on the label is green.
pub const FAST: u64 = 0x405E_0000_0000_0000;

/// The colour for a reading in frames per second, given as a binary64
/// pattern, or for no reading.
///
/// A reading that is a NaN is not at least 30, and is red with the slow
/// rates.
pub open spec fn fps_color_of(reading: Option<u64>) -> Rgb {
    match reading {
        None => white(),
        Some(bits) => {
            if is_nan(bits) || value(bits) < whole(30) {
                pure_red()
            } else if value(bits) < whole(60) {
                Rgb {
                    red: FULL,
                    green: portion(value(bits) - whole(30), whole(30)) as u64,
                    blue: 0,
                }
            } else if value(bits) < whole(120) {
                Rgb {
                    red: portion(whole(120) - value(bits), whole(60)) as u64,
                    green: FULL,
                    blue: 0,
                }
            } else {
                pure_green()
            }
        },
    }
}

/// The colour of the frame rate label for a reading, given as a binary64
/// pattern, or for none.
pub fn fps_color(reading: Option<u64>) -> (color: Rgb)
    ensures
        color == fps_color_of(reading),
        color.wf(),
{
    proof {
        lemma_thresholds();
    }
    match reading {
        None => Rgb { red: FULL, green: FULL, blue: FULL },
        Some(bits) => {
            proof {
                lemma_scaled_order(bits % SIGN, SLOW);
                lemma_scaled_order(bits % SIGN, SMOOTH);
                lemma_scaled_order(bits % SIGN, FAST);
                lemma_scaled_order(0, bits % SIGN);
                lemma_pow2_pos(1074);
            }
            if at_least(bits, FAST) {
                Rgb { red: 0, green: FULL, blue: 0 }
            } else if at_least(bits, SMOOTH) {
                let steps: u64 = fine_steps(bits);
                proof {
                    lemma_fine(bits);
                    lemma_whole(120);
                    lemma_portion((120 * ONE) as nat, steps as nat, 60, (120 * ONE - steps) as nat);
                }
                Rgb { red: 120 * ONE - steps, green: FULL, blue: 0 }
            } else if at_least(bits, SLOW) {
                let steps: u64 = fine_steps(bits);
                proof {
                    lemma_fine(bits);
                    lemma_whole(30);
                    lemma_portion(
                        steps as nat,
                        (30 * ONE) as nat,
                        30,
                        (2 * (steps - 30 * ONE)) as nat,
                    );
                }
                Rgb { red: FULL, green: 2 * (steps - 30 * ONE), blue: 0 }
            } else {
                Rgb { red: FULL, green: 0, blue: 0 }
            }
        },
    }
}

/// The text of the label. The caller hands in the reading as it is to be
/// shown (rounded to a whole number and set to the right of four columns), or
/// nothing where there is no reading.
pub open spec fn fps_label_of(shown: Option<Seq<char>>) -> Seq<char> {
    match shown {
        Some(number) => "FPS : "@ + number,
        None => "FPS : N/A"@,
    }
}

/// The text of the frame rate label: `FPS : ` and the number as the caller
/// wrote it, or `FPS : N/A` without a reading.
pub fn fps_label(shown: Option<&str>) -> (label: String)
    ensures
        label@ == fps_label_of(
            match shown {
                Some(number) => Some(number@),
                None => None,
            },
        ),
{
    match shown {
        Some(number) => {
            let mut label = String::from_str("FPS : ");
            label.append(number);
            label
        },
        None => String::from_str("FPS : N/A"),
    }
}

/// What the frame rate label shows.
#[derive(Clone, Debug, PartialEq, Eq)]
pub struct Label {
    pub text: String,
    pub color: Rgb,
}

/// The frame rate label for a reading, or for none. A reading comes twice
/// over: as its binary64 pattern, which decides the colour, and written out
/// as the text is to show it.
pub fn fps_text(reading: Option<(u64, &str)>) -> (label: Label)
    ensures
        label.text@ == fps_label_of(
            match reading {
                Some(pair) => Some(pair.1@),
                None => None,
            },
        ),
        label.color == fps_color_of(
            match reading {
                Some(pair) => Some(pair.0),
                None => None,
            },
        ),
        label.color.wf(),
{
    match reading {
        Some((bits, shown)) => Label { text: fps_label(Some(shown)), color: fps_color(Some(bits)) },
        None => Label { text: fps_label(None), color: fps_color(None) },
    }
}

/// On the ramps nothing is rounded. From 30 up to 60 green stands to full
/// intensity exactly as the reading's distance from 30 stands to 30, and from
/// 60 up to 120 red stands to full intensity exactly as the reading's distance
/// from 120 stands to 60.
pub proof fn lemma_ramps_are_exact(bits: u64)
    requires
        !is_nan(bits),
        whole(30) <= value(bits) < whole(120),
    ensures
        value(bits) < whole(60) ==> fps_color_of(Some(bits)).green * whole(30) == (value(bits)
            - whole(30)) * FULL,
        value(bits) >= whole(60) ==> fps_color_of(Some(bits)).red * whole(60) == (whole(120)
            - value(bits)) * FULL,
{
    lemma_on_ramps(bits);
    lemma_whole(30);
    lemma_whole(60);
    lemma_whole(120);
    let p = pow2(1026) as int;
    let f = fine(bits) as int;
    assert(2 * (f - 30 * ONE) * (30 * ONE * p) == (f * p - 30 * ONE * p) * FULL)
        by (nonlinear_arith);
    assert((120 * ONE - f) * (60 * ONE * p) == (120 * ONE * p - f * p) * FULL)
        by (nonlinear_arith);
}

/// No colour of the label has a channel beyond full intensity, and none has
/// any blue but the white of a missing reading.
pub proof fn lemma_fps_color_wf(reading: Option<u64>)
    ensures
        fps_color_of(reading).wf(),
        reading is Some ==> fps_color_of(reading).blue == 0,
{
    if let Some(bits) = reading {
        if !is_nan(bits) && whole(30) <= value(bits) < whole(120) {
            lemma_on_ramps(bits);
        }
    }
}

/// A higher reading is never redder and never less green.
pub proof fn lemma_fps_color_monotone(lower: u64, higher: u64)
    requires
        !is_nan(lower),
        !is_nan(higher),
        value(lower) <= value(higher),
    ensures
        fps_color_of(Some(lower)).red >= fps_color_of(Some(higher)).red,
        fps_color_of(Some(lower)).green <= fps_color_of(Some(higher)).green,
{
    lemma_fps_color_wf(Some(lower));
    lemma_fps_color_wf(Some(higher));
    if whole(30) <= value(lower) && value(higher) < whole(120) {
        lemma_on_ramps(lower);
        lemma_on_ramps(higher);
        lemma_pow2_pos(1026);
        let p = pow2(1026) as int;
        let l = fine(lower) as int;
        let h = fine(higher) as int;
        assert(l <= h) by (nonlinear_arith)
            requires
                l * p <= h * p,
                p > 0,
        ;
    }
}

/// The ramps meet their neighbours: the lower one starts in the red of the
/// slow rates, both meet in yellow at 60, and the upper one would end in the
/// green of the fast rates.
pub proof fn lemma_ramps_meet(bits: u64)
    requires
        !is_nan(bits),
    ensures
        value(bits) == whole(30) ==> fps_color_of(Some(bits)) == pure_red(),
        value(bits) == whole(60) ==> fps_color_of(Some(bits)) == (Rgb {
            red: FULL,
            green: FULL,
            blue: 0,
        }),
        portion(whole(60) - whole(30), whole(30)) == FULL,
        portion(whole(120) - whole(120), whole(60)) == 0,
{
    lemma_pow2_pos(1074);
    let unit = pow2(1074) as int;
    assert(whole(30) == 30 * unit && whole(60) == 60 * unit && whole(120) == 120 * unit);
    assert((whole(60) - whole(30)) * FULL == FULL * whole(30)) by (nonlinear_arith)
        requires
            whole(30) == 30 * unit,
            whole(60) == 60 * unit,
    ;
    lemma_div_by_multiple(FULL as int, whole(30));
    if value(bits) == whole(30) || value(bits) == whole(60) {
        lemma_ramps_are_exact(bits);
        let color = fps_color_of(Some(bits));
        lemma_fps_color_wf(Some(bits));
        if value(bits) == whole(30) {
            assert(color.green == 0) by (nonlinear_arith)
                requires
                    color.green * whole(30) == (whole(30) - whole(30)) * FULL,
                    whole(30) > 0,
                    color.green >= 0,
            ;
        } else {
            assert(color.red == FULL) by (nonlinear_arith)
                requires
                    color.red * whole(60) == (whole(120) - whole(60)) * FULL,
                    whole(60) == 60 * unit,
                    whole(120) == 120 * unit,
                    unit > 0,
            ;
        }
    }
}

/// Two to the power of 48: the units of [`fine`] in one.
const ONE: u64 = 0x1_0000_0000_0000;

/// A reading on one of the ramps, counted in units of two to the power of
/// -48: every binary64 number from 16 up to 128 is a whole number of them.
spec fn fine(bits: u64) -> nat {
    let exponent = bits / HIDDEN;
    let significand = (HIDDEN + bits % HIDDEN) as nat;
    if exponent == 1027 {
        significand
    } else if exponent == 1028 {
        2 * significand
    } else {
        4 * significand
    }
}

/// A reading on one of the ramps in units of two to the power of -48.
fn fine_steps(bits: u64) -> (steps: u64)
    requires
        SLOW <= bits < FAST,
    ensures
        steps == fine(bits),
{
    let exponent: u64 = bits / HIDDEN;
    let significand: u64 = HIDDEN + bits % HIDDEN;
    if exponent == 1027 {
        significand
    } else if exponent == 1028 {
        2 * significand
    } else {
        4 * significand
    }
}

proof fn lemma_whole(n: nat)
    ensures
        whole(n) == n * ONE * pow2(1026),
{
    lemma2_to64_rest();
    lemma_pow2_adds(48, 1026);
    let p = pow2(1026) as int;
    assert(n * (ONE * p) == n * ONE * p) by (nonlinear_arith);
}

proof fn lemma_fine(bits: u64)
    requires
        SLOW <= bits < FAST,
    ensures
        !is_nan(bits),
        value(bits) == fine(bits) * pow2(1026),
        30 * ONE <= fine(bits) < 120 * ONE,
{
    let exponent = bits / HIDDEN;
    let s = (HIDDEN + bits % HIDDEN) as int;
    let p = pow2(1026) as int;
    assert(bits % SIGN == bits);
    assert(1027 <= exponent <= 1029);
    lemma_pow2_unfold(1027);
    lemma_pow2_unfold(1028);
    if exponent == 1028 {
        assert(s * (2 * p) == 2 * s * p) by (nonlinear_arith);
    } else if exponent == 1029 {
        assert(s * (2 * (2 * p)) == 4 * s * p) by (nonlinear_arith);
    }
}

proof fn lemma_thresholds()
    ensures
        value(SLOW) == whole(30),
        value(SMOOTH) == whole(60),
        value(FAST) == whole(120),
{
    lemma2_to64_rest();
    lemma_whole_pattern(SLOW, 30, 4);
    lemma_whole_pattern(SMOOTH, 60, 5);
    lemma_whole_pattern(FAST, 120, 6);
}

/// Where a difference of readings in units of [`fine`] comes to a whole
/// number of steps of intensity, [`portion`] is that number, with nothing
/// rounded away.
proof fn lemma_portion(above: nat, below: nat, width: nat, quotient: nat)
    requires
        below <= above,
        width > 0,
        (above - below) * FULL == quotient * (width * ONE),
    ensures
        portion(above * pow2(1026) - below * pow2(1026), whole(width)) == quotient,
{
    let p = pow2(1026) as int;
    lemma_pow2_pos(1026);
    lemma_whole(width);
    let d = width * ONE * p;
    assert(d > 0) by (nonlinear_arith)
        requires
            d == width * ONE * p,
            width > 0,
            ONE > 0,
            p > 0,
    ;
    assert((above * p - below * p) * FULL == quotient * d) by (nonlinear_arith)
        requires
            (above - below) * FULL == quotient * (width * ONE),
            d == width * ONE * p,
    ;
    lemma_div_by_multiple(quotient as int, d);
}

/// What holds of a reading from 30 up to 120: it is one of the patterns from
/// [`SLOW`] up to [`FAST`], and both ramps have a closed form in [`fine`].
proof fn lemma_on_ramps(bits: u64)
    requires
        !is_nan(bits),
        whole(30) <= value(bits) < whole(120),
    ensures
        SLOW <= bits < FAST,
        value(bits) == fine(bits) * pow2(1026),
        30 * ONE <= fine(bits) < 120 * ONE,
        value(bits) < whole(60) <==> fine(bits) < 60 * ONE,
        portion(value(bits) - whole(30), whole(30)) == 2 * (fine(bits) - 30 * ONE),
        portion(whole(120) - value(bits), whole(60)) == 120 * ONE - fine(bits),
{
    lemma_thresholds();
    lemma_pow2_pos(1074);
    lemma_pow2_pos(1026);
    lemma_scaled_order(0, bits % SIGN);
    lemma_scaled_order(bits % SIGN, SLOW);
    lemma_scaled_order(bits % SIGN, FAST);
    lemma_fine(bits);
    lemma_whole(30);
    lemma_whole(60);
    lemma_whole(120);
    let p = pow2(1026) as int;
    let f = fine(bits) as int;
    assert(f * p < 60 * ONE * p <==> f < 60 * ONE) by (nonlinear_arith)
        requires
            p > 0,
    ;
    lemma_portion(fine(bits), (30 * ONE) as nat, 30, (2 * (f - 30 * ONE)) as nat);
    lemma_portion((120 * ONE) as nat, fine(bits), 60, (120 * ONE - f) as nat);
}

} // verus!
