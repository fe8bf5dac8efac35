//! Terminal colours that grade a measured quantity.

use crate::reading::{steps, whole, Reading, FRACTION_RANGE, INFINITY_BITS};
use crate::text::{lemma_made_of_five, made_of};
use vstd::arithmetic::power2::pow2;
use vstd::prelude::*;

verus! {

/// How good a quantity is.
#[derive(Debug, Clone, Copy, PartialEq, Eq, Structural)]
pub enum Grade {
    Good,
    Fair,
    Poor,
}

/// The colour code of a grade: green, yellow or red.
pub open spec fn grade_code(grade: Grade) -> Seq<char> {
    match grade {
        Grade::Good => "32"@,
        Grade::Fair => "33"@,
        Grade::Poor => "31"@,
    }
}

/// `text` between the escape sequences that switch to a colour and back.
pub open spec fn painted(text: Seq<char>, color_code: Seq<char>) -> Seq<char> {
    "\x1b["@ + color_code + "m"@ + text + "\x1b[0m"@
}

/// Whether a number is at least the whole number `n`.
pub open spec fn reaches(x: Reading, n: nat) -> bool {
    !x.is_nan() && x.value() >= whole(n)
}

/// Whether a number is at most the whole number `n`.
pub open spec fn within(x: Reading, n: nat) -> bool {
    !x.is_nan() && x.value() <= whole(n)
}

/// The grade of a speed in Mbps: good from 100, fair from 30.
pub open spec fn speed_grade(mbps: Reading) -> Grade {
    if reaches(mbps, 100) {
        Grade::Good
    } else if reaches(mbps, 30) {
        Grade::Fair
    } else {
        Grade::Poor
    }
}

/// The grade of a delay in ms: good up to `good`, fair up to `fair`.
pub open spec fn delay_grade(ms: Reading, good: nat, fair: nat) -> Grade {
    if within(ms, good) {
        Grade::Good
    } else if within(ms, fair) {
        Grade::Fair
    } else {
        Grade::Poor
    }
}

const FIVE: u64 = 0x4014_0000_0000_0000;

const FIFTEEN: u64 = 0x402e_0000_0000_0000;

const TWENTY: u64 = 0x4034_0000_0000_0000;

const THIRTY: u64 = 0x403e_0000_0000_0000;

const FIFTY: u64 = 0x4049_0000_0000_0000;

const HUNDRED: u64 = 0x4059_0000_0000_0000;

/// A pattern whose significand is `n` shifted left by `shift`, at the exponent that undoes the
/// shift, denotes the whole number `n`.
proof fn lemma_whole_number(magnitude: nat, n: nat, shift: nat)
    requires
        shift <= 52,
        magnitude / FRACTION_RANGE as nat == 1075 - shift,
        FRACTION_RANGE + magnitude % FRACTION_RANGE as nat == n * pow2(shift),
    ensures
        steps(magnitude) == whole(n),
{
    let rest = (1074 - shift) as nat;
    vstd::arithmetic::power2::lemma_pow2_adds(shift, rest);
    assert((n * pow2(shift)) * pow2(rest) == n * (pow2(shift) * pow2(rest))) by (nonlinear_arith);
}

/// The thresholds are the patterns of the numbers that they are named after.
proof fn lemma_thresholds()
    ensures
        FIVE < INFINITY_BITS && steps(FIVE as nat) == whole(5),
        FIFTEEN < INFINITY_BITS && steps(FIFTEEN as nat) == whole(15),
        TWENTY < INFINITY_BITS && steps(TWENTY as nat) == whole(20),
        THIRTY < INFINITY_BITS && steps(THIRTY as nat) == whole(30),
        FIFTY < INFINITY_BITS && steps(FIFTY as nat) == whole(50),
        HUNDRED < INFINITY_BITS && steps(HUNDRED as nat) == whole(100),
{
    vstd::arithmetic::power2::lemma2_to64();
    vstd::arithmetic::power2::lemma2_to64_rest();
    lemma_whole_number(FIVE as nat, 5, 50);
    lemma_whole_number(FIFTEEN as nat, 15, 49);
    lemma_whole_number(TWENTY as nat, 20, 48);
    lemma_whole_number(THIRTY as nat, 30, 48);
    lemma_whole_number(FIFTY as nat, 50, 47);
    lemma_whole_number(HUNDRED as nat, 100, 46);
}

/// Paints `text` in a colour.
pub fn paint(text: &str, color_code: &str) -> (r: String)
    ensures
        r@ == painted(text@, color_code@),
{
    let mut out = "\x1b[".to_owned();
    out.append(color_code);
    out.append("m");
    out.append(text);
    out.append("\x1b[0m");
    out
}

fn paint_graded(number: &str, unit: &str, grade: Grade) -> (r: String)
    ensures
        r@ == painted(number@ + unit@, grade_code(grade)),
{
    let text = number.to_owned().concat(unit);
    match grade {
        Grade::Good => paint(text.as_str(), "32"),
        Grade::Fair => paint(text.as_str(), "33"),
        Grade::Poor => paint(text.as_str(), "31"),
    }
}

/// A speed, shown as `number`, in the colour of its grade.
pub open spec fn speed_text(mbps: Reading, number: Seq<char>) -> Seq<char> {
    painted(number + " Mbps"@, grade_code(speed_grade(mbps)))
}

/// A latency, shown as `number`, in the colour of its grade: good up to 20 ms, fair up to 50 ms.
pub open spec fn latency_text(ms: Reading, number: Seq<char>) -> Seq<char> {
    painted(number + " ms"@, grade_code(delay_grade(ms, 20, 50)))
}

/// A jitter, shown as `number`, in the colour of its grade: good up to 5 ms, fair up to 15 ms.
pub open spec fn jitter_text(ms: Reading, number: Seq<char>) -> Seq<char> {
    painted(number + " ms"@, grade_code(delay_grade(ms, 5, 15)))
}

/// A speed, shown as `number`, in the colour of its grade.
pub fn color_speed(mbps: Reading, number: &str) -> (r: String)
    ensures
        r@ == speed_text(mbps, number@),
{
    proof {
        lemma_thresholds();
    }
    if mbps.ge(&Reading { bits: HUNDRED }) {
        paint_graded(number, " Mbps", Grade::Good)
    } else if mbps.ge(&Reading { bits: THIRTY }) {
        paint_graded(number, " Mbps", Grade::Fair)
    } else {
        paint_graded(number, " Mbps", Grade::Poor)
    }
}

/// A latency, shown as `number`, in the colour of its grade.
pub fn color_latency(ms: Reading, number: &str) -> (r: String)
    ensures
        r@ == latency_text(ms, number@),
{
    proof {
        lemma_thresholds();
    }
    if (Reading { bits: TWENTY }).ge(&ms) {
        paint_graded(number, " ms", Grade::Good)
    } else if (Reading { bits: FIFTY }).ge(&ms) {
        paint_graded(number, " ms", Grade::Fair)
    } else {
        paint_graded(number, " ms", Grade::Poor)
    }
}

/// A jitter, shown as `number`, in the colour of its grade.
pub fn color_jitter(ms: Reading, number: &str) -> (r: String)
    ensures
        r@ == jitter_text(ms, number@),
{
    proof {
        lemma_thresholds();
    }
    if (Reading { bits: FIVE }).ge(&ms) {
        paint_graded(number, " ms", Grade::Good)
    } else if (Reading { bits: FIFTEEN }).ge(&ms) {
        paint_graded(number, " ms", Grade::Fair)
    } else {
        paint_graded(number, " ms", Grade::Poor)
    }
}

/// Painting puts a text, unchanged, between the sequence that switches to the colour and the one
/// that switches back.
pub proof fn law_painting_keeps_the_text(text: Seq<char>, color_code: Seq<char>)
    ensures
        made_of(painted(text, color_code), seq!["\x1b["@, color_code, "m"@, text, "\x1b[0m"@]),
{
    lemma_made_of_five("\x1b["@, color_code, "m"@, text, "\x1b[0m"@);
}

/// A speed is shown in green exactly from 100 Mbps, in yellow exactly from 30 Mbps up to there, and
/// in red otherwise, also where it is no number.
pub proof fn law_speed_is_graded(mbps: Reading, number: Seq<char>)
    ensures
        ({
            let code = if !mbps.is_nan() && mbps.value() >= 100 * pow2(1074) {
                "32"@
            } else if !mbps.is_nan() && mbps.value() >= 30 * pow2(1074) {
                "33"@
            } else {
                "31"@
            };
            made_of(
                speed_text(mbps, number),
                seq!["\x1b["@, code, "m"@, number + " Mbps"@, "\x1b[0m"@],
            )
        }),
{
    law_painting_keeps_the_text(number + " Mbps"@, grade_code(speed_grade(mbps)));
}

/// A latency is shown in green exactly up to 20 ms, in yellow exactly from there up to 50 ms, and
/// in red otherwise; a jitter likewise with 5 ms and 15 ms.
pub proof fn law_delays_are_graded(ms: Reading, number: Seq<char>)
    ensures
        ({
            let latency = if !ms.is_nan() && ms.value() <= 20 * pow2(1074) {
                "32"@
            } else if !ms.is_nan() && ms.value() <= 50 * pow2(1074) {
                "33"@
            } else {
                "31"@
            };
            let jitter = if !ms.is_nan() && ms.value() <= 5 * pow2(1074) {
                "32"@
            } else if !ms.is_nan() && ms.value() <= 15 * pow2(1074) {
                "33"@
            } else {
                "31"@
            };
            &&& made_of(
                latency_text(ms, number),
                seq!["\x1b["@, latency, "m"@, number + " ms"@, "\x1b[0m"@],
            )
            &&& made_of(
                jitter_text(ms, number),
                seq!["\x1b["@, jitter, "m"@, number + " ms"@, "\x1b[0m"@],
            )
        }),
{
    law_painting_keeps_the_text(number + " ms"@, grade_code(delay_grade(ms, 20, 50)));
    law_painting_keeps_the_text(number + " ms"@, grade_code(delay_grade(ms, 5, 15)));
}

} // verus!
