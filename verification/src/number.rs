//! Unsigned numerals as users type them: an optional `+`, then decimal digits.

use crate::text::{decimal, digit_char, signed_decimal};
use vstd::arithmetic::power::pow;
use vstd::prelude::*;

verus! {

/// Why a text is not an unsigned number of the wanted width.
#[derive(Debug, Clone, Copy, PartialEq, Eq, Structural)]
pub enum NumberError {
    /// There is no text at all.
    Empty,
    /// A character is not a digit, or there is a sign without digits.
    InvalidDigit,
    /// The number does not fit the type.
    TooLarge,
}

/// Whether `c` is one of `0` to `9`.
pub open spec fn is_digit(c: char) -> bool {
    '0' <= c <= '9'
}

/// The text without its leading `+`, if it has one.
pub open spec fn unsigned_part(s: Seq<char>) -> Seq<char> {
    if s.len() > 0 && s[0] == '+' {
        s.skip(1)
    } else {
        s
    }
}

/// Whether `s` is one or more decimal digits.
pub open spec fn all_digits(s: Seq<char>) -> bool {
    s.len() > 0 && forall|i: int| 0 <= i < s.len() ==> is_digit(#[trigger] s[i])
}

/// The number that the decimal digits of `s` denote.
pub open spec fn digits_value(s: Seq<char>) -> nat
    decreases s.len(),
{
    if s.len() == 0 {
        0
    } else {
        digits_value(s.drop_last()) * 10 + (s.last() as u32 - '0' as u32) as nat
    }
}

/// Whether some leading run of digits of the unsigned part of `s` denotes more than `max`.
pub open spec fn overflows(s: Seq<char>, max: nat) -> bool {
    exists|k: int|
        0 <= k <= unsigned_part(s).len() && all_digits(#[trigger] unsigned_part(s).take(k))
            && digits_value(unsigned_part(s).take(k)) > max
}

/// What reading `s` as an unsigned number of at most `max` may give: its value when it is
/// a numeral in range, `Empty` for no text, `TooLarge` for a numeral out of range, and
/// `InvalidDigit` for anything else, except that a text whose leading digits alone are out of
/// range may also be called `TooLarge`.
pub open spec fn reads_as(s: Seq<char>, max: nat, outcome: Result<nat, NumberError>) -> bool {
    if s.len() == 0 {
        outcome == Err::<nat, NumberError>(NumberError::Empty)
    } else if !all_digits(unsigned_part(s)) {
        ||| outcome == Err::<nat, NumberError>(NumberError::InvalidDigit)
        ||| overflows(s, max) && outcome == Err::<nat, NumberError>(NumberError::TooLarge)
    } else if digits_value(unsigned_part(s)) > max {
        outcome == Err::<nat, NumberError>(NumberError::TooLarge)
    } else {
        outcome == Ok::<nat, NumberError>(digits_value(unsigned_part(s)))
    }
}

/// A `u64` outcome with its number as a `nat`.
pub open spec fn u64_outcome(r: Result<u64, NumberError>) -> Result<nat, NumberError> {
    match r {
        Ok(n) => Ok(n as nat),
        Err(e) => Err(e),
    }
}

/// A `usize` outcome with its number as a `nat`.
pub open spec fn usize_outcome(r: Result<usize, NumberError>) -> Result<nat, NumberError> {
    match r {
        Ok(n) => Ok(n as nat),
        Err(e) => Err(e),
    }
}

/// `str::parse::<u64>`: accepts an optional `+` and decimal digits and nothing else, and refuses
/// the empty text, other characters and numbers that do not fit.
#[verifier::external_body]
pub(crate) fn parse_u64(s: &str) -> (r: Result<u64, NumberError>)
    ensures
        reads_as(s@, u64::MAX as nat, u64_outcome(r)),
{
    s.parse::<u64>().map_err(
        |e| match e.kind() {
            std::num::IntErrorKind::Empty => NumberError::Empty,
            std::num::IntErrorKind::PosOverflow => NumberError::TooLarge,
            _ => NumberError::InvalidDigit,
        },
    )
}

/// `str::parse::<usize>`: as [`parse_u64`], for the width of `usize`.
#[verifier::external_body]
pub(crate) fn parse_usize(s: &str) -> (r: Result<usize, NumberError>)
    ensures
        reads_as(s@, usize::MAX as nat, usize_outcome(r)),
{
    s.parse::<usize>().map_err(
        |e| match e.kind() {
            std::num::IntErrorKind::Empty => NumberError::Empty,
            std::num::IntErrorKind::PosOverflow => NumberError::TooLarge,
            _ => NumberError::InvalidDigit,
        },
    )
}

/// A decimal numeral consists of digits and denotes the number it was written for.
pub proof fn lemma_decimal_reads_back(n: nat)
    ensures
        all_digits(decimal(n)),
        digits_value(decimal(n)) == n,
        unsigned_part(decimal(n)) == decimal(n),
    decreases n,
{
    let s = decimal(n);
    if n < 10 {
        assert(s.drop_last() =~= Seq::<char>::empty());
        assert(digits_value(s.drop_last()) == 0);
    } else {
        lemma_decimal_reads_back(n / 10);
        assert(s.drop_last() =~= decimal(n / 10));
        assert(s.last() == digit_char(n % 10));
        assert forall|i: int| 0 <= i < s.len() implies is_digit(#[trigger] s[i]) by {
            if i < s.len() - 1 {
                assert(s[i] == decimal(n / 10)[i]);
            }
        }
    }
    assert(is_digit(s[0]));
}

/// Reading back a written number gives that number, as long as it is in range.
pub proof fn law_written_number_reads_back(n: nat, max: nat, outcome: Result<nat, NumberError>)
    requires
        n <= max,
        reads_as(decimal(n), max, outcome),
    ensures
        outcome == Ok::<nat, NumberError>(n),
{
    lemma_decimal_reads_back(n);
}

/// A numeral is as short as can be: it begins with a zero only if it is the numeral of zero.
pub proof fn law_no_leading_zero(n: nat)
    ensures
        decimal(n)[0] == '0' <==> n == 0,
        n == 0 ==> decimal(n).len() == 1,
    decreases n,
{
    lemma_decimal_reads_back(n);
    if n >= 10 {
        law_no_leading_zero(n / 10);
        lemma_decimal_reads_back(n / 10);
        assert(decimal(n)[0] == decimal(n / 10)[0]);
    }
}

/// A number with a sign is written as a `-`, if it is negative, and the numeral of its magnitude.
pub proof fn law_signed_number_reads_back(n: int)
    ensures
        n >= 0 ==> all_digits(signed_decimal(n)) && digits_value(signed_decimal(n)) == n,
        n < 0 ==> signed_decimal(n)[0] == '-' && all_digits(signed_decimal(n).skip(1))
            && digits_value(signed_decimal(n).skip(1)) == -n,
{
    if n < 0 {
        lemma_decimal_reads_back((-n) as nat);
        assert(signed_decimal(n).skip(1) =~= decimal((-n) as nat));
    } else {
        lemma_decimal_reads_back(n as nat);
    }
}

/// Digits weigh by their place: in front of other digits they count for ten times as much for
/// each of those, and a digit alone is its number.
pub proof fn law_digits_weigh_by_place(a: Seq<char>, b: Seq<char>, d: nat)
    requires
        d < 10,
    ensures
        digits_value(seq![digit_char(d)]) == d,
        digits_value(a + b) == digits_value(a) * pow(10, b.len()) + digits_value(b),
    decreases b.len(),
{
    assert(seq![digit_char(d)].drop_last() =~= Seq::<char>::empty());
    assert(digits_value(Seq::<char>::empty()) == 0);
    vstd::arithmetic::power::lemma_pow0(10);
    if b.len() == 0 {
        assert(a + b =~= a);
    } else {
        let front = b.drop_last();
        law_digits_weigh_by_place(a, front, d);
        assert((a + b).drop_last() =~= a + front);
        reveal(pow);
        let p = pow(10, front.len());
        assert(pow(10, b.len()) == 10 * p);
        assert(digits_value(a) * (10 * p) == 10 * (digits_value(a) * p)) by (nonlinear_arith);
    }
}

/// A text is accepted exactly when it is a numeral in range, with or without a `+`, and then it
/// gives the number that its digits denote.
pub proof fn law_numerals_are_accepted(s: Seq<char>, max: nat, outcome: Result<nat, NumberError>)
    requires
        reads_as(s, max, outcome),
    ensures
        outcome is Ok <==> all_digits(unsigned_part(s)) && digits_value(unsigned_part(s)) <= max,
        outcome is Ok ==> outcome->Ok_0 == digits_value(unsigned_part(s)),
        s.len() == 0 <==> outcome == Err::<nat, NumberError>(NumberError::Empty),
{
}

} // verus!
