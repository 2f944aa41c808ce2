//! Numbers written in decimal, and how many digits they take.

use vstd::prelude::*;

verus! {

/// The character of one decimal digit.
pub open spec fn spec_digit(digit: int) -> char {
    if digit == 0 {
        '0'
    } else if digit == 1 {
        '1'
    } else if digit == 2 {
        '2'
    } else if digit == 3 {
        '3'
    } else if digit == 4 {
        '4'
    } else if digit == 5 {
        '5'
    } else if digit == 6 {
        '6'
    } else if digit == 7 {
        '7'
    } else if digit == 8 {
        '8'
    } else {
        '9'
    }
}

/// A number in decimal, without leading zeros; zero is one digit.
pub open spec fn spec_decimal(number: nat) -> Seq<char>
    decreases number,
{
    if number < 10 {
        seq![spec_digit(number as int)]
    } else {
        spec_decimal(number / 10).push(spec_digit((number % 10) as int))
    }
}

/// The whole part of the logarithm to base ten of a positive number.
pub open spec fn spec_log10(number: nat) -> nat
    decreases number,
{
    if number < 10 {
        0
    } else {
        1 + spec_log10(number / 10)
    }
}

/// The number of decimal digits of a number; zero has one digit.
pub open spec fn spec_digit_count(number: nat) -> nat {
    spec_log10(number) + 1
}

/// A number in decimal has as many characters as it has digits.
pub proof fn lemma_decimal_len(number: nat)
    ensures
        spec_decimal(number).len() == spec_digit_count(number),
    decreases number,
{
    if number >= 10 {
        lemma_decimal_len(number / 10);
    }
}

/// The logarithm of a positive number is smaller than the number.
pub proof fn lemma_log10_below(number: nat)
    requires
        number > 0,
    ensures
        spec_log10(number) < number,
    decreases number,
{
    if number >= 10 {
        lemma_log10_below(number / 10);
    }
}

/// A number with more digits is larger: the digit count never falls as the
/// number grows.
pub proof fn lemma_digit_count_monotonic(smaller: nat, larger: nat)
    requires
        smaller <= larger,
    ensures
        spec_digit_count(smaller) <= spec_digit_count(larger),
    decreases larger,
{
    if smaller >= 10 {
        lemma_digit_count_monotonic(smaller / 10, larger / 10);
    }
}

/// `ilog::IntLog::log10` on a `usize`: for a positive number, the largest
/// integer that is not above its logarithm to base ten. Zero is left out:
/// there the outside function panics or returns a wrong value.
#[verifier::external_body]
fn log10(number: usize) -> (exponent: usize)
    requires
        number > 0,
    ensures
        exponent == spec_log10(number as nat),
{
    ilog::IntLog::log10(number)
}

pub fn digit(value: u8) -> (glyph: char)
    requires
        value < 10,
    ensures
        glyph == spec_digit(value as int),
{
    if value == 0 {
        '0'
    } else if value == 1 {
        '1'
    } else if value == 2 {
        '2'
    } else if value == 3 {
        '3'
    } else if value == 4 {
        '4'
    } else if value == 5 {
        '5'
    } else if value == 6 {
        '6'
    } else if value == 7 {
        '7'
    } else if value == 8 {
        '8'
    } else {
        '9'
    }
}

/// The number of decimal digits of a number.
pub fn digit_count(number: usize) -> (count: usize)
    ensures
        count == spec_digit_count(number as nat),
        count >= 1,
{
    if number == 0 {
        1
    } else {
        proof {
            lemma_log10_below(number as nat);
        }
        log10(number) + 1
    }
}

/// The digits of a number, most significant first.
pub fn decimal(number: usize) -> (digits: Vec<char>)
    ensures
        digits@ == spec_decimal(number as nat),
    decreases number,
{
    if number < 10 {
        let mut digits: Vec<char> = Vec::new();
        digits.push(digit(number as u8));
        digits
    } else {
        let mut digits = decimal(number / 10);
        digits.push(digit((number % 10) as u8));
        digits
    }
}

} // verus!
