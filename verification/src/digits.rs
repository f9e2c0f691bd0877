//! Decimal rendering of the numbers that appear in a record: source line
//! numbers, and the two-digit clock components of a timestamp.

use crate::color::{esc_free, lemma_esc_free_concat, lemma_esc_free_singleton};
use vstd::prelude::*;

verus! {

/// The character for one decimal digit.
pub open spec fn spec_digit_char(d: int) -> char {
    if d == 0 {
        '0'
    } else if d == 1 {
        '1'
    } else if d == 2 {
        '2'
    } else if d == 3 {
        '3'
    } else if d == 4 {
        '4'
    } else if d == 5 {
        '5'
    } else if d == 6 {
        '6'
    } else if d == 7 {
        '7'
    } else if d == 8 {
        '8'
    } else {
        '9'
    }
}

/// The usual decimal rendering of a number: no leading zeros, except that
/// zero itself is "0".
pub open spec fn spec_decimal(n: int) -> Seq<char>
    decreases n,
{
    if n < 10 {
        seq![spec_digit_char(n)]
    } else {
        spec_decimal(n / 10) + seq![spec_digit_char(n % 10)]
    }
}

/// A number rendered to exactly two digits, zero-padded on the left.
pub open spec fn spec_two_digits(n: int) -> Seq<char> {
    seq![spec_digit_char(n / 10), spec_digit_char(n % 10)]
}

/// A decimal rendering consists of digit characters alone, so it never
/// holds an escape character.
pub proof fn lemma_decimal_esc_free(n: int)
    requires
        n >= 0,
    ensures
        esc_free(spec_decimal(n)),
    decreases n,
{
    if n < 10 {
        lemma_esc_free_singleton(spec_digit_char(n));
    } else {
        lemma_decimal_esc_free(n / 10);
        lemma_esc_free_singleton(spec_digit_char(n % 10));
        lemma_esc_free_concat(spec_decimal(n / 10), seq![spec_digit_char(n % 10)]);
    }
}

/// A two-digit rendering holds digit characters alone as well.
pub proof fn lemma_two_digits_esc_free(n: int)
    ensures
        esc_free(spec_two_digits(n)),
{
    lemma_esc_free_singleton(spec_digit_char(n / 10));
    lemma_esc_free_singleton(spec_digit_char(n % 10));
    assert(spec_two_digits(n) =~= seq![spec_digit_char(n / 10)] + seq![spec_digit_char(n % 10)]);
    lemma_esc_free_concat(seq![spec_digit_char(n / 10)], seq![spec_digit_char(n % 10)]);
}

fn digit_str(d: u32) -> (r: &'static str)
    requires
        d < 10,
    ensures
        r@ == seq![spec_digit_char(d as int)],
{
    proof {
        reveal_strlit("0");
        reveal_strlit("1");
        reveal_strlit("2");
        reveal_strlit("3");
        reveal_strlit("4");
        reveal_strlit("5");
        reveal_strlit("6");
        reveal_strlit("7");
        reveal_strlit("8");
        reveal_strlit("9");
    }
    let r = match d {
        0 => "0",
        1 => "1",
        2 => "2",
        3 => "3",
        4 => "4",
        5 => "5",
        6 => "6",
        7 => "7",
        8 => "8",
        _ => "9",
    };
    proof {
        assert(r@ =~= seq![spec_digit_char(d as int)]);
    }
    r
}

/// Renders a number in decimal.
pub fn decimal_string(n: u32) -> (r: String)
    ensures
        r@ == spec_decimal(n as int),
    decreases n,
{
    if n < 10 {
        let s = digit_str(n);
        let r = String::from_str(s);
        r
    } else {
        let mut r = decimal_string(n / 10);
        let last = digit_str(n % 10);
        r.append(last);
        r
    }
}

/// Renders a number below one hundred to exactly two digits.
pub fn two_digit_string(n: u32) -> (r: String)
    requires
        n < 100,
    ensures
        r@ == spec_two_digits(n as int),
{
    let mut r = String::from_str(digit_str(n / 10));
    r.append(digit_str(n % 10));
    r
}

} // verus!
