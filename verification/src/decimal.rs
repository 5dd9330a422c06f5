//! Decimal text of integers, as it appears in a path and in a
//! `Content-Length` header.

use vstd::prelude::*;
use vstd::string::*;
use crate::encoding::{form_text, is_unreserved, lemma_unreserved_text_is_unchanged, path_segment};

verus! {

/// The character for one decimal digit.
pub open spec fn digit_char(digit: nat) -> char
    recommends
        digit < 10,
{
    ((0x30 + digit) as u8) as char
}

/// The decimal digits of a natural number, most significant first, without
/// leading zeros; zero is `0`.
pub open spec fn decimal_nat(n: nat) -> Seq<char>
    decreases n,
{
    if n < 10 {
        seq![digit_char(n)]
    } else {
        decimal_nat(n / 10).push(digit_char(n % 10))
    }
}

/// The decimal text of an integer: a `-` before the digits of a negative
/// number, nothing before the others.
pub open spec fn decimal(n: int) -> Seq<char> {
    if n < 0 {
        seq!['-'] + decimal_nat((-n) as nat)
    } else {
        decimal_nat(n as nat)
    }
}

/// The number that a text of decimal digits stands for.
pub open spec fn decimal_value(digits: Seq<char>) -> nat
    decreases digits.len(),
{
    if digits.len() == 0 {
        0
    } else {
        (decimal_value(digits.drop_last()) * 10 + (digits.last() as u8 - 0x30)) as nat
    }
}

/// Reading the decimal digits of a number gives the number back, so two
/// numbers with the same digits are equal.
pub proof fn lemma_decimal_round_trip(n: nat)
    ensures
        decimal_value(decimal_nat(n)) == n,
    decreases n,
{
    if n < 10 {
        assert(decimal_nat(n).drop_last() =~= Seq::empty());
        assert(decimal_value(decimal_nat(n).drop_last()) == 0);
    } else {
        lemma_decimal_round_trip(n / 10);
        assert(decimal_nat(n).drop_last() =~= decimal_nat(n / 10));
    }
}

/// Decimal digits are never empty and consist of digits only.
pub proof fn lemma_decimal_nat_is_digits(n: nat)
    ensures
        decimal_nat(n).len() > 0,
        forall|i: int| 0 <= i < decimal_nat(n).len() ==> '0' <= #[trigger] decimal_nat(n)[i] <= '9',
    decreases n,
{
    if n >= 10 {
        lemma_decimal_nat_is_digits(n / 10);
    }
}

/// The decimal text of an integer needs no encoding: it is its own path
/// segment and its own form value.
pub proof fn lemma_decimal_is_unchanged(n: int)
    ensures
        path_segment(decimal(n)) == decimal(n),
        form_text(decimal(n)) == decimal(n),
{
    let text = decimal(n);
    let digits = decimal_nat((if n < 0 { -n } else { n }) as nat);
    lemma_decimal_nat_is_digits((if n < 0 { -n } else { n }) as nat);
    assert forall|i: int| 0 <= i < text.len() implies is_unreserved(#[trigger] text[i]) by {
        if n < 0 && i > 0 {
            assert(text[i] == digits[i - 1]);
        }
    }
    lemma_unreserved_text_is_unchanged(text);
}

fn digit_str(digit: u8) -> (text: &'static str)
    requires
        digit < 10,
    ensures
        text@ == seq![digit_char(digit as nat)],
{
    proof {
        reveal_strlit("0");
        reveal_strlit("1");
        reveal_strlit("2");
        reveal_strlit("3");
        reveal_strlit("4");
        reveal_strlit("5");
        reveal_strlit("6");
        reveal_strlit("7");
        reveal_strlit("8");
        reveal_strlit("9");
    }
    let text = match digit {
        0 => "0",
        1 => "1",
        2 => "2",
        3 => "3",
        4 => "4",
        5 => "5",
        6 => "6",
        7 => "7",
        8 => "8",
        _ => "9",
    };
    assert(text@ =~= seq![digit_char(digit as nat)]);
    text
}

/// Writes an unsigned integer in decimal.
pub fn u64_to_decimal(n: u64) -> (text: String)
    ensures
        text@ == decimal_nat(n as nat),
    decreases n,
{
    if n < 10 {
        digit_str(n as u8).to_owned()
    } else {
        let mut text = u64_to_decimal(n / 10);
        text.append(digit_str((n % 10) as u8));
        assert(text@ =~= decimal_nat(n as nat));
        text
    }
}

/// Writes a signed integer in decimal, with `-` before a negative one.
pub fn i64_to_decimal(n: i64) -> (text: String)
    ensures
        text@ == decimal(n as int),
{
    if n < 0 {
        let magnitude: u64 = (-(n + 1)) as u64 + 1;
        proof {
            reveal_strlit("-");
        }
        let mut text = "-".to_owned();
        let digits = u64_to_decimal(magnitude);
        text.append(digits.as_str());
        assert(text@ =~= decimal(n as int));
        text
    } else {
        u64_to_decimal(n as u64)
    }
}

} // verus!
