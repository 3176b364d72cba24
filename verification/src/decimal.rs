//! Numbers written in decimal digits.

use vstd::prelude::*;

verus! {

/// The character of a digit.
pub open spec fn digit_char(digit: nat) -> char
    recommends
        digit < 10,
{
    if digit == 0 {
        '0'
    } else if digit == 1 {
        '1'
    } else if digit == 2 {
        '2'
    } else if digit == 3 {
        '3'
    } else if digit == 4 {
        '4'
    } else if digit == 5 {
        '5'
    } else if digit == 6 {
        '6'
    } else if digit == 7 {
        '7'
    } else if digit == 8 {
        '8'
    } else {
        '9'
    }
}

/// A natural number in decimal digits, without leading zeros.
pub open spec fn decimal(number: nat) -> Seq<char>
    decreases number,
{
    if number < 10 {
        seq![digit_char(number)]
    } else {
        decimal(number / 10).push(digit_char(number % 10))
    }
}

/// An integer in decimal digits, after a minus sign if it is negative.
pub open spec fn signed_decimal(number: int) -> Seq<char> {
    if number < 0 {
        seq!['-'] + decimal((-number) as nat)
    } else {
        decimal(number as nat)
    }
}

/// A natural number in at least two decimal digits.
pub open spec fn two_digits(number: nat) -> Seq<char> {
    if number < 10 {
        seq!['0'] + decimal(number)
    } else {
        decimal(number)
    }
}

fn digit_text(digit: u64) -> (text: &'static str)
    requires
        digit < 10,
    ensures
        text@ == seq![digit_char(digit as nat)],
{
    proof {
        reveal_strlit("0");
        reveal_strlit("1");
        reveal_strlit("2");
        reveal_strlit("3");
        reveal_strlit("4");
        reveal_strlit("5");
        reveal_strlit("6");
        reveal_strlit("7");
        reveal_strlit("8");
        reveal_strlit("9");
    }
    let text = match digit {
        0 => "0",
        1 => "1",
        2 => "2",
        3 => "3",
        4 => "4",
        5 => "5",
        6 => "6",
        7 => "7",
        8 => "8",
        _ => "9",
    };
    text
}

/// Writes a number in decimal digits.
pub fn decimal_text(number: u64) -> (text: String)
    ensures
        text@ == decimal(number as nat),
    decreases number,
{
    if number < 10 {
        String::from_str(digit_text(number))
    } else {
        let text = decimal_text(number / 10).concat(digit_text(number % 10));
        text
    }
}

/// Writes an integer in decimal digits, after a minus sign if it is negative.
pub fn signed_decimal_text(number: i64) -> (text: String)
    ensures
        text@ == signed_decimal(number as int),
{
    if number < 0 {
        proof {
            reveal_strlit("-");
        }
        let magnitude: u64 = if number == i64::MIN {
            9_223_372_036_854_775_808u64
        } else {
            (-number) as u64
        };
        let digits = decimal_text(magnitude);
        let text = String::from_str("-").concat(digits.as_str());
        text
    } else {
        decimal_text(number as u64)
    }
}

/// Writes a number in at least two decimal digits.
pub fn two_digit_text(number: u64) -> (text: String)
    ensures
        text@ == two_digits(number as nat),
{
    if number < 10 {
        proof {
            reveal_strlit("0");
        }
        let text = String::from_str("0").concat(decimal_text(number).as_str());
        text
    } else {
        decimal_text(number)
    }
}

} // verus!
