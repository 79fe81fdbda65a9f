//! Rendering of diagnostic text: decimal numbers and uppercase
//! hexadecimal bytes, built character by character so the exact
//! contents are verified.

use vstd::arithmetic::div_mod::lemma_div_decreases;
use vstd::prelude::*;
use vstd::string::*;

verus! {

/// The character of one decimal digit.
pub open spec fn spec_decimal_digit(d: int) -> char {
    if d == 0 {
        '0'
    } else if d == 1 {
        '1'
    } else if d == 2 {
        '2'
    } else if d == 3 {
        '3'
    } else if d == 4 {
        '4'
    } else if d == 5 {
        '5'
    } else if d == 6 {
        '6'
    } else if d == 7 {
        '7'
    } else if d == 8 {
        '8'
    } else {
        '9'
    }
}

/// The decimal rendering of a number, most significant digit first, no
/// leading zeros (a single zero for 0).
pub open spec fn spec_decimal(v: nat) -> Seq<char>
    decreases v,
    via spec_decimal_decreases
{
    if v < 10 {
        seq![spec_decimal_digit(v as int)]
    } else {
        spec_decimal(v / 10) + seq![spec_decimal_digit((v % 10) as int)]
    }
}

#[via_fn]
proof fn spec_decimal_decreases(v: nat) {
    if v >= 10 {
        lemma_div_decreases(v as int, 10);
    }
}

/// The character of one hexadecimal digit, uppercase.
pub open spec fn spec_hex_digit(d: int) -> char {
    if d < 10 {
        spec_decimal_digit(d)
    } else if d == 10 {
        'A'
    } else if d == 11 {
        'B'
    } else if d == 12 {
        'C'
    } else if d == 13 {
        'D'
    } else if d == 14 {
        'E'
    } else {
        'F'
    }
}

/// The two uppercase hexadecimal characters of one byte.
pub open spec fn spec_hex_byte(b: u8) -> Seq<char> {
    seq![spec_hex_digit((b / 16) as int), spec_hex_digit((b % 16) as int)]
}

/// One decimal digit as a string slice.
fn decimal_digit_str(d: u8) -> (s: &'static str)
    requires
        d < 10,
    ensures
        s@ == seq![spec_decimal_digit(d as int)],
{
    proof {
        reveal_strlit("0");
        reveal_strlit("1");
        reveal_strlit("2");
        reveal_strlit("3");
        reveal_strlit("4");
        reveal_strlit("5");
        reveal_strlit("6");
        reveal_strlit("7");
        reveal_strlit("8");
        reveal_strlit("9");
    }
    let s = match d {
        0 => "0",
        1 => "1",
        2 => "2",
        3 => "3",
        4 => "4",
        5 => "5",
        6 => "6",
        7 => "7",
        8 => "8",
        _ => "9",
    };
    proof {
        assert(s@ =~= seq![spec_decimal_digit(d as int)]);
    }
    s
}

/// One hexadecimal digit as a string slice, uppercase.
fn hex_digit_str(d: u8) -> (s: &'static str)
    requires
        d < 16,
    ensures
        s@ == seq![spec_hex_digit(d as int)],
{
    if d < 10 {
        decimal_digit_str(d)
    } else {
        proof {
            reveal_strlit("A");
            reveal_strlit("B");
            reveal_strlit("C");
            reveal_strlit("D");
            reveal_strlit("E");
            reveal_strlit("F");
        }
        let s = match d {
            10 => "A",
            11 => "B",
            12 => "C",
            13 => "D",
            14 => "E",
            _ => "F",
        };
        proof {
            assert(s@ =~= seq![spec_hex_digit(d as int)]);
        }
        s
    }
}

/// Renders a number in decimal, appending nothing else.
pub fn decimal_u64(v: u64) -> (s: String)
    ensures
        s@ == spec_decimal(v as nat),
    decreases v,
{
    let d = (v % 10) as u8;
    if v < 10 {
        String::from_str(decimal_digit_str(d))
    } else {
        proof {
            lemma_div_decreases(v as int, 10);
        }
        let mut s = decimal_u64(v / 10);
        s.append(decimal_digit_str(d));
        s
    }
}

/// Appends the two uppercase hexadecimal characters of one byte.
pub fn push_hex_byte(s: &mut String, b: u8)
    ensures
        final(s)@ == old(s)@ + spec_hex_byte(b),
{
    s.append(hex_digit_str(b / 16));
    s.append(hex_digit_str(b % 16));
    proof {
        assert(s@ =~= old(s)@ + spec_hex_byte(b));
    }
}

} // verus!
