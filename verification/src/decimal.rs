//! Decimal rendering of unsigned integers.
//!
//! The acknowledgement log stores each timestamp as its decimal digits, so
//! the rendering is specified exactly: `dec_of` gives the digit sequence of a
//! non-negative integer, `dec_val` reads such a sequence back, and the two
//! are proved inverse to each other, which makes the rendering injective.

use vstd::prelude::*;
use vstd::arithmetic::div_mod::lemma_fundamental_div_mod;

verus! {

/// The character for a single decimal digit value.
pub open spec fn digit_char(d: int) -> char {
    if d == 0 {
        '0'
    } else if d == 1 {
        '1'
    } else if d == 2 {
        '2'
    } else if d == 3 {
        '3'
    } else if d == 4 {
        '4'
    } else if d == 5 {
        '5'
    } else if d == 6 {
        '6'
    } else if d == 7 {
        '7'
    } else if d == 8 {
        '8'
    } else {
        '9'
    }
}

/// The digit value of a decimal digit character.
pub open spec fn digit_val(c: char) -> int {
    if c == '0' {
        0
    } else if c == '1' {
        1
    } else if c == '2' {
        2
    } else if c == '3' {
        3
    } else if c == '4' {
        4
    } else if c == '5' {
        5
    } else if c == '6' {
        6
    } else if c == '7' {
        7
    } else if c == '8' {
        8
    } else {
        9
    }
}

/// Whether a character is a decimal digit.
pub open spec fn is_dec_digit(c: char) -> bool {
    c == '0' || c == '1' || c == '2' || c == '3' || c == '4' || c == '5' || c == '6' || c == '7'
        || c == '8' || c == '9'
}

/// The decimal digits of a non-negative integer, most significant first,
/// with no leading zeros except for the number zero itself.
pub open spec fn dec_of(n: int) -> Seq<char>
    recommends
        n >= 0,
    decreases n,
{
    if n < 10 {
        seq![digit_char(n)]
    } else {
        dec_of(n / 10) + seq![digit_char(n % 10)]
    }
}

/// The value of a sequence of decimal digit characters.
pub open spec fn dec_val(s: Seq<char>) -> int
    decreases s.len(),
{
    if s.len() == 0 {
        0
    } else {
        dec_val(s.drop_last()) * 10 + digit_val(s.last())
    }
}

/// Every character of a decimal rendering is a digit, and there is at least one.
pub proof fn lemma_dec_of_digits(n: int)
    requires
        n >= 0,
    ensures
        dec_of(n).len() >= 1,
        forall|i: int| 0 <= i < dec_of(n).len() ==> is_dec_digit(#[trigger] dec_of(n)[i]),
    decreases n,
{
    if n >= 10 {
        lemma_dec_of_digits(n / 10);
    }
}

/// Reading a rendering back yields the number that was rendered.
pub proof fn lemma_dec_val_of_dec_of(n: int)
    requires
        n >= 0,
    ensures
        dec_val(dec_of(n)) == n,
    decreases n,
{
    if n < 10 {
        let s = dec_of(n);
        assert(s =~= seq![digit_char(n)]);
        assert(s.drop_last() =~= Seq::<char>::empty());
        assert(dec_val(Seq::<char>::empty()) == 0);
        assert(s.last() == digit_char(n));
        assert(dec_val(s) == 0 * 10 + digit_val(digit_char(n)));
    } else {
        lemma_dec_val_of_dec_of(n / 10);
        let s = dec_of(n);
        assert(s =~= dec_of(n / 10) + seq![digit_char(n % 10)]);
        assert(s.drop_last() =~= dec_of(n / 10));
        assert(s.last() == digit_char(n % 10));
        assert(dec_val(s) == dec_val(dec_of(n / 10)) * 10 + digit_val(digit_char(n % 10)));
        lemma_fundamental_div_mod(n, 10);
    }
}

/// Distinct numbers have distinct decimal renderings.
pub proof fn lemma_dec_of_injective(a: int, b: int)
    requires
        a >= 0,
        b >= 0,
        dec_of(a) == dec_of(b),
    ensures
        a == b,
{
    lemma_dec_val_of_dec_of(a);
    lemma_dec_val_of_dec_of(b);
}

/// The decimal rendering of an unsigned integer as a string.
pub fn u128_to_decimal(n: u128) -> (s: String)
    ensures
        s@ == dec_of(n as int),
    decreases n,
{
    let d: u128 = n % 10;
    let digit: &str = match d {
        0 => "0",
        1 => "1",
        2 => "2",
        3 => "3",
        4 => "4",
        5 => "5",
        6 => "6",
        7 => "7",
        8 => "8",
        _ => "9",
    };
    proof {
        reveal_strlit("0");
        reveal_strlit("1");
        reveal_strlit("2");
        reveal_strlit("3");
        reveal_strlit("4");
        reveal_strlit("5");
        reveal_strlit("6");
        reveal_strlit("7");
        reveal_strlit("8");
        reveal_strlit("9");
        assert(digit@ =~= seq![digit_char(d as int)]);
    }
    if n < 10 {
        let s = String::from_str(digit);
        proof {
            assert(s@ =~= dec_of(n as int));
        }
        s
    } else {
        let mut s = u128_to_decimal(n / 10);
        s.append(digit);
        proof {
            assert(s@ =~= dec_of(n as int));
        }
        s
    }
}

} // verus!
