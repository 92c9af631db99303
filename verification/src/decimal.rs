//! Decimal numerals: how a length is written in a `Content-Length` header.

use vstd::prelude::*;
use crate::text::string_of;

verus! {

/// The character that stands for the digit `d`; `'0'` for anything over 9.
pub open spec fn digit(d: nat) -> char {
    if d == 1 {
        '1'
    } else if d == 2 {
        '2'
    } else if d == 3 {
        '3'
    } else if d == 4 {
        '4'
    } else if d == 5 {
        '5'
    } else if d == 6 {
        '6'
    } else if d == 7 {
        '7'
    } else if d == 8 {
        '8'
    } else if d == 9 {
        '9'
    } else {
        '0'
    }
}

/// The number that the digit character `c` stands for; 0 for any other character.
pub open spec fn digit_value(c: char) -> nat {
    if c == '1' {
        1
    } else if c == '2' {
        2
    } else if c == '3' {
        3
    } else if c == '4' {
        4
    } else if c == '5' {
        5
    } else if c == '6' {
        6
    } else if c == '7' {
        7
    } else if c == '8' {
        8
    } else if c == '9' {
        9
    } else {
        0
    }
}

/// Whether `c` is one of the ten digit characters.
pub open spec fn is_digit(c: char) -> bool {
    '0' <= c <= '9'
}

/// The decimal numeral of `n`: most significant digit first, no sign, no
/// leading zero (but `"0"` for zero).
pub open spec fn decimal_digits(n: nat) -> Seq<char>
    decreases n,
{
    if n < 10 {
        seq![digit(n)]
    } else {
        decimal_digits(n / 10).push(digit(n % 10))
    }
}

/// The number that a sequence of digit characters denotes, read as a decimal numeral.
pub open spec fn decimal_value(s: Seq<char>) -> nat
    decreases s.len(),
{
    if s.len() == 0 {
        0
    } else {
        10 * decimal_value(s.drop_last()) + digit_value(s.last())
    }
}

/// The decimal numeral of an integer: that of its absolute value, after a
/// minus sign if it is negative.
pub open spec fn signed_decimal_digits(n: int) -> Seq<char> {
    if n < 0 {
        seq!['-'] + decimal_digits((-n) as nat)
    } else {
        decimal_digits(n as nat)
    }
}

/// Reading a numeral gives back the number it was written for.
pub proof fn lemma_decimal_value_of_digits(n: nat)
    ensures
        decimal_value(decimal_digits(n)) == n,
    decreases n,
{
    if n < 10 {
        assert(decimal_digits(n).drop_last() =~= Seq::<char>::empty());
        assert(decimal_value(decimal_digits(n).drop_last()) == 0);
    } else {
        lemma_decimal_value_of_digits(n / 10);
        assert(decimal_digits(n).drop_last() =~= decimal_digits(n / 10));
    }
}

/// A numeral is never empty and holds digit characters only.
pub proof fn lemma_decimal_digits_are_digits(n: nat)
    ensures
        decimal_digits(n).len() > 0,
        forall|i: int| 0 <= i < decimal_digits(n).len() ==> is_digit(#[trigger] decimal_digits(n)[i]),
    decreases n,
{
    if n >= 10 {
        lemma_decimal_digits_are_digits(n / 10);
    }
}

/// Different numbers have different numerals.
pub proof fn lemma_decimal_digits_injective(a: nat, b: nat)
    requires
        decimal_digits(a) == decimal_digits(b),
    ensures
        a == b,
{
    lemma_decimal_value_of_digits(a);
    lemma_decimal_value_of_digits(b);
}

/// The character of one digit.
fn digit_char(d: u64) -> (c: char)
    requires
        d < 10,
    ensures
        c == digit(d as nat),
{
    if d == 0 {
        '0'
    } else if d == 1 {
        '1'
    } else if d == 2 {
        '2'
    } else if d == 3 {
        '3'
    } else if d == 4 {
        '4'
    } else if d == 5 {
        '5'
    } else if d == 6 {
        '6'
    } else if d == 7 {
        '7'
    } else if d == 8 {
        '8'
    } else {
        '9'
    }
}

/// The digits of `n`, most significant first, after the characters of `sign`.
fn numeral(sign: Vec<char>, n: u64) -> (chars: Vec<char>)
    ensures
        chars@ == sign@ + decimal_digits(n as nat),
{
    // least significant digit first
    let mut low: Vec<char> = Vec::new();
    low.push(digit_char(n % 10));
    let mut rest: u64 = n / 10;
    while rest > 0
        invariant
            low@.len() > 0,
            decimal_digits(n as nat) == (if rest > 0 {
                decimal_digits(rest as nat)
            } else {
                Seq::<char>::empty()
            }) + low@.reverse(),
        decreases rest,
    {
        let ghost before = low@;
        low.push(digit_char(rest % 10));
        assert(low@.reverse() =~= seq![digit((rest % 10) as nat)] + before.reverse());
        assert(decimal_digits(rest as nat) =~= (if rest / 10 > 0 {
            decimal_digits((rest / 10) as nat)
        } else {
            Seq::<char>::empty()
        }) + seq![digit((rest % 10) as nat)]);
        rest = rest / 10;
    }
    let mut chars = sign;
    let mut i: usize = low.len();
    while i > 0
        invariant
            i <= low@.len(),
            chars@ == sign@ + low@.reverse().take(low@.len() - i),
        decreases i,
    {
        i -= 1;
        chars.push(low[i]);
        assert(low@.reverse().take(low@.len() - i) =~= low@.reverse().take(low@.len() - i - 1).push(
            low@[i as int],
        ));
    }
    assert(low@.reverse().take(low@.len() as int) =~= low@.reverse());
    chars
}

/// Writes `n` as a decimal numeral.
pub fn decimal_string(n: usize) -> (s: String)
    ensures
        s@ == decimal_digits(n as nat),
{
    let chars = numeral(Vec::new(), n as u64);
    assert(chars@ =~= decimal_digits(n as nat));
    string_of(chars.as_slice())
}

/// Writes `n` as a decimal numeral, with a minus sign if it is negative.
pub fn signed_decimal_string(n: i32) -> (s: String)
    ensures
        s@ == signed_decimal_digits(n as int),
{
    let wide: i64 = n as i64;
    if wide < 0 {
        let mut sign: Vec<char> = Vec::new();
        sign.push('-');
        let chars = numeral(sign, (-wide) as u64);
        assert(chars@ =~= seq!['-'] + decimal_digits((-n) as nat));
        string_of(chars.as_slice())
    } else {
        let chars = numeral(Vec::new(), wide as u64);
        assert(chars@ =~= decimal_digits(n as nat));
        string_of(chars.as_slice())
    }
}

} // verus!
