//! Strings: what the library relies on from `std`, and numerals.

use vstd::prelude::*;

verus! {

/// `str`'s `==`: two strings are equal exactly when they hold the same
/// characters in the same order.
pub assume_specification[ <str as PartialEq>::eq ](a: &str, b: &str) -> (r: bool)
    ensures
        r == (a@ == b@),
;

/// `String::push` appends the character at the end and changes nothing else.
pub assume_specification[ String::push ](s: &mut String, c: char)
    ensures
        final(s)@ == old(s)@.push(c),
;

/// The character of a decimal digit; that of nine for any larger number.
pub open spec fn digit(d: nat) -> char {
    if d == 0 {
        '0'
    } else if d == 1 {
        '1'
    } else if d == 2 {
        '2'
    } else if d == 3 {
        '3'
    } else if d == 4 {
        '4'
    } else if d == 5 {
        '5'
    } else if d == 6 {
        '6'
    } else if d == 7 {
        '7'
    } else if d == 8 {
        '8'
    } else {
        '9'
    }
}

/// The decimal numeral of `n`, without leading zeros.
pub open spec fn decimal(n: nat) -> Seq<char>
    decreases n,
{
    if n < 10 {
        seq![digit(n)]
    } else {
        decimal(n / 10).push(digit(n % 10))
    }
}

/// The decimal numeral of `n`, with a minus sign where `n` is negative.
pub open spec fn signed_decimal(n: int) -> Seq<char> {
    if n < 0 {
        seq!['-'] + decimal((-n) as nat)
    } else {
        decimal(n as nat)
    }
}

/// A number of thousandths as a numeral with two decimal places; the third
/// place is dropped.
pub open spec fn fixed2(thousandths: nat) -> Seq<char> {
    decimal(thousandths / 1000).push('.').push(digit(thousandths / 100 % 10)).push(
        digit(thousandths / 10 % 10),
    )
}

/// Appends `c` to `s`, `n` times.
pub fn push_repeated(s: &mut String, c: char, n: u16)
    ensures
        final(s)@ == old(s)@ + Seq::new(n as nat, |i: int| c),
{
    let mut k: u16 = 0;
    while k < n
        invariant
            k <= n,
            s@ == old(s)@ + Seq::new(k as nat, |i: int| c),
        decreases n - k,
    {
        s.push(c);
        k += 1;
        assert(s@ =~= old(s)@ + Seq::new(k as nat, |i: int| c));
    }
}

/// The character of the decimal digit `d`.
pub fn digit_char(d: u8) -> (c: char)
    ensures
        c == digit(d as nat),
{
    match d {
        0 => '0',
        1 => '1',
        2 => '2',
        3 => '3',
        4 => '4',
        5 => '5',
        6 => '6',
        7 => '7',
        8 => '8',
        _ => '9',
    }
}

/// Appends the decimal numeral of `n`.
pub fn push_decimal(s: &mut String, n: u64)
    ensures
        final(s)@ == old(s)@ + decimal(n as nat),
    decreases n,
{
    if n >= 10 {
        push_decimal(s, n / 10);
    }
    s.push(digit_char((n % 10) as u8));
}

/// Appends the decimal numeral of `n`, with a minus sign where `n` is
/// negative.
pub fn push_signed(s: &mut String, n: i32)
    ensures
        final(s)@ == old(s)@ + signed_decimal(n as int),
{
    if n < 0 {
        s.push('-');
        push_decimal(s, (-(n as i64)) as u64);
    } else {
        push_decimal(s, n as u64);
    }
}

/// Appends a number of thousandths with two decimal places.
pub fn push_fixed2(s: &mut String, thousandths: u64)
    ensures
        final(s)@ == old(s)@ + fixed2(thousandths as nat),
{
    push_decimal(s, thousandths / 1000);
    s.push('.');
    s.push(digit_char((thousandths / 100 % 10) as u8));
    s.push(digit_char((thousandths / 10 % 10) as u8));
}

} // verus!
