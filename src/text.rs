//! Character-level helpers shared by the formatting and scanning code.

use vstd::prelude::*;

verus! {

/// The lowercase hexadecimal digit for a value below sixteen.
pub open spec fn hex_char(d: nat) -> char {
    if d < 10 {
        ((48 + d) as u8) as char
    } else {
        ((97 + d - 10) as u8) as char
    }
}

/// The decimal digits of `n`, most significant first, with no leading zero
/// (zero itself is the single digit `0`).
pub open spec fn decimal_of(n: nat) -> Seq<char>
    decreases n,
{
    if n < 10 {
        seq![((48 + n) as u8) as char]
    } else {
        decimal_of(n / 10).push(((48 + n % 10) as u8) as char)
    }
}

/// The lowercase hexadecimal digits of `n`, most significant first, with no
/// leading zero (zero itself is the single digit `0`).
pub open spec fn lower_hex_of(n: nat) -> Seq<char>
    decreases n,
{
    if n < 16 {
        seq![hex_char(n)]
    } else {
        lower_hex_of(n / 16).push(hex_char(n % 16))
    }
}

/// Relies on `String::push`: appends one character.
#[verifier::external_body]
pub(crate) fn push_char(s: &mut String, c: char)
    ensures
        final(s)@ == old(s)@.push(c),
{
    s.push(c);
}

/// Relies on `String::push_str`: appends the characters of `t`.
#[verifier::external_body]
pub(crate) fn push_str(s: &mut String, t: &str)
    ensures
        final(s)@ == old(s)@ + t@,
{
    s.push_str(t);
}

/// The lowercase hexadecimal digit for `d`.
pub fn hex_digit(d: u8) -> (c: char)
    requires
        d < 16,
    ensures
        c == hex_char(d as nat),
{
    if d < 10 {
        (48u8 + d) as char
    } else {
        (97u8 + (d - 10)) as char
    }
}

/// The decimal digits of `n`.
pub fn decimal_digits(n: u64) -> (r: String)
    ensures
        r@ == decimal_of(n as nat),
{
    let mut digits: Vec<char> = Vec::new();
    let mut m: u64 = n;
    while m >= 10
        invariant
            decimal_of(n as nat) == decimal_of(m as nat) + digits@.reverse(),
        decreases m,
    {
        let d: u64 = m % 10;
        proof {
            assert(decimal_of(m as nat) == decimal_of((m / 10) as nat).push(
                ((48 + (m % 10) as nat) as u8) as char,
            ));
        }
        digits.push((48u64 + d) as u8 as char);
        m = m / 10;
        assert(decimal_of(n as nat) =~= decimal_of(m as nat) + digits@.reverse());
    }
    digits.push((48u64 + m) as u8 as char);
    let mut r = String::new();
    let mut i: usize = digits.len();
    while i > 0
        invariant
            i <= digits.len(),
            r@ =~= digits@.subrange(i as int, digits.len() as int).reverse(),
        decreases i,
    {
        i = i - 1;
        push_char(&mut r, digits[i]);
        assert(r@ =~= digits@.subrange(i as int, digits.len() as int).reverse());
    }
    assert(r@ =~= decimal_of(n as nat));
    r
}

/// The lowercase hexadecimal digits of `n`.
pub fn lower_hex_digits(n: u128) -> (r: String)
    ensures
        r@ == lower_hex_of(n as nat),
{
    let mut digits: Vec<char> = Vec::new();
    let mut m: u128 = n;
    while m >= 16
        invariant
            lower_hex_of(n as nat) == lower_hex_of(m as nat) + digits@.reverse(),
        decreases m,
    {
        let d = hex_digit((m % 16) as u8);
        digits.push(d);
        m = m / 16;
        assert(lower_hex_of(n as nat) =~= lower_hex_of(m as nat) + digits@.reverse());
    }
    digits.push(hex_digit(m as u8));
    let mut r = String::new();
    let mut i: usize = digits.len();
    while i > 0
        invariant
            i <= digits.len(),
            r@ =~= digits@.subrange(i as int, digits.len() as int).reverse(),
        decreases i,
    {
        i = i - 1;
        push_char(&mut r, digits[i]);
        assert(r@ =~= digits@.subrange(i as int, digits.len() as int).reverse());
    }
    assert(r@ =~= lower_hex_of(n as nat));
    r
}

} // verus!
