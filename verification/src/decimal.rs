//! Decimal rendering of unsigned integers, used by the heartbeat
//! endpoint, with a proof that rendering is invertible.

use vstd::prelude::*;

verus! {

/// The digit character for a value below ten.
pub open spec fn spec_digit(d: nat) -> char
    recommends
        d < 10,
{
    if d == 0 {
        '0'
    } else if d == 1 {
        '1'
    } else if d == 2 {
        '2'
    } else if d == 3 {
        '3'
    } else if d == 4 {
        '4'
    } else if d == 5 {
        '5'
    } else if d == 6 {
        '6'
    } else if d == 7 {
        '7'
    } else if d == 8 {
        '8'
    } else {
        '9'
    }
}

/// The usual decimal rendering of `n`: no sign, no leading zeros
/// except for the single digit of zero itself.
pub open spec fn spec_decimal(n: nat) -> Seq<char>
    decreases n,
{
    if n < 10 {
        seq![spec_digit(n)]
    } else {
        spec_decimal(n / 10) + seq![spec_digit(n % 10)]
    }
}

/// The numeric value of a sequence of decimal digit characters.
pub open spec fn spec_decimal_value(s: Seq<char>) -> nat
    decreases s.len(),
{
    if s.len() == 0 {
        0
    } else {
        spec_decimal_value(s.drop_last()) * 10 + spec_digit_value(s.last())
    }
}

/// The value of a single digit character; ten for anything else.
pub open spec fn spec_digit_value(c: char) -> nat {
    if c == '0' {
        0
    } else if c == '1' {
        1
    } else if c == '2' {
        2
    } else if c == '3' {
        3
    } else if c == '4' {
        4
    } else if c == '5' {
        5
    } else if c == '6' {
        6
    } else if c == '7' {
        7
    } else if c == '8' {
        8
    } else if c == '9' {
        9
    } else {
        10
    }
}

/// Rendering a number and reading the digits back returns the number:
/// the decimal text of `n` denotes `n` itself.
pub proof fn lemma_decimal_round_trip(n: nat)
    ensures
        spec_decimal_value(spec_decimal(n)) == n,
    decreases n,
{
    let s = spec_decimal(n);
    assert(s.len() >= 1);
    assert(spec_decimal_value(s) == spec_decimal_value(s.drop_last()) * 10 + spec_digit_value(
        s.last(),
    ));
    if n < 10 {
        assert(s.drop_last() =~= Seq::<char>::empty());
        assert(spec_decimal_value(Seq::<char>::empty()) == 0);
        assert(s.last() == spec_digit(n));
        assert(spec_digit_value(spec_digit(n)) == n);
    } else {
        lemma_decimal_round_trip(n / 10);
        assert(s.drop_last() =~= spec_decimal(n / 10));
        assert(s.last() == spec_digit(n % 10));
        assert(spec_digit_value(spec_digit(n % 10)) == n % 10);
        assert(n / 10 * 10 + n % 10 == n) by {
            vstd::arithmetic::div_mod::lemma_fundamental_div_mod(n as int, 10);
        }
    }
}

/// Two renderings taken in order denote non-decreasing integers
/// whenever the numbers rendered are non-decreasing — in particular,
/// two heartbeat bodies built from a non-decreasing clock.
pub proof fn lemma_decimal_monotone(n1: nat, n2: nat)
    requires
        n1 <= n2,
    ensures
        spec_decimal_value(spec_decimal(n1)) <= spec_decimal_value(spec_decimal(n2)),
{
    lemma_decimal_round_trip(n1);
    lemma_decimal_round_trip(n2);
}

fn digit_char(d: u64) -> (c: char)
    requires
        d < 10,
    ensures
        c == spec_digit(d as nat),
{
    if d == 0 {
        '0'
    } else if d == 1 {
        '1'
    } else if d == 2 {
        '2'
    } else if d == 3 {
        '3'
    } else if d == 4 {
        '4'
    } else if d == 5 {
        '5'
    } else if d == 6 {
        '6'
    } else if d == 7 {
        '7'
    } else if d == 8 {
        '8'
    } else {
        '9'
    }
}

fn push_decimal(n: u64, out: &mut Vec<char>)
    ensures
        final(out)@ == old(out)@ + spec_decimal(n as nat),
    decreases n,
{
    if n < 10 {
        out.push(digit_char(n));
        assert(out@ =~= old(out)@ + spec_decimal(n as nat));
    } else {
        push_decimal(n / 10, out);
        out.push(digit_char(n % 10));
        assert(out@ =~= old(out)@ + spec_decimal(n as nat));
    }
}

/// The decimal text of `n`.
pub fn u64_to_decimal(n: u64) -> (r: String)
    ensures
        r@ == spec_decimal(n as nat),
{
    let mut out: Vec<char> = Vec::new();
    push_decimal(n, &mut out);
    assert(out@ =~= spec_decimal(n as nat));
    crate::strutil::chars_to_string(&out)
}

} // verus!
