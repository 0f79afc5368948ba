//! Device identifiers: universally-unique 128-bit values, carried on
//! the wire in the canonical hyphenated text form (8-4-4-4-12 hex
//! digits). Parsing is total and exact: a segment is accepted if and
//! only if it matches that grammar.

use vstd::prelude::*;
use vstd::arithmetic::div_mod::lemma_fundamental_div_mod;
use vstd::arithmetic::mul::lemma_mul_inequality;
use vstd::arithmetic::power::pow;
use crate::strutil::{chars_to_string, hex_char, spec_hex_char};

verus! {

/// Whether `c` is an ASCII hexadecimal digit, either case.
pub open spec fn spec_is_hex_digit(c: char) -> bool {
    (48 <= c as int && c as int <= 57)  // '0' ..= '9'
    || (97 <= c as int && c as int <= 102)  // 'a' ..= 'f'
    || (65 <= c as int && c as int <= 70)  // 'A' ..= 'F'
}

/// The value of a hexadecimal digit character; sixteen for anything
/// else.
pub open spec fn spec_hex_digit_value(c: char) -> int {
    if 48 <= c as int && c as int <= 57 {
        c as int - 48
    } else if 97 <= c as int && c as int <= 102 {
        c as int - 97 + 10
    } else if 65 <= c as int && c as int <= 70 {
        c as int - 65 + 10
    } else {
        16
    }
}

/// The value of a big-endian sequence of hexadecimal digit characters.
pub open spec fn spec_hex_value(s: Seq<char>) -> int
    decreases s.len(),
{
    if s.len() == 0 {
        0
    } else {
        spec_hex_value(s.drop_last()) * 16 + spec_hex_digit_value(s.last())
    }
}

/// The thirty-two digit characters of a hyphenated identifier, with
/// the four hyphens removed.
pub open spec fn spec_uuid_digits(s: Seq<char>) -> Seq<char>
    recommends
        s.len() == 36,
{
    s.subrange(0, 8) + s.subrange(9, 13) + s.subrange(14, 18) + s.subrange(19, 23) + s.subrange(
        24,
        36,
    )
}

/// The hyphenated identifier grammar: exactly thirty-six characters,
/// hyphens at positions 8, 13, 18 and 23, hexadecimal digits
/// everywhere else.
pub open spec fn spec_is_uuid(s: Seq<char>) -> bool {
    &&& s.len() == 36
    &&& s[8] == '-'
    &&& s[13] == '-'
    &&& s[18] == '-'
    &&& s[23] == '-'
    &&& forall|i: int|
        0 <= i < 36 && i != 8 && i != 13 && i != 18 && i != 23 ==> spec_is_hex_digit(#[trigger] s[i])
}

/// The 128-bit value a well-formed identifier denotes.
pub open spec fn spec_uuid_value(s: Seq<char>) -> int {
    spec_hex_value(spec_uuid_digits(s))
}

/// A device identifier: a universally-unique 128-bit value, required
/// on every survey and status lookup.
#[derive(Debug, Clone, Copy, PartialEq, Eq, Structural)]
pub struct DeviceId {
    /// The identifier's 128-bit value.
    pub value: u128,
}

/// The digits of a well-formed identifier are all hexadecimal, and
/// there are thirty-two of them.
proof fn lemma_uuid_digits_hex(s: Seq<char>)
    requires
        spec_is_uuid(s),
    ensures
        spec_uuid_digits(s).len() == 32,
        forall|j: int| 0 <= j < 32 ==> spec_is_hex_digit(#[trigger] spec_uuid_digits(s)[j]),
{
    assert forall|j: int| 0 <= j < 32 implies spec_is_hex_digit(
        #[trigger] spec_uuid_digits(s)[j],
    ) by {
        if j < 8 {
            assert(spec_uuid_digits(s)[j] == s[j]);
        } else if j < 12 {
            assert(spec_uuid_digits(s)[j] == s[j + 1]);
        } else if j < 16 {
            assert(spec_uuid_digits(s)[j] == s[j + 2]);
        } else if j < 20 {
            assert(spec_uuid_digits(s)[j] == s[j + 3]);
        } else {
            assert(spec_uuid_digits(s)[j] == s[j + 4]);
        }
    }
}

/// A sequence of hexadecimal digits denotes a value below sixteen to
/// the power of its length.
proof fn lemma_hex_value_bound(s: Seq<char>)
    requires
        forall|j: int| 0 <= j < s.len() ==> spec_is_hex_digit(#[trigger] s[j]),
    ensures
        0 <= spec_hex_value(s) < pow(16, s.len() as nat),
    decreases s.len(),
{
    reveal(pow);
    if s.len() == 0 {
    } else {
        assert(forall|j: int|
            0 <= j < s.drop_last().len() ==> spec_is_hex_digit(#[trigger] s.drop_last()[j]));
        lemma_hex_value_bound(s.drop_last());
        assert(spec_is_hex_digit(s.last()));
        assert(spec_hex_digit_value(s.last()) < 16);
        lemma_mul_inequality(
            spec_hex_value(s.drop_last()),
            pow(16, s.drop_last().len() as nat) - 1,
            16,
        );
        assert(pow(16, s.len() as nat) == 16 * pow(16, s.drop_last().len() as nat));
    }
}

/// The fixed-width hexadecimal rendering of `v`: exactly `w` digits,
/// lower case, with leading zeros.
pub open spec fn spec_hex_fixed(v: int, w: nat) -> Seq<char>
    decreases w,
{
    if w == 0 {
        Seq::<char>::empty()
    } else {
        spec_hex_fixed(v / 16, (w - 1) as nat) + seq![spec_hex_char(v % 16)]
    }
}

/// A well-formed identifier denotes a value that fits in 128 bits.
pub proof fn lemma_uuid_value_bound(s: Seq<char>)
    requires
        spec_is_uuid(s),
    ensures
        0 <= spec_uuid_value(s) < 0x100000000000000000000000000000000,
{
    lemma_uuid_digits_hex(s);
    lemma_hex_value_bound(spec_uuid_digits(s));
    assert(pow(16, 32) == 0x100000000000000000000000000000000) by {
        reveal_with_fuel(pow, 33);
    }
}

/// The canonical hyphenated text of the 128-bit value `v`: its
/// thirty-two lower-case hexadecimal digits in the 8-4-4-4-12 grouping.
pub open spec fn spec_hyphenated(v: int) -> Seq<char> {
    let d = spec_hex_fixed(v, 32);
    d.subrange(0, 8) + seq!['-'] + d.subrange(8, 12) + seq!['-'] + d.subrange(12, 16) + seq!['-']
        + d.subrange(16, 20) + seq!['-'] + d.subrange(20, 32)
}

/// A fixed-width rendering has its width, and every character of it
/// is a hexadecimal digit.
proof fn lemma_hex_fixed_shape(v: int, w: nat)
    requires
        0 <= v,
    ensures
        spec_hex_fixed(v, w).len() == w,
        forall|j: int| 0 <= j < w ==> spec_is_hex_digit(#[trigger] spec_hex_fixed(v, w)[j]),
    decreases w,
{
    if w != 0 {
        lemma_hex_fixed_shape(v / 16, (w - 1) as nat);
        assert(spec_is_hex_digit(spec_hex_char(v % 16)));
        assert(forall|j: int|
            0 <= j < w - 1 ==> spec_hex_fixed(v, w)[j] == spec_hex_fixed(v / 16, (w - 1) as nat)[j]);
        assert(spec_hex_fixed(v, w)[w - 1] == spec_hex_char(v % 16));
    }
}

/// Reading a fixed-width rendering back gives the value rendered.
proof fn lemma_hex_fixed_value(v: int, w: nat)
    requires
        0 <= v < pow(16, w),
    ensures
        spec_hex_value(spec_hex_fixed(v, w)) == v,
    decreases w,
{
    lemma_hex_fixed_shape(v, w);
    if w == 0 {
        reveal(pow);
        assert(v == 0);
    } else {
        reveal(pow);
        lemma_fundamental_div_mod(v, 16);
        assert(v / 16 < pow(16, (w - 1) as nat)) by {
            if v / 16 >= pow(16, (w - 1) as nat) {
                lemma_mul_inequality(pow(16, (w - 1) as nat), v / 16, 16);
            }
        }
        lemma_hex_fixed_value(v / 16, (w - 1) as nat);
        let s = spec_hex_fixed(v, w);
        assert(s.drop_last() =~= spec_hex_fixed(v / 16, (w - 1) as nat));
        assert(s.last() == spec_hex_char(v % 16));
        assert(spec_hex_digit_value(spec_hex_char(v % 16)) == v % 16);
    }
}

/// The canonical text of a 128-bit value is a well-formed identifier
/// and denotes that value.
pub proof fn lemma_hyphenated_well_formed(v: int)
    requires
        0 <= v < 0x100000000000000000000000000000000,
    ensures
        spec_is_uuid(spec_hyphenated(v)),
        spec_uuid_value(spec_hyphenated(v)) == v,
{
    lemma_hex_fixed_shape(v, 32);
    let d = spec_hex_fixed(v, 32);
    let s = spec_hyphenated(v);
    assert(s.len() == 36);
    assert(s[8] == '-');
    assert(s[13] == '-');
    assert(s[18] == '-');
    assert(s[23] == '-');
    assert forall|i: int|
        0 <= i < 36 && i != 8 && i != 13 && i != 18 && i != 23 implies spec_is_hex_digit(
        #[trigger] s[i],
    ) by {
        if i < 8 {
            assert(s[i] == d[i]);
        } else if i < 13 {
            assert(s[i] == d[i - 1]);
        } else if i < 18 {
            assert(s[i] == d[i - 2]);
        } else if i < 23 {
            assert(s[i] == d[i - 3]);
        } else {
            assert(s[i] == d[i - 4]);
        }
    }
    assert(spec_uuid_digits(s) =~= d) by {
        assert forall|j: int| 0 <= j < 32 implies spec_uuid_digits(s)[j] == d[j] by {
            if j < 8 {
                assert(spec_uuid_digits(s)[j] == s[j]);
                assert(s[j] == d[j]);
            } else if j < 12 {
                assert(spec_uuid_digits(s)[j] == s[j + 1]);
                assert(s[j + 1] == d[j]);
            } else if j < 16 {
                assert(spec_uuid_digits(s)[j] == s[j + 2]);
                assert(s[j + 2] == d[j]);
            } else if j < 20 {
                assert(spec_uuid_digits(s)[j] == s[j + 3]);
                assert(s[j + 3] == d[j]);
            } else {
                assert(spec_uuid_digits(s)[j] == s[j + 4]);
                assert(s[j + 4] == d[j]);
            }
        }
    }
    assert(pow(16, 32) == 0x100000000000000000000000000000000) by {
        reveal_with_fuel(pow, 33);
    }
    lemma_hex_fixed_value(v, 32);
}

fn push_hex_fixed(v: u128, w: usize, out: &mut Vec<char>)
    ensures
        final(out)@ == old(out)@ + spec_hex_fixed(v as int, w as nat),
    decreases w,
{
    if w == 0 {
        assert(out@ =~= old(out)@ + spec_hex_fixed(v as int, 0));
    } else {
        push_hex_fixed(v / 16, w - 1, out);
        out.push(hex_char((v % 16) as u32));
        assert(out@ =~= old(out)@ + spec_hex_fixed(v as int, w as nat));
    }
}

fn push_range(src: &Vec<char>, from: usize, to: usize, out: &mut Vec<char>)
    requires
        from <= to && to <= src@.len(),
    ensures
        final(out)@ == old(out)@ + src@.subrange(from as int, to as int),
{
    let ghost entry = out@;
    let mut i: usize = from;
    while i < to
        invariant
            from <= i <= to,
            to <= src@.len(),
            out@ == entry + src@.subrange(from as int, i as int),
        decreases to - i,
    {
        out.push(src[i]);
        assert(out@ =~= entry + src@.subrange(from as int, i + 1 as int));
        i += 1;
    }
}

impl DeviceId {
    /// Renders the identifier in its canonical hyphenated text form:
    /// thirty-two lower-case hexadecimal digits grouped 8-4-4-4-12.
    /// Parsing the result gives the identifier back.
    pub fn hyphenated(&self) -> (r: String)
        ensures
            r@ == spec_hyphenated(self.value as int),
            spec_is_uuid(r@),
            spec_uuid_value(r@) == self.value as int,
    {
        let mut digits: Vec<char> = Vec::new();
        push_hex_fixed(self.value, 32, &mut digits);
        proof {
            lemma_hex_fixed_shape(self.value as int, 32);
        }
        let mut out: Vec<char> = Vec::new();
        push_range(&digits, 0, 8, &mut out);
        out.push('-');
        push_range(&digits, 8, 12, &mut out);
        out.push('-');
        push_range(&digits, 12, 16, &mut out);
        out.push('-');
        push_range(&digits, 16, 20, &mut out);
        out.push('-');
        push_range(&digits, 20, 32, &mut out);
        assert(out@ =~= spec_hyphenated(self.value as int));
        proof {
            lemma_hyphenated_well_formed(self.value as int);
        }
        chars_to_string(&out)
    }
}

fn is_hex_digit(c: char) -> (r: bool)
    ensures
        r == spec_is_hex_digit(c),
{
    let u = c as u32;
    (48 <= u && u <= 57) || (97 <= u && u <= 102) || (65 <= u && u <= 70)
}

fn hex_digit_value(c: char) -> (d: u8)
    requires
        spec_is_hex_digit(c),
    ensures
        d as int == spec_hex_digit_value(c),
{
    let u = c as u32;
    if 48 <= u && u <= 57 {
        (u - 48) as u8
    } else if 97 <= u && u <= 102 {
        (u - 97 + 10) as u8
    } else {
        (u - 65 + 10) as u8
    }
}

/// Reads the characters of `s` at positions `from ..= to - 1` and, when
/// they are all hexadecimal digits, appends them to `digits`.
fn read_hex_group(s: &str, from: usize, to: usize, digits: &mut Vec<char>) -> (ok: bool)
    requires
        from <= to && to <= s@.len(),
    ensures
        ok <==> (forall|j: int| from <= j < to ==> spec_is_hex_digit(#[trigger] s@[j])),
        ok ==> final(digits)@ == old(digits)@ + s@.subrange(from as int, to as int),
{
    let ghost entry = digits@;
    let mut i: usize = from;
    while i < to
        invariant
            from <= i <= to,
            to <= s@.len(),
            digits@ == entry + s@.subrange(from as int, i as int),
            forall|j: int| from <= j < i ==> spec_is_hex_digit(#[trigger] s@[j]),
        decreases to - i,
    {
        let c = s.get_char(i);
        if !is_hex_digit(c) {
            return false;
        }
        digits.push(c);
        assert(digits@ =~= entry + s@.subrange(from as int, i + 1 as int));
        i += 1;
    }
    true
}

/// Parses a device identifier from its canonical hyphenated text
/// form. Returns the identifier exactly when the text matches the
/// grammar, and `None` for everything else.
pub fn parse_device_id(s: &str) -> (r: Option<DeviceId>)
    ensures
        r is Some <==> spec_is_uuid(s@),
        r is Some ==> r->Some_0.value as int == spec_uuid_value(s@),
{
    if s.unicode_len() != 36 {
        return None;
    }
    let mut digits: Vec<char> = Vec::new();
    if !read_hex_group(s, 0, 8, &mut digits) {
        return None;
    }
    if s.get_char(8) != '-' {
        return None;
    }
    if !read_hex_group(s, 9, 13, &mut digits) {
        return None;
    }
    if s.get_char(13) != '-' {
        return None;
    }
    if !read_hex_group(s, 14, 18, &mut digits) {
        return None;
    }
    if s.get_char(18) != '-' {
        return None;
    }
    if !read_hex_group(s, 19, 23, &mut digits) {
        return None;
    }
    if s.get_char(23) != '-' {
        return None;
    }
    if !read_hex_group(s, 24, 36, &mut digits) {
        return None;
    }
    assert(spec_is_uuid(s@)) by {
        assert(forall|i: int|
            0 <= i < 36 && i != 8 && i != 13 && i != 18 && i != 23 ==> spec_is_hex_digit(
                #[trigger] s@[i],
            ));
    }
    assert(digits@ =~= spec_uuid_digits(s@));
    proof {
        lemma_uuid_digits_hex(s@);
    }
    proof {
        assert(pow(16, 32) == 0x100000000000000000000000000000000) by {
            reveal_with_fuel(pow, 33);
        }
    }
    let mut acc: u128 = 0;
    let mut k: usize = 0;
    while k < 32
        invariant
            k <= 32,
            digits@.len() == 32,
            forall|j: int| 0 <= j < 32 ==> spec_is_hex_digit(#[trigger] digits@[j]),
            acc as int == spec_hex_value(digits@.take(k as int)),
            pow(16, 32) == 0x100000000000000000000000000000000,
        decreases 32 - k,
    {
        proof {
            assert(forall|j: int|
                0 <= j < digits@.take(k as int).len() ==> spec_is_hex_digit(
                    #[trigger] digits@.take(k as int)[j],
                ));
            lemma_hex_value_bound(digits@.take(k as int));
            reveal(pow);
            vstd::arithmetic::power::lemma_pow_increases(16, (k + 1) as nat, 32);
            lemma_mul_inequality(acc as int, pow(16, k as nat) - 1, 16);
            assert(pow(16, (k + 1) as nat) == 16 * pow(16, k as nat));
            assert(acc as int * 16 + 15 < 0x100000000000000000000000000000000);
        }
        let d = hex_digit_value(digits[k]);
        acc = acc * 16 + (d as u128);
        proof {
            assert(digits@.take(k + 1 as int).drop_last() =~= digits@.take(k as int));
            assert(digits@.take(k + 1 as int).last() == digits@[k as int]);
        }
        k += 1;
    }
    assert(digits@.take(32) =~= digits@);
    Some(DeviceId { value: acc })
}

} // verus!
