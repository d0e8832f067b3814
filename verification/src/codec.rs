//! ASCII-integer codec for the brightness attribute files.
//!
//! Each attribute file holds an unsigned integer rendered in decimal,
//! optionally followed by a single trailing newline. The reader accepts at
//! most 10 bytes (enough for any 32-bit value), strips one optional trailing
//! newline and accumulates the remaining digits by place value; the writer
//! renders a value as plain decimal digits. Both directions are tied to the
//! same mathematical model, so reading back what was written returns the
//! original value.

use vstd::arithmetic::div_mod::{lemma_div_is_ordered_by_denominator, lemma_fundamental_div_mod};
use vstd::prelude::*;

verus! {

/// The byte value of the newline character.
pub const NEWLINE: u8 = 10;

/// True when `b` is the ASCII code of a decimal digit.
pub open spec fn is_digit_byte(b: u8) -> bool {
    48 <= b <= 57
}

/// The number denoted by a sequence of ASCII digit bytes, by place value.
pub open spec fn dec_val(s: Seq<u8>) -> int
    decreases s.len(),
{
    if s.len() == 0 {
        0
    } else {
        dec_val(s.drop_last()) * 10 + (s.last() - 48)
    }
}

/// `s` without one trailing newline, if it ends in one.
pub open spec fn strip_newline(s: Seq<u8>) -> Seq<u8> {
    if s.len() > 0 && s.last() == NEWLINE {
        s.drop_last()
    } else {
        s
    }
}

/// The content the reader assumes of a buffer whose length is acceptable:
/// after stripping one optional trailing newline, at least one byte is left,
/// all of them decimal digits, and the denoted value fits in 32 bits.
pub open spec fn ascii_u32_readable(s: Seq<u8>) -> bool {
    &&& strip_newline(s).len() >= 1
    &&& (forall|i: int| 0 <= i < strip_newline(s).len() ==> is_digit_byte(strip_newline(s)[i]))
    &&& dec_val(strip_newline(s)) <= u32::MAX
}

/// What the reader returns: the denoted value for an acceptable byte count,
/// nothing for an empty or over-long buffer.
pub open spec fn spec_read_ascii_u32(s: Seq<u8>) -> Option<u32> {
    if 1 <= s.len() <= 10 {
        Some(dec_val(strip_newline(s)) as u32)
    } else {
        None
    }
}

/// The decimal digit bytes of a non-negative number, most significant first.
pub open spec fn digits_of(v: int) -> Seq<u8>
    decreases v,
{
    if v < 10 {
        seq![(48 + v) as u8]
    } else {
        digits_of(v / 10).push((48 + v % 10) as u8)
    }
}

/// The value of a digit prefix never exceeds the value of the whole
/// digit sequence, and is never negative.
proof fn lemma_dec_val_take_le(s: Seq<u8>, i: int)
    requires
        0 <= i <= s.len(),
        forall|j: int| 0 <= j < s.len() ==> is_digit_byte(s[j]),
    ensures
        0 <= dec_val(s.take(i)) <= dec_val(s),
    decreases s.len() - i,
{
    lemma_dec_val_nonneg(s.take(i));
    if i < s.len() {
        assert(s.take(i + 1).drop_last() =~= s.take(i));
        assert(dec_val(s.take(i + 1)) == dec_val(s.take(i)) * 10 + (s[i] - 48));
        lemma_dec_val_take_le(s, i + 1);
    } else {
        assert(s.take(i) =~= s);
    }
}

/// A sequence of digit bytes denotes a non-negative number.
proof fn lemma_dec_val_nonneg(s: Seq<u8>)
    requires
        forall|j: int| 0 <= j < s.len() ==> is_digit_byte(s[j]),
    ensures
        dec_val(s) >= 0,
    decreases s.len(),
{
    if s.len() > 0 {
        lemma_dec_val_nonneg(s.drop_last());
    }
}

/// The digit rendering of `v` consists of digit bytes and denotes `v` again.
proof fn lemma_digits_of_val(v: int)
    requires
        v >= 0,
    ensures
        digits_of(v).len() >= 1,
        forall|i: int| 0 <= i < digits_of(v).len() ==> is_digit_byte(#[trigger] digits_of(v)[i]),
        dec_val(digits_of(v)) == v,
    decreases v,
{
    reveal_with_fuel(dec_val, 3);
    reveal_with_fuel(digits_of, 2);
    if v < 10 {
        assert(digits_of(v) =~= seq![(48 + v) as u8]);
        assert(digits_of(v).drop_last() =~= Seq::<u8>::empty());
    } else {
        lemma_fundamental_div_mod(v, 10);
        vstd::arithmetic::div_mod::lemma_mod_division_less_than_divisor(v, 10);
        lemma_digits_of_val(v / 10);
        assert(digits_of(v).drop_last() =~= digits_of(v / 10));
        assert(digits_of(v).last() == (48 + v % 10) as u8);
        assert(dec_val(digits_of(v)) == (v / 10) * 10 + (v % 10));
    }
}

/// Ten to the `n`.
spec fn pow10(n: nat) -> int
    decreases n,
{
    if n == 0 {
        1
    } else {
        10 * pow10((n - 1) as nat)
    }
}

/// A number below ten to the `n` renders as at most `n` digits.
proof fn lemma_digits_of_len(v: int, n: nat)
    requires
        0 <= v < pow10(n),
        n >= 1,
    ensures
        digits_of(v).len() <= n,
    decreases v,
{
    if v >= 10 {
        assert(pow10(n) == 10 * pow10((n - 1) as nat));
        lemma_fundamental_div_mod(v, 10);
        lemma_div_is_ordered_by_denominator(v, 1, 10);
        assert(v / 10 < pow10((n - 1) as nat));
        lemma_digits_of_len(v / 10, (n - 1) as nat);
    }
}

/// Reading back the rendering of a 32-bit value yields the value again,
/// with or without the single optional trailing newline (the newline form
/// needs the rendering to leave room for it in the 10-byte window).
pub proof fn lemma_ascii_round_trip(v: u32)
    ensures
        spec_read_ascii_u32(digits_of(v as int)) == Some(v),
        v < 1000000000 ==> spec_read_ascii_u32(digits_of(v as int).push(NEWLINE)) == Some(v),
{
    lemma_digits_of_val(v as int);
    assert(pow10(10) == 10000000000) by {
        reveal_with_fuel(pow10, 11);
    }
    lemma_digits_of_len(v as int, 10);
    let ds = digits_of(v as int);
    assert(ds.last() != NEWLINE);
    assert(strip_newline(ds) =~= ds);
    if v < 1000000000 {
        assert(pow10(9) == 1000000000) by {
            reveal_with_fuel(pow10, 10);
        }
        lemma_digits_of_len(v as int, 9);
        assert(strip_newline(ds.push(NEWLINE)) =~= ds);
    }
}

/// Parses the bytes read from an attribute file as a 32-bit unsigned
/// integer: an empty or over-long buffer is rejected, one trailing newline
/// is stripped, the remaining digits are accumulated by place value.
pub fn read_ascii_u32(buf: &[u8]) -> (r: Option<u32>)
    requires
        1 <= buf@.len() <= 10 ==> ascii_u32_readable(buf@),
    ensures
        r == spec_read_ascii_u32(buf@),
{
    let n = buf.len();
    if n == 0 || n > 10 {
        return None;
    }
    let end = if buf[n - 1] == NEWLINE {
        n - 1
    } else {
        n
    };
    proof {
        assert(strip_newline(buf@) =~= buf@.take(end as int));
    }
    let ghost digits = strip_newline(buf@);
    let mut value: u32 = 0;
    let mut i: usize = 0;
    while i < end
        invariant
            0 <= i <= end <= n == buf@.len() <= 10,
            ascii_u32_readable(buf@),
            digits == strip_newline(buf@),
            digits =~= buf@.take(end as int),
            value == dec_val(digits.take(i as int)),
        decreases end - i,
    {
        proof {
            assert(digits.take(i as int + 1).drop_last() =~= digits.take(i as int));
            lemma_dec_val_take_le(digits, i as int + 1);
        }
        let d = buf[i] - 48;
        let wide: u64 = value as u64 * 10 + d as u64;
        value = wide as u32;
        i += 1;
    }
    proof {
        assert(digits.take(end as int) =~= digits);
    }
    Some(value)
}

/// Renders a 32-bit value as plain decimal ASCII digits, exactly the bytes
/// a write to an attribute file carries.
pub fn u32_to_ascii(value: u32) -> (r: Vec<u8>)
    ensures
        r@ == digits_of(value as int),
    decreases value,
{
    if value < 10 {
        let mut r: Vec<u8> = Vec::new();
        r.push(48 + value as u8);
        proof {
            assert(r@ =~= digits_of(value as int));
        }
        r
    } else {
        let mut r = u32_to_ascii(value / 10);
        r.push(48 + (value % 10) as u8);
        proof {
            assert(r@ =~= digits_of(value as int));
        }
        r
    }
}

/// Joins an interface root directory and a device name into the device's
/// directory path.
pub fn construct_path(dir: &str, device_name: &str) -> (r: String)
    ensures
        r@ == dir@ + "/"@ + device_name@,
{
    let mut r = dir.to_owned();
    r.append("/");
    r.append(device_name);
    proof {
        assert(r@ =~= dir@ + "/"@ + device_name@);
    }
    r
}

} // verus!
