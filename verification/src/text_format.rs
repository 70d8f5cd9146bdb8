//! Building blocks for writing records out as text: decimal and
//! hexadecimal numbers, truth values and shortened strings.

use vstd::prelude::*;
use vstd::utf8::encode_utf8;

verus! {

/// The character of a decimal digit.
pub open spec fn digit_char(digit: int) -> char {
    (0x30 + digit) as char
}

/// The decimal digits of a number, most significant first, without leading
/// zeros.
pub open spec fn decimal_text(value: nat) -> Seq<char>
    decreases value,
{
    if value < 10 {
        seq![digit_char(value as int)]
    } else {
        decimal_text(value / 10).push(digit_char((value % 10) as int))
    }
}

/// The decimal digits of a number, filled up with leading zeros to at least
/// `width` characters.
pub open spec fn zero_padded(value: nat, width: nat) -> Seq<char> {
    let digits = decimal_text(value);
    if digits.len() >= width {
        digits
    } else {
        Seq::new((width - digits.len()) as nat, |i: int| '0') + digits
    }
}

/// The characters of a list of decimal digits that is stored least
/// significant digit first.
pub open spec fn reversed_digits(digits: Seq<u8>) -> Seq<char> {
    Seq::new(digits.len(), |i: int| digit_char(digits[digits.len() - 1 - i] as int))
}

/// Appends `value` in decimal, filled up with leading zeros to at least
/// `width` characters.
pub fn push_zero_padded(out: &mut String, value: u64, width: usize)
    ensures
        final(out)@ == old(out)@ + zero_padded(value as nat, width as nat),
{
    let mut digits: Vec<u8> = Vec::new();
    digits.push((value % 10) as u8);
    let mut rest: u64 = value / 10;
    assert(reversed_digits(digits@) =~= seq![digit_char((value % 10) as int)]);
    assert(Seq::<char>::empty() + reversed_digits(digits@) =~= reversed_digits(digits@));
    while rest > 0
        invariant
            digits@.len() >= 1,
            forall|i: int| 0 <= i < digits@.len() ==> digits@[i] < 10,
            decimal_text(value as nat) == (if rest > 0 {
                decimal_text(rest as nat)
            } else {
                Seq::<char>::empty()
            }) + reversed_digits(digits@),
        decreases rest,
    {
        let ghost before = digits@;
        let digit: u8 = (rest % 10) as u8;
        digits.push(digit);
        proof {
            assert(reversed_digits(digits@) =~= seq![digit_char(digit as int)] + reversed_digits(
                before,
            ));
            let head = if rest / 10 > 0 {
                decimal_text((rest / 10) as nat)
            } else {
                Seq::<char>::empty()
            };
            assert(decimal_text(rest as nat) =~= head + seq![digit_char(digit as int)]);
            assert(head + reversed_digits(digits@) =~= decimal_text(rest as nat)
                + reversed_digits(before));
        }
        rest = rest / 10;
    }
    assert(Seq::<char>::empty() + reversed_digits(digits@) =~= reversed_digits(digits@));
    let count: usize = digits.len();
    let ghost start = out@;
    let mut filled: usize = count;
    assert(start + Seq::new(0nat, |i: int| '0') =~= start);
    while filled < width
        invariant
            count == digits@.len(),
            count <= filled,
            filled <= width || filled == count,
            out@ == start + Seq::new((filled - count) as nat, |i: int| '0'),
        decreases width - filled,
    {
        out.push('0');
        filled += 1;
        assert(out@ =~= start + Seq::new((filled - count) as nat, |i: int| '0'));
    }
    let ghost padded = out@;
    let mut left: usize = count;
    assert(padded + reversed_digits(digits@).subrange(0, 0) =~= padded);
    while left > 0
        invariant
            count == digits@.len(),
            left <= count,
            forall|i: int| 0 <= i < digits@.len() ==> digits@[i] < 10,
            out@ == padded + reversed_digits(digits@).subrange(0, count - left),
        decreases left,
    {
        left -= 1;
        let digit: u8 = digits[left];
        out.push((0x30 + digit) as char);
        assert(out@ =~= padded + reversed_digits(digits@).subrange(0, count - left));
    }
    assert(reversed_digits(digits@).subrange(0, count as int) =~= reversed_digits(digits@));
    assert(out@ =~= old(out)@ + zero_padded(value as nat, width as nat));
}

/// Appends `value` in decimal.
pub fn push_decimal(out: &mut String, value: u64)
    ensures
        final(out)@ == old(out)@ + decimal_text(value as nat),
{
    push_zero_padded(out, value, 0);
}

/// The character of a hexadecimal digit, in upper case.
pub open spec fn hex_digit_char(digit: int) -> char {
    if digit < 10 {
        (0x30 + digit) as char
    } else {
        (0x41 + digit - 10) as char
    }
}

/// A 16-bit number written as four hexadecimal digits in upper case.
pub open spec fn hex4_text(value: u16) -> Seq<char> {
    seq![
        hex_digit_char(value as int / 0x1000),
        hex_digit_char((value as int / 0x100) % 0x10),
        hex_digit_char((value as int / 0x10) % 0x10),
        hex_digit_char(value as int % 0x10),
    ]
}

/// Returns the character of a hexadecimal digit.
fn hex_digit(digit: u16) -> (c: char)
    requires
        digit < 16,
    ensures
        c == hex_digit_char(digit as int),
{
    if digit < 10 {
        (0x30 + digit as u8) as char
    } else {
        (0x41 + (digit as u8 - 10)) as char
    }
}

/// An 8-bit number written as two hexadecimal digits in upper case.
pub open spec fn hex2_text(value: u8) -> Seq<char> {
    seq![hex_digit_char(value as int / 0x10), hex_digit_char(value as int % 0x10)]
}

/// Appends `value` as two hexadecimal digits in upper case.
pub fn push_hex2(out: &mut String, value: u8)
    ensures
        final(out)@ == old(out)@ + hex2_text(value),
{
    out.push(hex_digit((value / 0x10) as u16));
    out.push(hex_digit((value % 0x10) as u16));
    assert(out@ =~= old(out)@ + hex2_text(value));
}

/// Appends `value` as four hexadecimal digits in upper case.
pub fn push_hex4(out: &mut String, value: u16)
    ensures
        final(out)@ == old(out)@ + hex4_text(value),
{
    out.push(hex_digit(value / 0x1000));
    out.push(hex_digit((value / 0x100) % 0x10));
    out.push(hex_digit((value / 0x10) % 0x10));
    out.push(hex_digit(value % 0x10));
    assert(out@ =~= old(out)@ + hex4_text(value));
}

/// A truth value written as `true` or `false`.
pub open spec fn bool_text(value: bool) -> Seq<char> {
    if value {
        "true"@
    } else {
        "false"@
    }
}

/// Appends a truth value as `true` or `false`.
pub fn push_bool(out: &mut String, value: bool)
    ensures
        final(out)@ == old(out)@ + bool_text(value),
{
    if value {
        out.append("true");
    } else {
        out.append("false");
    }
}

/// The number of bytes that a text takes up in UTF-8, as the machine counts
/// it.
pub open spec fn byte_length(text: Seq<char>) -> usize {
    encode_utf8(text).len() as usize
}

/// A text cut down for display: a text of more than `limit` bytes is
/// replaced by its first `limit` characters, or all of them where there are
/// fewer, followed by three dots.
pub open spec fn shortened_text(text: Seq<char>, limit: usize) -> Seq<char> {
    if byte_length(text) > limit {
        text.subrange(
            0,
            if limit < text.len() {
                limit as int
            } else {
                text.len() as int
            },
        ) + "..."@
    } else {
        text
    }
}

/// Appends `text`, cut down to `limit` characters where it is longer than
/// `limit` bytes.
pub fn push_shortened(out: &mut String, text: &str, limit: usize)
    ensures
        final(out)@ == old(out)@ + shortened_text(text@, limit),
{
    if text.len() > limit {
        let count: usize = text.unicode_len();
        let keep: usize = if limit < count {
            limit
        } else {
            count
        };
        out.append(text.substring_char(0, keep));
        out.append("...");
        assert(out@ =~= old(out)@ + shortened_text(text@, limit));
    } else {
        out.append(text);
    }
}

} // verus!
