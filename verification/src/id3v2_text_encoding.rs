//! Text encodings of ID3v2 frames: the encoding byte, the decoders for
//! ISO-8859-1, UTF-16 and UTF-8, and the splitting of terminated strings.

use crate::errors::ErrorKind;
use crate::id3v2_tools::be_u16_value;
use crate::std_text::{is_scalar_value, utf8_lossy_string, utf8_lossy_text};
use vstd::prelude::*;
use vstd::slice::slice_subrange;

verus! {

/// The text encoding that the first byte of an encoded frame body names.
#[derive(Clone, Copy, Debug, PartialEq, Eq, Structural)]
pub enum TextEncoding {
    /// Byte 0: ISO-8859-1, terminated by one zero byte.
    Iso88591,
    /// Byte 1: UTF-16 with a byte-order mark, terminated by two zero bytes.
    Utf16Bom,
    /// Byte 2: UTF-16 big-endian without a byte-order mark (ID3v2.4).
    Utf16Be,
    /// Byte 3: UTF-8, terminated by one zero byte (ID3v2.4).
    Utf8,
}

impl TextEncoding {
    /// The encoding that an encoding byte names, if any.
    pub open spec fn of_byte(byte: u8) -> Option<TextEncoding> {
        if byte == 0 {
            Some(TextEncoding::Iso88591)
        } else if byte == 1 {
            Some(TextEncoding::Utf16Bom)
        } else if byte == 2 {
            Some(TextEncoding::Utf16Be)
        } else if byte == 3 {
            Some(TextEncoding::Utf8)
        } else {
            None
        }
    }

    /// The encoding byte of this encoding.
    pub open spec fn byte_value(self) -> u8 {
        match self {
            TextEncoding::Iso88591 => 0,
            TextEncoding::Utf16Bom => 1,
            TextEncoding::Utf16Be => 2,
            TextEncoding::Utf8 => 3,
        }
    }

    /// The per-version validity table: ISO-8859-1 and UTF-16 with a
    /// byte-order mark are legal under versions 3 and 4; UTF-16 big-endian
    /// without a mark and UTF-8 are legal under version 4 only. No encoding
    /// is legal under any other major version.
    pub open spec fn valid_for_version(self, version_major: u8) -> bool {
        match self {
            TextEncoding::Iso88591 => version_major == 3 || version_major == 4,
            TextEncoding::Utf16Bom => version_major == 3 || version_major == 4,
            TextEncoding::Utf16Be => version_major == 4,
            TextEncoding::Utf8 => version_major == 4,
        }
    }

    /// The number of zero bytes that terminate a string: two for the UTF-16
    /// encodings, one otherwise.
    pub open spec fn unit_width(self) -> int {
        match self {
            TextEncoding::Utf16Bom => 2,
            TextEncoding::Utf16Be => 2,
            _ => 1,
        }
    }

    /// The conventional name of this encoding.
    pub open spec fn name_text(self) -> Seq<char> {
        match self {
            TextEncoding::Iso88591 => "ISO-8859-1"@,
            TextEncoding::Utf16Bom => "UTF-16 with BOM"@,
            TextEncoding::Utf16Be => "UTF-16BE"@,
            TextEncoding::Utf8 => "UTF-8"@,
        }
    }

    /// Reads an encoding byte. Any value above 3 is rejected.
    pub fn from_byte(byte: u8) -> (encoding: Result<TextEncoding, ErrorKind>)
        ensures
            encoding == (match TextEncoding::of_byte(byte) {
                Some(e) => Ok::<TextEncoding, ErrorKind>(e),
                None => Err::<TextEncoding, ErrorKind>(ErrorKind::UnsupportedEncoding),
            }),
    {
        if byte == 0 {
            Ok(TextEncoding::Iso88591)
        } else if byte == 1 {
            Ok(TextEncoding::Utf16Bom)
        } else if byte == 2 {
            Ok(TextEncoding::Utf16Be)
        } else if byte == 3 {
            Ok(TextEncoding::Utf8)
        } else {
            Err(ErrorKind::UnsupportedEncoding)
        }
    }

    /// Returns the encoding byte of this encoding.
    pub fn to_byte(&self) -> (byte: u8)
        ensures
            byte == self.byte_value(),
            TextEncoding::of_byte(byte) == Some(*self),
    {
        match self {
            TextEncoding::Iso88591 => 0,
            TextEncoding::Utf16Bom => 1,
            TextEncoding::Utf16Be => 2,
            TextEncoding::Utf8 => 3,
        }
    }

    /// Whether the given major version allows this encoding.
    pub fn is_valid_for_version(&self, version_major: u8) -> (valid: bool)
        ensures
            valid == self.valid_for_version(version_major),
    {
        match self {
            TextEncoding::Iso88591 => version_major == 3 || version_major == 4,
            TextEncoding::Utf16Bom => version_major == 3 || version_major == 4,
            TextEncoding::Utf16Be => version_major == 4,
            TextEncoding::Utf8 => version_major == 4,
        }
    }

    /// Returns the number of zero bytes that terminate a string.
    pub fn terminator_len(&self) -> (width: usize)
        ensures
            width == self.unit_width(),
            width == 1 || width == 2,
    {
        match self {
            TextEncoding::Utf16Bom => 2,
            TextEncoding::Utf16Be => 2,
            _ => 1,
        }
    }

    /// Returns the conventional name of this encoding.
    pub fn name(&self) -> (name: &'static str)
        ensures
            name@ == self.name_text(),
    {
        match self {
            TextEncoding::Iso88591 => "ISO-8859-1",
            TextEncoding::Utf16Bom => "UTF-16 with BOM",
            TextEncoding::Utf16Be => "UTF-16BE",
            TextEncoding::Utf8 => "UTF-8",
        }
    }
}

/// ISO-8859-1 text: every byte is the code point of one character.
pub open spec fn latin1_text(bytes: Seq<u8>) -> Seq<char> {
    Seq::new(bytes.len(), |i: int| bytes[i] as char)
}

/// The 16-bit code units that `bytes` holds in the given byte order. An odd
/// trailing byte belongs to no unit.
pub open spec fn utf16_units(bytes: Seq<u8>, big_endian: bool) -> Seq<u16> {
    Seq::new(
        (bytes.len() / 2) as nat,
        |i: int|
            if big_endian {
                be_u16_value(bytes[2 * i], bytes[2 * i + 1])
            } else {
                be_u16_value(bytes[2 * i + 1], bytes[2 * i])
            },
    )
}

/// True for the code units U+D800 to U+DBFF, which open a surrogate pair.
pub open spec fn is_high_surrogate(unit: u16) -> bool {
    0xD800 <= unit && unit <= 0xDBFF
}

/// True for the code units U+DC00 to U+DFFF, which close a surrogate pair.
pub open spec fn is_low_surrogate(unit: u16) -> bool {
    0xDC00 <= unit && unit <= 0xDFFF
}

/// The code point that a surrogate pair stands for.
pub open spec fn surrogate_pair_code(high: u16, low: u16) -> u32 {
    (0x10000 + (high - 0xD800) * 0x400 + (low - 0xDC00)) as u32
}

/// The character with the given code point.
pub open spec fn code_char(code: u32) -> char {
    code as char
}

/// The text that a sequence of UTF-16 code units stands for. A high
/// surrogate followed by a low one is one character; any other surrogate is
/// replaced by U+FFFD; every other unit is the character with that code
/// point.
pub open spec fn utf16_text(units: Seq<u16>) -> Seq<char>
    decreases units.len(),
{
    if units.len() == 0 {
        Seq::<char>::empty()
    } else if is_high_surrogate(units[0]) && units.len() >= 2 && is_low_surrogate(units[1]) {
        seq![code_char(surrogate_pair_code(units[0], units[1]))] + utf16_text(units.skip(2))
    } else if is_high_surrogate(units[0]) || is_low_surrogate(units[0]) {
        seq![code_char(0xFFFD)] + utf16_text(units.skip(1))
    } else {
        seq![code_char(units[0] as u32)] + utf16_text(units.skip(1))
    }
}

/// UTF-16 text that announces its byte order: `FF FE` selects little-endian,
/// `FE FF` big-endian, and the mark itself is not part of the text. Without
/// a mark the bytes are read as big-endian.
pub open spec fn utf16_bom_text(bytes: Seq<u8>) -> Seq<char> {
    if bytes.len() >= 2 && bytes[0] == 0xFF && bytes[1] == 0xFE {
        utf16_text(utf16_units(bytes.skip(2), false))
    } else if bytes.len() >= 2 && bytes[0] == 0xFE && bytes[1] == 0xFF {
        utf16_text(utf16_units(bytes.skip(2), true))
    } else {
        utf16_text(utf16_units(bytes, true))
    }
}

/// The text that `bytes` stands for under the given encoding.
pub open spec fn decoded_text(bytes: Seq<u8>, encoding: TextEncoding) -> Seq<char> {
    match encoding {
        TextEncoding::Iso88591 => latin1_text(bytes),
        TextEncoding::Utf16Bom => utf16_bom_text(bytes),
        TextEncoding::Utf16Be => utf16_text(utf16_units(bytes, true)),
        TextEncoding::Utf8 => utf8_lossy_text(bytes),
    }
}

/// True when a terminator of the given width starts at `pos`.
pub open spec fn terminator_at(bytes: Seq<u8>, pos: int, width: int) -> bool {
    if width == 2 {
        0 <= pos && pos + 2 <= bytes.len() && bytes[pos] == 0 && bytes[pos + 1] == 0
    } else {
        0 <= pos && pos + 1 <= bytes.len() && bytes[pos] == 0
    }
}

/// The position of the first terminator at `from` or behind it, looking only
/// at positions that are a whole number of units away from `from`.
pub open spec fn terminator_from(bytes: Seq<u8>, from: int, width: int) -> Option<int>
    decreases bytes.len() - from,
{
    if from < 0 || width < 1 || from + width > bytes.len() {
        None
    } else if terminator_at(bytes, from, width) {
        Some(from)
    } else {
        terminator_from(bytes, from + width, width)
    }
}

/// The text of the first string in `bytes`: everything before the first
/// terminator, or all of `bytes` when there is none.
pub open spec fn first_text(bytes: Seq<u8>, encoding: TextEncoding) -> Seq<char> {
    match terminator_from(bytes, 0, encoding.unit_width()) {
        Some(end) => decoded_text(bytes.subrange(0, end), encoding),
        None => decoded_text(bytes, encoding),
    }
}

/// The strings that `bytes` holds from `pos` on: each terminator ends one
/// string, and what follows the last terminator is one more string unless it
/// is shorter than a unit.
pub open spec fn text_values_from(bytes: Seq<u8>, pos: int, encoding: TextEncoding) -> Seq<
    Seq<char>,
>
    decreases bytes.len() - pos,
{
    let width = encoding.unit_width();
    if pos < 0 || pos + width > bytes.len() {
        Seq::<Seq<char>>::empty()
    } else {
        match terminator_from(bytes, pos, width) {
            Some(end) => if pos <= end && end + width <= bytes.len() {
                seq![decoded_text(bytes.subrange(pos, end), encoding)] + text_values_from(
                    bytes,
                    end + width,
                    encoding,
                )
            } else {
                Seq::<Seq<char>>::empty()
            },
            None => seq![decoded_text(bytes.subrange(pos, bytes.len() as int), encoding)],
        }
    }
}

/// All strings that `bytes` holds.
pub open spec fn text_values(bytes: Seq<u8>, encoding: TextEncoding) -> Seq<Seq<char>> {
    text_values_from(bytes, 0, encoding)
}

/// A terminated string followed by a second string: the text before the
/// first terminator and the first string behind it. Nothing when `bytes`
/// holds no terminator.
pub open spec fn terminated_pair(bytes: Seq<u8>, encoding: TextEncoding) -> Option<
    (Seq<char>, Seq<char>),
> {
    match terminator_from(bytes, 0, encoding.unit_width()) {
        Some(end) => Some(
            (
                decoded_text(bytes.subrange(0, end), encoding),
                first_text(bytes.skip(end + encoding.unit_width()), encoding),
            ),
        ),
        None => None,
    }
}

/// A terminator that `terminator_from` finds lies inside the data, a whole
/// number of units behind `from`, and no earlier unit is a terminator.
pub proof fn lemma_terminator_from(bytes: Seq<u8>, from: int, width: int)
    requires
        width == 1 || width == 2,
    ensures
        terminator_from(bytes, from, width) matches Some(end) ==> from <= end && end + width
            <= bytes.len() && terminator_at(bytes, end, width) && (end - from) % width == 0
            && forall|p: int|
            from <= p < end && (p - from) % width == 0 ==> !#[trigger] terminator_at(
                bytes,
                p,
                width,
            ),
        terminator_from(bytes, from, width) is None ==> forall|p: int|
            0 <= from <= p && (p - from) % width == 0 ==> !#[trigger] terminator_at(
                bytes,
                p,
                width,
            ),
    decreases bytes.len() - from,
{
    if from < 0 || from + width > bytes.len() {
    } else if terminator_at(bytes, from, width) {
    } else {
        lemma_terminator_from(bytes, from + width, width);
        if terminator_from(bytes, from, width) is Some {
            let end = terminator_from(bytes, from, width)->Some_0;
            assert forall|p: int| from <= p < end && (p - from) % width == 0 implies !terminator_at(
                bytes,
                p,
                width,
            ) by {
                if p != from {
                    assert((p - (from + width)) % width == 0);
                }
            }
        } else {
            assert forall|p: int| 0 <= from <= p && (p - from) % width == 0 implies !terminator_at(
                bytes,
                p,
                width,
            ) by {
                if p != from {
                    assert((p - (from + width)) % width == 0);
                }
            }
        }
    }
}

/// Where `bytes` holds any string at all, the first of its strings is its
/// first text.
pub proof fn lemma_first_value_is_first_text(bytes: Seq<u8>, encoding: TextEncoding)
    ensures
        text_values(bytes, encoding).len() > 0 ==> text_values(bytes, encoding)[0] == first_text(
            bytes,
            encoding,
        ),
        text_values(bytes, encoding).len() == 0 <==> bytes.len() < encoding.unit_width(),
{
    let width = encoding.unit_width();
    lemma_terminator_from(bytes, 0, width);
    if width <= bytes.len() {
        match terminator_from(bytes, 0, width) {
            Some(end) => {
                let rest = text_values_from(bytes, end + width, encoding);
                assert(text_values(bytes, encoding) =~= seq![
                    decoded_text(bytes.subrange(0, end), encoding),
                ] + rest);
            },
            None => {
                assert(bytes.subrange(0, bytes.len() as int) =~= bytes);
            },
        }
    }
}

/// Finds the first terminator of `encoding` at `from` or behind it, looking
/// only at positions that are a whole number of units away from `from`.
pub fn find_terminator(data: &[u8], from: usize, encoding: TextEncoding) -> (found: Option<usize>)
    ensures
        found matches Some(end) ==> terminator_from(data@, from as int, encoding.unit_width())
            == Some(end as int) && from <= end && end + encoding.unit_width() <= data@.len(),
        found is None ==> terminator_from(data@, from as int, encoding.unit_width()) is None,
{
    let width: usize = encoding.terminator_len();
    let len: usize = data.len();
    if from > len {
        return None;
    }
    let mut pos: usize = from;
    while width <= len - pos
        invariant
            len == data@.len(),
            from <= pos <= len,
            width == encoding.unit_width(),
            width == 1 || width == 2,
            terminator_from(data@, pos as int, width as int) == terminator_from(
                data@,
                from as int,
                width as int,
            ),
        decreases len - pos,
    {
        let hit: bool = if width == 2 {
            data[pos] == 0 && data[pos + 1] == 0
        } else {
            data[pos] == 0
        };
        if hit {
            return Some(pos);
        }
        pos += width;
    }
    None
}

/// Decodes ISO-8859-1 text: every byte becomes the character with the same
/// code point.
pub fn decode_iso88591_string(data: &[u8]) -> (text: String)
    ensures
        text@ == latin1_text(data@),
{
    let mut out = String::new();
    let mut i: usize = 0;
    while i < data.len()
        invariant
            i <= data@.len(),
            out@ == latin1_text(data@.subrange(0, i as int)),
        decreases data@.len() - i,
    {
        out.push(data[i] as char);
        i += 1;
        assert(out@ =~= latin1_text(data@.subrange(0, i as int)));
    }
    assert(data@.subrange(0, i as int) =~= data@);
    out
}

/// Reads the code unit with the given index.
fn utf16_unit_at(data: &[u8], index: usize, big_endian: bool) -> (unit: u16)
    requires
        2 * index + 2 <= data@.len(),
    ensures
        unit == utf16_units(data@, big_endian)[index as int],
{
    let len: usize = data.len();
    if big_endian {
        (data[2 * index] as u16) << 8 | (data[2 * index + 1] as u16)
    } else {
        (data[2 * index + 1] as u16) << 8 | (data[2 * index] as u16)
    }
}

/// Decodes UTF-16 text in the given byte order, replacing unpaired
/// surrogates by U+FFFD.
pub fn decode_utf16(data: &[u8], big_endian: bool) -> (text: String)
    ensures
        text@ == utf16_text(utf16_units(data@, big_endian)),
{
    let count: usize = data.len() / 2;
    let ghost units = utf16_units(data@, big_endian);
    let mut out = String::new();
    let mut k: usize = 0;
    assert(units.skip(0) =~= units);
    while k < count
        invariant
            count == data@.len() / 2,
            units == utf16_units(data@, big_endian),
            k <= count,
            out@ + utf16_text(units.skip(k as int)) == utf16_text(units),
        decreases count - k,
    {
        let ghost rest = units.skip(k as int);
        let ghost before = out@;
        let unit: u16 = utf16_unit_at(data, k, big_endian);
        assert(rest[0] == unit);
        let mut paired: bool = false;
        let mut low: u16 = 0;
        if 0xD800 <= unit && unit <= 0xDBFF && k + 1 < count {
            low = utf16_unit_at(data, k + 1, big_endian);
            assert(rest[1] == low);
            paired = 0xDC00 <= low && low <= 0xDFFF;
        }
        if paired {
            let code: u32 = 0x10000 + ((unit - 0xD800) as u32) * 0x400 + ((low - 0xDC00) as u32);
            assert(code == surrogate_pair_code(unit, low));
            assert(is_scalar_value(code));
            let ch: char = match char::from_u32(code) {
                Some(c) => c,
                None => '\u{FFFD}',
            };
            out.push(ch);
            assert(rest.skip(2) =~= units.skip(k + 2));
            assert(out@ + utf16_text(rest.skip(2)) =~= before + utf16_text(rest));
            k += 2;
        } else {
            let code: u32 = if 0xD800 <= unit && unit <= 0xDFFF {
                0xFFFD
            } else {
                unit as u32
            };
            assert(is_scalar_value(code));
            let ch: char = match char::from_u32(code) {
                Some(c) => c,
                None => '\u{FFFD}',
            };
            out.push(ch);
            assert(rest.skip(1) =~= units.skip(k + 1));
            assert(out@ + utf16_text(rest.skip(1)) =~= before + utf16_text(rest));
            k += 1;
        }
    }
    assert(units.skip(k as int) =~= Seq::<u16>::empty());
    assert(out@ + Seq::<char>::empty() =~= out@);
    out
}

/// Decodes `data` under the given encoding.
pub fn decode_text(data: &[u8], encoding: TextEncoding) -> (text: String)
    ensures
        text@ == decoded_text(data@, encoding),
{
    match encoding {
        TextEncoding::Iso88591 => decode_iso88591_string(data),
        TextEncoding::Utf8 => utf8_lossy_string(data),
        TextEncoding::Utf16Be => decode_utf16(data, true),
        TextEncoding::Utf16Bom => {
            if data.len() >= 2 && data[0] == 0xFF && data[1] == 0xFE {
                let body = slice_subrange(data, 2, data.len());
                assert(body@ =~= data@.skip(2));
                decode_utf16(body, false)
            } else if data.len() >= 2 && data[0] == 0xFE && data[1] == 0xFF {
                let body = slice_subrange(data, 2, data.len());
                assert(body@ =~= data@.skip(2));
                decode_utf16(body, true)
            } else {
                decode_utf16(data, true)
            }
        },
    }
}

/// The texts of a list of strings, in order.
pub open spec fn texts_of(strings: Seq<String>) -> Seq<Seq<char>> {
    Seq::new(strings.len(), |i: int| strings[i]@)
}

/// Decodes the first string in `data`: everything before the first
/// terminator, or all of `data` when there is none.
pub fn decode_first_text(data: &[u8], encoding: TextEncoding) -> (text: String)
    ensures
        text@ == first_text(data@, encoding),
{
    match find_terminator(data, 0, encoding) {
        Some(end) => decode_text(slice_subrange(data, 0, end), encoding),
        None => decode_text(data, encoding),
    }
}

/// Decodes every string in `data`. Each terminator ends one string; what
/// follows the last terminator is one more string unless it is shorter than
/// a unit of the encoding.
pub fn decode_text_values(data: &[u8], encoding: TextEncoding) -> (values: Vec<String>)
    ensures
        texts_of(values@) == text_values(data@, encoding),
{
    let width: usize = encoding.terminator_len();
    let mut values: Vec<String> = Vec::new();
    let mut pos: usize = 0;
    let mut open: bool = true;
    assert(texts_of(values@) =~= Seq::<Seq<char>>::empty());
    while open && width <= data.len() - pos
        invariant
            pos <= data@.len(),
            width == encoding.unit_width(),
            width == 1 || width == 2,
            open ==> texts_of(values@) + text_values_from(data@, pos as int, encoding)
                == text_values(data@, encoding),
            !open ==> texts_of(values@) == text_values(data@, encoding),
        decreases (if open { 1int } else { 0int }), data@.len() - pos,
    {
        let ghost before = texts_of(values@);
        match find_terminator(data, pos, encoding) {
            Some(end) => {
                let piece = decode_text(slice_subrange(data, pos, end), encoding);
                values.push(piece);
                assert(texts_of(values@) =~= before.push(piece@));
                assert(before.push(piece@) + text_values_from(data@, end + width, encoding)
                    =~= before + text_values_from(data@, pos as int, encoding));
                pos = end + width;
            },
            None => {
                let piece = decode_text(slice_subrange(data, pos, data.len()), encoding);
                values.push(piece);
                assert(texts_of(values@) =~= before.push(piece@));
                assert(before.push(piece@) =~= before + text_values_from(
                    data@,
                    pos as int,
                    encoding,
                ));
                open = false;
            },
        }
    }
    assert(texts_of(values@) + Seq::<Seq<char>>::empty() =~= texts_of(values@));
    values
}

/// Splits `data` into a terminated string and the string that follows it.
/// Fails with `MissingTerminator` when `data` holds no terminator.
pub fn split_terminated_text(data: &[u8], encoding: TextEncoding) -> (pair: Result<
    (String, String),
    ErrorKind,
>)
    ensures
        match pair {
            Ok((first, second)) => terminated_pair(data@, encoding) == Some((first@, second@)),
            Err(kind) => kind == ErrorKind::MissingTerminator && terminated_pair(data@, encoding)
                is None,
        },
{
    let width: usize = encoding.terminator_len();
    match find_terminator(data, 0, encoding) {
        Some(end) => {
            let first = decode_text(slice_subrange(data, 0, end), encoding);
            let len: usize = data.len();
            let rest = slice_subrange(data, end + width, len);
            assert(rest@ =~= data@.skip(end + width));
            let second = decode_first_text(rest, encoding);
            Ok((first, second))
        },
        None => Err(ErrorKind::MissingTerminator),
    }
}

/// Copies a list of strings.
pub fn clone_strings(strings: &Vec<String>) -> (copy: Vec<String>)
    ensures
        texts_of(copy@) == texts_of(strings@),
{
    let count: usize = strings.len();
    let mut copy: Vec<String> = Vec::new();
    let mut i: usize = 0;
    while i < count
        invariant
            count == strings@.len(),
            i <= count,
            copy@.len() == i,
            forall|k: int| 0 <= k < i ==> copy@[k]@ == strings@[k]@,
        decreases count - i,
    {
        copy.push(strings[i].clone());
        i += 1;
    }
    assert(texts_of(copy@) =~= texts_of(strings@));
    copy
}

} // verus!
