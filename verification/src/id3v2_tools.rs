//! Byte-level helpers shared by the ID3v2 decoders: synchsafe integers,
//! big-endian fields, unsynchronization and format detection.

use crate::errors::ErrorKind;
use vstd::prelude::*;

verus! {

/// The 28-bit value that four synchsafe bytes stand for: seven bits per byte,
/// most significant byte first. The high bit of each byte is ignored.
pub open spec fn synchsafe_value(b0: u8, b1: u8, b2: u8, b3: u8) -> u32 {
    ((b0 & 0x7F) as u32) << 21 | ((b1 & 0x7F) as u32) << 14 | ((b2 & 0x7F) as u32) << 7 | ((b3
        & 0x7F) as u32)
}

/// The value of the synchsafe integer at the start of `bytes`; zero when
/// fewer than four bytes are present.
pub open spec fn synchsafe_prefix_value(bytes: Seq<u8>) -> u32 {
    if bytes.len() >= 4 {
        synchsafe_value(bytes[0], bytes[1], bytes[2], bytes[3])
    } else {
        0
    }
}

/// The four synchsafe bytes of `value`, most significant first. Bits 28 and
/// above of `value` are dropped.
pub open spec fn synchsafe_bytes(value: u32) -> Seq<u8> {
    seq![
        ((value >> 21) & 0x7F) as u8,
        ((value >> 14) & 0x7F) as u8,
        ((value >> 7) & 0x7F) as u8,
        (value & 0x7F) as u8,
    ]
}

/// True when the high bit of every one of the four bytes is clear.
pub open spec fn is_synchsafe(b0: u8, b1: u8, b2: u8, b3: u8) -> bool {
    b0 & 0x80 == 0 && b1 & 0x80 == 0 && b2 & 0x80 == 0 && b3 & 0x80 == 0
}

/// The value of four bytes read as a big-endian 32-bit integer.
pub open spec fn be_u32_value(b0: u8, b1: u8, b2: u8, b3: u8) -> u32 {
    (b0 as u32) << 24 | (b1 as u32) << 16 | (b2 as u32) << 8 | (b3 as u32)
}

/// The value of two bytes read as a big-endian 16-bit integer.
pub open spec fn be_u16_value(b0: u8, b1: u8) -> u16 {
    (b0 as u16) << 8 | (b1 as u16)
}

/// The big-endian 32-bit integer stored at `pos` in `data`.
pub open spec fn be_u32_at(data: Seq<u8>, pos: int) -> u32 {
    be_u32_value(data[pos], data[pos + 1], data[pos + 2], data[pos + 3])
}

/// The synchsafe integer stored at `pos` in `data`.
pub open spec fn synchsafe_at(data: Seq<u8>, pos: int) -> u32 {
    synchsafe_value(data[pos], data[pos + 1], data[pos + 2], data[pos + 3])
}

/// Decodes a synchsafe integer from the first four bytes of `bytes`.
/// Fewer than four bytes decode to zero.
pub fn decode_synchsafe_int(bytes: &[u8]) -> (value: u32)
    ensures
        value == synchsafe_prefix_value(bytes@),
        value < 0x1000_0000,
{
    if bytes.len() >= 4 {
        let b0: u8 = bytes[0];
        let b1: u8 = bytes[1];
        let b2: u8 = bytes[2];
        let b3: u8 = bytes[3];
        proof {
            lemma_synchsafe_bound(b0, b1, b2, b3);
        }
        ((b0 & 0x7F) as u32) << 21 | ((b1 & 0x7F) as u32) << 14 | ((b2 & 0x7F) as u32) << 7 | ((b3
            & 0x7F) as u32)
    } else {
        0
    }
}

/// Encodes the low 28 bits of `value` as four synchsafe bytes.
pub fn encode_synchsafe_int(value: u32) -> (bytes: [u8; 4])
    ensures
        bytes@ == synchsafe_bytes(value),
{
    let bytes: [u8; 4] = [
        ((value >> 21) & 0x7F) as u8,
        ((value >> 14) & 0x7F) as u8,
        ((value >> 7) & 0x7F) as u8,
        (value & 0x7F) as u8,
    ];
    assert(bytes@ =~= synchsafe_bytes(value));
    bytes
}

/// Reads the big-endian 32-bit integer at `pos`.
pub fn read_be_u32(data: &[u8], pos: usize) -> (value: u32)
    requires
        pos + 4 <= data@.len(),
    ensures
        value == be_u32_at(data@, pos as int),
{
    (data[pos] as u32) << 24 | (data[pos + 1] as u32) << 16 | (data[pos + 2] as u32) << 8 | (
    data[pos + 3] as u32)
}

/// Reads the big-endian 16-bit integer at `pos`.
pub fn read_be_u16(data: &[u8], pos: usize) -> (value: u16)
    requires
        pos + 2 <= data@.len(),
    ensures
        value == be_u16_value(data@[pos as int], data@[pos + 1]),
{
    (data[pos] as u16) << 8 | (data[pos + 1] as u16)
}

/// Reads the synchsafe integer at `pos`.
pub fn read_synchsafe(data: &[u8], pos: usize) -> (value: u32)
    requires
        pos + 4 <= data@.len(),
    ensures
        value == synchsafe_at(data@, pos as int),
        value < 0x1000_0000,
{
    let b0: u8 = data[pos];
    let b1: u8 = data[pos + 1];
    let b2: u8 = data[pos + 2];
    let b3: u8 = data[pos + 3];
    proof {
        lemma_synchsafe_bound(b0, b1, b2, b3);
    }
    ((b0 & 0x7F) as u32) << 21 | ((b1 & 0x7F) as u32) << 14 | ((b2 & 0x7F) as u32) << 7 | ((b3
        & 0x7F) as u32)
}

/// A synchsafe value never needs more than 28 bits.
pub proof fn lemma_synchsafe_bound(b0: u8, b1: u8, b2: u8, b3: u8)
    ensures
        synchsafe_value(b0, b1, b2, b3) < 0x1000_0000,
{
    assert((((b0 & 0x7F) as u32) << 21 | ((b1 & 0x7F) as u32) << 14 | ((b2 & 0x7F) as u32) << 7
        | ((b3 & 0x7F) as u32)) < 0x1000_0000u32) by (bit_vector);
}

/// A synchsafe value is the base-128 number whose digits are the low seven
/// bits of the four bytes.
pub proof fn lemma_synchsafe_digits(b0: u8, b1: u8, b2: u8, b3: u8)
    ensures
        synchsafe_value(b0, b1, b2, b3) == (b0 % 128) * 0x20_0000 + (b1 % 128) * 0x4000 + (b2
            % 128) * 0x80 + (b3 % 128),
{
    assert((((b0 & 0x7F) as u32) << 21 | ((b1 & 0x7F) as u32) << 14 | ((b2 & 0x7F) as u32) << 7
        | ((b3 & 0x7F) as u32)) == ((b0 % 128) as u32) * 0x20_0000 + ((b1 % 128) as u32) * 0x4000
        + ((b2 % 128) as u32) * 0x80 + ((b3 % 128) as u32)) by (bit_vector);
}

/// A big-endian value is the base-256 number whose digits are the four bytes.
pub proof fn lemma_be_u32_digits(b0: u8, b1: u8, b2: u8, b3: u8)
    ensures
        be_u32_value(b0, b1, b2, b3) == b0 * 0x100_0000 + b1 * 0x1_0000 + b2 * 0x100 + b3,
{
    assert(((b0 as u32) << 24 | (b1 as u32) << 16 | (b2 as u32) << 8 | (b3 as u32)) == (b0 as u64)
        * 0x100_0000 + (b1 as u64) * 0x1_0000 + (b2 as u64) * 0x100 + (b3 as u64))
        by (bit_vector);
}

/// Encoding a decoded synchsafe integer gives back the four bytes it was
/// decoded from, provided each of them has its high bit clear.
pub proof fn lemma_synchsafe_round_trip(bytes: Seq<u8>)
    requires
        bytes.len() == 4,
        is_synchsafe(bytes[0], bytes[1], bytes[2], bytes[3]),
    ensures
        synchsafe_bytes(synchsafe_prefix_value(bytes)) == bytes,
{
    let b0 = bytes[0];
    let b1 = bytes[1];
    let b2 = bytes[2];
    let b3 = bytes[3];
    let v = synchsafe_value(b0, b1, b2, b3);
    assert(((v >> 21) & 0x7F) as u8 == b0 && ((v >> 14) & 0x7F) as u8 == b1 && ((v >> 7)
        & 0x7F) as u8 == b2 && (v & 0x7F) as u8 == b3) by (bit_vector)
        requires
            v == (((b0 & 0x7F) as u32) << 21 | ((b1 & 0x7F) as u32) << 14 | ((b2 & 0x7F) as u32)
                << 7 | ((b3 & 0x7F) as u32)),
            b0 & 0x80 == 0,
            b1 & 0x80 == 0,
            b2 & 0x80 == 0,
            b3 & 0x80 == 0,
    ;
    assert(synchsafe_bytes(v) =~= bytes);
}

/// Decoding an encoded value gives back its low 28 bits.
pub proof fn lemma_synchsafe_encode_decode(value: u32)
    ensures
        synchsafe_prefix_value(synchsafe_bytes(value)) == value & 0x0FFF_FFFF,
        value < 0x1000_0000 ==> synchsafe_prefix_value(synchsafe_bytes(value)) == value,
{
    let s = synchsafe_bytes(value);
    let b0 = ((value >> 21) & 0x7F) as u8;
    let b1 = ((value >> 14) & 0x7F) as u8;
    let b2 = ((value >> 7) & 0x7F) as u8;
    let b3 = (value & 0x7F) as u8;
    assert(s[0] == b0 && s[1] == b1 && s[2] == b2 && s[3] == b3);
    assert((((b0 & 0x7F) as u32) << 21 | ((b1 & 0x7F) as u32) << 14 | ((b2 & 0x7F) as u32) << 7
        | ((b3 & 0x7F) as u32)) == value & 0x0FFF_FFFF) by (bit_vector)
        requires
            b0 == ((value >> 21) & 0x7F) as u8,
            b1 == ((value >> 14) & 0x7F) as u8,
            b2 == ((value >> 7) & 0x7F) as u8,
            b3 == (value & 0x7F) as u8,
    ;
    assert(value < 0x1000_0000 ==> value & 0x0FFF_FFFF == value) by (bit_vector);
}

/// The bytes that remain after unsynchronization is undone: scanning from the
/// left, a `0x00` that directly follows a `0xFF` is dropped and the scan
/// resumes behind it; every other byte is kept.
pub open spec fn without_unsynchronization(data: Seq<u8>) -> Seq<u8>
    decreases data.len(),
{
    if data.len() == 0 {
        Seq::<u8>::empty()
    } else if data[0] == 0xFF && data.len() >= 2 && data[1] == 0x00 {
        seq![0xFFu8] + without_unsynchronization(data.skip(2))
    } else {
        seq![data[0]] + without_unsynchronization(data.skip(1))
    }
}

/// True when some `0xFF` in `data` is directly followed by `0x00`.
pub open spec fn has_stuffed_zero(data: Seq<u8>) -> bool {
    exists|i: int| 0 <= i && i + 1 < data.len() && #[trigger] data[i] == 0xFF && data[i + 1] == 0x00
}

/// True when some `0xFF` in `data` is directly followed by two `0x00` bytes.
pub open spec fn has_doubly_stuffed_zero(data: Seq<u8>) -> bool {
    exists|i: int|
        0 <= i && i + 2 < data.len() && #[trigger] data[i] == 0xFF && data[i + 1] == 0x00 && data[i
            + 2] == 0x00
}

/// Removes the zero bytes that unsynchronization inserted (`0xFF 0x00`
/// becomes `0xFF`).
pub fn remove_unsynchronization(data: &[u8]) -> (result: Vec<u8>)
    ensures
        result@ == without_unsynchronization(data@),
{
    let mut result: Vec<u8> = Vec::new();
    let mut i: usize = 0;
    assert(data@.skip(0) =~= data@);
    while i < data.len()
        invariant
            i <= data.len(),
            result@ + without_unsynchronization(data@.skip(i as int))
                == without_unsynchronization(data@),
        decreases data.len() - i,
    {
        let ghost rest = data@.skip(i as int);
        let ghost before = result@;
        result.push(data[i]);
        if data[i] == 0xFF && i + 1 < data.len() && data[i + 1] == 0x00 {
            assert(rest.skip(2) =~= data@.skip(i + 2));
            assert(result@ + without_unsynchronization(rest.skip(2)) =~= before
                + without_unsynchronization(rest));
            i += 2;
        } else {
            assert(rest.skip(1) =~= data@.skip(i + 1));
            assert(result@ + without_unsynchronization(rest.skip(1)) =~= before
                + without_unsynchronization(rest));
            i += 1;
        }
    }
    assert(data@.skip(i as int) =~= Seq::<u8>::empty());
    assert(result@ + Seq::<u8>::empty() =~= result@);
    result
}

/// Undoing unsynchronization never lengthens the data and keeps its first
/// byte.
pub proof fn lemma_without_unsynchronization_shape(data: Seq<u8>)
    ensures
        without_unsynchronization(data).len() <= data.len(),
        data.len() > 0 ==> without_unsynchronization(data).len() > 0
            && without_unsynchronization(data)[0] == data[0],
    decreases data.len(),
{
    if data.len() == 0 {
    } else if data[0] == 0xFF && data.len() >= 2 && data[1] == 0x00 {
        lemma_without_unsynchronization_shape(data.skip(2));
    } else {
        lemma_without_unsynchronization_shape(data.skip(1));
    }
}

/// Data in which no `0xFF` is directly followed by `0x00` is left unchanged.
/// In particular this holds of data without any `0xFF` byte.
pub proof fn lemma_unsynchronization_absent(data: Seq<u8>)
    requires
        !has_stuffed_zero(data),
    ensures
        without_unsynchronization(data) == data,
    decreases data.len(),
{
    if data.len() == 0 {
        assert(without_unsynchronization(data) =~= data);
    } else {
        if data[0] == 0xFF && data.len() >= 2 && data[1] == 0x00 {
            assert(data[0int] == 0xFF && data[0int + 1] == 0x00);
            assert(has_stuffed_zero(data));
        }
        let rest = data.skip(1);
        if has_stuffed_zero(rest) {
            let i = choose|i: int|
                0 <= i && i + 1 < rest.len() && #[trigger] rest[i] == 0xFF && rest[i + 1] == 0x00;
            assert(data[i + 1] == 0xFF && data[(i + 1) + 1] == 0x00);
            assert(has_stuffed_zero(data));
        }
        lemma_unsynchronization_absent(rest);
        assert(seq![data[0]] + rest =~= data);
    }
}

/// A buffer that holds no `0xFF` byte comes back unchanged.
pub proof fn lemma_unsynchronization_without_ff(data: Seq<u8>)
    requires
        forall|i: int| 0 <= i < data.len() ==> data[i] != 0xFF,
    ensures
        without_unsynchronization(data) == data,
{
    if has_stuffed_zero(data) {
        let i = choose|i: int|
            0 <= i && i + 1 < data.len() && #[trigger] data[i] == 0xFF && data[i + 1] == 0x00;
        assert(data[i] != 0xFF);
    }
    lemma_unsynchronization_absent(data);
}

/// The output still holds a `0xFF 0x00` pair exactly when the input held a
/// `0xFF 0x00 0x00` triple.
pub proof fn lemma_stuffed_zero_survives(data: Seq<u8>)
    ensures
        has_stuffed_zero(without_unsynchronization(data)) <==> has_doubly_stuffed_zero(data),
    decreases data.len(),
{
    let out = without_unsynchronization(data);
    if data.len() == 0 {
        assert(!has_stuffed_zero(out));
        assert(!has_doubly_stuffed_zero(data));
    } else {
        let stuffed = data[0] == 0xFF && data.len() >= 2 && data[1] == 0x00;
        let k: int = if stuffed { 2 } else { 1 };
        let rest = data.skip(k);
        let tail = without_unsynchronization(rest);
        lemma_stuffed_zero_survives(rest);
        lemma_without_unsynchronization_shape(rest);
        assert(out =~= seq![data[0]] + tail);
        assert(forall|j: int| 0 <= j < tail.len() ==> out[j + 1] == tail[j]);
        // A pair in the output is either at the front or inside the tail.
        if has_stuffed_zero(out) {
            let i = choose|i: int|
                0 <= i && i + 1 < out.len() && #[trigger] out[i] == 0xFF && out[i + 1] == 0x00;
            if i == 0 {
                assert(tail[0] == rest[0]);
                assert(rest[0] == data[k]);
                assert(stuffed);
                assert(data[0int] == 0xFF && data[0int + 1] == 0x00 && data[0int + 2] == 0x00);
            } else {
                assert(tail[i - 1] == 0xFF && tail[(i - 1) + 1] == 0x00);
                assert(has_stuffed_zero(tail));
                let m = choose|m: int|
                    0 <= m && m + 2 < rest.len() && #[trigger] rest[m] == 0xFF && rest[m + 1]
                        == 0x00 && rest[m + 2] == 0x00;
                assert(data[m + k] == 0xFF && data[(m + k) + 1] == 0x00 && data[(m + k) + 2]
                    == 0x00);
            }
            assert(has_doubly_stuffed_zero(data));
        }
        if has_doubly_stuffed_zero(data) {
            let m = choose|m: int|
                0 <= m && m + 2 < data.len() && #[trigger] data[m] == 0xFF && data[m + 1] == 0x00
                    && data[m + 2] == 0x00;
            if m == 0 {
                assert(stuffed);
                assert(tail[0] == rest[0]);
                assert(out[0int] == 0xFF && out[0int + 1] == 0x00);
            } else {
                if stuffed {
                    // data[1] is zero, so the triple cannot start there
                    assert(m >= 2);
                }
                assert(rest[m - k] == 0xFF && rest[(m - k) + 1] == 0x00 && rest[(m - k) + 2]
                    == 0x00);
                assert(has_doubly_stuffed_zero(rest));
                let i = choose|i: int|
                    0 <= i && i + 1 < tail.len() && #[trigger] tail[i] == 0xFF && tail[i + 1]
                        == 0x00;
                assert(out[i + 1] == 0xFF && out[(i + 1) + 1] == 0x00);
            }
            assert(has_stuffed_zero(out));
        }
    }
}

/// Undoing unsynchronization a second time changes nothing, provided the
/// input holds no `0xFF 0x00 0x00` triple.
pub proof fn lemma_unsynchronization_idempotent(data: Seq<u8>)
    requires
        !has_doubly_stuffed_zero(data),
    ensures
        without_unsynchronization(without_unsynchronization(data)) == without_unsynchronization(
            data,
        ),
{
    lemma_stuffed_zero_survives(data);
    lemma_unsynchronization_absent(without_unsynchronization(data));
}

/// Where the input holds a `0xFF 0x00 0x00` triple, the first pass leaves a
/// `0xFF 0x00` pair behind and a second pass shortens the data once more.
pub proof fn lemma_unsynchronization_second_pass(data: Seq<u8>)
    requires
        has_doubly_stuffed_zero(data),
    ensures
        without_unsynchronization(without_unsynchronization(data)).len()
            < without_unsynchronization(data).len(),
{
    lemma_stuffed_zero_survives(data);
    lemma_stuffed_zero_shortens(without_unsynchronization(data));
}

/// Data that holds a `0xFF 0x00` pair gets strictly shorter.
pub proof fn lemma_stuffed_zero_shortens(data: Seq<u8>)
    requires
        has_stuffed_zero(data),
    ensures
        without_unsynchronization(data).len() < data.len(),
    decreases data.len(),
{
    let i = choose|i: int|
        0 <= i && i + 1 < data.len() && #[trigger] data[i] == 0xFF && data[i + 1] == 0x00;
    if data[0] == 0xFF && data.len() >= 2 && data[1] == 0x00 {
        lemma_without_unsynchronization_shape(data.skip(2));
    } else {
        let rest = data.skip(1);
        assert(i >= 1);
        assert(rest[i - 1] == 0xFF && rest[(i - 1) + 1] == 0x00);
        lemma_stuffed_zero_shortens(rest);
    }
}

/// True when `bytes` begins with the three characters `ID3`.
pub open spec fn has_id3_magic(bytes: Seq<u8>) -> bool {
    bytes.len() >= 3 && bytes[0] == 0x49 && bytes[1] == 0x44 && bytes[2] == 0x33
}

/// The major and minor version announced by a file header, if it begins with
/// `ID3` and holds the two version bytes.
pub open spec fn id3v2_version_of(header: Seq<u8>) -> Option<(u8, u8)> {
    if header.len() >= 5 && has_id3_magic(header) {
        Some((header[3], header[4]))
    } else {
        None
    }
}

/// Checks whether the given file header announces an ID3v2 tag and returns
/// its major and minor version.
pub fn detect_id3v2_version(header: &[u8]) -> (version: Option<(u8, u8)>)
    ensures
        version == id3v2_version_of(header@),
{
    if header.len() >= 5 && header[0] == 0x49 && header[1] == 0x44 && header[2] == 0x33 {
        Some((header[3], header[4]))
    } else {
        None
    }
}

/// True when `header` begins with an MPEG frame sync: eleven set bits.
pub open spec fn has_mpeg_sync(header: Seq<u8>) -> bool {
    header.len() >= 2 && header[0] == 0xFF && header[1] & 0xE0 == 0xE0
}

/// Checks whether the given file header begins with an MPEG frame sync.
pub fn detect_mpeg_sync(header: &[u8]) -> (sync: bool)
    ensures
        sync == has_mpeg_sync(header@),
{
    header.len() >= 2 && header[0] == 0xFF && (header[1] & 0xE0) == 0xE0
}

/// The fixed ten-byte header of an ID3v2 tag.
#[derive(Clone, Copy, Debug, PartialEq, Eq, Structural)]
pub struct TagHeader {
    /// Major version: 3 for ID3v2.3, 4 for ID3v2.4.
    pub version_major: u8,
    /// Minor version (revision).
    pub version_minor: u8,
    /// Flag bits of the tag.
    pub flags: u8,
    /// Declared length of the tag payload in bytes, header excluded.
    pub size: u32,
}

impl TagHeader {
    /// Flag bit 0x80: the payload went through unsynchronization.
    pub open spec fn unsynchronisation(&self) -> bool {
        self.flags & 0x80 != 0
    }

    /// Flag bit 0x40: an extended header precedes the frames.
    pub open spec fn extended_header(&self) -> bool {
        self.flags & 0x40 != 0
    }

    /// Flag bit 0x20: the tag is experimental.
    pub open spec fn experimental(&self) -> bool {
        self.flags & 0x20 != 0
    }

    /// Flag bit 0x10, defined by ID3v2.4 only: a footer follows the tag.
    pub open spec fn footer_present(&self) -> bool {
        self.version_major == 4 && self.flags & 0x10 != 0
    }

    /// Whether the payload went through unsynchronization.
    pub fn has_unsynchronisation(&self) -> (set: bool)
        ensures
            set == self.unsynchronisation(),
    {
        self.flags & 0x80 != 0
    }

    /// Whether an extended header precedes the frames.
    pub fn has_extended_header(&self) -> (set: bool)
        ensures
            set == self.extended_header(),
    {
        self.flags & 0x40 != 0
    }

    /// Whether the tag is marked experimental.
    pub fn is_experimental(&self) -> (set: bool)
        ensures
            set == self.experimental(),
    {
        self.flags & 0x20 != 0
    }

    /// Whether a footer follows the tag (ID3v2.4 only).
    pub fn has_footer(&self) -> (set: bool)
        ensures
            set == self.footer_present(),
    {
        self.version_major == 4 && self.flags & 0x10 != 0
    }
}

/// A decoded tag header together with the one warning that decoding it can
/// raise.
#[derive(Clone, Copy, Debug, PartialEq, Eq, Structural)]
pub struct HeaderDecode {
    /// The header fields; `size` is decoded from the low seven bits of each
    /// size byte.
    pub header: TagHeader,
    /// True when a size byte had its high bit set, which the format forbids.
    pub invalid_synchsafe: bool,
}

impl HeaderDecode {
    /// The warning that decoding the header raised, if any.
    pub open spec fn warning_kind(self) -> Option<ErrorKind> {
        if self.invalid_synchsafe {
            Some(ErrorKind::InvalidSynchsafe)
        } else {
            None
        }
    }

    /// Returns the warning that decoding the header raised, if any.
    pub fn warning(&self) -> (kind: Option<ErrorKind>)
        ensures
            kind == self.warning_kind(),
    {
        if self.invalid_synchsafe {
            Some(ErrorKind::InvalidSynchsafe)
        } else {
            None
        }
    }
}

/// The outcome of decoding the first ten bytes of a candidate tag: nothing
/// when fewer than ten bytes are present or the `ID3` magic is missing.
pub open spec fn tag_header_of(bytes: Seq<u8>) -> Option<HeaderDecode> {
    if bytes.len() >= 10 && has_id3_magic(bytes) {
        Some(
            HeaderDecode {
                header: TagHeader {
                    version_major: bytes[3],
                    version_minor: bytes[4],
                    flags: bytes[5],
                    size: synchsafe_at(bytes, 6),
                },
                invalid_synchsafe: !is_synchsafe(bytes[6], bytes[7], bytes[8], bytes[9]),
            },
        )
    } else {
        None
    }
}

/// Decodes the ten-byte tag header at the start of `bytes`. Returns `None`
/// when no tag is present.
pub fn read_id3v2_header(bytes: &[u8]) -> (outcome: Option<HeaderDecode>)
    ensures
        outcome == tag_header_of(bytes@),
        outcome matches Some(decoded) ==> decoded.header.size < 0x1000_0000,
{
    if bytes.len() < 10 {
        return None;
    }
    if !(bytes[0] == 0x49 && bytes[1] == 0x44 && bytes[2] == 0x33) {
        return None;
    }
    let size: u32 = read_synchsafe(bytes, 6);
    let invalid_synchsafe: bool = !(bytes[6] & 0x80 == 0 && bytes[7] & 0x80 == 0 && bytes[8] & 0x80
        == 0 && bytes[9] & 0x80 == 0);
    Some(
        HeaderDecode {
            header: TagHeader {
                version_major: bytes[3],
                version_minor: bytes[4],
                flags: bytes[5],
                size,
            },
            invalid_synchsafe,
        },
    )
}

/// The meaning of the sixteen flag bits of a frame header. Flags that a
/// version does not define are reported as unset.
#[derive(Clone, Copy, Debug, PartialEq, Eq, Structural)]
pub struct FrameFlags {
    /// The frame should be discarded when the tag is altered.
    pub tag_alter_preserve: bool,
    /// The frame should be discarded when the file is altered.
    pub file_alter_preserve: bool,
    /// The frame is read-only.
    pub read_only: bool,
    /// The frame belongs to a group.
    pub grouped: bool,
    /// The frame is compressed.
    pub compressed: bool,
    /// The frame is encrypted.
    pub encrypted: bool,
    /// The frame went through unsynchronization (ID3v2.4 only).
    pub unsynchronised: bool,
    /// A data length indicator precedes the frame data (ID3v2.4 only).
    pub data_length_indicator: bool,
}

/// The frame flags as ID3v2.3 lays them out.
pub open spec fn id3v2_3_flags_of(flags: u16) -> FrameFlags {
    FrameFlags {
        tag_alter_preserve: flags & 0x8000 != 0,
        file_alter_preserve: flags & 0x4000 != 0,
        read_only: flags & 0x2000 != 0,
        grouped: flags & 0x0020 != 0,
        compressed: flags & 0x0080 != 0,
        encrypted: flags & 0x0040 != 0,
        unsynchronised: false,
        data_length_indicator: false,
    }
}

/// The frame flags as ID3v2.4 lays them out.
pub open spec fn id3v2_4_flags_of(flags: u16) -> FrameFlags {
    FrameFlags {
        tag_alter_preserve: flags & 0x4000 != 0,
        file_alter_preserve: flags & 0x2000 != 0,
        read_only: flags & 0x1000 != 0,
        grouped: flags & 0x0040 != 0,
        compressed: flags & 0x0008 != 0,
        encrypted: flags & 0x0004 != 0,
        unsynchronised: flags & 0x0002 != 0,
        data_length_indicator: flags & 0x0001 != 0,
    }
}

/// Interprets the flag bits of an ID3v2.3 frame header.
pub fn interpret_id3v2_3_frame_flags(flags: u16) -> (decoded: FrameFlags)
    ensures
        decoded == id3v2_3_flags_of(flags),
{
    FrameFlags {
        tag_alter_preserve: flags & 0x8000 != 0,
        file_alter_preserve: flags & 0x4000 != 0,
        read_only: flags & 0x2000 != 0,
        grouped: flags & 0x0020 != 0,
        compressed: flags & 0x0080 != 0,
        encrypted: flags & 0x0040 != 0,
        unsynchronised: false,
        data_length_indicator: false,
    }
}

/// Interprets the flag bits of an ID3v2.4 frame header.
pub fn interpret_id3v2_4_frame_flags(flags: u16) -> (decoded: FrameFlags)
    ensures
        decoded == id3v2_4_flags_of(flags),
{
    FrameFlags {
        tag_alter_preserve: flags & 0x4000 != 0,
        file_alter_preserve: flags & 0x2000 != 0,
        read_only: flags & 0x1000 != 0,
        grouped: flags & 0x0040 != 0,
        compressed: flags & 0x0008 != 0,
        encrypted: flags & 0x0004 != 0,
        unsynchronised: flags & 0x0002 != 0,
        data_length_indicator: flags & 0x0001 != 0,
    }
}

/// The texts of a list of string slices, in order.
pub open spec fn names_view(names: Seq<&'static str>) -> Seq<Seq<char>> {
    Seq::new(names.len(), |i: int| names[i]@)
}

/// A list of the one name when the flag is set, the empty list otherwise.
pub open spec fn named_if(set: bool, name: Seq<char>) -> Seq<Seq<char>> {
    if set {
        seq![name]
    } else {
        Seq::<Seq<char>>::empty()
    }
}

/// Appends `name` to `names` when the flag is set.
fn push_name_if(names: &mut Vec<&'static str>, set: bool, name: &'static str)
    ensures
        names_view(final(names)@) == names_view(old(names)@) + named_if(set, name@),
{
    if set {
        names.push(name);
    }
    assert(names_view(names@) =~= names_view(old(names)@) + named_if(set, name@));
}

/// The names of the tag header flags that are set, from the highest bit
/// down. The footer flag counts under version 4 only.
pub open spec fn tag_flag_names_of(header: TagHeader) -> Seq<Seq<char>> {
    named_if(header.unsynchronisation(), "unsynchronisation"@) + named_if(
        header.extended_header(),
        "extended_header"@,
    ) + named_if(header.experimental(), "experimental"@) + named_if(
        header.footer_present(),
        "footer_present"@,
    )
}

/// The names of the ID3v2.3 frame flags that are set, from the highest bit
/// down.
pub open spec fn id3v2_3_flag_names_of(flags: u16) -> Seq<Seq<char>> {
    named_if(flags & 0x8000 != 0, "tag_alter_preserve"@) + named_if(
        flags & 0x4000 != 0,
        "file_alter_preserve"@,
    ) + named_if(flags & 0x2000 != 0, "read_only"@) + named_if(flags & 0x0080 != 0, "compressed"@)
        + named_if(flags & 0x0040 != 0, "encrypted"@) + named_if(flags & 0x0020 != 0, "grouped"@)
}

/// The names of the ID3v2.4 frame flags that are set, from the highest bit
/// down.
pub open spec fn id3v2_4_flag_names_of(flags: u16) -> Seq<Seq<char>> {
    named_if(flags & 0x4000 != 0, "tag_alter_preserve"@) + named_if(
        flags & 0x2000 != 0,
        "file_alter_preserve"@,
    ) + named_if(flags & 0x1000 != 0, "read_only"@) + named_if(flags & 0x0040 != 0, "grouped"@)
        + named_if(flags & 0x0008 != 0, "compressed"@) + named_if(flags & 0x0004 != 0, "encrypted"@)
        + named_if(flags & 0x0002 != 0, "unsynchronised"@) + named_if(
        flags & 0x0001 != 0,
        "data_length_indicator"@,
    )
}

impl TagHeader {
    /// Returns the names of the header flags that are set.
    pub fn flag_names(&self) -> (names: Vec<&'static str>)
        ensures
            names_view(names@) == tag_flag_names_of(*self),
    {
        let mut names: Vec<&'static str> = Vec::new();
        assert(names_view(names@) =~= Seq::<Seq<char>>::empty());
        push_name_if(&mut names, self.has_unsynchronisation(), "unsynchronisation");
        push_name_if(&mut names, self.has_extended_header(), "extended_header");
        push_name_if(&mut names, self.is_experimental(), "experimental");
        push_name_if(&mut names, self.has_footer(), "footer_present");
        assert(names_view(names@) =~= tag_flag_names_of(*self));
        names
    }
}

/// Returns the names of the ID3v2.3 frame flags that are set.
pub fn id3v2_3_frame_flag_names(flags: u16) -> (names: Vec<&'static str>)
    ensures
        names_view(names@) == id3v2_3_flag_names_of(flags),
{
    let mut names: Vec<&'static str> = Vec::new();
    assert(names_view(names@) =~= Seq::<Seq<char>>::empty());
    push_name_if(&mut names, flags & 0x8000 != 0, "tag_alter_preserve");
    push_name_if(&mut names, flags & 0x4000 != 0, "file_alter_preserve");
    push_name_if(&mut names, flags & 0x2000 != 0, "read_only");
    push_name_if(&mut names, flags & 0x0080 != 0, "compressed");
    push_name_if(&mut names, flags & 0x0040 != 0, "encrypted");
    push_name_if(&mut names, flags & 0x0020 != 0, "grouped");
    assert(names_view(names@) =~= id3v2_3_flag_names_of(flags));
    names
}

/// Returns the names of the ID3v2.4 frame flags that are set.
pub fn id3v2_4_frame_flag_names(flags: u16) -> (names: Vec<&'static str>)
    ensures
        names_view(names@) == id3v2_4_flag_names_of(flags),
{
    let mut names: Vec<&'static str> = Vec::new();
    assert(names_view(names@) =~= Seq::<Seq<char>>::empty());
    push_name_if(&mut names, flags & 0x4000 != 0, "tag_alter_preserve");
    push_name_if(&mut names, flags & 0x2000 != 0, "file_alter_preserve");
    push_name_if(&mut names, flags & 0x1000 != 0, "read_only");
    push_name_if(&mut names, flags & 0x0040 != 0, "grouped");
    push_name_if(&mut names, flags & 0x0008 != 0, "compressed");
    push_name_if(&mut names, flags & 0x0004 != 0, "encrypted");
    push_name_if(&mut names, flags & 0x0002 != 0, "unsynchronised");
    push_name_if(&mut names, flags & 0x0001 != 0, "data_length_indicator");
    assert(names_view(names@) =~= id3v2_4_flag_names_of(flags));
    names
}

/// Membership in the list of frame identifiers that ID3v2.3 defines,
/// including the chapter addendum.
#[verifier::opaque]
pub open spec fn is_id3v2_3_frame_id(id: Seq<char>) -> bool {
    ||| id == "TALB"@
    ||| id == "TBPM"@
    ||| id == "TCOM"@
    ||| id == "TCON"@
    ||| id == "TCOP"@
    ||| id == "TDAT"@
    ||| id == "TDLY"@
    ||| id == "TENC"@
    ||| id == "TEXT"@
    ||| id == "TFLT"@
    ||| id == "TIME"@
    ||| id == "TIT1"@
    ||| id == "TIT2"@
    ||| id == "TIT3"@
    ||| id == "TKEY"@
    ||| id == "TLAN"@
    ||| id == "TLEN"@
    ||| id == "TMED"@
    ||| id == "TOAL"@
    ||| id == "TOFN"@
    ||| id == "TOLY"@
    ||| id == "TOPE"@
    ||| id == "TORY"@
    ||| id == "TOWN"@
    ||| id == "TPE1"@
    ||| id == "TPE2"@
    ||| id == "TPE3"@
    ||| id == "TPE4"@
    ||| id == "TPOS"@
    ||| id == "TPUB"@
    ||| id == "TRCK"@
    ||| id == "TRDA"@
    ||| id == "TRSN"@
    ||| id == "TRSO"@
    ||| id == "TSIZ"@
    ||| id == "TSRC"@
    ||| id == "TSSE"@
    ||| id == "TYER"@
    ||| id == "TXXX"@
    ||| id == "WCOM"@
    ||| id == "WCOP"@
    ||| id == "WOAF"@
    ||| id == "WOAR"@
    ||| id == "WOAS"@
    ||| id == "WORS"@
    ||| id == "WPAY"@
    ||| id == "WPUB"@
    ||| id == "WXXX"@
    ||| id == "UFID"@
    ||| id == "MCDI"@
    ||| id == "ETCO"@
    ||| id == "MLLT"@
    ||| id == "SYTC"@
    ||| id == "USLT"@
    ||| id == "SYLT"@
    ||| id == "COMM"@
    ||| id == "RVAD"@
    ||| id == "EQUA"@
    ||| id == "RVRB"@
    ||| id == "PCNT"@
    ||| id == "POPM"@
    ||| id == "RBUF"@
    ||| id == "AENC"@
    ||| id == "LINK"@
    ||| id == "POSS"@
    ||| id == "USER"@
    ||| id == "OWNE"@
    ||| id == "COMR"@
    ||| id == "ENCR"@
    ||| id == "GRID"@
    ||| id == "PRIV"@
    ||| id == "GEOB"@
    ||| id == "IPLS"@
    ||| id == "APIC"@
    ||| id == "CHAP"@
    ||| id == "CTOC"@
}

/// Membership in the list of frame identifiers that ID3v2.4 defines,
/// including the chapter addendum.
#[verifier::opaque]
pub open spec fn is_id3v2_4_frame_id(id: Seq<char>) -> bool {
    ||| id == "TALB"@
    ||| id == "TBPM"@
    ||| id == "TCOM"@
    ||| id == "TCON"@
    ||| id == "TCOP"@
    ||| id == "TDEN"@
    ||| id == "TDLY"@
    ||| id == "TDOR"@
    ||| id == "TDRC"@
    ||| id == "TDRL"@
    ||| id == "TDTG"@
    ||| id == "TENC"@
    ||| id == "TEXT"@
    ||| id == "TFLT"@
    ||| id == "TIPL"@
    ||| id == "TIT1"@
    ||| id == "TIT2"@
    ||| id == "TIT3"@
    ||| id == "TKEY"@
    ||| id == "TLAN"@
    ||| id == "TLEN"@
    ||| id == "TMCL"@
    ||| id == "TMED"@
    ||| id == "TMOO"@
    ||| id == "TOAL"@
    ||| id == "TOFN"@
    ||| id == "TOLY"@
    ||| id == "TOPE"@
    ||| id == "TOWN"@
    ||| id == "TPE1"@
    ||| id == "TPE2"@
    ||| id == "TPE3"@
    ||| id == "TPE4"@
    ||| id == "TPOS"@
    ||| id == "TPRO"@
    ||| id == "TPUB"@
    ||| id == "TRCK"@
    ||| id == "TRSN"@
    ||| id == "TRSO"@
    ||| id == "TSOA"@
    ||| id == "TSOP"@
    ||| id == "TSOT"@
    ||| id == "TSRC"@
    ||| id == "TSSE"@
    ||| id == "TSST"@
    ||| id == "TXXX"@
    ||| id == "WCOM"@
    ||| id == "WCOP"@
    ||| id == "WOAF"@
    ||| id == "WOAR"@
    ||| id == "WOAS"@
    ||| id == "WORS"@
    ||| id == "WPAY"@
    ||| id == "WPUB"@
    ||| id == "WXXX"@
    ||| id == "UFID"@
    ||| id == "MCDI"@
    ||| id == "ETCO"@
    ||| id == "MLLT"@
    ||| id == "SYTC"@
    ||| id == "USLT"@
    ||| id == "SYLT"@
    ||| id == "COMM"@
    ||| id == "RVA2"@
    ||| id == "EQU2"@
    ||| id == "RVRB"@
    ||| id == "PCNT"@
    ||| id == "POPM"@
    ||| id == "RBUF"@
    ||| id == "AENC"@
    ||| id == "LINK"@
    ||| id == "POSS"@
    ||| id == "USER"@
    ||| id == "OWNE"@
    ||| id == "COMR"@
    ||| id == "ENCR"@
    ||| id == "GRID"@
    ||| id == "PRIV"@
    ||| id == "GEOB"@
    ||| id == "APIC"@
    ||| id == "SEEK"@
    ||| id == "ASPI"@
    ||| id == "SIGN"@
    ||| id == "CHAP"@
    ||| id == "CTOC"@
}

/// Whether `id` may be decoded as a typed frame under the given major
/// version. Only versions 3 and 4 have a list; any other version admits no
/// identifier.
pub open spec fn is_frame_id_for_version(id: Seq<char>, version_major: u8) -> bool {
    if version_major == 3 {
        is_id3v2_3_frame_id(id)
    } else if version_major == 4 {
        is_id3v2_4_frame_id(id)
    } else {
        false
    }
}

/// Checks whether a frame identifier is defined by ID3v2.3.
pub fn is_valid_id3v2_3_frame(frame_id: &str) -> (valid: bool)
    ensures
        valid == is_id3v2_3_frame_id(frame_id@),
{
    reveal(is_id3v2_3_frame_id);
    frame_id.eq("TALB") || frame_id.eq("TBPM") || frame_id.eq("TCOM") || frame_id.eq("TCON") ||
        frame_id.eq("TCOP") || frame_id.eq("TDAT") || frame_id.eq("TDLY") ||
        frame_id.eq("TENC") || frame_id.eq("TEXT") || frame_id.eq("TFLT") ||
        frame_id.eq("TIME") || frame_id.eq("TIT1") || frame_id.eq("TIT2") ||
        frame_id.eq("TIT3") || frame_id.eq("TKEY") || frame_id.eq("TLAN") ||
        frame_id.eq("TLEN") || frame_id.eq("TMED") || frame_id.eq("TOAL") ||
        frame_id.eq("TOFN") || frame_id.eq("TOLY") || frame_id.eq("TOPE") ||
        frame_id.eq("TORY") || frame_id.eq("TOWN") || frame_id.eq("TPE1") ||
        frame_id.eq("TPE2") || frame_id.eq("TPE3") || frame_id.eq("TPE4") ||
        frame_id.eq("TPOS") || frame_id.eq("TPUB") || frame_id.eq("TRCK") ||
        frame_id.eq("TRDA") || frame_id.eq("TRSN") || frame_id.eq("TRSO") ||
        frame_id.eq("TSIZ") || frame_id.eq("TSRC") || frame_id.eq("TSSE") ||
        frame_id.eq("TYER") || frame_id.eq("TXXX") || frame_id.eq("WCOM") ||
        frame_id.eq("WCOP") || frame_id.eq("WOAF") || frame_id.eq("WOAR") ||
        frame_id.eq("WOAS") || frame_id.eq("WORS") || frame_id.eq("WPAY") ||
        frame_id.eq("WPUB") || frame_id.eq("WXXX") || frame_id.eq("UFID") ||
        frame_id.eq("MCDI") || frame_id.eq("ETCO") || frame_id.eq("MLLT") ||
        frame_id.eq("SYTC") || frame_id.eq("USLT") || frame_id.eq("SYLT") ||
        frame_id.eq("COMM") || frame_id.eq("RVAD") || frame_id.eq("EQUA") ||
        frame_id.eq("RVRB") || frame_id.eq("PCNT") || frame_id.eq("POPM") ||
        frame_id.eq("RBUF") || frame_id.eq("AENC") || frame_id.eq("LINK") ||
        frame_id.eq("POSS") || frame_id.eq("USER") || frame_id.eq("OWNE") ||
        frame_id.eq("COMR") || frame_id.eq("ENCR") || frame_id.eq("GRID") ||
        frame_id.eq("PRIV") || frame_id.eq("GEOB") || frame_id.eq("IPLS") ||
        frame_id.eq("APIC") || frame_id.eq("CHAP") || frame_id.eq("CTOC")
}

/// Checks whether a frame identifier is defined by ID3v2.4.
pub fn is_valid_id3v2_4_frame(frame_id: &str) -> (valid: bool)
    ensures
        valid == is_id3v2_4_frame_id(frame_id@),
{
    reveal(is_id3v2_4_frame_id);
    frame_id.eq("TALB") || frame_id.eq("TBPM") || frame_id.eq("TCOM") || frame_id.eq("TCON") ||
        frame_id.eq("TCOP") || frame_id.eq("TDEN") || frame_id.eq("TDLY") ||
        frame_id.eq("TDOR") || frame_id.eq("TDRC") || frame_id.eq("TDRL") ||
        frame_id.eq("TDTG") || frame_id.eq("TENC") || frame_id.eq("TEXT") ||
        frame_id.eq("TFLT") || frame_id.eq("TIPL") || frame_id.eq("TIT1") ||
        frame_id.eq("TIT2") || frame_id.eq("TIT3") || frame_id.eq("TKEY") ||
        frame_id.eq("TLAN") || frame_id.eq("TLEN") || frame_id.eq("TMCL") ||
        frame_id.eq("TMED") || frame_id.eq("TMOO") || frame_id.eq("TOAL") ||
        frame_id.eq("TOFN") || frame_id.eq("TOLY") || frame_id.eq("TOPE") ||
        frame_id.eq("TOWN") || frame_id.eq("TPE1") || frame_id.eq("TPE2") ||
        frame_id.eq("TPE3") || frame_id.eq("TPE4") || frame_id.eq("TPOS") ||
        frame_id.eq("TPRO") || frame_id.eq("TPUB") || frame_id.eq("TRCK") ||
        frame_id.eq("TRSN") || frame_id.eq("TRSO") || frame_id.eq("TSOA") ||
        frame_id.eq("TSOP") || frame_id.eq("TSOT") || frame_id.eq("TSRC") ||
        frame_id.eq("TSSE") || frame_id.eq("TSST") || frame_id.eq("TXXX") ||
        frame_id.eq("WCOM") || frame_id.eq("WCOP") || frame_id.eq("WOAF") ||
        frame_id.eq("WOAR") || frame_id.eq("WOAS") || frame_id.eq("WORS") ||
        frame_id.eq("WPAY") || frame_id.eq("WPUB") || frame_id.eq("WXXX") ||
        frame_id.eq("UFID") || frame_id.eq("MCDI") || frame_id.eq("ETCO") ||
        frame_id.eq("MLLT") || frame_id.eq("SYTC") || frame_id.eq("USLT") ||
        frame_id.eq("SYLT") || frame_id.eq("COMM") || frame_id.eq("RVA2") ||
        frame_id.eq("EQU2") || frame_id.eq("RVRB") || frame_id.eq("PCNT") ||
        frame_id.eq("POPM") || frame_id.eq("RBUF") || frame_id.eq("AENC") ||
        frame_id.eq("LINK") || frame_id.eq("POSS") || frame_id.eq("USER") ||
        frame_id.eq("OWNE") || frame_id.eq("COMR") || frame_id.eq("ENCR") ||
        frame_id.eq("GRID") || frame_id.eq("PRIV") || frame_id.eq("GEOB") ||
        frame_id.eq("APIC") || frame_id.eq("SEEK") || frame_id.eq("ASPI") ||
        frame_id.eq("SIGN") || frame_id.eq("CHAP") || frame_id.eq("CTOC")
}

/// Checks whether a frame identifier is defined by the given major version.
pub fn is_valid_frame_for_version(frame_id: &str, version_major: u8) -> (valid: bool)
    ensures
        valid == is_frame_id_for_version(frame_id@, version_major),
{
    if version_major == 3 {
        is_valid_id3v2_3_frame(frame_id)
    } else if version_major == 4 {
        is_valid_id3v2_4_frame(frame_id)
    } else {
        false
    }
}

/// The human-readable description of a frame identifier; identifiers without
/// an entry are described as unknown.
#[verifier::opaque]
pub open spec fn frame_description(id: Seq<char>) -> Seq<char> {
    if id == "TIT1"@ {
        "Content group description"@
    } else if id == "TIT2"@ {
        "Title/songname/content description"@
    } else if id == "TIT3"@ {
        "Subtitle/Description refinement"@
    } else if id == "TALB"@ {
        "Album/Movie/Show title"@
    } else if id == "TOAL"@ {
        "Original album/movie/show title"@
    } else if id == "TRCK"@ {
        "Track number/Position in set"@
    } else if id == "TPOS"@ {
        "Part of a set"@
    } else if id == "TSST"@ {
        "Set subtitle"@
    } else if id == "TSRC"@ {
        "ISRC (international standard recording code)"@
    } else if id == "TPE1"@ {
        "Lead performer(s)/Soloist(s)"@
    } else if id == "TPE2"@ {
        "Band/orchestra/accompaniment"@
    } else if id == "TPE3"@ {
        "Conductor/performer refinement"@
    } else if id == "TPE4"@ {
        "Interpreted, remixed, or otherwise modified by"@
    } else if id == "TOPE"@ {
        "Original artist(s)/performer(s)"@
    } else if id == "TEXT"@ {
        "Lyricist/Text writer"@
    } else if id == "TOLY"@ {
        "Original lyricist(s)/text writer(s)"@
    } else if id == "TCOM"@ {
        "Composer"@
    } else if id == "TMCL"@ {
        "Musician credits list"@
    } else if id == "TIPL"@ {
        "Involved people list"@
    } else if id == "TENC"@ {
        "Encoded by"@
    } else if id == "TBPM"@ {
        "BPM (beats per minute)"@
    } else if id == "TLEN"@ {
        "Length"@
    } else if id == "TKEY"@ {
        "Initial key"@
    } else if id == "TLAN"@ {
        "Language(s)"@
    } else if id == "TCON"@ {
        "Content type"@
    } else if id == "TFLT"@ {
        "File type"@
    } else if id == "TMED"@ {
        "Media type"@
    } else if id == "TMOO"@ {
        "Mood"@
    } else if id == "TCOP"@ {
        "Copyright message"@
    } else if id == "TPRO"@ {
        "Produced notice"@
    } else if id == "TPUB"@ {
        "Publisher"@
    } else if id == "TOWN"@ {
        "File owner/licensee"@
    } else if id == "TRSN"@ {
        "Internet radio station name"@
    } else if id == "TRSO"@ {
        "Internet radio station owner"@
    } else if id == "TOFN"@ {
        "Original filename"@
    } else if id == "TDLY"@ {
        "Playlist delay"@
    } else if id == "TDEN"@ {
        "Encoding time"@
    } else if id == "TDOR"@ {
        "Original release time"@
    } else if id == "TDRC"@ {
        "Recording time"@
    } else if id == "TDRL"@ {
        "Release time"@
    } else if id == "TDTG"@ {
        "Tagging time"@
    } else if id == "TSSE"@ {
        "Software/Hardware and settings used for encoding"@
    } else if id == "TSOA"@ {
        "Album sort order"@
    } else if id == "TSOP"@ {
        "Performer sort order"@
    } else if id == "TSOT"@ {
        "Title sort order"@
    } else if id == "TXXX"@ {
        "User defined text information frame"@
    } else if id == "TDAT"@ {
        "Date"@
    } else if id == "TIME"@ {
        "Time"@
    } else if id == "TORY"@ {
        "Original release year"@
    } else if id == "TRDA"@ {
        "Recording dates"@
    } else if id == "TSIZ"@ {
        "Size"@
    } else if id == "TYER"@ {
        "Year"@
    } else if id == "IPLS"@ {
        "Involved people list"@
    } else if id == "RVAD"@ {
        "Relative volume adjustment"@
    } else if id == "EQUA"@ {
        "Equalisation"@
    } else if id == "RVA2"@ {
        "Relative volume adjustment (2)"@
    } else if id == "EQU2"@ {
        "Equalisation (2)"@
    } else if id == "SEEK"@ {
        "Seek frame"@
    } else if id == "ASPI"@ {
        "Audio seek point index"@
    } else if id == "SIGN"@ {
        "Signature frame"@
    } else if id == "WCOM"@ {
        "Commercial information"@
    } else if id == "WCOP"@ {
        "Copyright/Legal information"@
    } else if id == "WOAF"@ {
        "Official audio file webpage"@
    } else if id == "WOAR"@ {
        "Official artist/performer webpage"@
    } else if id == "WOAS"@ {
        "Official audio source webpage"@
    } else if id == "WORS"@ {
        "Official internet radio station homepage"@
    } else if id == "WPAY"@ {
        "Payment"@
    } else if id == "WPUB"@ {
        "Publishers official webpage"@
    } else if id == "WXXX"@ {
        "User defined URL link frame"@
    } else if id == "MCDI"@ {
        "Music CD identifier"@
    } else if id == "ETCO"@ {
        "Event timing codes"@
    } else if id == "MLLT"@ {
        "MPEG location lookup table"@
    } else if id == "SYTC"@ {
        "Synchronized tempo codes"@
    } else if id == "USLT"@ {
        "Unsychronized lyric/text transcription"@
    } else if id == "SYLT"@ {
        "Synchronized lyric/text"@
    } else if id == "COMM"@ {
        "Comments"@
    } else if id == "RVRB"@ {
        "Reverb"@
    } else if id == "PCNT"@ {
        "Play counter"@
    } else if id == "POPM"@ {
        "Popularimeter"@
    } else if id == "RBUF"@ {
        "Recommended buffer size"@
    } else if id == "AENC"@ {
        "Audio encryption"@
    } else if id == "LINK"@ {
        "Linked information"@
    } else if id == "POSS"@ {
        "Position synchronisation frame"@
    } else if id == "USER"@ {
        "Terms of use"@
    } else if id == "OWNE"@ {
        "Ownership frame"@
    } else if id == "COMR"@ {
        "Commercial frame"@
    } else if id == "ENCR"@ {
        "Encryption method registration"@
    } else if id == "GRID"@ {
        "Group identification registration"@
    } else if id == "PRIV"@ {
        "Private frame"@
    } else if id == "GEOB"@ {
        "General encapsulated object"@
    } else if id == "UFID"@ {
        "Unique file identifier"@
    } else if id == "APIC"@ {
        "Attached picture"@
    } else if id == "CHAP"@ {
        "Chapter frame"@
    } else if id == "CTOC"@ {
        "Table of contents frame"@
    } else {
        "Unknown frame type"@
    }
}

/// Returns the human-readable description of a frame identifier.
pub fn get_frame_description(frame_id: &str) -> (description: &'static str)
    ensures
        description@ == frame_description(frame_id@),
{
    reveal(frame_description);
    if frame_id.eq("TIT1") {
        "Content group description"
    } else if frame_id.eq("TIT2") {
        "Title/songname/content description"
    } else if frame_id.eq("TIT3") {
        "Subtitle/Description refinement"
    } else if frame_id.eq("TALB") {
        "Album/Movie/Show title"
    } else if frame_id.eq("TOAL") {
        "Original album/movie/show title"
    } else if frame_id.eq("TRCK") {
        "Track number/Position in set"
    } else if frame_id.eq("TPOS") {
        "Part of a set"
    } else if frame_id.eq("TSST") {
        "Set subtitle"
    } else if frame_id.eq("TSRC") {
        "ISRC (international standard recording code)"
    } else if frame_id.eq("TPE1") {
        "Lead performer(s)/Soloist(s)"
    } else if frame_id.eq("TPE2") {
        "Band/orchestra/accompaniment"
    } else if frame_id.eq("TPE3") {
        "Conductor/performer refinement"
    } else if frame_id.eq("TPE4") {
        "Interpreted, remixed, or otherwise modified by"
    } else if frame_id.eq("TOPE") {
        "Original artist(s)/performer(s)"
    } else if frame_id.eq("TEXT") {
        "Lyricist/Text writer"
    } else if frame_id.eq("TOLY") {
        "Original lyricist(s)/text writer(s)"
    } else if frame_id.eq("TCOM") {
        "Composer"
    } else if frame_id.eq("TMCL") {
        "Musician credits list"
    } else if frame_id.eq("TIPL") {
        "Involved people list"
    } else if frame_id.eq("TENC") {
        "Encoded by"
    } else if frame_id.eq("TBPM") {
        "BPM (beats per minute)"
    } else if frame_id.eq("TLEN") {
        "Length"
    } else if frame_id.eq("TKEY") {
        "Initial key"
    } else if frame_id.eq("TLAN") {
        "Language(s)"
    } else if frame_id.eq("TCON") {
        "Content type"
    } else if frame_id.eq("TFLT") {
        "File type"
    } else if frame_id.eq("TMED") {
        "Media type"
    } else if frame_id.eq("TMOO") {
        "Mood"
    } else if frame_id.eq("TCOP") {
        "Copyright message"
    } else if frame_id.eq("TPRO") {
        "Produced notice"
    } else if frame_id.eq("TPUB") {
        "Publisher"
    } else if frame_id.eq("TOWN") {
        "File owner/licensee"
    } else if frame_id.eq("TRSN") {
        "Internet radio station name"
    } else if frame_id.eq("TRSO") {
        "Internet radio station owner"
    } else if frame_id.eq("TOFN") {
        "Original filename"
    } else if frame_id.eq("TDLY") {
        "Playlist delay"
    } else if frame_id.eq("TDEN") {
        "Encoding time"
    } else if frame_id.eq("TDOR") {
        "Original release time"
    } else if frame_id.eq("TDRC") {
        "Recording time"
    } else if frame_id.eq("TDRL") {
        "Release time"
    } else if frame_id.eq("TDTG") {
        "Tagging time"
    } else if frame_id.eq("TSSE") {
        "Software/Hardware and settings used for encoding"
    } else if frame_id.eq("TSOA") {
        "Album sort order"
    } else if frame_id.eq("TSOP") {
        "Performer sort order"
    } else if frame_id.eq("TSOT") {
        "Title sort order"
    } else if frame_id.eq("TXXX") {
        "User defined text information frame"
    } else if frame_id.eq("TDAT") {
        "Date"
    } else if frame_id.eq("TIME") {
        "Time"
    } else if frame_id.eq("TORY") {
        "Original release year"
    } else if frame_id.eq("TRDA") {
        "Recording dates"
    } else if frame_id.eq("TSIZ") {
        "Size"
    } else if frame_id.eq("TYER") {
        "Year"
    } else if frame_id.eq("IPLS") {
        "Involved people list"
    } else if frame_id.eq("RVAD") {
        "Relative volume adjustment"
    } else if frame_id.eq("EQUA") {
        "Equalisation"
    } else if frame_id.eq("RVA2") {
        "Relative volume adjustment (2)"
    } else if frame_id.eq("EQU2") {
        "Equalisation (2)"
    } else if frame_id.eq("SEEK") {
        "Seek frame"
    } else if frame_id.eq("ASPI") {
        "Audio seek point index"
    } else if frame_id.eq("SIGN") {
        "Signature frame"
    } else if frame_id.eq("WCOM") {
        "Commercial information"
    } else if frame_id.eq("WCOP") {
        "Copyright/Legal information"
    } else if frame_id.eq("WOAF") {
        "Official audio file webpage"
    } else if frame_id.eq("WOAR") {
        "Official artist/performer webpage"
    } else if frame_id.eq("WOAS") {
        "Official audio source webpage"
    } else if frame_id.eq("WORS") {
        "Official internet radio station homepage"
    } else if frame_id.eq("WPAY") {
        "Payment"
    } else if frame_id.eq("WPUB") {
        "Publishers official webpage"
    } else if frame_id.eq("WXXX") {
        "User defined URL link frame"
    } else if frame_id.eq("MCDI") {
        "Music CD identifier"
    } else if frame_id.eq("ETCO") {
        "Event timing codes"
    } else if frame_id.eq("MLLT") {
        "MPEG location lookup table"
    } else if frame_id.eq("SYTC") {
        "Synchronized tempo codes"
    } else if frame_id.eq("USLT") {
        "Unsychronized lyric/text transcription"
    } else if frame_id.eq("SYLT") {
        "Synchronized lyric/text"
    } else if frame_id.eq("COMM") {
        "Comments"
    } else if frame_id.eq("RVRB") {
        "Reverb"
    } else if frame_id.eq("PCNT") {
        "Play counter"
    } else if frame_id.eq("POPM") {
        "Popularimeter"
    } else if frame_id.eq("RBUF") {
        "Recommended buffer size"
    } else if frame_id.eq("AENC") {
        "Audio encryption"
    } else if frame_id.eq("LINK") {
        "Linked information"
    } else if frame_id.eq("POSS") {
        "Position synchronisation frame"
    } else if frame_id.eq("USER") {
        "Terms of use"
    } else if frame_id.eq("OWNE") {
        "Ownership frame"
    } else if frame_id.eq("COMR") {
        "Commercial frame"
    } else if frame_id.eq("ENCR") {
        "Encryption method registration"
    } else if frame_id.eq("GRID") {
        "Group identification registration"
    } else if frame_id.eq("PRIV") {
        "Private frame"
    } else if frame_id.eq("GEOB") {
        "General encapsulated object"
    } else if frame_id.eq("UFID") {
        "Unique file identifier"
    } else if frame_id.eq("APIC") {
        "Attached picture"
    } else if frame_id.eq("CHAP") {
        "Chapter frame"
    } else if frame_id.eq("CTOC") {
        "Table of contents frame"
    } else {
        "Unknown frame type"
    }
}

} // verus!
