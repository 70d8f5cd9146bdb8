//! The tag decoder: header, optional reversal of unsynchronization, optional
//! extended header, then the frame scan.

use crate::errors::ErrorKind;
use crate::id3v2_frame::MAX_EMBEDDED_DEPTH;
use crate::id3v2_frame_decoder::{scan_frames, scan_from, FrameScan, ScanView};
use crate::id3v2_tools::{
    be_u32_at, read_be_u32, read_id3v2_header, read_synchsafe, remove_unsynchronization,
    synchsafe_at, tag_header_of, without_unsynchronization, HeaderDecode, TagHeader,
};
use vstd::prelude::*;
use vstd::slice::slice_subrange;

verus! {

/// The decoded payload of a tag.
#[derive(Debug)]
pub struct TagBody {
    /// The length of the payload once unsynchronization has been undone. All
    /// offsets in the scan refer to that payload.
    pub body_len: usize,
    /// The offset of the first frame: zero, or the length of the extended
    /// header.
    pub frame_start: usize,
    /// The frames and diagnostics.
    pub scan: FrameScan,
}

/// The mathematical content of a `TagBody`.
pub struct TagBodyView {
    pub body_len: int,
    pub frame_start: int,
    pub scan: ScanView,
}

impl View for TagBody {
    type V = TagBodyView;

    open spec fn view(&self) -> TagBodyView {
        TagBodyView {
            body_len: self.body_len as int,
            frame_start: self.frame_start as int,
            scan: self.scan@,
        }
    }
}

/// A decoded tag.
#[derive(Debug)]
pub struct Tag {
    /// The tag header.
    pub header: TagHeader,
    /// True when a size byte of the header had its high bit set.
    pub invalid_synchsafe: bool,
    /// The decoded payload.
    pub body: TagBody,
}

/// The mathematical content of a `Tag`.
pub struct TagView {
    pub header: TagHeader,
    pub invalid_synchsafe: bool,
    pub body: TagBodyView,
}

impl View for Tag {
    type V = TagView;

    open spec fn view(&self) -> TagView {
        TagView {
            header: self.header,
            invalid_synchsafe: self.invalid_synchsafe,
            body: self.body@,
        }
    }
}

/// The payload in which frame offsets are counted: the stored payload, with
/// unsynchronization undone when flag 0x80 says that it was applied.
pub open spec fn effective_payload(payload: Seq<u8>, flags: u8) -> Seq<u8> {
    if flags & 0x80 != 0 {
        without_unsynchronization(payload)
    } else {
        payload
    }
}

/// The size that an extended header at the start of `body` declares: a
/// synchsafe integer under version 4, a plain big-endian integer otherwise.
pub open spec fn extended_header_size(body: Seq<u8>, version_major: u8) -> u32 {
    if version_major == 4 {
        synchsafe_at(body, 0)
    } else {
        be_u32_at(body, 0)
    }
}

/// The offset of the first frame in `body`: behind the extended header when
/// flag 0x40 announces one, zero otherwise. An extended header that does not
/// fit into the payload is rejected.
pub open spec fn frame_start_of(body: Seq<u8>, flags: u8, version_major: u8) -> Result<
    int,
    ErrorKind,
> {
    if flags & 0x40 == 0 {
        Ok(0int)
    } else if body.len() < 4 {
        Err(ErrorKind::InvalidExtendedHeader)
    } else if 4 + extended_header_size(body, version_major) > body.len() {
        Err(ErrorKind::InvalidExtendedHeader)
    } else {
        Ok(4 + extended_header_size(body, version_major))
    }
}

/// What the payload of a tag decodes to.
pub open spec fn tag_body_of(payload: Seq<u8>, flags: u8, version_major: u8) -> Result<
    TagBodyView,
    ErrorKind,
> {
    let body = effective_payload(payload, flags);
    match frame_start_of(body, flags, version_major) {
        Ok(start) => Ok(
            TagBodyView {
                body_len: body.len() as int,
                frame_start: start,
                scan: scan_from(body, start, version_major, MAX_EMBEDDED_DEPTH as nat),
            },
        ),
        Err(kind) => Err(kind),
    }
}

/// What to do after the first ten bytes of a file have been looked at.
#[derive(Clone, Copy, Debug, PartialEq, Eq, Structural)]
pub enum TagReadStep {
    /// The bytes hold no tag header.
    NoTag,
    /// The header announces a major version that is not accepted.
    UnexpectedVersion { decoded: HeaderDecode },
    /// The header declares more payload than the ceiling allows.
    TooLarge { decoded: HeaderDecode },
    /// The payload of `decoded.header.size` bytes is to be read and decoded.
    ReadPayload { decoded: HeaderDecode },
}

/// Whether a tag of the given major version is taken: the expected version
/// where one is expected, and otherwise versions 3 and 4.
pub open spec fn version_accepted(version_major: u8, expected: Option<u8>) -> bool {
    match expected {
        Some(version) => version_major == version,
        None => version_major == 3 || version_major == 4,
    }
}

/// The step that follows from the first bytes of a file. In order: a
/// missing header, a version that is not accepted and a declared size above
/// the ceiling end the work; otherwise the payload is to be read.
pub open spec fn tag_read_step_of(header: Seq<u8>, expected: Option<u8>, max_tag_size: u32)
    -> TagReadStep {
    match tag_header_of(header) {
        None => TagReadStep::NoTag,
        Some(decoded) => if !version_accepted(decoded.header.version_major, expected) {
            TagReadStep::UnexpectedVersion { decoded }
        } else if decoded.header.size > max_tag_size {
            TagReadStep::TooLarge { decoded }
        } else {
            TagReadStep::ReadPayload { decoded }
        },
    }
}

/// What a buffer that begins with a tag decodes to, given the version that
/// is expected, if any, and the ceiling on the declared payload size. The
/// first ten bytes decide whether the payload is read at all; a buffer that
/// ends before the declared size is rejected; then the payload is decoded
/// with the rules of the version that the header announces.
pub open spec fn expected_tag_of(data: Seq<u8>, expected: Option<u8>, max_tag_size: u32)
    -> Result<TagView, ErrorKind> {
    match tag_read_step_of(data, expected, max_tag_size) {
        TagReadStep::NoTag => Err(ErrorKind::NoTagPresent),
        TagReadStep::UnexpectedVersion { .. } => Err(ErrorKind::UnsupportedVersion),
        TagReadStep::TooLarge { .. } => Err(ErrorKind::TagTooLarge),
        TagReadStep::ReadPayload { decoded } => if 10 + decoded.header.size > data.len() {
            Err(ErrorKind::TruncatedTag)
        } else {
            match tag_body_of(
                data.subrange(10, 10 + decoded.header.size),
                decoded.header.flags,
                decoded.header.version_major,
            ) {
                Ok(body) => Ok(
                    TagView {
                        header: decoded.header,
                        invalid_synchsafe: decoded.invalid_synchsafe,
                        body,
                    },
                ),
                Err(kind) => Err(kind),
            }
        },
    }
}

/// What a buffer that begins with a tag decodes to when only the given major
/// version is accepted.
pub open spec fn versioned_tag_of(data: Seq<u8>, max_tag_size: u32, version_major: u8) -> Result<
    TagView,
    ErrorKind,
> {
    expected_tag_of(data, Some(version_major), max_tag_size)
}

/// What a buffer that begins with a tag of version 3 or 4 decodes to.
pub open spec fn tag_of(data: Seq<u8>, max_tag_size: u32) -> Result<TagView, ErrorKind> {
    expected_tag_of(data, None, max_tag_size)
}

/// True when an executable outcome stands for the given mathematical one.
pub open spec fn tag_body_decoded_as(
    body: Result<TagBody, ErrorKind>,
    expected: Result<TagBodyView, ErrorKind>,
) -> bool {
    match body {
        Ok(b) => expected == Ok::<TagBodyView, ErrorKind>(b@),
        Err(kind) => expected == Err::<TagBodyView, ErrorKind>(kind),
    }
}

/// True when an executable outcome stands for the given mathematical one.
pub open spec fn tag_decoded_as(tag: Result<Tag, ErrorKind>, expected: Result<TagView, ErrorKind>)
    -> bool {
    match tag {
        Ok(t) => expected == Ok::<TagView, ErrorKind>(t@),
        Err(kind) => expected == Err::<TagView, ErrorKind>(kind),
    }
}

/// Locates the first frame in a payload whose unsynchronization has been
/// undone, and scans the frames from there.
fn scan_tag_body(body: &[u8], flags: u8, version_major: u8) -> (decoded: Result<
    TagBody,
    ErrorKind,
>)
    ensures
        match decoded {
            Ok(b) => frame_start_of(body@, flags, version_major) == Ok::<int, ErrorKind>(
                b@.frame_start,
            ) && b@.body_len == body@.len() && b@.scan == scan_from(
                body@,
                b@.frame_start,
                version_major,
                MAX_EMBEDDED_DEPTH as nat,
            ) && b.frame_start <= b.scan.position <= b.body_len,
            Err(kind) => frame_start_of(body@, flags, version_major) == Err::<int, ErrorKind>(
                kind,
            ),
        },
{
    let len: usize = body.len();
    let mut frame_start: usize = 0;
    if flags & 0x40 != 0 {
        if len < 4 {
            return Err(ErrorKind::InvalidExtendedHeader);
        }
        let extended: u32 = if version_major == 4 {
            read_synchsafe(body, 0)
        } else {
            read_be_u32(body, 0)
        };
        if extended as usize > len - 4 {
            return Err(ErrorKind::InvalidExtendedHeader);
        }
        frame_start = 4 + extended as usize;
    }
    let scan = scan_frames(body, frame_start, version_major);
    Ok(TagBody { body_len: len, frame_start, scan })
}

/// Decodes the payload of a tag: undoes unsynchronization when flag 0x80 is
/// set, skips the extended header when flag 0x40 is set, and scans the
/// frames with the rules of the given major version.
pub fn dissect_tag_body(payload: &[u8], flags: u8, version_major: u8) -> (body: Result<
    TagBody,
    ErrorKind,
>)
    ensures
        tag_body_decoded_as(body, tag_body_of(payload@, flags, version_major)),
        body matches Ok(b) ==> b.frame_start <= b.scan.position <= b.body_len && b.body_len
            <= payload@.len(),
{
    if flags & 0x80 != 0 {
        proof {
            crate::id3v2_tools::lemma_without_unsynchronization_shape(payload@);
        }
        let restored = remove_unsynchronization(payload);
        scan_tag_body(restored.as_slice(), flags, version_major)
    } else {
        scan_tag_body(payload, flags, version_major)
    }
}

/// Decides from the first ten bytes of a file whether the payload of a tag
/// is to be read. `expected` names the only major version that is accepted;
/// without it versions 3 and 4 are.
pub fn plan_tag_read(header: &[u8], expected: Option<u8>, max_tag_size: u32) -> (step: TagReadStep)
    ensures
        step == tag_read_step_of(header@, expected, max_tag_size),
        step matches TagReadStep::ReadPayload { decoded } ==> header@.len() >= 10
            && decoded.header.size <= max_tag_size,
{
    let decoded = match read_id3v2_header(header) {
        Some(decoded) => decoded,
        None => {
            return TagReadStep::NoTag;
        },
    };
    let major: u8 = decoded.header.version_major;
    let accepted: bool = match expected {
        Some(version) => major == version,
        None => major == 3 || major == 4,
    };
    if !accepted {
        TagReadStep::UnexpectedVersion { decoded }
    } else if decoded.header.size > max_tag_size {
        TagReadStep::TooLarge { decoded }
    } else {
        TagReadStep::ReadPayload { decoded }
    }
}

/// Decodes a buffer that begins with a tag, given the version that is
/// expected, if any, and the ceiling on the declared payload size.
pub fn dissect_expected_tag(data: &[u8], expected: Option<u8>, max_tag_size: u32) -> (tag: Result<
    Tag,
    ErrorKind,
>)
    ensures
        tag_decoded_as(tag, expected_tag_of(data@, expected, max_tag_size)),
        tag matches Ok(t) ==> t.body.frame_start <= t.body.scan.position <= t.body.body_len
            <= t.header.size <= max_tag_size,
{
    match plan_tag_read(data, expected, max_tag_size) {
        TagReadStep::NoTag => Err(ErrorKind::NoTagPresent),
        TagReadStep::UnexpectedVersion { decoded } => Err(ErrorKind::UnsupportedVersion),
        TagReadStep::TooLarge { decoded } => Err(ErrorKind::TagTooLarge),
        TagReadStep::ReadPayload { decoded } => {
            let size: usize = decoded.header.size as usize;
            if size > data.len() - 10 {
                return Err(ErrorKind::TruncatedTag);
            }
            let payload = slice_subrange(data, 10, 10 + size);
            match dissect_tag_body(payload, decoded.header.flags, decoded.header.version_major) {
                Ok(body) => Ok(
                    Tag {
                        header: decoded.header,
                        invalid_synchsafe: decoded.invalid_synchsafe,
                        body,
                    },
                ),
                Err(kind) => Err(kind),
            }
        },
    }
}

/// Decodes a buffer that begins with a tag of the given major version.
pub fn dissect_versioned_tag(data: &[u8], max_tag_size: u32, version_major: u8) -> (tag: Result<
    Tag,
    ErrorKind,
>)
    ensures
        tag_decoded_as(tag, versioned_tag_of(data@, max_tag_size, version_major)),
        tag matches Ok(t) ==> t.body.frame_start <= t.body.scan.position <= t.body.body_len
            <= t.header.size <= max_tag_size,
{
    dissect_expected_tag(data, Some(version_major), max_tag_size)
}

/// Decodes a buffer that begins with an ID3v2.3 or ID3v2.4 tag. The caller
/// sets the ceiling on the declared payload size; a tag above it is rejected
/// before any payload is looked at.
pub fn dissect_id3v2(data: &[u8], max_tag_size: u32) -> (tag: Result<Tag, ErrorKind>)
    ensures
        tag_decoded_as(tag, tag_of(data@, max_tag_size)),
        tag matches Ok(t) ==> t.body.frame_start <= t.body.scan.position <= t.body.body_len
            <= t.header.size <= max_tag_size,
{
    dissect_expected_tag(data, None, max_tag_size)
}

} // verus!
