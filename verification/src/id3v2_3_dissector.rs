//! ID3v2.3: plain big-endian frame sizes and the version 2.3 list of frame
//! identifiers.

use crate::errors::ErrorKind;
use crate::id3v2_dissector::{
    dissect_tag_body, dissect_versioned_tag, tag_body_decoded_as, tag_body_of, tag_decoded_as,
    versioned_tag_of, Tag, TagBody,
};
use crate::id3v2_frame::{Id3v2Frame, MAX_EMBEDDED_DEPTH};
use crate::id3v2_frame_decoder::{emitted_frame_at, parse_frame_at};
use crate::id3v2_tools::{
    detect_id3v2_version, detect_mpeg_sync, has_mpeg_sync, id3v2_version_of,
};
use vstd::prelude::*;

verus! {

/// The dissector for files that carry an ID3v2.3 tag.
#[derive(Clone, Copy, Debug, PartialEq, Eq, Structural)]
pub struct Id3v23Dissector;

/// Whether the ID3v2.3 dissector takes a file with the given header: a tag
/// header of major version 3, or, without any tag header, an MPEG frame
/// sync.
pub open spec fn id3v2_3_handles(header: Seq<u8>) -> bool {
    match id3v2_version_of(header) {
        Some((major, _)) => major == 3,
        None => has_mpeg_sync(header),
    }
}

impl Id3v23Dissector {
    /// Returns the name of the media type.
    pub fn media_type(&self) -> (name: &'static str)
        ensures
            name@ == "ID3v2.3"@,
    {
        "ID3v2.3"
    }

    /// Returns the name of the dissector.
    pub fn name(&self) -> (name: &'static str)
        ensures
            name@ == "ID3v2.3 Dissector"@,
    {
        "ID3v2.3 Dissector"
    }

    /// Whether this dissector takes a file with the given header.
    pub fn can_handle(&self, header: &[u8]) -> (handles: bool)
        ensures
            handles == id3v2_3_handles(header@),
    {
        match detect_id3v2_version(header) {
            Some((major, _minor)) => major == 3,
            None => detect_mpeg_sync(header),
        }
    }
}

/// Decodes the ID3v2.3 frame at `pos`. Returns the frame wherever a header
/// with a well-formed identifier and a non-empty payload that fits stands at
/// `pos`; a frame whose identifier is not on the version 2.3 list is
/// returned with binary content. Returns `None` at the end of the region, at
/// padding, at a malformed identifier and at an empty or oversized payload.
pub fn parse_id3v2_3_frame(buffer: &[u8], pos: usize) -> (frame: Option<Id3v2Frame>)
    ensures
        match frame {
            Some(f) => emitted_frame_at(buffer@, pos as int, 3, MAX_EMBEDDED_DEPTH as nat) == Some(
                f@,
            ),
            None => emitted_frame_at(buffer@, pos as int, 3, MAX_EMBEDDED_DEPTH as nat) is None,
        },
{
    parse_frame_at(buffer, pos, 3)
}

/// Decodes the payload of an ID3v2.3 tag with the given header flags.
pub fn dissect_id3v2_3(payload: &[u8], flags: u8) -> (body: Result<TagBody, ErrorKind>)
    ensures
        tag_body_decoded_as(body, tag_body_of(payload@, flags, 3)),
        body matches Ok(b) ==> b.frame_start <= b.scan.position <= b.body_len && b.body_len
            <= payload@.len(),
{
    dissect_tag_body(payload, flags, 3)
}

/// Decodes a buffer that begins with an ID3v2.3 tag whose declared payload
/// size is at most `max_tag_size`.
pub fn dissect_id3v2_3_file(data: &[u8], max_tag_size: u32) -> (tag: Result<Tag, ErrorKind>)
    ensures
        tag_decoded_as(tag, versioned_tag_of(data@, max_tag_size, 3)),
        tag matches Ok(t) ==> t.body.frame_start <= t.body.scan.position <= t.body.body_len
            <= t.header.size <= max_tag_size,
{
    dissect_versioned_tag(data, max_tag_size, 3)
}

} // verus!
