//! ID3v2.4: synchsafe frame sizes and the version 2.4 list of frame
//! identifiers.

use crate::errors::ErrorKind;
use crate::id3v2_dissector::{
    dissect_tag_body, dissect_versioned_tag, tag_body_decoded_as, tag_body_of, tag_decoded_as,
    versioned_tag_of, Tag, TagBody,
};
use crate::id3v2_frame::{Id3v2Frame, MAX_EMBEDDED_DEPTH};
use crate::id3v2_frame_decoder::{emitted_frame_at, parse_frame_at};
use crate::id3v2_tools::{detect_id3v2_version, id3v2_version_of};
use vstd::prelude::*;

verus! {

/// The dissector for files that carry an ID3v2.4 tag.
#[derive(Clone, Copy, Debug, PartialEq, Eq, Structural)]
pub struct Id3v24Dissector;

/// Whether the ID3v2.4 dissector takes a file with the given header: only a
/// tag header of major version 4.
pub open spec fn id3v2_4_handles(header: Seq<u8>) -> bool {
    match id3v2_version_of(header) {
        Some((major, _)) => major == 4,
        None => false,
    }
}

impl Id3v24Dissector {
    /// Returns the name of the media type.
    pub fn media_type(&self) -> (name: &'static str)
        ensures
            name@ == "ID3v2.4"@,
    {
        "ID3v2.4"
    }

    /// Returns the name of the dissector.
    pub fn name(&self) -> (name: &'static str)
        ensures
            name@ == "ID3v2.4 Dissector"@,
    {
        "ID3v2.4 Dissector"
    }

    /// Whether this dissector takes a file with the given header.
    pub fn can_handle(&self, header: &[u8]) -> (handles: bool)
        ensures
            handles == id3v2_4_handles(header@),
    {
        match detect_id3v2_version(header) {
            Some((major, _minor)) => major == 4,
            None => false,
        }
    }
}

/// Decodes the ID3v2.4 frame at `pos`. Returns the frame wherever a header
/// with a well-formed identifier and a non-empty payload that fits stands at
/// `pos`; a frame whose identifier is not on the version 2.4 list is
/// returned with binary content. Returns `None` at the end of the region, at
/// padding, at a malformed identifier and at an empty or oversized payload.
pub fn parse_id3v2_4_frame(buffer: &[u8], pos: usize) -> (frame: Option<Id3v2Frame>)
    ensures
        match frame {
            Some(f) => emitted_frame_at(buffer@, pos as int, 4, MAX_EMBEDDED_DEPTH as nat) == Some(
                f@,
            ),
            None => emitted_frame_at(buffer@, pos as int, 4, MAX_EMBEDDED_DEPTH as nat) is None,
        },
{
    parse_frame_at(buffer, pos, 4)
}

/// Decodes the payload of an ID3v2.4 tag with the given header flags.
pub fn dissect_id3v2_4(payload: &[u8], flags: u8) -> (body: Result<TagBody, ErrorKind>)
    ensures
        tag_body_decoded_as(body, tag_body_of(payload@, flags, 4)),
        body matches Ok(b) ==> b.frame_start <= b.scan.position <= b.body_len && b.body_len
            <= payload@.len(),
{
    dissect_tag_body(payload, flags, 4)
}

/// Decodes a buffer that begins with an ID3v2.4 tag whose declared payload
/// size is at most `max_tag_size`.
pub fn dissect_id3v2_4_file(data: &[u8], max_tag_size: u32) -> (tag: Result<Tag, ErrorKind>)
    ensures
        tag_decoded_as(tag, versioned_tag_of(data@, max_tag_size, 4)),
        tag matches Ok(t) ==> t.body.frame_start <= t.body.scan.position <= t.body.body_len
            <= t.header.size <= max_tag_size,
{
    dissect_versioned_tag(data, max_tag_size, 4)
}

} // verus!
