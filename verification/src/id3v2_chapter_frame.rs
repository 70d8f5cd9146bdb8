//! Chapter frames (`CHAP`): a terminated element identifier, four 32-bit
//! fields and a region of embedded frames.

use crate::errors::ErrorKind;
use crate::id3v2_frame::{
    clone_frames, frames_view, FrameView, Id3v2Frame, MAX_EMBEDDED_DEPTH,
};
use crate::id3v2_frame_decoder::{decode_embedded_frames, embedded_frames_of};
use crate::id3v2_text_encoding::{
    decode_iso88591_string, find_terminator, latin1_text, terminator_from, TextEncoding,
};
use crate::id3v2_tools::{be_u32_at, read_be_u32};
use crate::text_format::{push_zero_padded, zero_padded};
use vstd::prelude::*;
use vstd::slice::slice_subrange;

verus! {

/// A decoded chapter frame.
#[derive(Debug)]
pub struct ChapterFrame {
    /// The identifier by which tables of contents refer to this chapter.
    pub element_id: String,
    /// Start of the chapter in milliseconds.
    pub start_time: u32,
    /// End of the chapter in milliseconds.
    pub end_time: u32,
    /// Start of the chapter as a byte offset; `0xFFFFFFFF` when unused.
    pub start_offset: u32,
    /// End of the chapter as a byte offset; `0xFFFFFFFF` when unused.
    pub end_offset: u32,
    /// The frames embedded in the chapter, in file order.
    pub sub_frames: Vec<Id3v2Frame>,
}

/// The mathematical content of a `ChapterFrame`.
pub struct ChapterFrameView {
    pub element_id: Seq<char>,
    pub start_time: u32,
    pub end_time: u32,
    pub start_offset: u32,
    pub end_offset: u32,
    pub sub_frames: Seq<FrameView>,
}

/// The view of a chapter frame: its fields, with every embedded frame
/// replaced by its own view.
pub open spec fn chapter_view(chapter: ChapterFrame) -> ChapterFrameView
    decreases chapter,
{
    ChapterFrameView {
        element_id: chapter.element_id@,
        start_time: chapter.start_time,
        end_time: chapter.end_time,
        start_offset: chapter.start_offset,
        end_offset: chapter.end_offset,
        sub_frames: frames_view(chapter.sub_frames@),
    }
}

impl View for ChapterFrame {
    type V = ChapterFrameView;

    open spec fn view(&self) -> ChapterFrameView {
        chapter_view(*self)
    }
}

/// What a chapter frame body decodes to at the given nesting depth. An empty
/// body, an element identifier without terminator and a body that ends
/// before the fourth 32-bit field are rejected, in that order. What follows
/// the fields is scanned for embedded frames.
pub open spec fn chapter_frame_of(data: Seq<u8>, version_major: u8, depth: nat) -> Result<
    ChapterFrameView,
    ErrorKind,
>
    decreases depth, 1nat, 0nat,
{
    if data.len() == 0 {
        Err(ErrorKind::EmptyPayload)
    } else {
        match terminator_from(data, 0, 1) {
            None => Err(ErrorKind::MissingTerminator),
            Some(end) => if end + 17 > data.len() {
                Err(ErrorKind::PayloadTooShort)
            } else {
                Ok(
                    ChapterFrameView {
                        element_id: latin1_text(data.subrange(0, end)),
                        start_time: be_u32_at(data, end + 1),
                        end_time: be_u32_at(data, end + 5),
                        start_offset: be_u32_at(data, end + 9),
                        end_offset: be_u32_at(data, end + 13),
                        sub_frames: embedded_frames_of(data.skip(end + 17), version_major, depth),
                    },
                )
            },
        }
    }
}

/// The offset value that marks a byte offset as unused.
pub const UNUSED_OFFSET: u32 = 0xFFFF_FFFF;

impl ChapterFrameView {
    /// True when both byte offsets are in use.
    pub open spec fn byte_offsets_used(self) -> bool {
        self.start_offset != UNUSED_OFFSET && self.end_offset != UNUSED_OFFSET
    }

    /// The length of the chapter in milliseconds: `max(0, end - start)`.
    pub open spec fn length(self) -> int {
        if self.end_time >= self.start_time {
            self.end_time - self.start_time
        } else {
            0
        }
    }
}

impl ChapterFrame {
    /// Decodes a chapter frame body. Embedded frames are decoded with the
    /// rules of the given major version.
    pub fn parse(data: &[u8], version_major: u8) -> (frame: Result<ChapterFrame, ErrorKind>)
        ensures
            match frame {
                Ok(f) => chapter_frame_of(data@, version_major, MAX_EMBEDDED_DEPTH as nat) == Ok::<
                    ChapterFrameView,
                    ErrorKind,
                >(f@),
                Err(kind) => chapter_frame_of(data@, version_major, MAX_EMBEDDED_DEPTH as nat)
                    == Err::<ChapterFrameView, ErrorKind>(kind),
            },
    {
        ChapterFrame::parse_with_depth(data, version_major, MAX_EMBEDDED_DEPTH)
    }

    /// Decodes the frames embedded in a chapter with the rules of the
    /// given major version.
    pub fn parse_embedded_frames(frame_data: &[u8], version_major: u8) -> (frames: Vec<
        Id3v2Frame,
    >)
        ensures
            frames_view(frames@) == embedded_frames_of(
                frame_data@,
                version_major,
                MAX_EMBEDDED_DEPTH as nat,
            ),
    {
        decode_embedded_frames(frame_data, version_major, MAX_EMBEDDED_DEPTH)
    }

    /// Decodes a chapter frame body, allowing `depth` further levels of
    /// embedded frames below it.
    pub fn parse_with_depth(data: &[u8], version_major: u8, depth: u32) -> (frame: Result<
        ChapterFrame,
        ErrorKind,
    >)
        ensures
            match frame {
                Ok(f) => chapter_frame_of(data@, version_major, depth as nat) == Ok::<
                    ChapterFrameView,
                    ErrorKind,
                >(f@),
                Err(kind) => chapter_frame_of(data@, version_major, depth as nat) == Err::<
                    ChapterFrameView,
                    ErrorKind,
                >(kind),
            },
        decreases depth, 1nat, 0nat,
    {
        let len: usize = data.len();
        if len == 0 {
            return Err(ErrorKind::EmptyPayload);
        }
        let end: usize = match find_terminator(data, 0, TextEncoding::Iso88591) {
            Some(end) => end,
            None => {
                return Err(ErrorKind::MissingTerminator);
            },
        };
        if len - end < 17 {
            return Err(ErrorKind::PayloadTooShort);
        }
        let element_id = decode_iso88591_string(slice_subrange(data, 0, end));
        let start_time: u32 = read_be_u32(data, end + 1);
        let end_time: u32 = read_be_u32(data, end + 5);
        let start_offset: u32 = read_be_u32(data, end + 9);
        let end_offset: u32 = read_be_u32(data, end + 13);
        let region = slice_subrange(data, end + 17, len);
        assert(region@ =~= data@.skip(end + 17));
        let sub_frames = decode_embedded_frames(region, version_major, depth);
        Ok(ChapterFrame { element_id, start_time, end_time, start_offset, end_offset, sub_frames })
    }

    /// Whether both byte offsets are in use.
    pub fn has_byte_offsets(&self) -> (used: bool)
        ensures
            used == self@.byte_offsets_used(),
    {
        self.start_offset != UNUSED_OFFSET && self.end_offset != UNUSED_OFFSET
    }

    /// Returns the length of the chapter in milliseconds; zero when the end
    /// lies before the start.
    pub fn duration(&self) -> (length: u32)
        ensures
            length == self@.length(),
    {
        if self.end_time >= self.start_time {
            self.end_time - self.start_time
        } else {
            0
        }
    }
}

/// A time in milliseconds written as `hh:mm:ss.mmm`: hours, minutes and
/// seconds with at least two digits, milliseconds with three.
pub open spec fn timestamp_text(ms: u32) -> Seq<char> {
    let total_seconds = (ms / 1000) as nat;
    zero_padded(total_seconds / 3600, 2) + seq![':'] + zero_padded((total_seconds % 3600) / 60, 2)
        + seq![':'] + zero_padded(total_seconds % 60, 2) + seq!['.'] + zero_padded(
        (ms % 1000) as nat,
        3,
    )
}

/// Writes a time in milliseconds as `hh:mm:ss.mmm`.
pub fn format_timestamp(ms: u32) -> (text: String)
    ensures
        text@ == timestamp_text(ms),
{
    let total_seconds: u32 = ms / 1000;
    let milliseconds: u32 = ms % 1000;
    let hours: u32 = total_seconds / 3600;
    let minutes: u32 = (total_seconds % 3600) / 60;
    let seconds: u32 = total_seconds % 60;
    let mut out = String::new();
    push_zero_padded(&mut out, hours as u64, 2);
    out.push(':');
    push_zero_padded(&mut out, minutes as u64, 2);
    out.push(':');
    push_zero_padded(&mut out, seconds as u64, 2);
    out.push('.');
    push_zero_padded(&mut out, milliseconds as u64, 3);
    assert(out@ =~= timestamp_text(ms));
    out
}

impl Clone for ChapterFrame {
    /// The copy has the same view.
    fn clone(&self) -> (copy: ChapterFrame)
        ensures
            copy@ == self@,
        decreases self,
    {
        ChapterFrame {
            element_id: self.element_id.clone(),
            start_time: self.start_time,
            end_time: self.end_time,
            start_offset: self.start_offset,
            end_offset: self.end_offset,
            sub_frames: clone_frames(&self.sub_frames),
        }
    }
}

} // verus!
