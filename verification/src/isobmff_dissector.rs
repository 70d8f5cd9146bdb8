//! ISO base media files: detection by the `ftyp` box and the walk over the
//! top-level boxes, one box header at a time.

use crate::id3v2_tools::{be_u32_at, read_be_u32};
use vstd::prelude::*;
use vstd::slice::{slice_subrange, slice_to_vec};

verus! {

/// The dissector for ISO base media files such as MP4.
#[derive(Clone, Copy, Debug, PartialEq, Eq, Structural)]
pub struct IsobmffDissector;

/// Whether a file header holds the box type `ftyp` at offset 4.
pub open spec fn isobmff_handles(header: Seq<u8>) -> bool {
    header.len() >= 8 && header[4] == 0x66 && header[5] == 0x74 && header[6] == 0x79 && header[7]
        == 0x70
}

/// What the walk over the top-level boxes does at one box header.
#[derive(Debug)]
pub enum BoxStep {
    /// The walk ends without a box: the position lies behind the file, the
    /// header could not be read in full, or the box is shorter than its own
    /// header.
    End,
    /// A box of the given size and type. The walk goes on at `next`, or ends
    /// when the box reaches the end of the file.
    Box { size: u32, box_type: Vec<u8>, next: Option<u64> },
}

/// The mathematical content of a `BoxStep`.
pub enum BoxStepView {
    End,
    Box { size: u32, box_type: Seq<u8>, next: Option<u64> },
}

impl View for BoxStep {
    type V = BoxStepView;

    open spec fn view(&self) -> BoxStepView {
        match *self {
            BoxStep::End => BoxStepView::End,
            BoxStep::Box { size, box_type, next } => BoxStepView::Box {
                size,
                box_type: box_type@,
                next,
            },
        }
    }
}

/// The step of the walk at position `pos` of a file of `file_len` bytes,
/// given the bytes that could be read there. The box size is the big-endian
/// integer in the first four bytes, the box type the next four bytes.
pub open spec fn box_step_of(header: Seq<u8>, pos: u64, file_len: u64) -> BoxStepView {
    if pos >= file_len || header.len() < 8 || be_u32_at(header, 0) < 8 {
        BoxStepView::End
    } else {
        BoxStepView::Box {
            size: be_u32_at(header, 0),
            box_type: header.subrange(4, 8),
            next: if pos + be_u32_at(header, 0) >= file_len {
                None
            } else {
                Some((pos + be_u32_at(header, 0)) as u64)
            },
        }
    }
}

impl IsobmffDissector {
    /// Returns the name of the media type.
    pub fn media_type(&self) -> (name: &'static str)
        ensures
            name@ == "ISO BMFF"@,
    {
        "ISO BMFF"
    }

    /// Returns the name of the dissector.
    pub fn name(&self) -> (name: &'static str)
        ensures
            name@ == "ISO BMFF Dissector"@,
    {
        "ISO BMFF Dissector"
    }

    /// Whether this dissector takes a file with the given header.
    pub fn can_handle(&self, header: &[u8]) -> (handles: bool)
        ensures
            handles == isobmff_handles(header@),
    {
        header.len() >= 8 && header[4] == 0x66 && header[5] == 0x74 && header[6] == 0x79
            && header[7] == 0x70
    }
}

/// Performs one step of the walk over the top-level boxes: interprets the
/// box header read at `pos` and says where the next one stands.
pub fn dissect_isobmff_box(header: &[u8], pos: u64, file_len: u64) -> (step: BoxStep)
    ensures
        step@ == box_step_of(header@, pos, file_len),
{
    if pos >= file_len || header.len() < 8 {
        return BoxStep::End;
    }
    let size: u32 = read_be_u32(header, 0);
    if size < 8 {
        return BoxStep::End;
    }
    let box_type = slice_to_vec(slice_subrange(header, 4, 8));
    let next: Option<u64> = if size as u64 >= file_len - pos {
        None
    } else {
        Some(pos + size as u64)
    };
    BoxStep::Box { size, box_type, next }
}

} // verus!
