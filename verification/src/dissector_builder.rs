//! The choice of a dissector from the first bytes of a file.

use crate::id3v2_3_dissector::{id3v2_3_handles, Id3v23Dissector};
use crate::id3v2_4_dissector::{id3v2_4_handles, Id3v24Dissector};
use crate::isobmff_dissector::{isobmff_handles, IsobmffDissector};
use vstd::prelude::*;

verus! {

/// The dissectors that a file can be handed to.
#[derive(Clone, Copy, Debug, PartialEq, Eq, Structural)]
pub enum DissectorKind {
    /// The ID3v2.3 dissector.
    Id3v23,
    /// The ID3v2.4 dissector.
    Id3v24,
    /// The ISO base media file dissector.
    Isobmff,
    /// The fallback that takes every file.
    Unknown,
}

/// The dissector for a file header: the first, in the order ID3v2.3,
/// ID3v2.4, ISO base media, that takes the header, and the fallback when
/// none does.
pub open spec fn dissector_for(header: Seq<u8>) -> DissectorKind {
    if id3v2_3_handles(header) {
        DissectorKind::Id3v23
    } else if id3v2_4_handles(header) {
        DissectorKind::Id3v24
    } else if isobmff_handles(header) {
        DissectorKind::Isobmff
    } else {
        DissectorKind::Unknown
    }
}

/// Chooses the dissector for a file from its first bytes.
#[derive(Clone, Copy, Debug, PartialEq, Eq, Structural)]
pub struct DissectorBuilder;

impl DissectorBuilder {
    /// Creates a builder.
    pub fn new() -> (builder: DissectorBuilder)
        ensures
            builder == DissectorBuilder,
    {
        DissectorBuilder
    }

    /// Chooses the dissector for a file with the given first bytes.
    pub fn build_for_file(&self, header: &[u8]) -> (kind: DissectorKind)
        ensures
            kind == dissector_for(header@),
    {
        if Id3v23Dissector.can_handle(header) {
            DissectorKind::Id3v23
        } else if Id3v24Dissector.can_handle(header) {
            DissectorKind::Id3v24
        } else if IsobmffDissector.can_handle(header) {
            DissectorKind::Isobmff
        } else {
            DissectorKind::Unknown
        }
    }
}

impl Default for DissectorBuilder {
    fn default() -> (builder: DissectorBuilder)
        ensures
            builder == DissectorBuilder,
    {
        DissectorBuilder
    }
}

impl DissectorKind {
    /// The name of the media type that each dissector handles.
    pub open spec fn media_type_text(self) -> Seq<char> {
        match self {
            DissectorKind::Id3v23 => "ID3v2.3"@,
            DissectorKind::Id3v24 => "ID3v2.4"@,
            DissectorKind::Isobmff => "ISO BMFF"@,
            DissectorKind::Unknown => "Unknown"@,
        }
    }

    /// Returns the name of the media type that this dissector handles.
    pub fn media_type(&self) -> (name: &'static str)
        ensures
            name@ == self.media_type_text(),
    {
        match self {
            DissectorKind::Id3v23 => "ID3v2.3",
            DissectorKind::Id3v24 => "ID3v2.4",
            DissectorKind::Isobmff => "ISO BMFF",
            DissectorKind::Unknown => "Unknown",
        }
    }
}

} // verus!
