//! The conditions that decoding can report. None of them aborts a run: a
//! failed content parse keeps the frame with its raw bytes, and only a
//! truncated or malformed header ends the scan of its region.

use vstd::prelude::*;

verus! {

/// What went wrong, or what was noticed, while decoding.
#[derive(Clone, Copy, Debug, PartialEq, Eq, Structural)]
pub enum ErrorKind {
    /// The `ID3` magic is missing: there is no tag. Not a failure.
    NoTagPresent,
    /// A size byte of the tag header has its high bit set. The masked value
    /// is used and decoding continues.
    InvalidSynchsafe,
    /// A frame declares more payload than its region has left. The scan of
    /// that region stops.
    TruncatedFrame,
    /// The frame identifier is not defined by the tag's version. The frame is
    /// kept with binary content.
    UnknownFrameId,
    /// The text encoding byte is not one of the four known values, or names
    /// an encoding that the tag's version does not allow.
    UnsupportedEncoding,
    /// A frame header declares an empty payload. The header is skipped.
    ZeroSizeFrame,
    /// The scan reached the padding behind the last frame.
    PaddingReached,
    /// A frame payload that must hold at least an encoding byte is empty.
    EmptyPayload,
    /// A frame payload ends before one of its fixed fields.
    PayloadTooShort,
    /// A terminated string in a frame payload has no terminator.
    MissingTerminator,
    /// The tag declares more payload than the caller's ceiling allows.
    TagTooLarge,
    /// The buffer ends before the declared end of the tag payload.
    TruncatedTag,
    /// The extended header does not fit into the tag payload.
    InvalidExtendedHeader,
    /// The tag's major version is neither 3 nor 4.
    UnsupportedVersion,
}

impl ErrorKind {
    /// The one-line explanation of each condition.
    pub open spec fn description_text(self) -> Seq<char> {
        match self {
            ErrorKind::NoTagPresent => "No ID3v2 header found"@,
            ErrorKind::InvalidSynchsafe => "Invalid synchsafe format detected in size field"@,
            ErrorKind::TruncatedFrame => "Frame size exceeds remaining buffer"@,
            ErrorKind::UnknownFrameId => "Unknown frame ID for this ID3v2 version"@,
            ErrorKind::UnsupportedEncoding => "Text encoding is unknown or not valid for this ID3v2 version"@,
            ErrorKind::ZeroSizeFrame => "Zero-sized frame, skipping"@,
            ErrorKind::PaddingReached => "Reached padding section"@,
            ErrorKind::EmptyPayload => "Frame data is empty"@,
            ErrorKind::PayloadTooShort => "Frame data too short"@,
            ErrorKind::MissingTerminator => "Frame string not null-terminated"@,
            ErrorKind::TagTooLarge => "Tag size exceeds the configured ceiling"@,
            ErrorKind::TruncatedTag => "Buffer too small for the declared tag size"@,
            ErrorKind::InvalidExtendedHeader => "Invalid extended header size"@,
            ErrorKind::UnsupportedVersion => "Unsupported ID3v2 version"@,
        }
    }

    /// True for the conditions that are observations rather than failures:
    /// an absent tag, reached padding and a skipped empty frame.
    pub open spec fn benign(self) -> bool {
        self == ErrorKind::NoTagPresent || self == ErrorKind::PaddingReached || self
            == ErrorKind::ZeroSizeFrame
    }

    /// True for the conditions that count as a failure to decode a frame:
    /// every condition that is neither benign nor an unknown identifier.
    pub open spec fn decode_failure(self) -> bool {
        !self.benign() && self != ErrorKind::UnknownFrameId
    }

    /// Returns the one-line explanation of this condition.
    pub fn description(&self) -> (text: &'static str)
        ensures
            text@ == self.description_text(),
    {
        match self {
            ErrorKind::NoTagPresent => "No ID3v2 header found",
            ErrorKind::InvalidSynchsafe => "Invalid synchsafe format detected in size field",
            ErrorKind::TruncatedFrame => "Frame size exceeds remaining buffer",
            ErrorKind::UnknownFrameId => "Unknown frame ID for this ID3v2 version",
            ErrorKind::UnsupportedEncoding => "Text encoding is unknown or not valid for this ID3v2 version",
            ErrorKind::ZeroSizeFrame => "Zero-sized frame, skipping",
            ErrorKind::PaddingReached => "Reached padding section",
            ErrorKind::EmptyPayload => "Frame data is empty",
            ErrorKind::PayloadTooShort => "Frame data too short",
            ErrorKind::MissingTerminator => "Frame string not null-terminated",
            ErrorKind::TagTooLarge => "Tag size exceeds the configured ceiling",
            ErrorKind::TruncatedTag => "Buffer too small for the declared tag size",
            ErrorKind::InvalidExtendedHeader => "Invalid extended header size",
            ErrorKind::UnsupportedVersion => "Unsupported ID3v2 version",
        }
    }

    /// Whether this condition counts as a failure to decode a frame.
    pub fn is_decode_failure(&self) -> (failure: bool)
        ensures
            failure == self.decode_failure(),
    {
        match self {
            ErrorKind::NoTagPresent => false,
            ErrorKind::PaddingReached => false,
            ErrorKind::ZeroSizeFrame => false,
            ErrorKind::UnknownFrameId => false,
            _ => true,
        }
    }

    /// Whether this condition is an observation rather than a failure.
    pub fn is_benign(&self) -> (benign: bool)
        ensures
            benign == self.benign(),
    {
        match self {
            ErrorKind::NoTagPresent => true,
            ErrorKind::PaddingReached => true,
            ErrorKind::ZeroSizeFrame => true,
            _ => false,
        }
    }
}

} // verus!
