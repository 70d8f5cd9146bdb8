//! The fallback for files that no other dissector takes.

use vstd::prelude::*;

verus! {

/// The dissector of last resort: it takes every file and decodes nothing.
#[derive(Clone, Copy, Debug, PartialEq, Eq, Structural)]
pub struct UnknownDissector;

impl UnknownDissector {
    /// Returns the name of the media type.
    pub fn media_type(&self) -> (name: &'static str)
        ensures
            name@ == "Unknown"@,
    {
        "Unknown"
    }

    /// Returns the name of the dissector.
    pub fn name(&self) -> (name: &'static str)
        ensures
            name@ == "Unknown Format Dissector"@,
    {
        "Unknown Format Dissector"
    }

    /// Whether this dissector takes a file with the given header: always.
    pub fn can_handle(&self, header: &[u8]) -> (handles: bool)
        ensures
            handles,
    {
        true
    }

    /// Returns the one line that this dissector has to say about a file.
    pub fn message(&self) -> (text: &'static str)
        ensures
            text@ == "Unknown format - no suitable dissector available"@,
    {
        "Unknown format - no suitable dissector available"
    }
}

} // verus!
