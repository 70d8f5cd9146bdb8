//! URL link frames (`W***` except `WXXX`): the whole body is one
//! ISO-8859-1 string without an encoding byte.

use crate::errors::ErrorKind;
use crate::id3v2_text_encoding::{decode_iso88591_string, latin1_text};
use vstd::prelude::*;

verus! {

/// A decoded URL link frame.
#[derive(Debug)]
pub struct UrlFrame {
    /// The URL.
    pub url: String,
}

/// The mathematical content of a `UrlFrame`.
pub struct UrlFrameView {
    pub url: Seq<char>,
}

impl View for UrlFrame {
    type V = UrlFrameView;

    open spec fn view(&self) -> UrlFrameView {
        UrlFrameView { url: self.url@ }
    }
}

/// What a URL frame body decodes to: every byte is one character. No body is
/// rejected.
pub open spec fn url_frame_of(data: Seq<u8>) -> Result<UrlFrameView, ErrorKind> {
    Ok(UrlFrameView { url: latin1_text(data) })
}

impl UrlFrame {
    /// Decodes a URL frame body. This never fails.
    pub fn parse(data: &[u8]) -> (frame: Result<UrlFrame, ErrorKind>)
        ensures
            match frame {
                Ok(f) => url_frame_of(data@) == Ok::<UrlFrameView, ErrorKind>(f@),
                Err(kind) => url_frame_of(data@) == Err::<UrlFrameView, ErrorKind>(kind),
            },
    {
        let url = decode_iso88591_string(data);
        Ok(UrlFrame { url })
    }
}

impl Clone for UrlFrame {
    /// The copy has the same view.
    fn clone(&self) -> (copy: UrlFrame)
        ensures
            copy@ == self@,
    {
        UrlFrame { url: self.url.clone() }
    }
}

} // verus!
