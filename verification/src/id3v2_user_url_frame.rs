//! User-defined URL frames (`WXXX`): an encoding byte, a terminated
//! description in that encoding and a URL in ISO-8859-1.

use crate::errors::ErrorKind;
use crate::id3v2_text_encoding::{
    decode_first_text, decode_text, decoded_text, find_terminator, first_text, terminator_from,
    TextEncoding,
};
use vstd::prelude::*;
use vstd::slice::slice_subrange;

verus! {

/// A decoded user-defined URL frame.
#[derive(Debug)]
pub struct UserUrlFrame {
    /// The encoding of the description.
    pub encoding: TextEncoding,
    /// The description that identifies the URL.
    pub description: String,
    /// The URL, always ISO-8859-1.
    pub url: String,
}

/// The mathematical content of a `UserUrlFrame`.
pub struct UserUrlFrameView {
    pub encoding: TextEncoding,
    pub description: Seq<char>,
    pub url: Seq<char>,
}

impl View for UserUrlFrame {
    type V = UserUrlFrameView;

    open spec fn view(&self) -> UserUrlFrameView {
        UserUrlFrameView {
            encoding: self.encoding,
            description: self.description@,
            url: self.url@,
        }
    }
}

/// What a user-defined URL frame body decodes to. An empty body, an unknown
/// encoding byte, a body of the encoding byte alone and a description
/// without terminator are rejected, in that order. The URL is the first
/// ISO-8859-1 string behind the description, whatever the encoding byte says.
pub open spec fn user_url_frame_of(data: Seq<u8>) -> Result<UserUrlFrameView, ErrorKind> {
    if data.len() == 0 {
        Err(ErrorKind::EmptyPayload)
    } else {
        match TextEncoding::of_byte(data[0]) {
            None => Err(ErrorKind::UnsupportedEncoding),
            Some(encoding) => if data.len() < 2 {
                Err(ErrorKind::PayloadTooShort)
            } else {
                match terminator_from(data, 1, encoding.unit_width()) {
                    Some(end) => Ok(
                        UserUrlFrameView {
                            encoding,
                            description: decoded_text(data.subrange(1, end), encoding),
                            url: first_text(
                                data.skip(end + encoding.unit_width()),
                                TextEncoding::Iso88591,
                            ),
                        },
                    ),
                    None => Err(ErrorKind::MissingTerminator),
                }
            },
        }
    }
}

impl UserUrlFrame {
    /// Decodes a user-defined URL frame body.
    pub fn parse(data: &[u8]) -> (frame: Result<UserUrlFrame, ErrorKind>)
        ensures
            match frame {
                Ok(f) => user_url_frame_of(data@) == Ok::<UserUrlFrameView, ErrorKind>(f@),
                Err(kind) => user_url_frame_of(data@) == Err::<UserUrlFrameView, ErrorKind>(kind),
            },
    {
        let len: usize = data.len();
        if len == 0 {
            return Err(ErrorKind::EmptyPayload);
        }
        let encoding = match TextEncoding::from_byte(data[0]) {
            Ok(encoding) => encoding,
            Err(kind) => {
                return Err(kind);
            },
        };
        if len < 2 {
            return Err(ErrorKind::PayloadTooShort);
        }
        let width: usize = encoding.terminator_len();
        match find_terminator(data, 1, encoding) {
            Some(end) => {
                let description = decode_text(slice_subrange(data, 1, end), encoding);
                let rest = slice_subrange(data, end + width, len);
                assert(rest@ =~= data@.skip(end + width));
                let url = decode_first_text(rest, TextEncoding::Iso88591);
                Ok(UserUrlFrame { encoding, description, url })
            },
            None => Err(ErrorKind::MissingTerminator),
        }
    }
}

impl Clone for UserUrlFrame {
    /// The copy has the same view.
    fn clone(&self) -> (copy: UserUrlFrame)
        ensures
            copy@ == self@,
    {
        UserUrlFrame {
            encoding: self.encoding,
            description: self.description.clone(),
            url: self.url.clone(),
        }
    }
}

} // verus!
