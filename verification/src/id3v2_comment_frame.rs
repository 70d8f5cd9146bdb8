//! Comment and lyrics frames (`COMM`, `USLT`): an encoding byte, a
//! three-byte language code, a terminated description and the text.

use crate::errors::ErrorKind;
use crate::id3v2_text_encoding::{split_terminated_text, terminated_pair, TextEncoding};
use crate::std_text::{utf8_lossy_string, utf8_lossy_text};
use vstd::prelude::*;
use vstd::slice::slice_subrange;

verus! {

/// A decoded comment or lyrics frame.
#[derive(Debug)]
pub struct CommentFrame {
    /// The encoding that the frame body names.
    pub encoding: TextEncoding,
    /// The language code, taken from bytes 1 to 3 without validation.
    pub language: String,
    /// The short description.
    pub description: String,
    /// The comment or lyrics text.
    pub text: String,
}

/// The mathematical content of a `CommentFrame`.
pub struct CommentFrameView {
    pub encoding: TextEncoding,
    pub language: Seq<char>,
    pub description: Seq<char>,
    pub text: Seq<char>,
}

impl View for CommentFrame {
    type V = CommentFrameView;

    open spec fn view(&self) -> CommentFrameView {
        CommentFrameView {
            encoding: self.encoding,
            language: self.language@,
            description: self.description@,
            text: self.text@,
        }
    }
}

/// What a comment frame body decodes to. A body of fewer than five bytes, an
/// unknown encoding byte and a description without terminator are rejected,
/// in that order.
pub open spec fn comment_frame_of(data: Seq<u8>) -> Result<CommentFrameView, ErrorKind> {
    if data.len() < 5 {
        Err(ErrorKind::PayloadTooShort)
    } else {
        match TextEncoding::of_byte(data[0]) {
            None => Err(ErrorKind::UnsupportedEncoding),
            Some(encoding) => match terminated_pair(data.skip(4), encoding) {
                Some((description, text)) => Ok(
                    CommentFrameView {
                        encoding,
                        language: utf8_lossy_text(data.subrange(1, 4)),
                        description,
                        text,
                    },
                ),
                None => Err(ErrorKind::MissingTerminator),
            },
        }
    }
}

impl CommentFrame {
    /// Decodes a comment or lyrics frame body.
    pub fn parse(data: &[u8]) -> (frame: Result<CommentFrame, ErrorKind>)
        ensures
            match frame {
                Ok(f) => comment_frame_of(data@) == Ok::<CommentFrameView, ErrorKind>(f@),
                Err(kind) => comment_frame_of(data@) == Err::<CommentFrameView, ErrorKind>(kind),
            },
    {
        if data.len() < 5 {
            return Err(ErrorKind::PayloadTooShort);
        }
        let encoding = match TextEncoding::from_byte(data[0]) {
            Ok(encoding) => encoding,
            Err(kind) => {
                return Err(kind);
            },
        };
        let language = utf8_lossy_string(slice_subrange(data, 1, 4));
        let text_data = slice_subrange(data, 4, data.len());
        assert(text_data@ =~= data@.skip(4));
        match split_terminated_text(text_data, encoding) {
            Ok((description, text)) => Ok(CommentFrame { encoding, language, description, text }),
            Err(kind) => Err(kind),
        }
    }
}

impl Clone for CommentFrame {
    /// The copy has the same view.
    fn clone(&self) -> (copy: CommentFrame)
        ensures
            copy@ == self@,
    {
        CommentFrame {
            encoding: self.encoding,
            language: self.language.clone(),
            description: self.description.clone(),
            text: self.text.clone(),
        }
    }
}

} // verus!
