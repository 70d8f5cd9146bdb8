//! User-defined text frames (`TXXX`): an encoding byte, a terminated
//! description and a value.

use crate::errors::ErrorKind;
use crate::id3v2_text_encoding::{split_terminated_text, terminated_pair, TextEncoding};
use vstd::prelude::*;
use vstd::slice::slice_subrange;

verus! {

/// A decoded user-defined text frame.
#[derive(Debug)]
pub struct UserTextFrame {
    /// The encoding that the frame body names.
    pub encoding: TextEncoding,
    /// The description that identifies the value.
    pub description: String,
    /// The value.
    pub value: String,
}

/// The mathematical content of a `UserTextFrame`.
pub struct UserTextFrameView {
    pub encoding: TextEncoding,
    pub description: Seq<char>,
    pub value: Seq<char>,
}

impl View for UserTextFrame {
    type V = UserTextFrameView;

    open spec fn view(&self) -> UserTextFrameView {
        UserTextFrameView {
            encoding: self.encoding,
            description: self.description@,
            value: self.value@,
        }
    }
}

/// What a user-defined text frame body decodes to. An empty body, an unknown
/// encoding byte, a body of the encoding byte alone and a description
/// without terminator are rejected, in that order.
pub open spec fn user_text_frame_of(data: Seq<u8>) -> Result<UserTextFrameView, ErrorKind> {
    if data.len() == 0 {
        Err(ErrorKind::EmptyPayload)
    } else {
        match TextEncoding::of_byte(data[0]) {
            None => Err(ErrorKind::UnsupportedEncoding),
            Some(encoding) => if data.len() < 2 {
                Err(ErrorKind::PayloadTooShort)
            } else {
                match terminated_pair(data.skip(1), encoding) {
                    Some((description, value)) => Ok(
                        UserTextFrameView { encoding, description, value },
                    ),
                    None => Err(ErrorKind::MissingTerminator),
                }
            },
        }
    }
}

impl UserTextFrame {
    /// Decodes a user-defined text frame body.
    pub fn parse(data: &[u8]) -> (frame: Result<UserTextFrame, ErrorKind>)
        ensures
            match frame {
                Ok(f) => user_text_frame_of(data@) == Ok::<UserTextFrameView, ErrorKind>(f@),
                Err(kind) => user_text_frame_of(data@) == Err::<UserTextFrameView, ErrorKind>(
                    kind,
                ),
            },
    {
        if data.len() == 0 {
            return Err(ErrorKind::EmptyPayload);
        }
        let encoding = match TextEncoding::from_byte(data[0]) {
            Ok(encoding) => encoding,
            Err(kind) => {
                return Err(kind);
            },
        };
        if data.len() < 2 {
            return Err(ErrorKind::PayloadTooShort);
        }
        let text_data = slice_subrange(data, 1, data.len());
        assert(text_data@ =~= data@.skip(1));
        match split_terminated_text(text_data, encoding) {
            Ok((description, value)) => Ok(UserTextFrame { encoding, description, value }),
            Err(kind) => Err(kind),
        }
    }
}

impl Clone for UserTextFrame {
    /// The copy has the same view.
    fn clone(&self) -> (copy: UserTextFrame)
        ensures
            copy@ == self@,
    {
        UserTextFrame {
            encoding: self.encoding,
            description: self.description.clone(),
            value: self.value.clone(),
        }
    }
}

} // verus!
