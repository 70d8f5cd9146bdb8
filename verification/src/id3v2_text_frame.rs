//! Text information frames (`T***` except `TXXX`): an encoding byte followed
//! by one or more strings.

use crate::errors::ErrorKind;
use crate::id3v2_text_encoding::{
    clone_strings, decode_first_text, decode_text_values, first_text,
    lemma_first_value_is_first_text, text_values, texts_of, TextEncoding,
};
use vstd::prelude::*;
use vstd::slice::slice_subrange;

verus! {

/// A decoded text information frame.
#[derive(Debug)]
pub struct TextFrame {
    /// The encoding that the frame body names.
    pub encoding: TextEncoding,
    /// The first string of the frame.
    pub text: String,
    /// All strings of the frame, in file order.
    pub strings: Vec<String>,
}

/// The mathematical content of a `TextFrame`.
pub struct TextFrameView {
    pub encoding: TextEncoding,
    pub text: Seq<char>,
    pub strings: Seq<Seq<char>>,
}

impl View for TextFrame {
    type V = TextFrameView;

    open spec fn view(&self) -> TextFrameView {
        TextFrameView {
            encoding: self.encoding,
            text: self.text@,
            strings: texts_of(self.strings@),
        }
    }
}

/// What a text frame body decodes to. An empty body, an unknown encoding
/// byte and a body of the encoding byte alone are rejected, in that order.
pub open spec fn text_frame_of(data: Seq<u8>) -> Result<TextFrameView, ErrorKind> {
    if data.len() == 0 {
        Err(ErrorKind::EmptyPayload)
    } else {
        match TextEncoding::of_byte(data[0]) {
            None => Err(ErrorKind::UnsupportedEncoding),
            Some(encoding) => if data.len() < 2 {
                Err(ErrorKind::PayloadTooShort)
            } else {
                Ok(
                    TextFrameView {
                        encoding,
                        text: first_text(data.skip(1), encoding),
                        strings: text_values(data.skip(1), encoding),
                    },
                )
            },
        }
    }
}

/// In a decoded text frame the text is the first of the strings, and there
/// is at least one string unless the body ends inside the first code unit.
pub proof fn lemma_text_is_first_string(data: Seq<u8>)
    requires
        text_frame_of(data) is Ok,
    ensures
        ({
            let frame = text_frame_of(data)->Ok_0;
            &&& frame.strings.len() > 0 ==> frame.strings[0] == frame.text
            &&& frame.strings.len() == 0 <==> data.len() - 1 < frame.encoding.unit_width()
        }),
{
    let encoding = TextEncoding::of_byte(data[0])->Some_0;
    lemma_first_value_is_first_text(data.skip(1), encoding);
}

impl TextFrame {
    /// Decodes a text frame body.
    pub fn parse(data: &[u8]) -> (frame: Result<TextFrame, ErrorKind>)
        ensures
            match frame {
                Ok(f) => text_frame_of(data@) == Ok::<TextFrameView, ErrorKind>(f@),
                Err(kind) => text_frame_of(data@) == Err::<TextFrameView, ErrorKind>(kind),
            },
    {
        if data.len() == 0 {
            return Err(ErrorKind::EmptyPayload);
        }
        let encoding = match TextEncoding::from_byte(data[0]) {
            Ok(encoding) => encoding,
            Err(kind) => {
                return Err(kind);
            },
        };
        if data.len() < 2 {
            return Err(ErrorKind::PayloadTooShort);
        }
        let text_data = slice_subrange(data, 1, data.len());
        assert(text_data@ =~= data@.skip(1));
        let text = decode_first_text(text_data, encoding);
        let strings = decode_text_values(text_data, encoding);
        Ok(TextFrame { encoding, text, strings })
    }

    /// Returns the first string of the frame.
    pub fn primary_text(&self) -> (text: &str)
        ensures
            text@ == self@.text,
    {
        self.text.as_str()
    }
}

impl Clone for TextFrame {
    /// The copy has the same view.
    fn clone(&self) -> (copy: TextFrame)
        ensures
            copy@ == self@,
    {
        TextFrame {
            encoding: self.encoding,
            text: self.text.clone(),
            strings: clone_strings(&self.strings),
        }
    }
}

} // verus!
