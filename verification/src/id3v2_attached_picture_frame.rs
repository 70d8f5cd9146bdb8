//! Attached picture frames (`APIC`): an encoding byte, a terminated
//! ISO-8859-1 MIME type, a picture type byte, a terminated description and
//! the picture itself.

use crate::errors::ErrorKind;
use crate::id3v2_text_encoding::{
    decode_iso88591_string, decode_text, decoded_text, find_terminator, latin1_text,
    terminator_from, TextEncoding,
};
use vstd::prelude::*;
use vstd::slice::{slice_subrange, slice_to_vec};

verus! {

/// A decoded attached picture frame.
#[derive(Debug)]
pub struct AttachedPictureFrame {
    /// The encoding of the description.
    pub encoding: TextEncoding,
    /// The MIME type of the picture.
    pub mime_type: String,
    /// The picture type byte.
    pub picture_type: u8,
    /// The description of the picture.
    pub description: String,
    /// The picture, uninterpreted.
    pub picture_data: Vec<u8>,
}

/// The mathematical content of an `AttachedPictureFrame`.
pub struct AttachedPictureFrameView {
    pub encoding: TextEncoding,
    pub mime_type: Seq<char>,
    pub picture_type: u8,
    pub description: Seq<char>,
    pub picture_data: Seq<u8>,
}

impl View for AttachedPictureFrame {
    type V = AttachedPictureFrameView;

    open spec fn view(&self) -> AttachedPictureFrameView {
        AttachedPictureFrameView {
            encoding: self.encoding,
            mime_type: self.mime_type@,
            picture_type: self.picture_type,
            description: self.description@,
            picture_data: self.picture_data@,
        }
    }
}

/// What an attached picture body decodes to. An empty body, an unknown
/// encoding byte, a MIME type without terminator, a missing picture type
/// byte and a description without terminator are rejected, in that order.
pub open spec fn attached_picture_frame_of(data: Seq<u8>) -> Result<
    AttachedPictureFrameView,
    ErrorKind,
> {
    if data.len() == 0 {
        Err(ErrorKind::EmptyPayload)
    } else {
        match TextEncoding::of_byte(data[0]) {
            None => Err(ErrorKind::UnsupportedEncoding),
            Some(encoding) => match terminator_from(data, 1, 1) {
                None => Err(ErrorKind::MissingTerminator),
                Some(mime_end) => if mime_end + 1 >= data.len() {
                    Err(ErrorKind::PayloadTooShort)
                } else {
                    match terminator_from(data, mime_end + 2, encoding.unit_width()) {
                        None => Err(ErrorKind::MissingTerminator),
                        Some(description_end) => Ok(
                            AttachedPictureFrameView {
                                encoding,
                                mime_type: latin1_text(data.subrange(1, mime_end)),
                                picture_type: data[mime_end + 1],
                                description: decoded_text(
                                    data.subrange(mime_end + 2, description_end),
                                    encoding,
                                ),
                                picture_data: data.skip(description_end + encoding.unit_width()),
                            },
                        ),
                    }
                },
            },
        }
    }
}

/// The name that the format gives to each picture type.
pub open spec fn picture_type_name(picture_type: u8) -> Seq<char> {
    if picture_type == 0x00 {
        "Other"@
    } else if picture_type == 0x01 {
        "32x32 pixels file icon"@
    } else if picture_type == 0x02 {
        "Other file icon"@
    } else if picture_type == 0x03 {
        "Cover (front)"@
    } else if picture_type == 0x04 {
        "Cover (back)"@
    } else if picture_type == 0x05 {
        "Leaflet page"@
    } else if picture_type == 0x06 {
        "Media"@
    } else if picture_type == 0x07 {
        "Lead artist/lead performer/soloist"@
    } else if picture_type == 0x08 {
        "Artist/performer"@
    } else if picture_type == 0x09 {
        "Conductor"@
    } else if picture_type == 0x0A {
        "Band/Orchestra"@
    } else if picture_type == 0x0B {
        "Composer"@
    } else if picture_type == 0x0C {
        "Lyricist/text writer"@
    } else if picture_type == 0x0D {
        "Recording location"@
    } else if picture_type == 0x0E {
        "During recording"@
    } else if picture_type == 0x0F {
        "During performance"@
    } else if picture_type == 0x10 {
        "Movie/video screen capture"@
    } else if picture_type == 0x11 {
        "A bright coloured fish"@
    } else if picture_type == 0x12 {
        "Illustration"@
    } else if picture_type == 0x13 {
        "Band/artist logotype"@
    } else if picture_type == 0x14 {
        "Publisher/Studio logotype"@
    } else {
        "Unknown"@
    }
}

impl AttachedPictureFrame {
    /// Decodes an attached picture frame body.
    pub fn parse(data: &[u8]) -> (frame: Result<AttachedPictureFrame, ErrorKind>)
        ensures
            match frame {
                Ok(f) => attached_picture_frame_of(data@) == Ok::<
                    AttachedPictureFrameView,
                    ErrorKind,
                >(f@),
                Err(kind) => attached_picture_frame_of(data@) == Err::<
                    AttachedPictureFrameView,
                    ErrorKind,
                >(kind),
            },
    {
        let len: usize = data.len();
        if len == 0 {
            return Err(ErrorKind::EmptyPayload);
        }
        let encoding = match TextEncoding::from_byte(data[0]) {
            Ok(encoding) => encoding,
            Err(kind) => {
                return Err(kind);
            },
        };
        let width: usize = encoding.terminator_len();
        let mime_end: usize = match find_terminator(data, 1, TextEncoding::Iso88591) {
            Some(end) => end,
            None => {
                return Err(ErrorKind::MissingTerminator);
            },
        };
        if mime_end + 1 >= len {
            return Err(ErrorKind::PayloadTooShort);
        }
        let mime_type = decode_iso88591_string(slice_subrange(data, 1, mime_end));
        let picture_type: u8 = data[mime_end + 1];
        let description_end: usize = match find_terminator(data, mime_end + 2, encoding) {
            Some(end) => end,
            None => {
                return Err(ErrorKind::MissingTerminator);
            },
        };
        let description = decode_text(
            slice_subrange(data, mime_end + 2, description_end),
            encoding,
        );
        let rest = slice_subrange(data, description_end + width, len);
        assert(rest@ =~= data@.skip(description_end + width));
        let picture_data = slice_to_vec(rest);
        Ok(AttachedPictureFrame { encoding, mime_type, picture_type, description, picture_data })
    }

    /// Returns the name that the format gives to this frame's picture type.
    pub fn picture_type_description(&self) -> (name: &'static str)
        ensures
            name@ == picture_type_name(self.picture_type),
    {
        let picture_type: u8 = self.picture_type;
        if picture_type == 0x00 {
            "Other"
        } else if picture_type == 0x01 {
            "32x32 pixels file icon"
        } else if picture_type == 0x02 {
            "Other file icon"
        } else if picture_type == 0x03 {
            "Cover (front)"
        } else if picture_type == 0x04 {
            "Cover (back)"
        } else if picture_type == 0x05 {
            "Leaflet page"
        } else if picture_type == 0x06 {
            "Media"
        } else if picture_type == 0x07 {
            "Lead artist/lead performer/soloist"
        } else if picture_type == 0x08 {
            "Artist/performer"
        } else if picture_type == 0x09 {
            "Conductor"
        } else if picture_type == 0x0A {
            "Band/Orchestra"
        } else if picture_type == 0x0B {
            "Composer"
        } else if picture_type == 0x0C {
            "Lyricist/text writer"
        } else if picture_type == 0x0D {
            "Recording location"
        } else if picture_type == 0x0E {
            "During recording"
        } else if picture_type == 0x0F {
            "During performance"
        } else if picture_type == 0x10 {
            "Movie/video screen capture"
        } else if picture_type == 0x11 {
            "A bright coloured fish"
        } else if picture_type == 0x12 {
            "Illustration"
        } else if picture_type == 0x13 {
            "Band/artist logotype"
        } else if picture_type == 0x14 {
            "Publisher/Studio logotype"
        } else {
            "Unknown"
        }
    }
}

impl Clone for AttachedPictureFrame {
    /// The copy has the same view.
    fn clone(&self) -> (copy: AttachedPictureFrame)
        ensures
            copy@ == self@,
    {
        AttachedPictureFrame {
            encoding: self.encoding,
            mime_type: self.mime_type.clone(),
            picture_type: self.picture_type,
            description: self.description.clone(),
            picture_data: slice_to_vec(self.picture_data.as_slice()),
        }
    }
}

} // verus!
