//! Unique file identifier frames (`UFID`): a terminated ISO-8859-1 owner
//! identifier followed by an opaque identifier.

use crate::errors::ErrorKind;
use crate::id3v2_text_encoding::{
    decode_iso88591_string, find_terminator, latin1_text, terminator_from, TextEncoding,
};
use vstd::prelude::*;
use vstd::slice::{slice_subrange, slice_to_vec};

verus! {

/// A decoded unique file identifier frame.
#[derive(Debug)]
pub struct UniqueFileIdFrame {
    /// The owner of the identifier, usually a URL or an e-mail address.
    pub owner_identifier: String,
    /// The identifier itself, uninterpreted.
    pub identifier: Vec<u8>,
}

/// The mathematical content of a `UniqueFileIdFrame`.
pub struct UniqueFileIdFrameView {
    pub owner_identifier: Seq<char>,
    pub identifier: Seq<u8>,
}

impl View for UniqueFileIdFrame {
    type V = UniqueFileIdFrameView;

    open spec fn view(&self) -> UniqueFileIdFrameView {
        UniqueFileIdFrameView {
            owner_identifier: self.owner_identifier@,
            identifier: self.identifier@,
        }
    }
}

/// What a unique file identifier body decodes to. An empty body and an owner
/// identifier without terminator are rejected, in that order.
pub open spec fn unique_file_id_frame_of(data: Seq<u8>) -> Result<
    UniqueFileIdFrameView,
    ErrorKind,
> {
    if data.len() == 0 {
        Err(ErrorKind::EmptyPayload)
    } else {
        match terminator_from(data, 0, 1) {
            Some(end) => Ok(
                UniqueFileIdFrameView {
                    owner_identifier: latin1_text(data.subrange(0, end)),
                    identifier: data.skip(end + 1),
                },
            ),
            None => Err(ErrorKind::MissingTerminator),
        }
    }
}

impl UniqueFileIdFrame {
    /// Decodes a unique file identifier frame body.
    pub fn parse(data: &[u8]) -> (frame: Result<UniqueFileIdFrame, ErrorKind>)
        ensures
            match frame {
                Ok(f) => unique_file_id_frame_of(data@) == Ok::<UniqueFileIdFrameView, ErrorKind>(
                    f@,
                ),
                Err(kind) => unique_file_id_frame_of(data@) == Err::<
                    UniqueFileIdFrameView,
                    ErrorKind,
                >(kind),
            },
    {
        let len: usize = data.len();
        if len == 0 {
            return Err(ErrorKind::EmptyPayload);
        }
        match find_terminator(data, 0, TextEncoding::Iso88591) {
            Some(end) => {
                let owner_identifier = decode_iso88591_string(slice_subrange(data, 0, end));
                let rest = slice_subrange(data, end + 1, len);
                assert(rest@ =~= data@.skip(end + 1));
                let identifier = slice_to_vec(rest);
                Ok(UniqueFileIdFrame { owner_identifier, identifier })
            },
            None => Err(ErrorKind::MissingTerminator),
        }
    }
}

impl Clone for UniqueFileIdFrame {
    /// The copy has the same view.
    fn clone(&self) -> (copy: UniqueFileIdFrame)
        ensures
            copy@ == self@,
    {
        UniqueFileIdFrame {
            owner_identifier: self.owner_identifier.clone(),
            identifier: slice_to_vec(self.identifier.as_slice()),
        }
    }
}

} // verus!
