//! Table of contents frames (`CTOC`): a terminated element identifier, a
//! flags byte, a list of child element identifiers and a region of embedded
//! frames.

use crate::errors::ErrorKind;
use crate::id3v2_frame::{
    clone_frames, frames_view, FrameView, Id3v2Frame, MAX_EMBEDDED_DEPTH,
};
use crate::id3v2_frame_decoder::{decode_embedded_frames, embedded_frames_of};
use crate::id3v2_text_encoding::{
    clone_strings, decode_iso88591_string, find_terminator, latin1_text, lemma_terminator_from,
    terminator_from, texts_of, TextEncoding,
};
use vstd::prelude::*;
use vstd::slice::slice_subrange;

verus! {

/// A decoded table of contents frame.
#[derive(Debug)]
pub struct TableOfContentsFrame {
    /// The identifier of this table of contents.
    pub element_id: String,
    /// Whether this is the root of the table-of-contents tree.
    pub top_level: bool,
    /// Whether the children are to be played in order.
    pub ordered: bool,
    /// The identifiers of the children, in file order.
    pub child_element_ids: Vec<String>,
    /// The frames embedded in the table of contents, in file order.
    pub sub_frames: Vec<Id3v2Frame>,
}

/// The mathematical content of a `TableOfContentsFrame`.
pub struct TableOfContentsFrameView {
    pub element_id: Seq<char>,
    pub top_level: bool,
    pub ordered: bool,
    pub child_element_ids: Seq<Seq<char>>,
    pub sub_frames: Seq<FrameView>,
}

/// The view of a table of contents: its fields, with every embedded frame
/// replaced by its own view.
pub open spec fn table_of_contents_view(toc: TableOfContentsFrame) -> TableOfContentsFrameView
    decreases toc,
{
    TableOfContentsFrameView {
        element_id: toc.element_id@,
        top_level: toc.top_level,
        ordered: toc.ordered,
        child_element_ids: texts_of(toc.child_element_ids@),
        sub_frames: frames_view(toc.sub_frames@),
    }
}

impl View for TableOfContentsFrame {
    type V = TableOfContentsFrameView;

    open spec fn view(&self) -> TableOfContentsFrameView {
        table_of_contents_view(*self)
    }
}

/// The child element identifiers that start at `pos`: `count` terminated
/// ISO-8859-1 strings, together with the position behind the last of them.
/// Nothing when one of them has no terminator.
pub open spec fn child_ids_from(data: Seq<u8>, pos: int, count: nat) -> Option<
    (Seq<Seq<char>>, int),
>
    decreases count,
{
    if count == 0 {
        Some((Seq::<Seq<char>>::empty(), pos))
    } else {
        match terminator_from(data, pos, 1) {
            None => None,
            Some(end) => match child_ids_from(data, end + 1, (count - 1) as nat) {
                None => None,
                Some((ids, next)) => Some((seq![latin1_text(data.subrange(pos, end))] + ids, next)),
            },
        }
    }
}

/// Where all child identifiers are terminated there are exactly `count` of
/// them, and they end inside the data.
pub proof fn lemma_child_ids_from(data: Seq<u8>, pos: int, count: nat)
    requires
        0 <= pos <= data.len(),
    ensures
        child_ids_from(data, pos, count) matches Some((ids, next)) ==> ids.len() == count && pos
            <= next <= data.len(),
    decreases count,
{
    if count > 0 {
        lemma_terminator_from(data, pos, 1);
        match terminator_from(data, pos, 1) {
            Some(end) => {
                lemma_child_ids_from(data, end + 1, (count - 1) as nat);
            },
            None => {},
        }
    }
}

/// A decoded table of contents has as many child identifiers as its entry
/// count byte says.
pub proof fn lemma_child_count_is_entry_count(data: Seq<u8>, version_major: u8, depth: nat)
    requires
        table_of_contents_frame_of(data, version_major, depth) is Ok,
    ensures
        ({
            let end = terminator_from(data, 0, 1)->Some_0;
            table_of_contents_frame_of(data, version_major, depth)->Ok_0.child_element_ids.len()
                == data[end + 2]
        }),
{
    lemma_terminator_from(data, 0, 1);
    let end = terminator_from(data, 0, 1)->Some_0;
    lemma_child_ids_from(data, end + 3, data[end + 2] as nat);
}

/// What a table of contents body decodes to at the given nesting depth. An
/// empty body, an element identifier without terminator, a missing flags or
/// entry count byte and a child identifier without terminator are rejected,
/// in that order. Bit 0 of the flags byte is `ordered`, bit 1 `top_level`.
/// What follows the child identifiers is scanned for embedded frames.
pub open spec fn table_of_contents_frame_of(data: Seq<u8>, version_major: u8, depth: nat)
    -> Result<TableOfContentsFrameView, ErrorKind>
    decreases depth, 1nat, 0nat,
{
    if data.len() == 0 {
        Err(ErrorKind::EmptyPayload)
    } else {
        match terminator_from(data, 0, 1) {
            None => Err(ErrorKind::MissingTerminator),
            Some(end) => if end + 3 > data.len() {
                Err(ErrorKind::PayloadTooShort)
            } else {
                match child_ids_from(data, end + 3, data[end + 2] as nat) {
                    None => Err(ErrorKind::MissingTerminator),
                    Some((ids, next)) => Ok(
                        TableOfContentsFrameView {
                            element_id: latin1_text(data.subrange(0, end)),
                            top_level: data[end + 1] & 0x02 != 0,
                            ordered: data[end + 1] & 0x01 != 0,
                            child_element_ids: ids,
                            sub_frames: embedded_frames_of(data.skip(next), version_major, depth),
                        },
                    ),
                }
            },
        }
    }
}

impl TableOfContentsFrame {
    /// Decodes a table of contents frame body. Embedded frames are decoded
    /// with the rules of the given major version.
    pub fn parse(data: &[u8], version_major: u8) -> (frame: Result<
        TableOfContentsFrame,
        ErrorKind,
    >)
        ensures
            match frame {
                Ok(f) => table_of_contents_frame_of(
                    data@,
                    version_major,
                    MAX_EMBEDDED_DEPTH as nat,
                ) == Ok::<TableOfContentsFrameView, ErrorKind>(f@),
                Err(kind) => table_of_contents_frame_of(
                    data@,
                    version_major,
                    MAX_EMBEDDED_DEPTH as nat,
                ) == Err::<TableOfContentsFrameView, ErrorKind>(kind),
            },
    {
        TableOfContentsFrame::parse_with_depth(data, version_major, MAX_EMBEDDED_DEPTH)
    }

    /// Decodes the frames embedded in a table of contents with the rules of the
    /// given major version.
    pub fn parse_embedded_frames(frame_data: &[u8], version_major: u8) -> (frames: Vec<
        Id3v2Frame,
    >)
        ensures
            frames_view(frames@) == embedded_frames_of(
                frame_data@,
                version_major,
                MAX_EMBEDDED_DEPTH as nat,
            ),
    {
        decode_embedded_frames(frame_data, version_major, MAX_EMBEDDED_DEPTH)
    }

    /// Decodes a table of contents frame body, allowing `depth` further
    /// levels of embedded frames below it.
    #[verifier::loop_isolation(false)]
    pub fn parse_with_depth(data: &[u8], version_major: u8, depth: u32) -> (frame: Result<
        TableOfContentsFrame,
        ErrorKind,
    >)
        ensures
            match frame {
                Ok(f) => table_of_contents_frame_of(data@, version_major, depth as nat) == Ok::<
                    TableOfContentsFrameView,
                    ErrorKind,
                >(f@),
                Err(kind) => table_of_contents_frame_of(data@, version_major, depth as nat)
                    == Err::<TableOfContentsFrameView, ErrorKind>(kind),
            },
        decreases depth, 1nat, 0nat,
    {
        let len: usize = data.len();
        if len == 0 {
            return Err(ErrorKind::EmptyPayload);
        }
        let end: usize = match find_terminator(data, 0, TextEncoding::Iso88591) {
            Some(end) => end,
            None => {
                return Err(ErrorKind::MissingTerminator);
            },
        };
        if len - end < 3 {
            return Err(ErrorKind::PayloadTooShort);
        }
        let element_id = decode_iso88591_string(slice_subrange(data, 0, end));
        let flags: u8 = data[end + 1];
        let top_level: bool = flags & 0x02 != 0;
        let ordered: bool = flags & 0x01 != 0;
        let entry_count: u8 = data[end + 2];
        let mut child_element_ids: Vec<String> = Vec::new();
        let mut pos: usize = end + 3;
        let mut read: u8 = 0;
        assert(texts_of(child_element_ids@) =~= Seq::<Seq<char>>::empty());
        while read < entry_count
            invariant
                len == data@.len(),
                pos <= len,
                read <= entry_count,
                child_ids_from(data@, end + 3, entry_count as nat) == (match child_ids_from(
                    data@,
                    pos as int,
                    (entry_count - read) as nat,
                ) {
                    None => None::<(Seq<Seq<char>>, int)>,
                    Some((ids, next)) => Some((texts_of(child_element_ids@) + ids, next)),
                }),
            decreases entry_count - read,
        {
            let ghost before = texts_of(child_element_ids@);
            let id_end: usize = match find_terminator(data, pos, TextEncoding::Iso88591) {
                Some(id_end) => id_end,
                None => {
                    return Err(ErrorKind::MissingTerminator);
                },
            };
            let child_id = decode_iso88591_string(slice_subrange(data, pos, id_end));
            child_element_ids.push(child_id);
            assert(texts_of(child_element_ids@) =~= before.push(child_id@));
            proof {
                let tail = child_ids_from(data@, id_end + 1, (entry_count - read - 1) as nat);
                if tail is Some {
                    let (ids, next) = tail->Some_0;
                    assert(before + (seq![child_id@] + ids) =~= before.push(child_id@) + ids);
                }
            }
            pos = id_end + 1;
            read = read + 1;
        }
        proof {
            let found = child_ids_from(data@, pos as int, 0);
            assert(texts_of(child_element_ids@) + Seq::<Seq<char>>::empty() =~= texts_of(
                child_element_ids@,
            ));
        }
        let region = slice_subrange(data, pos, len);
        assert(region@ =~= data@.skip(pos as int));
        let sub_frames = decode_embedded_frames(region, version_major, depth);
        Ok(TableOfContentsFrame { element_id, top_level, ordered, child_element_ids, sub_frames })
    }

    /// Returns the number of child elements.
    pub fn child_count(&self) -> (count: usize)
        ensures
            count == self@.child_element_ids.len(),
    {
        self.child_element_ids.len()
    }

    /// Whether any frame is embedded in this table of contents.
    pub fn has_sub_frames(&self) -> (any: bool)
        ensures
            any == (self@.sub_frames.len() > 0),
    {
        self.sub_frames.len() > 0
    }
}

impl Clone for TableOfContentsFrame {
    /// The copy has the same view.
    fn clone(&self) -> (copy: TableOfContentsFrame)
        ensures
            copy@ == self@,
        decreases self,
    {
        TableOfContentsFrame {
            element_id: self.element_id.clone(),
            top_level: self.top_level,
            ordered: self.ordered,
            child_element_ids: clone_strings(&self.child_element_ids),
            sub_frames: clone_frames(&self.sub_frames),
        }
    }
}

} // verus!
