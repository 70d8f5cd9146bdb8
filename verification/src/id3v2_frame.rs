//! The frame record shared by both tag versions, and the dispatch from a
//! frame identifier to the parser of its content.

use crate::errors::ErrorKind;
use crate::id3v2_attached_picture_frame::{
    attached_picture_frame_of, AttachedPictureFrame, AttachedPictureFrameView,
};
use crate::id3v2_chapter_frame::{chapter_frame_of, chapter_view, ChapterFrame, ChapterFrameView};
use crate::id3v2_comment_frame::{comment_frame_of, CommentFrame, CommentFrameView};
use crate::id3v2_table_of_contents_frame::{
    table_of_contents_frame_of, table_of_contents_view, TableOfContentsFrame,
    TableOfContentsFrameView,
};
use crate::id3v2_text_encoding::TextEncoding;
use crate::id3v2_text_frame::{text_frame_of, TextFrame, TextFrameView};
use crate::id3v2_tools::{is_frame_id_for_version, is_valid_frame_for_version};
use crate::id3v2_unique_file_id_frame::{
    unique_file_id_frame_of, UniqueFileIdFrame, UniqueFileIdFrameView,
};
use crate::id3v2_url_frame::{url_frame_of, UrlFrame, UrlFrameView};
use crate::id3v2_user_text_frame::{user_text_frame_of, UserTextFrame, UserTextFrameView};
use crate::id3v2_user_url_frame::{user_url_frame_of, UserUrlFrame, UserUrlFrameView};
use vstd::prelude::*;
use vstd::slice::slice_to_vec;

verus! {

/// The decoded content of a frame.
#[derive(Debug)]
pub enum Id3v2FrameContent {
    /// Text information frame (`T***` except `TXXX`).
    Text(TextFrame),
    /// URL link frame (`W***` except `WXXX`).
    Url(UrlFrame),
    /// User-defined text frame (`TXXX`).
    UserText(UserTextFrame),
    /// User-defined URL frame (`WXXX`).
    UserUrl(UserUrlFrame),
    /// Comment or lyrics frame (`COMM`, `USLT`).
    Comment(CommentFrame),
    /// Attached picture frame (`APIC`).
    Picture(AttachedPictureFrame),
    /// Unique file identifier (`UFID`).
    UniqueFileId(UniqueFileIdFrame),
    /// Chapter frame (`CHAP`).
    Chapter(ChapterFrame),
    /// Table of contents frame (`CTOC`).
    TableOfContents(TableOfContentsFrame),
    /// The raw payload of a frame without typed content.
    Binary(Vec<u8>),
}

/// One frame of an ID3v2 tag.
#[derive(Debug)]
pub struct Id3v2Frame {
    /// Four-character frame identifier, such as `TIT2`.
    pub id: String,
    /// Declared length of the payload in bytes, header excluded.
    pub size: u32,
    /// Flag bits; their meaning depends on the tag version.
    pub flags: u16,
    /// The raw payload.
    pub data: Vec<u8>,
    /// The decoded content, once the payload has been parsed.
    pub content: Option<Id3v2FrameContent>,
    /// Embedded sub-frames, for chapter and table of contents frames.
    pub embedded_frames: Option<Vec<Id3v2Frame>>,
}

/// The mathematical content of an `Id3v2FrameContent`.
pub enum ContentView {
    Text(TextFrameView),
    Url(UrlFrameView),
    UserText(UserTextFrameView),
    UserUrl(UserUrlFrameView),
    Comment(CommentFrameView),
    Picture(AttachedPictureFrameView),
    UniqueFileId(UniqueFileIdFrameView),
    Chapter(ChapterFrameView),
    TableOfContents(TableOfContentsFrameView),
    Binary(Seq<u8>),
}

/// The mathematical content of an `Id3v2Frame`.
pub struct FrameView {
    pub id: Seq<char>,
    pub size: u32,
    pub flags: u16,
    pub data: Seq<u8>,
    pub content: Option<ContentView>,
    pub embedded_frames: Option<Seq<FrameView>>,
}

/// The view of a frame content: the view of the variant it holds.
pub open spec fn content_view(content: Id3v2FrameContent) -> ContentView
    decreases content,
{
    match content {
        Id3v2FrameContent::Text(frame) => ContentView::Text(frame@),
        Id3v2FrameContent::Url(frame) => ContentView::Url(frame@),
        Id3v2FrameContent::UserText(frame) => ContentView::UserText(frame@),
        Id3v2FrameContent::UserUrl(frame) => ContentView::UserUrl(frame@),
        Id3v2FrameContent::Comment(frame) => ContentView::Comment(frame@),
        Id3v2FrameContent::Picture(frame) => ContentView::Picture(frame@),
        Id3v2FrameContent::UniqueFileId(frame) => ContentView::UniqueFileId(frame@),
        Id3v2FrameContent::Chapter(frame) => ContentView::Chapter(chapter_view(frame)),
        Id3v2FrameContent::TableOfContents(frame) => ContentView::TableOfContents(
            table_of_contents_view(frame),
        ),
        Id3v2FrameContent::Binary(data) => ContentView::Binary(data@),
    }
}

/// The view of a frame: its fields, with content and embedded frames
/// replaced by their views.
pub open spec fn frame_view(frame: Id3v2Frame) -> FrameView
    decreases frame,
{
    FrameView {
        id: frame.id@,
        size: frame.size,
        flags: frame.flags,
        data: frame.data@,
        content: match frame.content {
            Some(content) => Some(content_view(content)),
            None => None,
        },
        embedded_frames: match frame.embedded_frames {
            Some(frames) => Some(frames_view(frames@)),
            None => None,
        },
    }
}

/// The views of a list of frames, in order.
pub open spec fn frames_view(frames: Seq<Id3v2Frame>) -> Seq<FrameView>
    decreases frames,
{
    Seq::new(
        frames.len(),
        |i: int|
            if 0 <= i < frames.len() {
                frame_view(frames[i])
            } else {
                arbitrary()
            },
    )
}

impl View for Id3v2FrameContent {
    type V = ContentView;

    open spec fn view(&self) -> ContentView {
        content_view(*self)
    }
}

impl View for Id3v2Frame {
    type V = FrameView;

    open spec fn view(&self) -> FrameView {
        frame_view(*self)
    }
}

/// The number of nesting levels of embedded frames that are decoded below a
/// frame of the tag itself. Known frame kinds nest one level; the limit
/// bounds the work that a malformed tag can ask for.
pub const MAX_EMBEDDED_DEPTH: u32 = 8;

/// The family of content parsers that a frame identifier selects.
#[derive(Clone, Copy, Debug, PartialEq, Eq, Structural)]
pub enum FrameKind {
    /// Text information frames: `T***` except `TXXX`.
    Text,
    /// URL link frames: `W***` except `WXXX`.
    Url,
    /// The user-defined text frame `TXXX`.
    UserText,
    /// The user-defined URL frame `WXXX`.
    UserUrl,
    /// The comment and lyrics frames `COMM` and `USLT`.
    Comment,
    /// The attached picture frame `APIC`.
    Picture,
    /// The unique file identifier frame `UFID`.
    UniqueFileId,
    /// The chapter frame `CHAP`.
    Chapter,
    /// The table of contents frame `CTOC`.
    TableOfContents,
    /// Every other frame: its payload stays binary.
    Other,
}

/// The parser family of an identifier: the exact identifiers first, then
/// every other identifier that begins with `T` is a text frame and every
/// other one that begins with `W` a URL frame.
pub open spec fn frame_kind_of(id: Seq<char>) -> FrameKind {
    if id == "TXXX"@ {
        FrameKind::UserText
    } else if id == "WXXX"@ {
        FrameKind::UserUrl
    } else if id == "COMM"@ || id == "USLT"@ {
        FrameKind::Comment
    } else if id == "APIC"@ {
        FrameKind::Picture
    } else if id == "UFID"@ {
        FrameKind::UniqueFileId
    } else if id == "CHAP"@ {
        FrameKind::Chapter
    } else if id == "CTOC"@ {
        FrameKind::TableOfContents
    } else if id.len() > 0 && id[0] == 'T' {
        FrameKind::Text
    } else if id.len() > 0 && id[0] == 'W' {
        FrameKind::Url
    } else {
        FrameKind::Other
    }
}

/// Returns the parser family of a frame identifier.
pub fn frame_kind(id: &str) -> (kind: FrameKind)
    ensures
        kind == frame_kind_of(id@),
{
    if id.eq("TXXX") {
        FrameKind::UserText
    } else if id.eq("WXXX") {
        FrameKind::UserUrl
    } else if id.eq("COMM") || id.eq("USLT") {
        FrameKind::Comment
    } else if id.eq("APIC") {
        FrameKind::Picture
    } else if id.eq("UFID") {
        FrameKind::UniqueFileId
    } else if id.eq("CHAP") {
        FrameKind::Chapter
    } else if id.eq("CTOC") {
        FrameKind::TableOfContents
    } else if id.unicode_len() > 0 && id.get_char(0) == 'T' {
        FrameKind::Text
    } else if id.unicode_len() > 0 && id.get_char(0) == 'W' {
        FrameKind::Url
    } else {
        FrameKind::Other
    }
}

/// Content that carries a text encoding is kept only when the tag version
/// allows that encoding; otherwise the frame counts as not decoded.
pub open spec fn checked_encoding(
    content: ContentView,
    encoding: TextEncoding,
    version_major: u8,
) -> Result<ContentView, ErrorKind> {
    if encoding.valid_for_version(version_major) {
        Ok(content)
    } else {
        Err(ErrorKind::UnsupportedEncoding)
    }
}

/// What the parser of a frame family without embedded frames yields for a
/// payload. A family without a typed parser keeps the payload as binary
/// content.
#[verifier::opaque]
pub open spec fn flat_content_of(kind: FrameKind, data: Seq<u8>, version_major: u8) -> Result<
    ContentView,
    ErrorKind,
> {
    match kind {
        FrameKind::Text => match text_frame_of(data) {
            Ok(frame) => checked_encoding(ContentView::Text(frame), frame.encoding, version_major),
            Err(kind) => Err(kind),
        },
        FrameKind::Url => match url_frame_of(data) {
            Ok(frame) => Ok(ContentView::Url(frame)),
            Err(kind) => Err(kind),
        },
        FrameKind::UserText => match user_text_frame_of(data) {
            Ok(frame) => checked_encoding(
                ContentView::UserText(frame),
                frame.encoding,
                version_major,
            ),
            Err(kind) => Err(kind),
        },
        FrameKind::UserUrl => match user_url_frame_of(data) {
            Ok(frame) => checked_encoding(
                ContentView::UserUrl(frame),
                frame.encoding,
                version_major,
            ),
            Err(kind) => Err(kind),
        },
        FrameKind::Comment => match comment_frame_of(data) {
            Ok(frame) => checked_encoding(
                ContentView::Comment(frame),
                frame.encoding,
                version_major,
            ),
            Err(kind) => Err(kind),
        },
        FrameKind::Picture => match attached_picture_frame_of(data) {
            Ok(frame) => checked_encoding(
                ContentView::Picture(frame),
                frame.encoding,
                version_major,
            ),
            Err(kind) => Err(kind),
        },
        FrameKind::UniqueFileId => match unique_file_id_frame_of(data) {
            Ok(frame) => Ok(ContentView::UniqueFileId(frame)),
            Err(kind) => Err(kind),
        },
        _ => Ok(ContentView::Binary(data)),
    }
}

/// What the parser of each frame family yields for a payload. Chapters and
/// tables of contents are decoded with `depth` levels of embedded frames
/// below them.
pub open spec fn kind_content_of(kind: FrameKind, data: Seq<u8>, version_major: u8, depth: nat)
    -> Result<ContentView, ErrorKind>
    decreases depth, 2nat, 0nat,
{
    match kind {
        FrameKind::Chapter => match chapter_frame_of(data, version_major, depth) {
            Ok(frame) => Ok(ContentView::Chapter(frame)),
            Err(kind) => Err(kind),
        },
        FrameKind::TableOfContents => match table_of_contents_frame_of(
            data,
            version_major,
            depth,
        ) {
            Ok(frame) => Ok(ContentView::TableOfContents(frame)),
            Err(kind) => Err(kind),
        },
        _ => flat_content_of(kind, data, version_major),
    }
}

/// What the typed parser of a frame yields. An identifier that the version
/// does not define keeps the payload as binary content, and so does one
/// without a typed parser. A typed parser's failure is passed on, and so is
/// the failure of an encoding that the version does not allow.
pub open spec fn typed_content_of(id: Seq<char>, data: Seq<u8>, version_major: u8, depth: nat)
    -> Result<ContentView, ErrorKind>
    decreases depth, 2nat, 1nat,
{
    if !is_frame_id_for_version(id, version_major) {
        Ok(ContentView::Binary(data))
    } else {
        kind_content_of(frame_kind_of(id), data, version_major, depth)
    }
}

/// The content that a frame ends up with: what its typed parser yields, or
/// the payload as binary content when that parser fails.
pub open spec fn content_of(id: Seq<char>, data: Seq<u8>, version_major: u8, depth: nat)
    -> ContentView
    decreases depth, 2nat, 2nat,
{
    match typed_content_of(id, data, version_major, depth) {
        Ok(content) => content,
        Err(_) => ContentView::Binary(data),
    }
}

/// True when an executable outcome stands for the given mathematical one:
/// the same failure, or content with the same view.
pub open spec fn decoded_as(
    content: Result<Id3v2FrameContent, ErrorKind>,
    expected: Result<ContentView, ErrorKind>,
) -> bool {
    match content {
        Ok(c) => expected == Ok::<ContentView, ErrorKind>(content_view(c)),
        Err(kind) => expected == Err::<ContentView, ErrorKind>(kind),
    }
}

/// Runs the parser of a frame family without embedded frames over `data`.
pub fn decode_flat_content(kind: FrameKind, data: &[u8], version_major: u8) -> (content: Result<
    Id3v2FrameContent,
    ErrorKind,
>)
    ensures
        decoded_as(content, flat_content_of(kind, data@, version_major)),
{
    reveal(flat_content_of);
    match kind {
        FrameKind::Text => match TextFrame::parse(data) {
            Ok(frame) => if frame.encoding.is_valid_for_version(version_major) {
                Ok(Id3v2FrameContent::Text(frame))
            } else {
                Err(ErrorKind::UnsupportedEncoding)
            },
            Err(kind) => Err(kind),
        },
        FrameKind::Url => match UrlFrame::parse(data) {
            Ok(frame) => Ok(Id3v2FrameContent::Url(frame)),
            Err(kind) => Err(kind),
        },
        FrameKind::UserText => match UserTextFrame::parse(data) {
            Ok(frame) => if frame.encoding.is_valid_for_version(version_major) {
                Ok(Id3v2FrameContent::UserText(frame))
            } else {
                Err(ErrorKind::UnsupportedEncoding)
            },
            Err(kind) => Err(kind),
        },
        FrameKind::UserUrl => match UserUrlFrame::parse(data) {
            Ok(frame) => if frame.encoding.is_valid_for_version(version_major) {
                Ok(Id3v2FrameContent::UserUrl(frame))
            } else {
                Err(ErrorKind::UnsupportedEncoding)
            },
            Err(kind) => Err(kind),
        },
        FrameKind::Comment => match CommentFrame::parse(data) {
            Ok(frame) => if frame.encoding.is_valid_for_version(version_major) {
                Ok(Id3v2FrameContent::Comment(frame))
            } else {
                Err(ErrorKind::UnsupportedEncoding)
            },
            Err(kind) => Err(kind),
        },
        FrameKind::Picture => match AttachedPictureFrame::parse(data) {
            Ok(frame) => if frame.encoding.is_valid_for_version(version_major) {
                Ok(Id3v2FrameContent::Picture(frame))
            } else {
                Err(ErrorKind::UnsupportedEncoding)
            },
            Err(kind) => Err(kind),
        },
        FrameKind::UniqueFileId => match UniqueFileIdFrame::parse(data) {
            Ok(frame) => Ok(Id3v2FrameContent::UniqueFileId(frame)),
            Err(kind) => Err(kind),
        },
        _ => Ok(Id3v2FrameContent::Binary(slice_to_vec(data))),
    }
}

/// Runs the typed parser that `id` selects over `data`, allowing `depth`
/// levels of embedded frames below the frame.
pub fn decode_content(id: &str, data: &[u8], version_major: u8, depth: u32) -> (content: Result<
    Id3v2FrameContent,
    ErrorKind,
>)
    ensures
        decoded_as(content, typed_content_of(id@, data@, version_major, depth as nat)),
    decreases depth, 2nat, 1nat,
{
    if !is_valid_frame_for_version(id, version_major) {
        return Ok(Id3v2FrameContent::Binary(slice_to_vec(data)));
    }
    match frame_kind(id) {
        FrameKind::Chapter => match ChapterFrame::parse_with_depth(data, version_major, depth) {
            Ok(frame) => Ok(Id3v2FrameContent::Chapter(frame)),
            Err(kind) => Err(kind),
        },
        FrameKind::TableOfContents => match TableOfContentsFrame::parse_with_depth(
            data,
            version_major,
            depth,
        ) {
            Ok(frame) => Ok(Id3v2FrameContent::TableOfContents(frame)),
            Err(kind) => Err(kind),
        },
        kind => decode_flat_content(kind, data, version_major),
    }
}

/// True for the ASCII letters and digits.
pub open spec fn is_ascii_alphanumeric_char(c: char) -> bool {
    ('0' <= c && c <= '9') || ('A' <= c && c <= 'Z') || ('a' <= c && c <= 'z')
}

/// True when `id` is made of exactly four ASCII letters or digits.
pub open spec fn is_well_formed_id(id: Seq<char>) -> bool {
    id.len() == 4 && forall|i: int| 0 <= i < id.len() ==> is_ascii_alphanumeric_char(#[trigger] id[i])
}

impl ContentView {
    /// The text that a frame with this content stands for, if it is a text,
    /// user-defined text or comment frame.
    pub open spec fn text(self) -> Option<Seq<char>> {
        match self {
            ContentView::Text(frame) => Some(frame.text),
            ContentView::UserText(frame) => Some(frame.value),
            ContentView::Comment(frame) => Some(frame.text),
            _ => None,
        }
    }

    /// The URL that a frame with this content stands for, if it is a URL or
    /// user-defined URL frame.
    pub open spec fn url(self) -> Option<Seq<char>> {
        match self {
            ContentView::Url(frame) => Some(frame.url),
            ContentView::UserUrl(frame) => Some(frame.url),
            _ => None,
        }
    }
}

impl FrameView {
    /// This frame after its payload has been parsed: the content is what the
    /// typed parser yields, or the payload as binary content when that
    /// parser fails; everything else is unchanged.
    pub open spec fn with_parsed_content(self, version_major: u8, depth: nat) -> FrameView {
        FrameView {
            content: Some(content_of(self.id, self.data, version_major, depth)),
            ..self
        }
    }

    /// The text of the frame, if it has been parsed and holds text.
    pub open spec fn text(self) -> Option<Seq<char>> {
        match self.content {
            Some(content) => content.text(),
            None => None,
        }
    }

    /// The URL of the frame, if it has been parsed and holds a URL.
    pub open spec fn url(self) -> Option<Seq<char>> {
        match self.content {
            Some(content) => content.url(),
            None => None,
        }
    }
}

impl Id3v2Frame {
    /// Creates a frame that holds its raw payload only.
    pub fn new(id: String, size: u32, flags: u16, data: Vec<u8>) -> (frame: Id3v2Frame)
        ensures
            frame@ == (FrameView {
                id: id@,
                size,
                flags,
                data: data@,
                content: None,
                embedded_frames: None,
            }),
    {
        Id3v2Frame { id, size, flags, data, content: None, embedded_frames: None }
    }

    /// Creates a frame with decoded content.
    pub fn new_with_content(
        id: String,
        size: u32,
        flags: u16,
        data: Vec<u8>,
        content: Id3v2FrameContent,
    ) -> (frame: Id3v2Frame)
        ensures
            frame@ == (FrameView {
                id: id@,
                size,
                flags,
                data: data@,
                content: Some(content@),
                embedded_frames: None,
            }),
    {
        Id3v2Frame { id, size, flags, data, content: Some(content), embedded_frames: None }
    }

    /// Creates a frame with embedded sub-frames.
    pub fn new_with_embedded(
        id: String,
        size: u32,
        flags: u16,
        data: Vec<u8>,
        embedded_frames: Vec<Id3v2Frame>,
    ) -> (frame: Id3v2Frame)
        ensures
            frame@ == (FrameView {
                id: id@,
                size,
                flags,
                data: data@,
                content: None,
                embedded_frames: Some(frames_view(embedded_frames@)),
            }),
    {
        Id3v2Frame { id, size, flags, data, content: None, embedded_frames: Some(embedded_frames) }
    }

    /// Creates a frame from all of its parts.
    pub fn new_complete(
        id: String,
        size: u32,
        flags: u16,
        data: Vec<u8>,
        content: Option<Id3v2FrameContent>,
        embedded_frames: Option<Vec<Id3v2Frame>>,
    ) -> (frame: Id3v2Frame)
        ensures
            frame.id == id,
            frame.size == size,
            frame.flags == flags,
            frame.data == data,
            frame.content == content,
            frame.embedded_frames == embedded_frames,
    {
        Id3v2Frame { id, size, flags, data, content, embedded_frames }
    }

    /// Parses the payload according to the frame identifier and the tag's
    /// major version. Afterwards the frame always has content: the typed
    /// content, or the payload as binary content when the identifier is not
    /// defined by the version, has no typed parser, or the typed parser
    /// fails. A failure of the typed parser is also returned.
    pub fn parse_content(&mut self, version_major: u8) -> (outcome: Result<(), ErrorKind>)
        ensures
            final(self)@ == old(self)@.with_parsed_content(
                version_major,
                MAX_EMBEDDED_DEPTH as nat,
            ),
            outcome == (match typed_content_of(
                old(self).id@,
                old(self).data@,
                version_major,
                MAX_EMBEDDED_DEPTH as nat,
            ) {
                Ok(_) => Ok::<(), ErrorKind>(()),
                Err(kind) => Err::<(), ErrorKind>(kind),
            }),
    {
        let decoded = decode_content(
            self.id.as_str(),
            self.data.as_slice(),
            version_major,
            MAX_EMBEDDED_DEPTH,
        );
        match decoded {
            Ok(content) => {
                self.content = Some(content);
                Ok(())
            },
            Err(kind) => {
                let raw = slice_to_vec(self.data.as_slice());
                self.content = Some(Id3v2FrameContent::Binary(raw));
                Err(kind)
            },
        }
    }

    /// Returns the frame identifier.
    pub fn id(&self) -> (id: &str)
        ensures
            id@ == self@.id,
    {
        self.id.as_str()
    }

    /// Returns the declared payload length.
    pub fn size(&self) -> (size: u32)
        ensures
            size == self@.size,
    {
        self.size
    }

    /// Returns the flag bits.
    pub fn flags(&self) -> (flags: u16)
        ensures
            flags == self@.flags,
    {
        self.flags
    }

    /// Returns the raw payload.
    pub fn data(&self) -> (data: &[u8])
        ensures
            data@ == self@.data,
    {
        self.data.as_slice()
    }

    /// Whether the identifier is made of exactly four ASCII letters or
    /// digits.
    pub fn is_valid_id(&self) -> (valid: bool)
        ensures
            valid == is_well_formed_id(self@.id),
    {
        let id = self.id.as_str();
        if id.unicode_len() != 4 {
            return false;
        }
        let mut i: usize = 0;
        while i < 4
            invariant
                i <= 4,
                id@ == self.id@,
                id@.len() == 4,
                forall|k: int| 0 <= k < i ==> is_ascii_alphanumeric_char(#[trigger] id@[k]),
            decreases 4 - i,
        {
            let c: char = id.get_char(i);
            if !(('0' <= c && c <= '9') || ('A' <= c && c <= 'Z') || ('a' <= c && c <= 'z')) {
                assert(!is_ascii_alphanumeric_char(id@[i as int]));
                return false;
            }
            i += 1;
        }
        true
    }

    /// Returns the length of the frame with its ten-byte header.
    pub fn total_size(&self) -> (total: u32)
        requires
            self.size <= u32::MAX - 10,
        ensures
            total == 10 + self@.size,
    {
        10 + self.size
    }

    /// Whether frames of this identifier embed sub-frames: true for `CHAP`
    /// and `CTOC`.
    pub fn supports_embedded_frames(&self) -> (supported: bool)
        ensures
            supported == (self@.id == "CHAP"@ || self@.id == "CTOC"@),
    {
        self.id.as_str().eq("CHAP") || self.id.as_str().eq("CTOC")
    }

    /// Returns the embedded sub-frames, if the field is set.
    pub fn embedded_frames(&self) -> (frames: Option<&Vec<Id3v2Frame>>)
        ensures
            match frames {
                Some(list) => self.embedded_frames == Some(*list),
                None => self.embedded_frames is None,
            },
    {
        self.embedded_frames.as_ref()
    }

    /// Whether the field of embedded sub-frames is set and not empty.
    pub fn has_embedded_frames(&self) -> (any: bool)
        ensures
            any == (self@.embedded_frames matches Some(list) && list.len() > 0),
    {
        match &self.embedded_frames {
            Some(list) => list.len() > 0,
            None => false,
        }
    }

    /// Returns the text of a text, user-defined text or comment frame.
    pub fn get_text(&self) -> (text: Option<&str>)
        ensures
            match text {
                Some(t) => self@.text() == Some(t@),
                None => self@.text() is None,
            },
    {
        match &self.content {
            Some(Id3v2FrameContent::Text(frame)) => Some(frame.primary_text()),
            Some(Id3v2FrameContent::UserText(frame)) => Some(frame.value.as_str()),
            Some(Id3v2FrameContent::Comment(frame)) => Some(frame.text.as_str()),
            _ => None,
        }
    }

    /// Returns the URL of a URL or user-defined URL frame.
    pub fn get_url(&self) -> (url: Option<&str>)
        ensures
            match url {
                Some(u) => self@.url() == Some(u@),
                None => self@.url() is None,
            },
    {
        match &self.content {
            Some(Id3v2FrameContent::Url(frame)) => Some(frame.url.as_str()),
            Some(Id3v2FrameContent::UserUrl(frame)) => Some(frame.url.as_str()),
            _ => None,
        }
    }

    /// Whether the frame has content.
    pub fn is_parsed(&self) -> (parsed: bool)
        ensures
            parsed == self@.content is Some,
    {
        self.content.is_some()
    }
}

/// Copies a list of frames.
pub fn clone_frames(frames: &Vec<Id3v2Frame>) -> (copy: Vec<Id3v2Frame>)
    ensures
        frames_view(copy@) == frames_view(frames@),
    decreases frames,
{
    let count: usize = frames.len();
    let mut copy: Vec<Id3v2Frame> = Vec::new();
    let mut i: usize = 0;
    while i < count
        invariant
            count == frames@.len(),
            i <= count,
            copy@.len() == i,
            forall|k: int| 0 <= k < i ==> frame_view(copy@[k]) == frame_view(frames@[k]),
        decreases count - i,
    {
        copy.push(frames[i].clone());
        i += 1;
    }
    assert(frames_view(copy@) =~= frames_view(frames@));
    copy
}

impl Clone for Id3v2FrameContent {
    /// The copy has the same view.
    fn clone(&self) -> (copy: Id3v2FrameContent)
        ensures
            copy@ == self@,
        decreases self,
    {
        match self {
            Id3v2FrameContent::Text(frame) => Id3v2FrameContent::Text(frame.clone()),
            Id3v2FrameContent::Url(frame) => Id3v2FrameContent::Url(frame.clone()),
            Id3v2FrameContent::UserText(frame) => Id3v2FrameContent::UserText(frame.clone()),
            Id3v2FrameContent::UserUrl(frame) => Id3v2FrameContent::UserUrl(frame.clone()),
            Id3v2FrameContent::Comment(frame) => Id3v2FrameContent::Comment(frame.clone()),
            Id3v2FrameContent::Picture(frame) => Id3v2FrameContent::Picture(frame.clone()),
            Id3v2FrameContent::UniqueFileId(frame) => Id3v2FrameContent::UniqueFileId(
                frame.clone(),
            ),
            Id3v2FrameContent::Chapter(frame) => Id3v2FrameContent::Chapter(frame.clone()),
            Id3v2FrameContent::TableOfContents(frame) => Id3v2FrameContent::TableOfContents(
                frame.clone(),
            ),
            Id3v2FrameContent::Binary(data) => Id3v2FrameContent::Binary(
                slice_to_vec(data.as_slice()),
            ),
        }
    }
}

impl Clone for Id3v2Frame {
    /// The copy has the same view.
    fn clone(&self) -> (copy: Id3v2Frame)
        ensures
            copy@ == self@,
        decreases self,
    {
        Id3v2Frame {
            id: self.id.clone(),
            size: self.size,
            flags: self.flags,
            data: slice_to_vec(self.data.as_slice()),
            content: match &self.content {
                Some(content) => Some(content.clone()),
                None => None,
            },
            embedded_frames: match &self.embedded_frames {
                Some(frames) => Some(clone_frames(frames)),
                None => None,
            },
        }
    }
}

} // verus!
