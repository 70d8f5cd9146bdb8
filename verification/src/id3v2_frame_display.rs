//! The text form of a frame: one line with identifier, description, size and
//! flags, followed by the lines of its content.
//!
//! Each function that describes a piece of text takes the text written so
//! far and returns it with the piece added.

use crate::id3v2_attached_picture_frame::{
    picture_type_name, AttachedPictureFrame, AttachedPictureFrameView,
};
use crate::id3v2_chapter_frame::{format_timestamp, timestamp_text, ChapterFrame, ChapterFrameView};
use crate::id3v2_comment_frame::{CommentFrame, CommentFrameView};
use crate::id3v2_frame::{
    content_view, frame_view, frames_view, ContentView, FrameView, Id3v2Frame, Id3v2FrameContent,
};
use crate::id3v2_table_of_contents_frame::{TableOfContentsFrame, TableOfContentsFrameView};
use crate::id3v2_text_encoding::{texts_of, TextEncoding};
use crate::id3v2_text_frame::{TextFrame, TextFrameView};
use crate::id3v2_tools::{frame_description, get_frame_description};
use crate::id3v2_unique_file_id_frame::{UniqueFileIdFrame, UniqueFileIdFrameView};
use crate::id3v2_url_frame::{UrlFrame, UrlFrameView};
use crate::id3v2_user_text_frame::{UserTextFrame, UserTextFrameView};
use crate::id3v2_user_url_frame::{UserUrlFrame, UserUrlFrameView};
use crate::text_format::{
    bool_text, decimal_text, hex2_text, hex4_text, push_bool, push_decimal, push_hex2, push_hex4,
    push_shortened, shortened_text,
};
use vstd::prelude::*;
use vstd::utf8::encode_utf8;

verus! {

/// The indentation of the content lines of a frame.
pub open spec fn content_indent() -> Seq<char> {
    "    "@
}

/// The indentation of the content lines of a frame that is embedded in a
/// chapter or table of contents.
pub open spec fn nested_indent() -> Seq<char> {
    "          "@
}

/// A new line that begins with the indentation and a label.
pub open spec fn with_line(acc: Seq<char>, indent: Seq<char>, label: Seq<char>) -> Seq<char> {
    acc + "\n"@ + indent + label
}

/// A new line with a label and a value in double quotes.
pub open spec fn with_quoted_line(
    acc: Seq<char>,
    indent: Seq<char>,
    label: Seq<char>,
    value: Seq<char>,
) -> Seq<char> {
    with_line(acc, indent, label) + "\""@ + value + "\""@
}

/// One numbered line for each string from `from` on.
pub open spec fn with_values(
    acc: Seq<char>,
    strings: Seq<Seq<char>>,
    from: int,
    indent: Seq<char>,
    limit: usize,
) -> Seq<char>
    decreases strings.len() - from,
{
    if from < 0 || from >= strings.len() {
        acc
    } else {
        with_values(
            with_line(acc, indent, "  ["@) + decimal_text((from + 1) as nat) + "] \""@
                + shortened_text(strings[from], limit) + "\""@,
            strings,
            from + 1,
            indent,
            limit,
        )
    }
}

/// The lines of a text frame: the encoding, then either the numbered list
/// of its strings, where there are several, or its text, where it is not
/// empty.
pub open spec fn with_text(
    acc: Seq<char>,
    frame: TextFrameView,
    indent: Seq<char>,
    limit: usize,
    list_limit: usize,
) -> Seq<char> {
    let acc = with_line(acc, indent, "Encoding: "@) + frame.encoding.name_text();
    if frame.strings.len() > 1 {
        with_values(
            with_line(acc, indent, "Values ("@) + decimal_text(frame.strings.len()) + " strings):"@,
            frame.strings,
            0,
            indent,
            list_limit,
        )
    } else if frame.text.len() > 0 {
        with_quoted_line(acc, indent, "Value: "@, shortened_text(frame.text, limit))
    } else {
        acc
    }
}

/// The lines of a user-defined text frame.
pub open spec fn with_user_text(
    acc: Seq<char>,
    frame: UserTextFrameView,
    indent: Seq<char>,
    limit: usize,
) -> Seq<char> {
    let acc = with_line(acc, indent, "Encoding: "@) + frame.encoding.name_text();
    let acc = with_quoted_line(acc, indent, "Description: "@, frame.description);
    with_quoted_line(acc, indent, "Value: "@, shortened_text(frame.value, limit))
}

/// The line of a URL frame.
pub open spec fn with_url(acc: Seq<char>, frame: UrlFrameView, indent: Seq<char>) -> Seq<char> {
    with_quoted_line(acc, indent, "URL: "@, frame.url)
}

/// The lines of a user-defined URL frame.
pub open spec fn with_user_url(acc: Seq<char>, frame: UserUrlFrameView, indent: Seq<char>) -> Seq<
    char,
> {
    let acc = with_line(acc, indent, "Encoding: "@) + frame.encoding.name_text();
    let acc = with_quoted_line(acc, indent, "Description: "@, frame.description);
    with_quoted_line(acc, indent, "URL: "@, frame.url)
}

/// The lines of a comment frame; the description is left out where it is
/// empty.
pub open spec fn with_comment(
    acc: Seq<char>,
    frame: CommentFrameView,
    indent: Seq<char>,
    limit: usize,
) -> Seq<char> {
    let acc = with_line(acc, indent, "Encoding: "@) + frame.encoding.name_text();
    let acc = with_quoted_line(acc, indent, "Language: "@, frame.language);
    let acc = if frame.description.len() > 0 {
        with_quoted_line(acc, indent, "Description: "@, frame.description)
    } else {
        acc
    };
    with_quoted_line(acc, indent, "Text: "@, shortened_text(frame.text, limit))
}

/// The lines of an attached picture frame; the encoding is shown for a frame
/// of the tag itself only, the description where it is not empty.
pub open spec fn with_picture(
    acc: Seq<char>,
    frame: AttachedPictureFrameView,
    indent: Seq<char>,
    show_encoding: bool,
) -> Seq<char> {
    let acc = if show_encoding {
        with_line(acc, indent, "Encoding: "@) + frame.encoding.name_text()
    } else {
        acc
    };
    let acc = with_line(acc, indent, "MIME type: "@) + frame.mime_type;
    let acc = with_line(acc, indent, "Picture type: "@) + decimal_text(frame.picture_type as nat)
        + " ("@ + picture_type_name(frame.picture_type) + ")"@;
    let acc = if frame.description.len() > 0 {
        with_quoted_line(acc, indent, "Description: "@, frame.description)
    } else {
        acc
    };
    with_line(acc, indent, "Data size: "@) + decimal_text(frame.picture_data.len()) + " bytes"@
}

/// The lines of a unique file identifier frame.
pub open spec fn with_unique_file_id(
    acc: Seq<char>,
    frame: UniqueFileIdFrameView,
    indent: Seq<char>,
) -> Seq<char> {
    let acc = with_quoted_line(acc, indent, "Owner: "@, frame.owner_identifier);
    with_line(acc, indent, "Identifier: "@) + decimal_text(frame.identifier.len()) + " bytes"@
}

/// The lines of the content of an embedded frame. Binary content is shown by
/// its size; chapters and tables of contents inside an embedded frame are
/// not shown.
pub open spec fn with_nested_content(
    acc: Seq<char>,
    content: ContentView,
    size: u32,
    indent: Seq<char>,
) -> Seq<char> {
    match content {
        ContentView::Text(frame) => with_text(acc, frame, indent, 60, 60),
        ContentView::UserText(frame) => with_user_text(acc, frame, indent, 60),
        ContentView::Url(frame) => with_url(acc, frame, indent),
        ContentView::UserUrl(frame) => with_user_url(acc, frame, indent),
        ContentView::Comment(frame) => with_comment(acc, frame, indent, 60),
        ContentView::Picture(frame) => with_picture(acc, frame, indent, false),
        ContentView::UniqueFileId(frame) => with_unique_file_id(acc, frame, indent),
        ContentView::Binary(_) => with_line(acc, indent, "Binary data: "@) + decimal_text(
            size as nat,
        ) + " bytes"@,
        _ => acc,
    }
}

/// One numbered line for each embedded frame from `from` on, each followed
/// by the lines of its content.
pub open spec fn with_sub_frames(acc: Seq<char>, frames: Seq<FrameView>, from: int) -> Seq<char>
    decreases frames.len() - from,
{
    if from < 0 || from >= frames.len() {
        acc
    } else {
        let frame = frames[from];
        let acc = with_line(acc, content_indent(), "  ["@) + decimal_text((from + 1) as nat)
            + "] "@ + frame.id + " - "@ + frame_description(frame.id);
        let acc = match frame.content {
            Some(content) => with_nested_content(acc, content, frame.size, nested_indent()),
            None => acc,
        };
        with_sub_frames(acc, frames, from + 1)
    }
}

/// The heading and the list of the embedded frames, where there are any.
pub open spec fn with_sub_frame_list(acc: Seq<char>, frames: Seq<FrameView>) -> Seq<char> {
    if frames.len() > 0 {
        with_sub_frames(
            with_line(acc, content_indent(), "Sub-frames: "@) + decimal_text(frames.len())
                + " embedded frame(s)"@,
            frames,
            0,
        )
    } else {
        acc
    }
}

/// The lines of a chapter frame: element identifier, times, the byte
/// offsets where both are in use, and the embedded frames.
pub open spec fn with_chapter(acc: Seq<char>, frame: ChapterFrameView) -> Seq<char> {
    let acc = with_quoted_line(acc, content_indent(), "Element ID: "@, frame.element_id);
    let acc = with_line(acc, content_indent(), "Time: "@) + timestamp_text(frame.start_time)
        + " - "@ + timestamp_text(frame.end_time) + " (duration: "@ + timestamp_text(
        frame.length() as u32,
    ) + ")"@;
    let acc = if frame.byte_offsets_used() {
        with_line(acc, content_indent(), "Byte offsets: "@) + decimal_text(
            frame.start_offset as nat,
        ) + " - "@ + decimal_text(frame.end_offset as nat)
    } else {
        acc
    };
    with_sub_frame_list(acc, frame.sub_frames)
}

/// One numbered line for each child element identifier from `from` on.
pub open spec fn with_children(acc: Seq<char>, children: Seq<Seq<char>>, from: int) -> Seq<char>
    decreases children.len() - from,
{
    if from < 0 || from >= children.len() {
        acc
    } else {
        with_children(
            with_line(acc, content_indent(), "  ["@) + decimal_text((from + 1) as nat) + "] \""@
                + children[from] + "\""@,
            children,
            from + 1,
        )
    }
}

/// The lines of a table of contents frame: element identifier, flags, the
/// child elements and the embedded frames.
pub open spec fn with_table_of_contents(acc: Seq<char>, frame: TableOfContentsFrameView) -> Seq<
    char,
> {
    let acc = with_quoted_line(acc, content_indent(), "Element ID: "@, frame.element_id);
    let acc = with_line(acc, content_indent(), "Flags: Top-level: "@) + bool_text(frame.top_level)
        + ", Ordered: "@ + bool_text(frame.ordered);
    let acc = with_line(acc, content_indent(), "Child elements ("@) + decimal_text(
        frame.child_element_ids.len(),
    ) + "):"@;
    let acc = with_children(acc, frame.child_element_ids, 0);
    with_sub_frame_list(acc, frame.sub_frames)
}

/// The lines of the content of a frame of the tag itself. Binary content
/// has no lines.
pub open spec fn with_content(acc: Seq<char>, content: ContentView) -> Seq<char> {
    match content {
        ContentView::Text(frame) => with_text(acc, frame, content_indent(), 100, 80),
        ContentView::UserText(frame) => with_user_text(acc, frame, content_indent(), 100),
        ContentView::Url(frame) => with_url(acc, frame, content_indent()),
        ContentView::UserUrl(frame) => with_user_url(acc, frame, content_indent()),
        ContentView::Comment(frame) => with_comment(acc, frame, content_indent(), 100),
        ContentView::Picture(frame) => with_picture(acc, frame, content_indent(), true),
        ContentView::UniqueFileId(frame) => with_unique_file_id(acc, frame, content_indent()),
        ContentView::Chapter(frame) => with_chapter(acc, frame),
        ContentView::TableOfContents(frame) => with_table_of_contents(acc, frame),
        ContentView::Binary(_) => acc,
    }
}

/// The text form of a frame: identifier with description, size, the flags
/// where any is set, the lines of the content, the number of frames in the
/// separate list of embedded frames where it is not empty, and an empty line
/// at the end.
pub open spec fn frame_display(frame: FrameView) -> Seq<char> {
    let acc = Seq::<char>::empty() + "Frame: "@ + frame.id + " ("@ + frame_description(frame.id)
        + ")"@ + " - Size: "@ + decimal_text(frame.size as nat) + " bytes"@;
    let acc = if frame.flags != 0 {
        acc + " - Flags: 0x"@ + hex4_text(frame.flags)
    } else {
        acc
    };
    let acc = match frame.content {
        Some(content) => with_content(acc, content),
        None => acc,
    };
    let acc = match frame.embedded_frames {
        Some(frames) => if frames.len() > 0 {
            with_line(acc, content_indent(), decimal_text(frames.len())) + " embedded sub-frame(s)"@
        } else {
            acc
        },
        None => acc,
    };
    acc + "\n"@ + "\n"@
}

/// The bytes of an identifier from `from` on, each as `0x` and two
/// hexadecimal digits, separated by commas.
pub open spec fn with_id_bytes(acc: Seq<char>, bytes: Seq<u8>, from: int) -> Seq<char>
    decreases bytes.len() - from,
{
    if from < 0 || from >= bytes.len() {
        acc
    } else {
        let acc = if from > 0 {
            acc + ", "@
        } else {
            acc
        };
        with_id_bytes(acc + "0x"@ + hex2_text(bytes[from]), bytes, from + 1)
    }
}

/// The indentation of an embedded frame that is written out on its own.
pub open spec fn embedded_indent() -> Seq<char> {
    "          "@
}

/// The indentation of the content lines of an embedded frame that is
/// written out on its own.
pub open spec fn embedded_content_indent() -> Seq<char> {
    "              "@
}

/// An embedded frame written out on its own: one line with the bytes of the
/// identifier, the size and the flags, one line with identifier,
/// description and size, then the lines of the content.
pub open spec fn with_embedded_frame(acc: Seq<char>, frame: FrameView) -> Seq<char> {
    let acc = with_id_bytes(
        acc + embedded_indent() + "Frame ID bytes = ["@,
        encode_utf8(frame.id),
        0,
    ) + "] (\""@ + frame.id + "\"), Size: "@ + decimal_text(frame.size as nat)
        + " bytes, Flags: 0x"@ + hex4_text(frame.flags) + "\n"@;
    let acc = acc + embedded_indent() + "Frame: "@ + frame.id + " ("@ + frame_description(frame.id)
        + ") - Size: "@ + decimal_text(frame.size as nat) + " bytes"@;
    let acc = match frame.content {
        Some(content) => with_nested_content(acc, content, frame.size, embedded_content_indent()),
        None => acc,
    };
    acc + "\n"@
}

/// The text form of an embedded frame.
pub open spec fn embedded_frame_display(frame: FrameView) -> Seq<char> {
    with_embedded_frame(Seq::<char>::empty(), frame)
}

/// Each embedded frame from `from` on, written out on its own.
pub open spec fn with_embedded_frames(acc: Seq<char>, frames: Seq<FrameView>, from: int) -> Seq<
    char,
>
    decreases frames.len() - from,
{
    if from < 0 || from >= frames.len() {
        acc
    } else {
        with_embedded_frames(with_embedded_frame(acc, frames[from]), frames, from + 1)
    }
}

/// The text form of a chapter: one line each for the element identifier and
/// the times, one for the byte offsets where both are in use, and the
/// embedded frames, each written out on its own.
pub open spec fn chapter_display(frame: ChapterFrameView) -> Seq<char> {
    let acc = Seq::<char>::empty() + "Element ID: \""@ + frame.element_id + "\"\n"@ + "Time: "@
        + timestamp_text(frame.start_time) + " - "@ + timestamp_text(frame.end_time)
        + " (duration: "@ + timestamp_text(frame.length() as u32) + ")\n"@;
    let acc = if frame.byte_offsets_used() {
        acc + "Byte offsets: "@ + decimal_text(frame.start_offset as nat) + " - "@ + decimal_text(
            frame.end_offset as nat,
        ) + "\n"@
    } else {
        acc
    };
    if frame.sub_frames.len() > 0 {
        with_embedded_frames(
            acc + "Sub-frames: "@ + decimal_text(frame.sub_frames.len()) + " embedded frame(s)\n"@,
            frame.sub_frames,
            0,
        )
    } else {
        acc
    }
}

/// The text form of a user-defined text frame: one line each for encoding,
/// description and value.
pub open spec fn user_text_display(frame: UserTextFrameView) -> Seq<char> {
    Seq::<char>::empty() + "Encoding: "@ + frame.encoding.name_text() + "\n"@ + "Description: \""@
        + frame.description + "\"\n"@ + "Value: \""@ + shortened_text(frame.value, 100) + "\"\n"@
}

/// Begins a new line with the indentation and a label.
fn push_line(out: &mut String, indent: &str, label: &str)
    ensures
        final(out)@ == with_line(old(out)@, indent@, label@),
{
    out.append("\n");
    out.append(indent);
    out.append(label);
}

/// Writes a new line with a label and a value in double quotes.
fn push_quoted_line(out: &mut String, indent: &str, label: &str, value: &str)
    ensures
        final(out)@ == with_quoted_line(old(out)@, indent@, label@, value@),
{
    push_line(out, indent, label);
    out.append("\"");
    out.append(value);
    out.append("\"");
}

/// Writes a new line with a label and a shortened value in double quotes.
fn push_shortened_line(out: &mut String, indent: &str, label: &str, value: &str, limit: usize)
    ensures
        final(out)@ == with_quoted_line(
            old(out)@,
            indent@,
            label@,
            shortened_text(value@, limit),
        ),
{
    push_line(out, indent, label);
    out.append("\"");
    push_shortened(out, value, limit);
    out.append("\"");
}

/// Writes the line that names the encoding.
fn push_encoding_line(out: &mut String, indent: &str, encoding: TextEncoding)
    ensures
        final(out)@ == with_line(old(out)@, indent@, "Encoding: "@) + encoding.name_text(),
{
    push_line(out, indent, "Encoding: ");
    out.append(encoding.name());
}

/// Writes the lines of a text frame.
fn push_text(out: &mut String, frame: &TextFrame, indent: &str, limit: usize, list_limit: usize)
    ensures
        final(out)@ == with_text(old(out)@, frame@, indent@, limit, list_limit),
{
    push_encoding_line(out, indent, frame.encoding);
    let count: usize = frame.strings.len();
    if count > 1 {
        push_line(out, indent, "Values (");
        push_decimal(out, count as u64);
        out.append(" strings):");
        let ghost strings = texts_of(frame.strings@);
        let ghost start = out@;
        let mut i: usize = 0;
        while i < count
            invariant
                count == frame.strings@.len(),
                strings == texts_of(frame.strings@),
                i <= count,
                with_values(out@, strings, i as int, indent@, list_limit) == with_values(
                    start,
                    strings,
                    0,
                    indent@,
                    list_limit,
                ),
            decreases count - i,
        {
            push_line(out, indent, "  [");
            push_decimal(out, (i + 1) as u64);
            out.append("] \"");
            push_shortened(out, frame.strings[i].as_str(), list_limit);
            out.append("\"");
            i += 1;
        }
    } else if !frame.text.as_str().is_empty() {
        push_shortened_line(out, indent, "Value: ", frame.text.as_str(), limit);
    }
}

/// Writes the lines of a user-defined text frame.
fn push_user_text(out: &mut String, frame: &UserTextFrame, indent: &str, limit: usize)
    ensures
        final(out)@ == with_user_text(old(out)@, frame@, indent@, limit),
{
    push_encoding_line(out, indent, frame.encoding);
    push_quoted_line(out, indent, "Description: ", frame.description.as_str());
    push_shortened_line(out, indent, "Value: ", frame.value.as_str(), limit);
}

/// Writes the line of a URL frame.
fn push_url(out: &mut String, frame: &UrlFrame, indent: &str)
    ensures
        final(out)@ == with_url(old(out)@, frame@, indent@),
{
    push_quoted_line(out, indent, "URL: ", frame.url.as_str());
}

/// Writes the lines of a user-defined URL frame.
fn push_user_url(out: &mut String, frame: &UserUrlFrame, indent: &str)
    ensures
        final(out)@ == with_user_url(old(out)@, frame@, indent@),
{
    push_encoding_line(out, indent, frame.encoding);
    push_quoted_line(out, indent, "Description: ", frame.description.as_str());
    push_quoted_line(out, indent, "URL: ", frame.url.as_str());
}

/// Writes the lines of a comment frame.
fn push_comment(out: &mut String, frame: &CommentFrame, indent: &str, limit: usize)
    ensures
        final(out)@ == with_comment(old(out)@, frame@, indent@, limit),
{
    push_encoding_line(out, indent, frame.encoding);
    push_quoted_line(out, indent, "Language: ", frame.language.as_str());
    if !frame.description.as_str().is_empty() {
        push_quoted_line(out, indent, "Description: ", frame.description.as_str());
    }
    push_shortened_line(out, indent, "Text: ", frame.text.as_str(), limit);
}

/// Writes the lines of an attached picture frame.
fn push_picture(out: &mut String, frame: &AttachedPictureFrame, indent: &str, show_encoding: bool)
    ensures
        final(out)@ == with_picture(old(out)@, frame@, indent@, show_encoding),
{
    if show_encoding {
        push_encoding_line(out, indent, frame.encoding);
    }
    push_line(out, indent, "MIME type: ");
    out.append(frame.mime_type.as_str());
    push_line(out, indent, "Picture type: ");
    push_decimal(out, frame.picture_type as u64);
    out.append(" (");
    out.append(frame.picture_type_description());
    out.append(")");
    if !frame.description.as_str().is_empty() {
        push_quoted_line(out, indent, "Description: ", frame.description.as_str());
    }
    push_line(out, indent, "Data size: ");
    push_decimal(out, frame.picture_data.len() as u64);
    out.append(" bytes");
}

/// Writes the lines of a unique file identifier frame.
fn push_unique_file_id(out: &mut String, frame: &UniqueFileIdFrame, indent: &str)
    ensures
        final(out)@ == with_unique_file_id(old(out)@, frame@, indent@),
{
    push_quoted_line(out, indent, "Owner: ", frame.owner_identifier.as_str());
    push_line(out, indent, "Identifier: ");
    push_decimal(out, frame.identifier.len() as u64);
    out.append(" bytes");
}

/// Writes the lines of the content of an embedded frame.
fn push_nested_content(out: &mut String, content: &Id3v2FrameContent, size: u32, indent: &str)
    ensures
        final(out)@ == with_nested_content(old(out)@, content_view(*content), size, indent@),
{
    match content {
        Id3v2FrameContent::Text(frame) => push_text(out, frame, indent, 60, 60),
        Id3v2FrameContent::UserText(frame) => push_user_text(out, frame, indent, 60),
        Id3v2FrameContent::Url(frame) => push_url(out, frame, indent),
        Id3v2FrameContent::UserUrl(frame) => push_user_url(out, frame, indent),
        Id3v2FrameContent::Comment(frame) => push_comment(out, frame, indent, 60),
        Id3v2FrameContent::Picture(frame) => push_picture(out, frame, indent, false),
        Id3v2FrameContent::UniqueFileId(frame) => push_unique_file_id(out, frame, indent),
        Id3v2FrameContent::Binary(_) => {
            push_line(out, indent, "Binary data: ");
            push_decimal(out, size as u64);
            out.append(" bytes");
        },
        _ => {},
    }
}

/// Writes the heading and the list of the embedded frames.
fn push_sub_frame_list(out: &mut String, frames: &Vec<Id3v2Frame>)
    ensures
        final(out)@ == with_sub_frame_list(old(out)@, frames_view(frames@)),
{
    let count: usize = frames.len();
    if count > 0 {
        push_line(out, "    ", "Sub-frames: ");
        push_decimal(out, count as u64);
        out.append(" embedded frame(s)");
        let ghost views = frames_view(frames@);
        let ghost start = out@;
        let mut i: usize = 0;
        while i < count
            invariant
                count == frames@.len(),
                views == frames_view(frames@),
                i <= count,
                with_sub_frames(out@, views, i as int) == with_sub_frames(start, views, 0),
            decreases count - i,
        {
            let frame = &frames[i];
            assert(views[i as int] == frame_view(*frame));
            push_line(out, "    ", "  [");
            push_decimal(out, (i + 1) as u64);
            out.append("] ");
            out.append(frame.id.as_str());
            out.append(" - ");
            out.append(get_frame_description(frame.id.as_str()));
            match &frame.content {
                Some(content) => push_nested_content(out, content, frame.size, "          "),
                None => {},
            }
            i += 1;
        }
    }
}

/// Writes the lines of a chapter frame.
fn push_chapter(out: &mut String, frame: &ChapterFrame)
    ensures
        final(out)@ == with_chapter(old(out)@, frame@),
{
    push_quoted_line(out, "    ", "Element ID: ", frame.element_id.as_str());
    push_line(out, "    ", "Time: ");
    out.append(format_timestamp(frame.start_time).as_str());
    out.append(" - ");
    out.append(format_timestamp(frame.end_time).as_str());
    out.append(" (duration: ");
    out.append(format_timestamp(frame.duration()).as_str());
    out.append(")");
    if frame.has_byte_offsets() {
        push_line(out, "    ", "Byte offsets: ");
        push_decimal(out, frame.start_offset as u64);
        out.append(" - ");
        push_decimal(out, frame.end_offset as u64);
    }
    push_sub_frame_list(out, &frame.sub_frames);
}

/// Writes the lines of a table of contents frame.
fn push_table_of_contents(out: &mut String, frame: &TableOfContentsFrame)
    ensures
        final(out)@ == with_table_of_contents(old(out)@, frame@),
{
    push_quoted_line(out, "    ", "Element ID: ", frame.element_id.as_str());
    push_line(out, "    ", "Flags: Top-level: ");
    push_bool(out, frame.top_level);
    out.append(", Ordered: ");
    push_bool(out, frame.ordered);
    let count: usize = frame.child_element_ids.len();
    push_line(out, "    ", "Child elements (");
    push_decimal(out, count as u64);
    out.append("):");
    let ghost children = texts_of(frame.child_element_ids@);
    let ghost start = out@;
    let mut i: usize = 0;
    while i < count
        invariant
            count == frame.child_element_ids@.len(),
            children == texts_of(frame.child_element_ids@),
            i <= count,
            with_children(out@, children, i as int) == with_children(start, children, 0),
        decreases count - i,
    {
        push_line(out, "    ", "  [");
        push_decimal(out, (i + 1) as u64);
        out.append("] \"");
        out.append(frame.child_element_ids[i].as_str());
        out.append("\"");
        i += 1;
    }
    push_sub_frame_list(out, &frame.sub_frames);
}

/// Writes the lines of the content of a frame of the tag itself.
fn push_content(out: &mut String, content: &Id3v2FrameContent)
    ensures
        final(out)@ == with_content(old(out)@, content_view(*content)),
{
    match content {
        Id3v2FrameContent::Text(frame) => push_text(out, frame, "    ", 100, 80),
        Id3v2FrameContent::UserText(frame) => push_user_text(out, frame, "    ", 100),
        Id3v2FrameContent::Url(frame) => push_url(out, frame, "    "),
        Id3v2FrameContent::UserUrl(frame) => push_user_url(out, frame, "    "),
        Id3v2FrameContent::Comment(frame) => push_comment(out, frame, "    ", 100),
        Id3v2FrameContent::Picture(frame) => push_picture(out, frame, "    ", true),
        Id3v2FrameContent::UniqueFileId(frame) => push_unique_file_id(out, frame, "    "),
        Id3v2FrameContent::Chapter(frame) => push_chapter(out, frame),
        Id3v2FrameContent::TableOfContents(frame) => push_table_of_contents(out, frame),
        Id3v2FrameContent::Binary(_) => {},
    }
}

impl Id3v2Frame {
    /// Writes the frame out as text.
    pub fn to_display_string(&self) -> (text: String)
        ensures
            text@ == frame_display(self@),
    {
        let mut out = String::new();
        out.append("Frame: ");
        out.append(self.id.as_str());
        out.append(" (");
        out.append(get_frame_description(self.id.as_str()));
        out.append(")");
        out.append(" - Size: ");
        push_decimal(&mut out, self.size as u64);
        out.append(" bytes");
        if self.flags != 0 {
            out.append(" - Flags: 0x");
            push_hex4(&mut out, self.flags);
        }
        match &self.content {
            Some(content) => push_content(&mut out, content),
            None => {},
        }
        match &self.embedded_frames {
            Some(frames) => {
                let count: usize = frames.len();
                if count > 0 {
                    out.append("\n");
                    out.append("    ");
                    push_decimal(&mut out, count as u64);
                    out.append(" embedded sub-frame(s)");
                }
            },
            None => {},
        }
        out.append("\n");
        out.append("\n");
        out
    }
}

/// Writes an embedded frame out on its own.
fn push_embedded_frame(out: &mut String, frame: &Id3v2Frame)
    ensures
        final(out)@ == with_embedded_frame(old(out)@, frame_view(*frame)),
{
    out.append("          ");
    out.append("Frame ID bytes = [");
    let bytes = frame.id.as_str().as_bytes();
    let count: usize = bytes.len();
    let ghost start = out@;
    let mut i: usize = 0;
    while i < count
        invariant
            count == bytes@.len(),
            i <= count,
            with_id_bytes(out@, bytes@, i as int) == with_id_bytes(start, bytes@, 0),
        decreases count - i,
    {
        if i > 0 {
            out.append(", ");
        }
        out.append("0x");
        push_hex2(out, bytes[i]);
        i += 1;
    }
    out.append("] (\"");
    out.append(frame.id.as_str());
    out.append("\"), Size: ");
    push_decimal(out, frame.size as u64);
    out.append(" bytes, Flags: 0x");
    push_hex4(out, frame.flags);
    out.append("\n");
    out.append("          ");
    out.append("Frame: ");
    out.append(frame.id.as_str());
    out.append(" (");
    out.append(get_frame_description(frame.id.as_str()));
    out.append(") - Size: ");
    push_decimal(out, frame.size as u64);
    out.append(" bytes");
    match &frame.content {
        Some(content) => push_nested_content(out, content, frame.size, "              "),
        None => {},
    }
    out.append("\n");
}

/// Writes an embedded frame out as text, with the indentation of a frame
/// inside a chapter.
pub fn display_embedded_frame_content(frame: &Id3v2Frame) -> (text: String)
    ensures
        text@ == embedded_frame_display(frame@),
{
    let mut out = String::new();
    push_embedded_frame(&mut out, frame);
    out
}

impl ChapterFrame {
    /// Writes the chapter out as text.
    pub fn to_display_string(&self) -> (text: String)
        ensures
            text@ == chapter_display(self@),
    {
        let mut out = String::new();
        out.append("Element ID: \"");
        out.append(self.element_id.as_str());
        out.append("\"\n");
        out.append("Time: ");
        out.append(format_timestamp(self.start_time).as_str());
        out.append(" - ");
        out.append(format_timestamp(self.end_time).as_str());
        out.append(" (duration: ");
        out.append(format_timestamp(self.duration()).as_str());
        out.append(")\n");
        if self.has_byte_offsets() {
            out.append("Byte offsets: ");
            push_decimal(&mut out, self.start_offset as u64);
            out.append(" - ");
            push_decimal(&mut out, self.end_offset as u64);
            out.append("\n");
        }
        let count: usize = self.sub_frames.len();
        if count > 0 {
            out.append("Sub-frames: ");
            push_decimal(&mut out, count as u64);
            out.append(" embedded frame(s)\n");
            let ghost views = frames_view(self.sub_frames@);
            let ghost start = out@;
            let mut i: usize = 0;
            while i < count
                invariant
                    count == self.sub_frames@.len(),
                    views == frames_view(self.sub_frames@),
                    i <= count,
                    with_embedded_frames(out@, views, i as int) == with_embedded_frames(
                        start,
                        views,
                        0,
                    ),
                decreases count - i,
            {
                assert(views[i as int] == frame_view(self.sub_frames@[i as int]));
                push_embedded_frame(&mut out, &self.sub_frames[i]);
                i += 1;
            }
        }
        out
    }
}

impl UserTextFrame {
    /// Writes the frame out as text.
    pub fn to_display_string(&self) -> (text: String)
        ensures
            text@ == user_text_display(self@),
    {
        let mut out = String::new();
        out.append("Encoding: ");
        out.append(self.encoding.name());
        out.append("\n");
        out.append("Description: \"");
        out.append(self.description.as_str());
        out.append("\"\n");
        out.append("Value: \"");
        push_shortened(&mut out, self.value.as_str(), 100);
        out.append("\"\n");
        out
    }
}

} // verus!
