use supertool::errors::ErrorKind;
use supertool::id3v2_attached_picture_frame::AttachedPictureFrame;
use supertool::id3v2_chapter_frame::{format_timestamp, ChapterFrame, UNUSED_OFFSET};
use supertool::id3v2_comment_frame::CommentFrame;
use supertool::id3v2_frame::{
    decode_content, frame_kind, FrameKind, Id3v2Frame, Id3v2FrameContent, MAX_EMBEDDED_DEPTH,
};
use supertool::id3v2_table_of_contents_frame::TableOfContentsFrame;
use supertool::id3v2_text_encoding::TextEncoding;
use supertool::id3v2_text_frame::TextFrame;
use supertool::id3v2_unique_file_id_frame::UniqueFileIdFrame;
use supertool::id3v2_url_frame::UrlFrame;
use supertool::id3v2_user_text_frame::UserTextFrame;
use supertool::id3v2_user_url_frame::UserUrlFrame;

fn stored_frame(id: &str, body: &[u8]) -> Vec<u8> {
    let mut bytes = Vec::new();
    bytes.extend_from_slice(id.as_bytes());
    bytes.extend_from_slice(&(body.len() as u32).to_be_bytes());
    bytes.extend_from_slice(&[0x00, 0x00]);
    bytes.extend_from_slice(body);
    bytes
}

fn chapter_body(element_id: &str, times: [u32; 4], embedded: &[u8]) -> Vec<u8> {
    let mut bytes = Vec::new();
    bytes.extend_from_slice(element_id.as_bytes());
    bytes.push(0);
    for value in times.iter() {
        bytes.extend_from_slice(&value.to_be_bytes());
    }
    bytes.extend_from_slice(embedded);
    bytes
}

#[test]
fn text_frame_hello() {
    let frame = TextFrame::parse(&[0x00, 0x48, 0x65, 0x6C, 0x6C, 0x6F, 0x00]).unwrap();
    assert_eq!(frame.encoding, TextEncoding::Iso88591);
    assert_eq!(frame.text, "Hello");
    assert_eq!(frame.primary_text(), "Hello");
    assert_eq!(frame.strings, vec!["Hello"]);
}

#[test]
fn tit2_body_decodes_to_text_variant() {
    let mut frame = Id3v2Frame::new(
        "TIT2".to_string(),
        7,
        0,
        vec![0x00, 0x48, 0x65, 0x6C, 0x6C, 0x6F, 0x00],
    );
    assert_eq!(frame.parse_content(3), Ok(()));
    match &frame.content {
        Some(Id3v2FrameContent::Text(text)) => assert_eq!(text.text, "Hello"),
        other => panic!("expected a text variant, found {:?}", other),
    }
    assert_eq!(frame.get_text(), Some("Hello"));
}

#[test]
fn text_frame_with_several_values() {
    let frame = TextFrame::parse(b"\x03Rock\0Pop\0Jazz").unwrap();
    assert_eq!(frame.encoding, TextEncoding::Utf8);
    assert_eq!(frame.text, "Rock");
    assert_eq!(frame.strings, vec!["Rock", "Pop", "Jazz"]);
}

#[test]
fn text_frame_in_utf16() {
    let frame = TextFrame::parse(&[0x01, 0xFF, 0xFE, 0x48, 0x00, 0x69, 0x00, 0x00, 0x00]).unwrap();
    assert_eq!(frame.encoding, TextEncoding::Utf16Bom);
    assert_eq!(frame.text, "Hi");
    assert_eq!(frame.strings, vec!["Hi"]);
    let frame = TextFrame::parse(&[0x02, 0x00, 0x48, 0x00, 0x69]).unwrap();
    assert_eq!(frame.encoding, TextEncoding::Utf16Be);
    assert_eq!(frame.text, "Hi");
}

#[test]
fn text_frame_with_truncated_utf16_has_no_value() {
    let frame = TextFrame::parse(&[0x01, 0x41]).unwrap();
    assert_eq!(frame.text, "");
    assert!(frame.strings.is_empty());
}

#[test]
fn text_frame_errors() {
    assert_eq!(TextFrame::parse(&[]).unwrap_err(), ErrorKind::EmptyPayload);
    assert_eq!(TextFrame::parse(&[0x00]).unwrap_err(), ErrorKind::PayloadTooShort);
    assert_eq!(TextFrame::parse(&[0x04, 0x41]).unwrap_err(), ErrorKind::UnsupportedEncoding);
    assert_eq!(TextFrame::parse(&[0x09]).unwrap_err(), ErrorKind::UnsupportedEncoding);
}

#[test]
fn url_frame_takes_the_whole_body() {
    assert_eq!(UrlFrame::parse(b"http://example.com/a").unwrap().url, "http://example.com/a");
    assert_eq!(UrlFrame::parse(b"").unwrap().url, "");
    assert_eq!(UrlFrame::parse(&[0x68, 0xE9, 0x00]).unwrap().url, "h\u{e9}\u{0}");
}

#[test]
fn user_text_frame() {
    let frame = UserTextFrame::parse(b"\x00replaygain\0-6.5 dB\0").unwrap();
    assert_eq!(frame.encoding, TextEncoding::Iso88591);
    assert_eq!(frame.description, "replaygain");
    assert_eq!(frame.value, "-6.5 dB");
    let frame = UserTextFrame::parse(b"\x03\0value").unwrap();
    assert_eq!(frame.description, "");
    assert_eq!(frame.value, "value");
}

#[test]
fn user_text_frame_errors() {
    assert_eq!(UserTextFrame::parse(&[]).unwrap_err(), ErrorKind::EmptyPayload);
    assert_eq!(UserTextFrame::parse(&[0x01]).unwrap_err(), ErrorKind::PayloadTooShort);
    assert_eq!(UserTextFrame::parse(&[0x07, 0x00]).unwrap_err(), ErrorKind::UnsupportedEncoding);
    assert_eq!(UserTextFrame::parse(b"\x00no end").unwrap_err(), ErrorKind::MissingTerminator);
}

#[test]
fn user_url_frame() {
    let frame = UserUrlFrame::parse(b"\x00site\0http://example.com").unwrap();
    assert_eq!(frame.encoding, TextEncoding::Iso88591);
    assert_eq!(frame.description, "site");
    assert_eq!(frame.url, "http://example.com");
}

#[test]
fn user_url_frame_url_is_latin1_whatever_the_encoding() {
    let body = [
        0x01, 0xFF, 0xFE, 0x73, 0x00, 0x00, 0x00, 0x68, 0x74, 0x74, 0x70, 0x3A, 0x2F, 0x2F, 0xE9,
        0x00, 0x78,
    ];
    let frame = UserUrlFrame::parse(&body).unwrap();
    assert_eq!(frame.encoding, TextEncoding::Utf16Bom);
    assert_eq!(frame.description, "s");
    assert_eq!(frame.url, "http://\u{e9}");
}

#[test]
fn user_url_frame_errors() {
    assert_eq!(UserUrlFrame::parse(&[]).unwrap_err(), ErrorKind::EmptyPayload);
    assert_eq!(UserUrlFrame::parse(&[0x00]).unwrap_err(), ErrorKind::PayloadTooShort);
    assert_eq!(UserUrlFrame::parse(&[0x04, 0x00]).unwrap_err(), ErrorKind::UnsupportedEncoding);
    assert_eq!(UserUrlFrame::parse(b"\x00abc").unwrap_err(), ErrorKind::MissingTerminator);
}

#[test]
fn comment_frame() {
    let frame = CommentFrame::parse(b"\x00engshort\0The full text").unwrap();
    assert_eq!(frame.encoding, TextEncoding::Iso88591);
    assert_eq!(frame.language, "eng");
    assert_eq!(frame.description, "short");
    assert_eq!(frame.text, "The full text");
    let frame = CommentFrame::parse(b"\x03deu\0").unwrap();
    assert_eq!(frame.language, "deu");
    assert_eq!(frame.description, "");
    assert_eq!(frame.text, "");
}

#[test]
fn comment_frame_language_is_not_validated() {
    let frame = CommentFrame::parse(&[0x00, 0xFF, 0x41, 0x42, 0x00, 0x78]).unwrap();
    assert_eq!(frame.language, "\u{FFFD}AB");
    assert_eq!(frame.text, "x");
}

#[test]
fn comment_frame_errors() {
    assert_eq!(CommentFrame::parse(&[]).unwrap_err(), ErrorKind::PayloadTooShort);
    assert_eq!(CommentFrame::parse(b"\x00eng").unwrap_err(), ErrorKind::PayloadTooShort);
    assert_eq!(CommentFrame::parse(b"\x05eng\0").unwrap_err(), ErrorKind::UnsupportedEncoding);
    assert_eq!(CommentFrame::parse(b"\x00engab").unwrap_err(), ErrorKind::MissingTerminator);
}

#[test]
fn attached_picture_frame() {
    let mut body = Vec::new();
    body.push(0x00);
    body.extend_from_slice(b"image/png\0");
    body.push(0x03);
    body.extend_from_slice(b"Front\0");
    body.extend_from_slice(&[0x89, 0x50, 0x4E, 0x47, 0x00, 0xFF]);
    let frame = AttachedPictureFrame::parse(&body).unwrap();
    assert_eq!(frame.encoding, TextEncoding::Iso88591);
    assert_eq!(frame.mime_type, "image/png");
    assert_eq!(frame.picture_type, 3);
    assert_eq!(frame.picture_type_description(), "Cover (front)");
    assert_eq!(frame.description, "Front");
    assert_eq!(frame.picture_data, vec![0x89, 0x50, 0x4E, 0x47, 0x00, 0xFF]);
}

#[test]
fn attached_picture_frame_with_wide_description() {
    let body = [
        0x01, 0x69, 0x00, 0x04, 0xFF, 0xFE, 0x42, 0x00, 0x00, 0x00, 0x01, 0x02,
    ];
    let frame = AttachedPictureFrame::parse(&body).unwrap();
    assert_eq!(frame.mime_type, "i");
    assert_eq!(frame.picture_type, 4);
    assert_eq!(frame.picture_type_description(), "Cover (back)");
    assert_eq!(frame.description, "B");
    assert_eq!(frame.picture_data, vec![0x01, 0x02]);
}

#[test]
fn attached_picture_frame_without_picture() {
    let frame = AttachedPictureFrame::parse(b"\x00\0\x00\0").unwrap();
    assert_eq!(frame.mime_type, "");
    assert_eq!(frame.picture_type, 0);
    assert_eq!(frame.picture_type_description(), "Other");
    assert_eq!(frame.description, "");
    assert!(frame.picture_data.is_empty());
}

#[test]
fn attached_picture_frame_errors() {
    assert_eq!(AttachedPictureFrame::parse(&[]).unwrap_err(), ErrorKind::EmptyPayload);
    assert_eq!(
        AttachedPictureFrame::parse(&[0x04, 0x00]).unwrap_err(),
        ErrorKind::UnsupportedEncoding
    );
    assert_eq!(
        AttachedPictureFrame::parse(b"\x00image/png").unwrap_err(),
        ErrorKind::MissingTerminator
    );
    assert_eq!(
        AttachedPictureFrame::parse(b"\x00image/png\0").unwrap_err(),
        ErrorKind::PayloadTooShort
    );
    assert_eq!(
        AttachedPictureFrame::parse(b"\x00image/png\0\x03cover").unwrap_err(),
        ErrorKind::MissingTerminator
    );
}

#[test]
fn picture_type_names() {
    let mut frame = AttachedPictureFrame::parse(b"\x00\0\x00\0").unwrap();
    frame.picture_type = 0x11;
    assert_eq!(frame.picture_type_description(), "A bright coloured fish");
    frame.picture_type = 0x14;
    assert_eq!(frame.picture_type_description(), "Publisher/Studio logotype");
    frame.picture_type = 0x15;
    assert_eq!(frame.picture_type_description(), "Unknown");
    frame.picture_type = 0xFF;
    assert_eq!(frame.picture_type_description(), "Unknown");
}

#[test]
fn unique_file_id_frame() {
    let frame = UniqueFileIdFrame::parse(b"http://id.example\0\x01\x02\x00\x03").unwrap();
    assert_eq!(frame.owner_identifier, "http://id.example");
    assert_eq!(frame.identifier, vec![0x01, 0x02, 0x00, 0x03]);
    let frame = UniqueFileIdFrame::parse(b"\0").unwrap();
    assert_eq!(frame.owner_identifier, "");
    assert!(frame.identifier.is_empty());
}

#[test]
fn unique_file_id_frame_errors() {
    assert_eq!(UniqueFileIdFrame::parse(&[]).unwrap_err(), ErrorKind::EmptyPayload);
    assert_eq!(UniqueFileIdFrame::parse(b"owner").unwrap_err(), ErrorKind::MissingTerminator);
}

#[test]
fn chapter_frame_fields() {
    let body = chapter_body("chp1", [1000, 61_500, 0x0000_0100, 0x0001_0000], &[]);
    let chapter = ChapterFrame::parse(&body, 3).unwrap();
    assert_eq!(chapter.element_id, "chp1");
    assert_eq!(chapter.start_time, 1000);
    assert_eq!(chapter.end_time, 61_500);
    assert_eq!(chapter.start_offset, 256);
    assert_eq!(chapter.end_offset, 65_536);
    assert!(chapter.sub_frames.is_empty());
    assert!(chapter.has_byte_offsets());
    assert_eq!(chapter.duration(), 60_500);
}

#[test]
fn chapter_with_two_text_sub_frames() {
    let mut embedded = stored_frame("TIT2", b"\x00Chapter One");
    embedded.extend_from_slice(&stored_frame("TIT3", b"\x00The beginning\0"));
    let body = chapter_body("chp1", [0, 5000, UNUSED_OFFSET, UNUSED_OFFSET], &embedded);
    for version in [3u8, 4] {
        let chapter = ChapterFrame::parse(&body, version).unwrap();
        assert_eq!(chapter.sub_frames.len(), 2);
        assert_eq!(chapter.sub_frames[0].id(), "TIT2");
        assert_eq!(chapter.sub_frames[0].get_text(), Some("Chapter One"));
        assert_eq!(chapter.sub_frames[0].size(), 12);
        assert_eq!(chapter.sub_frames[1].id(), "TIT3");
        assert_eq!(chapter.sub_frames[1].get_text(), Some("The beginning"));
        assert!(!chapter.has_byte_offsets());
        let mut alone = Id3v2Frame::new(
            "TIT3".to_string(),
            chapter.sub_frames[1].size(),
            0,
            chapter.sub_frames[1].data().to_vec(),
        );
        assert_eq!(alone.parse_content(version), Ok(()));
        assert_eq!(alone.get_text(), Some("The beginning"));
    }
}

#[test]
fn chapter_duration_is_never_negative() {
    let chapter = ChapterFrame::parse(&chapter_body("c", [5000, 1000, 0, 0], &[]), 3).unwrap();
    assert_eq!(chapter.duration(), 0);
    let chapter = ChapterFrame::parse(&chapter_body("c", [7, 7, 0, 0], &[]), 3).unwrap();
    assert_eq!(chapter.duration(), 0);
    let chapter = ChapterFrame::parse(&chapter_body("c", [0, u32::MAX, 0, 0], &[]), 3).unwrap();
    assert_eq!(chapter.duration(), u32::MAX);
    let chapter = ChapterFrame::parse(&chapter_body("c", [u32::MAX, 0, 0, 0], &[]), 3).unwrap();
    assert_eq!(chapter.duration(), 0);
}

#[test]
fn chapter_byte_offsets_sentinel() {
    let both = ChapterFrame::parse(&chapter_body("c", [0, 0, 1, 2], &[]), 3).unwrap();
    assert!(both.has_byte_offsets());
    let start_only = ChapterFrame::parse(&chapter_body("c", [0, 0, 1, UNUSED_OFFSET], &[]), 3)
        .unwrap();
    assert!(!start_only.has_byte_offsets());
    let end_only = ChapterFrame::parse(&chapter_body("c", [0, 0, UNUSED_OFFSET, 2], &[]), 3)
        .unwrap();
    assert!(!end_only.has_byte_offsets());
    assert_eq!(UNUSED_OFFSET, 0xFFFF_FFFF);
}

#[test]
fn chapter_frame_errors() {
    assert_eq!(ChapterFrame::parse(&[], 3).unwrap_err(), ErrorKind::EmptyPayload);
    assert_eq!(ChapterFrame::parse(b"chp1", 3).unwrap_err(), ErrorKind::MissingTerminator);
    assert_eq!(ChapterFrame::parse(b"chp1\0", 3).unwrap_err(), ErrorKind::PayloadTooShort);
    let mut body = chapter_body("chp1", [1, 2, 3, 4], &[]);
    body.pop();
    assert_eq!(ChapterFrame::parse(&body, 3).unwrap_err(), ErrorKind::PayloadTooShort);
    body.truncate(5 + 3);
    assert_eq!(ChapterFrame::parse(&body, 4).unwrap_err(), ErrorKind::PayloadTooShort);
}

#[test]
fn chapter_embedded_scan_uses_the_version_size_rule() {
    let mut embedded = Vec::new();
    embedded.extend_from_slice(b"TIT2");
    embedded.extend_from_slice(&[0x00, 0x00, 0x01, 0x02]);
    embedded.extend_from_slice(&[0x00, 0x00]);
    let mut payload = vec![0x00];
    payload.extend(std::iter::repeat(0x41).take(257));
    embedded.extend_from_slice(&payload);
    let body = chapter_body("c", [0, 0, 0, 0], &embedded);
    let v3 = ChapterFrame::parse(&body, 3).unwrap();
    assert_eq!(v3.sub_frames.len(), 1);
    assert_eq!(v3.sub_frames[0].size(), 258);
    let v4 = ChapterFrame::parse(&body, 4).unwrap();
    assert_eq!(v4.sub_frames.len(), 1);
    assert_eq!(v4.sub_frames[0].size(), 130);
    assert_eq!(v4.sub_frames[0].data().len(), 130);
}

#[test]
fn chapter_embedded_scan_stops_quietly() {
    let mut embedded = stored_frame("TIT2", b"\x00One");
    embedded.extend_from_slice(b"TIT3\x00\x00\x10\x00\x00\x00short");
    let body = chapter_body("c", [0, 0, 0, 0], &embedded);
    let chapter = ChapterFrame::parse(&body, 3).unwrap();
    assert_eq!(chapter.sub_frames.len(), 1);
    assert_eq!(chapter.sub_frames[0].get_text(), Some("One"));
}

#[test]
fn nesting_is_decoded_down_to_the_depth_limit() {
    let mut body = chapter_body("leaf", [0, 0, 0, 0], &stored_frame("TIT2", b"\x00x"));
    for _ in 0..(MAX_EMBEDDED_DEPTH + 2) {
        body = chapter_body("node", [0, 0, 0, 0], &stored_frame("CHAP", &body));
    }
    let mut levels = 0u32;
    let mut current = ChapterFrame::parse(&body, 3).unwrap();
    loop {
        if current.sub_frames.is_empty() {
            break;
        }
        assert_eq!(current.sub_frames.len(), 1);
        let next = current.sub_frames.pop().unwrap();
        assert_eq!(next.id(), "CHAP");
        levels += 1;
        match next.content {
            Some(Id3v2FrameContent::Chapter(chapter)) => current = chapter,
            other => panic!("expected a chapter, found {:?}", other),
        }
    }
    assert_eq!(levels, MAX_EMBEDDED_DEPTH);
    assert_eq!(current.element_id, "node");
}

#[test]
fn depth_zero_leaves_the_embedded_region_undecoded() {
    let body = chapter_body("c", [0, 0, 0, 0], &stored_frame("TIT2", b"\x00x"));
    assert!(ChapterFrame::parse_with_depth(&body, 4, 0).unwrap().sub_frames.is_empty());
    assert_eq!(ChapterFrame::parse_with_depth(&body, 4, 1).unwrap().sub_frames.len(), 1);
    let toc = b"toc\0\x00\x00TIT2\x00\x00\x00\x02\x00\x00\x00x";
    assert!(TableOfContentsFrame::parse_with_depth(toc, 4, 0).unwrap().sub_frames.is_empty());
    assert_eq!(TableOfContentsFrame::parse_with_depth(toc, 4, 1).unwrap().sub_frames.len(), 1);
}

#[test]
fn table_of_contents_children_in_order() {
    let body = b"toc\0\x01\x02chp1\0chp2\0";
    let toc = TableOfContentsFrame::parse(body, 3).unwrap();
    assert_eq!(toc.element_id, "toc");
    assert!(toc.ordered);
    assert!(!toc.top_level);
    assert_eq!(toc.child_element_ids, vec!["chp1", "chp2"]);
    assert_eq!(toc.child_count(), 2);
    assert!(!toc.has_sub_frames());
    assert!(toc.sub_frames.is_empty());
}

#[test]
fn table_of_contents_flags() {
    let toc = TableOfContentsFrame::parse(b"t\0\x02\x00", 4).unwrap();
    assert!(toc.top_level);
    assert!(!toc.ordered);
    let toc = TableOfContentsFrame::parse(b"t\0\x03\x00", 4).unwrap();
    assert!(toc.top_level && toc.ordered);
    let toc = TableOfContentsFrame::parse(b"t\0\xFC\x00", 4).unwrap();
    assert!(!toc.top_level && !toc.ordered);
    assert_eq!(toc.child_count(), 0);
}

#[test]
fn table_of_contents_with_sub_frames() {
    let mut body = b"toc\0\x03\x01chp1\0".to_vec();
    body.extend_from_slice(&stored_frame("TIT2", b"\x00Contents"));
    let toc = TableOfContentsFrame::parse(&body, 4).unwrap();
    assert_eq!(toc.child_element_ids, vec!["chp1"]);
    assert!(toc.has_sub_frames());
    assert_eq!(toc.sub_frames.len(), 1);
    assert_eq!(toc.sub_frames[0].get_text(), Some("Contents"));
}

#[test]
fn table_of_contents_errors() {
    assert_eq!(TableOfContentsFrame::parse(&[], 3).unwrap_err(), ErrorKind::EmptyPayload);
    assert_eq!(TableOfContentsFrame::parse(b"toc", 3).unwrap_err(), ErrorKind::MissingTerminator);
    assert_eq!(TableOfContentsFrame::parse(b"toc\0", 3).unwrap_err(), ErrorKind::PayloadTooShort);
    assert_eq!(
        TableOfContentsFrame::parse(b"toc\0\x01", 3).unwrap_err(),
        ErrorKind::PayloadTooShort
    );
    assert_eq!(
        TableOfContentsFrame::parse(b"toc\0\x01\x02chp1\0chp2", 3).unwrap_err(),
        ErrorKind::MissingTerminator
    );
    assert_eq!(
        TableOfContentsFrame::parse(b"toc\0\x01\x01", 3).unwrap_err(),
        ErrorKind::MissingTerminator
    );
}

#[test]
fn frame_kinds() {
    assert_eq!(frame_kind("TIT2"), FrameKind::Text);
    assert_eq!(frame_kind("TXXX"), FrameKind::UserText);
    assert_eq!(frame_kind("WOAR"), FrameKind::Url);
    assert_eq!(frame_kind("WXXX"), FrameKind::UserUrl);
    assert_eq!(frame_kind("COMM"), FrameKind::Comment);
    assert_eq!(frame_kind("USLT"), FrameKind::Comment);
    assert_eq!(frame_kind("APIC"), FrameKind::Picture);
    assert_eq!(frame_kind("UFID"), FrameKind::UniqueFileId);
    assert_eq!(frame_kind("CHAP"), FrameKind::Chapter);
    assert_eq!(frame_kind("CTOC"), FrameKind::TableOfContents);
    assert_eq!(frame_kind("PRIV"), FrameKind::Other);
    assert_eq!(frame_kind(""), FrameKind::Other);
}

#[test]
fn unknown_identifier_gets_binary_content() {
    let mut frame = Id3v2Frame::new("TAL3".to_string(), 3, 0, vec![0x00, 0x41, 0x42]);
    assert_eq!(frame.parse_content(3), Ok(()));
    match &frame.content {
        Some(Id3v2FrameContent::Binary(raw)) => assert_eq!(raw, &vec![0x00, 0x41, 0x42]),
        other => panic!("expected binary content, found {:?}", other),
    }
    assert!(frame.is_parsed());
    assert_eq!(frame.get_text(), None);
    assert_eq!(frame.get_url(), None);
}

#[test]
fn identifier_of_the_other_version_gets_binary_content() {
    let mut frame = Id3v2Frame::new("TDRC".to_string(), 5, 0, b"\x002024".to_vec());
    assert_eq!(frame.parse_content(3), Ok(()));
    assert!(matches!(frame.content, Some(Id3v2FrameContent::Binary(_))));
    assert_eq!(frame.parse_content(4), Ok(()));
    assert_eq!(frame.get_text(), Some("2024"));
    assert_eq!(frame.parse_content(2), Ok(()));
    assert!(matches!(frame.content, Some(Id3v2FrameContent::Binary(_))));
}

#[test]
fn frame_without_typed_parser_gets_binary_content() {
    let mut frame = Id3v2Frame::new("PRIV".to_string(), 2, 0, vec![0x01, 0x02]);
    assert_eq!(frame.parse_content(4), Ok(()));
    match &frame.content {
        Some(Id3v2FrameContent::Binary(raw)) => assert_eq!(raw, &vec![0x01, 0x02]),
        other => panic!("expected binary content, found {:?}", other),
    }
}

#[test]
fn encoding_of_the_other_version_falls_back_to_binary() {
    let body = b"\x03Title".to_vec();
    let mut frame = Id3v2Frame::new("TIT2".to_string(), 6, 0, body.clone());
    assert_eq!(frame.parse_content(3), Err(ErrorKind::UnsupportedEncoding));
    match &frame.content {
        Some(Id3v2FrameContent::Binary(raw)) => assert_eq!(raw, &body),
        other => panic!("expected binary content, found {:?}", other),
    }
    assert_eq!(frame.parse_content(4), Ok(()));
    assert_eq!(frame.get_text(), Some("Title"));
    let mut wide = Id3v2Frame::new("TIT2".to_string(), 3, 0, vec![0x02, 0x00, 0x41]);
    assert_eq!(wide.parse_content(3), Err(ErrorKind::UnsupportedEncoding));
    assert_eq!(wide.parse_content(4), Ok(()));
    assert_eq!(wide.get_text(), Some("A"));
}

#[test]
fn every_encoded_kind_checks_the_encoding_against_the_version() {
    let cases: [(&str, &[u8]); 5] = [
        ("TIT2", b"\x03x"),
        ("TXXX", b"\x03d\0v"),
        ("WXXX", b"\x03d\0u"),
        ("COMM", b"\x03engd\0t"),
        ("APIC", b"\x03m\0\x00d\0p"),
    ];
    for (id, body) in cases.iter() {
        assert_eq!(
            decode_content(id, body, 3, MAX_EMBEDDED_DEPTH).unwrap_err(),
            ErrorKind::UnsupportedEncoding,
            "{}",
            id
        );
        assert!(decode_content(id, body, 4, MAX_EMBEDDED_DEPTH).is_ok(), "{}", id);
    }
}

#[test]
fn failed_typed_parse_keeps_the_raw_payload() {
    let mut frame = Id3v2Frame::new("COMM".to_string(), 2, 0x4000, vec![0x00, 0x65]);
    assert_eq!(frame.parse_content(4), Err(ErrorKind::PayloadTooShort));
    assert!(matches!(&frame.content, Some(Id3v2FrameContent::Binary(raw)) if raw == &vec![0x00, 0x65]));
    assert_eq!(frame.id(), "COMM");
    assert_eq!(frame.size(), 2);
    assert_eq!(frame.flags(), 0x4000);
    assert_eq!(frame.data(), &[0x00, 0x65]);
    assert!(frame.embedded_frames().is_none());
}

#[test]
fn content_dispatch_by_identifier() {
    assert!(matches!(
        decode_content("WOAR", b"http://a", 3, 1),
        Ok(Id3v2FrameContent::Url(_))
    ));
    assert!(matches!(
        decode_content("TXXX", b"\x00d\0v", 3, 1),
        Ok(Id3v2FrameContent::UserText(_))
    ));
    assert!(matches!(
        decode_content("WXXX", b"\x00d\0u", 3, 1),
        Ok(Id3v2FrameContent::UserUrl(_))
    ));
    assert!(matches!(
        decode_content("USLT", b"\x00engd\0t", 3, 1),
        Ok(Id3v2FrameContent::Comment(_))
    ));
    assert!(matches!(
        decode_content("APIC", b"\x00m\0\x03d\0p", 3, 1),
        Ok(Id3v2FrameContent::Picture(_))
    ));
    assert!(matches!(
        decode_content("UFID", b"o\0i", 3, 1),
        Ok(Id3v2FrameContent::UniqueFileId(_))
    ));
    assert!(matches!(
        decode_content("CHAP", &chapter_body("c", [0, 0, 0, 0], &[]), 3, 1),
        Ok(Id3v2FrameContent::Chapter(_))
    ));
    assert!(matches!(
        decode_content("CTOC", b"t\0\x00\x00", 3, 1),
        Ok(Id3v2FrameContent::TableOfContents(_))
    ));
    assert!(matches!(decode_content("MCDI", b"x", 3, 1), Ok(Id3v2FrameContent::Binary(_))));
}

#[test]
fn frame_text_and_url_getters() {
    let mut text = Id3v2Frame::new("TXXX".to_string(), 4, 0, b"\x00d\0v".to_vec());
    text.parse_content(3).unwrap();
    assert_eq!(text.get_text(), Some("v"));
    assert_eq!(text.get_url(), None);
    let mut comment = Id3v2Frame::new("COMM".to_string(), 7, 0, b"\x00engd\0t".to_vec());
    comment.parse_content(3).unwrap();
    assert_eq!(comment.get_text(), Some("t"));
    let mut url = Id3v2Frame::new("WOAR".to_string(), 8, 0, b"http://a".to_vec());
    url.parse_content(3).unwrap();
    assert_eq!(url.get_url(), Some("http://a"));
    assert_eq!(url.get_text(), None);
    let mut user_url = Id3v2Frame::new("WXXX".to_string(), 4, 0, b"\x00d\0u".to_vec());
    user_url.parse_content(3).unwrap();
    assert_eq!(user_url.get_url(), Some("u"));
    let unparsed = Id3v2Frame::new("TIT2".to_string(), 2, 0, b"\x00x".to_vec());
    assert_eq!(unparsed.get_text(), None);
    assert_eq!(unparsed.get_url(), None);
    assert!(!unparsed.is_parsed());
}

#[test]
fn frame_constructors() {
    let plain = Id3v2Frame::new("TIT2".to_string(), 2, 7, vec![0, 0x41]);
    assert_eq!(plain.id, "TIT2");
    assert_eq!(plain.size, 2);
    assert_eq!(plain.flags, 7);
    assert_eq!(plain.data, vec![0, 0x41]);
    assert!(plain.content.is_none());
    assert!(plain.embedded_frames.is_none());
    let with_content = Id3v2Frame::new_with_content(
        "PRIV".to_string(),
        1,
        0,
        vec![9],
        Id3v2FrameContent::Binary(vec![9]),
    );
    assert!(with_content.is_parsed());
    assert!(with_content.embedded_frames.is_none());
    let with_embedded =
        Id3v2Frame::new_with_embedded("CHAP".to_string(), 0, 0, vec![], vec![plain]);
    assert!(!with_embedded.is_parsed());
    assert!(with_embedded.has_embedded_frames());
    assert_eq!(with_embedded.embedded_frames().unwrap().len(), 1);
    assert_eq!(with_embedded.embedded_frames().unwrap()[0].id(), "TIT2");
    let empty_list = Id3v2Frame::new_with_embedded("CHAP".to_string(), 0, 0, vec![], vec![]);
    assert!(!empty_list.has_embedded_frames());
    assert!(empty_list.embedded_frames().is_some());
    let complete = Id3v2Frame::new_complete(
        "CTOC".to_string(),
        3,
        1,
        vec![1, 2, 3],
        Some(Id3v2FrameContent::Binary(vec![1, 2, 3])),
        Some(vec![]),
    );
    assert_eq!(complete.id(), "CTOC");
    assert_eq!(complete.size(), 3);
    assert_eq!(complete.flags(), 1);
    assert_eq!(complete.data(), &[1, 2, 3]);
    assert!(complete.is_parsed());
    assert!(!complete.has_embedded_frames());
    let bare = Id3v2Frame::new_complete("X".to_string(), 0, 0, vec![], None, None);
    assert!(!bare.is_parsed());
    assert!(bare.embedded_frames().is_none());
}

#[test]
fn frame_identifier_checks() {
    let valid = ["TIT2", "APIC", "abcd", "0123", "Az09"];
    for id in valid.iter() {
        assert!(Id3v2Frame::new(id.to_string(), 0, 0, vec![]).is_valid_id(), "{:?}", id);
    }
    let invalid = ["", "TIT", "TIT22", "TIT ", "TI-2", "\0\0\0\0", "T\u{e9}T", "T\u{e9}T2", "TIT\u{0660}"];
    for id in invalid.iter() {
        assert!(!Id3v2Frame::new(id.to_string(), 0, 0, vec![]).is_valid_id(), "{:?}", id);
    }
}

#[test]
fn frame_sizes_and_embedding_support() {
    let frame = Id3v2Frame::new("CHAP".to_string(), 25, 0, vec![]);
    assert_eq!(frame.total_size(), 35);
    assert!(frame.supports_embedded_frames());
    assert!(Id3v2Frame::new("CTOC".to_string(), 0, 0, vec![]).supports_embedded_frames());
    assert!(!Id3v2Frame::new("TIT2".to_string(), 0, 0, vec![]).supports_embedded_frames());
    assert!(!Id3v2Frame::new("chap".to_string(), 0, 0, vec![]).supports_embedded_frames());
    assert_eq!(Id3v2Frame::new("TIT2".to_string(), 0, 0, vec![]).total_size(), 10);
    assert_eq!(
        Id3v2Frame::new("TIT2".to_string(), u32::MAX - 10, 0, vec![]).total_size(),
        u32::MAX
    );
}

#[test]
fn timestamps() {
    assert_eq!(format_timestamp(0), "00:00:00.000");
    assert_eq!(format_timestamp(1), "00:00:00.001");
    assert_eq!(format_timestamp(999), "00:00:00.999");
    assert_eq!(format_timestamp(1000), "00:00:01.000");
    assert_eq!(format_timestamp(61_500), "00:01:01.500");
    assert_eq!(format_timestamp(3_599_999), "00:59:59.999");
    assert_eq!(format_timestamp(3_600_000), "01:00:00.000");
    assert_eq!(format_timestamp(36_000_000), "10:00:00.000");
    assert_eq!(format_timestamp(360_000_000), "100:00:00.000");
    assert_eq!(format_timestamp(u32::MAX), "1193:02:47.295");
}

#[test]
fn timestamps_agree_with_standard_formatting() {
    for ms in [0u32, 7, 10, 99, 100, 12_345, 59_999, 60_000, 86_399_999, 86_400_000, 4_000_000_000] {
        let total_seconds = ms / 1000;
        let expected = format!(
            "{:02}:{:02}:{:02}.{:03}",
            total_seconds / 3600,
            (total_seconds % 3600) / 60,
            total_seconds % 60,
            ms % 1000
        );
        assert_eq!(format_timestamp(ms), expected);
    }
}

#[test]
fn clones_are_deep_copies() {
    let mut embedded = stored_frame("TIT2", b"\x00Chapter One");
    embedded.extend_from_slice(&stored_frame("APIC", b"\x00image/png\0\x03cover\0\x89PNG"));
    embedded.extend_from_slice(&stored_frame("CTOC", b"toc\0\x03\x02a\0b\0"));
    let body = chapter_body("chp1", [1, 2, 3, 4], &embedded);
    let mut frame = Id3v2Frame::new("CHAP".to_string(), body.len() as u32, 0x20, body);
    frame.parse_content(3).unwrap();
    let copy = frame.clone();
    assert_eq!(format!("{:?}", copy), format!("{:?}", frame));
    drop(frame);
    assert_eq!(copy.id(), "CHAP");
    assert_eq!(copy.flags(), 0x20);
    match &copy.content {
        Some(Id3v2FrameContent::Chapter(chapter)) => {
            assert_eq!(chapter.element_id, "chp1");
            assert_eq!(chapter.sub_frames.len(), 3);
            assert_eq!(chapter.sub_frames[0].get_text(), Some("Chapter One"));
            match &chapter.sub_frames[1].content {
                Some(Id3v2FrameContent::Picture(picture)) => {
                    assert_eq!(picture.mime_type, "image/png");
                    assert_eq!(picture.picture_data, b"\x89PNG");
                },
                other => panic!("expected a picture, found {:?}", other),
            }
            match &chapter.sub_frames[2].content {
                Some(Id3v2FrameContent::TableOfContents(toc)) => {
                    assert_eq!(toc.child_element_ids, vec!["a", "b"]);
                },
                other => panic!("expected a table of contents, found {:?}", other),
            }
        },
        other => panic!("expected a chapter, found {:?}", other),
    }
    let listed = Id3v2Frame::new_with_embedded("CTOC".to_string(), 0, 0, vec![], vec![copy]);
    let again = listed.clone();
    assert_eq!(again.embedded_frames().unwrap().len(), 1);
    assert_eq!(format!("{:?}", again), format!("{:?}", listed));
}

#[test]
fn embedded_frames_on_their_own() {
    let mut embedded = stored_frame("TIT2", b"\x00One");
    embedded.extend_from_slice(&stored_frame("WOAR", b"http://a"));
    embedded.extend_from_slice(&[0u8; 12]);
    let frames = ChapterFrame::parse_embedded_frames(&embedded, 3);
    assert_eq!(frames.len(), 2);
    assert_eq!(frames[0].get_text(), Some("One"));
    assert_eq!(frames[1].get_url(), Some("http://a"));
    let frames = TableOfContentsFrame::parse_embedded_frames(&embedded, 4);
    assert_eq!(frames.len(), 2);
    assert!(ChapterFrame::parse_embedded_frames(&[], 3).is_empty());
    assert!(TableOfContentsFrame::parse_embedded_frames(b"TIT2", 3).is_empty());
}
