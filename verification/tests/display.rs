use supertool::id3v2_chapter_frame::ChapterFrame;
use supertool::id3v2_frame::{Id3v2Frame, Id3v2FrameContent};
use supertool::id3v2_frame_display::display_embedded_frame_content;
use supertool::id3v2_text_encoding::TextEncoding;
use supertool::id3v2_user_text_frame::UserTextFrame;
use supertool::text_format::{
    push_bool, push_decimal, push_hex2, push_hex4, push_shortened, push_zero_padded,
};

fn parsed(id: &str, flags: u16, body: &[u8], version: u8) -> Id3v2Frame {
    let mut frame = Id3v2Frame::new(id.to_string(), body.len() as u32, flags, body.to_vec());
    let _ = frame.parse_content(version);
    frame
}

fn stored_frame(id: &str, body: &[u8]) -> Vec<u8> {
    let mut bytes = Vec::new();
    bytes.extend_from_slice(id.as_bytes());
    bytes.extend_from_slice(&(body.len() as u32).to_be_bytes());
    bytes.extend_from_slice(&[0x00, 0x00]);
    bytes.extend_from_slice(body);
    bytes
}

#[test]
fn decimal_numbers() {
    for value in [0u64, 1, 9, 10, 11, 99, 100, 12_345, u32::MAX as u64, u64::MAX] {
        let mut out = String::from("x");
        push_decimal(&mut out, value);
        assert_eq!(out, format!("x{}", value));
    }
}

#[test]
fn zero_padded_numbers() {
    for value in [0u64, 7, 10, 123, 1234] {
        for width in [0usize, 1, 2, 3, 5] {
            let mut out = String::new();
            push_zero_padded(&mut out, value, width);
            assert_eq!(out, format!("{:0width$}", value, width = width));
        }
    }
}

#[test]
fn hexadecimal_numbers() {
    for value in [0u16, 1, 0x000A, 0x00FF, 0x4020, 0xABCD, 0xFFFF, 0x1234, 0x9F0E] {
        let mut out = String::from("0x");
        push_hex4(&mut out, value);
        assert_eq!(out, format!("0x{:04X}", value));
    }
}

#[test]
fn truth_values() {
    let mut out = String::new();
    push_bool(&mut out, true);
    out.push(' ');
    push_bool(&mut out, false);
    assert_eq!(out, "true false");
}

#[test]
fn shortening_cuts_at_characters_when_bytes_exceed_the_limit() {
    let cases: [(&str, usize, &str); 8] = [
        ("", 0, ""),
        ("abc", 3, "abc"),
        ("abcd", 3, "abc..."),
        ("abc", 0, "..."),
        ("h\u{e9}llo", 5, "h\u{e9}llo..."),
        ("h\u{e9}llo", 6, "h\u{e9}llo"),
        ("\u{1F600}\u{1F600}", 3, "\u{1F600}\u{1F600}..."),
        ("\u{1F600}\u{1F600}", 1, "\u{1F600}..."),
    ];
    for (text, limit, expected) in cases.iter() {
        let mut out = String::new();
        push_shortened(&mut out, text, *limit);
        assert_eq!(&out, expected, "{:?} at {}", text, limit);
        let reference = if text.len() > *limit {
            format!("{}...", text.chars().take(*limit).collect::<String>())
        } else {
            text.to_string()
        };
        assert_eq!(out, reference);
    }
}

#[test]
fn text_frame_display() {
    let frame = parsed("TIT2", 0, b"\x00Hello\0", 3);
    assert_eq!(
        frame.to_display_string(),
        "Frame: TIT2 (Title/songname/content description) - Size: 7 bytes\n    Encoding: ISO-8859-1\n    Value: \"Hello\"\n\n"
    );
}

#[test]
fn flags_are_shown_in_hexadecimal_when_set() {
    let frame = parsed("TALB", 0x4020, b"\x00A", 3);
    assert_eq!(
        frame.to_display_string(),
        "Frame: TALB (Album/Movie/Show title) - Size: 2 bytes - Flags: 0x4020\n    Encoding: ISO-8859-1\n    Value: \"A\"\n\n"
    );
}

#[test]
fn text_frame_with_several_values_display() {
    let frame = parsed("TCON", 0, b"\x03Rock\0Pop\0Jazz", 4);
    assert_eq!(
        frame.to_display_string(),
        "Frame: TCON (Content type) - Size: 14 bytes\n    Encoding: UTF-8\n    Values (3 strings):\n      [1] \"Rock\"\n      [2] \"Pop\"\n      [3] \"Jazz\"\n\n"
    );
}

#[test]
fn empty_text_has_no_value_line() {
    let frame = parsed("TIT2", 0, b"\x00\0", 3);
    assert_eq!(
        frame.to_display_string(),
        "Frame: TIT2 (Title/songname/content description) - Size: 2 bytes\n    Encoding: ISO-8859-1\n\n"
    );
}

#[test]
fn long_values_are_shortened() {
    let long: String = std::iter::repeat('a').take(150).collect();
    let mut body = vec![0x00];
    body.extend_from_slice(long.as_bytes());
    let frame = parsed("TIT2", 0, &body, 3);
    let shown: String = std::iter::repeat('a').take(100).collect();
    assert_eq!(
        frame.to_display_string(),
        format!(
            "Frame: TIT2 (Title/songname/content description) - Size: 151 bytes\n    Encoding: ISO-8859-1\n    Value: \"{}...\"\n\n",
            shown
        )
    );
    let mut listed = vec![0x00];
    listed.extend(std::iter::repeat(b'b').take(81));
    listed.push(0);
    listed.extend(std::iter::repeat(b'c').take(80));
    let frame = parsed("TIT2", 0, &listed, 3);
    let b80: String = std::iter::repeat('b').take(80).collect();
    let c80: String = std::iter::repeat('c').take(80).collect();
    assert_eq!(
        frame.to_display_string(),
        format!(
            "Frame: TIT2 (Title/songname/content description) - Size: 163 bytes\n    Encoding: ISO-8859-1\n    Values (2 strings):\n      [1] \"{}...\"\n      [2] \"{}\"\n\n",
            b80, c80
        )
    );
}

#[test]
fn user_text_and_urls_display() {
    assert_eq!(
        parsed("TXXX", 0, b"\x00key\0value", 3).to_display_string(),
        "Frame: TXXX (User defined text information frame) - Size: 10 bytes\n    Encoding: ISO-8859-1\n    Description: \"key\"\n    Value: \"value\"\n\n"
    );
    assert_eq!(
        parsed("WOAR", 0, b"http://a", 3).to_display_string(),
        "Frame: WOAR (Official artist/performer webpage) - Size: 8 bytes\n    URL: \"http://a\"\n\n"
    );
    assert_eq!(
        parsed("WXXX", 0, b"\x00site\0http://a", 3).to_display_string(),
        "Frame: WXXX (User defined URL link frame) - Size: 14 bytes\n    Encoding: ISO-8859-1\n    Description: \"site\"\n    URL: \"http://a\"\n\n"
    );
}

#[test]
fn comment_display() {
    assert_eq!(
        parsed("COMM", 0, b"\x00engshort\0The text", 3).to_display_string(),
        "Frame: COMM (Comments) - Size: 18 bytes\n    Encoding: ISO-8859-1\n    Language: \"eng\"\n    Description: \"short\"\n    Text: \"The text\"\n\n"
    );
    assert_eq!(
        parsed("USLT", 0, b"\x00eng\0la la", 3).to_display_string(),
        "Frame: USLT (Unsychronized lyric/text transcription) - Size: 10 bytes\n    Encoding: ISO-8859-1\n    Language: \"eng\"\n    Text: \"la la\"\n\n"
    );
}

#[test]
fn picture_and_identifier_display() {
    assert_eq!(
        parsed("APIC", 0, b"\x00image/png\0\x03Front\0\x89PNG", 3).to_display_string(),
        "Frame: APIC (Attached picture) - Size: 22 bytes\n    Encoding: ISO-8859-1\n    MIME type: image/png\n    Picture type: 3 (Cover (front))\n    Description: \"Front\"\n    Data size: 4 bytes\n\n"
    );
    assert_eq!(
        parsed("APIC", 0, b"\x00image/png\0\x00\0", 3).to_display_string(),
        "Frame: APIC (Attached picture) - Size: 13 bytes\n    Encoding: ISO-8859-1\n    MIME type: image/png\n    Picture type: 0 (Other)\n    Data size: 0 bytes\n\n"
    );
    assert_eq!(
        parsed("UFID", 0, b"owner\0\x01\x02\x03", 3).to_display_string(),
        "Frame: UFID (Unique file identifier) - Size: 9 bytes\n    Owner: \"owner\"\n    Identifier: 3 bytes\n\n"
    );
}

#[test]
fn binary_and_unparsed_frames_display() {
    assert_eq!(
        parsed("PRIV", 0, &[1, 2, 3], 3).to_display_string(),
        "Frame: PRIV (Private frame) - Size: 3 bytes\n\n"
    );
    assert_eq!(
        parsed("TAL3", 1, &[0, 0x41], 3).to_display_string(),
        "Frame: TAL3 (Unknown frame type) - Size: 2 bytes - Flags: 0x0001\n\n"
    );
    let unparsed = Id3v2Frame::new("TIT2".to_string(), 2, 0, vec![0, 0x41]);
    assert_eq!(
        unparsed.to_display_string(),
        "Frame: TIT2 (Title/songname/content description) - Size: 2 bytes\n\n"
    );
}

#[test]
fn chapter_display() {
    let mut embedded = stored_frame("TIT2", b"\x00Chapter One");
    embedded.extend_from_slice(&stored_frame("APIC", b"\x00image/png\0\x03Front\0\x89PNG"));
    embedded.extend_from_slice(&stored_frame("PRIV", b"xyz"));
    embedded.extend_from_slice(&stored_frame("TCON", b"\x00A\0B"));
    let mut body = b"chp1\0".to_vec();
    for value in [1000u32, 61_500, 256, 65_536] {
        body.extend_from_slice(&value.to_be_bytes());
    }
    body.extend_from_slice(&embedded);
    let frame = parsed("CHAP", 0, &body, 3);
    let expected = format!(
        "Frame: CHAP (Chapter frame) - Size: {} bytes\n    Element ID: \"chp1\"\n    Time: 00:00:01.000 - 00:01:01.500 (duration: 00:01:00.500)\n    Byte offsets: 256 - 65536\n    Sub-frames: 4 embedded frame(s)\n      [1] TIT2 - Title/songname/content description\n          Encoding: ISO-8859-1\n          Value: \"Chapter One\"\n      [2] APIC - Attached picture\n          MIME type: image/png\n          Picture type: 3 (Cover (front))\n          Description: \"Front\"\n          Data size: 4 bytes\n      [3] PRIV - Private frame\n          Binary data: 3 bytes\n      [4] TCON - Content type\n          Encoding: ISO-8859-1\n          Values (2 strings):\n            [1] \"A\"\n            [2] \"B\"\n\n",
        body.len()
    );
    assert_eq!(frame.to_display_string(), expected);
}

#[test]
fn chapter_without_offsets_or_sub_frames_display() {
    let mut body = b"c\0".to_vec();
    for value in [5000u32, 1000, 0xFFFF_FFFF, 0xFFFF_FFFF] {
        body.extend_from_slice(&value.to_be_bytes());
    }
    let frame = parsed("CHAP", 0, &body, 4);
    assert_eq!(
        frame.to_display_string(),
        "Frame: CHAP (Chapter frame) - Size: 18 bytes\n    Element ID: \"c\"\n    Time: 00:00:05.000 - 00:00:01.000 (duration: 00:00:00.000)\n\n"
    );
}

#[test]
fn nested_chapters_are_listed_without_their_content() {
    let mut inner = b"in\0".to_vec();
    inner.extend_from_slice(&[0u8; 16]);
    let mut body = b"out\0".to_vec();
    body.extend_from_slice(&[0u8; 8]);
    body.extend_from_slice(&[0xFF; 8]);
    body.extend_from_slice(&stored_frame("CHAP", &inner));
    let frame = parsed("CHAP", 0, &body, 3);
    assert_eq!(
        frame.to_display_string(),
        format!(
            "Frame: CHAP (Chapter frame) - Size: {} bytes\n    Element ID: \"out\"\n    Time: 00:00:00.000 - 00:00:00.000 (duration: 00:00:00.000)\n    Sub-frames: 1 embedded frame(s)\n      [1] CHAP - Chapter frame\n\n",
            body.len()
        )
    );
}

#[test]
fn table_of_contents_display() {
    let mut body = b"toc\0\x01\x02chp1\0chp2\0".to_vec();
    body.extend_from_slice(&stored_frame("TIT2", b"\x00Contents"));
    let frame = parsed("CTOC", 0, &body, 3);
    assert_eq!(
        frame.to_display_string(),
        format!(
            "Frame: CTOC (Table of contents frame) - Size: {} bytes\n    Element ID: \"toc\"\n    Flags: Top-level: false, Ordered: true\n    Child elements (2):\n      [1] \"chp1\"\n      [2] \"chp2\"\n    Sub-frames: 1 embedded frame(s)\n      [1] TIT2 - Title/songname/content description\n          Encoding: ISO-8859-1\n          Value: \"Contents\"\n\n",
            body.len()
        )
    );
    let empty = parsed("CTOC", 0, b"t\0\x02\x00", 3);
    assert_eq!(
        empty.to_display_string(),
        "Frame: CTOC (Table of contents frame) - Size: 4 bytes\n    Element ID: \"t\"\n    Flags: Top-level: true, Ordered: false\n    Child elements (0):\n\n"
    );
}

#[test]
fn separate_list_of_embedded_frames_is_counted() {
    let inner = Id3v2Frame::new("TIT2".to_string(), 0, 0, vec![]);
    let frame = Id3v2Frame::new_complete(
        "CHAP".to_string(),
        0,
        0,
        vec![],
        Some(Id3v2FrameContent::Binary(vec![])),
        Some(vec![inner.clone(), inner]),
    );
    assert_eq!(
        frame.to_display_string(),
        "Frame: CHAP (Chapter frame) - Size: 0 bytes\n    2 embedded sub-frame(s)\n\n"
    );
    let none = Id3v2Frame::new_with_embedded("CHAP".to_string(), 0, 0, vec![], vec![]);
    assert_eq!(none.to_display_string(), "Frame: CHAP (Chapter frame) - Size: 0 bytes\n\n");
}

#[test]
fn user_text_frame_display() {
    let frame = UserTextFrame {
        encoding: TextEncoding::Utf16Bom,
        description: "key".to_string(),
        value: "value".to_string(),
    };
    assert_eq!(
        frame.to_display_string(),
        "Encoding: UTF-16 with BOM\nDescription: \"key\"\nValue: \"value\"\n"
    );
    let long = UserTextFrame {
        encoding: TextEncoding::Iso88591,
        description: String::new(),
        value: std::iter::repeat('z').take(101).collect(),
    };
    let shown: String = std::iter::repeat('z').take(100).collect();
    assert_eq!(
        long.to_display_string(),
        format!("Encoding: ISO-8859-1\nDescription: \"\"\nValue: \"{}...\"\n", shown)
    );
}

#[test]
fn embedded_frame_display() {
    let frame = parsed("TIT2", 0x4000, b"\x00Chapter One", 3);
    assert_eq!(
        display_embedded_frame_content(&frame),
        "          Frame ID bytes = [0x54, 0x49, 0x54, 0x32] (\"TIT2\"), Size: 12 bytes, Flags: 0x4000\n          Frame: TIT2 (Title/songname/content description) - Size: 12 bytes\n              Encoding: ISO-8859-1\n              Value: \"Chapter One\"\n"
    );
    let binary = parsed("PRIV", 0, &[1, 2], 3);
    assert_eq!(
        display_embedded_frame_content(&binary),
        "          Frame ID bytes = [0x50, 0x52, 0x49, 0x56] (\"PRIV\"), Size: 2 bytes, Flags: 0x0000\n          Frame: PRIV (Private frame) - Size: 2 bytes\n              Binary data: 2 bytes\n"
    );
    let unparsed = Id3v2Frame::new("AB".to_string(), 0, 0, vec![]);
    assert_eq!(
        display_embedded_frame_content(&unparsed),
        "          Frame ID bytes = [0x41, 0x42] (\"AB\"), Size: 0 bytes, Flags: 0x0000\n          Frame: AB (Unknown frame type) - Size: 0 bytes\n"
    );
    let nameless = Id3v2Frame::new(String::new(), 0, 0, vec![]);
    assert_eq!(
        display_embedded_frame_content(&nameless),
        "          Frame ID bytes = [] (\"\"), Size: 0 bytes, Flags: 0x0000\n          Frame:  (Unknown frame type) - Size: 0 bytes\n"
    );
}

#[test]
fn chapter_on_its_own_display() {
    let mut body = b"chp1\0".to_vec();
    for value in [1000u32, 61_500, 256, 65_536] {
        body.extend_from_slice(&value.to_be_bytes());
    }
    body.extend_from_slice(&stored_frame("TIT2", b"\x00One"));
    body.extend_from_slice(&stored_frame("WOAR", b"http://a"));
    let chapter = ChapterFrame::parse(&body, 3).unwrap();
    assert_eq!(
        chapter.to_display_string(),
        "Element ID: \"chp1\"\nTime: 00:00:01.000 - 00:01:01.500 (duration: 00:01:00.500)\nByte offsets: 256 - 65536\nSub-frames: 2 embedded frame(s)\n          Frame ID bytes = [0x54, 0x49, 0x54, 0x32] (\"TIT2\"), Size: 4 bytes, Flags: 0x0000\n          Frame: TIT2 (Title/songname/content description) - Size: 4 bytes\n              Encoding: ISO-8859-1\n              Value: \"One\"\n          Frame ID bytes = [0x57, 0x4F, 0x41, 0x52] (\"WOAR\"), Size: 8 bytes, Flags: 0x0000\n          Frame: WOAR (Official artist/performer webpage) - Size: 8 bytes\n              URL: \"http://a\"\n"
    );
    let mut plain = b"c\0".to_vec();
    for value in [0u32, 0, 0xFFFF_FFFF, 0] {
        plain.extend_from_slice(&value.to_be_bytes());
    }
    assert_eq!(
        ChapterFrame::parse(&plain, 4).unwrap().to_display_string(),
        "Element ID: \"c\"\nTime: 00:00:00.000 - 00:00:00.000 (duration: 00:00:00.000)\n"
    );
}

#[test]
fn two_digit_hexadecimal_numbers() {
    for value in [0u8, 9, 10, 15, 16, 0x7F, 0xA5, 0xFF] {
        let mut out = String::new();
        push_hex2(&mut out, value);
        assert_eq!(out, format!("{:02X}", value));
    }
}
