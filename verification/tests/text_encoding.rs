use supertool::errors::ErrorKind;
use supertool::id3v2_text_encoding::{
    decode_first_text, decode_iso88591_string, decode_text, decode_text_values, decode_utf16,
    find_terminator, split_terminated_text, TextEncoding,
};

#[test]
fn encoding_bytes() {
    assert_eq!(TextEncoding::from_byte(0), Ok(TextEncoding::Iso88591));
    assert_eq!(TextEncoding::from_byte(1), Ok(TextEncoding::Utf16Bom));
    assert_eq!(TextEncoding::from_byte(2), Ok(TextEncoding::Utf16Be));
    assert_eq!(TextEncoding::from_byte(3), Ok(TextEncoding::Utf8));
    for byte in [0u8, 1, 2, 3] {
        assert_eq!(TextEncoding::from_byte(byte).unwrap().to_byte(), byte);
    }
}

#[test]
fn unknown_encoding_bytes_are_rejected() {
    assert_eq!(TextEncoding::from_byte(4), Err(ErrorKind::UnsupportedEncoding));
    assert_eq!(TextEncoding::from_byte(0x80), Err(ErrorKind::UnsupportedEncoding));
    assert_eq!(TextEncoding::from_byte(0xFF), Err(ErrorKind::UnsupportedEncoding));
}

#[test]
fn encodings_accepted_by_version_three() {
    assert!(TextEncoding::Iso88591.is_valid_for_version(3));
    assert!(TextEncoding::Utf16Bom.is_valid_for_version(3));
}

#[test]
fn encodings_rejected_by_version_three() {
    assert!(!TextEncoding::Utf16Be.is_valid_for_version(3));
    assert!(!TextEncoding::Utf8.is_valid_for_version(3));
}

#[test]
fn encodings_accepted_by_version_four() {
    assert!(TextEncoding::Iso88591.is_valid_for_version(4));
    assert!(TextEncoding::Utf16Bom.is_valid_for_version(4));
    assert!(TextEncoding::Utf16Be.is_valid_for_version(4));
    assert!(TextEncoding::Utf8.is_valid_for_version(4));
}

#[test]
fn encodings_rejected_by_unknown_versions() {
    for version in [0u8, 2, 5, 255] {
        assert!(!TextEncoding::Iso88591.is_valid_for_version(version));
        assert!(!TextEncoding::Utf16Bom.is_valid_for_version(version));
        assert!(!TextEncoding::Utf16Be.is_valid_for_version(version));
        assert!(!TextEncoding::Utf8.is_valid_for_version(version));
    }
}

#[test]
fn terminator_lengths_and_names() {
    assert_eq!(TextEncoding::Iso88591.terminator_len(), 1);
    assert_eq!(TextEncoding::Utf8.terminator_len(), 1);
    assert_eq!(TextEncoding::Utf16Bom.terminator_len(), 2);
    assert_eq!(TextEncoding::Utf16Be.terminator_len(), 2);
    assert_eq!(TextEncoding::Iso88591.name(), "ISO-8859-1");
    assert_eq!(TextEncoding::Utf16Bom.name(), "UTF-16 with BOM");
    assert_eq!(TextEncoding::Utf16Be.name(), "UTF-16BE");
    assert_eq!(TextEncoding::Utf8.name(), "UTF-8");
}

#[test]
fn latin1_maps_every_byte_to_its_code_point() {
    assert_eq!(decode_iso88591_string(b"Hello"), "Hello");
    assert_eq!(decode_iso88591_string(&[0x43, 0x61, 0x66, 0xE9]), "Caf\u{e9}");
    assert_eq!(decode_iso88591_string(&[0x00, 0x7F, 0x80, 0xFF]), "\u{0}\u{7f}\u{80}\u{ff}");
    assert_eq!(decode_iso88591_string(&[]), "");
    let all: Vec<u8> = (0u8..=255).collect();
    let text = decode_iso88591_string(&all);
    let codes: Vec<u32> = text.chars().map(|c| c as u32).collect();
    let expected: Vec<u32> = (0u32..=255).collect();
    assert_eq!(codes, expected);
}

#[test]
fn utf16_in_both_byte_orders() {
    assert_eq!(decode_utf16(&[0x00, 0x48, 0x00, 0x69], true), "Hi");
    assert_eq!(decode_utf16(&[0x48, 0x00, 0x69, 0x00], false), "Hi");
    assert_eq!(decode_utf16(&[0x20, 0xAC], true), "\u{20ac}");
    assert_eq!(decode_utf16(&[0xAC, 0x20], false), "\u{20ac}");
    assert_eq!(decode_utf16(&[], true), "");
}

#[test]
fn utf16_surrogate_pairs() {
    assert_eq!(decode_utf16(&[0xD8, 0x3D, 0xDE, 0x00], true), "\u{1F600}");
    assert_eq!(decode_utf16(&[0x3D, 0xD8, 0x00, 0xDE], false), "\u{1F600}");
    assert_eq!(decode_utf16(&[0xD8, 0x00, 0xDC, 0x00], true), "\u{10000}");
    assert_eq!(decode_utf16(&[0xDB, 0xFF, 0xDF, 0xFF], true), "\u{10FFFF}");
    assert_eq!(decode_utf16(&[0x00, 0x41, 0xD8, 0x3D, 0xDE, 0x00, 0x00, 0x42], true), "A\u{1F600}B");
}

#[test]
fn utf16_unpaired_surrogates_are_replaced() {
    assert_eq!(decode_utf16(&[0xD8, 0x3D], true), "\u{FFFD}");
    assert_eq!(decode_utf16(&[0xDE, 0x00], true), "\u{FFFD}");
    assert_eq!(decode_utf16(&[0xD8, 0x3D, 0x00, 0x41], true), "\u{FFFD}A");
    assert_eq!(decode_utf16(&[0xDE, 0x00, 0xD8, 0x3D], true), "\u{FFFD}\u{FFFD}");
    assert_eq!(decode_utf16(&[0xD8, 0x3D, 0xD8, 0x3D, 0xDE, 0x00], true), "\u{FFFD}\u{1F600}");
}

#[test]
fn utf16_agrees_with_the_standard_decoder() {
    let samples: [&[u16]; 6] = [
        &[0x0048, 0x0069],
        &[0xD83D, 0xDE00],
        &[0xD83D],
        &[0xDE00, 0x0041],
        &[0xD800, 0xD800, 0xDC00, 0xDC00],
        &[0xFFFF, 0x0000, 0xE000, 0xD7FF],
    ];
    for units in samples.iter() {
        let mut bytes = Vec::new();
        for unit in units.iter() {
            bytes.push((unit >> 8) as u8);
            bytes.push((unit & 0xFF) as u8);
        }
        assert_eq!(decode_utf16(&bytes, true), String::from_utf16_lossy(units));
    }
}

#[test]
fn utf16_ignores_an_odd_trailing_byte() {
    assert_eq!(decode_utf16(&[0x00, 0x48, 0x00], true), "H");
    assert_eq!(decode_utf16(&[0x48], true), "");
}

#[test]
fn utf16_with_byte_order_mark() {
    assert_eq!(decode_text(&[0xFF, 0xFE, 0x48, 0x00, 0x69, 0x00], TextEncoding::Utf16Bom), "Hi");
    assert_eq!(decode_text(&[0xFE, 0xFF, 0x00, 0x48, 0x00, 0x69], TextEncoding::Utf16Bom), "Hi");
    assert_eq!(decode_text(&[0xFF, 0xFE], TextEncoding::Utf16Bom), "");
    assert_eq!(decode_text(&[0xFE, 0xFF], TextEncoding::Utf16Bom), "");
}

#[test]
fn utf16_without_byte_order_mark_is_big_endian() {
    assert_eq!(decode_text(&[0x00, 0x48, 0x00, 0x69], TextEncoding::Utf16Bom), "Hi");
    assert_eq!(decode_text(&[0x00, 0x48, 0x00, 0x69], TextEncoding::Utf16Be), "Hi");
    assert_eq!(decode_text(&[0x48, 0x00], TextEncoding::Utf16Bom), "\u{4800}");
}

#[test]
fn utf16_big_endian_keeps_a_leading_mark_as_text() {
    assert_eq!(decode_text(&[0xFE, 0xFF, 0x00, 0x48], TextEncoding::Utf16Be), "\u{FEFF}H");
}

#[test]
fn utf8_decoding() {
    assert_eq!(decode_text("h\u{e9}llo \u{1F600}".as_bytes(), TextEncoding::Utf8), "h\u{e9}llo \u{1F600}");
    assert_eq!(decode_text(b"", TextEncoding::Utf8), "");
    assert_eq!(decode_text(b"plain", TextEncoding::Utf8), "plain");
}

#[test]
fn utf8_malformed_bytes_are_replaced() {
    assert_eq!(decode_text(&[0xFF], TextEncoding::Utf8), "\u{FFFD}");
    assert_eq!(decode_text(&[0x41, 0xC3], TextEncoding::Utf8), "A\u{FFFD}");
    assert_eq!(decode_text(&[0x41, 0x80, 0x42], TextEncoding::Utf8), "A\u{FFFD}B");
}

#[test]
fn latin1_and_utf8_differ_above_ascii() {
    assert_eq!(decode_text(&[0xC3, 0xA9], TextEncoding::Iso88591), "\u{c3}\u{a9}");
    assert_eq!(decode_text(&[0xC3, 0xA9], TextEncoding::Utf8), "\u{e9}");
}

#[test]
fn terminator_search_narrow() {
    let data = [0x41, 0x00, 0x42, 0x00];
    assert_eq!(find_terminator(&data, 0, TextEncoding::Iso88591), Some(1));
    assert_eq!(find_terminator(&data, 1, TextEncoding::Iso88591), Some(1));
    assert_eq!(find_terminator(&data, 2, TextEncoding::Utf8), Some(3));
    assert_eq!(find_terminator(&data, 4, TextEncoding::Utf8), None);
    assert_eq!(find_terminator(&[0x41, 0x42], 0, TextEncoding::Iso88591), None);
    assert_eq!(find_terminator(&[], 0, TextEncoding::Iso88591), None);
}

#[test]
fn terminator_search_wide_is_aligned() {
    let data = [0x41, 0x00, 0x00, 0x42, 0x00, 0x00];
    assert_eq!(find_terminator(&data, 0, TextEncoding::Utf16Be), Some(4));
    assert_eq!(find_terminator(&data, 1, TextEncoding::Utf16Be), Some(1));
    assert_eq!(find_terminator(&[0x00, 0x41, 0x00], 0, TextEncoding::Utf16Bom), None);
    assert_eq!(find_terminator(&[0x00, 0x00], 0, TextEncoding::Utf16Bom), Some(0));
    assert_eq!(find_terminator(&[0x00], 0, TextEncoding::Utf16Bom), None);
}

#[test]
fn first_text_stops_at_the_terminator() {
    assert_eq!(decode_first_text(b"Hello\0World", TextEncoding::Iso88591), "Hello");
    assert_eq!(decode_first_text(b"Hello", TextEncoding::Iso88591), "Hello");
    assert_eq!(decode_first_text(b"\0Hello", TextEncoding::Utf8), "");
    assert_eq!(decode_first_text(&[0x00, 0x48, 0x00, 0x00, 0x00, 0x49], TextEncoding::Utf16Be), "H");
}

#[test]
fn text_values_split_on_terminators() {
    assert_eq!(decode_text_values(b"Hello\0", TextEncoding::Iso88591), vec!["Hello"]);
    assert_eq!(decode_text_values(b"Hello", TextEncoding::Iso88591), vec!["Hello"]);
    assert_eq!(decode_text_values(b"A\0B", TextEncoding::Utf8), vec!["A", "B"]);
    assert_eq!(decode_text_values(b"A\0B\0", TextEncoding::Utf8), vec!["A", "B"]);
    assert_eq!(decode_text_values(b"A\0\0B", TextEncoding::Utf8), vec!["A", "", "B"]);
    assert_eq!(decode_text_values(b"\0", TextEncoding::Iso88591), vec![""]);
    assert_eq!(decode_text_values(b"", TextEncoding::Iso88591), Vec::<String>::new());
}

#[test]
fn text_values_in_utf16() {
    let data = [
        0xFF, 0xFE, 0x41, 0x00, 0x00, 0x00, 0xFE, 0xFF, 0x00, 0x42, 0x00, 0x00, 0x00, 0x43,
    ];
    assert_eq!(decode_text_values(&data, TextEncoding::Utf16Bom), vec!["A", "B", "C"]);
    assert_eq!(decode_text_values(&[0x00, 0x41, 0x00], TextEncoding::Utf16Be), vec!["A"]);
    assert_eq!(decode_text_values(&[0x41], TextEncoding::Utf16Be), Vec::<String>::new());
    assert_eq!(
        decode_text_values(&[0x00, 0x41, 0x00, 0x00, 0x42], TextEncoding::Utf16Be),
        vec!["A"]
    );
}

#[test]
fn terminated_pair() {
    assert_eq!(
        split_terminated_text(b"desc\0value", TextEncoding::Iso88591),
        Ok(("desc".to_string(), "value".to_string()))
    );
    assert_eq!(
        split_terminated_text(b"desc\0value\0more", TextEncoding::Utf8),
        Ok(("desc".to_string(), "value".to_string()))
    );
    assert_eq!(
        split_terminated_text(b"\0value", TextEncoding::Iso88591),
        Ok((String::new(), "value".to_string()))
    );
    assert_eq!(
        split_terminated_text(b"desc\0", TextEncoding::Iso88591),
        Ok(("desc".to_string(), String::new()))
    );
    assert_eq!(
        split_terminated_text(
            &[0xFF, 0xFE, 0x64, 0x00, 0x00, 0x00, 0xFF, 0xFE, 0x76, 0x00, 0x00, 0x00],
            TextEncoding::Utf16Bom
        ),
        Ok(("d".to_string(), "v".to_string()))
    );
}

#[test]
fn terminated_pair_without_terminator_is_rejected() {
    assert_eq!(
        split_terminated_text(b"no terminator", TextEncoding::Iso88591),
        Err(ErrorKind::MissingTerminator)
    );
    assert_eq!(split_terminated_text(b"", TextEncoding::Utf8), Err(ErrorKind::MissingTerminator));
    assert_eq!(
        split_terminated_text(&[0x00, 0x41, 0x00], TextEncoding::Utf16Be),
        Err(ErrorKind::MissingTerminator)
    );
}
