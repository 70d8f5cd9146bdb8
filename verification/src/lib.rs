//! Decoding of ID3v2 tags (versions 2.3 and 2.4) into structured records.
//!
//! The decoders work on byte buffers that are already in memory and return
//! owned records together with diagnostics; nothing here performs I/O.

pub mod dissector_builder;
pub mod errors;
pub mod id3v2_attached_picture_frame;
pub mod id3v2_3_dissector;
pub mod id3v2_4_dissector;
pub mod id3v2_chapter_frame;
pub mod id3v2_comment_frame;
pub mod id3v2_dissector;
pub mod id3v2_frame;
pub mod id3v2_frame_decoder;
pub mod id3v2_frame_display;
pub mod id3v2_table_of_contents_frame;
pub mod id3v2_text_encoding;
pub mod id3v2_text_frame;
pub mod id3v2_tools;
pub mod id3v2_unique_file_id_frame;
pub mod id3v2_url_frame;
pub mod id3v2_user_text_frame;
pub mod id3v2_user_url_frame;
pub mod isobmff_dissector;
pub mod std_text;
pub mod text_format;
pub mod unknown_dissector;
