use id3_frame::content::decode_content;
use id3_frame::flags::{parse_v3_flags, parse_v4_flags};
use id3_frame::text::{decode_text, encode_text};
use id3_frame::util::{destuff, stuff, synchsafe_u32, unsynchsafe_u32};
use id3_frame::{Content, Encoding, Frame, Version};

#[test]
fn synchsafe_spreads_seven_bits_per_byte() {
    assert_eq!(synchsafe_u32(0), 0);
    assert_eq!(synchsafe_u32(7), 7);
    assert_eq!(synchsafe_u32(0x80), 0x100);
    assert_eq!(synchsafe_u32(0x0FFFFFFF), 0x7F7F7F7F);
    assert_eq!(unsynchsafe_u32(0x7F7F7F7F), 0x0FFFFFFF);
    assert_eq!(unsynchsafe_u32(synchsafe_u32(123456)), 123456);
}

#[test]
fn unsynchronization_stuffs_after_every_ff() {
    assert_eq!(stuff(&[0xFF, 0x12, 0xFF]), vec![0xFF, 0x00, 0x12, 0xFF, 0x00]);
    assert_eq!(destuff(&[0xFF, 0x00, 0x12, 0xFF, 0x00]), vec![0xFF, 0x12, 0xFF]);
    assert_eq!(stuff(&[]), Vec::<u8>::new());
}

#[test]
fn encoding_marker_bytes() {
    assert_eq!(Encoding::Latin1.code(), 0);
    assert_eq!(Encoding::UTF16.code(), 1);
    assert_eq!(Encoding::UTF16BE.code(), 2);
    assert_eq!(Encoding::UTF8.code(), 3);
}

#[test]
fn text_encodings_serialize_exactly() {
    assert_eq!(encode_text("AB", Encoding::Latin1), vec![0x41, 0x42]);
    assert_eq!(
        encode_text("ab", Encoding::UTF16),
        vec![0xFF, 0xFE, 0x61, 0x00, 0x62, 0x00]
    );
    assert_eq!(encode_text("ab", Encoding::UTF16BE), vec![0x00, 0x61, 0x00, 0x62]);
    assert_eq!(encode_text("aé", Encoding::UTF8), vec![0x61, 0xC3, 0xA9]);
    // A character outside the basic plane takes a surrogate pair.
    assert_eq!(
        encode_text("\u{1D11E}", Encoding::UTF16BE),
        vec![0xD8, 0x34, 0xDD, 0x1E]
    );
}

#[test]
fn text_bodies_decode_exactly() {
    assert_eq!(decode_text(&[0x00, 0x41, 0xE9]), Ok("Aé".to_string()));
    assert_eq!(
        decode_text(&[0x01, 0xFF, 0xFE, 0x61, 0x00]),
        Ok("a".to_string())
    );
    assert_eq!(
        decode_text(&[0x01, 0xFE, 0xFF, 0x00, 0x61]),
        Ok("a".to_string())
    );
    assert_eq!(decode_text(&[0x02, 0xD8, 0x34, 0xDD, 0x1E]), Ok("\u{1D11E}".to_string()));
    assert_eq!(decode_text(&[0x03, 0x61, 0xC3, 0xA9]), Ok("aé".to_string()));
    // An unknown marker, a missing byte-order mark, an odd UTF-16 byte
    // count, an unpaired surrogate, and malformed UTF-8 all fail.
    assert!(decode_text(&[0x09, 0x41]).is_err());
    assert!(decode_text(&[0x01, 0x61, 0x00]).is_err());
    assert!(decode_text(&[0x02, 0x61]).is_err());
    assert!(decode_text(&[0x02, 0xD8, 0x34]).is_err());
    assert!(decode_text(&[0x03, 0xFF]).is_err());
    assert!(decode_text(&[]).is_err());
}

#[test]
fn flag_bytes_parse_back() {
    let f = parse_v3_flags(0xE0, 0xE0);
    assert!(f.tag_alter_preservation && f.file_alter_preservation && f.read_only);
    assert!(f.compression && f.encryption && f.grouping_identity);
    assert!(!f.unsynchronization && !f.data_length_indicator);

    let f = parse_v4_flags(0x70, 0x4F);
    assert!(f.tag_alter_preservation && f.file_alter_preservation && f.read_only);
    assert!(f.grouping_identity && f.compression && f.encryption);
    assert!(f.unsynchronization && f.data_length_indicator);

    let f = parse_v4_flags(0x00, 0x00);
    assert_eq!(f.to_bytes(4), vec![0x00, 0x00]);
}

#[test]
fn v4_sizes_are_synchsafe_even_without_unsynchronization() {
    let text: String = std::iter::repeat('x').take(130).collect();
    let frame = Frame::with_content("TIT2", Content::Text(text.clone())).unwrap();
    let mut writer = Vec::new();
    frame.write_to(&mut writer, Version::Id3v24, false).unwrap();
    // 1 encoding byte + 130 UTF-8 bytes = 131 = 0x83, synch-safe 0x0103.
    assert_eq!(&writer[4..8], &[0x00, 0x00, 0x01, 0x03]);

    let (consumed, back) = Frame::read_from(&writer, Version::Id3v24, false)
        .unwrap()
        .unwrap();
    assert_eq!(consumed, writer.len());
    match back.content() {
        Content::Text(t) => assert_eq!(t, &text),
        other => panic!("expected a textual payload, got {:?}", other),
    }
}

#[test]
fn non_text_identifiers_keep_raw_bodies() {
    let id = *b"PRIV";
    let body = [0x01, 0x02, 0xFF];
    match decode_content(&id, &body).unwrap() {
        Content::Unknown(data) => assert_eq!(data, vec![0x01, 0x02, 0xFF]),
        other => panic!("expected a raw payload, got {:?}", other),
    }
    // TXXX is not a plain text frame either.
    let id = *b"TXXX";
    match decode_content(&id, &body).unwrap() {
        Content::Unknown(data) => assert_eq!(data, vec![0x01, 0x02, 0xFF]),
        other => panic!("expected a raw payload, got {:?}", other),
    }
    // A textual identifier whose body does not parse as text is a
    // decode failure, not a downgrade.
    let id = *b"TIT2";
    assert!(decode_content(&id, &body).is_err());
}

#[test]
fn compressed_bodies_are_kept_verbatim() {
    let mut bytes = Vec::new();
    bytes.extend("TIT2".bytes());
    bytes.extend([0x00, 0x00, 0x00, 0x02].iter().cloned());
    // Compression flag set: the body is not interpreted.
    bytes.extend([0x00, 0x80].iter().cloned());
    bytes.extend([0xAB, 0xCD].iter().cloned());
    let (consumed, frame) = Frame::read_from(&bytes, Version::Id3v23, false)
        .unwrap()
        .unwrap();
    assert_eq!(consumed, bytes.len());
    assert!(frame.compression());
    match frame.content() {
        Content::Unknown(data) => assert_eq!(data, &vec![0xAB, 0xCD]),
        other => panic!("expected a raw payload, got {:?}", other),
    }
}
