use id3_frame::content::decode_content;
use id3_frame::text::encode_text;
use id3_frame::util::synchsafe_u32;
use id3_frame::{Content, Encoding, Flags, Frame, FrameError, Version};

fn u32_to_bytes(n: u32) -> Vec<u8> {
    vec![
        ((n & 0xFF000000) >> 24) as u8,
        ((n & 0xFF0000) >> 16) as u8,
        ((n & 0xFF00) >> 8) as u8,
        (n & 0xFF) as u8,
    ]
}

/// Parses the provided data and sets the `content` field.
///
/// Returns `Err` if the data is invalid for the frame type.
fn parse_data(frame: &mut Frame, data: &[u8]) -> Result<(), FrameError> {
    let idb = frame.id().as_bytes();
    let id = [idb[0], idb[1], idb[2], idb[3]];
    frame.set_content(decode_content(&id, data)?);
    Ok(())
}

#[test]
fn test_frame_flags_to_bytes_v3() {
    let mut flags = Flags::new();
    assert_eq!(flags.to_bytes(0x3), vec![0x0, 0x0]);
    flags.tag_alter_preservation = true;
    flags.file_alter_preservation = true;
    flags.read_only = true;
    flags.compression = true;
    flags.encryption = true;
    flags.grouping_identity = true;
    assert_eq!(flags.to_bytes(0x3), vec![0xE0, 0xE0]);
}

#[test]
fn test_frame_flags_to_bytes_v4() {
    let mut flags = Flags::new();
    assert_eq!(flags.to_bytes(0x4), vec![0x0, 0x0]);
    flags.tag_alter_preservation = true;
    flags.file_alter_preservation = true;
    flags.read_only = true;
    flags.grouping_identity = true;
    flags.compression = true;
    flags.encryption = true;
    flags.unsynchronization = true;
    flags.data_length_indicator = true;
    assert_eq!(flags.to_bytes(0x4), vec![0x70, 0x4F]);
}

#[test]
fn test_to_bytes_v2() {
    let id = "TAL";
    let text = "album";
    let encoding = Encoding::UTF16;

    let mut frame = Frame::new(id).unwrap();

    let mut data = Vec::new();
    data.push(encoding.code());
    data.extend(encode_text(text, encoding).into_iter());

    parse_data(&mut frame, &data[..]).unwrap();

    let mut bytes = Vec::new();
    bytes.extend(id.bytes());
    bytes.extend((&u32_to_bytes(data.len() as u32)[1..]).iter().cloned());
    bytes.extend(data.into_iter());

    let mut writer = Vec::new();
    frame.write_to(&mut writer, Version::Id3v22, false).unwrap();
    assert_eq!(writer, bytes);
}

#[test]
fn test_to_bytes_v3() {
    let id = "TALB";
    let text = "album";
    let encoding = Encoding::UTF16;

    let mut frame = Frame::new(id).unwrap();

    let mut data = Vec::new();
    data.push(encoding.code());
    data.extend(encode_text(text, encoding).into_iter());

    parse_data(&mut frame, &data[..]).unwrap();

    let mut bytes = Vec::new();
    bytes.extend(id.bytes());
    bytes.extend(u32_to_bytes(data.len() as u32).into_iter());
    bytes.extend([0x00, 0x00].iter().cloned());
    bytes.extend(data.into_iter());

    let mut writer = Vec::new();
    frame.write_to(&mut writer, Version::Id3v23, false).unwrap();
    assert_eq!(writer, bytes);
}

#[test]
fn test_to_bytes_v4() {
    let id = "TALB";
    let text = "album";
    let encoding = Encoding::UTF8;

    let mut frame = Frame::new(id).unwrap();

    frame.set_tag_alter_preservation(true);
    frame.set_file_alter_preservation(true);

    let mut data = Vec::new();
    data.push(encoding.code());
    data.extend(text.bytes());

    parse_data(&mut frame, &data[..]).unwrap();

    let mut bytes = Vec::new();
    bytes.extend(id.bytes());
    bytes.extend(u32_to_bytes(synchsafe_u32(data.len() as u32)).into_iter());
    bytes.extend([0x60, 0x00].iter().cloned());
    bytes.extend(data.into_iter());

    let mut writer = Vec::new();
    frame.write_to(&mut writer, Version::Id3v24, false).unwrap();
    assert_eq!(writer, bytes);
}

#[test]
fn roundtrip_v3_text_frame() {
    let mut frame =
        Frame::with_content("TIT2", Content::Text("Title with ü".to_string())).unwrap();
    frame.set_tag_alter_preservation(true);
    frame.set_file_alter_preservation(true);

    let mut writer = Vec::new();
    let written = frame.write_to(&mut writer, Version::Id3v23, false).unwrap();
    assert_eq!(written as usize, writer.len());

    let (consumed, back) = Frame::read_from(&writer, Version::Id3v23, false)
        .unwrap()
        .unwrap();
    assert_eq!(consumed, writer.len());
    assert_eq!(back.id(), "TIT2");
    assert!(frame == back);
    match back.content() {
        Content::Text(t) => assert_eq!(t, "Title with ü"),
        other => panic!("expected a textual payload, got {:?}", other),
    }
}

#[test]
fn roundtrip_v4_text_frame() {
    let frame = Frame::with_content("TALB", Content::Text("albüm".to_string())).unwrap();

    let mut writer = Vec::new();
    frame.write_to(&mut writer, Version::Id3v24, false).unwrap();

    let (consumed, back) = Frame::read_from(&writer, Version::Id3v24, false)
        .unwrap()
        .unwrap();
    assert_eq!(consumed, writer.len());
    match back.content() {
        Content::Text(t) => assert_eq!(t, "albüm"),
        other => panic!("expected a textual payload, got {:?}", other),
    }
}

#[test]
fn roundtrip_v3_with_unsynchronization() {
    let frame = Frame::with_content("TCON", Content::Text("genre".to_string())).unwrap();

    let mut writer = Vec::new();
    frame.write_to(&mut writer, Version::Id3v23, true).unwrap();

    let (consumed, back) = Frame::read_from(&writer, Version::Id3v23, true)
        .unwrap()
        .unwrap();
    assert_eq!(consumed, writer.len());
    match back.content() {
        Content::Text(t) => assert_eq!(t, "genre"),
        other => panic!("expected a textual payload, got {:?}", other),
    }
}

#[test]
fn reading_padding_gives_no_frame() {
    let padding = [0u8; 12];
    assert_eq!(
        Frame::read_from(&padding, Version::Id3v23, false).unwrap(),
        None
    );
    assert_eq!(
        Frame::read_from(&padding, Version::Id3v22, false).unwrap(),
        None
    );
}

#[test]
fn reading_truncated_data_fails() {
    let frame = Frame::with_content("TIT2", Content::Text("x".to_string())).unwrap();
    let mut writer = Vec::new();
    frame.write_to(&mut writer, Version::Id3v23, false).unwrap();
    writer.pop();
    assert_eq!(
        Frame::read_from(&writer, Version::Id3v23, false),
        Err(FrameError::InvalidFrameData)
    );
    assert_eq!(
        Frame::read_from(&[0x54], Version::Id3v23, false),
        Err(FrameError::InvalidFrameData)
    );
}

#[test]
fn reading_bad_text_body_fails() {
    // A textual frame whose body declares an unknown text encoding is a
    // decode failure: no partial frame comes back.
    let mut bytes = Vec::new();
    bytes.extend("TIT2".bytes());
    bytes.extend(u32_to_bytes(2).into_iter());
    bytes.extend([0x00, 0x00].iter().cloned());
    bytes.extend([0x09, 0x41].iter().cloned());
    assert_eq!(
        Frame::read_from(&bytes, Version::Id3v23, false),
        Err(FrameError::InvalidFrameData)
    );
}

#[test]
fn new_frame_roundtrips_v3() {
    // A frame exactly as `new` builds it — empty Unknown content — under
    // an identifier whose decoding is not implemented.
    let frame = Frame::new("PRIV").unwrap();
    let mut writer = Vec::new();
    let written = frame.write_to(&mut writer, Version::Id3v23, false).unwrap();
    assert_eq!(written as usize, writer.len());
    let (consumed, back) = Frame::read_from(&writer, Version::Id3v23, false)
        .unwrap()
        .unwrap();
    assert_eq!(consumed, writer.len());
    assert!(frame == back);
    assert!(back == frame);
    match back.content() {
        Content::Unknown(data) => assert!(data.is_empty()),
        other => panic!("expected a raw payload, got {:?}", other),
    }
}

#[test]
fn equality_requires_both_payloads_textual() {
    let t = Frame::with_content("TIT2", Content::Text("".to_string())).unwrap();
    let u = Frame::with_content("TIT2", Content::Unknown(Vec::new())).unwrap();
    assert!(t != u);
    assert!(u != t);
}

#[test]
fn construct_rejects_bad_identifiers() {
    assert_eq!(Frame::new("TO"), Err(FrameError::InvalidIdentifier));
    assert_eq!(Frame::new("toolong"), Err(FrameError::InvalidIdentifier));
    assert_eq!(Frame::new("ta!b"), Err(FrameError::InvalidIdentifier));
    assert_eq!(Frame::new("ZZZ"), Err(FrameError::UnknownIdentifier));
    assert!(Frame::new("TAL").is_ok());
    assert!(Frame::new("PRIV").is_ok());
}

#[test]
fn short_identifiers_are_normalized() {
    let frame = Frame::new("TAL").unwrap();
    assert_eq!(frame.id(), "TALB");
    let frame = Frame::new("PIC").unwrap();
    assert_eq!(frame.id(), "APIC");
}

#[test]
fn id_for_version_drops_unrepresentable_frames() {
    let frame = Frame::new("PRIV").unwrap();
    assert_eq!(frame.id_for_version(Version::Id3v22), None);
    assert_eq!(
        frame.id_for_version(Version::Id3v23),
        Some("PRIV".to_string())
    );

    let frame = Frame::new("TALB").unwrap();
    assert_eq!(
        frame.id_for_version(Version::Id3v22),
        Some("TAL".to_string())
    );
    assert_eq!(
        frame.id_for_version(Version::Id3v24),
        Some("TALB".to_string())
    );
}

#[test]
fn writing_unrepresentable_frame_for_v22_fails() {
    let frame = Frame::with_content("PRIV", Content::Unknown(vec![1, 2, 3])).unwrap();
    let mut writer = Vec::new();
    assert_eq!(
        frame.write_to(&mut writer, Version::Id3v22, false),
        Err(FrameError::UnknownIdentifier)
    );
    assert!(writer.is_empty());
}

fn picture(data: Vec<u8>) -> Content {
    Content::Picture {
        mime_type: "image/png".to_string(),
        picture_type: 3,
        description: "cover".to_string(),
        data,
    }
}

#[test]
fn picture_frames_differ_by_content() {
    let a = Frame::with_content("APIC", picture(vec![1, 2, 3])).unwrap();
    let b = Frame::with_content("APIC", picture(vec![4, 5, 6])).unwrap();
    assert!(a != b);
    assert_ne!(a.hash_key(), b.hash_key());

    let c = Frame::with_content("APIC", picture(vec![1, 2, 3])).unwrap();
    assert!(a == c);
    assert_eq!(a.hash_key(), c.hash_key());
}

#[test]
fn hash_keys_separate_adjacent_fields() {
    // The length prefixes in the hash serialization keep a terminator
    // inside one field apart from a byte at the head of the next.
    let a = Frame::with_content(
        "APIC",
        Content::Picture {
            mime_type: "m".to_string(),
            picture_type: 0,
            description: "d\u{0}".to_string(),
            data: vec![],
        },
    )
    .unwrap();
    let b = Frame::with_content(
        "APIC",
        Content::Picture {
            mime_type: "m".to_string(),
            picture_type: 0,
            description: "d".to_string(),
            data: vec![0],
        },
    )
    .unwrap();
    assert!(a != b);
    assert_ne!(a.hash_key(), b.hash_key());
}

#[test]
fn text_frames_are_equal_by_identifier() {
    let a = Frame::with_content("TIT2", Content::Text("one".to_string())).unwrap();
    let b = Frame::with_content("TIT2", Content::Text("two".to_string())).unwrap();
    assert!(a == b);
    assert_eq!(a.hash_key(), b.hash_key());

    let c = Frame::with_content("TALB", Content::Text("one".to_string())).unwrap();
    assert!(a != c);
    assert_ne!(a.hash_key(), c.hash_key());
}

#[test]
fn set_compression_sets_data_length_indicator() {
    let mut frame = Frame::new("TALB").unwrap();
    assert!(!frame.compression());
    frame.set_compression(true);
    assert!(frame.compression());
    // The data-length-indicator bit shows up in the ID3v2.4 flag bytes.
    let mut writer = Vec::new();
    frame.write_to(&mut writer, Version::Id3v24, false).unwrap();
    assert_eq!(writer[9], 0x08 | 0x01);
}

#[test]
fn comment_frames_serialize_with_language_and_description() {
    let frame = Frame::with_content(
        "COMM",
        Content::Comment {
            lang: "eng".to_string(),
            description: "desc".to_string(),
            text: "body".to_string(),
        },
    )
    .unwrap();
    let mut writer = Vec::new();
    frame.write_to(&mut writer, Version::Id3v23, false).unwrap();

    let mut body = Vec::new();
    body.push(1u8);
    body.extend("eng".bytes());
    body.extend(encode_text("desc", Encoding::UTF16));
    body.extend([0u8, 0u8].iter().cloned());
    body.extend(encode_text("body", Encoding::UTF16));

    let mut expected = Vec::new();
    expected.extend("COMM".bytes());
    expected.extend(u32_to_bytes(body.len() as u32));
    expected.extend([0u8, 0u8].iter().cloned());
    expected.extend(body);
    assert_eq!(writer, expected);
}

#[test]
fn oversized_bodies_are_rejected() {
    // An ID3v2.2 size field holds three bytes, so a 16 MiB body is too big.
    let frame = Frame::with_content("PIC", Content::Unknown(vec![0u8; 0x1000000])).unwrap();
    let mut writer = Vec::new();
    assert_eq!(
        frame.write_to(&mut writer, Version::Id3v22, false),
        Err(FrameError::FrameTooLarge)
    );
    assert!(writer.is_empty());
}

#[test]
fn frame_text_renders_content() {
    let title = Frame::with_content("TIT2", Content::Text("title".to_string())).unwrap();
    assert_eq!(&title.text().unwrap()[..], "title");

    let txxx = Frame::with_content(
        "TXXX",
        Content::ExtendedText {
            description: "description".to_string(),
            value: "value".to_string(),
        },
    )
    .unwrap();
    assert_eq!(&txxx.text().unwrap()[..], "description: value");

    let unknown = Frame::with_content("PRIV", Content::Unknown(vec![0; 42])).unwrap();
    assert_eq!(&unknown.text().unwrap()[..], "unknown, 42 bytes");

    let apic = Frame::with_content("APIC", picture(vec![1, 2])).unwrap();
    assert_eq!(&apic.text().unwrap()[..], "cover: 3 (image/png)");
}
