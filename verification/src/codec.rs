//! The version header codecs: what the writer emits and the reader
//! accepts for each of the three wire formats.
//!
//! ID3v2.2 writes a 3-byte identifier and a 3-byte plain big-endian size
//! and has no flags field, so flags are lost on that path by design.
//! ID3v2.3 writes a 4-byte identifier, a 4-byte plain big-endian size and
//! two flag bytes. ID3v2.4 writes the same shape but encodes the size as
//! a synch-safe integer, whether or not unsynchronization is requested:
//! the two concepts are independent.

use vstd::prelude::*;
use crate::content::{content_body, decode_content_model, is_text_id, ContentModel};
use crate::flags::{
    flags_none, flags_of_v3_bytes, flags_of_v4_bytes, v3_byte1, v3_byte2, v4_byte1, v4_byte2,
    Flags,
};
use crate::frame::{frame_eq, FrameModel};
use crate::ids::{long_id, short_id, valid_long_id};
use crate::text::{encoding_byte, lemma_text_payload_roundtrip, text_payload, Encoding};
use crate::util::{
    be_u24, be_u32, lemma_be_u24_roundtrip, lemma_be_u32_roundtrip, lemma_synchsafe_roundtrip,
    synchsafe, u32_of_be, u32_of_be3, unsynch_destuff, unsynch_stuff, unsynchsafe,
};
use crate::{FrameError, Version};

verus! {

/// The text encoding a version's writer declares for textual bodies:
/// UTF-16 with byte-order mark up to ID3v2.3, UTF-8 from ID3v2.4 on.
pub open spec fn default_encoding(v: Version) -> Encoding {
    match v {
        Version::Id3v24 => Encoding::UTF8,
        _ => Encoding::UTF16,
    }
}

/// The bytes the writer emits for a frame, or the error it reports:
/// `UnknownIdentifier` when an ID3v2.2 write has no 3-byte identifier to
/// use, `FrameTooLarge` when the body exceeds the version's size field
/// (for ID3v2.3, also keeping the total below the returned 32-bit count).
/// Unsynchronization stuffs the body under ID3v2.2 and ID3v2.3 when the
/// caller asks for it; under ID3v2.4 the frame's own flag decides.
pub open spec fn frame_write(f: FrameModel, v: Version, unsynch: bool) -> Result<
    Seq<u8>,
    FrameError,
> {
    let body0 = content_body(f.content, default_encoding(v));
    match v {
        Version::Id3v22 => {
            let body = if unsynch {
                unsynch_stuff(body0)
            } else {
                body0
            };
            match short_id(f.id) {
                Option::None => Err(FrameError::UnknownIdentifier),
                Option::Some(sid) => if body.len() > 0xFFFFFF {
                    Err(FrameError::FrameTooLarge)
                } else {
                    Ok(sid + be_u24(body.len() as u32) + body)
                },
            }
        },
        Version::Id3v23 => {
            let body = if unsynch {
                unsynch_stuff(body0)
            } else {
                body0
            };
            if body.len() > 0xFFFFFFF5 {
                Err(FrameError::FrameTooLarge)
            } else {
                Ok(
                    f.id + be_u32(body.len() as u32) + seq![v3_byte1(f.flags), v3_byte2(f.flags)]
                        + body,
                )
            }
        },
        Version::Id3v24 => {
            let body = if f.flags.unsynchronization {
                unsynch_stuff(body0)
            } else {
                body0
            };
            if body.len() > 0xFFFFFFF {
                Err(FrameError::FrameTooLarge)
            } else {
                Ok(
                    f.id + be_u32(synchsafe(body.len() as u32)) + seq![
                        v4_byte1(f.flags),
                        v4_byte2(f.flags),
                    ] + body,
                )
            }
        },
    }
}

/// What the reader makes of the bytes at the head of the input:
/// `Ok(None)` when they are padding (an all-zero identifier),
/// `Ok(Some((consumed, frame)))` on a frame, and an error on a truncated
/// header, an identifier that is not well formed, a size field larger
/// than the remaining input, or a textual body that fails to parse. A
/// body carried under the compression or encryption flags (or the
/// ID3v2.4 data-length indicator) is kept
/// verbatim as `Unknown`. Under ID3v2.2 alone, an identifier absent
/// from the mapping is an error rather than a downgrade: such a frame
/// has no 4-byte normalized identifier, which every frame must carry,
/// so the `Unknown`-content fallback the other versions use cannot be
/// taken there.
pub open spec fn frame_read(bytes: Seq<u8>, v: Version, unsynch: bool) -> Result<
    Option<(int, FrameModel)>,
    FrameError,
> {
    match v {
        Version::Id3v22 => {
            if bytes.len() < 3 {
                Err(FrameError::InvalidFrameData)
            } else if bytes[0] == 0 && bytes[1] == 0 && bytes[2] == 0 {
                Ok(None)
            } else if bytes.len() < 6 {
                Err(FrameError::InvalidFrameData)
            } else {
                let size = u32_of_be3(bytes[3], bytes[4], bytes[5]) as int;
                if size > bytes.len() - 6 {
                    Err(FrameError::InvalidFrameData)
                } else {
                    match long_id(bytes.subrange(0, 3)) {
                        Option::None => Err(FrameError::UnknownIdentifier),
                        Option::Some(lid) => {
                            let raw = bytes.subrange(6, 6 + size);
                            let body = if unsynch {
                                unsynch_destuff(raw)
                            } else {
                                raw
                            };
                            match decode_content_model(lid, body) {
                                Ok(content) => Ok(
                                    Some(
                                        (
                                            6 + size,
                                            FrameModel { id: lid, content, flags: flags_none() },
                                        ),
                                    ),
                                ),
                                Err(e) => Err(e),
                            }
                        },
                    }
                }
            }
        },
        Version::Id3v23 => {
            if bytes.len() < 4 {
                Err(FrameError::InvalidFrameData)
            } else if bytes[0] == 0 && bytes[1] == 0 && bytes[2] == 0 && bytes[3] == 0 {
                Ok(None)
            } else if bytes.len() < 10 {
                Err(FrameError::InvalidFrameData)
            } else if !valid_long_id(bytes.subrange(0, 4)) {
                Err(FrameError::InvalidFrameData)
            } else {
                let size = u32_of_be(bytes[4], bytes[5], bytes[6], bytes[7]) as int;
                if size > bytes.len() - 10 {
                    Err(FrameError::InvalidFrameData)
                } else {
                    let id = bytes.subrange(0, 4);
                    let fl = flags_of_v3_bytes(bytes[8], bytes[9]);
                    let raw = bytes.subrange(10, 10 + size);
                    let body = if unsynch {
                        unsynch_destuff(raw)
                    } else {
                        raw
                    };
                    let cres = if fl.compression || fl.encryption {
                        Ok(ContentModel::Unknown { data: body })
                    } else {
                        decode_content_model(id, body)
                    };
                    match cres {
                        Ok(content) => Ok(Some((10 + size, FrameModel { id, content, flags: fl }))),
                        Err(e) => Err(e),
                    }
                }
            }
        },
        Version::Id3v24 => {
            if bytes.len() < 4 {
                Err(FrameError::InvalidFrameData)
            } else if bytes[0] == 0 && bytes[1] == 0 && bytes[2] == 0 && bytes[3] == 0 {
                Ok(None)
            } else if bytes.len() < 10 {
                Err(FrameError::InvalidFrameData)
            } else if !valid_long_id(bytes.subrange(0, 4)) {
                Err(FrameError::InvalidFrameData)
            } else {
                let size = unsynchsafe(u32_of_be(bytes[4], bytes[5], bytes[6], bytes[7])) as int;
                if size > bytes.len() - 10 {
                    Err(FrameError::InvalidFrameData)
                } else {
                    let id = bytes.subrange(0, 4);
                    let fl = flags_of_v4_bytes(bytes[8], bytes[9]);
                    let raw = bytes.subrange(10, 10 + size);
                    let body = if unsynch || fl.unsynchronization {
                        unsynch_destuff(raw)
                    } else {
                        raw
                    };
                    let cres = if fl.compression || fl.encryption || fl.data_length_indicator {
                        Ok(ContentModel::Unknown { data: body })
                    } else {
                        decode_content_model(id, body)
                    };
                    match cres {
                        Ok(content) => Ok(Some((10 + size, FrameModel { id, content, flags: fl }))),
                        Err(e) => Err(e),
                    }
                }
            }
        },
    }
}

/// Reading the two ID3v2.3 flag bytes back gives the same flags, except
/// that the two ID3v2.4-only switches come back off.
pub proof fn lemma_v3_flags_roundtrip(f: Flags)
    ensures
        flags_of_v3_bytes(v3_byte1(f), v3_byte2(f)) == (Flags {
            unsynchronization: false,
            data_length_indicator: false,
            ..f
        }),
{
}

/// Reading the two ID3v2.4 flag bytes back gives the same flags.
pub proof fn lemma_v4_flags_roundtrip(f: Flags)
    ensures
        flags_of_v4_bytes(v4_byte1(f), v4_byte2(f)) == f,
{
}

/// The payloads the reader maps back to themselves: a textual payload
/// under a textual identifier read on the normal path, and a raw
/// payload wherever the reader keeps bodies verbatim — under an
/// identifier whose decoding is not implemented, or (`opaque`) under
/// the flags that suppress content decoding. Other payload kinds
/// serialize but read back as `Unknown`, and a raw payload under a
/// textual identifier is parsed or rejected as a text body: neither
/// survives a round trip.
pub open spec fn content_reproducible(id: Seq<u8>, c: ContentModel, opaque: bool) -> bool {
    match c {
        ContentModel::Text { .. } => is_text_id(id) && !opaque,
        ContentModel::Unknown { .. } => opaque || !is_text_id(id),
        _ => false,
    }
}

/// Writing a frame with a reproducible payload for ID3v2.3 and reading
/// the produced bytes back, without unsynchronization, consumes them
/// all and reproduces the frame: same identifier, same payload, the
/// flags up to the two switches ID3v2.3 cannot record, and so an equal
/// frame — whatever the identifier and flags. A textual payload must
/// not sit under the compression or encryption flags, which make the
/// reader keep the body verbatim.
pub proof fn lemma_write_read_v23(f: FrameModel)
    requires
        valid_long_id(f.id),
        content_reproducible(f.id, f.content, f.flags.compression || f.flags.encryption),
    ensures
        ({
            let w = frame_write(f, Version::Id3v23, false);
            w matches Ok(bytes) ==> (frame_read(bytes, Version::Id3v23, false) matches Ok(
                Some((n, g)),
            ) && n == bytes.len() && g.id == f.id && g.content == f.content && g.flags == (Flags {
                unsynchronization: false,
                data_length_indicator: false,
                ..f.flags
            }) && frame_eq(f, g))
        }),
{
    let body = content_body(f.content, Encoding::UTF16);
    if body.len() <= 0xFFFFFFF5 {
        let size = body.len() as u32;
        let header = f.id + be_u32(size) + seq![v3_byte1(f.flags), v3_byte2(f.flags)];
        let bytes = header + body;
        assert(frame_write(f, Version::Id3v23, false) == Ok::<Seq<u8>, FrameError>(bytes));
        assert(bytes.len() == 10 + body.len());
        assert(bytes[0] == f.id[0] && bytes[1] == f.id[1] && bytes[2] == f.id[2] && bytes[3]
            == f.id[3]);
        assert(bytes[0] != 0);
        assert(bytes.subrange(0, 4) =~= f.id);
        assert(bytes[4] == be_u32(size)[0] && bytes[5] == be_u32(size)[1] && bytes[6] == be_u32(
            size,
        )[2] && bytes[7] == be_u32(size)[3]);
        lemma_be_u32_roundtrip(size);
        assert(u32_of_be(bytes[4], bytes[5], bytes[6], bytes[7]) == size);
        assert(bytes[8] == v3_byte1(f.flags) && bytes[9] == v3_byte2(f.flags));
        lemma_v3_flags_roundtrip(f.flags);
        assert(bytes.subrange(10, 10 + size as int) =~= body);
        match f.content {
            ContentModel::Text { text } => {
                lemma_text_payload_roundtrip(text, Encoding::UTF16);
                assert(body =~= seq![encoding_byte(Encoding::UTF16)] + text_payload(
                    text,
                    Encoding::UTF16,
                ));
            },
            ContentModel::Unknown { data } => {
                assert(body =~= data);
            },
            _ => {},
        }
        assert(frame_read(bytes, Version::Id3v23, false) matches Ok(Some((n, g))) && n
            == bytes.len() && g.id == f.id && g.content == f.content && frame_eq(f, g));
    }
}

/// The ID3v2.2 counterpart of the round trip, for frames whose
/// identifier has a 3-byte form: the identifier is re-normalized
/// through the mapping and the payload comes back; the flags are not
/// written at all in this format and come back all false, which
/// equality does not involve.
pub proof fn lemma_write_read_v22(f: FrameModel)
    requires
        valid_long_id(f.id),
        content_reproducible(f.id, f.content, false),
    ensures
        ({
            let w = frame_write(f, Version::Id3v22, false);
            w matches Ok(bytes) ==> (frame_read(bytes, Version::Id3v22, false) matches Ok(
                Some((n, g)),
            ) && n == bytes.len() && g.id == f.id && g.content == f.content && g.flags
                == flags_none() && frame_eq(f, g))
        }),
{
    let body = content_body(f.content, Encoding::UTF16);
    match short_id(f.id) {
        Option::Some(sid) => {
            if body.len() <= 0xFFFFFF {
                crate::ids::lemma_short_id_valid(f.id);
                crate::ids::lemma_short_id_long_id(f.id);
                let size = body.len() as u32;
                let bytes = sid + be_u24(size) + body;
                assert(frame_write(f, Version::Id3v22, false) == Ok::<Seq<u8>, FrameError>(bytes));
                assert(bytes.len() == 6 + body.len());
                assert(bytes[0] == sid[0] && bytes[1] == sid[1] && bytes[2] == sid[2]);
                assert(bytes[0] != 0);
                assert(bytes.subrange(0, 3) =~= sid);
                assert(bytes[3] == be_u24(size)[0] && bytes[4] == be_u24(size)[1] && bytes[5]
                    == be_u24(size)[2]);
                lemma_be_u24_roundtrip(size);
                assert(u32_of_be3(bytes[3], bytes[4], bytes[5]) == size);
                assert(long_id(bytes.subrange(0, 3)) == Some(f.id));
                assert(bytes.subrange(6, 6 + size as int) =~= body);
                match f.content {
                    ContentModel::Text { text } => {
                        lemma_text_payload_roundtrip(text, Encoding::UTF16);
                        assert(body =~= seq![encoding_byte(Encoding::UTF16)] + text_payload(
                            text,
                            Encoding::UTF16,
                        ));
                    },
                    ContentModel::Unknown { data } => {
                        assert(body =~= data);
                    },
                    _ => {},
                }
                assert(frame_read(bytes, Version::Id3v22, false) matches Ok(Some((n, g))) && n
                    == bytes.len() && g.id == f.id && g.content == f.content && frame_eq(f, g));
            }
        },
        Option::None => {},
    }
}

/// The ID3v2.4 counterpart of the round trip: the size field
/// round-trips through its synch-safe form, the flag bytes reproduce
/// the flags exactly, and a body stuffed under the frame's
/// unsynchronization flag is de-stuffed on the way back. A textual
/// payload must not sit under the three flags that make the reader keep
/// the body verbatim.
pub proof fn lemma_write_read_v24(f: FrameModel)
    requires
        valid_long_id(f.id),
        content_reproducible(
            f.id,
            f.content,
            f.flags.compression || f.flags.encryption || f.flags.data_length_indicator,
        ),
    ensures
        ({
            let w = frame_write(f, Version::Id3v24, false);
            w matches Ok(bytes) ==> (frame_read(bytes, Version::Id3v24, false) matches Ok(
                Some((n, g)),
            ) && n == bytes.len() && g.id == f.id && g.content == f.content && g.flags == f.flags
                && frame_eq(f, g))
        }),
{
    let body0 = content_body(f.content, Encoding::UTF8);
    let body = if f.flags.unsynchronization {
        unsynch_stuff(body0)
    } else {
        body0
    };
    if body.len() <= 0xFFFFFFF {
        let size = body.len() as u32;
        let ss = synchsafe(size);
        let header = f.id + be_u32(ss) + seq![v4_byte1(f.flags), v4_byte2(f.flags)];
        let bytes = header + body;
        assert(frame_write(f, Version::Id3v24, false) == Ok::<Seq<u8>, FrameError>(bytes));
        assert(bytes.len() == 10 + body.len());
        assert(bytes[0] == f.id[0] && bytes[1] == f.id[1] && bytes[2] == f.id[2] && bytes[3]
            == f.id[3]);
        assert(bytes[0] != 0);
        assert(bytes.subrange(0, 4) =~= f.id);
        assert(bytes[4] == be_u32(ss)[0] && bytes[5] == be_u32(ss)[1] && bytes[6] == be_u32(ss)[2]
            && bytes[7] == be_u32(ss)[3]);
        lemma_be_u32_roundtrip(ss);
        lemma_synchsafe_roundtrip(size);
        assert(unsynchsafe(u32_of_be(bytes[4], bytes[5], bytes[6], bytes[7])) == size);
        assert(bytes[8] == v4_byte1(f.flags) && bytes[9] == v4_byte2(f.flags));
        lemma_v4_flags_roundtrip(f.flags);
        assert(bytes.subrange(10, 10 + size as int) =~= body);
        if f.flags.unsynchronization {
            crate::util::lemma_unsynch_roundtrip(body0);
        }
        match f.content {
            ContentModel::Text { text } => {
                lemma_text_payload_roundtrip(text, Encoding::UTF8);
                assert(body0 =~= seq![encoding_byte(Encoding::UTF8)] + text_payload(
                    text,
                    Encoding::UTF8,
                ));
            },
            ContentModel::Unknown { data } => {
                assert(body0 =~= data);
            },
            _ => {},
        }
        assert(frame_read(bytes, Version::Id3v24, false) matches Ok(Some((n, g))) && n
            == bytes.len() && g.id == f.id && g.content == f.content && frame_eq(f, g));
    }
}

} // verus!
