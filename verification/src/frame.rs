//! An ID3v2 frame: a 4-byte identifier, a payload, and flags.
//!
//! The identifier is always stored in its ID3v2.3/v2.4 4-byte form, even
//! when a frame is constructed from a 3-byte ID3v2.2 identifier. Equality
//! and hashing follow the metadata specification rather than plain
//! structural equality: two textual frames are identified by their
//! identifier alone, every other pair by identifier and payload together.

use vstd::prelude::*;
use vstd::slice::{slice_subrange, slice_to_vec};
use vstd::utf8::encode_utf8;
use crate::codec::{frame_read, frame_write};
use crate::content::{
    content_eq, decode_content, encode_content, push_all, render_spec, Content, ContentModel,
};
use crate::flags::{flags_none, parse_v3_flags, parse_v4_flags, Flags};
use crate::ids::{is_id_byte, long_id, short_id, to_long_id, to_short_id, valid_long_id};
use crate::text::{ascii_str_of, latin1_chars, Encoding};
use crate::util::{
    destuff, push_be_u24, push_be_u32, read_be_u24, read_be_u32, stuff, synchsafe_u32,
    unsynchsafe_u32,
};
use crate::{FrameError, Version};

verus! {

/// The mathematical shape of a frame.
pub ghost struct FrameModel {
    pub id: Seq<u8>,
    pub content: ContentModel,
    pub flags: Flags,
}

/// A structure representing an ID3 frame.
#[derive(Debug, Eq)]
pub struct Frame {
    id: [u8; 4],
    content: Content,
    flags: Flags,
}

impl View for Frame {
    type V = FrameModel;

    closed spec fn view(&self) -> FrameModel {
        FrameModel { id: self.id@, content: self.content@, flags: self.flags }
    }
}

/// The frame a constructor call produces: a 3-byte identifier is
/// translated through the identifier mapping, a 4-byte identifier must
/// consist of capital letters and digits, and any other length is
/// rejected. Flags start all false.
pub open spec fn construct_model(idc: Seq<char>, c: ContentModel) -> Result<
    FrameModel,
    FrameError,
> {
    let idb = encode_utf8(idc);
    if idb.len() == 3 {
        match long_id(idb) {
            Some(lid) => Ok(FrameModel { id: lid, content: c, flags: flags_none() }),
            None => Err(FrameError::UnknownIdentifier),
        }
    } else if idb.len() == 4 {
        if valid_long_id(idb) {
            Ok(FrameModel { id: idb, content: c, flags: flags_none() })
        } else {
            Err(FrameError::InvalidIdentifier)
        }
    } else {
        Err(FrameError::InvalidIdentifier)
    }
}

/// Frame equality per the metadata specification: two frames whose
/// payloads are both textual are equal by identifier alone (a tag holds
/// at most one text frame per identifier); every other pair requires
/// the identifier and full structural equality of the payloads. The
/// rule is symmetric, so equality is a true equivalence relation.
pub open spec fn frame_eq(a: FrameModel, b: FrameModel) -> bool {
    if a.content is Text && b.content is Text {
        a.id == b.id
    } else {
        a.id == b.id && a.content == b.content
    }
}

/// A field of the hash serialization: the byte count first, as eight
/// big-endian bytes, then the bytes, so that field boundaries stay
/// unambiguous for every value a program can build.
pub open spec fn hash_field(b: Seq<u8>) -> Seq<u8> {
    crate::util::be_u64(b.len() as u64) + b
}

/// The tagged, length-prefixed serialization of a payload that the hash
/// consumes: one tag byte per variant, then each field behind its
/// length. The tag keeps different variants apart and the length
/// prefixes keep adjacent fields apart.
pub open spec fn content_hash_bytes(c: ContentModel) -> Seq<u8> {
    match c {
        ContentModel::Text { text } => seq![0u8] + hash_field(encode_utf8(text)),
        ContentModel::ExtendedText { description, value } => seq![1u8] + hash_field(
            encode_utf8(description),
        ) + hash_field(encode_utf8(value)),
        ContentModel::Link { link } => seq![2u8] + hash_field(encode_utf8(link)),
        ContentModel::ExtendedLink { description, link } => seq![3u8] + hash_field(
            encode_utf8(description),
        ) + hash_field(encode_utf8(link)),
        ContentModel::Comment { lang, description, text } => seq![4u8] + hash_field(
            encode_utf8(lang),
        ) + hash_field(encode_utf8(description)) + hash_field(encode_utf8(text)),
        ContentModel::Lyrics { lang, description, text } => seq![5u8] + hash_field(
            encode_utf8(lang),
        ) + hash_field(encode_utf8(description)) + hash_field(encode_utf8(text)),
        ContentModel::Picture { mime_type, picture_type, description, data } => seq![6u8]
            + hash_field(encode_utf8(mime_type)) + seq![picture_type] + hash_field(
            encode_utf8(description),
        ) + hash_field(data),
        ContentModel::Unknown { data } => seq![7u8] + hash_field(data),
    }
}

/// The bytes a hasher consumes for a frame: the identifier alone for a
/// textual payload, the identifier followed by the payload's hash
/// serialization otherwise — congruent with the equality policy.
pub open spec fn hash_input(f: FrameModel) -> Seq<u8> {
    match f.content {
        ContentModel::Text { .. } => f.id,
        _ => f.id + content_hash_bytes(f.content),
    }
}

/// Equal frames hash identically.
pub proof fn lemma_eq_hash_consistent(a: FrameModel, b: FrameModel)
    requires
        frame_eq(a, b),
    ensures
        hash_input(a) == hash_input(b),
{
}

/// Two textual frames with one identifier are equal and hash
/// identically, whatever their texts: the identifier is their whole
/// identity.
pub proof fn lemma_text_frames_identified(a: FrameModel, b: FrameModel)
    requires
        a.id == b.id,
        a.content is Text,
        b.content is Text,
    ensures
        frame_eq(a, b),
        hash_input(a) == hash_input(b),
{
}

/// A length-prefixed field determines both its bytes and what follows.
proof fn lemma_hash_field_prefix(x1: Seq<u8>, y1: Seq<u8>, x2: Seq<u8>, y2: Seq<u8>)
    requires
        x1.len() < 0x10000000000000000,
        x2.len() < 0x10000000000000000,
        hash_field(x1) + y1 == hash_field(x2) + y2,
    ensures
        x1 == x2,
        y1 == y2,
{
    let h1 = hash_field(x1) + y1;
    let h2 = hash_field(x2) + y2;
    let l1 = x1.len() as u64;
    let l2 = x2.len() as u64;
    assert(h1[0] == crate::util::be_u64(l1)[0] && h1[1] == crate::util::be_u64(l1)[1] && h1[2]
        == crate::util::be_u64(l1)[2] && h1[3] == crate::util::be_u64(l1)[3] && h1[4]
        == crate::util::be_u64(l1)[4] && h1[5] == crate::util::be_u64(l1)[5] && h1[6]
        == crate::util::be_u64(l1)[6] && h1[7] == crate::util::be_u64(l1)[7]);
    assert(h2[0] == crate::util::be_u64(l2)[0] && h2[1] == crate::util::be_u64(l2)[1] && h2[2]
        == crate::util::be_u64(l2)[2] && h2[3] == crate::util::be_u64(l2)[3] && h2[4]
        == crate::util::be_u64(l2)[4] && h2[5] == crate::util::be_u64(l2)[5] && h2[6]
        == crate::util::be_u64(l2)[6] && h2[7] == crate::util::be_u64(l2)[7]);
    crate::util::lemma_be_u64_roundtrip(l1);
    crate::util::lemma_be_u64_roundtrip(l2);
    assert(l1 == l2);
    assert(x1.len() == x2.len());
    assert forall|i: int| 0 <= i < x1.len() implies x1[i] == x2[i] by {
        assert(h1[8 + i] == x1[i]);
        assert(h2[8 + i] == x2[i]);
    }
    assert(x1 =~= x2);
    assert(hash_field(x1).len() == 8 + x1.len());
    assert(hash_field(x2).len() == 8 + x2.len());
    assert(h1.len() == h2.len());
    assert(y1.len() == y2.len());
    assert forall|j: int| 0 <= j < y1.len() implies y1[j] == y2[j] by {
        assert(h1[8 + x1.len() + j] == y1[j]);
        assert(h2[8 + x2.len() + j] == y2[j]);
    }
    assert(y1 =~= y2);
}

/// Encoding to UTF-8 loses nothing.
proof fn lemma_encode_utf8_injective(s1: Seq<char>, s2: Seq<char>)
    requires
        encode_utf8(s1) == encode_utf8(s2),
    ensures
        s1 == s2,
{
    vstd::utf8::encode_utf8_decode_utf8(s1);
    vstd::utf8::encode_utf8_decode_utf8(s2);
}

/// The sizes an executing program's picture fields can actually have:
/// every byte string that fits in memory is below 2^64 bytes.
pub open spec fn picture_fields_bounded(c: ContentModel) -> bool {
    match c {
        ContentModel::Picture { mime_type, picture_type, description, data } => encode_utf8(
            mime_type,
        ).len() < 0x10000000000000000 && encode_utf8(description).len() < 0x10000000000000000
            && data.len() < 0x10000000000000000,
        _ => true,
    }
}

/// Two picture frames with one identifier but different payloads are
/// unequal and hash differently: the tagged, length-prefixed hash
/// serialization determines every field of a picture payload. The size
/// bounds are machine limits that no value a program can build exceeds:
/// lengths are machine words, and the prefixes hold eight bytes.
pub proof fn lemma_picture_hash_distinct(a: FrameModel, b: FrameModel)
    requires
        a.id == b.id,
        a.content is Picture,
        b.content is Picture,
        a.content != b.content,
        picture_fields_bounded(a.content),
        picture_fields_bounded(b.content),
    ensures
        !frame_eq(a, b),
        hash_input(a) != hash_input(b),
{
    if hash_input(a) == hash_input(b) {
        let ta = content_hash_bytes(a.content);
        let tb = content_hash_bytes(b.content);
        assert(a.id + ta == b.id + tb);
        assert(ta.len() == tb.len());
        assert forall|i: int| 0 <= i < ta.len() implies ta[i] == tb[i] by {
            assert((a.id + ta)[a.id.len() + i] == ta[i]);
            assert((b.id + tb)[b.id.len() + i] == tb[i]);
        }
        assert(ta =~= tb);
        match a.content {
            ContentModel::Picture { mime_type: m1, picture_type: p1, description: d1, data: t1 } => {
                match b.content {
                    ContentModel::Picture {
                        mime_type: m2,
                        picture_type: p2,
                        description: d2,
                        data: t2,
                    } => {
                        let rest1 = seq![p1] + hash_field(encode_utf8(d1)) + hash_field(t1);
                        let rest2 = seq![p2] + hash_field(encode_utf8(d2)) + hash_field(t2);
                        assert(ta.skip(1) =~= hash_field(encode_utf8(m1)) + rest1);
                        assert(tb.skip(1) =~= hash_field(encode_utf8(m2)) + rest2);
                        lemma_hash_field_prefix(encode_utf8(m1), rest1, encode_utf8(m2), rest2);
                        lemma_encode_utf8_injective(m1, m2);
                        assert(rest1[0] == p1 && rest2[0] == p2);
                        assert(p1 == p2);
                        assert(rest1.skip(1) =~= hash_field(encode_utf8(d1)) + hash_field(t1));
                        assert(rest2.skip(1) =~= hash_field(encode_utf8(d2)) + hash_field(t2));
                        lemma_hash_field_prefix(
                            encode_utf8(d1),
                            hash_field(t1),
                            encode_utf8(d2),
                            hash_field(t2),
                        );
                        lemma_encode_utf8_injective(d1, d2);
                        assert(hash_field(t1) + Seq::<u8>::empty() =~= hash_field(t1));
                        assert(hash_field(t2) + Seq::<u8>::empty() =~= hash_field(t2));
                        lemma_hash_field_prefix(t1, Seq::empty(), t2, Seq::empty());
                        assert(a.content == b.content);
                    },
                    _ => {},
                }
            },
            _ => {},
        }
    }
}

impl vstd::std_specs::cmp::PartialEqSpecImpl for Frame {
    open spec fn obeys_eq_spec() -> bool {
        true
    }

    open spec fn eq_spec(&self, other: &Frame) -> bool {
        frame_eq(self@, other@)
    }
}

impl PartialEq for Frame {
    fn eq(&self, other: &Frame) -> (r: bool) {
        let ids = self.id[0] == other.id[0] && self.id[1] == other.id[1] && self.id[2]
            == other.id[2] && self.id[3] == other.id[3];
        proof {
            if ids {
                assert(self@.id =~= other@.id);
            }
        }
        match (&self.content, &other.content) {
            (Content::Text(_), Content::Text(_)) => ids,
            _ => ids && content_eq(&self.content, &other.content),
        }
    }
}

impl Clone for Frame {
    /// Clones the frame field for field.
    fn clone(&self) -> (r: Frame)
        ensures
            r@ == self@,
    {
        proof {
            use_type_invariant(&*self);
        }
        Frame { id: self.id, content: self.content.clone(), flags: self.flags }
    }
}

impl Frame {
    #[verifier::type_invariant]
    spec fn wf(self) -> bool {
        valid_long_id(self.id@)
    }

    /// Creates a frame with the given identifier and an empty `Unknown`
    /// payload. Both 3- and 4-byte identifiers are accepted; an invalid
    /// or unmappable identifier is reported as an error.
    pub fn new(id: &str) -> (r: Result<Frame, FrameError>)
        ensures
            match r {
                Ok(f) => construct_model(id@, ContentModel::Unknown { data: Seq::empty() }) == Ok::<
                    FrameModel,
                    FrameError,
                >(f@) && valid_long_id(f@.id),
                Err(e) => construct_model(id@, ContentModel::Unknown { data: Seq::empty() })
                    == Err::<FrameModel, FrameError>(e),
            },
    {
        let v: Vec<u8> = Vec::new();
        proof {
            assert(v@ =~= Seq::<u8>::empty());
        }
        Frame::with_content(id, Content::Unknown(v))
    }

    /// Creates a frame with the given identifier and payload. A 3-byte
    /// ID3v2.2 identifier is translated to its 4-byte form; flags start
    /// all false. A 4-byte identifier must consist of capital letters
    /// and digits — the rejection is deliberate, keeping the stored
    /// identifier invariant for every frame that exists.
    pub fn with_content(id: &str, content: Content) -> (r: Result<Frame, FrameError>)
        ensures
            match r {
                Ok(f) => construct_model(id@, content@) == Ok::<FrameModel, FrameError>(f@)
                    && valid_long_id(f@.id),
                Err(e) => construct_model(id@, content@) == Err::<FrameModel, FrameError>(e),
            },
    {
        let b = id.as_bytes();
        if b.len() == 3 {
            match to_long_id(b) {
                Some(lid) => {
                    proof {
                        crate::ids::lemma_long_id_valid(b@);
                    }
                    Ok(Frame { id: lid, content, flags: Flags::new() })
                },
                None => Err(FrameError::UnknownIdentifier),
            }
        } else if b.len() == 4 {
            if id_byte_ok(b[0]) && id_byte_ok(b[1]) && id_byte_ok(b[2]) && id_byte_ok(b[3]) {
                let idv = [b[0], b[1], b[2], b[3]];
                proof {
                    assert(idv@ =~= b@);
                }
                Ok(Frame { id: idv, content, flags: Flags::new() })
            } else {
                Err(FrameError::InvalidIdentifier)
            }
        } else {
            Err(FrameError::InvalidIdentifier)
        }
    }

    /// The 4-byte identifier of this frame.
    pub fn id(&self) -> (r: &str)
        ensures
            r@ == latin1_chars(self@.id),
    {
        proof {
            use_type_invariant(&*self);
        }
        let s = ascii_str_of(&self.id);
        proof {
            assert(s@ =~= latin1_chars(self@.id));
        }
        s
    }

    /// The identifier compatible with the requested version: the 4-byte
    /// form for ID3v2.3 and ID3v2.4, and the 3-byte ID3v2.2 counterpart
    /// for ID3v2.2, absent when the frame type postdates that version.
    pub fn id_for_version(&self, version: Version) -> (r: Option<String>)
        ensures
            version is Id3v22 ==> match r {
                Some(s) => short_id(self@.id) matches Some(sid) && s@ == latin1_chars(sid),
                None => short_id(self@.id) is None,
            },
            !(version is Id3v22) ==> (r matches Some(s) && s@ == latin1_chars(self@.id)),
    {
        proof {
            use_type_invariant(&*self);
        }
        match version {
            Version::Id3v22 => match to_short_id(&self.id) {
                Some(sid) => {
                    let s = ascii_str_of(sid.as_slice());
                    proof {
                        crate::ids::lemma_short_id_valid(self@.id);
                        assert(s@ =~= latin1_chars(sid@));
                    }
                    Some(s.to_owned())
                },
                None => None,
            },
            _ => {
                let s = ascii_str_of(self.id.as_slice());
                proof {
                    assert(s@ =~= latin1_chars(self@.id));
                }
                Some(s.to_owned())
            },
        }
    }

    /// The payload of the frame.
    pub fn content(&self) -> (r: &Content)
        ensures
            r@ == self@.content,
    {
        &self.content
    }

    /// Replaces the payload, leaving identifier and flags unchanged.
    pub fn set_content(&mut self, content: Content)
        ensures
            final(self)@.content == content@,
            final(self)@.id == old(self)@.id,
            final(self)@.flags == old(self)@.flags,
    {
        proof {
            use_type_invariant(&*self);
        }
        self.content = content;
    }

    /// Whether the compression flag is set.
    pub fn compression(&self) -> (r: bool)
        ensures
            r == self@.flags.compression,
    {
        self.flags.compression
    }

    /// Sets the compression flag; compressed bodies record their original
    /// size, so this also sets the data-length-indicator flag.
    pub fn set_compression(&mut self, compression: bool)
        ensures
            final(self)@.flags.compression == compression,
            final(self)@.flags.data_length_indicator == compression,
            final(self)@.flags.tag_alter_preservation == old(self)@.flags.tag_alter_preservation,
            final(self)@.flags.file_alter_preservation == old(self)@.flags.file_alter_preservation,
            final(self)@.flags.read_only == old(self)@.flags.read_only,
            final(self)@.flags.encryption == old(self)@.flags.encryption,
            final(self)@.flags.grouping_identity == old(self)@.flags.grouping_identity,
            final(self)@.flags.unsynchronization == old(self)@.flags.unsynchronization,
            final(self)@.id == old(self)@.id,
            final(self)@.content == old(self)@.content,
    {
        proof {
            use_type_invariant(&*self);
        }
        self.flags.compression = compression;
        self.flags.data_length_indicator = compression;
    }

    /// Whether the tag-alter-preservation flag is set.
    pub fn tag_alter_preservation(&self) -> (r: bool)
        ensures
            r == self@.flags.tag_alter_preservation,
    {
        self.flags.tag_alter_preservation
    }

    /// Sets the tag-alter-preservation flag.
    pub fn set_tag_alter_preservation(&mut self, tag_alter_preservation: bool)
        ensures
            final(self)@.flags == (Flags {
                tag_alter_preservation,
                ..old(self)@.flags
            }),
            final(self)@.id == old(self)@.id,
            final(self)@.content == old(self)@.content,
    {
        proof {
            use_type_invariant(&*self);
        }
        self.flags.tag_alter_preservation = tag_alter_preservation;
    }

    /// Whether the file-alter-preservation flag is set.
    pub fn file_alter_preservation(&self) -> (r: bool)
        ensures
            r == self@.flags.file_alter_preservation,
    {
        self.flags.file_alter_preservation
    }

    /// Sets the file-alter-preservation flag.
    pub fn set_file_alter_preservation(&mut self, file_alter_preservation: bool)
        ensures
            final(self)@.flags == (Flags {
                file_alter_preservation,
                ..old(self)@.flags
            }),
            final(self)@.id == old(self)@.id,
            final(self)@.content == old(self)@.content,
    {
        proof {
            use_type_invariant(&*self);
        }
        self.flags.file_alter_preservation = file_alter_preservation;
    }

    /// The bytes a hasher consumes for this frame; equal frames yield
    /// the same bytes (`lemma_eq_hash_consistent`).
    pub fn hash_key(&self) -> (r: Vec<u8>)
        ensures
            r@ == hash_input(self@),
    {
        let mut out: Vec<u8> = Vec::new();
        out.push(self.id[0]);
        out.push(self.id[1]);
        out.push(self.id[2]);
        out.push(self.id[3]);
        proof {
            assert(out@ =~= self@.id);
        }
        match &self.content {
            Content::Text(_) => out,
            Content::ExtendedText { description, value } => {
                out.push(1);
                push_hash_field(&mut out, description.as_str().as_bytes());
                push_hash_field(&mut out, value.as_str().as_bytes());
                proof {
                    assert(out@ =~= hash_input(self@));
                }
                out
            },
            Content::Link(l) => {
                out.push(2);
                push_hash_field(&mut out, l.as_str().as_bytes());
                proof {
                    assert(out@ =~= hash_input(self@));
                }
                out
            },
            Content::ExtendedLink { description, link } => {
                out.push(3);
                push_hash_field(&mut out, description.as_str().as_bytes());
                push_hash_field(&mut out, link.as_str().as_bytes());
                proof {
                    assert(out@ =~= hash_input(self@));
                }
                out
            },
            Content::Comment { lang, description, text } => {
                out.push(4);
                push_hash_field(&mut out, lang.as_str().as_bytes());
                push_hash_field(&mut out, description.as_str().as_bytes());
                push_hash_field(&mut out, text.as_str().as_bytes());
                proof {
                    assert(out@ =~= hash_input(self@));
                }
                out
            },
            Content::Lyrics { lang, description, text } => {
                out.push(5);
                push_hash_field(&mut out, lang.as_str().as_bytes());
                push_hash_field(&mut out, description.as_str().as_bytes());
                push_hash_field(&mut out, text.as_str().as_bytes());
                proof {
                    assert(out@ =~= hash_input(self@));
                }
                out
            },
            Content::Picture { mime_type, picture_type, description, data } => {
                out.push(6);
                push_hash_field(&mut out, mime_type.as_str().as_bytes());
                out.push(*picture_type);
                push_hash_field(&mut out, description.as_str().as_bytes());
                push_hash_field(&mut out, data.as_slice());
                proof {
                    assert(out@ =~= hash_input(self@));
                }
                out
            },
            Content::Unknown(data) => {
                out.push(7);
                push_hash_field(&mut out, data.as_slice());
                proof {
                    assert(out@ =~= hash_input(self@));
                }
                out
            },
        }
    }

    /// The display string of the payload, as a value rather than a
    /// formatter; the rendering is lossy and for diagnostics only.
    pub fn text(&self) -> (r: Option<String>)
        ensures
            r matches Some(s) && s@ == render_spec(self@.content),
    {
        Some(self.content.render())
    }

    /// Serializes this frame for the requested version, appending the
    /// header and body bytes to `writer` and returning how many bytes
    /// were written. On an error nothing is written. Unsynchronization
    /// stuffs the body for ID3v2.2 and ID3v2.3 when requested; for
    /// ID3v2.4 the frame's own flag decides.
    pub fn write_to(&self, writer: &mut Vec<u8>, version: Version, unsynchronization: bool) -> (r:
        Result<u32, FrameError>)
        ensures
            match frame_write(self@, version, unsynchronization) {
                Ok(bytes) => (r matches Ok(n) && n as int == bytes.len() && final(writer)@ == old(
                    writer,
                )@ + bytes),
                Err(e) => r == Err::<u32, FrameError>(e) && final(writer)@ == old(writer)@,
            },
    {
        proof {
            use_type_invariant(&*self);
        }
        let enc = match version {
            Version::Id3v24 => Encoding::UTF8,
            _ => Encoding::UTF16,
        };
        let body0 = encode_content(&self.content, enc);
        match version {
            Version::Id3v22 => {
                match to_short_id(&self.id) {
                    Some(sid) => {
                        let body = if unsynchronization {
                            stuff(body0.as_slice())
                        } else {
                            body0
                        };
                        if body.len() > 0xFFFFFF {
                            return Err(FrameError::FrameTooLarge);
                        }
                        writer.push(sid[0]);
                        writer.push(sid[1]);
                        writer.push(sid[2]);
                        push_be_u24(writer, body.len() as u32);
                        push_all(writer, body.as_slice());
                        proof {
                            match frame_write(self@, version, unsynchronization) {
                                Ok(bytes) => {
                                    assert(writer@ =~= old(writer)@ + bytes);
                                },
                                Err(_) => {},
                            }
                        }
                        Ok((body.len() + 6) as u32)
                    },
                    None => Err(FrameError::UnknownIdentifier),
                }
            },
            Version::Id3v23 => {
                let body = if unsynchronization {
                    stuff(body0.as_slice())
                } else {
                    body0
                };
                if body.len() > 0xFFFFFFF5 {
                    return Err(FrameError::FrameTooLarge);
                }
                writer.push(self.id[0]);
                writer.push(self.id[1]);
                writer.push(self.id[2]);
                writer.push(self.id[3]);
                push_be_u32(writer, body.len() as u32);
                let fb = self.flags.to_bytes(3);
                push_all(writer, fb.as_slice());
                push_all(writer, body.as_slice());
                proof {
                    match frame_write(self@, version, unsynchronization) {
                        Ok(bytes) => {
                            assert(writer@ =~= old(writer)@ + bytes);
                        },
                        Err(_) => {},
                    }
                }
                Ok((body.len() + 10) as u32)
            },
            Version::Id3v24 => {
                let body = if self.flags.unsynchronization {
                    stuff(body0.as_slice())
                } else {
                    body0
                };
                if body.len() > 0xFFFFFFF {
                    return Err(FrameError::FrameTooLarge);
                }
                writer.push(self.id[0]);
                writer.push(self.id[1]);
                writer.push(self.id[2]);
                writer.push(self.id[3]);
                push_be_u32(writer, synchsafe_u32(body.len() as u32));
                let fb = self.flags.to_bytes(4);
                push_all(writer, fb.as_slice());
                push_all(writer, body.as_slice());
                proof {
                    match frame_write(self@, version, unsynchronization) {
                        Ok(bytes) => {
                            assert(writer@ =~= old(writer)@ + bytes);
                        },
                        Err(_) => {},
                    }
                }
                Ok((body.len() + 10) as u32)
            },
        }
    }

    /// Attempts to read one frame from the head of `data`. `Ok(None)`
    /// means padding was encountered; otherwise the number of bytes
    /// consumed and the frame are returned, or the decoding error. An
    /// ID3v2.2 identifier absent from the mapping is an error rather
    /// than an `Unknown`-content downgrade: no 4-byte normalized form
    /// exists to carry such a frame.
    pub fn read_from(data: &[u8], version: Version, unsynchronization: bool) -> (r: Result<
        Option<(usize, Frame)>,
        FrameError,
    >)
        ensures
            match r {
                Ok(None) => frame_read(data@, version, unsynchronization) == Ok::<
                    Option<(int, FrameModel)>,
                    FrameError,
                >(None),
                Ok(Some((n, f))) => frame_read(data@, version, unsynchronization) == Ok::<
                    Option<(int, FrameModel)>,
                    FrameError,
                >(Some((n as int, f@))),
                Err(e) => frame_read(data@, version, unsynchronization) == Err::<
                    Option<(int, FrameModel)>,
                    FrameError,
                >(e),
            },
    {
        match version {
            Version::Id3v22 => {
                if data.len() < 3 {
                    return Err(FrameError::InvalidFrameData);
                }
                if data[0] == 0 && data[1] == 0 && data[2] == 0 {
                    return Ok(None);
                }
                if data.len() < 6 {
                    return Err(FrameError::InvalidFrameData);
                }
                let size = read_be_u24(data[3], data[4], data[5]) as usize;
                if size > data.len() - 6 {
                    return Err(FrameError::InvalidFrameData);
                }
                let sid = slice_subrange(data, 0, 3);
                proof {
                    assert(sid@ =~= data@.subrange(0, 3));
                }
                match to_long_id(sid) {
                    Some(lid) => {
                        proof {
                            crate::ids::lemma_long_id_valid(sid@);
                        }
                        let raw = slice_subrange(data, 6, 6 + size);
                        proof {
                            assert(raw@ =~= data@.subrange(6, 6 + size as int));
                        }
                        let body: Vec<u8> = if unsynchronization {
                            destuff(raw)
                        } else {
                            slice_to_vec(raw)
                        };
                        match decode_content(&lid, body.as_slice()) {
                            Ok(c) => Ok(Some((6 + size, Frame::assemble(lid, c, Flags::new())))),
                            Err(e) => Err(e),
                        }
                    },
                    None => Err(FrameError::UnknownIdentifier),
                }
            },
            Version::Id3v23 => {
                if data.len() < 4 {
                    return Err(FrameError::InvalidFrameData);
                }
                if data[0] == 0 && data[1] == 0 && data[2] == 0 && data[3] == 0 {
                    return Ok(None);
                }
                if data.len() < 10 {
                    return Err(FrameError::InvalidFrameData);
                }
                proof {
                    let sub = data@.subrange(0, 4);
                    assert(sub[0] == data@[0] && sub[1] == data@[1] && sub[2] == data@[2] && sub[3]
                        == data@[3]);
                }
                if !(id_byte_ok(data[0]) && id_byte_ok(data[1]) && id_byte_ok(data[2])
                    && id_byte_ok(data[3])) {
                    return Err(FrameError::InvalidFrameData);
                }
                let size = read_be_u32(data[4], data[5], data[6], data[7]) as usize;
                if size > data.len() - 10 {
                    return Err(FrameError::InvalidFrameData);
                }
                let id = [data[0], data[1], data[2], data[3]];
                proof {
                    assert(id@ =~= data@.subrange(0, 4));
                }
                let fl = parse_v3_flags(data[8], data[9]);
                let raw = slice_subrange(data, 10, 10 + size);
                proof {
                    assert(raw@ =~= data@.subrange(10, 10 + size as int));
                }
                let body: Vec<u8> = if unsynchronization {
                    destuff(raw)
                } else {
                    slice_to_vec(raw)
                };
                if fl.compression || fl.encryption {
                    Ok(Some((10 + size, Frame::assemble(id, Content::Unknown(body), fl))))
                } else {
                    match decode_content(&id, body.as_slice()) {
                        Ok(c) => Ok(Some((10 + size, Frame::assemble(id, c, fl)))),
                        Err(e) => Err(e),
                    }
                }
            },
            Version::Id3v24 => {
                if data.len() < 4 {
                    return Err(FrameError::InvalidFrameData);
                }
                if data[0] == 0 && data[1] == 0 && data[2] == 0 && data[3] == 0 {
                    return Ok(None);
                }
                if data.len() < 10 {
                    return Err(FrameError::InvalidFrameData);
                }
                proof {
                    let sub = data@.subrange(0, 4);
                    assert(sub[0] == data@[0] && sub[1] == data@[1] && sub[2] == data@[2] && sub[3]
                        == data@[3]);
                }
                if !(id_byte_ok(data[0]) && id_byte_ok(data[1]) && id_byte_ok(data[2])
                    && id_byte_ok(data[3])) {
                    return Err(FrameError::InvalidFrameData);
                }
                let size = unsynchsafe_u32(read_be_u32(data[4], data[5], data[6], data[7]))
                    as usize;
                if size > data.len() - 10 {
                    return Err(FrameError::InvalidFrameData);
                }
                let id = [data[0], data[1], data[2], data[3]];
                proof {
                    assert(id@ =~= data@.subrange(0, 4));
                }
                let fl = parse_v4_flags(data[8], data[9]);
                let raw = slice_subrange(data, 10, 10 + size);
                proof {
                    assert(raw@ =~= data@.subrange(10, 10 + size as int));
                }
                let body: Vec<u8> = if unsynchronization || fl.unsynchronization {
                    destuff(raw)
                } else {
                    slice_to_vec(raw)
                };
                if fl.compression || fl.encryption || fl.data_length_indicator {
                    Ok(Some((10 + size, Frame::assemble(id, Content::Unknown(body), fl))))
                } else {
                    match decode_content(&id, body.as_slice()) {
                        Ok(c) => Ok(Some((10 + size, Frame::assemble(id, c, fl)))),
                        Err(e) => Err(e),
                    }
                }
            },
        }
    }

    /// Builds a frame from already-validated parts.
    pub(crate) fn assemble(id: [u8; 4], content: Content, flags: Flags) -> (r: Frame)
        requires
            valid_long_id(id@),
        ensures
            r@ == (FrameModel { id: id@, content: content@, flags }),
    {
        Frame { id, content, flags }
    }

}

/// Appends one length-prefixed field of the hash serialization.
fn push_hash_field(out: &mut Vec<u8>, b: &[u8])
    ensures
        final(out)@ == old(out)@ + hash_field(b@),
{
    crate::util::push_be_u64(out, b.len() as u64);
    push_all(out, b);
    proof {
        assert(final(out)@ =~= old(out)@ + hash_field(b@));
    }
}

/// Whether a byte may appear in a 4-byte identifier.
fn id_byte_ok(b: u8) -> (r: bool)
    ensures
        r == is_id_byte(b),
{
    (0x41 <= b && b <= 0x5A) || (0x30 <= b && b <= 0x39)
}

} // verus!
