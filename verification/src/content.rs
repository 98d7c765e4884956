//! The decoded payload of a frame: a closed variant chosen by convention
//! from the frame's identifier, together with its byte-level codec.
//!
//! Decoding is implemented for the textual frames (identifiers starting
//! with `T`, other than `TXXX`); every other body is kept verbatim as
//! `Unknown`, a visible tag rather than a hidden failure, while a
//! textual body that does not parse as text is a decode failure.

use vstd::prelude::*;
use vstd::string::StringExecFns;
use vstd::slice::slice_to_vec;
use crate::text::{
    char_from_u32, decode_text, decode_text_body, encode_text, encoding_byte, latin1_bytes,
    latin1_bytes_vec, string_push, text_payload, Encoding,
};
use crate::FrameError;

verus! {

/// The payload of a frame.
#[derive(Debug, PartialEq, Eq)]
pub enum Content {
    /// The single string of a textual frame.
    Text(String),
    /// A user-described string (`TXXX`).
    ExtendedText { description: String, value: String },
    /// The URL of a link frame.
    Link(String),
    /// A user-described URL (`WXXX`).
    ExtendedLink { description: String, link: String },
    /// A comment (`COMM`): language, description and body.
    Comment { lang: String, description: String, text: String },
    /// Unsynchronized lyrics (`USLT`): language, description and body.
    Lyrics { lang: String, description: String, text: String },
    /// An attached picture (`APIC`).
    Picture { mime_type: String, picture_type: u8, description: String, data: Vec<u8> },
    /// The raw body of a frame whose identifier is unrecognized or whose
    /// decoding is not implemented.
    Unknown(Vec<u8>),
}

/// The mathematical shape of a payload.
pub ghost enum ContentModel {
    Text { text: Seq<char> },
    ExtendedText { description: Seq<char>, value: Seq<char> },
    Link { link: Seq<char> },
    ExtendedLink { description: Seq<char>, link: Seq<char> },
    Comment { lang: Seq<char>, description: Seq<char>, text: Seq<char> },
    Lyrics { lang: Seq<char>, description: Seq<char>, text: Seq<char> },
    Picture { mime_type: Seq<char>, picture_type: u8, description: Seq<char>, data: Seq<u8> },
    Unknown { data: Seq<u8> },
}

impl View for Content {
    type V = ContentModel;

    open spec fn view(&self) -> ContentModel {
        match self {
            Content::Text(t) => ContentModel::Text { text: t@ },
            Content::ExtendedText { description, value } => ContentModel::ExtendedText {
                description: description@,
                value: value@,
            },
            Content::Link(l) => ContentModel::Link { link: l@ },
            Content::ExtendedLink { description, link } => ContentModel::ExtendedLink {
                description: description@,
                link: link@,
            },
            Content::Comment { lang, description, text } => ContentModel::Comment {
                lang: lang@,
                description: description@,
                text: text@,
            },
            Content::Lyrics { lang, description, text } => ContentModel::Lyrics {
                lang: lang@,
                description: description@,
                text: text@,
            },
            Content::Picture { mime_type, picture_type, description, data } => ContentModel::Picture {
                mime_type: mime_type@,
                picture_type: *picture_type,
                description: description@,
                data: data@,
            },
            Content::Unknown(d) => ContentModel::Unknown { data: d@ },
        }
    }
}

/// The terminator written after a described sub-field: two zero bytes
/// under the wide encodings, one otherwise.
pub open spec fn null_term(e: Encoding) -> Seq<u8> {
    if e is UTF16 || e is UTF16BE {
        seq![0u8, 0u8]
    } else {
        seq![0u8]
    }
}

/// The body bytes written for a payload under a text encoding.
pub open spec fn content_body(c: ContentModel, e: Encoding) -> Seq<u8> {
    match c {
        ContentModel::Text { text } => seq![encoding_byte(e)] + text_payload(text, e),
        ContentModel::ExtendedText { description, value } => seq![encoding_byte(e)]
            + text_payload(description, e) + null_term(e) + text_payload(value, e),
        ContentModel::Link { link } => latin1_bytes(link),
        ContentModel::ExtendedLink { description, link } => seq![encoding_byte(e)]
            + text_payload(description, e) + null_term(e) + latin1_bytes(link),
        ContentModel::Comment { lang, description, text } => seq![encoding_byte(e)]
            + latin1_bytes(lang) + text_payload(description, e) + null_term(e) + text_payload(
            text,
            e,
        ),
        ContentModel::Lyrics { lang, description, text } => seq![encoding_byte(e)] + latin1_bytes(
            lang,
        ) + text_payload(description, e) + null_term(e) + text_payload(text, e),
        ContentModel::Picture { mime_type, picture_type, description, data } => seq![
            encoding_byte(e),
        ] + latin1_bytes(mime_type) + seq![0u8] + seq![picture_type] + text_payload(description, e)
            + null_term(e) + data,
        ContentModel::Unknown { data } => data,
    }
}

/// A textual frame identifier: it starts with `T` and is not `TXXX`.
pub open spec fn is_text_id(id: Seq<u8>) -> bool {
    id.len() == 4 && id[0] == 0x54 && !(id[1] == 0x58 && id[2] == 0x58 && id[3] == 0x58)
}

/// The payload read from a frame body. Textual frames are parsed, and
/// a textual body that does not parse — an unknown encoding marker or
/// malformed character data — is a decode failure reported to the
/// caller. Only an identifier whose decoding is not implemented keeps
/// its raw bytes as `Unknown`: that substitution is an explicit design
/// choice, observable in the variant, never a hidden failure.
pub open spec fn decode_content_model(id: Seq<u8>, body: Seq<u8>) -> Result<
    ContentModel,
    FrameError,
> {
    if is_text_id(id) {
        match decode_text_body(body) {
            Some(s) => Ok(ContentModel::Text { text: s }),
            None => Err(FrameError::InvalidFrameData),
        }
    } else {
        Ok(ContentModel::Unknown { data: body })
    }
}

/// Appends a slice to a byte vector.
pub(crate) fn push_all(out: &mut Vec<u8>, b: &[u8])
    ensures
        final(out)@ == old(out)@ + b@,
{
    let mut i: usize = 0;
    while i < b.len()
        invariant
            i <= b@.len(),
            out@ == old(out)@ + b@.take(i as int),
        decreases b@.len() - i,
    {
        out.push(b[i]);
        proof {
            assert(out@ =~= old(out)@ + b@.take(i + 1));
        }
        i = i + 1;
    }
    proof {
        assert(out@ =~= old(out)@ + b@);
    }
}

/// Serializes a payload under a text encoding.
pub fn encode_content(c: &Content, e: Encoding) -> (r: Vec<u8>)
    ensures
        r@ == content_body(c@, e),
{
    let mut out: Vec<u8> = Vec::new();
    match c {
        Content::Text(t) => {
            out.push(e.code());
            let body = encode_text(t.as_str(), e);
            push_all(&mut out, body.as_slice());
            proof {
                assert(out@ =~= content_body(c@, e));
            }
        },
        Content::ExtendedText { description, value } => {
            out.push(e.code());
            let d = encode_text(description.as_str(), e);
            push_all(&mut out, d.as_slice());
            push_null(&mut out, e);
            let v = encode_text(value.as_str(), e);
            push_all(&mut out, v.as_slice());
            proof {
                assert(out@ =~= content_body(c@, e));
            }
        },
        Content::Link(l) => {
            let b = latin1_bytes_vec(l.as_str());
            push_all(&mut out, b.as_slice());
            proof {
                assert(out@ =~= content_body(c@, e));
            }
        },
        Content::ExtendedLink { description, link } => {
            out.push(e.code());
            let d = encode_text(description.as_str(), e);
            push_all(&mut out, d.as_slice());
            push_null(&mut out, e);
            let l = latin1_bytes_vec(link.as_str());
            push_all(&mut out, l.as_slice());
            proof {
                assert(out@ =~= content_body(c@, e));
            }
        },
        Content::Comment { lang, description, text } => {
            out.push(e.code());
            let lg = latin1_bytes_vec(lang.as_str());
            push_all(&mut out, lg.as_slice());
            let d = encode_text(description.as_str(), e);
            push_all(&mut out, d.as_slice());
            push_null(&mut out, e);
            let t = encode_text(text.as_str(), e);
            push_all(&mut out, t.as_slice());
            proof {
                assert(out@ =~= content_body(c@, e));
            }
        },
        Content::Lyrics { lang, description, text } => {
            out.push(e.code());
            let lg = latin1_bytes_vec(lang.as_str());
            push_all(&mut out, lg.as_slice());
            let d = encode_text(description.as_str(), e);
            push_all(&mut out, d.as_slice());
            push_null(&mut out, e);
            let t = encode_text(text.as_str(), e);
            push_all(&mut out, t.as_slice());
            proof {
                assert(out@ =~= content_body(c@, e));
            }
        },
        Content::Picture { mime_type, picture_type, description, data } => {
            out.push(e.code());
            let m = latin1_bytes_vec(mime_type.as_str());
            push_all(&mut out, m.as_slice());
            out.push(0);
            out.push(*picture_type);
            let d = encode_text(description.as_str(), e);
            push_all(&mut out, d.as_slice());
            push_null(&mut out, e);
            push_all(&mut out, data.as_slice());
            proof {
                assert(out@ =~= content_body(c@, e));
            }
        },
        Content::Unknown(data) => {
            push_all(&mut out, data.as_slice());
            proof {
                assert(out@ =~= content_body(c@, e));
            }
        },
    }
    out
}

/// Appends the sub-field terminator of the encoding.
fn push_null(out: &mut Vec<u8>, e: Encoding)
    ensures
        final(out)@ == old(out)@ + null_term(e),
{
    match e {
        Encoding::UTF16 | Encoding::UTF16BE => {
            out.push(0);
            out.push(0);
            proof {
                assert(final(out)@ =~= old(out)@ + null_term(e));
            }
        },
        _ => {
            out.push(0);
            proof {
                assert(final(out)@ =~= old(out)@ + null_term(e));
            }
        },
    }
}

/// Reads a payload from a frame body, per `decode_content_model`.
pub fn decode_content(id: &[u8; 4], body: &[u8]) -> (r: Result<Content, FrameError>)
    ensures
        match r {
            Ok(c) => decode_content_model(id@, body@) == Ok::<ContentModel, FrameError>(c@),
            Err(e) => decode_content_model(id@, body@) == Err::<ContentModel, FrameError>(e),
        },
{
    if id[0] == 0x54 && !(id[1] == 0x58 && id[2] == 0x58 && id[3] == 0x58) {
        match decode_text(body) {
            Ok(s) => Ok(Content::Text(s)),
            Err(e) => Err(e),
        }
    } else {
        Ok(Content::Unknown(slice_to_vec(body)))
    }
}

/// Copies a byte vector.
fn clone_bytes(v: &Vec<u8>) -> (r: Vec<u8>)
    ensures
        r@ == v@,
{
    let mut out: Vec<u8> = Vec::new();
    push_all(&mut out, v.as_slice());
    proof {
        assert(out@ =~= v@);
    }
    out
}

impl Clone for Content {
    /// Clones the payload field for field.
    fn clone(&self) -> (r: Content)
        ensures
            r@ == self@,
    {
        match self {
            Content::Text(t) => Content::Text(t.clone()),
            Content::ExtendedText { description, value } => Content::ExtendedText {
                description: description.clone(),
                value: value.clone(),
            },
            Content::Link(l) => Content::Link(l.clone()),
            Content::ExtendedLink { description, link } => Content::ExtendedLink {
                description: description.clone(),
                link: link.clone(),
            },
            Content::Comment { lang, description, text } => Content::Comment {
                lang: lang.clone(),
                description: description.clone(),
                text: text.clone(),
            },
            Content::Lyrics { lang, description, text } => Content::Lyrics {
                lang: lang.clone(),
                description: description.clone(),
                text: text.clone(),
            },
            Content::Picture { mime_type, picture_type, description, data } => Content::Picture {
                mime_type: mime_type.clone(),
                picture_type: *picture_type,
                description: description.clone(),
                data: clone_bytes(data),
            },
            Content::Unknown(d) => Content::Unknown(clone_bytes(d)),
        }
    }
}

/// Compares two byte vectors.
fn bytes_eq(a: &Vec<u8>, b: &Vec<u8>) -> (r: bool)
    ensures
        r == (a@ == b@),
{
    if a.len() != b.len() {
        return false;
    }
    let mut i: usize = 0;
    while i < a.len()
        invariant
            i <= a@.len(),
            a@.len() == b@.len(),
            forall|j: int| 0 <= j < i ==> a@[j] == b@[j],
        decreases a@.len() - i,
    {
        if a[i] != b[i] {
            return false;
        }
        i = i + 1;
    }
    proof {
        assert(a@ =~= b@);
    }
    true
}

/// Compares two strings.
fn string_eq(a: &String, b: &String) -> (r: bool)
    ensures
        r == (a@ == b@),
{
    a.eq(b)
}

/// Structural equality of payloads.
pub fn content_eq(a: &Content, b: &Content) -> (r: bool)
    ensures
        r == (a@ == b@),
{
    match a {
        Content::Text(x) => match b {
            Content::Text(y) => string_eq(x, y),
            _ => false,
        },
        Content::ExtendedText { description, value } => match b {
            Content::ExtendedText { description: d2, value: v2 } => string_eq(description, d2)
                && string_eq(value, v2),
            _ => false,
        },
        Content::Link(x) => match b {
            Content::Link(y) => string_eq(x, y),
            _ => false,
        },
        Content::ExtendedLink { description, link } => match b {
            Content::ExtendedLink { description: d2, link: l2 } => string_eq(description, d2)
                && string_eq(link, l2),
            _ => false,
        },
        Content::Comment { lang, description, text } => match b {
            Content::Comment { lang: g2, description: d2, text: t2 } => string_eq(lang, g2)
                && string_eq(description, d2) && string_eq(text, t2),
            _ => false,
        },
        Content::Lyrics { lang, description, text } => match b {
            Content::Lyrics { lang: g2, description: d2, text: t2 } => string_eq(lang, g2)
                && string_eq(description, d2) && string_eq(text, t2),
            _ => false,
        },
        Content::Picture { mime_type, picture_type, description, data } => match b {
            Content::Picture { mime_type: m2, picture_type: p2, description: d2, data: b2 } => (
            string_eq(mime_type, m2) && *picture_type == *p2) && (string_eq(description, d2)
                && bytes_eq(data, b2)),
            _ => false,
        },
        Content::Unknown(x) => match b {
            Content::Unknown(y) => bytes_eq(x, y),
            _ => false,
        },
    }
}

/// The decimal digits of `n`.
pub open spec fn dec_chars(n: int) -> Seq<char>
    decreases n,
{
    if n < 10 {
        seq![((0x30 + if n >= 0 {
            n
        } else {
            0
        }) as u32) as char]
    } else {
        dec_chars(n / 10) + seq![((0x30 + n % 10) as u32) as char]
    }
}

/// Appends the decimal rendering of `n`.
fn push_decimal(s: &mut String, n: usize)
    ensures
        final(s)@ == old(s)@ + dec_chars(n as int),
    decreases n,
{
    if n >= 10 {
        proof {
            assert(n / 10 < n) by (nonlinear_arith)
                requires
                    n >= 10usize,
            ;
        }
        push_decimal(s, n / 10);
        let d = (n % 10) as u32;
        let c = char_from_u32(0x30 + d).unwrap();
        string_push(s, c);
        proof {
            assert(final(s)@ =~= old(s)@ + dec_chars(n as int));
        }
    } else {
        let d = (n % 10) as u32;
        let c = char_from_u32(0x30 + d).unwrap();
        string_push(s, c);
        proof {
            assert(final(s)@ =~= old(s)@ + dec_chars(n as int));
        }
    }
}

/// The single display string of a payload: bare values for text and
/// links, `description: value` for described variants, the body for
/// lyrics, `description: pictureType (mimeType)` for pictures, and a
/// byte count for unknown bodies. Lossy, for diagnostics only.
pub open spec fn render_spec(c: ContentModel) -> Seq<char> {
    match c {
        ContentModel::Text { text } => text,
        ContentModel::Link { link } => link,
        ContentModel::Lyrics { lang, description, text } => text,
        ContentModel::ExtendedText { description, value } => description + ": "@ + value,
        ContentModel::ExtendedLink { description, link } => description + ": "@ + link,
        ContentModel::Comment { lang, description, text } => description + ": "@ + text,
        ContentModel::Picture { mime_type, picture_type, description, data } => description + ": "@
            + dec_chars(picture_type as int) + " ("@ + mime_type + ")"@,
        ContentModel::Unknown { data } => "unknown, "@ + dec_chars(data.len() as int) + " bytes"@,
    }
}

impl Content {
    /// Renders the payload as its single display string.
    pub fn render(&self) -> (r: String)
        ensures
            r@ == render_spec(self@),
    {
        match self {
            Content::Text(t) => t.clone(),
            Content::Link(l) => l.clone(),
            Content::Lyrics { lang, description, text } => text.clone(),
            Content::ExtendedText { description, value } => {
                let mut s = description.clone();
                s.append(": ");
                s.append(value.as_str());
                proof {
                    assert(s@ =~= render_spec(self@));
                }
                s
            },
            Content::ExtendedLink { description, link } => {
                let mut s = description.clone();
                s.append(": ");
                s.append(link.as_str());
                proof {
                    assert(s@ =~= render_spec(self@));
                }
                s
            },
            Content::Comment { lang, description, text } => {
                let mut s = description.clone();
                s.append(": ");
                s.append(text.as_str());
                proof {
                    assert(s@ =~= render_spec(self@));
                }
                s
            },
            Content::Picture { mime_type, picture_type, description, data } => {
                let mut s = description.clone();
                s.append(": ");
                push_decimal(&mut s, *picture_type as usize);
                s.append(" (");
                s.append(mime_type.as_str());
                s.append(")");
                proof {
                    assert(s@ =~= render_spec(self@));
                }
                s
            },
            Content::Unknown(data) => {
                let mut s = String::new();
                s.append("unknown, ");
                push_decimal(&mut s, data.len());
                s.append(" bytes");
                proof {
                    assert(s@ =~= render_spec(self@));
                }
                s
            },
        }
    }
}

} // verus!
