//! The text encodings a frame body may declare: ISO-8859-1 (Latin-1),
//! UTF-16 with byte-order mark, big-endian UTF-16, and UTF-8.

use vstd::prelude::*;
use vstd::slice::{slice_subrange, slice_to_vec};
use vstd::string::StrSliceExecFns;
use vstd::utf8::{decode_utf8, encode_utf8, is_scalar, valid_utf8};
use crate::FrameError;

verus! {

broadcast use
    vstd::utf8::char_is_scalar,
    vstd::utf8::char_u32_cast,
    vstd::utf8::encode_utf8_valid_utf8,
    vstd::utf8::encode_utf8_decode_utf8;

/// The text encoding declared by the first byte of a textual frame body.
#[derive(Clone, Copy, PartialEq, Eq, Structural, Debug)]
pub enum Encoding {
    /// ISO-8859-1, one byte per character.
    Latin1,
    /// UTF-16 with a leading byte-order mark; written little-endian.
    UTF16,
    /// UTF-16 big-endian, no byte-order mark.
    UTF16BE,
    /// UTF-8.
    UTF8,
}

impl Encoding {
    /// The marker byte that announces this encoding on the wire.
    pub fn code(self) -> (r: u8)
        ensures
            r == encoding_byte(self),
    {
        match self {
            Encoding::Latin1 => 0,
            Encoding::UTF16 => 1,
            Encoding::UTF16BE => 2,
            Encoding::UTF8 => 3,
        }
    }
}

/// The marker byte of each encoding.
pub open spec fn encoding_byte(e: Encoding) -> u8 {
    match e {
        Encoding::Latin1 => 0,
        Encoding::UTF16 => 1,
        Encoding::UTF16BE => 2,
        Encoding::UTF8 => 3,
    }
}

/// The Latin-1 byte written for a character: its low eight bits.
/// Characters beyond the Latin-1 range are truncated.
pub open spec fn latin1_byte_of(c: char) -> u8 {
    ((c as u32) & 0xFF) as u8
}

/// The Latin-1 serialization of a string.
pub open spec fn latin1_bytes(s: Seq<char>) -> Seq<u8> {
    Seq::new(s.len(), |i: int| latin1_byte_of(s[i]))
}

/// The characters read from Latin-1 bytes; every byte denotes the
/// character of the same code point, so this is total.
pub open spec fn latin1_chars(b: Seq<u8>) -> Seq<char> {
    Seq::new(b.len(), |i: int| (b[i] as u32) as char)
}

/// The UTF-16 code units of one character.
pub open spec fn utf16_units_of(c: char) -> Seq<u16> {
    let u = c as u32;
    if u < 0x10000 {
        seq![u as u16]
    } else {
        let v = u - 0x10000;
        seq![(0xD800 + v / 0x400) as u16, (0xDC00 + v % 0x400) as u16]
    }
}

/// The UTF-16 code units of a string.
pub open spec fn utf16_units(s: Seq<char>) -> Seq<u16>
    decreases s.len(),
{
    if s.len() == 0 {
        Seq::empty()
    } else {
        utf16_units_of(s[0]) + utf16_units(s.skip(1))
    }
}

/// Code units serialized to bytes, little-endian when `le` is set.
pub open spec fn utf16_bytes(units: Seq<u16>, le: bool) -> Seq<u8>
    decreases units.len(),
{
    if units.len() == 0 {
        Seq::empty()
    } else {
        let u = units[0];
        let lo = (u & 0xFF) as u8;
        let hi = ((u >> 8) & 0xFF) as u8;
        (if le {
            seq![lo, hi]
        } else {
            seq![hi, lo]
        }) + utf16_bytes(units.skip(1), le)
    }
}

/// Code units read back from bytes; a trailing odd byte is dropped,
/// callers reject odd lengths beforehand.
pub open spec fn units_of_bytes(b: Seq<u8>, le: bool) -> Seq<u16>
    decreases b.len(),
{
    if b.len() < 2 {
        Seq::empty()
    } else {
        let u = if le {
            ((b[1] as u16) << 8) | (b[0] as u16)
        } else {
            ((b[0] as u16) << 8) | (b[1] as u16)
        };
        seq![u] + units_of_bytes(b.skip(2), le)
    }
}

/// The characters denoted by a sequence of UTF-16 code units, or `None`
/// when a surrogate is unpaired.
pub open spec fn utf16_decode(units: Seq<u16>) -> Option<Seq<char>>
    decreases units.len(),
{
    if units.len() == 0 {
        Some(Seq::empty())
    } else {
        let u0 = units[0];
        if u0 < 0xD800 || u0 >= 0xE000 {
            match utf16_decode(units.skip(1)) {
                Some(rest) => Some(seq![(u0 as u32) as char] + rest),
                None => None,
            }
        } else if u0 < 0xDC00 && units.len() >= 2 && 0xDC00 <= units[1] && units[1] < 0xE000 {
            let v = 0x10000 + (u0 - 0xD800) * 0x400 + (units[1] - 0xDC00);
            match utf16_decode(units.skip(2)) {
                Some(rest) => Some(seq![(v as u32) as char] + rest),
                None => None,
            }
        } else {
            None
        }
    }
}

/// The characters read from UTF-16 bytes, or `None` on an odd length or
/// an unpaired surrogate.
pub open spec fn decode_utf16_bytes(b: Seq<u8>, le: bool) -> Option<Seq<char>> {
    if b.len() % 2 != 0 {
        None
    } else {
        utf16_decode(units_of_bytes(b, le))
    }
}

/// The serialized form of a string under an encoding, without the
/// marker byte.
pub open spec fn text_payload(s: Seq<char>, e: Encoding) -> Seq<u8> {
    match e {
        Encoding::Latin1 => latin1_bytes(s),
        Encoding::UTF16 => seq![0xFFu8, 0xFEu8] + utf16_bytes(utf16_units(s), true),
        Encoding::UTF16BE => utf16_bytes(utf16_units(s), false),
        Encoding::UTF8 => encode_utf8(s),
    }
}

/// The string read from a textual frame body: a marker byte followed by
/// the serialized characters. `None` on an unknown marker, a missing
/// byte-order mark, or malformed character data.
pub open spec fn decode_text_body(body: Seq<u8>) -> Option<Seq<char>> {
    if body.len() == 0 {
        None
    } else {
        let rest = body.skip(1);
        if body[0] == 0 {
            Some(latin1_chars(rest))
        } else if body[0] == 1 {
            if rest.len() >= 2 && rest[0] == 0xFF && rest[1] == 0xFE {
                decode_utf16_bytes(rest.skip(2), true)
            } else if rest.len() >= 2 && rest[0] == 0xFE && rest[1] == 0xFF {
                decode_utf16_bytes(rest.skip(2), false)
            } else {
                None
            }
        } else if body[0] == 2 {
            decode_utf16_bytes(rest, false)
        } else if body[0] == 3 {
            if valid_utf8(rest) {
                Some(decode_utf8(rest))
            } else {
                None
            }
        } else {
            None
        }
    }
}

/// Relies on char::from_u32: `Some` exactly for Unicode scalar values,
/// holding the character of that code point.
#[verifier::external_body]
pub(crate) fn char_from_u32(u: u32) -> (r: Option<char>)
    ensures
        is_scalar(u) ==> r == Some(u as char),
        !is_scalar(u) ==> r is None,
{
    char::from_u32(u)
}

/// Relies on String::push: appends exactly the given character.
#[verifier::external_body]
pub(crate) fn string_push(s: &mut String, c: char)
    ensures
        final(s)@ == old(s)@ + seq![c],
{
    s.push(c);
}

/// Relies on String::from_utf8: succeeds exactly on valid UTF-8 input
/// and returns the characters those bytes encode.
#[verifier::external_body]
fn string_from_utf8(v: Vec<u8>) -> (r: Option<String>)
    ensures
        r is Some <==> valid_utf8(v@),
        r matches Some(s) ==> s@ == decode_utf8(v@),
{
    String::from_utf8(v).ok()
}

/// Relies on str::from_utf8: bytes below 0x80 are valid UTF-8 and read
/// back as the characters of the same code points.
#[verifier::external_body]
pub(crate) fn ascii_str_of(b: &[u8]) -> (r: &str)
    requires
        forall|i: int| 0 <= i < b@.len() ==> b@[i] < 0x80,
    ensures
        r@.len() == b@.len(),
        forall|i: int| 0 <= i < b@.len() ==> r@[i] == (b@[i] as u32) as char,
{
    core::str::from_utf8(b).unwrap()
}

/// Splitting a string splits its code units.
proof fn lemma_utf16_units_concat(a: Seq<char>, b: Seq<char>)
    ensures
        utf16_units(a + b) == utf16_units(a) + utf16_units(b),
    decreases a.len(),
{
    if a.len() == 0 {
        assert(a + b =~= b);
        assert(utf16_units(a) + utf16_units(b) =~= utf16_units(b));
    } else {
        assert((a + b).skip(1) =~= a.skip(1) + b);
        lemma_utf16_units_concat(a.skip(1), b);
        assert(utf16_units(a + b) =~= utf16_units(a) + utf16_units(b));
    }
}

/// Splitting a unit sequence splits its serialized bytes.
proof fn lemma_utf16_bytes_concat(a: Seq<u16>, b: Seq<u16>, le: bool)
    ensures
        utf16_bytes(a + b, le) == utf16_bytes(a, le) + utf16_bytes(b, le),
    decreases a.len(),
{
    if a.len() == 0 {
        assert(a + b =~= b);
        assert(utf16_bytes(a, le) + utf16_bytes(b, le) =~= utf16_bytes(b, le));
    } else {
        assert((a + b).skip(1) =~= a.skip(1) + b);
        lemma_utf16_bytes_concat(a.skip(1), b, le);
        assert(utf16_bytes(a + b, le) =~= utf16_bytes(a, le) + utf16_bytes(b, le));
    }
}

/// Decoding the code units of a string gives back the string.
pub proof fn lemma_utf16_roundtrip(s: Seq<char>)
    ensures
        utf16_decode(utf16_units(s)) == Some(s),
    decreases s.len(),
{
    if s.len() == 0 {
        assert(s =~= Seq::<char>::empty());
    } else {
        let c = s[0];
        let u = c as u32;
        vstd::utf8::char_is_scalar(c);
        assert(is_scalar(u));
        lemma_utf16_roundtrip(s.skip(1));
        let units = utf16_units(s);
        let rest_units = utf16_units(s.skip(1));
        assert(units == utf16_units_of(c) + rest_units);
        if u < 0x10000 {
            let u0 = u as u16;
            assert(utf16_units_of(c) =~= seq![u0]);
            assert(units[0] == u0);
            assert(units.skip(1) =~= rest_units);
            assert(u0 as u32 == u);
            vstd::utf8::char_u32_cast(c, u0 as u32);
            assert((u0 as u32) as char == c);
            assert(seq![c] + s.skip(1) =~= s);
        } else {
            let v = u - 0x10000;
            assert(v < 0x100000);
            assert(v / 0x400 < 0x400) by (nonlinear_arith)
                requires
                    0 <= v < 0x100000,
            ;
            vstd::arithmetic::div_mod::lemma_fundamental_div_mod(v, 0x400);
            let h = (0xD800 + v / 0x400) as u16;
            let l = (0xDC00 + v % 0x400) as u16;
            assert(utf16_units_of(c) =~= seq![h, l]);
            assert(units[0] == h && units[1] == l);
            assert(units.skip(2) =~= rest_units);
            assert(0xD800 <= h < 0xDC00);
            assert(0xDC00 <= l < 0xE000);
            assert(0x10000 + (h - 0xD800) * 0x400 + (l - 0xDC00) == u);
            vstd::utf8::char_u32_cast(c, u);
            assert((u as u32) as char == c);
            assert(seq![c] + s.skip(1) =~= s);
        }
    }
}

/// Reading back the serialized bytes of code units gives the units.
pub proof fn lemma_utf16_bytes_roundtrip(units: Seq<u16>, le: bool)
    ensures
        utf16_bytes(units, le).len() == 2 * units.len(),
        units_of_bytes(utf16_bytes(units, le), le) == units,
    decreases units.len(),
{
    if units.len() == 0 {
        assert(units_of_bytes(utf16_bytes(units, le), le) =~= units);
    } else {
        lemma_utf16_bytes_roundtrip(units.skip(1), le);
        let u = units[0];
        let lo = (u & 0xFF) as u8;
        let hi = ((u >> 8) & 0xFF) as u8;
        let bytes = utf16_bytes(units, le);
        let rest = utf16_bytes(units.skip(1), le);
        assert(bytes.skip(2) =~= rest);
        assert(((hi as u16) << 8) | (lo as u16) == u) by (bit_vector)
            requires
                lo == (u & 0xFF) as u8,
                hi == ((u >> 8) & 0xFF) as u8,
        ;
        if le {
            assert(bytes[0] == lo && bytes[1] == hi);
        } else {
            assert(bytes[0] == hi && bytes[1] == lo);
        }
        assert(seq![u] + units.skip(1) =~= units);
        assert(units_of_bytes(bytes, le) =~= units);
    }
}

/// Reading back a serialized text body gives the string, except that
/// Latin-1 keeps only the low byte of each character.
pub proof fn lemma_text_payload_roundtrip(s: Seq<char>, e: Encoding)
    ensures
        decode_text_body(seq![encoding_byte(e)] + text_payload(s, e)) == Some(
            if e is Latin1 {
                latin1_chars(latin1_bytes(s))
            } else {
                s
            },
        ),
{
    let body = seq![encoding_byte(e)] + text_payload(s, e);
    assert(body.skip(1) =~= text_payload(s, e));
    match e {
        Encoding::Latin1 => {
            assert(body[0] == 0);
        },
        Encoding::UTF16 => {
            assert(body[0] == 1);
            let rest = body.skip(1);
            let bytes = utf16_bytes(utf16_units(s), true);
            assert(rest =~= seq![0xFFu8, 0xFEu8] + bytes);
            assert(rest[0] == 0xFF && rest[1] == 0xFE);
            assert(rest.skip(2) =~= bytes);
            lemma_utf16_bytes_roundtrip(utf16_units(s), true);
            lemma_utf16_roundtrip(s);
        },
        Encoding::UTF16BE => {
            assert(body[0] == 2);
            lemma_utf16_bytes_roundtrip(utf16_units(s), false);
            lemma_utf16_roundtrip(s);
        },
        Encoding::UTF8 => {
            assert(body[0] == 3);
            assert(valid_utf8(encode_utf8(s)) && decode_utf8(encode_utf8(s)) == s);
        },
    }
}

/// Collects the UTF-16 code units of a string.
fn utf16_units_vec(s: &str) -> (r: Vec<u16>)
    ensures
        r@ == utf16_units(s@),
{
    let n = s.unicode_len();
    let mut units: Vec<u16> = Vec::new();
    let mut i: usize = 0;
    proof {
        assert(s@.take(0) =~= Seq::<char>::empty());
    }
    while i < n
        invariant
            i <= n,
            n == s@.len(),
            units@ == utf16_units(s@.take(i as int)),
        decreases n - i,
    {
        let c = s.get_char(i);
        let u = c as u32;
        proof {
            assert(is_scalar(u));
        }
        if u < 0x10000 {
            units.push(u as u16);
        } else {
            let v = u - 0x10000;
            proof {
                assert(v < 0x100000);
                assert(v / 0x400 < 0x400) by (nonlinear_arith)
                    requires
                        v < 0x100000u32,
                ;
            }
            units.push((0xD800 + v / 0x400) as u16);
            units.push((0xDC00 + v % 0x400) as u16);
        }
        proof {
            let pre = s@.take(i as int);
            let one = seq![s@[i as int]];
            assert(s@.take(i + 1) =~= pre + one);
            lemma_utf16_units_concat(pre, one);
            assert(one.skip(1) =~= Seq::<char>::empty());
            assert(utf16_units(Seq::<char>::empty()) =~= Seq::<u16>::empty());
            assert(utf16_units(one) =~= utf16_units_of(s@[i as int]));
            assert(units@ =~= utf16_units(s@.take(i + 1)));
        }
        i = i + 1;
    }
    proof {
        assert(s@.take(s@.len() as int) =~= s@);
    }
    units
}

/// Serializes code units to bytes in the requested byte order.
fn utf16_bytes_vec(units: &Vec<u16>, le: bool) -> (r: Vec<u8>)
    ensures
        r@ == utf16_bytes(units@, le),
{
    let mut out: Vec<u8> = Vec::new();
    let mut i: usize = 0;
    proof {
        assert(units@.take(0) =~= Seq::<u16>::empty());
    }
    while i < units.len()
        invariant
            i <= units@.len(),
            out@ == utf16_bytes(units@.take(i as int), le),
        decreases units@.len() - i,
    {
        let u = units[i];
        let lo = #[verifier::truncate] ((u & 0xFF) as u8);
        let hi = #[verifier::truncate] (((u >> 8) & 0xFF) as u8);
        if le {
            out.push(lo);
            out.push(hi);
        } else {
            out.push(hi);
            out.push(lo);
        }
        proof {
            let pre = units@.take(i as int);
            let one = seq![units@[i as int]];
            assert(units@.take(i + 1) =~= pre + one);
            lemma_utf16_bytes_concat(pre, one, le);
            assert(one.skip(1) =~= Seq::<u16>::empty());
            assert(utf16_bytes(Seq::<u16>::empty(), le) =~= Seq::<u8>::empty());
            assert(out@ =~= utf16_bytes(units@.take(i + 1), le));
        }
        i = i + 1;
    }
    proof {
        assert(units@.take(units@.len() as int) =~= units@);
    }
    out
}

/// Serializes a string as Latin-1 bytes.
pub(crate) fn latin1_bytes_vec(s: &str) -> (r: Vec<u8>)
    ensures
        r@ == latin1_bytes(s@),
{
    let n = s.unicode_len();
    let mut out: Vec<u8> = Vec::new();
    let mut i: usize = 0;
    while i < n
        invariant
            i <= n,
            n == s@.len(),
            out@ == latin1_bytes(s@.take(i as int)),
        decreases n - i,
    {
        let c = s.get_char(i);
        out.push(#[verifier::truncate] (((c as u32) & 0xFF) as u8));
        proof {
            assert(out@ =~= latin1_bytes(s@.take(i + 1)));
        }
        i = i + 1;
    }
    proof {
        assert(s@.take(s@.len() as int) =~= s@);
    }
    out
}

/// Serializes a string under an encoding, without the marker byte.
pub fn encode_text(s: &str, e: Encoding) -> (r: Vec<u8>)
    ensures
        r@ == text_payload(s@, e),
{
    match e {
        Encoding::Latin1 => latin1_bytes_vec(s),
        Encoding::UTF16 => {
            let units = utf16_units_vec(s);
            let mut body = utf16_bytes_vec(&units, true);
            let mut out: Vec<u8> = Vec::new();
            out.push(0xFF);
            out.push(0xFE);
            out.append(&mut body);
            proof {
                assert(out@ =~= text_payload(s@, Encoding::UTF16));
            }
            out
        },
        Encoding::UTF16BE => {
            let units = utf16_units_vec(s);
            utf16_bytes_vec(&units, false)
        },
        Encoding::UTF8 => s.as_bytes_vec(),
    }
}

/// Reads the code units held by UTF-16 bytes.
fn units_vec_of_bytes(b: &[u8], le: bool) -> (r: Vec<u16>)
    requires
        b@.len() % 2 == 0,
    ensures
        r@ == units_of_bytes(b@, le),
{
    let mut units: Vec<u16> = Vec::new();
    let mut i: usize = 0;
    proof {
        assert(b@.skip(0) =~= b@);
        assert(units@ + units_of_bytes(b@, le) =~= units_of_bytes(b@, le));
    }
    while i + 1 < b.len()
        invariant
            i <= b@.len(),
            i % 2 == 0,
            b@.len() % 2 == 0,
            units_of_bytes(b@, le) == units@ + units_of_bytes(b@.skip(i as int), le),
        decreases b@.len() - i,
    {
        let b0 = b[i];
        let b1 = b[i + 1];
        let u: u16 = if le {
            ((b1 as u16) << 8) | (b0 as u16)
        } else {
            ((b0 as u16) << 8) | (b1 as u16)
        };
        units.push(u);
        proof {
            let rest = b@.skip(i as int);
            assert(rest[0] == b@[i as int] && rest[1] == b@[i + 1]);
            assert(rest.skip(2) =~= b@.skip(i + 2));
            assert(units_of_bytes(rest, le) == seq![u] + units_of_bytes(b@.skip(i + 2), le));
        }
        i = i + 2;
    }
    proof {
        assert(i == b@.len());
        assert(units_of_bytes(b@.skip(i as int), le) =~= Seq::<u16>::empty());
        assert(units@ =~= units_of_bytes(b@, le));
    }
    units
}

/// Reads a string from UTF-16 bytes in the given byte order.
fn parse_utf16(b: &[u8], le: bool) -> (r: Result<String, FrameError>)
    ensures
        match r {
            Ok(s) => decode_utf16_bytes(b@, le) == Some(s@),
            Err(e) => decode_utf16_bytes(b@, le) is None && e == FrameError::InvalidFrameData,
        },
{
    if b.len() % 2 != 0 {
        return Err(FrameError::InvalidFrameData);
    }
    let units = units_vec_of_bytes(b, le);
    let mut out = String::new();
    let mut i: usize = 0;
    proof {
        assert(units@.skip(0) =~= units@);
        assert(out@ + Seq::<char>::empty() =~= Seq::<char>::empty());
    }
    while i < units.len()
        invariant
            i <= units@.len(),
            units@ == units_of_bytes(b@, le),
            b@.len() % 2 == 0,
            utf16_decode(units@) == (match utf16_decode(units@.skip(i as int)) {
                Some(rest) => Some(out@ + rest),
                None => None::<Seq<char>>,
            }),
        decreases units@.len() - i,
    {
        let u0 = units[i];
        proof {
            assert(units@.skip(i as int)[0] == units@[i as int]);
        }
        if u0 < 0xD800 || u0 >= 0xE000 {
            proof {
                assert(is_scalar(u0 as u32));
            }
            let ghost prev = out@;
            let c = char_from_u32(u0 as u32).unwrap();
            string_push(&mut out, c);
            proof {
                let rest = units@.skip(i as int);
                assert(rest.skip(1) =~= units@.skip(i + 1));
                match utf16_decode(units@.skip(i + 1)) {
                    Some(tail) => {
                        assert(prev + (seq![c] + tail) =~= out@ + tail);
                    },
                    None => {},
                }
            }
            i = i + 1;
        } else if u0 < 0xDC00 && i + 1 < units.len() && 0xDC00 <= units[i + 1] && units[i + 1]
            < 0xE000 {
            let u1 = units[i + 1];
            let v: u32 = 0x10000 + ((u0 - 0xD800) as u32) * 0x400 + ((u1 - 0xDC00) as u32);
            proof {
                assert(units@.skip(i as int)[1] == units@[i + 1]);
                assert(is_scalar(v));
            }
            let ghost prev = out@;
            let c = char_from_u32(v).unwrap();
            string_push(&mut out, c);
            proof {
                let rest = units@.skip(i as int);
                assert(rest.skip(2) =~= units@.skip(i + 2));
                match utf16_decode(units@.skip(i + 2)) {
                    Some(tail) => {
                        assert(prev + (seq![c] + tail) =~= out@ + tail);
                    },
                    None => {},
                }
            }
            i = i + 2;
        } else {
            proof {
                let rest = units@.skip(i as int);
                if rest.len() >= 2 {
                    assert(rest[1] == units@[i + 1]);
                }
                assert(utf16_decode(rest) is None);
            }
            return Err(FrameError::InvalidFrameData);
        }
    }
    proof {
        assert(units@.skip(units@.len() as int) =~= Seq::<u16>::empty());
    }
    Ok(out)
}

/// Reads a textual frame body: a marker byte, then the characters.
pub fn decode_text(body: &[u8]) -> (r: Result<String, FrameError>)
    ensures
        match r {
            Ok(s) => decode_text_body(body@) == Some(s@),
            Err(e) => decode_text_body(body@) is None && e == FrameError::InvalidFrameData,
        },
{
    if body.len() == 0 {
        return Err(FrameError::InvalidFrameData);
    }
    let marker = body[0];
    if marker == 0 {
        let mut out = String::new();
        let mut i: usize = 1;
        proof {
            assert(out@ =~= latin1_chars(body@.subrange(1, 1)));
        }
        while i < body.len()
            invariant
                1 <= i <= body@.len(),
                out@ == latin1_chars(body@.subrange(1, i as int)),
            decreases body@.len() - i,
        {
            let b = body[i];
            proof {
                assert(is_scalar(b as u32));
            }
            let c = char_from_u32(b as u32).unwrap();
            string_push(&mut out, c);
            proof {
                assert(out@ =~= latin1_chars(body@.subrange(1, i + 1)));
            }
            i = i + 1;
        }
        proof {
            assert(body@.subrange(1, body@.len() as int) =~= body@.skip(1));
        }
        Ok(out)
    } else if marker == 1 {
        if body.len() >= 3 && body[1] == 0xFF && body[2] == 0xFE {
            let rest = slice_subrange(body, 3, body.len());
            proof {
                assert(rest@ =~= body@.skip(1).skip(2));
                assert(body@.skip(1)[0] == body@[1] && body@.skip(1)[1] == body@[2]);
            }
            parse_utf16(rest, true)
        } else if body.len() >= 3 && body[1] == 0xFE && body[2] == 0xFF {
            let rest = slice_subrange(body, 3, body.len());
            proof {
                assert(rest@ =~= body@.skip(1).skip(2));
                assert(body@.skip(1)[0] == body@[1] && body@.skip(1)[1] == body@[2]);
            }
            parse_utf16(rest, false)
        } else {
            proof {
                let rest = body@.skip(1);
                if rest.len() >= 2 {
                    assert(rest[0] == body@[1] && rest[1] == body@[2]);
                }
            }
            Err(FrameError::InvalidFrameData)
        }
    } else if marker == 2 {
        let rest = slice_subrange(body, 1, body.len());
        proof {
            assert(rest@ =~= body@.skip(1));
        }
        parse_utf16(rest, false)
    } else if marker == 3 {
        let rest = slice_to_vec(slice_subrange(body, 1, body.len()));
        proof {
            assert(rest@ =~= body@.skip(1));
        }
        match string_from_utf8(rest) {
            Some(s) => Ok(s),
            None => Err(FrameError::InvalidFrameData),
        }
    } else {
        Err(FrameError::InvalidFrameData)
    }
}

} // verus!
