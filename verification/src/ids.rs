//! The fixed, version-independent mapping between every ID3v2.2
//! 3-byte frame identifier and its ID3v2.3/v2.4 4-byte counterpart.
//! Frame types introduced after ID3v2.2 have no 3-byte form.

use vstd::prelude::*;

verus! {

/// A byte an identifier may contain: an ASCII capital letter or digit.
pub open spec fn is_id_byte(b: u8) -> bool {
    (0x41 <= b && b <= 0x5A) || (0x30 <= b && b <= 0x39)
}

/// A well-formed 4-byte identifier in its ID3v2.3/v2.4 form.
pub open spec fn valid_long_id(s: Seq<u8>) -> bool {
    s.len() == 4 && is_id_byte(s[0]) && is_id_byte(s[1]) && is_id_byte(s[2]) && is_id_byte(s[3])
}

/// The 4-byte identifier a 3-byte ID3v2.2 identifier stands for, if any.
pub open spec fn long_id(s: Seq<u8>) -> Option<Seq<u8>> {
    if s.len() != 3 {
        None
    } else if s[0] == 0x42 && s[1] == 0x55 && s[2] == 0x46 {
        Some(seq![0x52u8, 0x42u8, 0x55u8, 0x46u8])
    } else if s[0] == 0x43 && s[1] == 0x4E && s[2] == 0x54 {
        Some(seq![0x50u8, 0x43u8, 0x4Eu8, 0x54u8])
    } else if s[0] == 0x43 && s[1] == 0x4F && s[2] == 0x4D {
        Some(seq![0x43u8, 0x4Fu8, 0x4Du8, 0x4Du8])
    } else if s[0] == 0x43 && s[1] == 0x52 && s[2] == 0x41 {
        Some(seq![0x41u8, 0x45u8, 0x4Eu8, 0x43u8])
    } else if s[0] == 0x45 && s[1] == 0x54 && s[2] == 0x43 {
        Some(seq![0x45u8, 0x54u8, 0x43u8, 0x4Fu8])
    } else if s[0] == 0x45 && s[1] == 0x51 && s[2] == 0x55 {
        Some(seq![0x45u8, 0x51u8, 0x55u8, 0x41u8])
    } else if s[0] == 0x47 && s[1] == 0x45 && s[2] == 0x4F {
        Some(seq![0x47u8, 0x45u8, 0x4Fu8, 0x42u8])
    } else if s[0] == 0x49 && s[1] == 0x50 && s[2] == 0x4C {
        Some(seq![0x49u8, 0x50u8, 0x4Cu8, 0x53u8])
    } else if s[0] == 0x4C && s[1] == 0x4E && s[2] == 0x4B {
        Some(seq![0x4Cu8, 0x49u8, 0x4Eu8, 0x4Bu8])
    } else if s[0] == 0x4D && s[1] == 0x43 && s[2] == 0x49 {
        Some(seq![0x4Du8, 0x43u8, 0x44u8, 0x49u8])
    } else if s[0] == 0x4D && s[1] == 0x4C && s[2] == 0x4C {
        Some(seq![0x4Du8, 0x4Cu8, 0x4Cu8, 0x54u8])
    } else if s[0] == 0x50 && s[1] == 0x49 && s[2] == 0x43 {
        Some(seq![0x41u8, 0x50u8, 0x49u8, 0x43u8])
    } else if s[0] == 0x50 && s[1] == 0x4F && s[2] == 0x50 {
        Some(seq![0x50u8, 0x4Fu8, 0x50u8, 0x4Du8])
    } else if s[0] == 0x52 && s[1] == 0x45 && s[2] == 0x56 {
        Some(seq![0x52u8, 0x56u8, 0x52u8, 0x42u8])
    } else if s[0] == 0x52 && s[1] == 0x56 && s[2] == 0x41 {
        Some(seq![0x52u8, 0x56u8, 0x41u8, 0x44u8])
    } else if s[0] == 0x53 && s[1] == 0x4C && s[2] == 0x54 {
        Some(seq![0x53u8, 0x59u8, 0x4Cu8, 0x54u8])
    } else if s[0] == 0x53 && s[1] == 0x54 && s[2] == 0x43 {
        Some(seq![0x53u8, 0x59u8, 0x54u8, 0x43u8])
    } else if s[0] == 0x54 && s[1] == 0x41 && s[2] == 0x4C {
        Some(seq![0x54u8, 0x41u8, 0x4Cu8, 0x42u8])
    } else if s[0] == 0x54 && s[1] == 0x42 && s[2] == 0x50 {
        Some(seq![0x54u8, 0x42u8, 0x50u8, 0x4Du8])
    } else if s[0] == 0x54 && s[1] == 0x43 && s[2] == 0x4D {
        Some(seq![0x54u8, 0x43u8, 0x4Fu8, 0x4Du8])
    } else if s[0] == 0x54 && s[1] == 0x43 && s[2] == 0x4F {
        Some(seq![0x54u8, 0x43u8, 0x4Fu8, 0x4Eu8])
    } else if s[0] == 0x54 && s[1] == 0x43 && s[2] == 0x52 {
        Some(seq![0x54u8, 0x43u8, 0x4Fu8, 0x50u8])
    } else if s[0] == 0x54 && s[1] == 0x44 && s[2] == 0x41 {
        Some(seq![0x54u8, 0x44u8, 0x41u8, 0x54u8])
    } else if s[0] == 0x54 && s[1] == 0x44 && s[2] == 0x59 {
        Some(seq![0x54u8, 0x44u8, 0x4Cu8, 0x59u8])
    } else if s[0] == 0x54 && s[1] == 0x45 && s[2] == 0x4E {
        Some(seq![0x54u8, 0x45u8, 0x4Eu8, 0x43u8])
    } else if s[0] == 0x54 && s[1] == 0x46 && s[2] == 0x54 {
        Some(seq![0x54u8, 0x46u8, 0x4Cu8, 0x54u8])
    } else if s[0] == 0x54 && s[1] == 0x49 && s[2] == 0x4D {
        Some(seq![0x54u8, 0x49u8, 0x4Du8, 0x45u8])
    } else if s[0] == 0x54 && s[1] == 0x4B && s[2] == 0x45 {
        Some(seq![0x54u8, 0x4Bu8, 0x45u8, 0x59u8])
    } else if s[0] == 0x54 && s[1] == 0x4C && s[2] == 0x41 {
        Some(seq![0x54u8, 0x4Cu8, 0x41u8, 0x4Eu8])
    } else if s[0] == 0x54 && s[1] == 0x4C && s[2] == 0x45 {
        Some(seq![0x54u8, 0x4Cu8, 0x45u8, 0x4Eu8])
    } else if s[0] == 0x54 && s[1] == 0x4D && s[2] == 0x54 {
        Some(seq![0x54u8, 0x4Du8, 0x45u8, 0x44u8])
    } else if s[0] == 0x54 && s[1] == 0x4F && s[2] == 0x41 {
        Some(seq![0x54u8, 0x4Fu8, 0x50u8, 0x45u8])
    } else if s[0] == 0x54 && s[1] == 0x4F && s[2] == 0x46 {
        Some(seq![0x54u8, 0x4Fu8, 0x46u8, 0x4Eu8])
    } else if s[0] == 0x54 && s[1] == 0x4F && s[2] == 0x4C {
        Some(seq![0x54u8, 0x4Fu8, 0x4Cu8, 0x59u8])
    } else if s[0] == 0x54 && s[1] == 0x4F && s[2] == 0x52 {
        Some(seq![0x54u8, 0x4Fu8, 0x52u8, 0x59u8])
    } else if s[0] == 0x54 && s[1] == 0x4F && s[2] == 0x54 {
        Some(seq![0x54u8, 0x4Fu8, 0x41u8, 0x4Cu8])
    } else if s[0] == 0x54 && s[1] == 0x50 && s[2] == 0x31 {
        Some(seq![0x54u8, 0x50u8, 0x45u8, 0x31u8])
    } else if s[0] == 0x54 && s[1] == 0x50 && s[2] == 0x32 {
        Some(seq![0x54u8, 0x50u8, 0x45u8, 0x32u8])
    } else if s[0] == 0x54 && s[1] == 0x50 && s[2] == 0x33 {
        Some(seq![0x54u8, 0x50u8, 0x45u8, 0x33u8])
    } else if s[0] == 0x54 && s[1] == 0x50 && s[2] == 0x34 {
        Some(seq![0x54u8, 0x50u8, 0x45u8, 0x34u8])
    } else if s[0] == 0x54 && s[1] == 0x50 && s[2] == 0x41 {
        Some(seq![0x54u8, 0x50u8, 0x4Fu8, 0x53u8])
    } else if s[0] == 0x54 && s[1] == 0x50 && s[2] == 0x42 {
        Some(seq![0x54u8, 0x50u8, 0x55u8, 0x42u8])
    } else if s[0] == 0x54 && s[1] == 0x52 && s[2] == 0x43 {
        Some(seq![0x54u8, 0x53u8, 0x52u8, 0x43u8])
    } else if s[0] == 0x54 && s[1] == 0x52 && s[2] == 0x44 {
        Some(seq![0x54u8, 0x52u8, 0x44u8, 0x41u8])
    } else if s[0] == 0x54 && s[1] == 0x52 && s[2] == 0x4B {
        Some(seq![0x54u8, 0x52u8, 0x43u8, 0x4Bu8])
    } else if s[0] == 0x54 && s[1] == 0x53 && s[2] == 0x49 {
        Some(seq![0x54u8, 0x53u8, 0x49u8, 0x5Au8])
    } else if s[0] == 0x54 && s[1] == 0x53 && s[2] == 0x53 {
        Some(seq![0x54u8, 0x53u8, 0x53u8, 0x45u8])
    } else if s[0] == 0x54 && s[1] == 0x54 && s[2] == 0x31 {
        Some(seq![0x54u8, 0x49u8, 0x54u8, 0x31u8])
    } else if s[0] == 0x54 && s[1] == 0x54 && s[2] == 0x32 {
        Some(seq![0x54u8, 0x49u8, 0x54u8, 0x32u8])
    } else if s[0] == 0x54 && s[1] == 0x54 && s[2] == 0x33 {
        Some(seq![0x54u8, 0x49u8, 0x54u8, 0x33u8])
    } else if s[0] == 0x54 && s[1] == 0x58 && s[2] == 0x54 {
        Some(seq![0x54u8, 0x45u8, 0x58u8, 0x54u8])
    } else if s[0] == 0x54 && s[1] == 0x58 && s[2] == 0x58 {
        Some(seq![0x54u8, 0x58u8, 0x58u8, 0x58u8])
    } else if s[0] == 0x54 && s[1] == 0x59 && s[2] == 0x45 {
        Some(seq![0x54u8, 0x59u8, 0x45u8, 0x52u8])
    } else if s[0] == 0x55 && s[1] == 0x46 && s[2] == 0x49 {
        Some(seq![0x55u8, 0x46u8, 0x49u8, 0x44u8])
    } else if s[0] == 0x55 && s[1] == 0x4C && s[2] == 0x54 {
        Some(seq![0x55u8, 0x53u8, 0x4Cu8, 0x54u8])
    } else if s[0] == 0x57 && s[1] == 0x41 && s[2] == 0x46 {
        Some(seq![0x57u8, 0x4Fu8, 0x41u8, 0x46u8])
    } else if s[0] == 0x57 && s[1] == 0x41 && s[2] == 0x52 {
        Some(seq![0x57u8, 0x4Fu8, 0x41u8, 0x52u8])
    } else if s[0] == 0x57 && s[1] == 0x41 && s[2] == 0x53 {
        Some(seq![0x57u8, 0x4Fu8, 0x41u8, 0x53u8])
    } else if s[0] == 0x57 && s[1] == 0x43 && s[2] == 0x4D {
        Some(seq![0x57u8, 0x43u8, 0x4Fu8, 0x4Du8])
    } else if s[0] == 0x57 && s[1] == 0x43 && s[2] == 0x50 {
        Some(seq![0x57u8, 0x43u8, 0x4Fu8, 0x50u8])
    } else if s[0] == 0x57 && s[1] == 0x50 && s[2] == 0x42 {
        Some(seq![0x57u8, 0x50u8, 0x55u8, 0x42u8])
    } else if s[0] == 0x57 && s[1] == 0x58 && s[2] == 0x58 {
        Some(seq![0x57u8, 0x58u8, 0x58u8, 0x58u8])
    } else {
        None
    }
}

/// The 3-byte ID3v2.2 identifier a 4-byte identifier shortens to, if any.
pub open spec fn short_id(s: Seq<u8>) -> Option<Seq<u8>> {
    if s.len() != 4 {
        None
    } else if s[0] == 0x52 && s[1] == 0x42 && s[2] == 0x55 && s[3] == 0x46 {
        Some(seq![0x42u8, 0x55u8, 0x46u8])
    } else if s[0] == 0x50 && s[1] == 0x43 && s[2] == 0x4E && s[3] == 0x54 {
        Some(seq![0x43u8, 0x4Eu8, 0x54u8])
    } else if s[0] == 0x43 && s[1] == 0x4F && s[2] == 0x4D && s[3] == 0x4D {
        Some(seq![0x43u8, 0x4Fu8, 0x4Du8])
    } else if s[0] == 0x41 && s[1] == 0x45 && s[2] == 0x4E && s[3] == 0x43 {
        Some(seq![0x43u8, 0x52u8, 0x41u8])
    } else if s[0] == 0x45 && s[1] == 0x54 && s[2] == 0x43 && s[3] == 0x4F {
        Some(seq![0x45u8, 0x54u8, 0x43u8])
    } else if s[0] == 0x45 && s[1] == 0x51 && s[2] == 0x55 && s[3] == 0x41 {
        Some(seq![0x45u8, 0x51u8, 0x55u8])
    } else if s[0] == 0x47 && s[1] == 0x45 && s[2] == 0x4F && s[3] == 0x42 {
        Some(seq![0x47u8, 0x45u8, 0x4Fu8])
    } else if s[0] == 0x49 && s[1] == 0x50 && s[2] == 0x4C && s[3] == 0x53 {
        Some(seq![0x49u8, 0x50u8, 0x4Cu8])
    } else if s[0] == 0x4C && s[1] == 0x49 && s[2] == 0x4E && s[3] == 0x4B {
        Some(seq![0x4Cu8, 0x4Eu8, 0x4Bu8])
    } else if s[0] == 0x4D && s[1] == 0x43 && s[2] == 0x44 && s[3] == 0x49 {
        Some(seq![0x4Du8, 0x43u8, 0x49u8])
    } else if s[0] == 0x4D && s[1] == 0x4C && s[2] == 0x4C && s[3] == 0x54 {
        Some(seq![0x4Du8, 0x4Cu8, 0x4Cu8])
    } else if s[0] == 0x41 && s[1] == 0x50 && s[2] == 0x49 && s[3] == 0x43 {
        Some(seq![0x50u8, 0x49u8, 0x43u8])
    } else if s[0] == 0x50 && s[1] == 0x4F && s[2] == 0x50 && s[3] == 0x4D {
        Some(seq![0x50u8, 0x4Fu8, 0x50u8])
    } else if s[0] == 0x52 && s[1] == 0x56 && s[2] == 0x52 && s[3] == 0x42 {
        Some(seq![0x52u8, 0x45u8, 0x56u8])
    } else if s[0] == 0x52 && s[1] == 0x56 && s[2] == 0x41 && s[3] == 0x44 {
        Some(seq![0x52u8, 0x56u8, 0x41u8])
    } else if s[0] == 0x53 && s[1] == 0x59 && s[2] == 0x4C && s[3] == 0x54 {
        Some(seq![0x53u8, 0x4Cu8, 0x54u8])
    } else if s[0] == 0x53 && s[1] == 0x59 && s[2] == 0x54 && s[3] == 0x43 {
        Some(seq![0x53u8, 0x54u8, 0x43u8])
    } else if s[0] == 0x54 && s[1] == 0x41 && s[2] == 0x4C && s[3] == 0x42 {
        Some(seq![0x54u8, 0x41u8, 0x4Cu8])
    } else if s[0] == 0x54 && s[1] == 0x42 && s[2] == 0x50 && s[3] == 0x4D {
        Some(seq![0x54u8, 0x42u8, 0x50u8])
    } else if s[0] == 0x54 && s[1] == 0x43 && s[2] == 0x4F && s[3] == 0x4D {
        Some(seq![0x54u8, 0x43u8, 0x4Du8])
    } else if s[0] == 0x54 && s[1] == 0x43 && s[2] == 0x4F && s[3] == 0x4E {
        Some(seq![0x54u8, 0x43u8, 0x4Fu8])
    } else if s[0] == 0x54 && s[1] == 0x43 && s[2] == 0x4F && s[3] == 0x50 {
        Some(seq![0x54u8, 0x43u8, 0x52u8])
    } else if s[0] == 0x54 && s[1] == 0x44 && s[2] == 0x41 && s[3] == 0x54 {
        Some(seq![0x54u8, 0x44u8, 0x41u8])
    } else if s[0] == 0x54 && s[1] == 0x44 && s[2] == 0x4C && s[3] == 0x59 {
        Some(seq![0x54u8, 0x44u8, 0x59u8])
    } else if s[0] == 0x54 && s[1] == 0x45 && s[2] == 0x4E && s[3] == 0x43 {
        Some(seq![0x54u8, 0x45u8, 0x4Eu8])
    } else if s[0] == 0x54 && s[1] == 0x46 && s[2] == 0x4C && s[3] == 0x54 {
        Some(seq![0x54u8, 0x46u8, 0x54u8])
    } else if s[0] == 0x54 && s[1] == 0x49 && s[2] == 0x4D && s[3] == 0x45 {
        Some(seq![0x54u8, 0x49u8, 0x4Du8])
    } else if s[0] == 0x54 && s[1] == 0x4B && s[2] == 0x45 && s[3] == 0x59 {
        Some(seq![0x54u8, 0x4Bu8, 0x45u8])
    } else if s[0] == 0x54 && s[1] == 0x4C && s[2] == 0x41 && s[3] == 0x4E {
        Some(seq![0x54u8, 0x4Cu8, 0x41u8])
    } else if s[0] == 0x54 && s[1] == 0x4C && s[2] == 0x45 && s[3] == 0x4E {
        Some(seq![0x54u8, 0x4Cu8, 0x45u8])
    } else if s[0] == 0x54 && s[1] == 0x4D && s[2] == 0x45 && s[3] == 0x44 {
        Some(seq![0x54u8, 0x4Du8, 0x54u8])
    } else if s[0] == 0x54 && s[1] == 0x4F && s[2] == 0x50 && s[3] == 0x45 {
        Some(seq![0x54u8, 0x4Fu8, 0x41u8])
    } else if s[0] == 0x54 && s[1] == 0x4F && s[2] == 0x46 && s[3] == 0x4E {
        Some(seq![0x54u8, 0x4Fu8, 0x46u8])
    } else if s[0] == 0x54 && s[1] == 0x4F && s[2] == 0x4C && s[3] == 0x59 {
        Some(seq![0x54u8, 0x4Fu8, 0x4Cu8])
    } else if s[0] == 0x54 && s[1] == 0x4F && s[2] == 0x52 && s[3] == 0x59 {
        Some(seq![0x54u8, 0x4Fu8, 0x52u8])
    } else if s[0] == 0x54 && s[1] == 0x4F && s[2] == 0x41 && s[3] == 0x4C {
        Some(seq![0x54u8, 0x4Fu8, 0x54u8])
    } else if s[0] == 0x54 && s[1] == 0x50 && s[2] == 0x45 && s[3] == 0x31 {
        Some(seq![0x54u8, 0x50u8, 0x31u8])
    } else if s[0] == 0x54 && s[1] == 0x50 && s[2] == 0x45 && s[3] == 0x32 {
        Some(seq![0x54u8, 0x50u8, 0x32u8])
    } else if s[0] == 0x54 && s[1] == 0x50 && s[2] == 0x45 && s[3] == 0x33 {
        Some(seq![0x54u8, 0x50u8, 0x33u8])
    } else if s[0] == 0x54 && s[1] == 0x50 && s[2] == 0x45 && s[3] == 0x34 {
        Some(seq![0x54u8, 0x50u8, 0x34u8])
    } else if s[0] == 0x54 && s[1] == 0x50 && s[2] == 0x4F && s[3] == 0x53 {
        Some(seq![0x54u8, 0x50u8, 0x41u8])
    } else if s[0] == 0x54 && s[1] == 0x50 && s[2] == 0x55 && s[3] == 0x42 {
        Some(seq![0x54u8, 0x50u8, 0x42u8])
    } else if s[0] == 0x54 && s[1] == 0x53 && s[2] == 0x52 && s[3] == 0x43 {
        Some(seq![0x54u8, 0x52u8, 0x43u8])
    } else if s[0] == 0x54 && s[1] == 0x52 && s[2] == 0x44 && s[3] == 0x41 {
        Some(seq![0x54u8, 0x52u8, 0x44u8])
    } else if s[0] == 0x54 && s[1] == 0x52 && s[2] == 0x43 && s[3] == 0x4B {
        Some(seq![0x54u8, 0x52u8, 0x4Bu8])
    } else if s[0] == 0x54 && s[1] == 0x53 && s[2] == 0x49 && s[3] == 0x5A {
        Some(seq![0x54u8, 0x53u8, 0x49u8])
    } else if s[0] == 0x54 && s[1] == 0x53 && s[2] == 0x53 && s[3] == 0x45 {
        Some(seq![0x54u8, 0x53u8, 0x53u8])
    } else if s[0] == 0x54 && s[1] == 0x49 && s[2] == 0x54 && s[3] == 0x31 {
        Some(seq![0x54u8, 0x54u8, 0x31u8])
    } else if s[0] == 0x54 && s[1] == 0x49 && s[2] == 0x54 && s[3] == 0x32 {
        Some(seq![0x54u8, 0x54u8, 0x32u8])
    } else if s[0] == 0x54 && s[1] == 0x49 && s[2] == 0x54 && s[3] == 0x33 {
        Some(seq![0x54u8, 0x54u8, 0x33u8])
    } else if s[0] == 0x54 && s[1] == 0x45 && s[2] == 0x58 && s[3] == 0x54 {
        Some(seq![0x54u8, 0x58u8, 0x54u8])
    } else if s[0] == 0x54 && s[1] == 0x58 && s[2] == 0x58 && s[3] == 0x58 {
        Some(seq![0x54u8, 0x58u8, 0x58u8])
    } else if s[0] == 0x54 && s[1] == 0x59 && s[2] == 0x45 && s[3] == 0x52 {
        Some(seq![0x54u8, 0x59u8, 0x45u8])
    } else if s[0] == 0x55 && s[1] == 0x46 && s[2] == 0x49 && s[3] == 0x44 {
        Some(seq![0x55u8, 0x46u8, 0x49u8])
    } else if s[0] == 0x55 && s[1] == 0x53 && s[2] == 0x4C && s[3] == 0x54 {
        Some(seq![0x55u8, 0x4Cu8, 0x54u8])
    } else if s[0] == 0x57 && s[1] == 0x4F && s[2] == 0x41 && s[3] == 0x46 {
        Some(seq![0x57u8, 0x41u8, 0x46u8])
    } else if s[0] == 0x57 && s[1] == 0x4F && s[2] == 0x41 && s[3] == 0x52 {
        Some(seq![0x57u8, 0x41u8, 0x52u8])
    } else if s[0] == 0x57 && s[1] == 0x4F && s[2] == 0x41 && s[3] == 0x53 {
        Some(seq![0x57u8, 0x41u8, 0x53u8])
    } else if s[0] == 0x57 && s[1] == 0x43 && s[2] == 0x4F && s[3] == 0x4D {
        Some(seq![0x57u8, 0x43u8, 0x4Du8])
    } else if s[0] == 0x57 && s[1] == 0x43 && s[2] == 0x4F && s[3] == 0x50 {
        Some(seq![0x57u8, 0x43u8, 0x50u8])
    } else if s[0] == 0x57 && s[1] == 0x50 && s[2] == 0x55 && s[3] == 0x42 {
        Some(seq![0x57u8, 0x50u8, 0x42u8])
    } else if s[0] == 0x57 && s[1] == 0x58 && s[2] == 0x58 && s[3] == 0x58 {
        Some(seq![0x57u8, 0x58u8, 0x58u8])
    } else {
        None
    }
}

/// Every 4-byte identifier the table produces is well formed.
pub proof fn lemma_long_id_valid(s: Seq<u8>)
    ensures
        long_id(s) matches Some(t) ==> valid_long_id(t),
{
}

/// Looks up the 4-byte counterpart of a 3-byte identifier.
pub fn to_long_id(id: &[u8]) -> (r: Option<[u8; 4]>)
    requires
        id@.len() == 3,
    ensures
        match r {
            Some(x) => long_id(id@) == Some(x@),
            None => long_id(id@) is None,
        },
{
    let a = id[0];
    let b = id[1];
    let c = id[2];
    if false {
        None
    } else if a == 0x42 && b == 0x55 && c == 0x46 {
        Some([0x52, 0x42, 0x55, 0x46])
    } else if a == 0x43 && b == 0x4E && c == 0x54 {
        Some([0x50, 0x43, 0x4E, 0x54])
    } else if a == 0x43 && b == 0x4F && c == 0x4D {
        Some([0x43, 0x4F, 0x4D, 0x4D])
    } else if a == 0x43 && b == 0x52 && c == 0x41 {
        Some([0x41, 0x45, 0x4E, 0x43])
    } else if a == 0x45 && b == 0x54 && c == 0x43 {
        Some([0x45, 0x54, 0x43, 0x4F])
    } else if a == 0x45 && b == 0x51 && c == 0x55 {
        Some([0x45, 0x51, 0x55, 0x41])
    } else if a == 0x47 && b == 0x45 && c == 0x4F {
        Some([0x47, 0x45, 0x4F, 0x42])
    } else if a == 0x49 && b == 0x50 && c == 0x4C {
        Some([0x49, 0x50, 0x4C, 0x53])
    } else if a == 0x4C && b == 0x4E && c == 0x4B {
        Some([0x4C, 0x49, 0x4E, 0x4B])
    } else if a == 0x4D && b == 0x43 && c == 0x49 {
        Some([0x4D, 0x43, 0x44, 0x49])
    } else if a == 0x4D && b == 0x4C && c == 0x4C {
        Some([0x4D, 0x4C, 0x4C, 0x54])
    } else if a == 0x50 && b == 0x49 && c == 0x43 {
        Some([0x41, 0x50, 0x49, 0x43])
    } else if a == 0x50 && b == 0x4F && c == 0x50 {
        Some([0x50, 0x4F, 0x50, 0x4D])
    } else if a == 0x52 && b == 0x45 && c == 0x56 {
        Some([0x52, 0x56, 0x52, 0x42])
    } else if a == 0x52 && b == 0x56 && c == 0x41 {
        Some([0x52, 0x56, 0x41, 0x44])
    } else if a == 0x53 && b == 0x4C && c == 0x54 {
        Some([0x53, 0x59, 0x4C, 0x54])
    } else if a == 0x53 && b == 0x54 && c == 0x43 {
        Some([0x53, 0x59, 0x54, 0x43])
    } else if a == 0x54 && b == 0x41 && c == 0x4C {
        Some([0x54, 0x41, 0x4C, 0x42])
    } else if a == 0x54 && b == 0x42 && c == 0x50 {
        Some([0x54, 0x42, 0x50, 0x4D])
    } else if a == 0x54 && b == 0x43 && c == 0x4D {
        Some([0x54, 0x43, 0x4F, 0x4D])
    } else if a == 0x54 && b == 0x43 && c == 0x4F {
        Some([0x54, 0x43, 0x4F, 0x4E])
    } else if a == 0x54 && b == 0x43 && c == 0x52 {
        Some([0x54, 0x43, 0x4F, 0x50])
    } else if a == 0x54 && b == 0x44 && c == 0x41 {
        Some([0x54, 0x44, 0x41, 0x54])
    } else if a == 0x54 && b == 0x44 && c == 0x59 {
        Some([0x54, 0x44, 0x4C, 0x59])
    } else if a == 0x54 && b == 0x45 && c == 0x4E {
        Some([0x54, 0x45, 0x4E, 0x43])
    } else if a == 0x54 && b == 0x46 && c == 0x54 {
        Some([0x54, 0x46, 0x4C, 0x54])
    } else if a == 0x54 && b == 0x49 && c == 0x4D {
        Some([0x54, 0x49, 0x4D, 0x45])
    } else if a == 0x54 && b == 0x4B && c == 0x45 {
        Some([0x54, 0x4B, 0x45, 0x59])
    } else if a == 0x54 && b == 0x4C && c == 0x41 {
        Some([0x54, 0x4C, 0x41, 0x4E])
    } else if a == 0x54 && b == 0x4C && c == 0x45 {
        Some([0x54, 0x4C, 0x45, 0x4E])
    } else if a == 0x54 && b == 0x4D && c == 0x54 {
        Some([0x54, 0x4D, 0x45, 0x44])
    } else if a == 0x54 && b == 0x4F && c == 0x41 {
        Some([0x54, 0x4F, 0x50, 0x45])
    } else if a == 0x54 && b == 0x4F && c == 0x46 {
        Some([0x54, 0x4F, 0x46, 0x4E])
    } else if a == 0x54 && b == 0x4F && c == 0x4C {
        Some([0x54, 0x4F, 0x4C, 0x59])
    } else if a == 0x54 && b == 0x4F && c == 0x52 {
        Some([0x54, 0x4F, 0x52, 0x59])
    } else if a == 0x54 && b == 0x4F && c == 0x54 {
        Some([0x54, 0x4F, 0x41, 0x4C])
    } else if a == 0x54 && b == 0x50 && c == 0x31 {
        Some([0x54, 0x50, 0x45, 0x31])
    } else if a == 0x54 && b == 0x50 && c == 0x32 {
        Some([0x54, 0x50, 0x45, 0x32])
    } else if a == 0x54 && b == 0x50 && c == 0x33 {
        Some([0x54, 0x50, 0x45, 0x33])
    } else if a == 0x54 && b == 0x50 && c == 0x34 {
        Some([0x54, 0x50, 0x45, 0x34])
    } else if a == 0x54 && b == 0x50 && c == 0x41 {
        Some([0x54, 0x50, 0x4F, 0x53])
    } else if a == 0x54 && b == 0x50 && c == 0x42 {
        Some([0x54, 0x50, 0x55, 0x42])
    } else if a == 0x54 && b == 0x52 && c == 0x43 {
        Some([0x54, 0x53, 0x52, 0x43])
    } else if a == 0x54 && b == 0x52 && c == 0x44 {
        Some([0x54, 0x52, 0x44, 0x41])
    } else if a == 0x54 && b == 0x52 && c == 0x4B {
        Some([0x54, 0x52, 0x43, 0x4B])
    } else if a == 0x54 && b == 0x53 && c == 0x49 {
        Some([0x54, 0x53, 0x49, 0x5A])
    } else if a == 0x54 && b == 0x53 && c == 0x53 {
        Some([0x54, 0x53, 0x53, 0x45])
    } else if a == 0x54 && b == 0x54 && c == 0x31 {
        Some([0x54, 0x49, 0x54, 0x31])
    } else if a == 0x54 && b == 0x54 && c == 0x32 {
        Some([0x54, 0x49, 0x54, 0x32])
    } else if a == 0x54 && b == 0x54 && c == 0x33 {
        Some([0x54, 0x49, 0x54, 0x33])
    } else if a == 0x54 && b == 0x58 && c == 0x54 {
        Some([0x54, 0x45, 0x58, 0x54])
    } else if a == 0x54 && b == 0x58 && c == 0x58 {
        Some([0x54, 0x58, 0x58, 0x58])
    } else if a == 0x54 && b == 0x59 && c == 0x45 {
        Some([0x54, 0x59, 0x45, 0x52])
    } else if a == 0x55 && b == 0x46 && c == 0x49 {
        Some([0x55, 0x46, 0x49, 0x44])
    } else if a == 0x55 && b == 0x4C && c == 0x54 {
        Some([0x55, 0x53, 0x4C, 0x54])
    } else if a == 0x57 && b == 0x41 && c == 0x46 {
        Some([0x57, 0x4F, 0x41, 0x46])
    } else if a == 0x57 && b == 0x41 && c == 0x52 {
        Some([0x57, 0x4F, 0x41, 0x52])
    } else if a == 0x57 && b == 0x41 && c == 0x53 {
        Some([0x57, 0x4F, 0x41, 0x53])
    } else if a == 0x57 && b == 0x43 && c == 0x4D {
        Some([0x57, 0x43, 0x4F, 0x4D])
    } else if a == 0x57 && b == 0x43 && c == 0x50 {
        Some([0x57, 0x43, 0x4F, 0x50])
    } else if a == 0x57 && b == 0x50 && c == 0x42 {
        Some([0x57, 0x50, 0x55, 0x42])
    } else if a == 0x57 && b == 0x58 && c == 0x58 {
        Some([0x57, 0x58, 0x58, 0x58])
    } else {
        None
    }
}

/// Looks up the 3-byte ID3v2.2 counterpart of a 4-byte identifier.
pub fn to_short_id(id: &[u8; 4]) -> (r: Option<[u8; 3]>)
    ensures
        match r {
            Some(x) => short_id(id@) == Some(x@),
            None => short_id(id@) is None,
        },
{
    let a = id[0];
    let b = id[1];
    let c = id[2];
    let d = id[3];
    if false {
        None
    } else if a == 0x52 && b == 0x42 && c == 0x55 && d == 0x46 {
        Some([0x42, 0x55, 0x46])
    } else if a == 0x50 && b == 0x43 && c == 0x4E && d == 0x54 {
        Some([0x43, 0x4E, 0x54])
    } else if a == 0x43 && b == 0x4F && c == 0x4D && d == 0x4D {
        Some([0x43, 0x4F, 0x4D])
    } else if a == 0x41 && b == 0x45 && c == 0x4E && d == 0x43 {
        Some([0x43, 0x52, 0x41])
    } else if a == 0x45 && b == 0x54 && c == 0x43 && d == 0x4F {
        Some([0x45, 0x54, 0x43])
    } else if a == 0x45 && b == 0x51 && c == 0x55 && d == 0x41 {
        Some([0x45, 0x51, 0x55])
    } else if a == 0x47 && b == 0x45 && c == 0x4F && d == 0x42 {
        Some([0x47, 0x45, 0x4F])
    } else if a == 0x49 && b == 0x50 && c == 0x4C && d == 0x53 {
        Some([0x49, 0x50, 0x4C])
    } else if a == 0x4C && b == 0x49 && c == 0x4E && d == 0x4B {
        Some([0x4C, 0x4E, 0x4B])
    } else if a == 0x4D && b == 0x43 && c == 0x44 && d == 0x49 {
        Some([0x4D, 0x43, 0x49])
    } else if a == 0x4D && b == 0x4C && c == 0x4C && d == 0x54 {
        Some([0x4D, 0x4C, 0x4C])
    } else if a == 0x41 && b == 0x50 && c == 0x49 && d == 0x43 {
        Some([0x50, 0x49, 0x43])
    } else if a == 0x50 && b == 0x4F && c == 0x50 && d == 0x4D {
        Some([0x50, 0x4F, 0x50])
    } else if a == 0x52 && b == 0x56 && c == 0x52 && d == 0x42 {
        Some([0x52, 0x45, 0x56])
    } else if a == 0x52 && b == 0x56 && c == 0x41 && d == 0x44 {
        Some([0x52, 0x56, 0x41])
    } else if a == 0x53 && b == 0x59 && c == 0x4C && d == 0x54 {
        Some([0x53, 0x4C, 0x54])
    } else if a == 0x53 && b == 0x59 && c == 0x54 && d == 0x43 {
        Some([0x53, 0x54, 0x43])
    } else if a == 0x54 && b == 0x41 && c == 0x4C && d == 0x42 {
        Some([0x54, 0x41, 0x4C])
    } else if a == 0x54 && b == 0x42 && c == 0x50 && d == 0x4D {
        Some([0x54, 0x42, 0x50])
    } else if a == 0x54 && b == 0x43 && c == 0x4F && d == 0x4D {
        Some([0x54, 0x43, 0x4D])
    } else if a == 0x54 && b == 0x43 && c == 0x4F && d == 0x4E {
        Some([0x54, 0x43, 0x4F])
    } else if a == 0x54 && b == 0x43 && c == 0x4F && d == 0x50 {
        Some([0x54, 0x43, 0x52])
    } else if a == 0x54 && b == 0x44 && c == 0x41 && d == 0x54 {
        Some([0x54, 0x44, 0x41])
    } else if a == 0x54 && b == 0x44 && c == 0x4C && d == 0x59 {
        Some([0x54, 0x44, 0x59])
    } else if a == 0x54 && b == 0x45 && c == 0x4E && d == 0x43 {
        Some([0x54, 0x45, 0x4E])
    } else if a == 0x54 && b == 0x46 && c == 0x4C && d == 0x54 {
        Some([0x54, 0x46, 0x54])
    } else if a == 0x54 && b == 0x49 && c == 0x4D && d == 0x45 {
        Some([0x54, 0x49, 0x4D])
    } else if a == 0x54 && b == 0x4B && c == 0x45 && d == 0x59 {
        Some([0x54, 0x4B, 0x45])
    } else if a == 0x54 && b == 0x4C && c == 0x41 && d == 0x4E {
        Some([0x54, 0x4C, 0x41])
    } else if a == 0x54 && b == 0x4C && c == 0x45 && d == 0x4E {
        Some([0x54, 0x4C, 0x45])
    } else if a == 0x54 && b == 0x4D && c == 0x45 && d == 0x44 {
        Some([0x54, 0x4D, 0x54])
    } else if a == 0x54 && b == 0x4F && c == 0x50 && d == 0x45 {
        Some([0x54, 0x4F, 0x41])
    } else if a == 0x54 && b == 0x4F && c == 0x46 && d == 0x4E {
        Some([0x54, 0x4F, 0x46])
    } else if a == 0x54 && b == 0x4F && c == 0x4C && d == 0x59 {
        Some([0x54, 0x4F, 0x4C])
    } else if a == 0x54 && b == 0x4F && c == 0x52 && d == 0x59 {
        Some([0x54, 0x4F, 0x52])
    } else if a == 0x54 && b == 0x4F && c == 0x41 && d == 0x4C {
        Some([0x54, 0x4F, 0x54])
    } else if a == 0x54 && b == 0x50 && c == 0x45 && d == 0x31 {
        Some([0x54, 0x50, 0x31])
    } else if a == 0x54 && b == 0x50 && c == 0x45 && d == 0x32 {
        Some([0x54, 0x50, 0x32])
    } else if a == 0x54 && b == 0x50 && c == 0x45 && d == 0x33 {
        Some([0x54, 0x50, 0x33])
    } else if a == 0x54 && b == 0x50 && c == 0x45 && d == 0x34 {
        Some([0x54, 0x50, 0x34])
    } else if a == 0x54 && b == 0x50 && c == 0x4F && d == 0x53 {
        Some([0x54, 0x50, 0x41])
    } else if a == 0x54 && b == 0x50 && c == 0x55 && d == 0x42 {
        Some([0x54, 0x50, 0x42])
    } else if a == 0x54 && b == 0x53 && c == 0x52 && d == 0x43 {
        Some([0x54, 0x52, 0x43])
    } else if a == 0x54 && b == 0x52 && c == 0x44 && d == 0x41 {
        Some([0x54, 0x52, 0x44])
    } else if a == 0x54 && b == 0x52 && c == 0x43 && d == 0x4B {
        Some([0x54, 0x52, 0x4B])
    } else if a == 0x54 && b == 0x53 && c == 0x49 && d == 0x5A {
        Some([0x54, 0x53, 0x49])
    } else if a == 0x54 && b == 0x53 && c == 0x53 && d == 0x45 {
        Some([0x54, 0x53, 0x53])
    } else if a == 0x54 && b == 0x49 && c == 0x54 && d == 0x31 {
        Some([0x54, 0x54, 0x31])
    } else if a == 0x54 && b == 0x49 && c == 0x54 && d == 0x32 {
        Some([0x54, 0x54, 0x32])
    } else if a == 0x54 && b == 0x49 && c == 0x54 && d == 0x33 {
        Some([0x54, 0x54, 0x33])
    } else if a == 0x54 && b == 0x45 && c == 0x58 && d == 0x54 {
        Some([0x54, 0x58, 0x54])
    } else if a == 0x54 && b == 0x58 && c == 0x58 && d == 0x58 {
        Some([0x54, 0x58, 0x58])
    } else if a == 0x54 && b == 0x59 && c == 0x45 && d == 0x52 {
        Some([0x54, 0x59, 0x45])
    } else if a == 0x55 && b == 0x46 && c == 0x49 && d == 0x44 {
        Some([0x55, 0x46, 0x49])
    } else if a == 0x55 && b == 0x53 && c == 0x4C && d == 0x54 {
        Some([0x55, 0x4C, 0x54])
    } else if a == 0x57 && b == 0x4F && c == 0x41 && d == 0x46 {
        Some([0x57, 0x41, 0x46])
    } else if a == 0x57 && b == 0x4F && c == 0x41 && d == 0x52 {
        Some([0x57, 0x41, 0x52])
    } else if a == 0x57 && b == 0x4F && c == 0x41 && d == 0x53 {
        Some([0x57, 0x41, 0x53])
    } else if a == 0x57 && b == 0x43 && c == 0x4F && d == 0x4D {
        Some([0x57, 0x43, 0x4D])
    } else if a == 0x57 && b == 0x43 && c == 0x4F && d == 0x50 {
        Some([0x57, 0x43, 0x50])
    } else if a == 0x57 && b == 0x50 && c == 0x55 && d == 0x42 {
        Some([0x57, 0x50, 0x42])
    } else if a == 0x57 && b == 0x58 && c == 0x58 && d == 0x58 {
        Some([0x57, 0x58, 0x58])
    } else {
        None
    }
}


/// Every 3-byte identifier the table produces is ASCII.
pub proof fn lemma_short_id_valid(s: Seq<u8>)
    ensures
        short_id(s) matches Some(t) ==> t.len() == 3 && is_id_byte(t[0]) && is_id_byte(t[1])
            && is_id_byte(t[2]),
{
}


/// The table is one-to-one: a 4-byte identifier that shortens maps back
/// to itself.
pub proof fn lemma_short_id_long_id(s: Seq<u8>)
    ensures
        short_id(s) matches Some(t) ==> long_id(t) == Some(s),
{
    match short_id(s) {
        Some(t) => {
            assert(long_id(t) matches Some(u) && u =~= s);
        },
        None => {},
    }
}

} // verus!
