//! The per-frame boolean switches and their version-specific bit layouts.
//!
//! ID3v2.2 predates per-frame flags and has no flag bytes at all; ID3v2.3
//! and ID3v2.4 each write two flag bytes, with different bit positions.

use vstd::prelude::*;

verus! {

/// The boolean switches a frame carries. The last two are meaningful
/// only from ID3v2.4 onward.
#[derive(Clone, Copy, PartialEq, Eq, Structural, Debug)]
pub struct Flags {
    pub tag_alter_preservation: bool,
    pub file_alter_preservation: bool,
    pub read_only: bool,
    pub compression: bool,
    pub encryption: bool,
    pub grouping_identity: bool,
    pub unsynchronization: bool,
    pub data_length_indicator: bool,
}

/// The all-false flag set every new frame starts with.
pub open spec fn flags_none() -> Flags {
    Flags {
        tag_alter_preservation: false,
        file_alter_preservation: false,
        read_only: false,
        compression: false,
        encryption: false,
        grouping_identity: false,
        unsynchronization: false,
        data_length_indicator: false,
    }
}

/// First ID3v2.3 flag byte: tag-alter 0x80, file-alter 0x40, read-only 0x20.
pub open spec fn v3_byte1(f: Flags) -> u8 {
    ((if f.tag_alter_preservation {
        0x80int
    } else {
        0int
    }) + (if f.file_alter_preservation {
        0x40int
    } else {
        0int
    }) + (if f.read_only {
        0x20int
    } else {
        0int
    })) as u8
}

/// Second ID3v2.3 flag byte: compression 0x80, encryption 0x40,
/// grouping-identity 0x20.
pub open spec fn v3_byte2(f: Flags) -> u8 {
    ((if f.compression {
        0x80int
    } else {
        0int
    }) + (if f.encryption {
        0x40int
    } else {
        0int
    }) + (if f.grouping_identity {
        0x20int
    } else {
        0int
    })) as u8
}

/// First ID3v2.4 flag byte: tag-alter 0x40, file-alter 0x20, read-only 0x10.
pub open spec fn v4_byte1(f: Flags) -> u8 {
    ((if f.tag_alter_preservation {
        0x40int
    } else {
        0int
    }) + (if f.file_alter_preservation {
        0x20int
    } else {
        0int
    }) + (if f.read_only {
        0x10int
    } else {
        0int
    })) as u8
}

/// Second ID3v2.4 flag byte: grouping-identity 0x40, compression 0x08,
/// encryption 0x04, unsynchronization 0x02, data-length-indicator 0x01.
pub open spec fn v4_byte2(f: Flags) -> u8 {
    ((if f.grouping_identity {
        0x40int
    } else {
        0int
    }) + (if f.compression {
        0x08int
    } else {
        0int
    }) + (if f.encryption {
        0x04int
    } else {
        0int
    }) + (if f.unsynchronization {
        0x02int
    } else {
        0int
    }) + (if f.data_length_indicator {
        0x01int
    } else {
        0int
    })) as u8
}

/// Whether the bit selected by the power of two `m` is set in `b`.
pub open spec fn bit_set(b: u8, m: u8) -> bool {
    b as int / m as int % 2 == 1
}

/// The flags read back from the two ID3v2.3 flag bytes; bits that have
/// no ID3v2.3 meaning are ignored.
pub open spec fn flags_of_v3_bytes(b1: u8, b2: u8) -> Flags {
    Flags {
        tag_alter_preservation: bit_set(b1, 0x80),
        file_alter_preservation: bit_set(b1, 0x40),
        read_only: bit_set(b1, 0x20),
        compression: bit_set(b2, 0x80),
        encryption: bit_set(b2, 0x40),
        grouping_identity: bit_set(b2, 0x20),
        unsynchronization: false,
        data_length_indicator: false,
    }
}

/// The flags read back from the two ID3v2.4 flag bytes.
pub open spec fn flags_of_v4_bytes(b1: u8, b2: u8) -> Flags {
    Flags {
        tag_alter_preservation: bit_set(b1, 0x40),
        file_alter_preservation: bit_set(b1, 0x20),
        read_only: bit_set(b1, 0x10),
        compression: bit_set(b2, 0x08),
        encryption: bit_set(b2, 0x04),
        grouping_identity: bit_set(b2, 0x40),
        unsynchronization: bit_set(b2, 0x02),
        data_length_indicator: bit_set(b2, 0x01),
    }
}

impl Flags {
    /// A flag set with every switch off.
    pub fn new() -> (r: Flags)
        ensures
            r == flags_none(),
    {
        Flags {
            tag_alter_preservation: false,
            file_alter_preservation: false,
            read_only: false,
            compression: false,
            encryption: false,
            grouping_identity: false,
            unsynchronization: false,
            data_length_indicator: false,
        }
    }

    /// The flag bytes written for the given major version: two bytes for
    /// 3 and 4, none for any other value, ID3v2.2 having no flags field.
    pub fn to_bytes(&self, version: u8) -> (r: Vec<u8>)
        ensures
            version == 3 ==> r@ == seq![v3_byte1(*self), v3_byte2(*self)],
            version == 4 ==> r@ == seq![v4_byte1(*self), v4_byte2(*self)],
            version != 3 && version != 4 ==> r@ == Seq::<u8>::empty(),
    {
        let mut out: Vec<u8> = Vec::new();
        if version == 3 {
            let mut b1: u8 = 0;
            let mut b2: u8 = 0;
            if self.tag_alter_preservation {
                b1 = b1 + 0x80;
            }
            if self.file_alter_preservation {
                b1 = b1 + 0x40;
            }
            if self.read_only {
                b1 = b1 + 0x20;
            }
            if self.compression {
                b2 = b2 + 0x80;
            }
            if self.encryption {
                b2 = b2 + 0x40;
            }
            if self.grouping_identity {
                b2 = b2 + 0x20;
            }
            out.push(b1);
            out.push(b2);
            proof {
                assert(out@ =~= seq![v3_byte1(*self), v3_byte2(*self)]);
            }
        } else if version == 4 {
            let mut b1: u8 = 0;
            let mut b2: u8 = 0;
            if self.tag_alter_preservation {
                b1 = b1 + 0x40;
            }
            if self.file_alter_preservation {
                b1 = b1 + 0x20;
            }
            if self.read_only {
                b1 = b1 + 0x10;
            }
            if self.grouping_identity {
                b2 = b2 + 0x40;
            }
            if self.compression {
                b2 = b2 + 0x08;
            }
            if self.encryption {
                b2 = b2 + 0x04;
            }
            if self.unsynchronization {
                b2 = b2 + 0x02;
            }
            if self.data_length_indicator {
                b2 = b2 + 0x01;
            }
            out.push(b1);
            out.push(b2);
            proof {
                assert(out@ =~= seq![v4_byte1(*self), v4_byte2(*self)]);
            }
        }
        out
    }
}

/// Parses the two ID3v2.3 flag bytes.
pub fn parse_v3_flags(b1: u8, b2: u8) -> (r: Flags)
    ensures
        r == flags_of_v3_bytes(b1, b2),
{
    Flags {
        tag_alter_preservation: (b1 / 0x80) % 2 == 1,
        file_alter_preservation: (b1 / 0x40) % 2 == 1,
        read_only: (b1 / 0x20) % 2 == 1,
        compression: (b2 / 0x80) % 2 == 1,
        encryption: (b2 / 0x40) % 2 == 1,
        grouping_identity: (b2 / 0x20) % 2 == 1,
        unsynchronization: false,
        data_length_indicator: false,
    }
}

/// Parses the two ID3v2.4 flag bytes.
pub fn parse_v4_flags(b1: u8, b2: u8) -> (r: Flags)
    ensures
        r == flags_of_v4_bytes(b1, b2),
{
    Flags {
        tag_alter_preservation: (b1 / 0x40) % 2 == 1,
        file_alter_preservation: (b1 / 0x20) % 2 == 1,
        read_only: (b1 / 0x10) % 2 == 1,
        compression: (b2 / 0x08) % 2 == 1,
        encryption: (b2 / 0x04) % 2 == 1,
        grouping_identity: (b2 / 0x40) % 2 == 1,
        unsynchronization: (b2 / 0x02) % 2 == 1,
        data_length_indicator: (b2 / 0x01) % 2 == 1,
    }
}

} // verus!
