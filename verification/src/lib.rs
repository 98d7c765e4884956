//! Frame-level codec for ID3v2 metadata.
//!
//! A frame is the unit of information inside an ID3v2 tag. This library
//! models frame identity and equality, the per-version frame flags and
//! their bit layouts, and the header codecs for the three wire formats
//! ID3v2.2, ID3v2.3 and ID3v2.4, together with the byte-level codec for
//! the textual content variants.

use vstd::prelude::*;

pub mod codec;
pub mod content;
pub mod frame;
pub mod flags;
pub mod ids;
pub mod text;
pub mod util;

pub use content::Content;
pub use flags::Flags;
pub use frame::Frame;
pub use text::Encoding;

verus! {

/// The three supported ID3v2 tag versions.
#[derive(Clone, Copy, PartialEq, Eq, Structural, Debug)]
pub enum Version {
    /// ID3v2.2: 3-byte identifiers, 3-byte plain big-endian sizes, no flags.
    Id3v22,
    /// ID3v2.3: 4-byte identifiers, 4-byte plain big-endian sizes, 2 flag bytes.
    Id3v23,
    /// ID3v2.4: 4-byte identifiers, 4-byte synch-safe sizes, 2 flag bytes.
    Id3v24,
}

/// Every way a frame operation can fail.
#[derive(Clone, Copy, PartialEq, Eq, Structural, Debug)]
pub enum FrameError {
    /// The identifier has the wrong length or a byte outside `A`-`Z`/`0`-`9`,
    /// the character set the format allots to identifiers. The deliberate
    /// policy is to reject such bytes at construction, so that every frame
    /// that exists carries a well-formed, normalized 4-byte identifier.
    InvalidIdentifier,
    /// A 3-byte identifier with no 4-byte counterpart — at construction,
    /// or met in an ID3v2.2 stream, where no normalized form exists to
    /// carry the frame and so no `Unknown`-content downgrade is possible —
    /// or a 4-byte identifier that cannot be expressed in ID3v2.2.
    UnknownIdentifier,
    /// The frame body does not fit in the size field of the requested version.
    FrameTooLarge,
    /// A structural violation in the bytes being decoded: a truncated
    /// header, a size field larger than the remaining input, or a body
    /// that fails to parse for a frame whose content is decoded — an
    /// invalid text-encoding marker or malformed character data. The
    /// failure is reported to the caller; no partial frame is returned.
    InvalidFrameData,
}

} // verus!
