//! The tag header decoder: the fixed 10-byte header that opens a tag, with
//! the magic check, version and revision bytes, flag bits and synchsafe size.

use vstd::prelude::*;
use crate::error::ParseError;
use crate::spec_is_id3v2;
use crate::util;
use vstd::slice::slice_subrange;

verus! {

/// The flag bits of byte 5 of the tag header: a set bit means the flag holds.
#[derive(Clone, Copy, Debug, PartialEq, Eq, Structural)]
pub struct HeaderFlags {
    /// Bit 7: unsynchronisation is used.
    pub unsynchronization: bool,
    /// Bit 6: an extended header follows the tag header.
    pub extended_header: bool,
    /// Bit 5: the tag is in an experimental stage.
    pub experimental: bool,
}

/// The tag header flags decoded from their byte.
pub open spec fn spec_header_flags(b: u8) -> HeaderFlags {
    HeaderFlags {
        unsynchronization: b & 0x80 != 0,
        extended_header: b & 0x40 != 0,
        experimental: b & 0x20 != 0,
    }
}

impl HeaderFlags {
    /// Decodes the tag header's flag byte.
    pub fn new(flags_byte: u8) -> (f: HeaderFlags)
        ensures
            f == spec_header_flags(flags_byte),
    {
        HeaderFlags {
            unsynchronization: (flags_byte & 0x80) != 0,
            extended_header: (flags_byte & 0x40) != 0,
            experimental: (flags_byte & 0x20) != 0,
        }
    }
}

/// The 10-byte tag header: version, revision, flags and the synchsafe length
/// of the frame data that follows (the header itself excluded).
#[derive(Clone, Copy, Debug, PartialEq, Eq, Structural)]
pub struct Header {
    pub major_version: u8,
    pub revision_number: u8,
    pub flags: HeaderFlags,
    pub tag_length: u32,
}

/// The tag header fields read from the first 10 bytes of a tag.
pub open spec fn spec_header(s: Seq<u8>) -> Header
    recommends
        s.len() >= 10,
{
    Header {
        major_version: s[3],
        revision_number: s[4],
        flags: spec_header_flags(s[5]),
        tag_length: util::synchsafe_decoded(s.subrange(6, 10)),
    }
}

impl Header {
    /// Extracts the header fields from the first 10 bytes. The magic check is
    /// the caller's: see [`decode_tag_header`].
    pub fn new(header: &Vec<u8>) -> (h: Header)
        requires
            header@.len() >= 10,
        ensures
            h == spec_header(header@),
            h.tag_length < 0x1000_0000,
    {
        let size = util::calculate_size(slice_subrange(header.as_slice(), 6, 10));
        Header {
            major_version: header[3],
            revision_number: header[4],
            flags: HeaderFlags::new(header[5]),
            tag_length: size,
        }
    }
}

/// Decodes the 10-byte tag header: refused with `TruncatedInput` when fewer
/// than 10 bytes are available, with `InvalidMagic` when the first three
/// bytes are not `I`, `D`, `3`; the header fields otherwise.
pub fn decode_tag_header(bytes: &Vec<u8>) -> (r: Result<Header, ParseError>)
    ensures
        bytes@.len() < 10 ==> r == Err::<Header, ParseError>(ParseError::TruncatedInput),
        bytes@.len() >= 10 && !spec_is_id3v2(bytes@) ==> r == Err::<Header, ParseError>(
            ParseError::InvalidMagic,
        ),
        bytes@.len() >= 10 && spec_is_id3v2(bytes@) ==> r == Ok::<Header, ParseError>(
            spec_header(bytes@),
        ),
{
    if bytes.len() < 10 {
        Err(ParseError::TruncatedInput)
    } else if !crate::is_id3v2(bytes) {
        Err(ParseError::InvalidMagic)
    } else {
        Ok(Header::new(bytes))
    }
}

} // verus!
