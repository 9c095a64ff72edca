//! Decoding of ID3v2 metadata tags: the synchsafe size codec, the tag and
//! frame header decoders, the frame body decoder, and the sequential walk
//! that discovers frame boundaries one frame at a time.

use vstd::prelude::*;

pub mod error;
pub mod frame;
pub mod header;
pub mod parser;
pub mod text;
pub mod util;

verus! {

/// Whether a byte sequence starts with the tag magic `I`, `D`, `3`.
pub open spec fn spec_is_id3v2(s: Seq<u8>) -> bool {
    s.len() >= 3 && s[0] == 73 && s[1] == 68 && s[2] == 51
}

/// Tests the three magic bytes that open every ID3v2 tag.
pub fn is_id3v2(header_info: &Vec<u8>) -> (r: bool)
    requires
        header_info@.len() >= 3,
    ensures
        r == spec_is_id3v2(header_info@),
{
    header_info[0] == 73 && header_info[1] == 68 && header_info[2] == 51
}

} // verus!
