//! The synchsafe integer codec: 4-byte size fields that use only the low 7
//! bits of each byte, big-endian, so the decoded value lies below 2^28.

use vstd::prelude::*;

verus! {

/// The value of a 4-byte synchsafe size field: each byte contributes its low
/// 7 bits, most significant byte first.
pub open spec fn synchsafe_decoded(s: Seq<u8>) -> u32
    recommends
        s.len() == 4,
{
    (((s[0] & 0x7f) as u32) << 21) | (((s[1] & 0x7f) as u32) << 14) | (((s[2] & 0x7f) as u32)
        << 7) | ((s[3] & 0x7f) as u32)
}

/// The 4-byte synchsafe encoding of a value below 2^28: 7 bits per byte,
/// most significant byte first, high bit of every byte clear.
pub open spec fn synchsafe_encoded(v: u32) -> Seq<u8>
    recommends
        v < 0x1000_0000,
{
    seq![
        ((v >> 21) & 0x7f) as u8,
        ((v >> 14) & 0x7f) as u8,
        ((v >> 7) & 0x7f) as u8,
        (v & 0x7f) as u8,
    ]
}

/// Every decoded synchsafe value lies below 2^28.
pub proof fn lemma_synchsafe_decoded_bound(s: Seq<u8>)
    requires
        s.len() == 4,
    ensures
        synchsafe_decoded(s) < 0x1000_0000,
{
    let b0 = s[0];
    let b1 = s[1];
    let b2 = s[2];
    let b3 = s[3];
    assert((((b0 & 0x7f) as u32) << 21) | (((b1 & 0x7f) as u32) << 14) | (((b2 & 0x7f) as u32)
        << 7) | ((b3 & 0x7f) as u32) < 0x1000_0000) by (bit_vector);
}

/// Law: decoding the encoding of any value below 2^28 gives the value back.
pub proof fn lemma_synchsafe_round_trip(v: u32)
    requires
        v < 0x1000_0000,
    ensures
        synchsafe_decoded(synchsafe_encoded(v)) == v,
{
    let s = synchsafe_encoded(v);
    let b0 = ((v >> 21) & 0x7f) as u8;
    let b1 = ((v >> 14) & 0x7f) as u8;
    let b2 = ((v >> 7) & 0x7f) as u8;
    let b3 = (v & 0x7f) as u8;
    assert(s[0] == b0 && s[1] == b1 && s[2] == b2 && s[3] == b3);
    assert((((b0 & 0x7f) as u32) << 21) | (((b1 & 0x7f) as u32) << 14) | (((b2 & 0x7f) as u32)
        << 7) | ((b3 & 0x7f) as u32) == v) by (bit_vector)
        requires
            b0 == ((v >> 21) & 0x7f) as u8,
            b1 == ((v >> 14) & 0x7f) as u8,
            b2 == ((v >> 7) & 0x7f) as u8,
            b3 == (v & 0x7f) as u8,
            v < 0x1000_0000,
    ;
}

/// Decodes a 4-byte synchsafe size field.
pub fn calculate_size(size_bytes: &[u8]) -> (r: u32)
    requires
        size_bytes@.len() == 4,
    ensures
        r == synchsafe_decoded(size_bytes@),
        r < 0x1000_0000,
{
    let b0 = size_bytes[0];
    let b1 = size_bytes[1];
    let b2 = size_bytes[2];
    let b3 = size_bytes[3];
    let r = (((b0 & 0x7f) as u32) << 21) | (((b1 & 0x7f) as u32) << 14) | (((b2 & 0x7f) as u32)
        << 7) | ((b3 & 0x7f) as u32);
    proof {
        lemma_synchsafe_decoded_bound(size_bytes@);
    }
    r
}

/// Encodes a value below 2^28 as a 4-byte synchsafe size field.
pub fn encode_size(v: u32) -> (r: [u8; 4])
    requires
        v < 0x1000_0000,
    ensures
        r@ == synchsafe_encoded(v),
{
    let r = [((v >> 21) & 0x7f) as u8, ((v >> 14) & 0x7f) as u8, ((v >> 7) & 0x7f) as u8, (v
        & 0x7f) as u8];
    proof {
        assert(r@ =~= synchsafe_encoded(v));
    }
    r
}

} // verus!
