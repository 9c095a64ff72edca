//! Text payload decoding for text-information frames. The first byte of a
//! text frame body names the encoding; the remainder is the encoded text.

use vstd::prelude::*;
use crate::error::ParseError;
use vstd::utf8::{decode_utf8, valid_utf8};

verus! {

/// The encoding indicator for ISO-8859-1 text.
pub const ENCODING_LATIN1: u8 = 0;

/// The encoding indicator for UTF-8 text.
pub const ENCODING_UTF8: u8 = 3;

/// The characters of ISO-8859-1 text: each byte is the character with that
/// code point.
pub open spec fn latin1_chars(s: Seq<u8>) -> Seq<char> {
    s.map_values(|b: u8| b as char)
}

/// What a text frame body decodes to: nothing for an empty body; otherwise
/// the first byte names the encoding and the rest is the text. ISO-8859-1
/// always decodes; UTF-8 decodes when the bytes are valid UTF-8; any other
/// indicator is refused.
pub open spec fn spec_decode_text_body(body: Seq<u8>) -> Result<Seq<char>, ParseError> {
    if body.len() == 0 {
        Ok(Seq::empty())
    } else {
        let rest = body.subrange(1, body.len() as int);
        if body[0] == ENCODING_LATIN1 {
            Ok(latin1_chars(rest))
        } else if body[0] == ENCODING_UTF8 {
            if valid_utf8(rest) {
                Ok(decode_utf8(rest))
            } else {
                Err(ParseError::InvalidEncoding)
            }
        } else {
            Err(ParseError::InvalidEncoding)
        }
    }
}

/// Relies on `String::push`: appends the given character to the string.
#[verifier::external_body]
fn push_char(s: &mut String, c: char)
    ensures
        final(s)@ == old(s)@.push(c),
{
    s.push(c);
}

/// Relies on `String::from_utf8`: returns a string exactly when the bytes
/// are valid UTF-8, and then the string holds the characters they encode.
#[verifier::external_body]
fn utf8_to_string(bytes: Vec<u8>) -> (r: Option<String>)
    ensures
        r is Some <==> valid_utf8(bytes@),
        r matches Some(s) ==> s@ == decode_utf8(bytes@),
{
    String::from_utf8(bytes).ok()
}

/// Builds the string whose characters are the bytes' ISO-8859-1 code points.
pub fn latin1_to_string(bytes: &[u8]) -> (s: String)
    ensures
        s@ == latin1_chars(bytes@),
{
    let mut s = String::new();
    let mut i: usize = 0;
    while i < bytes.len()
        invariant
            i <= bytes@.len(),
            s@ == latin1_chars(bytes@.subrange(0, i as int)),
        decreases bytes@.len() - i,
    {
        let c = bytes[i] as char;
        push_char(&mut s, c);
        proof {
            assert(bytes@.subrange(0, i + 1) =~= bytes@.subrange(0, i as int).push(bytes@[i as int]));
            assert(latin1_chars(bytes@.subrange(0, i + 1)) =~= latin1_chars(
                bytes@.subrange(0, i as int),
            ).push(bytes@[i as int] as char));
        }
        i = i + 1;
    }
    proof {
        assert(bytes@.subrange(0, bytes@.len() as int) =~= bytes@);
    }
    s
}

/// Decodes a text frame body per [`spec_decode_text_body`].
pub fn decode_text_body(body: &[u8]) -> (r: Result<String, ParseError>)
    ensures
        (match r {
            Ok(s) => spec_decode_text_body(body@) == Ok::<Seq<char>, ParseError>(s@),
            Err(e) => spec_decode_text_body(body@) == Err::<Seq<char>, ParseError>(e),
        }),
{
    if body.len() == 0 {
        Ok(String::new())
    } else {
        let enc = body[0];
        let rest = vstd::slice::slice_subrange(body, 1, body.len());
        if enc == ENCODING_LATIN1 {
            Ok(latin1_to_string(rest))
        } else if enc == ENCODING_UTF8 {
            let rest_vec = vstd::slice::slice_to_vec(rest);
            match utf8_to_string(rest_vec) {
                Some(s) => Ok(s),
                None => Err(ParseError::InvalidEncoding),
            }
        } else {
            Err(ParseError::InvalidEncoding)
        }
    }
}

} // verus!
