//! Wire format of text parameters.
//!
//! A text value travels as its byte length, a little-endian unsigned 32-bit
//! integer, followed by exactly that many bytes of UTF-8. Decoding rejects
//! anything else: a missing or short prefix, a payload shorter or longer
//! than announced, or bytes that are not valid UTF-8.

use vstd::prelude::*;

verus! {

use vstd::bytes::{spec_u32_from_le_bytes, spec_u32_to_le_bytes};
use vstd::utf8::{decode_utf8, encode_utf8, valid_utf8};

/// A parameter that could not be decoded.
#[derive(Clone, Copy, Debug, PartialEq, Eq, Structural)]
pub struct ParseError;

/// The wire form of a payload: its length as a little-endian `u32`, then the
/// payload itself.
pub open spec fn frame(payload: Seq<u8>) -> Seq<u8>
    recommends
        payload.len() <= u32::MAX,
{
    spec_u32_to_le_bytes(payload.len() as u32) + payload
}

/// The payload of a framed parameter, if the frame is well formed: a 4-byte
/// length prefix that announces exactly the rest of the bytes.
pub open spec fn unframe(bytes: Seq<u8>) -> Option<Seq<u8>> {
    if bytes.len() >= 4 && bytes.len() - 4 == spec_u32_from_le_bytes(bytes.subrange(0, 4)) {
        Some(bytes.subrange(4, bytes.len() as int))
    } else {
        None
    }
}

/// The text a parameter encodes, if it is well formed: a well-formed frame
/// whose payload is valid UTF-8.
pub open spec fn decoded_text(bytes: Seq<u8>) -> Option<Seq<char>> {
    match unframe(bytes) {
        Some(payload) => if valid_utf8(payload) {
            Some(decode_utf8(payload))
        } else {
            None
        },
        None => None,
    }
}

/// Relies on `String::from_utf8`: it returns `Ok` exactly when the bytes are
/// a valid UTF-8 encoding, and then the string's characters are the decoded
/// scalar values of those bytes.
#[verifier::external_body]
fn string_from_utf8(bytes: Vec<u8>) -> (r: Option<String>)
    ensures
        match r {
            Some(s) => valid_utf8(bytes@) && s@ == decode_utf8(bytes@),
            None => !valid_utf8(bytes@),
        },
{
    String::from_utf8(bytes).ok()
}

/// Decode a framed text parameter, rejecting a short prefix, a length
/// mismatch (truncated or trailing bytes) and invalid UTF-8.
pub fn decode_text(param: &Vec<u8>) -> (r: Result<String, ParseError>)
    ensures
        match r {
            Ok(s) => decoded_text(param@) == Some(s@),
            Err(_) => decoded_text(param@) is None,
        },
{
    if param.len() < 4 {
        return Err(ParseError);
    }
    let header = vstd::slice::slice_subrange(param.as_slice(), 0, 4);
    let announced = vstd::bytes::u32_from_le_bytes(header);
    if param.len() - 4 != announced as usize {
        return Err(ParseError);
    }
    let payload = vstd::slice::slice_to_vec(
        vstd::slice::slice_subrange(param.as_slice(), 4, param.len()),
    );
    match string_from_utf8(payload) {
        Some(s) => Ok(s),
        None => Err(ParseError),
    }
}

/// Encode a text value into the wire format, or `None` for a text whose
/// UTF-8 form is too long for the 32-bit length prefix.
pub fn encode_text(s: &String) -> (r: Option<Vec<u8>>)
    ensures
        match r {
            Some(b) => {
                &&& encode_utf8(s@).len() <= u32::MAX
                &&& b@ == frame(encode_utf8(s@))
                &&& decoded_text(b@) == Some(s@)
            },
            None => encode_utf8(s@).len() > u32::MAX,
        },
{
    let bytes: &[u8] = s.as_str().as_bytes();
    if bytes.len() > u32::MAX as usize {
        return None;
    }
    let mut out = vstd::bytes::u32_to_le_bytes(bytes.len() as u32);
    out.extend_from_slice(bytes);
    proof {
        assert(out@ =~= frame(encode_utf8(s@)));
        lemma_text_round_trip(s@);
    }
    Some(out)
}

/// Framing then unframing is the identity on every payload whose length fits
/// the 32-bit prefix.
pub proof fn lemma_frame_round_trip(payload: Seq<u8>)
    requires
        payload.len() <= u32::MAX,
    ensures
        unframe(frame(payload)) == Some(payload),
{
    vstd::bytes::lemma_auto_spec_u32_to_from_le_bytes();
    let framed = frame(payload);
    assert(framed.subrange(0, 4) =~= spec_u32_to_le_bytes(payload.len() as u32));
    assert(framed.subrange(4, framed.len() as int) =~= payload);
}

/// Encoding any text and decoding the result gives the text back, whenever
/// its UTF-8 form fits the 32-bit length prefix.
pub proof fn lemma_text_round_trip(t: Seq<char>)
    requires
        encode_utf8(t).len() <= u32::MAX,
    ensures
        decoded_text(frame(encode_utf8(t))) == Some(t),
{
    lemma_frame_round_trip(encode_utf8(t));
    vstd::utf8::encode_utf8_valid_utf8(t);
    vstd::utf8::encode_utf8_decode_utf8(t);
}

} // verus!
