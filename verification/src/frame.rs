//! The EPP wire framing codec.
//!
//! On the wire every document travels as one frame: a 4-byte big-endian
//! unsigned length that counts itself, followed by that many minus four bytes
//! of UTF-8 XML.

use vstd::prelude::*;
use vstd::string::*;
use vstd::utf8::*;

use crate::error::Error;

verus! {

/// The four big-endian bytes of `n`.
pub open spec fn spec_u32_be(n: u32) -> Seq<u8> {
    seq![
        ((n >> 24) & 0xff) as u8,
        ((n >> 16) & 0xff) as u8,
        ((n >> 8) & 0xff) as u8,
        (n & 0xff) as u8,
    ]
}

/// The value of four big-endian bytes.
pub open spec fn spec_be_value(b: Seq<u8>) -> u32
    recommends
        b.len() == 4,
{
    (((b[0] as u32) << 24) | ((b[1] as u32) << 16) | ((b[2] as u32) << 8) | (b[3] as u32)) as u32
}

/// Reading back the four big-endian bytes of `n` gives `n` again.
pub proof fn lemma_be_round_trip(n: u32)
    ensures
        spec_be_value(spec_u32_be(n)) == n,
{
    assert((((((n >> 24) & 0xff) as u8) as u32) << 24) | (((((n >> 16) & 0xff) as u8) as u32)
        << 16) | (((((n >> 8) & 0xff) as u8) as u32) << 8) | (((n & 0xff) as u8) as u32)
        == n) by (bit_vector);
}

/// The frame carrying `payload`: its length plus four as four big-endian
/// bytes, then the payload itself.
pub open spec fn spec_frame(payload: Seq<u8>) -> Seq<u8>
    recommends
        payload.len() + 4 <= u32::MAX,
{
    spec_u32_be((payload.len() + 4) as u32) + payload
}

/// Encodes an XML document as a wire frame. Fails exactly when the document
/// is too large for the 32-bit length field.
pub fn encode_frame(content: &str) -> (r: Result<Vec<u8>, Error>)
    ensures
        r is Ok <==> content.spec_bytes().len() + 4 <= u32::MAX,
        r matches Ok(v) ==> v@ == spec_frame(content.spec_bytes()),
{
    let bytes = content.as_bytes_vec();
    if bytes.len() > (u32::MAX - 4) as usize {
        return Err(Error::Frame(String::from_str("document too large for a frame")));
    }
    let total = (bytes.len() + 4) as u32;
    let mut out: Vec<u8> = Vec::new();
    out.push(((total >> 24) & 0xff) as u8);
    out.push(((total >> 16) & 0xff) as u8);
    out.push(((total >> 8) & 0xff) as u8);
    out.push((total & 0xff) as u8);
    assert(out@ =~= spec_u32_be(total));
    let mut k: usize = 0;
    let n = bytes.len();
    while k < n
        invariant
            k <= n,
            n == bytes@.len(),
            bytes@ == content.spec_bytes(),
            bytes@.len() + 4 <= u32::MAX,
            out@ =~= spec_u32_be((bytes@.len() + 4) as u32) + bytes@.subrange(0, k as int),
        decreases n - k,
    {
        out.push(bytes[k]);
        assert(out@ =~= spec_u32_be((bytes@.len() + 4) as u32) + bytes@.subrange(0, k + 1));
        k += 1;
    }
    assert(bytes@.subrange(0, n as int) =~= bytes@);
    Ok(out)
}

/// Reads the four-byte frame header and returns how many payload bytes
/// follow. Fails exactly when the announced total is smaller than the header
/// itself.
pub fn parse_frame_header(header: &Vec<u8>) -> (r: Result<usize, Error>)
    requires
        header@.len() == 4,
    ensures
        r is Ok <==> spec_be_value(header@) >= 4,
        r matches Ok(n) ==> n == spec_be_value(header@) - 4,
{
    let total: u32 = ((header[0] as u32) << 24) | ((header[1] as u32) << 16) | ((header[2] as u32)
        << 8) | (header[3] as u32);
    if total < 4 {
        return Err(Error::Frame(String::from_str("length prefix below the header size")));
    }
    Ok((total - 4) as usize)
}

/// Relies on `String::from_utf8`: succeeds exactly on valid UTF-8 input and
/// decodes those bytes.
#[verifier::external_body]
fn utf8_to_string(bytes: Vec<u8>) -> (r: Option<String>)
    ensures
        r is Some <==> valid_utf8(bytes@),
        r matches Some(s) ==> s@ == decode_utf8(bytes@),
{
    String::from_utf8(bytes).ok()
}

/// Turns the payload of a frame into the document it carries. Fails exactly
/// when the bytes are not valid UTF-8.
pub fn decode_payload(bytes: Vec<u8>) -> (r: Result<String, Error>)
    ensures
        r is Ok <==> valid_utf8(bytes@),
        r matches Ok(s) ==> s@ == decode_utf8(bytes@),
{
    match utf8_to_string(bytes) {
        Some(s) => Ok(s),
        None => Err(Error::Frame(String::from_str("frame payload is not valid UTF-8"))),
    }
}

/// Framing round trip: for every document whose UTF-8 form is small enough
/// for the length field, the frame opens with the byte length plus four in
/// big-endian form, and stripping the header yields bytes that decode to the
/// original document.
pub proof fn lemma_frame_round_trip(s: Seq<char>)
    requires
        encode_utf8(s).len() + 4 <= u32::MAX,
    ensures
        ({
            let payload = encode_utf8(s);
            let framed = spec_frame(payload);
            &&& framed.len() == payload.len() + 4
            &&& spec_be_value(framed.subrange(0, 4)) == payload.len() + 4
            &&& framed.subrange(4, framed.len() as int) == payload
            &&& valid_utf8(payload)
            &&& decode_utf8(payload) == s
        }),
{
    broadcast use encode_utf8_valid_utf8, encode_utf8_decode_utf8;

    let payload = encode_utf8(s);
    let framed = spec_frame(payload);
    lemma_be_round_trip((payload.len() + 4) as u32);
    assert(framed.subrange(0, 4) =~= spec_u32_be((payload.len() + 4) as u32));
    assert(framed.subrange(4, framed.len() as int) =~= payload);
}

} // verus!
