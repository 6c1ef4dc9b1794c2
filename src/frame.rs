//! Framing of one UTF-8 text message: a four-byte big-endian length
//! followed by exactly that many payload bytes.

use crate::error::{unexpected_eof, RecvError, RecvResult};
use vstd::prelude::*;
use vstd::utf8::{decode_utf8, encode_utf8, encode_utf8_decode_utf8, encode_utf8_valid_utf8, valid_utf8};

verus! {

/// Big-endian value of four bytes.
pub open spec fn be_value(b: Seq<u8>) -> nat
    recommends
        b.len() == 4,
{
    b[0] as nat * 16777216 + b[1] as nat * 65536 + b[2] as nat * 256 + b[3] as nat
}

/// Four big-endian bytes of a length.
pub open spec fn be_bytes(n: nat) -> Seq<u8> {
    seq![
        (n / 16777216 % 256) as u8,
        (n / 65536 % 256) as u8,
        (n / 256 % 256) as u8,
        (n % 256) as u8,
    ]
}

/// Length prefix of a frame: the number of bytes of the payload.
pub fn encode_length(len: u32) -> (r: [u8; 4])
    ensures
        r@ == be_bytes(len as nat),
        be_value(r@) == len,
{
    let r = [
        (len / 16777216) as u8,
        (len / 65536 % 256) as u8,
        (len / 256 % 256) as u8,
        (len % 256) as u8,
    ];
    assert(r@ == be_bytes(len as nat));
    proof {
        lemma_be_value_of_bytes(len as nat);
    }
    r
}

/// Length carried by a frame's prefix.
pub fn decode_length(header: [u8; 4]) -> (r: u32)
    ensures
        r as nat == be_value(header@),
{
    let r = (header[0] as u32) * 16777216 + (header[1] as u32) * 65536 + (header[2] as u32) * 256
        + header[3] as u32;
    r
}

/// The bytes that carry `text`: its UTF-8 length, big-endian, then its UTF-8 bytes.
pub open spec fn frame_of(text: Seq<char>) -> Seq<u8> {
    be_bytes(encode_utf8(text).len()) + encode_utf8(text)
}

/// A frame's text fits the four-byte length prefix.
pub open spec fn fits_frame(text: Seq<char>) -> bool {
    encode_utf8(text).len() <= 0xffff_ffff
}

/// The source holds a length prefix and at least as many bytes as it announces.
pub open spec fn frame_complete(src: Seq<u8>) -> bool {
    src.len() >= 4 && src.len() - 4 >= be_value(src.subrange(0, 4))
}

/// The payload bytes that a complete frame at the start of `src` announces.
pub open spec fn frame_payload(src: Seq<u8>) -> Seq<u8> {
    src.subrange(4, 4 + be_value(src.subrange(0, 4)) as int)
}

/// Encodes `text` as one frame.
pub fn encode_frame(text: &str) -> (r: Vec<u8>)
    requires
        fits_frame(text@),
    ensures
        r@ == frame_of(text@),
{
    let bytes = text.as_bytes();
    let header = encode_length(bytes.len() as u32);
    let mut out: Vec<u8> = Vec::new();
    let mut i: usize = 0;
    while i < 4
        invariant
            i <= 4,
            out@ == header@.subrange(0, i as int),
        decreases 4 - i,
    {
        out.push(header[i]);
        i = i + 1;
    }
    let mut j: usize = 0;
    while j < bytes.len()
        invariant
            j <= bytes@.len(),
            out@ == header@ + bytes@.subrange(0, j as int),
        decreases bytes@.len() - j,
    {
        out.push(bytes[j]);
        j = j + 1;
    }
    assert(bytes@.subrange(0, bytes@.len() as int) =~= bytes@);
    out
}

/// Relies on `String::from_utf8`: accepts exactly the valid UTF-8 byte
/// sequences and keeps their characters.
#[verifier::external_body]
fn string_from_utf8(bytes: Vec<u8>) -> (r: Option<String>)
    ensures
        r is Some <==> valid_utf8(bytes@),
        r matches Some(s) ==> s@ == decode_utf8(bytes@),
{
    String::from_utf8(bytes).ok()
}

/// Reads a payload as text.
pub fn decode_payload(bytes: Vec<u8>) -> (r: RecvResult)
    ensures
        r is Ok <==> valid_utf8(bytes@),
        r matches Ok(s) ==> s@ == decode_utf8(bytes@),
        r matches Err(e) ==> e is BadEncoding,
{
    match string_from_utf8(bytes) {
        Some(s) => Ok(s),
        None => Err(RecvError::BadEncoding),
    }
}

/// Reads one frame from the start of `src`: exactly the announced number
/// of bytes after the prefix; bytes beyond the frame are left alone.
pub fn decode_frame(src: &[u8]) -> (r: RecvResult)
    ensures
        !frame_complete(src@) ==> (r matches Err(e) && e is Io),
        frame_complete(src@) ==> (r is Ok <==> valid_utf8(frame_payload(src@))),
        r matches Ok(s) ==> s@ == decode_utf8(frame_payload(src@)),
        r matches Err(e) ==> (e is Io <==> !frame_complete(src@)),
{
    if src.len() < 4 {
        return Err(RecvError::Io(unexpected_eof()));
    }
    let header = [src[0], src[1], src[2], src[3]];
    assert(header@ =~= src@.subrange(0, 4));
    let len = decode_length(header);
    if src.len() - 4 < len as usize {
        return Err(RecvError::Io(unexpected_eof()));
    }
    let end = 4 + len as usize;
    let mut payload: Vec<u8> = Vec::with_capacity(len as usize);
    let mut i: usize = 4;
    while i < end
        invariant
            4 <= i <= end <= src@.len(),
            payload@ == src@.subrange(4, i as int),
        decreases end - i,
    {
        payload.push(src[i]);
        i = i + 1;
    }
    decode_payload(payload)
}

/// Decoding a frame gives back the text it was encoded from.
pub proof fn lemma_frame_round_trip(text: Seq<char>)
    requires
        fits_frame(text),
    ensures
        frame_complete(frame_of(text)),
        frame_payload(frame_of(text)) == encode_utf8(text),
        valid_utf8(frame_payload(frame_of(text))),
        decode_utf8(frame_payload(frame_of(text))) == text,
{
    let f = frame_of(text);
    let n = encode_utf8(text).len();
    lemma_be_value_of_bytes(n);
    assert(f.subrange(0, 4) =~= be_bytes(n));
    assert(frame_payload(f) =~= encode_utf8(text));
    encode_utf8_valid_utf8(text);
    encode_utf8_decode_utf8(text);
}

/// A frame cut short anywhere, even after its whole length prefix, is not
/// complete.
pub proof fn lemma_truncated_frame(text: Seq<char>, k: int)
    requires
        fits_frame(text),
        0 <= k < frame_of(text).len(),
    ensures
        !frame_complete(frame_of(text).subrange(0, k)),
{
    let f = frame_of(text);
    let n = encode_utf8(text).len();
    lemma_be_value_of_bytes(n);
    if k >= 4 {
        assert(f.subrange(0, k).subrange(0, 4) =~= be_bytes(n));
    }
}

/// A length written as four big-endian bytes reads back as itself.
pub proof fn lemma_be_value_of_bytes(n: nat)
    requires
        n <= 0xffff_ffff,
    ensures
        be_bytes(n).len() == 4,
        be_value(be_bytes(n)) == n,
{
    assert(be_value(be_bytes(n)) == n) by (nonlinear_arith)
        requires
            n <= 0xffff_ffff,
    ;
}

} // verus!
