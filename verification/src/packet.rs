//! The packet codec: one packet to bytes, and bytes to one packet.
//!
//! On the wire a packet is a little-endian `size`, then `size` bytes of
//! payload: the request id, the packet type, the body, and two NUL bytes.

use crate::error::Error;
use crate::wire::{
    i32_from_le_bytes, i32_le_bytes, lemma_i32_le_roundtrip, read_i32_le, unexpected_eof,
    write_byte, write_i32_le,
};
use std::string::FromUtf8Error;
use vstd::prelude::*;
use vstd::slice::{slice_subrange, slice_to_vec};
use vstd::string::StringSliceAdditionalSpecFns;
use vstd::utf8::{
    decode_utf8, encode_utf8, encode_utf8_decode_utf8, encode_utf8_valid_utf8, valid_utf8,
};

verus! {

/// Type of the packet that carries the password.
pub const SERVERDATA_AUTH: i32 = 3;

/// Type of the server's answer to the password. It shares its number with
/// `SERVERDATA_EXECCOMMAND`: only the moment tells the two apart.
pub const SERVERDATA_AUTH_RESPONSE: i32 = 2;

/// Type of a packet that carries a command.
pub const SERVERDATA_EXECCOMMAND: i32 = 2;

/// Type of the server's answer to a command.
pub const SERVERDATA_RESPONSE_VALUE: i32 = 0;

/// What `size` counts besides the body: the id, the type and the two NULs.
/// No packet declares less.
pub const MIN_PACKET_SIZE: i32 = 10;

/// The longest body, in bytes, whose packet still has a `size` that fits
/// its 32-bit field.
pub const MAX_BODY_LEN: usize = 0x7fff_fff5;

/// A packet as received.
#[derive(Debug)]
pub struct Response {
    pub req_id: i32,
    pub packet_type: i32,
    pub body: String,
}

/// A received packet, with its body as characters.
pub struct ResponseView {
    pub req_id: i32,
    pub packet_type: i32,
    pub body: Seq<char>,
}

impl View for Response {
    type V = ResponseView;

    open spec fn view(&self) -> ResponseView {
        ResponseView { req_id: self.req_id, packet_type: self.packet_type, body: self.body@ }
    }
}

/// The wire form of a packet with the given body bytes.
pub open spec fn packet_bytes(body: Seq<u8>, packet_type: i32, request_id: i32) -> Seq<u8>
    recommends
        body.len() <= MAX_BODY_LEN,
{
    i32_le_bytes((MIN_PACKET_SIZE + body.len()) as i32) + i32_le_bytes(request_id) + i32_le_bytes(
        packet_type,
    ) + body + seq![0u8, 0u8]
}

/// A packet's wire form is fourteen bytes longer than its body.
pub proof fn lemma_packet_bytes_len(body: Seq<u8>, packet_type: i32, request_id: i32)
    ensures
        packet_bytes(body, packet_type, request_id).len() == body.len() + 14,
{
    lemma_i32_le_roundtrip((MIN_PACKET_SIZE + body.len()) as i32);
    lemma_i32_le_roundtrip(request_id);
    lemma_i32_le_roundtrip(packet_type);
}

/// Serialises one packet: the size, the id, the type, the body's UTF-8
/// bytes as they are, and the two terminating NULs.
pub fn encode(body: &str, packet_type: i32, request_id: i32) -> (bytes: Vec<u8>)
    requires
        body.len() <= MAX_BODY_LEN,
    ensures
        bytes@ == packet_bytes(body.spec_bytes(), packet_type, request_id),
{
    let text = body.as_bytes();
    let len = text.len();
    assert(len == body.len());
    let size: i32 = MIN_PACKET_SIZE + len as i32;
    let mut w: Vec<u8> = Vec::with_capacity(10);
    write_i32_le(&mut w, size);
    write_i32_le(&mut w, request_id);
    write_i32_le(&mut w, packet_type);
    let ghost head = w@;
    w.extend_from_slice(text);
    assert(w@ == head + text@);
    write_byte(&mut w, 0);
    write_byte(&mut w, 0);
    w
}

/// The index of the first NUL byte of `s`, or the length of `s` if it has none.
pub open spec fn first_nul(s: Seq<u8>) -> int
    decreases s.len(),
{
    if s.len() == 0 || s[0] == 0 {
        0
    } else {
        1 + first_nul(s.drop_first())
    }
}

/// `first_nul(s)` is where the NUL-free prefix of `s` ends.
pub proof fn lemma_first_nul(s: Seq<u8>)
    ensures
        0 <= first_nul(s) <= s.len(),
        forall|i: int| 0 <= i < first_nul(s) ==> s[i] != 0,
        first_nul(s) < s.len() ==> s[first_nul(s)] == 0,
    decreases s.len(),
{
    if s.len() == 0 || s[0] == 0 {
    } else {
        let t = s.drop_first();
        lemma_first_nul(t);
        assert forall|i: int| 0 <= i < first_nul(s) implies s[i] != 0 by {
            if i > 0 {
                assert(s[i] == t[i - 1]);
            }
        }
    }
}

/// Only one index ends the NUL-free prefix of `s`.
pub proof fn lemma_first_nul_unique(s: Seq<u8>, k: int)
    requires
        0 <= k <= s.len(),
        forall|i: int| 0 <= i < k ==> s[i] != 0,
        k < s.len() ==> s[k] == 0,
    ensures
        first_nul(s) == k,
{
    lemma_first_nul(s);
    let f = first_nul(s);
    if f < k {
        assert(s[f] != 0);
    } else if k < f {
        assert(s[k] == 0);
    }
}

/// The bytes of the body within what follows the id and the type in a
/// payload: all that stands before the first NUL.
pub open spec fn body_bytes(tail: Seq<u8>) -> Seq<u8> {
    tail.subrange(0, first_nul(tail))
}

/// What a run of bytes holds, read as one packet.
pub enum Decoded {
    /// A whole packet, and the number of bytes that it occupies.
    Packet { response: ResponseView, consumed: nat },
    /// The bytes end before the packet does.
    Truncated,
    /// The declared size is under `MIN_PACKET_SIZE`.
    InvalidSize,
    /// The body is not valid UTF-8.
    InvalidText,
}

/// The `size` field at the start of `bytes`.
pub open spec fn declared_size(bytes: Seq<u8>) -> int
    recommends
        bytes.len() >= 4,
{
    i32_from_le_bytes(bytes) as int
}

/// What a payload holds: the id, the type, and the body up to its NUL.
pub open spec fn spec_decode_payload(payload: Seq<u8>) -> Decoded {
    if payload.len() < 8 {
        Decoded::Truncated
    } else {
        let text = body_bytes(payload.subrange(8, payload.len() as int));
        if valid_utf8(text) {
            Decoded::Packet {
                response: ResponseView {
                    req_id: i32_from_le_bytes(payload),
                    packet_type: i32_from_le_bytes(payload.subrange(4, payload.len() as int)),
                    body: decode_utf8(text),
                },
                consumed: payload.len(),
            }
        } else {
            Decoded::InvalidText
        }
    }
}

/// What the start of `bytes` holds: the packet of `declared_size(bytes)`
/// payload bytes that begins there, whatever follows it.
pub open spec fn spec_decode(bytes: Seq<u8>) -> Decoded {
    if bytes.len() < 4 {
        Decoded::Truncated
    } else if declared_size(bytes) < MIN_PACKET_SIZE {
        Decoded::InvalidSize
    } else if bytes.len() < 4 + declared_size(bytes) {
        Decoded::Truncated
    } else {
        match spec_decode_payload(bytes.subrange(4, 4 + declared_size(bytes))) {
            Decoded::Packet { response, consumed } => Decoded::Packet {
                response,
                consumed: 4 + consumed,
            },
            other => other,
        }
    }
}

/// Whether `res` is the result that stands for `outcome`: the packet, or
/// the error of its kind.
pub open spec fn reports(res: Result<Response, Error>, outcome: Decoded) -> bool {
    match outcome {
        Decoded::Packet { response, .. } => res matches Ok(r) && r@ == response,
        Decoded::Truncated => res matches Err(Error::IOError(_)),
        Decoded::InvalidSize => res matches Err(Error::InvalidPacket),
        Decoded::InvalidText => res matches Err(Error::UTF8Error(_)),
    }
}

/// Whether `res` is the result that stands for `outcome`: the packet with
/// the number of bytes it occupies, or the error of its kind.
pub open spec fn reports_with_len(res: Result<(Response, usize), Error>, outcome: Decoded) -> bool {
    match outcome {
        Decoded::Packet { response, consumed } => res matches Ok((r, n)) && r@ == response && n
            == consumed,
        Decoded::Truncated => res matches Err(Error::IOError(_)),
        Decoded::InvalidSize => res matches Err(Error::InvalidPacket),
        Decoded::InvalidText => res matches Err(Error::UTF8Error(_)),
    }
}

/// `String::from_utf8`: the text that the bytes encode, if they are valid
/// UTF-8, and its error if they are not.
#[verifier::external_body]
fn string_from_utf8(bytes: Vec<u8>) -> (res: Result<String, FromUtf8Error>)
    ensures
        res is Ok <==> valid_utf8(bytes@),
        res is Ok ==> res->Ok_0@ == decode_utf8(bytes@),
{
    String::from_utf8(bytes)
}

/// Reads the `size` field that starts a packet, and gives the number of
/// payload bytes that follow it.
pub fn payload_len(header: &[u8]) -> (res: Result<usize, Error>)
    ensures
        header@.len() < 4 ==> (res matches Err(Error::IOError(_))),
        header@.len() >= 4 && declared_size(header@) < MIN_PACKET_SIZE ==> (res matches Err(
            Error::InvalidPacket,
        )),
        header@.len() >= 4 && declared_size(header@) >= MIN_PACKET_SIZE ==> (res matches Ok(n)
            && n == declared_size(header@)),
{
    match read_i32_le(header) {
        Err(e) => Err(Error::IOError(e)),
        Ok(size) => {
            if size < MIN_PACKET_SIZE {
                Err(Error::InvalidPacket)
            } else {
                Ok(size as usize)
            }
        },
    }
}

/// Decodes the payload of one packet: the id, the type, and as body the
/// text before the first NUL.
pub fn decode_payload(payload: &[u8]) -> (res: Result<Response, Error>)
    ensures
        reports(res, spec_decode_payload(payload@)),
{
    let req_id = match read_i32_le(payload) {
        Err(e) => { return Err(Error::IOError(e)); },
        Ok(n) => n,
    };
    let packet_type = match read_i32_le(slice_subrange(payload, 4, payload.len())) {
        Err(e) => { return Err(Error::IOError(e)); },
        Ok(n) => n,
    };
    let tail = slice_subrange(payload, 8, payload.len());
    let mut end: usize = 0;
    while end < tail.len() && tail[end] != 0
        invariant
            end <= tail@.len(),
            forall|i: int| 0 <= i < end ==> tail@[i] != 0,
        decreases tail@.len() - end,
    {
        end += 1;
    }
    proof {
        lemma_first_nul_unique(tail@, end as int);
    }
    let text = slice_to_vec(slice_subrange(tail, 0, end));
    match string_from_utf8(text) {
        Err(e) => Err(Error::UTF8Error(e)),
        Ok(body) => Ok(Response { req_id, packet_type, body }),
    }
}

/// Decodes the packet at the start of `buf`, and says how many bytes it
/// occupies: the next packet starts right after them.
pub fn decode(buf: &[u8]) -> (res: Result<(Response, usize), Error>)
    ensures
        reports_with_len(res, spec_decode(buf@)),
{
    let size = payload_len(buf)?;
    if buf.len() - 4 < size {
        return Err(Error::IOError(unexpected_eof()));
    }
    let resp = decode_payload(slice_subrange(buf, 4, 4 + size))?;
    Ok((resp, 4 + size))
}

/// A packet's wire form, followed by anything, decodes to that packet and
/// to its own length: what follows is left for the next call.
pub proof fn lemma_decode_stops_at_packet_end(
    body: Seq<char>,
    packet_type: i32,
    request_id: i32,
    rest: Seq<u8>,
)
    requires
        !encode_utf8(body).contains(0u8),
        encode_utf8(body).len() <= MAX_BODY_LEN,
    ensures
        spec_decode(packet_bytes(encode_utf8(body), packet_type, request_id) + rest) == (
        Decoded::Packet {
            response: ResponseView { req_id: request_id, packet_type, body },
            consumed: packet_bytes(encode_utf8(body), packet_type, request_id).len(),
        }),
{
    let text = encode_utf8(body);
    let n = text.len() as int;
    let size = (MIN_PACKET_SIZE + n) as i32;
    let packet = packet_bytes(text, packet_type, request_id);
    let bytes = packet + rest;
    lemma_i32_le_roundtrip(size);
    lemma_i32_le_roundtrip(request_id);
    lemma_i32_le_roundtrip(packet_type);
    lemma_packet_bytes_len(text, packet_type, request_id);

    assert(i32_from_le_bytes(bytes) == i32_from_le_bytes(i32_le_bytes(size)));
    assert(declared_size(bytes) == MIN_PACKET_SIZE + n);

    let payload = bytes.subrange(4, 4 + declared_size(bytes));
    assert(payload =~= i32_le_bytes(request_id) + i32_le_bytes(packet_type) + text + seq![
        0u8,
        0u8,
    ]);
    assert(i32_from_le_bytes(payload) == i32_from_le_bytes(i32_le_bytes(request_id)));
    let after_id = payload.subrange(4, payload.len() as int);
    assert(i32_from_le_bytes(after_id) == i32_from_le_bytes(i32_le_bytes(packet_type)));

    let tail = payload.subrange(8, payload.len() as int);
    assert(tail =~= text + seq![0u8, 0u8]);
    assert forall|i: int| 0 <= i < n implies tail[i] != 0 by {
        assert(text.contains(text[i]));
    }
    lemma_first_nul_unique(tail, n);
    assert(body_bytes(tail) =~= text);
    encode_utf8_valid_utf8(body);
    encode_utf8_decode_utf8(body);
}

/// Round trip: decoding the wire form of a packet whose body holds no NUL
/// byte gives back its id, its type and its body.
pub proof fn lemma_decode_encode_roundtrip(body: Seq<char>, packet_type: i32, request_id: i32)
    requires
        !encode_utf8(body).contains(0u8),
        encode_utf8(body).len() <= MAX_BODY_LEN,
    ensures
        spec_decode(packet_bytes(encode_utf8(body), packet_type, request_id)) == (Decoded::Packet {
            response: ResponseView { req_id: request_id, packet_type, body },
            consumed: packet_bytes(encode_utf8(body), packet_type, request_id).len(),
        }),
{
    let packet = packet_bytes(encode_utf8(body), packet_type, request_id);
    lemma_decode_stops_at_packet_end(body, packet_type, request_id, Seq::empty());
    assert(packet + Seq::<u8>::empty() =~= packet);
}

/// Minimum size: bytes that declare a size under `MIN_PACKET_SIZE` are an
/// invalid packet, whatever stands after the size.
pub proof fn lemma_small_size_is_invalid(size: i32, rest: Seq<u8>)
    requires
        size < MIN_PACKET_SIZE,
    ensures
        spec_decode(i32_le_bytes(size) + rest) == Decoded::InvalidSize,
{
    lemma_i32_le_roundtrip(size);
    let bytes = i32_le_bytes(size) + rest;
    assert(i32_from_le_bytes(bytes) == i32_from_le_bytes(i32_le_bytes(size)));
}

} // verus!
