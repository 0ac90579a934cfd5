//! The RCON wire format of game-server consoles: a packet is a 12-byte
//! header of three little-endian 32-bit integers (length, request id, packet
//! type), the payload, and two NUL bytes. Connecting and moving the bytes is
//! left to the caller.

use crate::proto::task::{TaskError, TaskErrorView};
use crate::text::{from_utf8_lossy_text, utf8_lossy};
use vstd::prelude::*;
use vstd::string::StringSliceAdditionalSpecFns;
use vstd::utf8::{decode_utf8, encode_utf8, valid_utf8};

verus! {

/// The packet type of a console command.
pub const RCON_TYPE_COMMAND: i32 = 2;

/// The packet type of a login.
pub const RCON_AUTH: i32 = 3;

/// The four little-endian bytes of `v`.
pub open spec fn le32(v: i32) -> Seq<u8> {
    let u = v as u32;
    seq![(u & 0xff) as u8, ((u >> 8u32) & 0xff) as u8, ((u >> 16u32) & 0xff) as u8, ((u >> 24u32) & 0xff) as u8]
}

/// The integer whose little-endian bytes are `b0` to `b3`.
pub open spec fn from_le32(b0: u8, b1: u8, b2: u8, b3: u8) -> i32 {
    ((b0 as u32) | ((b1 as u32) << 8u32) | ((b2 as u32) << 16u32) | ((b3 as u32) << 24u32)) as i32
}

/// The length field a packet carries for a payload of `n` bytes: what
/// follows the field, that is four bytes each for id and type, the payload
/// and two NUL bytes.
pub open spec fn spec_length_field(n: nat) -> i32 {
    (10 + n) as i32
}

/// The bytes of a packet.
pub open spec fn spec_packet(packet_type: i32, id: i32, payload: Seq<u8>) -> Seq<u8> {
    le32(spec_length_field(payload.len())) + le32(id) + le32(packet_type) + payload + seq![0u8, 0u8]
}

fn push_le32(out: &mut Vec<u8>, v: i32)
    ensures
        final(out)@ == old(out)@ + le32(v),
{
    let u = v as u32;
    out.push((u & 0xff) as u8);
    out.push(((u >> 8u32) & 0xff) as u8);
    out.push(((u >> 16u32) & 0xff) as u8);
    out.push(((u >> 24u32) & 0xff) as u8);
    assert(final(out)@ =~= old(out)@ + le32(v));
}

/// The packet of type `packet_type` and request id `id` carrying the UTF-8
/// bytes of `payload`.
pub fn encode_packet(packet_type: i32, id: i32, payload: &str) -> (p: Vec<u8>)
    requires
        payload.spec_bytes().len() + 10 <= usize::MAX,
    ensures
        p@ == spec_packet(packet_type, id, payload.spec_bytes()),
{
    let bytes = payload.as_bytes();
    let length: usize = 10 + bytes.len();
    let mut packet: Vec<u8> = Vec::new();
    push_le32(&mut packet, length as i32);
    push_le32(&mut packet, id);
    push_le32(&mut packet, packet_type);
    let ghost head = packet@;
    let mut i: usize = 0;
    while i < bytes.len()
        invariant
            i <= bytes@.len(),
            packet@ == head + bytes@.take(i as int),
        decreases bytes@.len() - i,
    {
        packet.push(bytes[i]);
        assert(bytes@.take(i + 1) =~= bytes@.take(i as int).push(bytes@[i as int]));
        i = i + 1;
    }
    assert(bytes@.take(bytes@.len() as int) =~= bytes@);
    packet.push(0u8);
    packet.push(0u8);
    assert(packet@ =~= spec_packet(packet_type, id, payload.spec_bytes()));
    packet
}

/// The three fields of a packet header.
#[derive(Debug, Clone, Copy, PartialEq, Eq, Structural)]
pub struct RconHeader {
    pub length: i32,
    pub id: i32,
    pub packet_type: i32,
}

/// The header that the 12 bytes `h` spell.
pub open spec fn spec_header(h: Seq<u8>) -> RconHeader {
    RconHeader {
        length: from_le32(h[0], h[1], h[2], h[3]),
        id: from_le32(h[4], h[5], h[6], h[7]),
        packet_type: from_le32(h[8], h[9], h[10], h[11]),
    }
}

fn read_le32(b: &[u8], at: usize) -> (v: i32)
    requires
        at + 4 <= b@.len(),
    ensures
        v == from_le32(b@[at as int], b@[at + 1], b@[at + 2], b@[at + 3]),
{
    ((b[at] as u32) | ((b[at + 1] as u32) << 8u32) | ((b[at + 2] as u32) << 16u32) | ((b[at + 3] as u32) << 24u32)) as i32
}

/// Reads a packet header.
pub fn decode_header(header: &[u8]) -> (h: RconHeader)
    requires
        header@.len() == 12,
    ensures
        h == spec_header(header@),
{
    RconHeader { length: read_le32(header, 0), id: read_le32(header, 4), packet_type: read_le32(header, 8) }
}

/// How many bytes follow the 12-byte header of a packet: the length counts
/// the id and type, already read with the header, then the body and its two
/// NUL bytes, so the rest is the length less eight. A length under ten, too
/// short to hold id, type and the two NUL bytes, is refused by `requires`.
pub fn payload_length(h: &RconHeader) -> (n: usize)
    requires
        h.length >= 10,
    ensures
        n == h.length - 8,
{
    (h.length - 8) as usize
}

/// The text with its trailing NUL characters removed.
pub open spec fn trim_end_nul(s: Seq<char>) -> Seq<char>
    decreases s.len(),
{
    if s.len() > 0 && s.last() == '\0' {
        trim_end_nul(s.drop_last())
    } else {
        s
    }
}

/// The bytes of a payload but its last two (the NUL terminators).
pub open spec fn payload_body(payload: Seq<u8>) -> Seq<u8> {
    if payload.len() >= 2 { payload.take(payload.len() - 2) } else { Seq::empty() }
}

/// The text of a received payload: the bytes before the two terminators,
/// decoded leniently, with trailing NUL characters removed.
pub open spec fn spec_payload_text(payload: Seq<u8>) -> Seq<char> {
    trim_end_nul(utf8_lossy(payload_body(payload)))
}

/// Reads the text of a received payload.
pub fn decode_payload(payload: &[u8]) -> (s: String)
    ensures
        s@ == spec_payload_text(payload@),
        valid_utf8(payload_body(payload@)) ==> s@ == trim_end_nul(decode_utf8(payload_body(payload@))),
{
    let n: usize = if payload.len() >= 2 { payload.len() - 2 } else { 0 };
    let mut body: Vec<u8> = Vec::new();
    let mut i: usize = 0;
    while i < n
        invariant
            n <= payload@.len(),
            i <= n,
            body@ == payload@.take(i as int),
        decreases n - i,
    {
        body.push(payload[i]);
        assert(payload@.take(i + 1) =~= payload@.take(i as int).push(payload@[i as int]));
        i = i + 1;
    }
    assert(body@ =~= payload_body(payload@));
    let text = from_utf8_lossy_text(body.as_slice());
    strip_trailing_nul(text.as_str())
}

/// The text without its trailing NUL characters.
pub fn strip_trailing_nul(text: &str) -> (s: String)
    ensures
        s@ == trim_end_nul(text@),
{
    let chars = crate::text::to_chars(text);
    let mut end: usize = chars.len();
    assert(chars@.take(chars@.len() as int) =~= chars@);
    while end > 0 && chars[end - 1] == '\0'
        invariant
            end <= chars@.len(),
            trim_end_nul(chars@.take(end as int)) == trim_end_nul(chars@),
        decreases end,
    {
        assert(chars@.take(end as int).drop_last() =~= chars@.take(end - 1));
        end = end - 1;
    }
    let mut kept: Vec<char> = Vec::new();
    let mut j: usize = 0;
    while j < end
        invariant
            end <= chars@.len(),
            j <= end,
            kept@ == chars@.take(j as int),
        decreases end - j,
    {
        kept.push(chars[j]);
        assert(chars@.take(j + 1) =~= chars@.take(j as int).push(chars@[j as int]));
        j = j + 1;
    }
    assert(kept@ =~= chars@.take(end as int));
    assert(trim_end_nul(chars@.take(end as int)) == chars@.take(end as int));
    crate::text::from_chars(kept.as_slice())
}

/// A reply read from the server.
#[derive(Debug)]
pub struct RconResponse {
    pub id: i32,
    pub packet_type: i32,
    pub payload: String,
}

/// Reads a reply from its 12 header bytes and its payload bytes.
pub fn decode_response(header: &[u8], payload: &[u8]) -> (r: RconResponse)
    requires
        header@.len() == 12,
    ensures
        r.id == spec_header(header@).id,
        r.packet_type == spec_header(header@).packet_type,
        r.payload@ == spec_payload_text(payload@),
{
    let h = decode_header(header);
    RconResponse { id: h.id, packet_type: h.packet_type, payload: decode_payload(payload) }
}

/// The request ids of a console session: they start at 1 and go up by one
/// per request, wrapping around.
pub struct RconSession {
    pub packet_id: i32,
}

/// The id after `id`, wrapping from `i32::MAX` to `i32::MIN`.
pub open spec fn next_packet_id(id: i32) -> i32 {
    if id == i32::MAX { i32::MIN } else { (id + 1) as i32 }
}

impl RconSession {
    /// A session whose first request gets id 1.
    pub fn new() -> (s: Self)
        ensures
            s.packet_id == 1,
    {
        RconSession { packet_id: 1 }
    }

    /// The id of the next request.
    pub fn next_id(&mut self) -> (id: i32)
        ensures
            id == old(self).packet_id,
            final(self).packet_id == next_packet_id(old(self).packet_id),
    {
        let id = self.packet_id;
        self.packet_id = self.packet_id.wrapping_add(1);
        id
    }

    /// The login packet for `password`, with its request id.
    pub fn auth_packet(&mut self, password: &str) -> (r: (i32, Vec<u8>))
        requires
            password.spec_bytes().len() + 10 <= usize::MAX,
        ensures
            r.0 == old(self).packet_id,
            final(self).packet_id == next_packet_id(old(self).packet_id),
            r.1@ == spec_packet(RCON_AUTH, r.0, password.spec_bytes()),
    {
        let id = self.next_id();
        (id, encode_packet(RCON_AUTH, id, password))
    }

    /// The packet of the console command `command`, with its request id.
    pub fn command_packet(&mut self, command: &str) -> (r: (i32, Vec<u8>))
        requires
            command.spec_bytes().len() + 10 <= usize::MAX,
        ensures
            r.0 == old(self).packet_id,
            final(self).packet_id == next_packet_id(old(self).packet_id),
            r.1@ == spec_packet(RCON_TYPE_COMMAND, r.0, command.spec_bytes()),
    {
        let id = self.next_id();
        (id, encode_packet(RCON_TYPE_COMMAND, id, command))
    }
}

/// The outcome of a login: accepted when the reply carries the login's
/// request id.
pub fn check_auth_reply(request_id: i32, response: &RconResponse) -> (r: Result<(), TaskError>)
    ensures
        response.id == request_id ==> r is Ok,
        response.id != request_id ==> r is Err && r->Err_0@ == (TaskErrorView {
            code: "AUTH_FAILED"@,
            message: "Authentication failed - invalid packet ID"@,
            retryable: false,
            details: None,
        }),
{
    if response.id != request_id {
        return Err(TaskError::new("AUTH_FAILED", "Authentication failed - invalid packet ID", false));
    }
    Ok(())
}

/// The outcome of a command: the reply's text when the reply carries the
/// command's request id.
pub fn check_command_reply(request_id: i32, response: RconResponse) -> (r: Result<String, TaskError>)
    ensures
        response.id == request_id ==> r is Ok && r->Ok_0@ == response.payload@,
        response.id != request_id ==> r is Err && r->Err_0@ == (TaskErrorView {
            code: "INVALID_RESPONSE"@,
            message: "Response packet ID mismatch"@,
            retryable: true,
            details: None,
        }),
{
    if response.id != request_id {
        return Err(TaskError::new("INVALID_RESPONSE", "Response packet ID mismatch", true));
    }
    Ok(response.payload)
}

/// Reading back the header of a packet gives the fields it was made with,
/// and the bytes it announces after the header are exactly the ones that
/// follow it.
pub proof fn law_header_roundtrip(packet_type: i32, id: i32, payload: Seq<u8>)
    ensures
        spec_header(spec_packet(packet_type, id, payload).take(12)) == (RconHeader {
            length: spec_length_field(payload.len()),
            id: id,
            packet_type: packet_type,
        }),
        payload.len() + 10 <= i32::MAX ==> spec_length_field(payload.len()) - 8 == spec_packet(
            packet_type,
            id,
            payload,
        ).skip(12).len(),
{
    let p = spec_packet(packet_type, id, payload);
    lemma_le32_roundtrip(spec_length_field(payload.len()));
    lemma_le32_roundtrip(id);
    lemma_le32_roundtrip(packet_type);
    assert(p.take(12)[0] == le32(spec_length_field(payload.len()))[0]);
}

/// The text of a packet's payload, read back from the bytes after its
/// header, is the text that was sent, less any trailing NUL characters.
pub proof fn law_payload_roundtrip(packet_type: i32, id: i32, text: Seq<char>)
    ensures
        valid_utf8(payload_body(spec_packet(packet_type, id, encode_utf8(text)).skip(12))),
        trim_end_nul(decode_utf8(payload_body(spec_packet(packet_type, id, encode_utf8(text)).skip(12))))
            == trim_end_nul(text),
{
    broadcast use vstd::utf8::group_utf8_lib;
    let bytes = encode_utf8(text);
    let p = spec_packet(packet_type, id, bytes);
    assert(payload_body(p.skip(12)) =~= bytes);
}

proof fn lemma_le32_roundtrip(v: i32)
    ensures
        from_le32(le32(v)[0], le32(v)[1], le32(v)[2], le32(v)[3]) == v,
{
    let u = v as u32;
    assert(((((u & 0xff) as u8) as u32) | ((((u >> 8u32) & 0xff) as u8) as u32) << 8u32
        | ((((u >> 16u32) & 0xff) as u8) as u32) << 16u32 | ((((u >> 24u32) & 0xff) as u8) as u32) << 24u32) == u)
        by (bit_vector);
    assert((u as i32) == v) by (bit_vector)
        requires
            u == v as u32,
    ;
}

} // verus!
