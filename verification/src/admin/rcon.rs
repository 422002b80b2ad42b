//! Remote console (RCON) protocol.
//!
//! A packet is `[length: i32 LE][request id: i32 LE][type: i32 LE]
//! [payload][0x00][0x00]`, where `length` counts the bytes after itself.
//! Types: 3 = login, 2 = command, 0 = response.

use vstd::prelude::*;
use vstd::string::*;
use crate::net::session::{hex_lower, hex_text, sha1_digest, sha1_of};
use vstd::utf8::encode_utf8;
use crate::text::{has_prefix, starts_with, skip_chars, str_eq};
use crate::words::{trim, trim_spec};

verus! {

pub const RCON_TYPE_RESPONSE: i32 = 0;
pub const RCON_TYPE_COMMAND: i32 = 2;
pub const RCON_TYPE_LOGIN: i32 = 3;
/// Request id that answers a failed login.
pub const RCON_AUTH_FAILED: i32 = -1;
/// Smallest accepted length field (empty payload).
pub const RCON_MIN_LEN: i32 = 10;
/// Largest accepted length field.
pub const RCON_MAX_LEN: i32 = 4110;

/// Little-endian bytes of a 32-bit value.
pub open spec fn le_bytes(v: u32) -> Seq<u8> {
    seq![(v & 0xff) as u8, ((v >> 8u32) & 0xff) as u8, ((v >> 16u32) & 0xff) as u8, ((v >> 24u32) & 0xff) as u8]
}

/// The 32-bit value of four little-endian bytes.
pub open spec fn le_value(b0: u8, b1: u8, b2: u8, b3: u8) -> u32 {
    (b0 as u32) | ((b1 as u32) << 8u32) | ((b2 as u32) << 16u32) | ((b3 as u32) << 24u32)
}

fn put_le(out: &mut Vec<u8>, v: i32)
    ensures
        final(out)@ == old(out)@ + le_bytes(v as u32),
{
    let u = v as u32;
    out.push((u & 0xff) as u8);
    out.push(((u >> 8u32) & 0xff) as u8);
    out.push(((u >> 16u32) & 0xff) as u8);
    out.push(((u >> 24u32) & 0xff) as u8);
    assert(final(out)@ =~= old(out)@ + le_bytes(v as u32));
}

fn get_le(b0: u8, b1: u8, b2: u8, b3: u8) -> (r: i32)
    ensures
        r == le_value(b0, b1, b2, b3) as i32,
{
    let u: u32 = (b0 as u32) | ((b1 as u32) << 8u32) | ((b2 as u32) << 16u32) | ((b3 as u32) << 24u32);
    u as i32
}

/// Reading back the bytes of a value gives the value.
proof fn lemma_le_round_trip(v: i32)
    ensures
        le_value(le_bytes(v as u32)[0], le_bytes(v as u32)[1], le_bytes(v as u32)[2], le_bytes(v as u32)[3]) as i32 == v,
{
    let u = v as u32;
    let b0 = (u & 0xff) as u8;
    let b1 = ((u >> 8u32) & 0xff) as u8;
    let b2 = ((u >> 16u32) & 0xff) as u8;
    let b3 = ((u >> 24u32) & 0xff) as u8;
    assert(((b0 as u32) | ((b1 as u32) << 8u32) | ((b2 as u32) << 16u32) | ((b3 as u32) << 24u32)) == u) by (bit_vector)
        requires
            b0 == (u & 0xff) as u8,
            b1 == ((u >> 8u32) & 0xff) as u8,
            b2 == ((u >> 16u32) & 0xff) as u8,
            b3 == ((u >> 24u32) & 0xff) as u8;
    assert((u as i32) == v) by (bit_vector)
        requires u == v as u32;
}

/// One RCON packet.
#[derive(Debug, Clone, PartialEq, Eq)]
pub struct RconPacket {
    pub request_id: i32,
    pub ptype: i32,
    pub payload: Vec<u8>,
}

/// Wire bytes of a packet whose payload is `payload`.
pub open spec fn rcon_wire(request_id: i32, ptype: i32, payload: Seq<u8>) -> Seq<u8> {
    le_bytes((10 + payload.len()) as i32 as u32) + le_bytes(request_id as u32) + le_bytes(ptype as u32)
        + payload + seq![0u8, 0u8]
}

/// Encodes a packet with a text payload.
pub fn encode_rcon_packet(request_id: i32, ptype: i32, payload: &str) -> (r: Vec<u8>)
    requires
        payload.spec_bytes().len() <= i32::MAX - 10,
    ensures
        r@ == rcon_wire(request_id, ptype, payload.spec_bytes()),
{
    let bytes = payload.as_bytes_vec();
    let total_len: i32 = 10 + bytes.len() as i32;
    let mut packet: Vec<u8> = Vec::new();
    put_le(&mut packet, total_len);
    put_le(&mut packet, request_id);
    put_le(&mut packet, ptype);
    let ghost head = packet@;
    let mut i: usize = 0;
    while i < bytes.len()
        invariant
            i <= bytes@.len(),
            packet@ == head + bytes@.subrange(0, i as int),
        decreases bytes@.len() - i,
    {
        packet.push(bytes[i]);
        i = i + 1;
        assert(packet@ =~= head + bytes@.subrange(0, i as int));
    }
    assert(bytes@.subrange(0, bytes@.len() as int) =~= bytes@);
    packet.push(0u8);
    packet.push(0u8);
    assert(packet@ =~= rcon_wire(request_id, ptype, payload.spec_bytes()));
    packet
}

/// Number of bytes that follow the length field, when the length is
/// acceptable (10 to 4110); otherwise the refusal `"invalid RCON length: <n>"`.
pub fn rcon_body_len(len_bytes: &[u8; 4]) -> (r: Result<usize, i32>)
    ensures
        ({
            let n = le_value(len_bytes@[0], len_bytes@[1], len_bytes@[2], len_bytes@[3]) as i32;
            if RCON_MIN_LEN <= n <= RCON_MAX_LEN { r == Ok::<usize, i32>(n as usize) } else { r == Err::<usize, i32>(n) }
        }),
{
    let n = get_le(len_bytes[0], len_bytes[1], len_bytes[2], len_bytes[3]);
    if RCON_MIN_LEN <= n && n <= RCON_MAX_LEN {
        Ok(n as usize)
    } else {
        Err(n)
    }
}

/// Splits the bytes after the length field into request id, type and
/// payload (the two trailing padding bytes are dropped).
pub fn decode_rcon_body(body: &[u8]) -> (r: RconPacket)
    requires
        10 <= body@.len(),
    ensures
        r.request_id == le_value(body@[0], body@[1], body@[2], body@[3]) as i32,
        r.ptype == le_value(body@[4], body@[5], body@[6], body@[7]) as i32,
        r.payload@ == body@.subrange(8, body@.len() - 2),
{
    let request_id = get_le(body[0], body[1], body[2], body[3]);
    let ptype = get_le(body[4], body[5], body[6], body[7]);
    let end = body.len() - 2;
    let mut payload: Vec<u8> = Vec::new();
    let mut i: usize = 8;
    while i < end
        invariant
            8 <= i <= end,
            end == body@.len() - 2,
            payload@ == body@.subrange(8, i as int),
        decreases end - i,
    {
        payload.push(body[i]);
        i = i + 1;
        assert(payload@ =~= body@.subrange(8, i as int));
    }
    RconPacket { request_id, ptype, payload }
}

/// Decoding the bytes that `encode_rcon_packet` writes gives back the
/// request id, type and payload, and the length field announces exactly the
/// bytes that follow it.
pub proof fn rcon_packet_round_trip(request_id: i32, ptype: i32, payload: Seq<u8>)
    requires
        payload.len() <= RCON_MAX_LEN - 10,
    ensures
        ({
            let w = rcon_wire(request_id, ptype, payload);
            let n = le_value(w[0], w[1], w[2], w[3]) as i32;
            let body = w.subrange(4, w.len() as int);
            &&& RCON_MIN_LEN <= n <= RCON_MAX_LEN
            &&& n == body.len()
            &&& le_value(body[0], body[1], body[2], body[3]) as i32 == request_id
            &&& le_value(body[4], body[5], body[6], body[7]) as i32 == ptype
            &&& body.subrange(8, body.len() - 2) == payload
        }),
{
    let total: i32 = (10 + payload.len()) as i32;
    lemma_le_round_trip(total);
    lemma_le_round_trip(request_id);
    lemma_le_round_trip(ptype);
    let w = rcon_wire(request_id, ptype, payload);
    let body = w.subrange(4, w.len() as int);
    assert(body.subrange(8, body.len() - 2) =~= payload);
}

// ──────────────────────────────── sessions ────────────────────────────────

/// Whether a login password matches the configured one. A configured value
/// `$sha1$<hex>` holds the lower-case hex SHA-1 of the password's bytes.
pub open spec fn password_accepted(configured: Seq<char>, given: Seq<char>) -> bool {
    if has_prefix(configured, "$sha1$"@) {
        hex_text(sha1_of(encode_utf8(given))) == configured.subrange(6, configured.len() as int)
    } else {
        given == configured
    }
}

/// Checks a login password against the configured one.
pub fn password_matches(configured: &str, given: &str) -> (r: bool)
    ensures
        r == password_accepted(configured@, given@),
{
    let prefix = "$sha1$";
    proof { reveal_strlit("$sha1$"); }
    if starts_with(configured, prefix) {
        let expected = skip_chars(configured, 6);
        let bytes = given.as_bytes_vec();
        let digest = sha1_digest(bytes.as_slice());
        let hex = hex_lower(digest.as_slice());
        str_eq(hex.as_str(), expected.as_str())
    } else {
        str_eq(given, configured)
    }
}

/// The text `String::from_utf8_lossy` reads from bytes (invalid sequences
/// become U+FFFD).
pub uninterp spec fn lossy_utf8(bytes: Seq<u8>) -> Seq<char>;

/// `String::from_utf8_lossy(bytes)`, as an owned string; its text is
/// named, not described.
#[verifier::external_body]
fn decode_lossy(bytes: &[u8]) -> (r: String)
    ensures
        r@ == lossy_utf8(bytes@),
{
    String::from_utf8_lossy(bytes).into_owned()
}

/// Text of a payload: lossy UTF-8 decoding, then white space trimmed at
/// both ends.
pub open spec fn payload_text(payload: Seq<u8>) -> Seq<char> {
    trim_spec(lossy_utf8(payload))
}

fn decode_payload_text(payload: &[u8]) -> (r: String)
    ensures
        r@ == payload_text(payload@),
{
    let text = decode_lossy(payload);
    trim(text.as_str())
}

/// What to answer to the first packet of a connection. A login packet with
/// the right password is answered with its own request id and type 2; any
/// other first packet with request id -1 and type 2, and the connection
/// ends. The reply payload is empty.
pub open spec fn login_outcome(request_id: i32, ptype: i32, password_ok: bool) -> (bool, i32) {
    if ptype == RCON_TYPE_LOGIN && password_ok {
        (true, request_id)
    } else {
        (false, RCON_AUTH_FAILED)
    }
}

/// Handles the login packet: whether the session is authenticated, and the
/// request id of the reply (the reply has type 2 and an empty payload).
pub fn authenticate(configured: &str, packet: &RconPacket) -> (r: (bool, i32))
    ensures
        r == login_outcome(packet.request_id, packet.ptype,
            password_accepted(configured@, payload_text(packet.payload@))),
{
    if packet.ptype == RCON_TYPE_LOGIN {
        let pass = decode_payload_text(packet.payload.as_slice());
        if password_matches(configured, pass.as_str()) {
            (true, packet.request_id)
        } else {
            (false, RCON_AUTH_FAILED)
        }
    } else {
        (false, RCON_AUTH_FAILED)
    }
}

/// What an authenticated session does with a packet.
#[derive(Debug, Clone, PartialEq, Eq)]
pub enum RconStep {
    /// Not a command packet: nothing is answered.
    Ignore,
    /// An empty command: answered at once with an empty response.
    ReplyEmpty(i32),
    /// A command to run; its outcome is answered with `command_reply`.
    Dispatch(i32, String),
}

/// Classifies a packet of an authenticated session.
pub fn command_step(packet: &RconPacket) -> (r: RconStep)
    ensures
        packet.ptype != RCON_TYPE_COMMAND ==> r == RconStep::Ignore,
        packet.ptype == RCON_TYPE_COMMAND && payload_text(packet.payload@).len() == 0 ==> r == RconStep::ReplyEmpty(packet.request_id),
        packet.ptype == RCON_TYPE_COMMAND && payload_text(packet.payload@).len() > 0 ==>
            (r matches RconStep::Dispatch(id, cmd) && id == packet.request_id && cmd@ == payload_text(packet.payload@)),
{
    if packet.ptype != RCON_TYPE_COMMAND {
        return RconStep::Ignore;
    }
    let cmd = decode_payload_text(packet.payload.as_slice());
    if cmd.as_str().unicode_len() == 0 {
        RconStep::ReplyEmpty(packet.request_id)
    } else {
        RconStep::Dispatch(packet.request_id, cmd)
    }
}

/// The response to a dispatched command: its output, or its error text,
/// under the request id of the command and type 0.
pub fn command_reply(request_id: i32, result: Result<String, String>) -> (r: (i32, i32, String))
    ensures
        r.0 == request_id,
        r.1 == RCON_TYPE_RESPONSE,
        match result {
            Ok(m) => r.2@ == m@,
            Err(e) => r.2@ == e@,
        },
{
    match result {
        Ok(m) => (request_id, RCON_TYPE_RESPONSE, m),
        Err(e) => (request_id, RCON_TYPE_RESPONSE, e),
    }
}

} // verus!
