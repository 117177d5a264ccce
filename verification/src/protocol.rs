//! Byte-exact framing of RCON packets.
//!
//! A frame is `[int32 size][int32 requestId][int32 type][payload][0x00][0x00]`,
//! all integers little-endian and signed, where `size` counts everything
//! after the size field itself.  Encoding and decoding are pure and are
//! specified down to the byte against [`encoding`] and [`decoded`].

use crate::error::RconError;
use vstd::bytes::{
    lemma_auto_spec_u32_to_from_le_bytes, spec_u32_from_le_bytes, spec_u32_to_le_bytes,
    u32_from_le_bytes, u32_to_le_bytes,
};
use vstd::prelude::*;
use vstd::slice::{slice_subrange, slice_to_vec};
use vstd::utf8::{decode_utf8, valid_utf8};

verus! {

/// Packet type of an authentication request.
pub const PACKET_TYPE_AUTH: i32 = 3;

/// Packet type of a command request.  The server also uses it for the
/// response to an authentication request: that asymmetry is part of the
/// protocol, not an accident.
pub const PACKET_TYPE_EXECCOMMAND: i32 = 2;

/// Packet type of a command response fragment.
pub const PACKET_TYPE_RESPONSE_VALUE: i32 = 0;

/// Maximum payload of a client-to-server packet.
pub const MAX_REQUEST_PAYLOAD_SIZE: usize = 1446;

/// Maximum payload of one server-to-client response fragment.
pub const MAX_RESPONSE_PAYLOAD_SIZE: usize = 4096;

/// Little-endian bytes of a signed 32-bit integer.
pub open spec fn spec_i32_to_le_bytes(x: i32) -> Seq<u8> {
    spec_u32_to_le_bytes(x as u32)
}

/// The signed 32-bit integer read from four little-endian bytes.
pub open spec fn spec_i32_from_le_bytes(s: Seq<u8>) -> i32 {
    spec_u32_from_le_bytes(s) as i32
}

/// The two conversions invert each other.
pub proof fn lemma_i32_le_bytes_round_trip(x: i32)
    ensures
        spec_i32_to_le_bytes(x).len() == 4,
        spec_i32_from_le_bytes(spec_i32_to_le_bytes(x)) == x,
{
    lemma_auto_spec_u32_to_from_le_bytes();
    assert(spec_u32_to_le_bytes(x as u32).len() == 4);
    assert(spec_u32_from_le_bytes(spec_u32_to_le_bytes(x as u32)) == x as u32);
    assert((x as u32) as i32 == x) by (bit_vector);
}

fn i32_to_le_vec(x: i32) -> (r: Vec<u8>)
    ensures
        r@ == spec_i32_to_le_bytes(x),
        r@.len() == 4,
{
    proof {
        lemma_auto_spec_u32_to_from_le_bytes();
    }
    u32_to_le_bytes(#[verifier::truncate] (x as u32))
}

fn i32_from_le_slice(s: &[u8]) -> (r: i32)
    requires
        s@.len() == 4,
    ensures
        r == spec_i32_from_le_bytes(s@),
{
    #[verifier::truncate]
    (u32_from_le_bytes(s) as i32)
}

/// A payload with its trailing null bytes removed.
pub open spec fn strip_trailing_nulls(s: Seq<u8>) -> Seq<u8>
    decreases s.len(),
{
    if s.len() > 0 && s.last() == 0u8 {
        strip_trailing_nulls(s.drop_last())
    } else {
        s
    }
}

/// The mathematical content of one packet.
pub struct PacketView {
    pub request_id: i32,
    pub packet_type: i32,
    pub payload: Seq<u8>,
}

/// The wire bytes of a packet: size, request id and type in little-endian,
/// then the payload and the two null terminators.
pub open spec fn encoding(p: PacketView) -> Seq<u8> {
    spec_i32_to_le_bytes((p.payload.len() + 10) as i32) + spec_i32_to_le_bytes(p.request_id)
        + spec_i32_to_le_bytes(p.packet_type) + p.payload + seq![0u8, 0u8]
}

/// What decoding a buffer yields: the packet, or the exact error owed.
///
/// A buffer shorter than twelve bytes is `Truncated`; a size field that
/// contradicts the buffer length is `LengthMismatch`; a declared size too
/// small to contain the header and the two terminators is `Truncated`.
pub open spec fn decoded(b: Seq<u8>) -> Result<PacketView, RconError> {
    if b.len() < 12 {
        Err(RconError::Truncated)
    } else if b.len() != spec_i32_from_le_bytes(b.subrange(0, 4)) + 4 {
        Err(RconError::LengthMismatch)
    } else if spec_i32_from_le_bytes(b.subrange(0, 4)) < 10 {
        Err(RconError::Truncated)
    } else {
        Ok(
            PacketView {
                request_id: spec_i32_from_le_bytes(b.subrange(4, 8)),
                packet_type: spec_i32_from_le_bytes(b.subrange(8, 12)),
                payload: strip_trailing_nulls(b.subrange(12, b.len() - 2)),
            },
        )
    }
}

/// The handshake is accepted exactly when the echoed request id matches
/// the one sent, whatever type the response declares.  The `-1` sentinel
/// a server sends for a bad credential can therefore never be accepted
/// for a real request id.
pub open spec fn auth_response_accepted(p: PacketView, expected_request_id: i32) -> bool {
    p.request_id == expected_request_id
}

/// What `String::from_utf8_lossy` yields on arbitrary bytes.
pub uninterp spec fn lossy_utf8(bytes: Seq<u8>) -> Seq<char>;

/// Relies on `String::from_utf8_lossy`: the result is a function of the
/// bytes alone, and valid UTF-8 decodes to its own text with no
/// replacement characters.
#[verifier::external_body]
pub(crate) fn lossy_text(bytes: &[u8]) -> (r: String)
    ensures
        r@ == lossy_utf8(bytes@),
        valid_utf8(bytes@) ==> r@ == decode_utf8(bytes@),
{
    String::from_utf8_lossy(bytes).into_owned()
}

/// One RCON packet: a correlation token, a type tag and the raw payload
/// bytes.
#[derive(Debug, Clone, PartialEq, Eq)]
pub struct RconPacket {
    pub request_id: i32,
    pub packet_type: i32,
    pub payload: Vec<u8>,
}

impl View for RconPacket {
    type V = PacketView;

    open spec fn view(&self) -> PacketView {
        PacketView {
            request_id: self.request_id,
            packet_type: self.packet_type,
            payload: self.payload@,
        }
    }
}

impl RconPacket {
    /// A packet from its parts.
    pub fn new(request_id: i32, packet_type: i32, payload: Vec<u8>) -> (r: Self)
        ensures
            r@ == (PacketView { request_id, packet_type, payload: payload@ }),
    {
        Self { request_id, packet_type, payload }
    }

    /// An authentication request carrying the credential.
    pub fn auth(request_id: i32, password: &str) -> (r: Self)
        ensures
            r@.request_id == request_id,
            r@.packet_type == PACKET_TYPE_AUTH,
            r@.payload == vstd::utf8::encode_utf8(password@),
    {
        Self::new(request_id, PACKET_TYPE_AUTH, slice_to_vec(password.as_bytes()))
    }

    /// A command-execution request carrying the command text.
    pub fn command(request_id: i32, command: &str) -> (r: Self)
        ensures
            r@.request_id == request_id,
            r@.packet_type == PACKET_TYPE_EXECCOMMAND,
            r@.payload == vstd::utf8::encode_utf8(command@),
    {
        Self::new(request_id, PACKET_TYPE_EXECCOMMAND, slice_to_vec(command.as_bytes()))
    }

    /// Serialize the packet.  Fails exactly when the payload exceeds the
    /// client-to-server limit; otherwise yields the wire bytes of
    /// [`encoding`].
    pub fn to_bytes(&self) -> (r: Result<Vec<u8>, RconError>)
        ensures
            match r {
                Ok(bytes) => self@.payload.len() <= MAX_REQUEST_PAYLOAD_SIZE && bytes@ == encoding(
                    self@,
                ),
                Err(e) => self@.payload.len() > MAX_REQUEST_PAYLOAD_SIZE && e
                    == RconError::PayloadTooLarge,
            },
    {
        if self.payload.len() > MAX_REQUEST_PAYLOAD_SIZE {
            return Err(RconError::PayloadTooLarge);
        }
        let size: usize = self.payload.len() + 10;
        let mut out = i32_to_le_vec(size as i32);
        let mut field = i32_to_le_vec(self.request_id);
        out.append(&mut field);
        let mut field2 = i32_to_le_vec(self.packet_type);
        out.append(&mut field2);
        let mut body = slice_to_vec(self.payload.as_slice());
        out.append(&mut body);
        out.push(0u8);
        out.push(0u8);
        proof {
            assert(out@ =~= encoding(self@));
        }
        Ok(out)
    }

    /// Deserialize a packet, yielding exactly what [`decoded`] states.
    pub fn from_bytes(data: &[u8]) -> (r: Result<Self, RconError>)
        ensures
            match r {
                Ok(p) => decoded(data@) == Ok::<PacketView, RconError>(p@),
                Err(e) => decoded(data@) == Err::<PacketView, RconError>(e),
            },
    {
        if data.len() < 12 {
            return Err(RconError::Truncated);
        }
        let size_field = i32_from_le_slice(slice_subrange(data, 0, 4));
        if size_field < 0 || size_field as usize != data.len() - 4 {
            return Err(RconError::LengthMismatch);
        }
        if size_field < 10 {
            return Err(RconError::Truncated);
        }
        let request_id = i32_from_le_slice(slice_subrange(data, 4, 8));
        let packet_type = i32_from_le_slice(slice_subrange(data, 8, 12));
        let mut payload = slice_to_vec(slice_subrange(data, 12, data.len() - 2));
        strip_nulls(&mut payload);
        Ok(Self { request_id, packet_type, payload })
    }

    /// The payload interpreted as text, with invalid byte sequences
    /// replaced rather than rejected.
    pub fn payload_text(&self) -> (r: String)
        ensures
            r@ == lossy_utf8(self@.payload),
            valid_utf8(self@.payload) ==> r@ == decode_utf8(self@.payload),
    {
        lossy_text(self.payload.as_slice())
    }

    /// Whether the packet has the type a server gives its handshake
    /// responses (the command type, not the auth type).
    pub fn is_auth_response(&self) -> (r: bool)
        ensures
            r == (self@.packet_type == PACKET_TYPE_EXECCOMMAND),
    {
        self.packet_type == PACKET_TYPE_EXECCOMMAND
    }

    /// Whether the packet is a command response fragment.
    pub fn is_command_response(&self) -> (r: bool)
        ensures
            r == (self@.packet_type == PACKET_TYPE_RESPONSE_VALUE),
    {
        self.packet_type == PACKET_TYPE_RESPONSE_VALUE
    }

    /// Whether the packet answers the handshake for `expected_request_id`
    /// affirmatively: the echoed id decides, not the declared type.
    pub fn auth_successful(&self, expected_request_id: i32) -> (r: bool)
        ensures
            r == auth_response_accepted(self@, expected_request_id),
    {
        self.request_id == expected_request_id
    }
}

/// Remove trailing null bytes in place.
fn strip_nulls(v: &mut Vec<u8>)
    ensures
        final(v)@ == strip_trailing_nulls(old(v)@),
{
    let ghost orig = v@;
    proof {
        assert(orig.take(orig.len() as int) =~= orig);
    }
    let mut end: usize = v.len();
    while end > 0 && v[end - 1] == 0u8
        invariant
            end <= v@.len(),
            v@ == orig,
            strip_trailing_nulls(orig) == strip_trailing_nulls(orig.take(end as int)),
        decreases end,
    {
        proof {
            assert(orig.take(end as int).last() == orig[end - 1]);
            assert(orig.take(end as int).drop_last() =~= orig.take(end - 1));
        }
        end = end - 1;
    }
    proof {
        if end > 0 {
            assert(orig.take(end as int).last() == orig[end - 1]);
        }
        assert(strip_trailing_nulls(orig.take(end as int)) == orig.take(end as int));
    }
    v.truncate(end);
    proof {
        assert(v@ =~= orig.take(end as int));
    }
}

/// Round trip: any packet whose payload respects the request limit and
/// carries no trailing null byte decodes from its own encoding unchanged.
pub proof fn lemma_codec_round_trip(p: PacketView)
    requires
        p.payload.len() <= MAX_REQUEST_PAYLOAD_SIZE,
        p.payload.len() > 0 ==> p.payload.last() != 0u8,
    ensures
        decoded(encoding(p)) == Ok::<PacketView, RconError>(p),
{
    lemma_i32_le_bytes_round_trip((p.payload.len() + 10) as i32);
    lemma_i32_le_bytes_round_trip(p.request_id);
    lemma_i32_le_bytes_round_trip(p.packet_type);
    let b = encoding(p);
    assert(b.len() == p.payload.len() + 14);
    assert(b.subrange(0, 4) =~= spec_i32_to_le_bytes((p.payload.len() + 10) as i32));
    assert(b.subrange(4, 8) =~= spec_i32_to_le_bytes(p.request_id));
    assert(b.subrange(8, 12) =~= spec_i32_to_le_bytes(p.packet_type));
    assert(b.subrange(12, b.len() - 2) =~= p.payload);
    assert(strip_trailing_nulls(p.payload) == p.payload);
}

/// Any buffer shorter than the minimum legal frame fails as truncated.
pub proof fn lemma_decode_truncated(b: Seq<u8>)
    requires
        b.len() < 12,
    ensures
        decoded(b) == Err::<PacketView, RconError>(RconError::Truncated),
{
}

/// A size field that does not match the buffer length fails as a length
/// mismatch.
pub proof fn lemma_decode_length_mismatch(b: Seq<u8>)
    requires
        b.len() >= 12,
        b.len() != spec_i32_from_le_bytes(b.subrange(0, 4)) + 4,
    ensures
        decoded(b) == Err::<PacketView, RconError>(RconError::LengthMismatch),
{
}

/// The `-1` auth-failure sentinel is never accepted as a successful
/// handshake answer for a real request id.
pub proof fn lemma_auth_sentinel_rejected(p: PacketView, expected_request_id: i32)
    requires
        expected_request_id != -1,
        p.request_id == -1,
    ensures
        !auth_response_accepted(p, expected_request_id),
{
}

} // verus!
