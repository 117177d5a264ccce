//! The per-connection protocol engine: request-id allocation, the
//! handshake decision, response-fragment reassembly and the connection
//! lifecycle.  Everything here is pure decision logic; the I/O layer
//! feeds it decoded packets and performs what it decides.

use crate::error::RconError;
use crate::protocol::{
    auth_response_accepted, PacketView, RconPacket, MAX_RESPONSE_PAYLOAD_SIZE,
    PACKET_TYPE_RESPONSE_VALUE,
};
use vstd::prelude::*;

verus! {

/// Upper bound on the declared size field of a frame the client is
/// willing to read: one maximal response payload plus the header and
/// terminators.
pub const MAX_FRAME_SIZE: usize = 4106;

/// Hard cap on packets consumed for one logical response.
pub const MAX_RESPONSE_PACKETS: u32 = 100;

/// Validate the declared size field read ahead of a frame.  A size below
/// the minimal body or above [`MAX_FRAME_SIZE`] is a protocol error; an
/// accepted size is returned as the number of bytes still to read.
pub fn validate_frame_size(size: i32) -> (r: Result<usize, RconError>)
    ensures
        match r {
            Ok(n) => 8 <= size <= MAX_FRAME_SIZE && n == size,
            Err(e) => (size < 8 || size > MAX_FRAME_SIZE) && e == RconError::Protocol,
        },
{
    if size < 8 {
        return Err(RconError::Protocol);
    }
    if size > MAX_FRAME_SIZE as i32 {
        return Err(RconError::Protocol);
    }
    Ok(size as usize)
}

/// The id a fresh request receives when the previous one used `id`: the
/// counter wraps at the signed 32-bit boundary and skips `-1`, which the
/// protocol reserves as the auth-failure sentinel.
pub open spec fn next_id_after(id: i32) -> i32 {
    if id == i32::MAX {
        i32::MIN
    } else if id == -2 {
        1
    } else {
        (id + 1) as i32
    }
}

/// Allocates the correlation token for each outgoing request.
pub struct RequestIdCounter {
    next_request_id: i32,
}

impl RequestIdCounter {
    /// The id the next allocation will return.
    pub closed spec fn next_id(self) -> i32 {
        self.next_request_id
    }

    /// The counter never stands on the reserved sentinel.
    pub open spec fn wf(self) -> bool {
        self.next_id() != -1
    }

    /// A fresh counter, starting at one.
    pub fn new() -> (r: Self)
        ensures
            r.next_id() == 1,
            r.wf(),
    {
        Self { next_request_id: 1 }
    }

    /// A counter starting at an arbitrary legal id.
    pub fn starting_at(id: i32) -> (r: Self)
        requires
            id != -1,
        ensures
            r.next_id() == id,
            r.wf(),
    {
        Self { next_request_id: id }
    }

    /// Hand out the next request id.  The result is never the `-1`
    /// sentinel, and the counter advances by [`next_id_after`].
    pub fn allocate(&mut self) -> (r: i32)
        requires
            old(self).wf(),
        ensures
            r == old(self).next_id(),
            r != -1,
            final(self).next_id() == next_id_after(r),
            final(self).wf(),
    {
        let id = self.next_request_id;
        self.next_request_id = if self.next_request_id == i32::MAX {
            i32::MIN
        } else {
            self.next_request_id + 1
        };
        if self.next_request_id == -1 {
            self.next_request_id = 1;
        }
        id
    }
}

/// Decide the handshake from the single response packet read after the
/// auth request: accepted exactly when the echoed id matches the one
/// sent, whatever the declared type; any mismatch, the `-1` sentinel
/// included, is an authentication failure.
pub fn check_auth_response(response: &RconPacket, expected_request_id: i32) -> (r: Result<
    (),
    RconError,
>)
    ensures
        match r {
            Ok(u) => auth_response_accepted(response@, expected_request_id),
            Err(e) => !auth_response_accepted(response@, expected_request_id) && e
                == RconError::AuthenticationFailed,
        },
{
    if response.auth_successful(expected_request_id) {
        Ok(())
    } else {
        Err(RconError::AuthenticationFailed)
    }
}

/// What one packet does to a reassembly in progress.
#[derive(Clone, Copy, Debug, PartialEq, Eq, Structural)]
pub enum ReassemblyStep {
    /// The response is not finished; read another packet.
    Incomplete,
    /// The short fragment arrived; the response is complete.
    Complete,
}

/// The mathematical state of a reassembly.
pub struct ReassemblerView {
    pub expected_request_id: i32,
    pub response: Seq<u8>,
    pub packets_received: int,
}

/// The state after one packet is consumed.  A stale packet (wrong id) and
/// a wrong-type packet leave the buffer alone; a response fragment for
/// the expected id is appended.  Every packet read is counted.
pub open spec fn reassembly_step_state(m: ReassemblerView, p: PacketView) -> ReassemblerView {
    if p.request_id != m.expected_request_id || p.packet_type != PACKET_TYPE_RESPONSE_VALUE {
        ReassemblerView { packets_received: m.packets_received + 1, ..m }
    } else {
        ReassemblerView {
            response: m.response + p.payload,
            packets_received: m.packets_received + 1,
            ..m
        }
    }
}

/// What consuming one packet reports.  A stale packet is swallowed; a
/// wrong-type packet for the expected id is a protocol error; a short
/// fragment completes the response; a maximal fragment past the packet
/// cap is a protocol error, and below the cap asks for more.
pub open spec fn reassembly_step_outcome(m: ReassemblerView, p: PacketView) -> Result<
    ReassemblyStep,
    RconError,
> {
    if p.request_id != m.expected_request_id {
        Ok(ReassemblyStep::Incomplete)
    } else if p.packet_type != PACKET_TYPE_RESPONSE_VALUE {
        Err(RconError::Protocol)
    } else if p.payload.len() < MAX_RESPONSE_PAYLOAD_SIZE {
        Ok(ReassemblyStep::Complete)
    } else if m.packets_received + 1 > MAX_RESPONSE_PACKETS {
        Err(RconError::Protocol)
    } else {
        Ok(ReassemblyStep::Incomplete)
    }
}

/// Folds a whole packet sequence through [`reassembly_step_state`].
pub open spec fn reassembly_run(m: ReassemblerView, packets: Seq<PacketView>) -> ReassemblerView
    decreases packets.len(),
{
    if packets.len() == 0 {
        m
    } else {
        reassembly_run(reassembly_step_state(m, packets.first()), packets.drop_first())
    }
}

/// The concatenation of the payloads of a packet sequence.
pub open spec fn concat_payloads(packets: Seq<PacketView>) -> Seq<u8>
    decreases packets.len(),
{
    if packets.len() == 0 {
        Seq::empty()
    } else {
        packets.first().payload + concat_payloads(packets.drop_first())
    }
}

/// Folds possibly-fragmented response packets into one logical response.
pub struct Reassembler {
    expected_request_id: i32,
    response: Vec<u8>,
    packets_received: u32,
}

impl View for Reassembler {
    type V = ReassemblerView;

    closed spec fn view(&self) -> ReassemblerView {
        ReassemblerView {
            expected_request_id: self.expected_request_id,
            response: self.response@,
            packets_received: self.packets_received as int,
        }
    }
}

impl Reassembler {
    /// An empty reassembly for the response to `expected_request_id`.
    pub fn new(expected_request_id: i32) -> (r: Self)
        ensures
            r@ == (ReassemblerView {
                expected_request_id,
                response: Seq::empty(),
                packets_received: 0,
            }),
    {
        Self { expected_request_id, response: Vec::new(), packets_received: 0 }
    }

    /// Consume one packet read from the connection.  The state moves by
    /// [`reassembly_step_state`] and the report is exactly
    /// [`reassembly_step_outcome`].
    pub fn accept(&mut self, packet: &RconPacket) -> (r: Result<ReassemblyStep, RconError>)
        requires
            old(self)@.packets_received < u32::MAX,
        ensures
            final(self)@ == reassembly_step_state(old(self)@, packet@),
            r == reassembly_step_outcome(old(self)@, packet@),
    {
        self.packets_received = self.packets_received + 1;
        if packet.request_id != self.expected_request_id {
            return Ok(ReassemblyStep::Incomplete);
        }
        if !packet.is_command_response() {
            return Err(RconError::Protocol);
        }
        self.response.extend_from_slice(packet.payload.as_slice());
        proof {
            assert(self@.response =~= old(self)@.response + packet@.payload);
        }
        if packet.payload.len() < MAX_RESPONSE_PAYLOAD_SIZE {
            return Ok(ReassemblyStep::Complete);
        }
        if self.packets_received > MAX_RESPONSE_PACKETS {
            return Err(RconError::Protocol);
        }
        Ok(ReassemblyStep::Incomplete)
    }

    /// The request id this reassembly is collecting.
    pub fn expected_request_id(&self) -> (r: i32)
        ensures
            r == self@.expected_request_id,
    {
        self.expected_request_id
    }

    /// How many packets have been consumed so far.
    pub fn packets_received(&self) -> (r: u32)
        ensures
            r == self@.packets_received,
    {
        self.packets_received
    }

    /// The response collected so far.
    pub fn response(&self) -> (r: &Vec<u8>)
        ensures
            r@ == self@.response,
    {
        &self.response
    }

    /// The collected response as text, invalid byte sequences replaced.
    pub fn response_text(&self) -> (r: String)
        ensures
            r@ == crate::protocol::lossy_utf8(self@.response),
            vstd::utf8::valid_utf8(self@.response) ==> r@ == vstd::utf8::decode_utf8(
                self@.response,
            ),
    {
        crate::protocol::lossy_text(self.response.as_slice())
    }
}

/// Folding packets through the reassembler preserves the expected id and
/// counts every packet consumed.
pub proof fn lemma_reassembly_run_counts(m: ReassemblerView, packets: Seq<PacketView>)
    ensures
        reassembly_run(m, packets).expected_request_id == m.expected_request_id,
        reassembly_run(m, packets).packets_received == m.packets_received + packets.len(),
    decreases packets.len(),
{
    if packets.len() > 0 {
        lemma_reassembly_run_counts(
            reassembly_step_state(m, packets.first()),
            packets.drop_first(),
        );
    }
}

/// Response fragments for the expected id accumulate in arrival order:
/// folding them appends the concatenation of their payloads.
pub proof fn lemma_reassembly_run_appends(m: ReassemblerView, packets: Seq<PacketView>)
    requires
        forall|i: int|
            0 <= i < packets.len() ==> (#[trigger] packets[i]).request_id == m.expected_request_id
                && packets[i].packet_type == PACKET_TYPE_RESPONSE_VALUE,
    ensures
        reassembly_run(m, packets).response == m.response + concat_payloads(packets),
    decreases packets.len(),
{
    if packets.len() == 0 {
        assert(m.response + concat_payloads(packets) =~= m.response);
    } else {
        let m1 = reassembly_step_state(m, packets.first());
        assert(forall|i: int|
            0 <= i < packets.drop_first().len() ==> (#[trigger] packets.drop_first()[i])
                == packets[i + 1]);
        lemma_reassembly_run_appends(m1, packets.drop_first());
        assert(m.response + concat_payloads(packets) =~= (m.response + packets.first().payload)
            + concat_payloads(packets.drop_first()));
    }
}

/// A fragmented response reassembles exactly: for maximal fragments
/// followed by one short fragment, all for the expected id and within the
/// packet cap, every fragment but the last asks for more, the last
/// completes, the response is the concatenation of all payloads, and
/// exactly one packet is counted per fragment.
pub proof fn lemma_fragments_reassemble(m: ReassemblerView, packets: Seq<PacketView>)
    requires
        packets.len() >= 1,
        m.packets_received >= 0,
        m.packets_received + packets.len() - 1 <= MAX_RESPONSE_PACKETS,
        forall|i: int|
            0 <= i < packets.len() ==> (#[trigger] packets[i]).request_id == m.expected_request_id
                && packets[i].packet_type == PACKET_TYPE_RESPONSE_VALUE,
        forall|i: int|
            0 <= i < packets.len() - 1 ==> (#[trigger] packets[i]).payload.len()
                == MAX_RESPONSE_PAYLOAD_SIZE,
        packets.last().payload.len() < MAX_RESPONSE_PAYLOAD_SIZE,
    ensures
        forall|i: int|
            0 <= i < packets.len() - 1 ==> reassembly_step_outcome(
                reassembly_run(m, packets.take(i)),
                packets[i],
            ) == Ok::<ReassemblyStep, RconError>(ReassemblyStep::Incomplete),
        reassembly_step_outcome(reassembly_run(m, packets.take(packets.len() - 1)), packets.last())
            == Ok::<ReassemblyStep, RconError>(ReassemblyStep::Complete),
        reassembly_run(m, packets).response == m.response + concat_payloads(packets),
        reassembly_run(m, packets).packets_received == m.packets_received + packets.len(),
{
    assert forall|i: int| 0 <= i < packets.len() - 1 implies reassembly_step_outcome(
        reassembly_run(m, packets.take(i)),
        packets[i],
    ) == Ok::<ReassemblyStep, RconError>(ReassemblyStep::Incomplete) by {
        lemma_reassembly_run_counts(m, packets.take(i));
    }
    lemma_reassembly_run_counts(m, packets.take(packets.len() - 1));
    lemma_reassembly_run_counts(m, packets);
    lemma_reassembly_run_appends(m, packets);
}

/// The safety bound: a stream of maximal fragments with no terminating
/// short fragment is cut off with a protocol error as soon as the count
/// passes the packet cap.
pub proof fn lemma_fragment_limit(m: ReassemblerView, packets: Seq<PacketView>)
    requires
        packets.len() >= 1,
        m.packets_received >= 0,
        m.packets_received + packets.len() == MAX_RESPONSE_PACKETS + 1,
        forall|i: int|
            0 <= i < packets.len() ==> (#[trigger] packets[i]).request_id == m.expected_request_id
                && packets[i].packet_type == PACKET_TYPE_RESPONSE_VALUE
                && packets[i].payload.len() == MAX_RESPONSE_PAYLOAD_SIZE,
    ensures
        forall|i: int|
            0 <= i < packets.len() - 1 ==> reassembly_step_outcome(
                reassembly_run(m, packets.take(i)),
                packets[i],
            ) == Ok::<ReassemblyStep, RconError>(ReassemblyStep::Incomplete),
        reassembly_step_outcome(reassembly_run(m, packets.take(packets.len() - 1)), packets.last())
            == Err::<ReassemblyStep, RconError>(RconError::Protocol),
{
    assert forall|i: int| 0 <= i < packets.len() - 1 implies reassembly_step_outcome(
        reassembly_run(m, packets.take(i)),
        packets[i],
    ) == Ok::<ReassemblyStep, RconError>(ReassemblyStep::Incomplete) by {
        lemma_reassembly_run_counts(m, packets.take(i));
    }
    lemma_reassembly_run_counts(m, packets.take(packets.len() - 1));
}

/// A stale packet — one whose request id is not the expected one — is
/// swallowed: it is counted but changes nothing else and never aborts the
/// reassembly.
pub proof fn lemma_stale_packet_swallowed(m: ReassemblerView, p: PacketView)
    requires
        p.request_id != m.expected_request_id,
    ensures
        reassembly_step_outcome(m, p) == Ok::<ReassemblyStep, RconError>(
            ReassemblyStep::Incomplete,
        ),
        reassembly_step_state(m, p).response == m.response,
        reassembly_step_state(m, p).expected_request_id == m.expected_request_id,
        reassembly_step_state(m, p).packets_received == m.packets_received + 1,
{
}

/// Where a connection stands in its life.  `Ready` is the only phase
/// from which a command may be sent.
#[derive(Clone, Copy, Debug, PartialEq, Eq, Structural)]
pub enum SessionPhase {
    Unconnected,
    Connecting,
    Authenticating,
    Ready,
    Closed,
    Faulted,
}

/// What the I/O layer observed about the connection.
#[derive(Clone, Copy, Debug, PartialEq, Eq, Structural)]
pub enum SessionEvent {
    ConnectStarted,
    SocketOpened,
    AuthAccepted,
    AuthRejected,
    NetworkFailed,
    SessionClosed,
}

/// The connection lifecycle.  A network failure or a rejected handshake
/// faults the connection, an out-of-order event does too, and a faulted
/// connection is never repaired in place: recovery is a fresh connection
/// with its own lifecycle.
pub open spec fn phase_after(phase: SessionPhase, event: SessionEvent) -> SessionPhase {
    match (phase, event) {
        (SessionPhase::Unconnected, SessionEvent::ConnectStarted) => SessionPhase::Connecting,
        (SessionPhase::Connecting, SessionEvent::SocketOpened) => SessionPhase::Authenticating,
        (SessionPhase::Authenticating, SessionEvent::AuthAccepted) => SessionPhase::Ready,
        (_, SessionEvent::SessionClosed) => SessionPhase::Closed,
        _ => SessionPhase::Faulted,
    }
}

/// Whether a command may be sent in this phase.
pub open spec fn may_execute(phase: SessionPhase) -> bool {
    phase == SessionPhase::Ready
}

/// Step the lifecycle by one observed event.
pub fn advance(phase: SessionPhase, event: SessionEvent) -> (r: SessionPhase)
    ensures
        r == phase_after(phase, event),
{
    match (phase, event) {
        (SessionPhase::Unconnected, SessionEvent::ConnectStarted) => SessionPhase::Connecting,
        (SessionPhase::Connecting, SessionEvent::SocketOpened) => SessionPhase::Authenticating,
        (SessionPhase::Authenticating, SessionEvent::AuthAccepted) => SessionPhase::Ready,
        (_, SessionEvent::SessionClosed) => SessionPhase::Closed,
        _ => SessionPhase::Faulted,
    }
}

/// Whether a command may be sent in this phase.
pub fn can_execute(phase: SessionPhase) -> (r: bool)
    ensures
        r == may_execute(phase),
{
    matches!(phase, SessionPhase::Ready)
}

/// A faulted connection never becomes ready again: no event repairs it
/// in place.
pub proof fn lemma_faulted_never_ready(event: SessionEvent)
    ensures
        phase_after(SessionPhase::Faulted, event) != SessionPhase::Ready,
{
}

} // verus!
