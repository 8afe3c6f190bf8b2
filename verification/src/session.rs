//! One probe's session: the identifying numbers it owns, the
//! send-then-receive-one ordering, and the rule that matches an
//! inbound reply against the outstanding request.

use vstd::prelude::*;

use crate::codec::EchoReply;
use crate::codec::ICMP_CODE_NO_CODE;
use crate::codec::ICMP_HEADER_LEN;
use crate::codec::ICMP_TYPE_ECHO_REPLY;

verus! {

/// One logical probe's identifying numbers. Immutable once built; a
/// reply correlates to it or it does not.
#[derive(Clone, Copy, Debug, PartialEq, Eq, Structural)]
pub struct EchoRequest {
    /// Echo identifier the probe was sent with.
    pub identifier: u16,
    /// Echo sequence number the probe was sent with.
    pub sequence: u16,
}

/// Whether `reply` answers `request`: it must be an echo reply with
/// the echo code, carrying exactly the request's identifier and
/// sequence number.
pub open spec fn correlates(request: EchoRequest, reply: EchoReply) -> bool {
    &&& reply.icmp_type == ICMP_TYPE_ECHO_REPLY
    &&& reply.code == ICMP_CODE_NO_CODE
    &&& reply.identifier == request.identifier
    &&& reply.sequence == request.sequence
}

/// Pure matching rule: does `reply` answer `request`?
pub fn correlate(request: &EchoRequest, reply: &EchoReply) -> (r: bool)
    ensures
        r == correlates(*request, *reply),
{
    reply.icmp_type == ICMP_TYPE_ECHO_REPLY && reply.code == ICMP_CODE_NO_CODE
        && reply.identifier == request.identifier && reply.sequence == request.sequence
}

/// Error kinds at the transport and decode boundaries.
#[derive(Clone, Copy, Debug, PartialEq, Eq, Structural)]
pub enum ProbeError {
    /// The transport channel could not be created; unrecoverable.
    AllocationFailed,
    /// The transport could not transmit the encoded request.
    TransmitFailed,
    /// The blocking receive failed at the transport boundary.
    ReceiveFailed,
    /// The inbound datagram was too short to be a valid ICMP header.
    DecodeFailed,
}

/// Where one probe stands. The session moves from `Idle` through
/// `Sent` to exactly one of `Matched`, `Unmatched` or `Failed`; the
/// single receive step decides which.
#[derive(Clone, Copy, Debug, PartialEq, Eq, Structural)]
pub enum SessionState {
    /// No request handed to the transport yet.
    Idle,
    /// Request encoded and handed to the transport; exactly one
    /// inbound datagram is now expected.
    Sent,
    /// The decoded reply correlated with the outstanding request.
    Matched,
    /// A reply was decoded but did not correlate.
    Unmatched,
    /// Transport or decoding failed; carries the originating kind.
    Failed(ProbeError),
}

/// One probe's session: owns its identifying numbers and drives the
/// build, send and single-receive steps. The transport itself lives
/// outside; the session only records each step's outcome and decides
/// correlation.
pub struct EchoSession {
    /// Echo identifier this probe sends and matches on.
    pub identifier: u16,
    /// Echo sequence number this probe sends and matches on.
    pub sequence: u16,
    /// Where the probe stands.
    pub state: SessionState,
}

/// The request a session correlates replies against.
pub open spec fn session_request(s: EchoSession) -> EchoRequest {
    EchoRequest { identifier: s.identifier, sequence: s.sequence }
}

impl EchoSession {
    /// Builds an idle session for one probe with the given numbers.
    pub fn new(identifier: u16, sequence: u16) -> (s: EchoSession)
        ensures
            s.identifier == identifier,
            s.sequence == sequence,
            s.state == SessionState::Idle,
    {
        EchoSession { identifier, sequence, state: SessionState::Idle }
    }

    /// The request this session matches replies against.
    pub fn request(&self) -> (r: EchoRequest)
        ensures
            r == session_request(*self),
    {
        EchoRequest { identifier: self.identifier, sequence: self.sequence }
    }

    /// Encodes this session's echo request. The returned buffer is
    /// ready for transmission as-is; mutating it afterwards would
    /// invalidate the checksum.
    pub fn build_request(&self) -> (r: Vec<u8>)
        ensures
            r@ == crate::codec::echo_request_bytes(self.identifier, self.sequence),
            r@.len() == ICMP_HEADER_LEN,
    {
        crate::codec::encode_echo_request(self.identifier, self.sequence)
    }

    /// Records that the encoded request was handed to the transport;
    /// returns the request so the caller can match the reply later.
    pub fn record_sent(&mut self) -> (r: EchoRequest)
        requires
            old(self).state == SessionState::Idle,
        ensures
            final(self).state == SessionState::Sent,
            final(self).identifier == old(self).identifier,
            final(self).sequence == old(self).sequence,
            r == session_request(*old(self)),
    {
        self.state = SessionState::Sent;
        EchoRequest { identifier: self.identifier, sequence: self.sequence }
    }

    /// Records that the transport could not transmit the request.
    pub fn record_send_failure(&mut self)
        requires
            old(self).state == SessionState::Idle,
        ensures
            final(self).state == SessionState::Failed(ProbeError::TransmitFailed),
            final(self).identifier == old(self).identifier,
            final(self).sequence == old(self).sequence,
    {
        self.state = SessionState::Failed(ProbeError::TransmitFailed);
    }

    /// Records that the blocking receive failed at the transport
    /// boundary.
    pub fn record_receive_failure(&mut self)
        requires
            old(self).state == SessionState::Sent,
        ensures
            final(self).state == SessionState::Failed(ProbeError::ReceiveFailed),
            final(self).identifier == old(self).identifier,
            final(self).sequence == old(self).sequence,
    {
        self.state = SessionState::Failed(ProbeError::ReceiveFailed);
    }

    /// Consumes the one inbound datagram the session was waiting for:
    /// decodes it, matches it against the outstanding request, and
    /// settles the session in `Matched`, `Unmatched` or
    /// `Failed(DecodeFailed)`.
    pub fn handle_datagram(&mut self, bytes: &[u8]) -> (r: Result<EchoReply, ProbeError>)
        requires
            old(self).state == SessionState::Sent,
        ensures
            final(self).identifier == old(self).identifier,
            final(self).sequence == old(self).sequence,
            bytes@.len() < ICMP_HEADER_LEN ==> r == Err::<EchoReply, ProbeError>(
                ProbeError::DecodeFailed,
            ) && final(self).state == SessionState::Failed(ProbeError::DecodeFailed),
            bytes@.len() >= ICMP_HEADER_LEN ==> r == Ok::<EchoReply, ProbeError>(
                crate::codec::parsed_reply(bytes@),
            ) && final(self).state == (if correlates(
                session_request(*old(self)),
                crate::codec::parsed_reply(bytes@),
            ) {
                SessionState::Matched
            } else {
                SessionState::Unmatched
            }),
    {
        match crate::codec::decode_message(bytes) {
            Err(_) => {
                self.state = SessionState::Failed(ProbeError::DecodeFailed);
                Err(ProbeError::DecodeFailed)
            },
            Ok(reply) => {
                let request = EchoRequest { identifier: self.identifier, sequence: self.sequence };
                if correlate(&request, &reply) {
                    self.state = SessionState::Matched;
                } else {
                    self.state = SessionState::Unmatched;
                }
                Ok(reply)
            },
        }
    }
}

/// Law: correlation is exact-match, not fuzzy. A reply fails to
/// correlate whenever its type is not echo-reply, its code is not the
/// echo code, its identifier differs, or its sequence differs, even
/// when every other field matches.
pub proof fn lemma_correlate_exact(request: EchoRequest, reply: EchoReply)
    ensures
        reply.icmp_type != ICMP_TYPE_ECHO_REPLY ==> !correlates(request, reply),
        reply.code != ICMP_CODE_NO_CODE ==> !correlates(request, reply),
        reply.identifier != request.identifier ==> !correlates(request, reply),
        reply.sequence != request.sequence ==> !correlates(request, reply),
{
}

/// Law: two requests whose identifiers differ never claim the same
/// reply, whatever their sequence numbers hold.
pub proof fn lemma_distinct_identifiers_never_share(
    first: EchoRequest,
    second: EchoRequest,
    reply: EchoReply,
)
    requires
        first.identifier != second.identifier,
    ensures
        !(correlates(first, reply) && correlates(second, reply)),
{
}

} // verus!
