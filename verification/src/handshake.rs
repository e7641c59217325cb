//! The handshake with the proxy server, as a state machine. The machine
//! decides; the caller owns the connection, carries out the action that the
//! machine asks for and reports what came of it.

use crate::grant::SessionGrant;
use crate::json::{decimal_text, push_decimal};
use crate::message::{
    body_bytes, encoded, MessageHeader, MessageId, ProxyRequest, ProxyRequestView, TAG_FAILED,
    TAG_SUCCESS,
};
use crate::wire::{decode_header, header_of, HEADER_LEN};
use vstd::prelude::*;

verus! {

/// Seconds that one read or one write on the connection may take.
pub const TIMEOUT_SECS: u64 = 30;

/// What the host process gets in place of a socket when the handshake fails.
pub const FAILURE_SENTINEL: i32 = -1;

/// Why no proxied connection was handed over.
#[derive(Clone, Copy, Debug, PartialEq, Eq, Structural)]
pub enum ProxyError {
    /// No grant is stored: the session was never authenticated.
    NoGrant,
    /// The request body is longer than the 32-bit length field can say.
    RequestTooLarge,
    /// The connection could not be opened, or a read or a write on it failed,
    /// came short or timed out.
    Transport,
    /// The proxy server answered that it could not establish the connection.
    Rejected,
    /// The proxy server answered with a tag that is no answer, kept here.
    Protocol(u8),
}

/// What the caller is to do next.
#[derive(Clone, Copy, Debug, PartialEq, Eq, Structural)]
pub enum Action {
    /// Open a connection to the proxy server.
    Connect,
    /// Set the read and the write timeout of the connection, in seconds.
    SetTimeouts(u64),
    /// Write the whole request to the connection.
    Send,
    /// Read exactly the bytes of one header from the connection.
    ReceiveHeader,
    /// The connection is the proxied one: hand it to the host and touch it no
    /// more.
    HandOver,
    /// Release the connection, if one was opened, and fail with this error.
    Abort(ProxyError),
}

/// What came of the action that the caller carried out.
#[derive(Clone, Copy, Debug)]
pub enum Event {
    /// The action was carried out in full.
    Completed,
    /// The header was read in full: its bytes.
    HeaderRead([u8; HEADER_LEN]),
    /// The action failed: an I/O error, a short read or write, a timeout.
    IoFailed,
}

/// How far the handshake has come.
#[derive(Clone, Copy, Debug, PartialEq, Eq, Structural)]
pub enum Phase {
    /// The connection is to be opened.
    Connecting,
    /// The connection is open and has no timeouts yet.
    Configuring,
    /// The timeouts are set and the request is to be written.
    Sending,
    /// The request is written and the answer is awaited.
    Receiving,
    /// The proxy server granted the connection.
    Established,
    /// The handshake failed.
    Failed(ProxyError),
}

/// What the answer of the proxy server means: success, a rejection, or a
/// protocol error that keeps the tag.
pub open spec fn verdict(header: MessageHeader) -> Result<(), ProxyError> {
    match header.msg_type {
        MessageId::Success => Ok(()),
        MessageId::Failed => Err(ProxyError::Rejected),
        other => Err(ProxyError::Protocol(other.spec_tag())),
    }
}

/// The action that a phase asks for.
pub open spec fn action_of(phase: Phase) -> Action {
    match phase {
        Phase::Connecting => Action::Connect,
        Phase::Configuring => Action::SetTimeouts(TIMEOUT_SECS),
        Phase::Sending => Action::Send,
        Phase::Receiving => Action::ReceiveHeader,
        Phase::Established => Action::HandOver,
        Phase::Failed(error) => Action::Abort(error),
    }
}

/// True when the handshake is over, one way or the other.
pub open spec fn is_final(phase: Phase) -> bool {
    phase is Established || phase is Failed
}

/// True for the actions that touch the network.
pub open spec fn uses_network(action: Action) -> bool {
    action is Connect || action is SetTimeouts || action is Send || action is ReceiveHeader
}

/// The phase that follows when the action of `phase` ended with `event`.
///
/// Each action that completes leads to the next one. A header leads to the
/// verdict on it. A failure, or an event that does not answer the action
/// asked for, is a transport error. A handshake that is over stays as it is.
pub open spec fn next_phase(phase: Phase, event: Event) -> Phase {
    match (phase, event) {
        (Phase::Connecting, Event::Completed) => Phase::Configuring,
        (Phase::Configuring, Event::Completed) => Phase::Sending,
        (Phase::Sending, Event::Completed) => Phase::Receiving,
        (Phase::Receiving, Event::HeaderRead(bytes)) => match verdict(header_of(bytes@)) {
            Ok(_) => Phase::Established,
            Err(error) => Phase::Failed(error),
        },
        (Phase::Established, _) => Phase::Established,
        (Phase::Failed(error), _) => Phase::Failed(error),
        _ => Phase::Failed(ProxyError::Transport),
    }
}

/// The phase reached from `phase` by a run of events, oldest first.
pub open spec fn phase_after(phase: Phase, events: Seq<Event>) -> Phase
    decreases events.len(),
{
    if events.len() == 0 {
        phase
    } else {
        next_phase(phase_after(phase, events.drop_last()), events.last())
    }
}

/// The request that a grant and a destination make.
pub open spec fn request_of(grant: SessionGrant, dst_ip: Seq<char>, dst_port: Seq<char>)
    -> ProxyRequestView {
    ProxyRequestView {
        msg_type: "PROXY_REQUEST"@,
        instance_id: grant.instance_id,
        dst_ip,
        dst_port,
    }
}

/// The phase in which a handshake starts: failed at once without a grant or
/// with a request that does not fit its frame, else about to connect.
pub open spec fn first_phase(grant: Option<SessionGrant>, dst_ip: Seq<char>, dst_port: Seq<char>)
    -> Phase {
    match grant {
        None => Phase::Failed(ProxyError::NoGrant),
        Some(grant) => if body_bytes(request_of(grant, dst_ip, dst_port)).len() <= u32::MAX {
            Phase::Connecting
        } else {
            Phase::Failed(ProxyError::RequestTooLarge)
        },
    }
}

/// The text that tells a person what went wrong.
pub open spec fn error_text(error: ProxyError) -> Seq<char> {
    match error {
        ProxyError::NoGrant => "No session grant is stored!"@,
        ProxyError::RequestTooLarge => "The proxy request does not fit its frame!"@,
        ProxyError::Transport => "The connection to the proxy server failed!"@,
        ProxyError::Rejected => "Failed to establish proxied connection!"@,
        ProxyError::Protocol(tag) => "Received unknown message with id "@ + decimal_text(
            tag as nat,
        ),
    }
}

impl ProxyError {
    /// The text that tells a person what went wrong. A protocol error names
    /// the tag that came, in decimal.
    pub fn message(&self) -> (text: String)
        ensures
            text@ == error_text(*self),
    {
        match self {
            ProxyError::NoGrant => "No session grant is stored!".to_owned(),
            ProxyError::RequestTooLarge => "The proxy request does not fit its frame!".to_owned(),
            ProxyError::Transport => "The connection to the proxy server failed!".to_owned(),
            ProxyError::Rejected => "Failed to establish proxied connection!".to_owned(),
            ProxyError::Protocol(tag) => {
                let mut text = "Received unknown message with id ".to_owned();
                push_decimal(&mut text, *tag as u64);
                text
            },
        }
    }
}

/// Decides what the answer of the proxy server means.
pub fn interpret(header: &MessageHeader) -> (outcome: Result<(), ProxyError>)
    ensures
        outcome == verdict(*header),
{
    match header.msg_type {
        MessageId::Success => Ok(()),
        MessageId::Failed => Err(ProxyError::Rejected),
        other => Err(ProxyError::Protocol(other.tag())),
    }
}

/// What the host process gets: the socket handle of a handshake that
/// succeeded, the failure sentinel for every error.
pub fn handle_or_sentinel(outcome: Result<i32, ProxyError>) -> (handle: i32)
    ensures
        handle == match outcome {
            Ok(socket) => socket,
            Err(_) => FAILURE_SENTINEL,
        },
{
    match outcome {
        Ok(socket) => socket,
        Err(_) => FAILURE_SENTINEL,
    }
}

/// What a handshake holds, as plain values.
pub struct HandshakeView {
    pub phase: Phase,
    pub request: Seq<u8>,
}

/// One attempt at a proxied connection.
pub struct Handshake {
    phase: Phase,
    request: Vec<u8>,
}

impl View for Handshake {
    type V = HandshakeView;

    closed spec fn view(&self) -> HandshakeView {
        HandshakeView { phase: self.phase, request: self.request@ }
    }
}

impl Handshake {
    /// Starts a handshake for a connection to `dst_ip`, port `dst_port`, with
    /// the grant that the cache holds. Without a grant the handshake has
    /// failed before it touches the network.
    pub fn begin(grant: Option<SessionGrant>, dst_ip: String, dst_port: String) -> (hs: Handshake)
        ensures
            hs@.phase == first_phase(grant, dst_ip@, dst_port@),
            hs@.phase is Connecting ==> hs@.request == encoded(
                request_of(grant->0, dst_ip@, dst_port@),
            ),
            !(hs@.phase is Connecting) ==> hs@.request.len() == 0,
    {
        match grant {
            None => Handshake { phase: Phase::Failed(ProxyError::NoGrant), request: Vec::new() },
            Some(grant) => {
                let request = ProxyRequest::new(grant.instance_id, dst_ip, dst_port);
                match request.encode() {
                    Some(bytes) => Handshake { phase: Phase::Connecting, request: bytes },
                    None => Handshake {
                        phase: Phase::Failed(ProxyError::RequestTooLarge),
                        request: Vec::new(),
                    },
                }
            },
        }
    }

    /// How far the handshake has come.
    pub fn phase(&self) -> (phase: Phase)
        ensures
            phase == self@.phase,
    {
        self.phase
    }

    /// The bytes to write when the action is `Send`.
    pub fn request(&self) -> (bytes: &Vec<u8>)
        ensures
            bytes@ == self@.request,
    {
        &self.request
    }

    /// What the caller is to do now.
    pub fn action(&self) -> (action: Action)
        ensures
            action == action_of(self@.phase),
    {
        match self.phase {
            Phase::Connecting => Action::Connect,
            Phase::Configuring => Action::SetTimeouts(TIMEOUT_SECS),
            Phase::Sending => Action::Send,
            Phase::Receiving => Action::ReceiveHeader,
            Phase::Established => Action::HandOver,
            Phase::Failed(error) => Action::Abort(error),
        }
    }

    /// The result of the handshake, once it is over.
    pub fn outcome(&self) -> (outcome: Option<Result<(), ProxyError>>)
        ensures
            outcome == match self@.phase {
                Phase::Established => Some(Ok::<(), ProxyError>(())),
                Phase::Failed(error) => Some(Err::<(), ProxyError>(error)),
                _ => None::<Result<(), ProxyError>>,
            },
    {
        match self.phase {
            Phase::Established => Some(Ok(())),
            Phase::Failed(error) => Some(Err(error)),
            _ => None,
        }
    }

    /// Takes what came of the action and returns the action to carry out
    /// next. The request stays as it is.
    pub fn step(&mut self, event: Event) -> (action: Action)
        ensures
            final(self)@.phase == next_phase(old(self)@.phase, event),
            final(self)@.request == old(self)@.request,
            action == action_of(final(self)@.phase),
    {
        let next = match (self.phase, event) {
            (Phase::Connecting, Event::Completed) => Phase::Configuring,
            (Phase::Configuring, Event::Completed) => Phase::Sending,
            (Phase::Sending, Event::Completed) => Phase::Receiving,
            (Phase::Receiving, Event::HeaderRead(bytes)) => {
                let header = decode_header(&bytes);
                match interpret(&header) {
                    Ok(_) => Phase::Established,
                    Err(error) => Phase::Failed(error),
                }
            },
            (Phase::Established, _) => Phase::Established,
            (Phase::Failed(error), _) => Phase::Failed(error),
            _ => Phase::Failed(ProxyError::Transport),
        };
        self.phase = next;
        self.action()
    }
}

/// A handshake that is over stays over, with the same result, whatever is
/// reported to it.
pub proof fn lemma_final_phase_stays(phase: Phase, events: Seq<Event>)
    requires
        is_final(phase),
    ensures
        phase_after(phase, events) == phase,
    decreases events.len(),
{
    if events.len() > 0 {
        lemma_final_phase_stays(phase, events.drop_last());
    }
}

/// Without a grant the handshake fails closed: it starts as failed for want
/// of a grant and stays so whatever is reported to it, it never asks for an
/// action on the network, and the host gets the failure sentinel.
pub proof fn lemma_no_grant_no_network(dst_ip: Seq<char>, dst_port: Seq<char>, events: Seq<Event>)
    ensures
        first_phase(None, dst_ip, dst_port) == Phase::Failed(ProxyError::NoGrant),
        phase_after(first_phase(None, dst_ip, dst_port), events) == Phase::Failed(
            ProxyError::NoGrant,
        ),
        action_of(phase_after(first_phase(None, dst_ip, dst_port), events)) == Action::Abort(
            ProxyError::NoGrant,
        ),
        !uses_network(action_of(phase_after(first_phase(None, dst_ip, dst_port), events))),
{
    lemma_final_phase_stays(Phase::Failed(ProxyError::NoGrant), events);
}

/// The order of the actions is fixed. Timeouts are set, to `TIMEOUT_SECS`,
/// right after the connection is opened and before any byte is exchanged;
/// the request is written before the answer is read; and no step leads back
/// to opening a connection, so one handshake is one attempt.
pub proof fn lemma_order_of_actions(phase: Phase, event: Event)
    ensures
        !(next_phase(phase, event) is Connecting),
        next_phase(phase, event) is Configuring ==> phase is Connecting,
        next_phase(phase, event) is Sending ==> phase is Configuring,
        next_phase(phase, event) is Receiving ==> phase is Sending,
        next_phase(phase, event) is Established ==> phase is Receiving || phase is Established,
        action_of(Phase::Configuring) == Action::SetTimeouts(TIMEOUT_SECS),
{
}

/// A failure of any action on the network ends the handshake with a
/// transport error.
pub proof fn lemma_io_failure_is_transport_error(phase: Phase)
    requires
        !is_final(phase),
    ensures
        next_phase(phase, Event::IoFailed) == Phase::Failed(ProxyError::Transport),
{
}

/// What the answer of the proxy server leads to, by its tag alone: success
/// establishes the connection, the tag of a failure is a rejection, and every
/// other tag is a protocol error that keeps the tag.
pub proof fn lemma_answer_by_tag(bytes: [u8; HEADER_LEN])
    ensures
        bytes@[0] == TAG_SUCCESS ==> next_phase(Phase::Receiving, Event::HeaderRead(bytes))
            == Phase::Established,
        bytes@[0] == TAG_FAILED ==> next_phase(Phase::Receiving, Event::HeaderRead(bytes))
            == Phase::Failed(ProxyError::Rejected),
        bytes@[0] != TAG_SUCCESS && bytes@[0] != TAG_FAILED ==> next_phase(
            Phase::Receiving,
            Event::HeaderRead(bytes),
        ) == Phase::Failed(ProxyError::Protocol(bytes@[0])),
{
}

/// Where a run of events from the start has led tells what the run was: a
/// phase before the end is reached only by that many completed actions, and
/// the connection is established only by a run that starts with three
/// completed actions and a header with the tag of success.
pub proof fn lemma_reached_phase(events: Seq<Event>)
    ensures
        ({
            let phase = phase_after(Phase::Connecting, events);
            &&& phase is Connecting <==> events.len() == 0
            &&& phase is Configuring ==> events.len() == 1
            &&& phase is Sending ==> events.len() == 2
            &&& phase is Receiving ==> events.len() == 3
            &&& phase is Established ==> {
                &&& events.len() >= 4
                &&& events[3] matches Event::HeaderRead(bytes)
                &&& bytes@[0] == TAG_SUCCESS
            }
            &&& !(phase is Failed) ==> forall|i: int|
                0 <= i < events.len() && i < 3 ==> #[trigger] events[i] is Completed
        }),
    decreases events.len(),
{
    if events.len() > 0 {
        let earlier = events.drop_last();
        lemma_reached_phase(earlier);
        let before = phase_after(Phase::Connecting, earlier);
        let phase = phase_after(Phase::Connecting, events);
        assert(phase == next_phase(before, events.last()));
        assert(forall|i: int| 0 <= i < earlier.len() ==> earlier[i] == events[i]);
        if !(phase is Failed) {
            assert forall|i: int| 0 <= i < events.len() && i < 3 implies #[trigger] events[i]
                is Completed by {
                if i < earlier.len() {
                    assert(earlier[i] is Completed);
                }
            }
        }
    }
}

/// The handshake ends: after four events, at the latest, it is over.
pub proof fn lemma_over_after_four_events(events: Seq<Event>)
    requires
        events.len() >= 4,
    ensures
        is_final(phase_after(Phase::Connecting, events)),
{
    lemma_reached_phase(events);
}

/// The connection is handed over only after a handshake in full: the
/// connection opened, the timeouts set, the request written, and a header
/// read whose tag is that of success.
pub proof fn lemma_hand_over_only_on_success(events: Seq<Event>)
    requires
        action_of(phase_after(Phase::Connecting, events)) == Action::HandOver,
    ensures
        events.len() >= 4,
        events[0] is Completed,
        events[1] is Completed,
        events[2] is Completed,
        events[3] matches Event::HeaderRead(bytes) && bytes@[0] == TAG_SUCCESS,
{
    lemma_reached_phase(events);
}

} // verus!
