use ref_interface::grant::{GrantCache, SessionGrant};
use ref_interface::handshake::{
    handle_or_sentinel, interpret, Action, Event, Handshake, Phase, ProxyError, FAILURE_SENTINEL,
    TIMEOUT_SECS,
};
use ref_interface::message::{MessageHeader, MessageId, ProxyRequest};

fn grant() -> Option<SessionGrant> {
    Some(SessionGrant {
        instance_id: 42,
        is_admin: false,
        is_grading_assistant: false,
        tcp_forwarding_allowed: true,
    })
}

fn begin() -> Handshake {
    Handshake::begin(grant(), "10.0.0.1".to_string(), "8080".to_string())
}

/// Plays the part of the caller: reports the events in turn and returns the
/// actions asked for, the first one included.
fn run(mut handshake: Handshake, events: &[Event]) -> (Handshake, Vec<Action>) {
    let mut actions = vec![handshake.action()];
    for event in events {
        actions.push(handshake.step(*event));
    }
    (handshake, actions)
}

/// What the host gets for a handshake that is over, where the socket that
/// would be handed over has the handle 7.
fn host_result(handshake: &Handshake) -> i32 {
    handle_or_sentinel(handshake.outcome().unwrap().map(|_| 7))
}

#[test]
fn timeout_is_thirty_seconds() {
    assert_eq!(TIMEOUT_SECS, 30);
}

#[test]
fn sentinel_is_minus_one() {
    assert_eq!(FAILURE_SENTINEL, -1);
    assert_eq!(handle_or_sentinel(Err(ProxyError::NoGrant)), -1);
    assert_eq!(handle_or_sentinel(Err(ProxyError::RequestTooLarge)), -1);
    assert_eq!(handle_or_sentinel(Err(ProxyError::Transport)), -1);
    assert_eq!(handle_or_sentinel(Err(ProxyError::Rejected)), -1);
    assert_eq!(handle_or_sentinel(Err(ProxyError::Protocol(99))), -1);
}

#[test]
fn socket_handle_is_passed_through() {
    assert_eq!(handle_or_sentinel(Ok(0)), 0);
    assert_eq!(handle_or_sentinel(Ok(7)), 7);
    assert_eq!(handle_or_sentinel(Ok(i32::MAX)), i32::MAX);
}

#[test]
fn without_grant_the_handshake_fails_before_the_network() {
    let handshake = Handshake::begin(None, "10.0.0.1".to_string(), "8080".to_string());
    assert_eq!(handshake.phase(), Phase::Failed(ProxyError::NoGrant));
    assert_eq!(handshake.action(), Action::Abort(ProxyError::NoGrant));
    assert_eq!(handshake.outcome(), Some(Err(ProxyError::NoGrant)));
    assert!(handshake.request().is_empty());
    assert_eq!(host_result(&handshake), -1);
}

#[test]
fn without_grant_no_event_leads_to_the_network() {
    let events = [
        Event::Completed,
        Event::HeaderRead([50, 0, 0, 0, 0]),
        Event::IoFailed,
        Event::Completed,
        Event::Completed,
    ];
    let handshake = Handshake::begin(None, "h".to_string(), "1".to_string());
    let (handshake, actions) = run(handshake, &events);
    for action in actions {
        assert_eq!(action, Action::Abort(ProxyError::NoGrant));
    }
    assert_eq!(host_result(&handshake), -1);
}

#[test]
fn empty_cache_gives_no_grant() {
    let cache = GrantCache::new();
    let handshake = Handshake::begin(cache.get(), "h".to_string(), "1".to_string());
    assert_eq!(handshake.outcome(), Some(Err(ProxyError::NoGrant)));
}

#[test]
fn handshake_starts_by_connecting_with_the_encoded_request() {
    let handshake = begin();
    assert_eq!(handshake.phase(), Phase::Connecting);
    assert_eq!(handshake.action(), Action::Connect);
    assert_eq!(handshake.outcome(), None);
    let request = ProxyRequest::new(42, "10.0.0.1".to_string(), "8080".to_string());
    assert_eq!(handshake.request(), &request.encode().unwrap());
    assert_eq!(
        &handshake.request()[5..],
        "{\"msg_type\":\"PROXY_REQUEST\",\"instance_id\":42,\"dst_ip\":\"10.0.0.1\",\"dst_port\":\"8080\"}"
            .as_bytes()
    );
}

#[test]
fn success_hands_the_connection_over() {
    let events =
        [Event::Completed, Event::Completed, Event::Completed, Event::HeaderRead([50, 0, 0, 0, 0])];
    let (handshake, actions) = run(begin(), &events);
    assert_eq!(
        actions,
        vec![
            Action::Connect,
            Action::SetTimeouts(30),
            Action::Send,
            Action::ReceiveHeader,
            Action::HandOver,
        ]
    );
    assert_eq!(handshake.phase(), Phase::Established);
    assert_eq!(handshake.outcome(), Some(Ok(())));
    assert_eq!(host_result(&handshake), 7);
}

#[test]
fn success_with_a_body_length_hands_over_too() {
    let events = [
        Event::Completed,
        Event::Completed,
        Event::Completed,
        Event::HeaderRead([50, 0, 0, 1, 0]),
    ];
    let (handshake, _) = run(begin(), &events);
    assert_eq!(handshake.action(), Action::HandOver);
}

#[test]
fn request_stays_the_same_through_the_handshake() {
    let before = begin().request().clone();
    let events =
        [Event::Completed, Event::Completed, Event::Completed, Event::HeaderRead([50, 0, 0, 0, 0])];
    let mut handshake = begin();
    for event in events {
        handshake.step(event);
        assert_eq!(handshake.request(), &before);
    }
}

#[test]
fn rejection_aborts() {
    let events =
        [Event::Completed, Event::Completed, Event::Completed, Event::HeaderRead([51, 0, 0, 0, 0])];
    let (handshake, actions) = run(begin(), &events);
    assert_eq!(actions[4], Action::Abort(ProxyError::Rejected));
    assert_eq!(handshake.phase(), Phase::Failed(ProxyError::Rejected));
    assert_eq!(handshake.outcome(), Some(Err(ProxyError::Rejected)));
    assert_eq!(host_result(&handshake), -1);
}

#[test]
fn unknown_tag_is_a_protocol_error_that_keeps_the_tag() {
    let events =
        [Event::Completed, Event::Completed, Event::Completed, Event::HeaderRead([99, 0, 0, 0, 0])];
    let (handshake, actions) = run(begin(), &events);
    assert_eq!(actions[4], Action::Abort(ProxyError::Protocol(99)));
    assert_eq!(handshake.outcome(), Some(Err(ProxyError::Protocol(99))));
    assert_eq!(host_result(&handshake), -1);
    assert_eq!(ProxyError::Protocol(99).message(), "Received unknown message with id 99");
}

#[test]
fn tag_of_a_request_is_no_answer() {
    let events =
        [Event::Completed, Event::Completed, Event::Completed, Event::HeaderRead([0, 0, 0, 0, 0])];
    let (handshake, _) = run(begin(), &events);
    assert_eq!(handshake.outcome(), Some(Err(ProxyError::Protocol(0))));
}

#[test]
fn every_tag_but_success_fails() {
    for tag in 0..=255u8 {
        let events = [
            Event::Completed,
            Event::Completed,
            Event::Completed,
            Event::HeaderRead([tag, 0, 0, 0, 0]),
        ];
        let (handshake, _) = run(begin(), &events);
        let expected = match tag {
            50 => Ok(()),
            51 => Err(ProxyError::Rejected),
            other => Err(ProxyError::Protocol(other)),
        };
        assert_eq!(handshake.outcome(), Some(expected));
    }
}

#[test]
fn server_that_never_answers_is_a_transport_error() {
    let events = [Event::Completed, Event::Completed, Event::Completed, Event::IoFailed];
    let (handshake, actions) = run(begin(), &events);
    assert_eq!(actions[1], Action::SetTimeouts(30));
    assert_eq!(actions[3], Action::ReceiveHeader);
    assert_eq!(actions[4], Action::Abort(ProxyError::Transport));
    assert_eq!(host_result(&handshake), -1);
}

#[test]
fn failure_at_any_step_is_a_transport_error() {
    for completed in 0..4 {
        let mut events = vec![Event::Completed; completed];
        events.push(Event::IoFailed);
        let (handshake, actions) = run(begin(), &events);
        assert_eq!(actions[completed + 1], Action::Abort(ProxyError::Transport));
        assert_eq!(handshake.outcome(), Some(Err(ProxyError::Transport)));
    }
}

#[test]
fn timeouts_are_set_before_any_byte_is_exchanged() {
    let events =
        [Event::Completed, Event::Completed, Event::Completed, Event::HeaderRead([50, 0, 0, 0, 0])];
    let (_, actions) = run(begin(), &events);
    let timeouts = actions.iter().position(|a| *a == Action::SetTimeouts(30)).unwrap();
    let send = actions.iter().position(|a| *a == Action::Send).unwrap();
    let receive = actions.iter().position(|a| *a == Action::ReceiveHeader).unwrap();
    assert!(timeouts < send);
    assert!(send < receive);
}

#[test]
fn event_that_answers_no_action_is_a_transport_error() {
    let (handshake, _) = run(begin(), &[Event::HeaderRead([50, 0, 0, 0, 0])]);
    assert_eq!(handshake.outcome(), Some(Err(ProxyError::Transport)));
    let (handshake, _) =
        run(begin(), &[Event::Completed, Event::Completed, Event::Completed, Event::Completed]);
    assert_eq!(handshake.outcome(), Some(Err(ProxyError::Transport)));
}

#[test]
fn finished_handshake_stays_finished() {
    let events = [
        Event::Completed,
        Event::Completed,
        Event::Completed,
        Event::HeaderRead([50, 0, 0, 0, 0]),
        Event::IoFailed,
        Event::HeaderRead([51, 0, 0, 0, 0]),
        Event::Completed,
    ];
    let (handshake, actions) = run(begin(), &events);
    assert_eq!(&actions[4..], &[Action::HandOver; 4]);
    assert_eq!(handshake.outcome(), Some(Ok(())));
    let events = [Event::IoFailed, Event::Completed, Event::HeaderRead([50, 0, 0, 0, 0])];
    let (handshake, actions) = run(begin(), &events);
    assert_eq!(&actions[1..], &[Action::Abort(ProxyError::Transport); 3]);
    assert_eq!(handshake.outcome(), Some(Err(ProxyError::Transport)));
}

#[test]
fn no_step_connects_again() {
    let events = [
        Event::Completed,
        Event::IoFailed,
        Event::Completed,
        Event::Completed,
        Event::HeaderRead([50, 0, 0, 0, 0]),
    ];
    let (_, actions) = run(begin(), &events);
    assert_eq!(actions.iter().filter(|a| **a == Action::Connect).count(), 1);
}

#[test]
fn interpret_reads_the_message_type() {
    let header = |msg_type| MessageHeader { msg_type, len: 0 };
    assert_eq!(interpret(&header(MessageId::Success)), Ok(()));
    assert_eq!(interpret(&header(MessageId::Failed)), Err(ProxyError::Rejected));
    assert_eq!(interpret(&header(MessageId::ProxyRequest)), Err(ProxyError::Protocol(0)));
    assert_eq!(interpret(&header(MessageId::Unknown(200))), Err(ProxyError::Protocol(200)));
}

#[test]
fn every_error_has_its_message() {
    assert_eq!(ProxyError::NoGrant.message(), "No session grant is stored!");
    assert_eq!(ProxyError::RequestTooLarge.message(), "The proxy request does not fit its frame!");
    assert_eq!(ProxyError::Transport.message(), "The connection to the proxy server failed!");
    assert_eq!(ProxyError::Rejected.message(), "Failed to establish proxied connection!");
    assert_eq!(ProxyError::Protocol(0).message(), "Received unknown message with id 0");
    assert_eq!(ProxyError::Protocol(255).message(), "Received unknown message with id 255");
}
