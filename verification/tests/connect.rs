use sccache::client::{ResponseRead, ServerConnection};
use sccache::connect::{
    abstract_socket_path, connect_to_server, connect_with_retry, Attempt, ConnectAction,
    ConnectEvent, ConnectProgress, Readiness, RetryStep,
};
use sccache::frame::encode_frame;
use std::io;
use std::time::Duration;

const PROBE: &[u8] = b"stats?";

fn pending(progress: ConnectProgress) -> (Attempt, ConnectAction) {
    match progress {
        ConnectProgress::Pending(attempt, action) => (attempt, action),
        ConnectProgress::Done(outcome) => panic!("already over: {outcome:?}"),
    }
}

fn done(progress: ConnectProgress) -> io::Result<ServerConnection> {
    match progress {
        ConnectProgress::Pending(_, action) => panic!("still to do: {action:?}"),
        ConnectProgress::Done(outcome) => outcome,
    }
}

fn start() -> Attempt {
    let (attempt, action) = pending(connect_to_server(Duration::from_millis(100)));
    assert!(matches!(action, ConnectAction::Connect));
    attempt
}

fn awaiting_response() -> Attempt {
    let (attempt, action) = pending(start().step(PROBE, ConnectEvent::Connected));
    match action {
        ConnectAction::Send(bytes) => assert_eq!(bytes, encode_frame(PROBE)),
        other => panic!("expected the request to be sent, got {other:?}"),
    }
    let (attempt, action) = pending(attempt.step(PROBE, ConnectEvent::Sent));
    assert!(matches!(action, ConnectAction::Receive(4)));
    attempt
}

fn judging(body: &[u8]) -> Attempt {
    let frame = encode_frame(body);
    let mut attempt = awaiting_response();
    let mut next = 4;
    let mut rest = frame.as_slice();
    loop {
        let (head, tail) = rest.split_at(next);
        rest = tail;
        let (later, action) = pending(attempt.step(PROBE, ConnectEvent::Received(head.to_vec())));
        attempt = later;
        match action {
            ConnectAction::Receive(count) => next = count,
            ConnectAction::Judge(response) => {
                assert_eq!(response, body);
                assert!(rest.is_empty());
                return attempt;
            }
            other => panic!("expected reads, got {other:?}"),
        }
    }
}

#[test]
fn an_expired_deadline_connects_nothing() {
    let error = done(connect_to_server(Duration::from_secs(0))).unwrap_err();
    assert_eq!(error.kind(), io::ErrorKind::TimedOut);
    assert!(error.get_ref().is_none());
}

#[test]
fn a_ready_server_is_connected_to_with_nothing_left_over() {
    for body in [&b"the stats"[..], &b""[..]] {
        let attempt = judging(body);
        let (attempt, action) =
            pending(attempt.step(PROBE, ConnectEvent::Judged(Ok(Readiness::Stats))));
        assert!(matches!(action, ConnectAction::Adopt));
        let mut conn = done(attempt.step(PROBE, ConnectEvent::Adopted)).unwrap();
        assert!(conn.take_outgoing().is_empty());
        assert!(matches!(conn.read_one_response(), ResponseRead::Wanted(4)));
    }
}

#[test]
fn bytes_behind_the_readiness_response_are_not_lost() {
    let mut stream = encode_frame(b"stats");
    stream.extend(encode_frame(b"later"));
    let (attempt, action) =
        pending(awaiting_response().step(PROBE, ConnectEvent::Received(stream)));
    match action {
        ConnectAction::Judge(response) => assert_eq!(response, b"stats"),
        other => panic!("expected the response, got {other:?}"),
    }
    let (attempt, _) = pending(attempt.step(PROBE, ConnectEvent::Judged(Ok(Readiness::Stats))));
    let mut conn = done(attempt.step(PROBE, ConnectEvent::Adopted)).unwrap();
    match conn.read_one_response() {
        ResponseRead::Response(body) => assert_eq!(body, b"later"),
        ResponseRead::Wanted(count) => panic!("{count} bytes are missing"),
    }
}

#[test]
fn another_response_is_not_readiness() {
    let error = done(judging(b"no").step(PROBE, ConnectEvent::Judged(Ok(Readiness::Other))))
        .unwrap_err();
    assert_eq!(error.kind(), io::ErrorKind::InvalidData);
    assert_eq!(error.to_string(), "Unexpected readiness response");
}

#[test]
fn a_malformed_response_is_neither_invalid_nor_cut_short() {
    for body in [&b"?"[..], &b""[..]] {
        let malformed = ConnectEvent::Judged(Err("bad tag".to_string()));
        let error = done(judging(body).step(PROBE, malformed)).unwrap_err();
        assert_eq!(error.kind(), io::ErrorKind::Other);
        assert_eq!(error.to_string(), "bad tag");
    }
}

#[test]
fn a_request_that_does_not_serialize_ends_the_attempt() {
    let unserialized = ConnectEvent::Unserialized("too long".to_string());
    let error = done(start().step(&[], unserialized)).unwrap_err();
    assert_eq!(error.kind(), io::ErrorKind::Other);
    assert_eq!(error.to_string(), "too long");
}

#[test]
fn the_deadline_bounds_a_partial_response() {
    let (partial, action) = pending(
        awaiting_response().step(PROBE, ConnectEvent::Received(encode_frame(b"stats")[..4].to_vec())),
    );
    assert!(matches!(action, ConnectAction::Receive(5)));
    for attempt in [start(), awaiting_response(), partial, judging(b"stats")] {
        let error = done(attempt.step(PROBE, ConnectEvent::DeadlinePassed)).unwrap_err();
        assert_eq!(error.kind(), io::ErrorKind::TimedOut);
        assert_eq!(error.to_string(), "Timed out waiting for server readiness");
    }
}

#[test]
fn a_failed_stream_is_reported_as_it_is() {
    let refused = io::Error::new(io::ErrorKind::ConnectionRefused, "nobody there");
    let error = done(start().step(PROBE, ConnectEvent::Failed(refused))).unwrap_err();
    assert_eq!(error.kind(), io::ErrorKind::ConnectionRefused);
    assert_eq!(error.to_string(), "nobody there");
}

#[test]
fn only_early_attempts_are_repeated() {
    let long = Duration::from_secs(3);
    for kind in [io::ErrorKind::ConnectionRefused, io::ErrorKind::NotFound] {
        let step = connect_with_retry::<()>(Err(kind.into()), long);
        assert!(matches!(step, RetryStep::Pause(pause) if pause == Duration::from_millis(500)));
        let short = Duration::from_nanos(17);
        let step = connect_with_retry::<()>(Err(kind.into()), short);
        assert!(matches!(step, RetryStep::Pause(pause) if pause == short));
    }
    for kind in [
        io::ErrorKind::TimedOut,
        io::ErrorKind::InvalidData,
        io::ErrorKind::PermissionDenied,
        io::ErrorKind::Other,
    ] {
        match connect_with_retry::<()>(Err(kind.into()), long) {
            RetryStep::Return(Err(error)) => assert_eq!(error.kind(), kind),
            other => panic!("expected the error, got {other:?}"),
        }
    }
}

#[test]
fn retrying_ends_with_the_budget() {
    let refused = io::Error::from(io::ErrorKind::ConnectionRefused);
    match connect_with_retry::<()>(Err(refused), Duration::from_secs(0)) {
        RetryStep::Return(Err(error)) => {
            assert_eq!(error.kind(), io::ErrorKind::TimedOut);
            assert_eq!(error.to_string(), "Timed out reconnecting to server");
        }
        other => panic!("expected a timeout, got {other:?}"),
    }
    assert!(matches!(
        connect_with_retry(Ok(5), Duration::from_secs(0)),
        RetryStep::Return(Ok(5))
    ));
}

#[test]
fn pauses_use_up_one_budget() {
    let budget = Duration::from_millis(1200);
    let mut remaining = budget;
    let mut paused = Duration::from_secs(0);
    let mut pauses = Vec::new();
    loop {
        let refused = io::Error::from(io::ErrorKind::ConnectionRefused);
        match connect_with_retry::<()>(Err(refused), remaining) {
            RetryStep::Pause(pause) => {
                pauses.push(pause.as_millis());
                paused += pause;
                remaining -= pause;
            }
            RetryStep::Return(outcome) => {
                assert_eq!(outcome.unwrap_err().kind(), io::ErrorKind::TimedOut);
                break;
            }
        }
    }
    assert_eq!(pauses, [500, 500, 200]);
    assert_eq!(paused, budget);
}

#[test]
fn abstract_sockets_are_named_behind_a_zero_byte() {
    assert_eq!(abstract_socket_path(b"sccache"), b"\0sccache");
    assert_eq!(abstract_socket_path(b""), b"\0");
}
