use sccache::client::{ResponseError, ResponseRead, ServerConnection};
use sccache::frame::encode_frame;
use std::io;

fn response(read: ResponseRead) -> Vec<u8> {
    match read {
        ResponseRead::Response(body) => body,
        ResponseRead::Wanted(count) => panic!("{count} bytes are missing"),
    }
}

fn wanted(read: ResponseRead) -> usize {
    match read {
        ResponseRead::Response(body) => panic!("got a response: {body:?}"),
        ResponseRead::Wanted(count) => count,
    }
}

#[test]
fn frames_carry_their_length_most_significant_byte_first() {
    assert_eq!(encode_frame(&[]), [0, 0, 0, 0]);
    assert_eq!(encode_frame(b"ab"), [0, 0, 0, 2, b'a', b'b']);
    let long = vec![7u8; 0x1_0203];
    let frame = encode_frame(&long);
    assert_eq!(&frame[..4], &[0, 1, 2, 3]);
    assert_eq!(&frame[4..], long.as_slice());
}

#[test]
fn requests_are_framed_and_queued_in_order() {
    let mut conn = ServerConnection::new();
    conn.request(b"one");
    conn.request(b"");
    assert_eq!(
        conn.take_outgoing(),
        [0, 0, 0, 3, b'o', b'n', b'e', 0, 0, 0, 0]
    );
    assert!(conn.take_outgoing().is_empty());
}

#[test]
fn what_one_side_requests_the_other_side_reads() {
    let mut client = ServerConnection::new();
    let mut server = ServerConnection::new();
    client.request(b"first");
    client.request(b"second");
    server.receive(&client.take_outgoing());
    assert_eq!(response(server.read_one_response()), b"first");
    assert_eq!(response(server.read_one_response()), b"second");
    assert_eq!(wanted(server.read_one_response()), 4);
}

#[test]
fn responses_are_asked_for_byte_by_byte_and_no_further() {
    let frame = encode_frame(b"xyz");
    let mut conn = ServerConnection::new();
    for (have, byte) in frame.iter().enumerate() {
        let missing = wanted(conn.read_one_response());
        let expected = if have < 4 { 4 - have } else { frame.len() - have };
        assert_eq!(missing, expected);
        conn.receive(&[*byte]);
    }
    assert_eq!(response(conn.read_one_response()), b"xyz");
}

#[test]
fn bytes_behind_a_response_are_kept_for_the_next() {
    let mut stream = encode_frame(b"a");
    stream.extend(encode_frame(b"bc"));
    stream.push(0);
    let mut conn = ServerConnection::new();
    conn.receive(&stream);
    assert_eq!(response(conn.read_one_response()), b"a");
    assert_eq!(response(conn.read_one_response()), b"bc");
    assert_eq!(wanted(conn.read_one_response()), 3);
}

#[test]
fn nothing_is_read_before_the_request_is_written() {
    let mut conn = ServerConnection::new();
    conn.receive(&encode_frame(b"answer"));

    // A request leaves a response that is already there alone, and so does a
    // failure to write the request.
    conn.request(b"ask");
    assert_eq!(conn.take_outgoing(), encode_frame(b"ask"));
    let broken = io::Error::new(io::ErrorKind::BrokenPipe, "gone");
    let error = conn.request_sent(Err(broken)).unwrap_err();
    assert_eq!(error.kind(), io::ErrorKind::BrokenPipe);

    conn.request(b"again");
    assert_eq!(conn.take_outgoing(), encode_frame(b"again"));
    assert_eq!(response(conn.request_sent(Ok(())).unwrap()), b"answer");
    assert_eq!(wanted(conn.request_sent(Ok(())).unwrap()), 4);
}

#[test]
fn failures_tell_header_from_body() {
    let eof = || io::Error::new(io::ErrorKind::UnexpectedEof, "gone");

    let mut conn = ServerConnection::new();
    conn.receive(&[0, 0]);
    let error = conn.read_failed(eof());
    assert!(matches!(error, ResponseError::Header(_)));
    assert_eq!(error.context(), Some("Failed to read response header"));
    // The next response starts afresh.
    assert_eq!(wanted(conn.read_one_response()), 4);

    conn.receive(&[0, 0, 0, 9, 1]);
    let error = conn.read_failed(eof());
    assert!(matches!(error, ResponseError::Body(_)));
    assert_eq!(error.context(), None);
    assert_eq!(wanted(conn.read_one_response()), 4);
}
