//! How a client connects to the server: within a deadline, only to a server
//! that has proved ready, and again where the server is not there yet.
use crate::client::{ConnectionView, ResponseRead, ServerConnection};
use crate::frame::{bytes_wanted, encode_frame, frame, take_frame};
use crate::outside::{
    io_error_from_kind, io_error_kind, io_error_new, io_kind_of, io_payload_of, nanos, shorter,
    IoErrorKind,
};
use std::io;
use std::time::Duration;
use vstd::prelude::*;

verus! {

/// What an attempt to connect is waiting for.
#[derive(Clone, Copy, Debug, PartialEq, Eq, Structural)]
pub enum Stage {
    /// The stream to be connected.
    Connecting,
    /// The readiness request to be sent.
    Sending,
    /// The response to be read.
    Receiving,
    /// The response to be deserialized.
    Judging,
    /// The stream to be made ready for blocking use.
    Adopting,
}

/// An attempt to connect that is under way.
#[derive(Debug)]
pub struct Attempt {
    stage: Stage,
    conn: ServerConnection,
}

/// What an [`Attempt`] holds.
pub struct AttemptView {
    pub stage: Stage,
    pub conn: ConnectionView,
}

impl View for Attempt {
    type V = AttemptView;

    closed spec fn view(&self) -> AttemptView {
        AttemptView { stage: self.stage, conn: self.conn@ }
    }
}

/// What a response to the readiness request is.
#[derive(Clone, Copy, Debug, PartialEq, Eq, Structural)]
pub enum Readiness {
    /// The server's statistics.
    Stats,
    /// Any other response.
    Other,
}

/// What moves an attempt on.
#[derive(Debug)]
pub enum ConnectEvent {
    /// The stream is connected.
    Connected,
    /// The stream is connected, but the readiness request could not be serialized,
    /// for this reason.
    Unserialized(String),
    /// The bytes are sent.
    Sent,
    /// These bytes have been read.
    Received(Vec<u8>),
    /// The response has been deserialized, or could not be, for this reason.
    Judged(Result<Readiness, String>),
    /// The stream is ready for blocking use.
    Adopted,
    /// The stream has failed.
    Failed(io::Error),
    /// The deadline has passed.
    DeadlinePassed,
}

/// What an attempt has its caller do next.
#[derive(Debug)]
pub enum ConnectAction {
    /// Connect a stream to the server.
    Connect,
    /// Write these bytes to the stream.
    Send(Vec<u8>),
    /// Read exactly so many bytes from the stream.
    Receive(usize),
    /// Deserialize this response.
    Judge(Vec<u8>),
    /// Make the stream ready for blocking use.
    Adopt,
}

/// Where an attempt stands after a step.
#[derive(Debug)]
pub enum ConnectProgress {
    /// It goes on, after this action.
    Pending(Attempt, ConnectAction),
    /// It is over.
    Done(Result<ServerConnection, io::Error>),
}

/// What a [`ConnectAction`] says.
pub enum ConnectActionView {
    Connect,
    Send(Seq<u8>),
    Receive(nat),
    Judge(Seq<u8>),
    Adopt,
}

/// What of an I/O error is told apart: its kind, and the text that it wraps.
pub struct IoErrorView {
    pub kind: IoErrorKind,
    pub payload: Option<Seq<char>>,
}

/// What a [`ConnectProgress`] says.
pub enum ConnectProgressView {
    Pending(AttemptView, ConnectActionView),
    Done(Result<ConnectionView, IoErrorView>),
}

impl View for ConnectAction {
    type V = ConnectActionView;

    open spec fn view(&self) -> ConnectActionView {
        match self {
            ConnectAction::Connect => ConnectActionView::Connect,
            ConnectAction::Send(bytes) => ConnectActionView::Send(bytes@),
            ConnectAction::Receive(count) => ConnectActionView::Receive(*count as nat),
            ConnectAction::Judge(response) => ConnectActionView::Judge(response@),
            ConnectAction::Adopt => ConnectActionView::Adopt,
        }
    }
}

impl View for ConnectProgress {
    type V = ConnectProgressView;

    open spec fn view(&self) -> ConnectProgressView {
        match self {
            ConnectProgress::Pending(attempt, action) => ConnectProgressView::Pending(
                attempt@,
                action@,
            ),
            ConnectProgress::Done(Ok(conn)) => ConnectProgressView::Done(Ok(conn@)),
            ConnectProgress::Done(Err(error)) => ConnectProgressView::Done(Err(io_view(*error))),
        }
    }
}

/// What of an I/O error is told apart.
pub open spec fn io_view(error: io::Error) -> IoErrorView {
    IoErrorView { kind: io_kind_of(error), payload: io_payload_of(error) }
}

/// A connection with nothing read and nothing to write.
pub open spec fn fresh_connection() -> ConnectionView {
    ConnectionView { incoming: Seq::empty(), outgoing: Seq::empty() }
}

/// Where an attempt to connect starts, with so much time left.
pub open spec fn connect_start(remaining: nat) -> ConnectProgressView {
    if remaining == 0 {
        ConnectProgressView::Done(
            Err(IoErrorView { kind: IoErrorKind::TimedOut, payload: None }),
        )
    } else {
        ConnectProgressView::Pending(
            AttemptView { stage: Stage::Connecting, conn: fresh_connection() },
            ConnectActionView::Connect,
        )
    }
}

/// Whether an event can occur at a stage.
pub open spec fn connect_expects(stage: Stage, event: ConnectEvent) -> bool {
    match event {
        ConnectEvent::Connected => stage == Stage::Connecting,
        ConnectEvent::Unserialized(_) => stage == Stage::Connecting,
        ConnectEvent::Sent => stage == Stage::Sending,
        ConnectEvent::Received(_) => stage == Stage::Receiving,
        ConnectEvent::Judged(_) => stage == Stage::Judging,
        ConnectEvent::Adopted => stage == Stage::Adopting,
        ConnectEvent::Failed(_) => true,
        ConnectEvent::DeadlinePassed => true,
    }
}

/// The end of an attempt in which a message could not be serialized or
/// deserialized.
pub open spec fn codec_failure(reason: Seq<char>) -> ConnectProgressView {
    ConnectProgressView::Done(Err(IoErrorView { kind: IoErrorKind::Other, payload: Some(reason) }))
}

/// How an attempt whose connection holds these bytes goes on reading.
pub open spec fn read_on(conn: ConnectionView) -> ConnectProgressView {
    match take_frame(conn.incoming) {
        Some((response, rest)) => ConnectProgressView::Pending(
            AttemptView {
                stage: Stage::Judging,
                conn: ConnectionView { incoming: rest, ..conn },
            },
            ConnectActionView::Judge(response),
        ),
        None => ConnectProgressView::Pending(
            AttemptView { stage: Stage::Receiving, conn },
            ConnectActionView::Receive(bytes_wanted(conn.incoming)),
        ),
    }
}

/// One step of an attempt to connect; `probe` is the serialized readiness
/// request.
pub open spec fn connect_step(attempt: AttemptView, probe: Seq<u8>, event: ConnectEvent) -> ConnectProgressView {
    match event {
        ConnectEvent::Connected => ConnectProgressView::Pending(
            AttemptView { stage: Stage::Sending, conn: attempt.conn },
            ConnectActionView::Send(frame(probe)),
        ),
        ConnectEvent::Unserialized(reason) => codec_failure(reason@),
        ConnectEvent::Sent => read_on(attempt.conn),
        ConnectEvent::Received(bytes) => read_on(
            ConnectionView { incoming: attempt.conn.incoming + bytes@, ..attempt.conn },
        ),
        ConnectEvent::Judged(Ok(Readiness::Stats)) => ConnectProgressView::Pending(
            AttemptView { stage: Stage::Adopting, conn: attempt.conn },
            ConnectActionView::Adopt,
        ),
        ConnectEvent::Judged(Ok(Readiness::Other)) => ConnectProgressView::Done(
            Err(
                IoErrorView {
                    kind: IoErrorKind::InvalidData,
                    payload: Some("Unexpected readiness response"@),
                },
            ),
        ),
        ConnectEvent::Judged(Err(reason)) => codec_failure(reason@),
        ConnectEvent::Adopted => ConnectProgressView::Done(Ok(attempt.conn)),
        ConnectEvent::Failed(error) => ConnectProgressView::Done(Err(io_view(error))),
        ConnectEvent::DeadlinePassed => ConnectProgressView::Done(
            Err(
                IoErrorView {
                    kind: IoErrorKind::TimedOut,
                    payload: Some("Timed out waiting for server readiness"@),
                },
            ),
        ),
    }
}

/// The longest pause between two attempts to connect, in nanoseconds.
pub open spec fn longest_pause() -> nat {
    500_000_000
}

/// How long to pause before the next attempt, with so much time left.
pub open spec fn retry_pause(remaining: nat) -> nat {
    if remaining <= longest_pause() {
        remaining
    } else {
        longest_pause()
    }
}

/// Whether a failed attempt may only have come too early.
pub open spec fn is_retried(kind: IoErrorKind) -> bool {
    kind == IoErrorKind::ConnectionRefused || kind == IoErrorKind::NotFound
}

/// Connect and establish daemon readiness within the caller deadline, from which
/// `remaining` is left.
pub fn connect_to_server(remaining: Duration) -> (progress: ConnectProgress)
    ensures
        progress@ == connect_start(nanos(remaining)),
{
    if remaining.is_zero() {
        return ConnectProgress::Done(Err(io_error_from_kind(IoErrorKind::TimedOut)));
    }
    let attempt = Attempt { stage: Stage::Connecting, conn: ServerConnection::new() };
    ConnectProgress::Pending(attempt, ConnectAction::Connect)
}

impl Attempt {
    /// Read exactly one frame; the blocking connection must not lose buffered
    /// bytes.
    fn read_on(self) -> (progress: ConnectProgress)
        ensures
            progress@ == read_on(self@.conn),
    {
        let mut conn = self.conn;
        match conn.read_one_response() {
            ResponseRead::Response(response) => ConnectProgress::Pending(
                Attempt { stage: Stage::Judging, conn },
                ConnectAction::Judge(response),
            ),
            ResponseRead::Wanted(count) => ConnectProgress::Pending(
                Attempt { stage: Stage::Receiving, conn },
                ConnectAction::Receive(count),
            ),
        }
    }

    /// Move the attempt on; `probe` is the serialized readiness request, which is
    /// sent once the stream is connected.
    pub fn step(self, probe: &[u8], event: ConnectEvent) -> (progress: ConnectProgress)
        requires
            event is Connected ==> probe@.len() <= u32::MAX,
            connect_expects(self@.stage, event),
        ensures
            progress@ == connect_step(self@, probe@, event),
            event matches ConnectEvent::Failed(error) ==> progress == ConnectProgress::Done(
                Err(error),
            ),
    {
        match event {
            ConnectEvent::Connected => ConnectProgress::Pending(
                Attempt { stage: Stage::Sending, conn: self.conn },
                ConnectAction::Send(encode_frame(probe)),
            ),
            ConnectEvent::Unserialized(reason) => ConnectProgress::Done(
                Err(io_error_new(IoErrorKind::Other, reason.as_str())),
            ),
            ConnectEvent::Sent => self.read_on(),
            ConnectEvent::Received(bytes) => {
                let mut attempt = self;
                attempt.conn.receive(bytes.as_slice());
                attempt.read_on()
            },
            ConnectEvent::Judged(Ok(Readiness::Stats)) => ConnectProgress::Pending(
                Attempt { stage: Stage::Adopting, conn: self.conn },
                ConnectAction::Adopt,
            ),
            ConnectEvent::Judged(Ok(Readiness::Other)) => ConnectProgress::Done(
                Err(io_error_new(IoErrorKind::InvalidData, "Unexpected readiness response")),
            ),
            ConnectEvent::Judged(Err(reason)) => ConnectProgress::Done(
                Err(io_error_new(IoErrorKind::Other, reason.as_str())),
            ),
            ConnectEvent::Adopted => ConnectProgress::Done(Ok(self.conn)),
            ConnectEvent::Failed(error) => ConnectProgress::Done(Err(error)),
            ConnectEvent::DeadlinePassed => ConnectProgress::Done(
                Err(
                    io_error_new(IoErrorKind::TimedOut, "Timed out waiting for server readiness"),
                ),
            ),
        }
    }
}

/// What to do after an attempt to connect.
#[derive(Debug)]
pub enum RetryStep<C> {
    /// Hand this to the caller.
    Return(Result<C, io::Error>),
    /// Pause so long, and then make another attempt.
    Pause(Duration),
}

/// Reconnect after competing daemon bootstraps without resetting the caller
/// budget: what to do after an attempt, with `remaining` left of the budget.
pub fn connect_with_retry<C>(attempt: Result<C, io::Error>, remaining: Duration) -> (step:
    RetryStep<C>)
    ensures
        match attempt {
            Ok(_) => step == RetryStep::Return(attempt),
            Err(error) => if !is_retried(io_kind_of(error)) {
                step == RetryStep::Return(attempt)
            } else if nanos(remaining) == 0 {
                step matches RetryStep::Return(Err(timeout)) && io_view(timeout) == (IoErrorView {
                    kind: IoErrorKind::TimedOut,
                    payload: Some("Timed out reconnecting to server"@),
                })
            } else {
                step matches RetryStep::Pause(pause) && nanos(pause) == retry_pause(
                    nanos(remaining),
                )
            },
        },
        // Only a failed attempt is repeated, after a pause that is within the budget.
        step matches RetryStep::Pause(pause) ==> {
            &&& attempt is Err
            &&& 0 < nanos(pause) <= nanos(remaining)
            &&& nanos(pause) <= 500_000_000
        },
{
    match attempt {
        Ok(conn) => RetryStep::Return(Ok(conn)),
        Err(error) => {
            let kind = io_error_kind(&error);
            if kind == IoErrorKind::ConnectionRefused || kind == IoErrorKind::NotFound {
                if remaining.is_zero() {
                    return RetryStep::Return(
                        Err(
                            io_error_new(
                                IoErrorKind::TimedOut,
                                "Timed out reconnecting to server",
                            ),
                        ),
                    );
                }
                RetryStep::Pause(shorter(remaining, Duration::from_millis(500)))
            } else {
                RetryStep::Return(Err(error))
            }
        },
    }
}

/// The path of a socket in the abstract namespace: its name behind a zero byte.
pub fn abstract_socket_path(name: &[u8]) -> (path: Vec<u8>)
    ensures
        path@ == seq![0u8] + name@,
{
    let mut path: Vec<u8> = vec![0];
    path.extend_from_slice(name);
    assert(path@ =~= seq![0u8] + name@);
    path
}

} // verus!
