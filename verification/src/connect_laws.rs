//! What holds of connecting to the server over any course of events.
use crate::connect::{
    connect_expects, connect_start, connect_step, fresh_connection, is_retried, longest_pause,
    read_on, retry_pause, AttemptView, ConnectAction, ConnectActionView, ConnectEvent,
    ConnectProgress, ConnectProgressView, IoErrorView, Readiness, Stage,
};
use crate::client::ConnectionView;
use crate::frame::{frame, law_frame_round_trip, law_reads_stay_within_the_frame, take_frame};
use crate::outside::{be_bytes, be_u32, io_kind_of, io_payload_of, IoErrorKind};
use vstd::prelude::*;

verus! {

/// Where an attempt to connect stands after a course of events.
pub open spec fn connect_run(remaining: nat, probe: Seq<u8>, events: Seq<ConnectEvent>) -> ConnectProgressView
    decreases events.len(),
{
    if events.len() == 0 {
        connect_start(remaining)
    } else {
        match connect_run(remaining, probe, events.drop_last()) {
            ConnectProgressView::Pending(attempt, _) => connect_step(attempt, probe, events.last()),
            over => over,
        }
    }
}

/// Whether a course of events can occur.
pub open spec fn connect_feasible(remaining: nat, probe: Seq<u8>, events: Seq<ConnectEvent>) -> bool
    decreases events.len(),
{
    events.len() == 0 || {
        &&& connect_feasible(remaining, probe, events.drop_last())
        &&& connect_run(remaining, probe, events.drop_last()) matches ConnectProgressView::Pending(
            attempt,
            _,
        )
        &&& connect_expects(attempt.stage, events.last())
    }
}

/// Where no time is left, an attempt ends before anything is connected.
pub proof fn law_expired_deadline_connects_nothing(probe: Seq<u8>, events: Seq<ConnectEvent>)
    requires
        connect_feasible(0, probe, events),
    ensures
        events.len() == 0,
        connect_run(0, probe, events) == ConnectProgressView::Done(
            Err(IoErrorView { kind: IoErrorKind::TimedOut, payload: None }),
        ),
    decreases events.len(),
{
    if events.len() > 0 {
        law_expired_deadline_connects_nothing(probe, events.drop_last());
    }
}

/// A connection is handed out only after the server has answered the readiness
/// request with its statistics.
pub proof fn law_connection_proves_ready(
    remaining: nat,
    probe: Seq<u8>,
    events: Seq<ConnectEvent>,
)
    requires
        connect_feasible(remaining, probe, events),
        match connect_run(remaining, probe, events) {
            ConnectProgressView::Done(outcome) => outcome is Ok,
            ConnectProgressView::Pending(attempt, _) => attempt.stage == Stage::Adopting,
        },
    ensures
        exists|i: int|
            0 <= i < events.len() && #[trigger] events[i] == ConnectEvent::Judged(
                Ok(Readiness::Stats),
            ),
    decreases events.len(),
{
    assert(events.len() > 0);
    let last = events.len() - 1;
    if events[last] == ConnectEvent::Judged(Ok(Readiness::Stats)) {
        assert(events[last] == ConnectEvent::Judged(Ok(Readiness::Stats)));
    } else {
        law_connection_proves_ready(remaining, probe, events.drop_last());
        let i = choose|i: int|
            0 <= i < events.drop_last().len() && #[trigger] events.drop_last()[i]
                == ConnectEvent::Judged(Ok(Readiness::Stats));
        assert(events[i] == events.drop_last()[i]);
    }
}

/// The deadline bounds every stage, a response that is partly read included.
pub proof fn law_deadline_bounds_every_stage(attempt: AttemptView, probe: Seq<u8>)
    ensures
        connect_step(attempt, probe, ConnectEvent::DeadlinePassed) == ConnectProgressView::Done(
            Err(
                IoErrorView {
                    kind: IoErrorKind::TimedOut,
                    payload: Some("Timed out waiting for server readiness"@),
                },
            ),
        ),
{
}

/// The readiness exchange sends one framed request and reads exactly one framed
/// response: its length, and then as many bytes as that says. The connection
/// that it leaves behind holds nothing, and nothing behind the response has been
/// read.
pub proof fn law_readiness_exchange(
    remaining: nat,
    probe: Seq<u8>,
    header: Vec<u8>,
    body: Vec<u8>,
)
    requires
        remaining > 0,
        body@.len() <= u32::MAX,
        header@ == be_bytes(body@.len()),
    ensures
        connect_run(remaining, probe, seq![ConnectEvent::Connected])
            == ConnectProgressView::Pending(
            AttemptView { stage: Stage::Sending, conn: fresh_connection() },
            ConnectActionView::Send(frame(probe)),
        ),
        connect_run(remaining, probe, seq![ConnectEvent::Connected, ConnectEvent::Sent])
            == ConnectProgressView::Pending(
            AttemptView { stage: Stage::Receiving, conn: fresh_connection() },
            ConnectActionView::Receive(4),
        ),
        connect_run(
            remaining,
            probe,
            seq![ConnectEvent::Connected, ConnectEvent::Sent, ConnectEvent::Received(header)],
        ) == if body@.len() == 0 {
            ConnectProgressView::Pending(
                AttemptView { stage: Stage::Judging, conn: fresh_connection() },
                ConnectActionView::Judge(body@),
            )
        } else {
            ConnectProgressView::Pending(
                AttemptView {
                    stage: Stage::Receiving,
                    conn: ConnectionView { incoming: header@, outgoing: Seq::empty() },
                },
                ConnectActionView::Receive(body@.len()),
            )
        },
        body@.len() > 0 ==> connect_run(
            remaining,
            probe,
            seq![
                ConnectEvent::Connected,
                ConnectEvent::Sent,
                ConnectEvent::Received(header),
                ConnectEvent::Received(body),
            ],
        ) == ConnectProgressView::Pending(
            AttemptView { stage: Stage::Judging, conn: fresh_connection() },
            ConnectActionView::Judge(body@),
        ),
        connect_step(
            AttemptView { stage: Stage::Judging, conn: fresh_connection() },
            probe,
            ConnectEvent::Judged(Ok(Readiness::Stats)),
        ) == ConnectProgressView::Pending(
            AttemptView { stage: Stage::Adopting, conn: fresh_connection() },
            ConnectActionView::Adopt,
        ),
        connect_step(
            AttemptView { stage: Stage::Adopting, conn: fresh_connection() },
            probe,
            ConnectEvent::Adopted,
        ) == ConnectProgressView::Done(Ok(fresh_connection())),
{
    let none = Seq::<ConnectEvent>::empty();
    let one = none.push(ConnectEvent::Connected);
    let two = one.push(ConnectEvent::Sent);
    let three = two.push(ConnectEvent::Received(header));
    let four = three.push(ConnectEvent::Received(body));
    assert(one =~= seq![ConnectEvent::Connected]);
    assert(two =~= seq![ConnectEvent::Connected, ConnectEvent::Sent]);
    assert(three =~= seq![
        ConnectEvent::Connected,
        ConnectEvent::Sent,
        ConnectEvent::Received(header),
    ]);
    assert(four =~= seq![
        ConnectEvent::Connected,
        ConnectEvent::Sent,
        ConnectEvent::Received(header),
        ConnectEvent::Received(body),
    ]);
    assert(one.drop_last() =~= none);
    assert(two.drop_last() =~= one);
    assert(three.drop_last() =~= two);
    assert(four.drop_last() =~= three);
    let fresh = fresh_connection();
    assert(connect_run(remaining, probe, none) == connect_start(remaining));
    assert(connect_run(remaining, probe, one) == ConnectProgressView::Pending(
        AttemptView { stage: Stage::Sending, conn: fresh },
        ConnectActionView::Send(frame(probe)),
    ));
    assert(connect_run(remaining, probe, two) == read_on(fresh));
    if body@.len() > 0 {
        law_reads_stay_within_the_frame(body@, 4);
        assert(frame(body@).take(4) =~= header@);
    } else {
        law_frame_round_trip(body@, Seq::empty());
        assert(frame(body@) + Seq::<u8>::empty() =~= header@);
    }
    assert(fresh.incoming + header@ =~= header@);
    assert(connect_run(remaining, probe, three) == read_on(
        ConnectionView { incoming: header@, ..fresh },
    ));
    if body@.len() > 0 {
        law_frame_round_trip(body@, Seq::empty());
        assert(frame(body@) + Seq::<u8>::empty() =~= header@ + body@);
        assert(connect_run(remaining, probe, four) == read_on(
            ConnectionView { incoming: header@ + body@, ..fresh },
        ));
    }
}

/// Bytes that were received behind the response stay in the connection.
pub proof fn law_readiness_keeps_later_bytes(response: Seq<u8>, later: Seq<u8>, outgoing: Seq<u8>)
    requires
        response.len() <= u32::MAX,
    ensures
        read_on(ConnectionView { incoming: frame(response) + later, outgoing })
            == ConnectProgressView::Pending(
            AttemptView {
                stage: Stage::Judging,
                conn: ConnectionView { incoming: later, outgoing },
            },
            ConnectActionView::Judge(response),
        ),
{
    law_frame_round_trip(response, later);
}

/// All that an attempt has had its caller write to the stream in a course of
/// events.
pub open spec fn bytes_sent(remaining: nat, probe: Seq<u8>, events: Seq<ConnectEvent>) -> Seq<u8>
    decreases events.len(),
{
    if events.len() == 0 {
        Seq::empty()
    } else {
        let earlier = bytes_sent(remaining, probe, events.drop_last());
        match connect_run(remaining, probe, events) {
            ConnectProgressView::Pending(_, ConnectActionView::Send(bytes)) => earlier + bytes,
            _ => earlier,
        }
    }
}

/// All that has been read from the stream in a course of events.
pub open spec fn bytes_received(events: Seq<ConnectEvent>) -> Seq<u8>
    decreases events.len(),
{
    if events.len() == 0 {
        Seq::empty()
    } else {
        let earlier = bytes_received(events.drop_last());
        match events.last() {
            ConnectEvent::Received(bytes) => earlier + bytes@,
            _ => earlier,
        }
    }
}

/// Whether a connection holds what was received behind the first message, and has
/// nothing to write.
pub open spec fn holds_the_rest(conn: ConnectionView, received: Seq<u8>) -> bool {
    &&& conn.outgoing.len() == 0
    &&& take_frame(received) matches Some((_, rest)) && conn.incoming == rest
}

/// What an attempt has exchanged by the time it reaches each stage.
proof fn lemma_exchange(remaining: nat, probe: Seq<u8>, events: Seq<ConnectEvent>)
    requires
        connect_feasible(remaining, probe, events),
    ensures
        ({
            let sent = bytes_sent(remaining, probe, events);
            let received = bytes_received(events);
            match connect_run(remaining, probe, events) {
                ConnectProgressView::Pending(attempt, action) => {
                    &&& action is Send <==> attempt.stage == Stage::Sending
                    &&& attempt.conn.outgoing.len() == 0
                    &&& match attempt.stage {
                        Stage::Connecting => sent.len() == 0 && received.len() == 0
                            && attempt.conn.incoming.len() == 0,
                        Stage::Sending => sent == frame(probe) && received.len() == 0
                            && attempt.conn.incoming.len() == 0,
                        Stage::Receiving => sent == frame(probe) && attempt.conn.incoming
                            == received,
                        Stage::Judging | Stage::Adopting => sent == frame(probe)
                            && holds_the_rest(attempt.conn, received),
                    }
                },
                ConnectProgressView::Done(Ok(conn)) => sent == frame(probe) && holds_the_rest(
                    conn,
                    received,
                ),
                ConnectProgressView::Done(Err(_)) => true,
            }
        }),
    decreases events.len(),
{
    if events.len() > 0 {
        lemma_exchange(remaining, probe, events.drop_last());
    }
}

/// More bytes behind a stream that holds a whole message only add to what is
/// behind the message.
proof fn lemma_take_frame_extends(stream: Seq<u8>, later: Seq<u8>)
    ensures
        take_frame(stream) matches Some((body, rest)) ==> take_frame(stream + later) == Some(
            (body, rest + later),
        ),
{
    if take_frame(stream) is Some {
        let all = stream + later;
        assert(be_u32(all) == be_u32(stream));
        let end = 4 + be_u32(stream) as int;
        assert(all.subrange(4, end) =~= stream.subrange(4, end));
        assert(all.skip(end) =~= stream.skip(end) + later);
    }
}

/// A connection is handed out after exactly one message, the readiness request,
/// has been sent, and exactly one has been consumed. Reading from it starts with
/// the first byte behind that message: first come those that arrived together
/// with it, and then those that are still unread.
pub proof fn law_connection_reads_on_behind_the_response(
    remaining: nat,
    probe: Seq<u8>,
    events: Seq<ConnectEvent>,
    conn: ConnectionView,
    response: Seq<u8>,
    rest: Seq<u8>,
    unread: Seq<u8>,
)
    requires
        connect_feasible(remaining, probe, events),
        connect_run(remaining, probe, events) == ConnectProgressView::Done(Ok(conn)),
        response.len() <= u32::MAX,
        bytes_received(events) + unread == frame(response) + rest,
    ensures
        bytes_sent(remaining, probe, events) == frame(probe),
        conn.outgoing.len() == 0,
        conn.incoming + unread == rest,
{
    lemma_exchange(remaining, probe, events);
    lemma_take_frame_extends(bytes_received(events), unread);
    law_frame_round_trip(response, rest);
}

/// The sum of the pauses that are made with so much time left each.
pub open spec fn total_pause(remaining: Seq<nat>) -> nat
    decreases remaining.len(),
{
    if remaining.len() == 0 {
        0
    } else {
        total_pause(remaining.drop_last()) + retry_pause(remaining.last())
    }
}

/// What is left of the budget at each of the failed attempts: a pause uses up at
/// least its own length, and nothing is ever added.
pub open spec fn is_one_budget(remaining: Seq<nat>) -> bool {
    forall|i: int|
        0 <= i < remaining.len() - 1 ==> #[trigger] remaining[i + 1] + retry_pause(remaining[i])
            <= remaining[i]
}

/// All pauses together fit into what was left of the caller's budget at the
/// first of them.
pub proof fn law_pauses_fit_the_budget(remaining: Seq<nat>)
    requires
        remaining.len() > 0,
        is_one_budget(remaining),
    ensures
        total_pause(remaining) + remaining.last() <= remaining[0] + retry_pause(remaining.last()),
        total_pause(remaining) <= remaining[0],
    decreases remaining.len(),
{
    let earlier = remaining.drop_last();
    if earlier.len() > 0 {
        let last = remaining.len() - 1;
        assert forall|i: int| 0 <= i < earlier.len() - 1 implies #[trigger] earlier[i + 1]
            + retry_pause(earlier[i]) <= earlier[i] by {
            assert(remaining[i + 1] == earlier[i + 1]);
        }
        law_pauses_fit_the_budget(earlier);
        assert(remaining[(last - 1) + 1] + retry_pause(remaining[last - 1]) <= remaining[last - 1]);
        assert(earlier.last() == remaining[last - 1]);
    } else {
        assert(total_pause(earlier) == 0);
        assert(remaining.last() == remaining[0]);
    }
}

/// Retrying comes to an end: every pause but the last is a full one, so that a
/// budget allows no more of them than fit into it.
pub proof fn law_retries_are_bounded(remaining: Seq<nat>)
    requires
        remaining.len() > 0,
        is_one_budget(remaining),
        remaining.last() > 0,
    ensures
        (remaining.len() - 1) * longest_pause() + remaining.last() <= remaining[0],
    decreases remaining.len(),
{
    let earlier = remaining.drop_last();
    if earlier.len() > 0 {
        let last = remaining.len() - 1;
        assert(remaining[(last - 1) + 1] + retry_pause(remaining[last - 1]) <= remaining[last - 1]);
        assert(earlier.last() == remaining[last - 1]);
        assert forall|i: int| 0 <= i < earlier.len() - 1 implies #[trigger] earlier[i + 1]
            + retry_pause(earlier[i]) <= earlier[i] by {
            assert(remaining[i + 1] == earlier[i + 1]);
        }
        law_retries_are_bounded(earlier);
        assert((remaining.len() - 1) * longest_pause() == (earlier.len() - 1) * longest_pause()
            + longest_pause()) by (nonlinear_arith)
            requires
                remaining.len() == earlier.len() + 1,
        ;
    }
}

/// Where time is left, an attempt starts with connecting, and with a connection
/// that holds nothing.
pub proof fn law_time_left_starts_an_attempt(remaining: nat)
    requires
        remaining > 0,
    ensures
        connect_start(remaining) matches ConnectProgressView::Pending(attempt, action) && {
            &&& action is Connect
            &&& attempt.stage == Stage::Connecting
            &&& attempt.conn.incoming.len() == 0
            &&& attempt.conn.outgoing.len() == 0
        },
{
}

/// Once the stream is connected, what is sent is the readiness request: a server
/// that takes one message from it reads the request as it is, and nothing more.
pub proof fn law_readiness_request_arrives(attempt: AttemptView, probe: Seq<u8>)
    requires
        probe.len() <= u32::MAX,
    ensures
        connect_step(attempt, probe, ConnectEvent::Connected) matches ConnectProgressView::Pending(
            next,
            ConnectActionView::Send(bytes),
        ) && {
            &&& next.stage == Stage::Sending
            &&& next.conn == attempt.conn
            &&& take_frame(bytes) == Some((probe, Seq::<u8>::empty()))
        },
{
    law_frame_round_trip(probe, Seq::empty());
    assert(frame(probe) + Seq::<u8>::empty() =~= frame(probe));
}

/// An attempt ends where the stream fails, with that failure; where a message
/// cannot be serialized or deserialized, with the reason and as no particular
/// kind; and where the server answers anything but its statistics, as invalid
/// data.
pub proof fn law_failures_end_an_attempt(
    attempt: AttemptView,
    probe: Seq<u8>,
    error: std::io::Error,
    reason: String,
)
    ensures
        connect_step(attempt, probe, ConnectEvent::Failed(error)) matches ConnectProgressView::Done(
            Err(told),
        ) && told.kind == io_kind_of(error) && told.payload == io_payload_of(error),
        connect_step(
            attempt,
            probe,
            ConnectEvent::Judged(Err(reason)),
        ) matches ConnectProgressView::Done(Err(told)) && told.kind == IoErrorKind::Other
            && told.payload == Some(reason@),
        connect_step(
            attempt,
            probe,
            ConnectEvent::Unserialized(reason),
        ) matches ConnectProgressView::Done(Err(told)) && told.kind == IoErrorKind::Other
            && told.payload == Some(reason@),
        connect_step(
            attempt,
            probe,
            ConnectEvent::Judged(Ok(Readiness::Other)),
        ) matches ConnectProgressView::Done(Err(told)) && told.kind == IoErrorKind::InvalidData
            && told.payload == Some("Unexpected readiness response"@),
{
}

/// While the response is being read, an attempt keeps what it has and asks for
/// more, but never for bytes behind the response.
pub proof fn law_readiness_reads_no_further(body: Seq<u8>, have: nat, outgoing: Seq<u8>)
    requires
        body.len() <= u32::MAX,
        have < frame(body).len(),
    ensures
        ({
            let conn = ConnectionView { incoming: frame(body).take(have as int), outgoing };
            read_on(conn) matches ConnectProgressView::Pending(
                attempt,
                ConnectActionView::Receive(count),
            ) && {
                &&& attempt.stage == Stage::Receiving
                &&& attempt.conn == conn
                &&& 0 < count
                &&& have + count <= frame(body).len()
            }
        }),
{
    law_reads_stay_within_the_frame(body, have);
}

/// A pause is as long as the time that is left, but no longer than half a second.
pub proof fn law_pauses_are_short(remaining: nat)
    ensures
        retry_pause(remaining) <= remaining,
        retry_pause(remaining) <= 500_000_000,
        retry_pause(remaining) == remaining || retry_pause(remaining) == 500_000_000,
{
}

/// Only an attempt that found no server is repeated; a server that is too slow, or
/// that answers wrongly, is not asked again.
pub proof fn law_only_early_attempts_are_repeated(kind: IoErrorKind)
    ensures
        is_retried(kind) <==> kind != IoErrorKind::TimedOut && kind != IoErrorKind::InvalidData
            && kind != IoErrorKind::Other,
{
}

/// What an attempt has its caller do, and what it ends with, is seen whole.
pub proof fn law_progress_is_seen_whole(progress: ConnectProgress)
    ensures
        progress matches ConnectProgress::Pending(attempt, action) ==> (
        progress@ matches ConnectProgressView::Pending(seen, asked) && seen == attempt@
            && match action {
            ConnectAction::Connect => asked is Connect,
            ConnectAction::Send(bytes) => asked matches ConnectActionView::Send(sent) && sent
                == bytes@,
            ConnectAction::Receive(count) => asked matches ConnectActionView::Receive(wanted)
                && wanted == count,
            ConnectAction::Judge(response) => asked matches ConnectActionView::Judge(judged)
                && judged == response@,
            ConnectAction::Adopt => asked is Adopt,
        }),
        progress matches ConnectProgress::Done(Ok(conn)) ==> (
        progress@ matches ConnectProgressView::Done(Ok(seen)) && seen == conn@),
        progress matches ConnectProgress::Done(Err(error)) ==> (
        progress@ matches ConnectProgressView::Done(Err(told)) && told.kind == io_kind_of(error)
            && told.payload == io_payload_of(error)),
{
}

} // verus!
