//! The framing of messages between client and server: four bytes that give the
//! length, most significant first, and then the message.
use crate::outside::{be_bytes, be_u32, write_u32};
use vstd::prelude::*;

verus! {

/// A message with its length in front.
pub open spec fn frame(body: Seq<u8>) -> Seq<u8> {
    be_bytes(body.len()) + body
}

/// The first message in a stream of bytes and the bytes behind it, if the stream
/// holds all of it.
pub open spec fn take_frame(stream: Seq<u8>) -> Option<(Seq<u8>, Seq<u8>)> {
    if stream.len() >= 4 && stream.len() >= 4 + be_u32(stream) {
        let end = 4 + be_u32(stream) as int;
        Some((stream.subrange(4, end), stream.skip(end)))
    } else {
        None
    }
}

/// How many bytes to read next, where a stream does not hold all of its first
/// message: the rest of the length, or else the rest of the message.
pub open spec fn bytes_wanted(stream: Seq<u8>) -> nat {
    if stream.len() < 4 {
        (4 - stream.len()) as nat
    } else {
        (4 + be_u32(stream) - stream.len()) as nat
    }
}

/// Messages with their lengths in front, one behind the other.
pub open spec fn frames(bodies: Seq<Seq<u8>>) -> Seq<u8>
    decreases bodies.len(),
{
    if bodies.len() == 0 {
        Seq::empty()
    } else {
        frame(bodies[0]) + frames(bodies.drop_first())
    }
}

/// The first `count` messages in a stream of bytes and the bytes behind them, if
/// the stream holds all of them.
pub open spec fn take_frames(count: nat, stream: Seq<u8>) -> Option<(Seq<Seq<u8>>, Seq<u8>)>
    decreases count,
{
    if count == 0 {
        Some((Seq::empty(), stream))
    } else {
        match take_frame(stream) {
            None => None,
            Some((body, rest)) => match take_frames((count - 1) as nat, rest) {
                None => None,
                Some((bodies, rest)) => Some((seq![body] + bodies, rest)),
            },
        }
    }
}

/// Put the length of a message in front of it.
pub fn encode_frame(body: &[u8]) -> (encoded: Vec<u8>)
    requires
        body@.len() <= u32::MAX,
    ensures
        encoded@ == frame(body@),
{
    let mut encoded: Vec<u8> = vec![0, 0, 0, 0];
    write_u32(encoded.as_mut_slice(), body.len() as u32);
    assert(encoded@ =~= be_bytes(body@.len()));
    encoded.extend_from_slice(body);
    assert(encoded@ =~= frame(body@));
    encoded
}

/// The four bytes of a number give back the number.
proof fn lemma_be_round_trip(n: nat)
    requires
        n <= u32::MAX,
    ensures
        be_u32(be_bytes(n)) == n,
{
}

/// The number that four bytes spell is spelled by these bytes.
proof fn lemma_be_back(bytes: Seq<u8>)
    requires
        bytes.len() >= 4,
    ensures
        be_u32(bytes) <= u32::MAX,
        be_bytes(be_u32(bytes)) == bytes.take(4),
{
    let (a, b, c, d) = (bytes[0] as int, bytes[1] as int, bytes[2] as int, bytes[3] as int);
    let n = be_u32(bytes) as int;
    assert(n == a * 0x100_0000 + (b * 0x1_0000 + (c * 0x100 + d)));
    assert(n / 0x100_0000 == a);
    assert(n / 0x1_0000 == a * 0x100 + b);
    assert(n / 0x100 == a * 0x1_0000 + b * 0x100 + c);
    assert((a * 0x100 + b) % 0x100 == b);
    assert((a * 0x1_0000 + b * 0x100 + c) % 0x100 == c);
    assert(n % 0x100 == d);
    assert(be_bytes(be_u32(bytes)) =~= bytes.take(4));
}

/// The length that is read from a stream rests on its first four bytes.
proof fn lemma_be_prefix(bytes: Seq<u8>, rest: Seq<u8>)
    requires
        bytes.len() >= 4,
    ensures
        be_u32(bytes + rest) == be_u32(bytes),
{
}

/// What was framed is read back as it was, and the bytes behind it are left
/// alone.
pub proof fn law_frame_round_trip(body: Seq<u8>, rest: Seq<u8>)
    requires
        body.len() <= u32::MAX,
    ensures
        take_frame(frame(body) + rest) == Some((body, rest)),
{
    lemma_be_round_trip(body.len());
    lemma_be_prefix(be_bytes(body.len()), body + rest);
    let stream = frame(body) + rest;
    assert(stream =~= be_bytes(body.len()) + (body + rest));
    assert(stream.subrange(4, 4 + body.len() as int) =~= body);
    assert(stream.skip(4 + body.len() as int) =~= rest);
}

/// A frame is the message whole, behind four bytes that spell its length, the
/// most significant first.
pub proof fn law_frames_spell_their_length(body: Seq<u8>)
    requires
        body.len() <= u32::MAX,
    ensures
        frame(body).len() == 4 + body.len(),
        frame(body).skip(4) == body,
        ((frame(body)[0] * 256 + frame(body)[1]) * 256 + frame(body)[2]) * 256 + frame(body)[3]
            == body.len(),
{
    lemma_be_round_trip(body.len());
    assert(frame(body).skip(4) =~= body);
}

/// What is taken from a stream was framed in it: the message and the bytes behind
/// it make up the stream again.
pub proof fn law_taken_messages_were_framed(stream: Seq<u8>)
    ensures
        take_frame(stream) matches Some((body, rest)) ==> body.len() <= u32::MAX && stream == frame(
            body,
        ) + rest,
        take_frame(stream) is None ==> forall|body: Seq<u8>, rest: Seq<u8>|
            body.len() <= u32::MAX ==> stream != #[trigger] (frame(body) + rest),
{
    match take_frame(stream) {
        Some((body, rest)) => {
            lemma_be_back(stream);
            assert(stream =~= stream.take(4) + body + rest);
        },
        None => {
            assert forall|body: Seq<u8>, rest: Seq<u8>| body.len() <= u32::MAX implies stream
                != #[trigger] (frame(body) + rest) by {
                law_frame_round_trip(body, rest);
            }
        },
    }
}

/// Messages that were framed one behind the other are read back in their order,
/// and the bytes behind them are left alone.
pub proof fn law_frames_round_trip(bodies: Seq<Seq<u8>>, rest: Seq<u8>)
    requires
        forall|i: int| 0 <= i < bodies.len() ==> (#[trigger] bodies[i]).len() <= u32::MAX,
    ensures
        take_frames(bodies.len(), frames(bodies) + rest) == Some((bodies, rest)),
    decreases bodies.len(),
{
    if bodies.len() > 0 {
        let later = bodies.drop_first();
        law_frames_round_trip(later, rest);
        law_frame_round_trip(bodies[0], frames(later) + rest);
        assert(frames(bodies) + rest =~= frame(bodies[0]) + (frames(later) + rest));
        assert(seq![bodies[0]] + later =~= bodies);
    } else {
        assert(frames(bodies) + rest =~= rest);
        assert(bodies =~= Seq::empty());
    }
}

/// To frame one more message is to put it behind the others.
pub proof fn law_frames_append(bodies: Seq<Seq<u8>>, body: Seq<u8>)
    ensures
        frames(bodies) + frame(body) == frames(bodies.push(body)),
    decreases bodies.len(),
{
    let all = bodies.push(body);
    if bodies.len() > 0 {
        law_frames_append(bodies.drop_first(), body);
        assert(all.drop_first() =~= bodies.drop_first().push(body));
        assert(frames(bodies) + frame(body) =~= frame(bodies[0]) + (frames(bodies.drop_first())
            + frame(body)));
    } else {
        assert(all.drop_first() =~= Seq::empty());
        assert(frames(all.drop_first()) =~= Seq::empty());
        assert(frames(all) =~= frame(body));
        assert(frames(bodies) + frame(body) =~= frame(body));
    }
}

/// A request that is queued behind others reaches the reader behind them, as it
/// was.
pub proof fn law_requests_arrive_in_order(queued: Seq<Seq<u8>>, request: Seq<u8>)
    requires
        forall|i: int| 0 <= i < queued.len() ==> (#[trigger] queued[i]).len() <= u32::MAX,
        request.len() <= u32::MAX,
    ensures
        take_frames(queued.len() + 1, frames(queued) + frame(request)) == Some(
            (queued.push(request), Seq::<u8>::empty()),
        ),
{
    law_frames_append(queued, request);
    law_frames_round_trip(queued.push(request), Seq::empty());
    assert(frames(queued.push(request)) + Seq::<u8>::empty() =~= frames(queued.push(request)));
}

/// A reader that has part of a message asks for more, and never for bytes behind
/// the message.
pub proof fn law_reads_stay_within_the_frame(body: Seq<u8>, have: nat)
    requires
        body.len() <= u32::MAX,
        have < frame(body).len(),
    ensures
        ({
            let part = frame(body).take(have as int);
            &&& take_frame(part) is None
            &&& 0 < bytes_wanted(part)
            &&& have + bytes_wanted(part) == if have < 4 { 4 } else { frame(body).len() }
        }),
{
    let part = frame(body).take(have as int);
    if have >= 4 {
        lemma_be_round_trip(body.len());
        lemma_be_prefix(be_bytes(body.len()), body.take(have - 4));
        assert(part =~= be_bytes(body.len()) + body.take(have - 4));
    }
}

} // verus!
