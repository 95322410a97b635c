//! The bytes of a buffer, in one piece.
use crate::outside::{buffer_parts, bytes_as_slice, bytes_contents, bytes_from_vec, next_part};
use bytes::Bytes;
use vstd::prelude::*;

verus! {

/// The bytes that are left to read in a buffer: those of its parts, in order.
pub open spec fn buffer_contents(buffer: opendal::Buffer) -> Seq<u8> {
    buffer_parts(buffer).flatten()
}

proof fn lemma_first_part(part: Seq<u8>, later: Seq<Seq<u8>>)
    ensures
        (seq![part] + later).flatten() == part + later.flatten(),
{
    let parts = seq![part] + later;
    assert(parts.first() == part);
    assert(parts.drop_first() =~= later);
}

/// Put what is left to read in a buffer behind `data`.
fn append_parts(data: &mut Vec<u8>, buffer: opendal::Buffer)
    ensures
        final(data)@ == old(data)@ + buffer_contents(buffer),
{
    let mut rest = buffer;
    loop
        invariant
            data@ + buffer_contents(rest) == old(data)@ + buffer_contents(buffer),
        decreases buffer_parts(rest).len(),
    {
        let ghost before = data@;
        match next_part(&mut rest) {
            Some(part) => {
                proof {
                    lemma_first_part(bytes_contents(part), buffer_parts(rest));
                }
                data.extend_from_slice(bytes_as_slice(&part));
                assert(data@ + buffer_contents(rest) =~= before + (bytes_contents(part)
                    + buffer_contents(rest)));
            },
            None => {
                assert(data@ =~= before + Seq::<u8>::empty());
                return ;
            },
        }
    }
}

/// Combine all bytes of a buffer. A single part is handed on without a copy.
///
/// The parts are taken one by one, because `opendal::Buffer::to_bytes` does not
/// return where an empty part stands in front of the last byte.
pub fn buffer_to_bytes(buffer: opendal::Buffer) -> (bytes: Bytes)
    ensures
        bytes_contents(bytes) == buffer_contents(buffer),
{
    let mut rest = buffer;
    let first = match next_part(&mut rest) {
        Some(part) => part,
        None => return bytes_from_vec(Vec::new()),
    };
    proof {
        lemma_first_part(bytes_contents(first), buffer_parts(rest));
    }
    let second = match next_part(&mut rest) {
        Some(part) => part,
        None => {
            assert(bytes_contents(first) + Seq::<u8>::empty() =~= bytes_contents(first));
            return first;
        },
    };
    proof {
        lemma_first_part(bytes_contents(second), buffer_parts(rest));
    }
    let mut data: Vec<u8> = Vec::new();
    data.extend_from_slice(bytes_as_slice(&first));
    data.extend_from_slice(bytes_as_slice(&second));
    append_parts(&mut data, rest);
    assert(data@ =~= buffer_contents(buffer));
    bytes_from_vec(data)
}

/// How many bytes the first `count` parts hold together.
pub open spec fn lengths_before(parts: Seq<Seq<u8>>, count: int) -> int
    decreases count,
{
    if count <= 0 {
        0
    } else {
        lengths_before(parts, count - 1) + parts[count - 1].len()
    }
}

proof fn lemma_lengths_before(parts: Seq<Seq<u8>>, count: int)
    requires
        parts.len() > 0,
        count < parts.len(),
    ensures
        lengths_before(parts.drop_last(), count) == lengths_before(parts, count),
    decreases count,
{
    if count > 0 {
        lemma_lengths_before(parts, count - 1);
    }
}

proof fn lemma_parts_in_place(parts: Seq<Seq<u8>>)
    ensures
        parts.flatten().len() == lengths_before(parts, parts.len() as int),
        forall|i: int|
            0 <= i < parts.len() ==> {
                let start = lengths_before(parts, i);
                &&& 0 <= start
                &&& start + (#[trigger] parts[i]).len() <= parts.flatten().len()
                &&& parts.flatten().subrange(start, start + parts[i].len()) == parts[i]
            },
    decreases parts.len(),
{
    parts.lemma_flatten_and_flatten_alt_are_equivalent();
    if parts.len() > 0 {
        let earlier = parts.drop_last();
        earlier.lemma_flatten_and_flatten_alt_are_equivalent();
        lemma_parts_in_place(earlier);
        lemma_lengths_before(parts, parts.len() - 1);
        let all = parts.flatten();
        assert(all =~= earlier.flatten() + parts.last());
        assert forall|i: int| 0 <= i < parts.len() implies {
            let start = lengths_before(parts, i);
            &&& 0 <= start
            &&& start + (#[trigger] parts[i]).len() <= all.len()
            &&& all.subrange(start, start + parts[i].len()) == parts[i]
        } by {
            lemma_lengths_before(parts, i);
            let start = lengths_before(parts, i);
            if i < earlier.len() {
                assert(earlier[i] == parts[i]);
                assert(all.subrange(start, start + parts[i].len()) =~= earlier.flatten().subrange(
                    start,
                    start + parts[i].len(),
                ));
            } else {
                assert(all.subrange(start, start + parts[i].len()) =~= parts[i]);
            }
        }
    }
}

/// Nothing of a buffer is cut off, doubled or moved: it holds as many bytes as its
/// parts do together, and every part stands whole behind those before it.
pub proof fn law_buffer_keeps_every_part(buffer: opendal::Buffer)
    ensures
        buffer_contents(buffer).len() == lengths_before(
            buffer_parts(buffer),
            buffer_parts(buffer).len() as int,
        ),
        forall|i: int|
            0 <= i < buffer_parts(buffer).len() ==> {
                let start = lengths_before(buffer_parts(buffer), i);
                let part = #[trigger] buffer_parts(buffer)[i];
                &&& 0 <= start
                &&& start + part.len() <= buffer_contents(buffer).len()
                &&& buffer_contents(buffer).subrange(start, start + part.len()) == part
            },
{
    lemma_parts_in_place(buffer_parts(buffer));
}

/// Buffers hold the same bytes wherever the cuts between their parts are: what a
/// buffer holds is what its first part holds and then what the others hold.
pub proof fn law_buffers_are_read_part_by_part(
    buffer: opendal::Buffer,
    first: Seq<u8>,
    later: opendal::Buffer,
)
    requires
        buffer_parts(buffer) == seq![first] + buffer_parts(later),
    ensures
        buffer_contents(buffer) == first + buffer_contents(later),
{
    lemma_first_part(first, buffer_parts(later));
}

} // verus!
