//! What holds of a remote storage over any course of events.
use crate::buffer::{buffer_contents, law_buffer_keeps_every_part, lengths_before};
use crate::error::{first_remote_kind, storage_error_summary, CauseView, ErrorChain};
use crate::outside::{
    buffer_parts, bytes_contents, error_kind_of, is_uuid_v4_text, kind_text, RemoteErrorKind,
};
use crate::remote::{
    check_expects, check_step, is_cache_read, is_opened_entry, is_raw_read, is_write_probe,
    location_text, opens_to, read_answered, remote_failure, write_probe, write_request, write_taken,
    CheckAction, CheckActionView, CheckEvent, CheckState, RemoteWrite,
};
use crate::storage::{Cache, CacheMode};
use bytes::Bytes;
use vstd::prelude::*;

verus! {

/// The state that a capability check has come to after a course of events, and
/// what it had its callers do on the way.
pub open spec fn check_run(
    mode: CacheMode,
    probe: Seq<char>,
    state: CheckState,
    events: Seq<CheckEvent>,
) -> (CheckState, Seq<CheckActionView>)
    decreases events.len(),
{
    if events.len() == 0 {
        (state, Seq::empty())
    } else {
        let before = check_run(mode, probe, state, events.drop_last());
        let step = check_step(mode, probe, before.0, events.last());
        (step.0, before.1.push(step.1))
    }
}

/// Whether a course of events can occur: every answer where one is awaited.
pub open spec fn check_feasible(
    mode: CacheMode,
    probe: Seq<char>,
    state: CheckState,
    events: Seq<CheckEvent>,
) -> bool
    decreases events.len(),
{
    events.len() == 0 || {
        &&& check_feasible(mode, probe, state, events.drop_last())
        &&& check_expects(check_run(mode, probe, state, events.drop_last()).0, events.last())
    }
}

/// A check reports success only with the mode that was asked for, and is done
/// with it for good; after a failure it is where it was before; it writes only
/// where writing was asked for, and only to the storage's own probe.
pub proof fn law_check_steps(mode: CacheMode, probe: Seq<char>, state: CheckState, event: CheckEvent)
    requires
        check_expects(state, event),
    ensures
        ({
            let (next, action) = check_step(mode, probe, state, event);
            match action {
                CheckActionView::Read(path) => next == CheckState::Reading && path
                    == ".sccache_check"@,
                CheckActionView::Write { path, .. } => next == CheckState::Writing && mode
                    == CacheMode::ReadWrite && path == probe,
                CheckActionView::Finish(Ok(reported)) => next == CheckState::Initialized && reported
                    == mode,
                CheckActionView::Finish(Err(_)) => next == CheckState::Idle,
            }
        }),
{
}

/// A read-only storage never writes to the service in the course of its checks.
pub proof fn law_read_only_check_never_writes(probe: Seq<char>, events: Seq<CheckEvent>)
    requires
        check_feasible(CacheMode::ReadOnly, probe, CheckState::Idle, events),
    ensures
        ({
            let (state, actions) = check_run(
                CacheMode::ReadOnly,
                probe,
                CheckState::Idle,
                events,
            );
            &&& state != CheckState::Writing
            &&& forall|i: int| 0 <= i < actions.len() ==> !(#[trigger] actions[i] is Write)
        }),
    decreases events.len(),
{
    if events.len() > 0 {
        law_read_only_check_never_writes(probe, events.drop_last());
    }
}

/// Once a check has succeeded, the service is not asked again: every later
/// query is answered at once with the mode.
pub proof fn law_check_initializes_once(
    mode: CacheMode,
    probe: Seq<char>,
    state: CheckState,
    events: Seq<CheckEvent>,
    success: int,
)
    requires
        check_feasible(mode, probe, state, events),
        0 <= success <= events.len(),
        check_run(mode, probe, state, events.take(success)).0 == CheckState::Initialized,
    ensures
        ({
            let (end, actions) = check_run(mode, probe, state, events);
            &&& end == CheckState::Initialized
            &&& actions.len() == events.len()
            &&& forall|i: int|
                success <= i < events.len() ==> #[trigger] actions[i] == CheckActionView::Finish(
                    Ok(mode),
                )
        }),
    decreases events.len(),
{
    lemma_run_answers_every_event(mode, probe, state, events);
    if success < events.len() {
        assert(events.drop_last().take(success) =~= events.take(success));
        law_check_initializes_once(mode, probe, state, events.drop_last(), success);
    } else {
        assert(events.take(success) =~= events);
    }
}

/// A run takes one action for every event.
proof fn lemma_run_answers_every_event(
    mode: CacheMode,
    probe: Seq<char>,
    state: CheckState,
    events: Seq<CheckEvent>,
)
    ensures
        check_run(mode, probe, state, events).1.len() == events.len(),
    decreases events.len(),
{
    if events.len() > 0 {
        lemma_run_answers_every_event(mode, probe, state, events.drop_last());
    }
}

/// However often checks fail or are given up, all their writes go to the one
/// probe of the storage.
pub proof fn law_checks_keep_their_probe(
    mode: CacheMode,
    probe: Seq<char>,
    state: CheckState,
    events: Seq<CheckEvent>,
)
    requires
        check_feasible(mode, probe, state, events),
    ensures
        ({
            let actions = check_run(mode, probe, state, events).1;
            forall|i: int|
                0 <= i < actions.len() && #[trigger] actions[i] is Write ==> actions[i]
                    == CheckActionView::Write { path: probe, content: "Hello, World!"@ }
        }),
    decreases events.len(),
{
    if events.len() > 0 {
        law_checks_keep_their_probe(mode, probe, state, events.drop_last());
    }
}

/// A storage counts as initialized only after the service has answered a read,
/// and, where writing was asked for, has then taken a write.
pub proof fn law_initialization_rests_on_the_service(
    mode: CacheMode,
    probe: Seq<char>,
    events: Seq<CheckEvent>,
)
    requires
        check_feasible(mode, probe, CheckState::Idle, events),
    ensures
        ({
            let state = check_run(mode, probe, CheckState::Idle, events).0;
            &&& state == CheckState::Writing || state == CheckState::Initialized ==> exists|i: int|
                0 <= i < events.len() && (#[trigger] events[i] matches CheckEvent::ReadDone(read)
                    && read_answered(read))
            &&& state == CheckState::Initialized && mode == CacheMode::ReadWrite ==> exists|
                i: int,
                j: int,
            |
                0 <= i < j < events.len() && (#[trigger] events[i] matches CheckEvent::ReadDone(read)
                    && read_answered(read)) && (#[trigger] events[j] matches CheckEvent::WriteDone(
                    write,
                ) && write_taken(write))
        }),
    decreases events.len(),
{
    if events.len() > 0 {
        let earlier = events.drop_last();
        law_initialization_rests_on_the_service(mode, probe, earlier);
        let before = check_run(mode, probe, CheckState::Idle, earlier).0;
        let last = events.len() - 1;
        assert(events[last] == events.last());
        if before == CheckState::Writing || before == CheckState::Initialized {
            let i = choose|i: int|
                0 <= i < earlier.len() && (#[trigger] earlier[i] matches CheckEvent::ReadDone(read)
                    && read_answered(read));
            assert(events[i] == earlier[i]);
            if before == CheckState::Initialized && mode == CacheMode::ReadWrite {
                let (i, j) = choose|i: int, j: int|
                    0 <= i < j < earlier.len() && (#[trigger] earlier[i] matches CheckEvent::ReadDone(
                        read,
                    ) && read_answered(read)) && (#[trigger] earlier[j] matches CheckEvent::WriteDone(
                        write,
                    ) && write_taken(write));
                assert(events[i] == earlier[i]);
                assert(events[j] == earlier[j]);
            }
        }
    }
}

/// The verdict of one whole attempt: failed reads are rejected in either mode,
/// before anything is written; failed writes where writing was asked for; and
/// otherwise the mode that was asked for is reported.
pub proof fn law_attempt_verdict(
    mode: CacheMode,
    probe: Seq<char>,
    read: Result<(), opendal::Error>,
    write: Result<(), opendal::Error>,
)
    ensures
        ({
            let (reading, asked) = check_step(mode, probe, CheckState::Idle, CheckEvent::Start);
            let (state, verdict) = check_step(mode, probe, reading, CheckEvent::ReadDone(read));
            let (end, outcome) = check_step(mode, probe, state, CheckEvent::WriteDone(write));
            &&& asked == CheckActionView::Read(".sccache_check"@)
            &&& !read_answered(read) ==> state == CheckState::Idle && verdict
                == CheckActionView::Finish(
                Err(
                    remote_failure("cache storage failed to read"@, error_kind_of(read->Err_0)),
                ),
            )
            &&& read_answered(read) && mode == CacheMode::ReadOnly ==> state
                == CheckState::Initialized && verdict == CheckActionView::Finish(
                Ok(CacheMode::ReadOnly),
            )
            &&& read_answered(read) && mode == CacheMode::ReadWrite ==> {
                &&& verdict == CheckActionView::Write { path: probe, content: "Hello, World!"@ }
                &&& write_taken(write) ==> end == CheckState::Initialized && outcome
                    == CheckActionView::Finish(Ok(CacheMode::ReadWrite))
                &&& !write_taken(write) ==> end == CheckState::Idle && outcome
                    == CheckActionView::Finish(
                    Err(
                        remote_failure(
                            "cache storage failed to provide requested write access"@,
                            error_kind_of(write->Err_0),
                        ),
                    ),
                )
            }
        }),
{
}

/// The probe that a storage writes to is not the path that it reads.
pub proof fn law_write_probe_is_not_read(probe: Seq<char>)
    requires
        is_write_probe(probe),
    ensures
        probe != ".sccache_check"@,
        probe.subrange(0, ".sccache_check"@.len() as int) == ".sccache_check"@,
{
    reveal_strlit(".sccache_check");
    reveal_strlit(".sccache_check-");
    let id = choose|id: Seq<char>| is_uuid_v4_text(id) && probe == #[trigger] write_probe(id);
    assert(probe.len() > ".sccache_check"@.len());
    assert(probe.subrange(0, ".sccache_check"@.len() as int) =~= ".sccache_check"@);
}

/// Storages of different identities write to different probes.
pub proof fn law_identities_tell_probes_apart(left: Seq<char>, right: Seq<char>)
    requires
        left != right,
    ensures
        write_probe(left) != write_probe(right),
{
    let prefix = ".sccache_check-"@.len() as int;
    assert(write_probe(left).skip(prefix) =~= left);
    assert(write_probe(right).skip(prefix) =~= right);
}

/// Whatever the checks of two storages of different identities come to, they
/// never write to the same probe.
pub proof fn law_instances_never_share_a_probe(
    left: (CacheMode, Seq<char>, Seq<CheckEvent>),
    right: (CacheMode, Seq<char>, Seq<CheckEvent>),
)
    requires
        left.1 != right.1,
        check_feasible(left.0, write_probe(left.1), CheckState::Idle, left.2),
        check_feasible(right.0, write_probe(right.1), CheckState::Idle, right.2),
    ensures
        ({
            let ours = check_run(left.0, write_probe(left.1), CheckState::Idle, left.2).1;
            let theirs = check_run(right.0, write_probe(right.1), CheckState::Idle, right.2).1;
            forall|i: int, j: int|
                0 <= i < ours.len() && 0 <= j < theirs.len() && #[trigger] ours[i] is Write
                    && #[trigger] theirs[j] is Write ==> ours[i]->path != theirs[j]->path
        }),
{
    law_identities_tell_probes_apart(left.1, right.1);
    law_checks_keep_their_probe(left.0, write_probe(left.1), CheckState::Idle, left.2);
    law_checks_keep_their_probe(right.0, write_probe(right.1), CheckState::Idle, right.2);
}

/// Nothing of a provider error but its kind is kept: two errors of one kind
/// leave the same trace, which is a chain of one error.
pub proof fn law_provider_context_is_discarded(
    operation: Seq<char>,
    left: opendal::Error,
    right: opendal::Error,
)
    requires
        error_kind_of(left) == error_kind_of(right),
    ensures
        remote_failure(operation, error_kind_of(left)) == remote_failure(
            operation,
            error_kind_of(right),
        ),
        remote_failure(operation, error_kind_of(left)).len() == 1,
{
}

/// What is said to another process of a failed remote operation is the kind of
/// the failure, and nothing else that the provider said.
pub proof fn law_summary_shows_only_the_kind(
    reported: Seq<char>,
    operation: Seq<char>,
    error: opendal::Error,
)
    ensures
        storage_error_summary(
            reported,
            first_remote_kind(remote_failure(operation, error_kind_of(error))),
        ) == "cache storage "@ + reported + " failed ("@ + kind_text(error_kind_of(error)) + ")"@,
{
}

/// A look-up misses exactly where the service has no such entry: neither a
/// failure of the service nor an entry that does not open is reported as a miss.
pub proof fn law_only_an_absent_entry_is_a_miss<R, F: FnOnce(Bytes) -> Result<R, ErrorChain>>(
    result: Result<opendal::Buffer, opendal::Error>,
    open: F,
    cache: Result<Cache<R>, ErrorChain>,
)
    requires
        is_cache_read(result, open, cache),
    ensures
        cache == Ok::<Cache<R>, ErrorChain>(Cache::Miss) <==> (result matches Err(error)
            && error_kind_of(error) == RemoteErrorKind::NotFound),
{
}

/// A look-up hits only where the service had the entry and its bytes opened, and
/// hits with what they opened to.
pub proof fn law_a_hit_is_an_opened_entry<R, F: FnOnce(Bytes) -> Result<R, ErrorChain>>(
    result: Result<opendal::Buffer, opendal::Error>,
    open: F,
    cache: Result<Cache<R>, ErrorChain>,
)
    requires
        is_cache_read(result, open, cache),
        cache matches Ok(Cache::Hit(_)),
    ensures
        result is Ok,
        opens_to(open, buffer_contents(result->Ok_0), Ok(cache->Ok_0->Hit_0)),
{
}

/// A corrupt entry is an error: where the bytes that the service had do not open,
/// the look-up fails as the opening did.
pub proof fn law_a_corrupt_entry_is_an_error<R, F: FnOnce(Bytes) -> Result<R, ErrorChain>>(
    result: Result<opendal::Buffer, opendal::Error>,
    open: F,
    cache: Result<Cache<R>, ErrorChain>,
)
    requires
        is_cache_read(result, open, cache),
        result is Ok,
        forall|opened: Result<R, ErrorChain>| #[trigger]
            opens_to(open, buffer_contents(result->Ok_0), opened) ==> opened is Err,
    ensures
        cache is Err,
        opens_to(open, buffer_contents(result->Ok_0), Err(cache->Err_0)),
{
}

/// A look-up and a raw look-up tell the same of a read whose entry opens, if it
/// has one: both find it, the one as what the other's bytes open to; both find
/// nothing; or both fail.
pub proof fn law_lookups_agree<R, F: FnOnce(Bytes) -> Result<R, ErrorChain>>(
    result: Result<opendal::Buffer, opendal::Error>,
    open: F,
    cache: Result<Cache<R>, ErrorChain>,
    entry: Result<Option<Bytes>, ErrorChain>,
)
    requires
        is_cache_read(result, open, cache),
        is_raw_read(result, entry),
        result matches Ok(buffer) ==> forall|opened: Result<R, ErrorChain>| #[trigger]
            opens_to(open, buffer_contents(buffer), opened) ==> opened is Ok,
    ensures
        cache is Ok <==> entry is Ok,
        cache is Ok ==> (cache->Ok_0 is Hit <==> entry->Ok_0 is Some),
        cache matches Ok(Cache::Hit(hit)) ==> entry matches Ok(Some(bytes)) && opens_to(
            open,
            bytes_contents(bytes),
            Ok(hit),
        ),
{
}

/// A raw look-up gives back what a raw write stored, byte for byte, where the
/// service kept it.
pub proof fn law_raw_read_gives_back_raw_write(
    mode: CacheMode,
    path: Seq<char>,
    data: Seq<u8>,
    written: (Seq<char>, Seq<u8>),
    result: Result<opendal::Buffer, opendal::Error>,
    entry: Result<Option<Bytes>, ErrorChain>,
)
    requires
        write_request(mode, path, data) == Ok::<(Seq<char>, Seq<u8>), Seq<CauseView>>(written),
        result matches Ok(buffer) && buffer_contents(buffer) == written.1,
        is_raw_read(result, entry),
    ensures
        entry matches Ok(Some(bytes)) && bytes_contents(bytes) == data,
{
}

/// A look-up opens the very bytes that a write stored, where the service kept
/// them.
pub proof fn law_lookup_opens_what_was_written<R, F: FnOnce(Bytes) -> Result<R, ErrorChain>>(
    mode: CacheMode,
    path: Seq<char>,
    data: Seq<u8>,
    written: (Seq<char>, Seq<u8>),
    result: Result<opendal::Buffer, opendal::Error>,
    open: F,
    cache: Result<Cache<R>, ErrorChain>,
)
    requires
        write_request(mode, path, data) == Ok::<(Seq<char>, Seq<u8>), Seq<CauseView>>(written),
        result matches Ok(buffer) && buffer_contents(buffer) == written.1,
        is_cache_read(result, open, cache),
    ensures
        is_opened_entry(open, data, cache),
{
}

/// A read-only storage asks no write of the service, whatever the path and the
/// bytes.
pub proof fn law_read_only_storage_refuses_writes(path: Seq<char>, data: Seq<u8>)
    ensures
        write_request(CacheMode::ReadOnly, path, data) == Err::<
            (Seq<char>, Seq<u8>),
            Seq<CauseView>,
        >(seq![CauseView::Other("storage is read-only"@)]),
{
}

/// Bytes that a raw look-up found reach another storage unchanged by a raw
/// write.
pub proof fn law_backfill_preserves_bytes(
    result: Result<opendal::Buffer, opendal::Error>,
    entry: Result<Option<Bytes>, ErrorChain>,
    path: Seq<char>,
)
    requires
        is_raw_read(result, entry),
        entry matches Ok(Some(_)),
    ensures
        result is Ok,
        write_request(CacheMode::ReadWrite, path, bytes_contents(entry->Ok_0->Some_0)) == Ok::<
            (Seq<char>, Seq<u8>),
            Seq<CauseView>,
        >((path, buffer_contents(result->Ok_0))),
{
}

/// A raw look-up hands on all that the service had of the entry: as many bytes as
/// the parts of the answer hold together, with every part whole behind those
/// before it.
pub proof fn law_raw_read_hands_on_every_part(
    buffer: opendal::Buffer,
    entry: Result<Option<Bytes>, ErrorChain>,
)
    requires
        is_raw_read(Ok(buffer), entry),
    ensures
        entry matches Ok(Some(bytes)) && {
            let parts = buffer_parts(buffer);
            let data = bytes_contents(bytes);
            &&& data.len() == lengths_before(parts, parts.len() as int)
            &&& forall|i: int|
                0 <= i < parts.len() ==> {
                    let start = lengths_before(parts, i);
                    &&& 0 <= start
                    &&& start + (#[trigger] parts[i]).len() <= data.len()
                    &&& data.subrange(start, start + parts[i].len()) == parts[i]
                }
        },
{
    law_buffer_keeps_every_part(buffer);
}

/// A look-up opens all that the service had of the entry, and its answer is what
/// came of that.
pub proof fn law_lookup_opens_every_part<R, F: FnOnce(Bytes) -> Result<R, ErrorChain>>(
    buffer: opendal::Buffer,
    open: F,
    cache: Result<Cache<R>, ErrorChain>,
)
    requires
        is_cache_read(Ok(buffer), open, cache),
    ensures
        exists|bytes: Bytes| #![trigger bytes_contents(bytes)]
            {
                let parts = buffer_parts(buffer);
                let data = bytes_contents(bytes);
                &&& data.len() == lengths_before(parts, parts.len() as int)
                &&& forall|i: int|
                    0 <= i < parts.len() ==> {
                        let start = lengths_before(parts, i);
                        &&& 0 <= start
                        &&& start + (#[trigger] parts[i]).len() <= data.len()
                        &&& data.subrange(start, start + parts[i].len()) == parts[i]
                    }
                &&& match cache {
                    Ok(Cache::Hit(entry)) => call_ensures(open, (bytes,), Ok(entry)),
                    Ok(Cache::Miss) => false,
                    Err(error) => call_ensures(open, (bytes,), Err(error)),
                }
            },
{
    law_buffer_keeps_every_part(buffer);
    let opened: Result<R, ErrorChain> = match cache {
        Ok(Cache::Hit(entry)) => Ok(entry),
        Ok(Cache::Miss) => arbitrary(),
        Err(error) => Err(error),
    };
    let bytes = choose|bytes: Bytes|
        bytes_contents(bytes) == buffer_contents(buffer) && #[trigger] call_ensures(
            open,
            (bytes,),
            opened,
        );
    assert(bytes_contents(bytes) == buffer_contents(buffer));
}

/// A raw look-up finds nothing exactly where the service has no such entry, and
/// fails exactly where the service failed otherwise: with the kind of that failure
/// and nothing else of it.
pub proof fn law_raw_read_outcomes(
    result: Result<opendal::Buffer, opendal::Error>,
    entry: Result<Option<Bytes>, ErrorChain>,
)
    requires
        is_raw_read(result, entry),
    ensures
        entry matches Ok(Some(_)) <==> result is Ok,
        entry matches Ok(None) <==> (result matches Err(error) && error_kind_of(error)
            == RemoteErrorKind::NotFound),
        entry matches Err(chain) ==> {
            &&& result is Err
            &&& error_kind_of(result->Err_0) != RemoteErrorKind::NotFound
            &&& chain@.len() == 1
            &&& chain@[0] is Remote
            &&& chain@[0]->Remote_operation == "failed to read raw cache bytes"@
            &&& chain@[0]->Remote_kind == kind_text(error_kind_of(result->Err_0))
        },
{
}

/// Where the service failed, a look-up fails with the kind of that failure and
/// nothing else of it.
pub proof fn law_lookup_failures<R, F: FnOnce(Bytes) -> Result<R, ErrorChain>>(
    error: opendal::Error,
    open: F,
    cache: Result<Cache<R>, ErrorChain>,
)
    requires
        is_cache_read(Err(error), open, cache),
        error_kind_of(error) != RemoteErrorKind::NotFound,
    ensures
        cache matches Err(chain) && {
            &&& chain@.len() == 1
            &&& chain@[0] is Remote
            &&& chain@[0]->Remote_operation == "failed to read remote cache entry"@
            &&& chain@[0]->Remote_kind == kind_text(error_kind_of(error))
        },
{
}

/// What is kept of a failure tells its operation and its kind, so that two
/// failures leave the same trace only if they agree in both.
pub proof fn law_failures_are_told_apart(
    left: Seq<char>,
    left_kind: RemoteErrorKind,
    right: Seq<char>,
    right_kind: RemoteErrorKind,
)
    ensures
        remote_failure(left, left_kind).len() == 1,
        remote_failure(left, left_kind)[0] is Remote,
        remote_failure(left, left_kind)[0]->Remote_operation == left,
        remote_failure(left, left_kind)[0]->Remote_kind == kind_text(left_kind),
        remote_failure(left, left_kind) == remote_failure(right, right_kind) <==> left == right
            && left_kind == right_kind,
{
    if remote_failure(left, left_kind) == remote_failure(right, right_kind) {
        assert(remote_failure(left, left_kind)[0] == remote_failure(right, right_kind)[0]);
        law_kinds_are_told_apart(left_kind, right_kind);
    }
}

/// No two kinds of failure are shown by the same text.
pub proof fn law_kinds_are_told_apart(left: RemoteErrorKind, right: RemoteErrorKind)
    ensures
        kind_text(left) == kind_text(right) ==> left == right,
{
    reveal_strlit("Unexpected");
    reveal_strlit("Unsupported");
    reveal_strlit("ConfigInvalid");
    reveal_strlit("NotFound");
    reveal_strlit("PermissionDenied");
    reveal_strlit("IsADirectory");
    reveal_strlit("NotADirectory");
    reveal_strlit("AlreadyExists");
    reveal_strlit("RateLimited");
    reveal_strlit("IsSameFile");
    reveal_strlit("ConditionNotMatch");
    reveal_strlit("RangeNotSatisfied");
    if left != right {
        let (ours, theirs) = (kind_text(left), kind_text(right));
        assert(ours.len() != theirs.len() || ours[0] != theirs[0]);
    }
}

/// A check that is asked for reads first, unless an earlier one has succeeded. It
/// takes a missing entry for an answer, but no other failure; then it writes, if
/// and only if writing was asked for; and it takes an existing entry for a write
/// that was taken, but no other failure.
pub proof fn law_check_tells_failures_apart(
    mode: CacheMode,
    probe: Seq<char>,
    state: CheckState,
    failure: opendal::Error,
)
    ensures
        ({
            let (next, action) = check_step(mode, probe, state, CheckEvent::Start);
            if state == CheckState::Initialized {
                next == CheckState::Initialized && action == CheckActionView::Finish(Ok(mode))
            } else {
                next == CheckState::Reading && action == CheckActionView::Read(".sccache_check"@)
            }
        }),
        ({
            let kind = error_kind_of(failure);
            let found = check_step(mode, probe, CheckState::Reading, CheckEvent::ReadDone(Ok(())));
            let (next, action) = check_step(
                mode,
                probe,
                CheckState::Reading,
                CheckEvent::ReadDone(Err(failure)),
            );
            &&& kind == RemoteErrorKind::NotFound ==> (next, action) == found
            &&& kind != RemoteErrorKind::NotFound ==> {
                &&& next == CheckState::Idle
                &&& action matches CheckActionView::Finish(Err(chain))
                &&& chain.len() == 1
                &&& chain[0] is Remote
                &&& chain[0]->Remote_operation == "cache storage failed to read"@
                &&& chain[0]->Remote_kind == kind_text(kind)
            }
            &&& mode == CacheMode::ReadOnly ==> found == (
                CheckState::Initialized,
                CheckActionView::Finish(Ok(CacheMode::ReadOnly)),
            )
            &&& mode == CacheMode::ReadWrite ==> found.0 == CheckState::Writing && (
            found.1 matches CheckActionView::Write { path, .. } && path == probe)
        }),
        ({
            let kind = error_kind_of(failure);
            let taken = check_step(mode, probe, CheckState::Writing, CheckEvent::WriteDone(Ok(())));
            let (next, action) = check_step(
                mode,
                probe,
                CheckState::Writing,
                CheckEvent::WriteDone(Err(failure)),
            );
            &&& taken == (CheckState::Initialized, CheckActionView::Finish(Ok(mode)))
            &&& kind == RemoteErrorKind::AlreadyExists ==> (next, action) == taken
            &&& kind != RemoteErrorKind::AlreadyExists ==> {
                &&& next == CheckState::Idle
                &&& action matches CheckActionView::Finish(Err(chain))
                &&& chain.len() == 1
                &&& chain[0] is Remote
                &&& chain[0]->Remote_operation
                    == "cache storage failed to provide requested write access"@
                &&& chain[0]->Remote_kind == kind_text(kind)
            }
        }),
{
}

/// A storage asks of the service the very write that it was asked for, if and only
/// if it may be written to; so no two entries are ever written as the same.
pub proof fn law_writes_are_asked_for_unchanged(
    mode: CacheMode,
    path: Seq<char>,
    data: Seq<u8>,
    other_path: Seq<char>,
    other_data: Seq<u8>,
)
    ensures
        write_request(mode, path, data) is Ok <==> mode == CacheMode::ReadWrite,
        write_request(mode, path, data) matches Ok((asked_path, asked_data)) ==> asked_path == path
            && asked_data == data,
        mode == CacheMode::ReadWrite && write_request(mode, path, data) == write_request(
            mode,
            other_path,
            other_data,
        ) ==> path == other_path && data == other_data,
{
}

/// A write that is asked of the service is seen with its whole path and all its
/// bytes.
pub proof fn law_writes_are_seen_whole(write: RemoteWrite)
    ensures
        write@.0 == write.path@,
        write@.1 == bytes_contents(write.data),
{
}

/// What a check has its caller do is seen with every path, text and outcome.
pub proof fn law_actions_are_seen_whole(action: CheckAction)
    ensures
        action matches CheckAction::Read(asked) ==> (action@ matches CheckActionView::Read(path)
            && path == asked@),
        action matches CheckAction::Write { path: asked, content: text } ==> (
        action@ matches CheckActionView::Write { path, content } && path == asked@ && content
            == text@),
        action matches CheckAction::Finish(Ok(told)) ==> (
        action@ matches CheckActionView::Finish(Ok(mode)) && mode == told),
        action matches CheckAction::Finish(Err(told)) ==> (
        action@ matches CheckActionView::Finish(Err(chain)) && chain == told@),
{
}

/// A write probe is the path that is read, a hyphen and the whole identity.
pub proof fn law_probes_name_their_identity(id: Seq<char>)
    ensures
        write_probe(id).len() == 15 + id.len(),
        write_probe(id).take(14) == ".sccache_check"@,
        write_probe(id)[14] == '-',
        write_probe(id).skip(15) == id,
{
    reveal_strlit(".sccache_check");
    reveal_strlit(".sccache_check-");
    assert(write_probe(id).take(14) =~= ".sccache_check"@);
    assert(write_probe(id).skip(15) =~= id);
}

/// The place of a storage is told by the service, its name and its prefix, each
/// whole and in this order.
pub proof fn law_locations_are_told_whole(scheme: Seq<char>, name: Seq<char>, root: Seq<char>)
    ensures
        ({
            let text = location_text(scheme, name, root);
            let named = scheme.len() as int + 8;
            let rooted = named + name.len() + 10;
            &&& text.len() == rooted + root.len()
            &&& text.take(scheme.len() as int) == scheme
            &&& text.subrange(scheme.len() as int, named) == ", name: "@
            &&& text.subrange(named, named + name.len()) == name
            &&& text.subrange(named + name.len(), rooted) == ", prefix: "@
            &&& text.skip(rooted) == root
        }),
{
    reveal_strlit(", name: ");
    reveal_strlit(", prefix: ");
    let text = location_text(scheme, name, root);
    let named = scheme.len() as int + 8;
    let rooted = named + name.len() + 10;
    assert(text.take(scheme.len() as int) =~= scheme);
    assert(text.subrange(scheme.len() as int, named) =~= ", name: "@);
    assert(text.subrange(named, named + name.len()) =~= name);
    assert(text.subrange(named + name.len(), rooted) =~= ", prefix: "@);
    assert(text.skip(rooted) =~= root);
}

} // verus!
