//! Cache storage on a remote service: what to ask of the service, and what its
//! answers mean.
use crate::buffer::{buffer_contents, buffer_to_bytes};
use crate::error::{CauseView, ErrorChain, RemoteStorageError};
use crate::outside::{
    bytes_contents, bytes_from_vec, error_kind, error_kind_of, error_kind_text, is_uuid_v4_text,
    kind_text, name_of, new_uuid_v4_text, operator_name, operator_root, operator_scheme, root_of,
    scheme_of, RemoteErrorKind,
};
use crate::storage::{Cache, CacheMode, Storage};
use bytes::Bytes;
use vstd::prelude::*;

verus! {

/// A storage on a remote service, with the base directories that keys are
/// normalized by.
pub struct RemoteStorage {
    operator: opendal::Operator,
    basedirs: Vec<Vec<u8>>,
    rw_mode: CacheMode,
    /// One marker per storage instance, retained under the normal cache prefix.
    /// The backend's cache lifecycle/eviction owns its retention, as for entries.
    /// Keep the identity across failed or cancelled initialization attempts.
    write_probe: String,
}

/// How far the capability check of a storage instance has come.
#[derive(Clone, Copy, Debug, PartialEq, Eq, Structural)]
pub enum CheckState {
    /// No check has succeeded, and none is under way.
    Idle,
    /// The answer to the probe read is awaited.
    Reading,
    /// The answer to the probe write is awaited.
    Writing,
    /// A check has succeeded. It is not repeated.
    Initialized,
}

/// What moves a capability check on.
#[derive(Debug)]
pub enum CheckEvent {
    /// A caller asks for the capability. An attempt that was under way has been
    /// given up.
    Start,
    /// The probe read has been answered.
    ReadDone(Result<(), opendal::Error>),
    /// The probe write has been answered.
    WriteDone(Result<(), opendal::Error>),
}

/// What a capability check has its caller do next.
#[derive(Debug)]
pub enum CheckAction {
    /// Read this path.
    Read(&'static str),
    /// Write this text to this path.
    Write { path: String, content: &'static str },
    /// Report the outcome.
    Finish(Result<CacheMode, ErrorChain>),
}

/// What a [`CheckAction`] says.
pub enum CheckActionView {
    Read(Seq<char>),
    Write { path: Seq<char>, content: Seq<char> },
    Finish(Result<CacheMode, Seq<CauseView>>),
}

impl View for CheckAction {
    type V = CheckActionView;

    open spec fn view(&self) -> CheckActionView {
        match self {
            CheckAction::Read(path) => CheckActionView::Read(path@),
            CheckAction::Write { path, content } => CheckActionView::Write {
                path: path@,
                content: content@,
            },
            CheckAction::Finish(Ok(mode)) => CheckActionView::Finish(Ok(*mode)),
            CheckAction::Finish(Err(error)) => CheckActionView::Finish(Err(error@)),
        }
    }
}

/// A write to ask of the service.
#[derive(Debug)]
pub struct RemoteWrite {
    pub path: String,
    pub data: Bytes,
}

impl View for RemoteWrite {
    type V = (Seq<char>, Seq<u8>);

    open spec fn view(&self) -> (Seq<char>, Seq<u8>) {
        (self.path@, bytes_contents(self.data))
    }
}

/// The marker that a storage instance with this identity writes to: the name
/// that it reads, a hyphen and the identity.
pub open spec fn write_probe(id: Seq<char>) -> Seq<char> {
    ".sccache_check-"@ + id
}

/// Whether a path is the marker of a storage instance, whose identity is a random
/// UUID.
pub open spec fn is_write_probe(path: Seq<char>) -> bool {
    exists|id: Seq<char>| is_uuid_v4_text(id) && path == #[trigger] write_probe(id)
}

/// What is kept of a failed remote operation: its name and the kind of failure.
pub open spec fn remote_failure(operation: Seq<char>, kind: RemoteErrorKind) -> Seq<CauseView> {
    seq![CauseView::Remote { operation, kind: kind_text(kind) }]
}

/// Whether the service answered a read: with an entry, or with the news that
/// there is none.
pub open spec fn read_answered(result: Result<(), opendal::Error>) -> bool {
    match result {
        Ok(_) => true,
        Err(error) => error_kind_of(error) == RemoteErrorKind::NotFound,
    }
}

/// Whether the service took a write. Immutable backends acknowledge an existing
/// probe.
pub open spec fn write_taken(result: Result<(), opendal::Error>) -> bool {
    match result {
        Ok(_) => true,
        Err(error) => error_kind_of(error) == RemoteErrorKind::AlreadyExists,
    }
}

/// Whether an event can occur in a state: an answer only where one is awaited.
pub open spec fn check_expects(state: CheckState, event: CheckEvent) -> bool {
    match event {
        CheckEvent::Start => true,
        CheckEvent::ReadDone(_) => state == CheckState::Reading,
        CheckEvent::WriteDone(_) => state == CheckState::Writing,
    }
}

/// One step of the capability check of a storage with the given mode and write
/// probe.
pub open spec fn check_step(
    mode: CacheMode,
    probe: Seq<char>,
    state: CheckState,
    event: CheckEvent,
) -> (CheckState, CheckActionView) {
    match event {
        CheckEvent::Start => if state == CheckState::Initialized {
            (CheckState::Initialized, CheckActionView::Finish(Ok(mode)))
        } else {
            (CheckState::Reading, CheckActionView::Read(".sccache_check"@))
        },
        CheckEvent::ReadDone(result) => if !read_answered(result) {
            (
                CheckState::Idle,
                CheckActionView::Finish(
                    Err(
                        remote_failure(
                            "cache storage failed to read"@,
                            error_kind_of(result->Err_0),
                        ),
                    ),
                ),
            )
        } else if mode == CacheMode::ReadWrite {
            (
                CheckState::Writing,
                CheckActionView::Write { path: probe, content: "Hello, World!"@ },
            )
        } else {
            (CheckState::Initialized, CheckActionView::Finish(Ok(mode)))
        },
        CheckEvent::WriteDone(result) => if !write_taken(result) {
            (
                CheckState::Idle,
                CheckActionView::Finish(
                    Err(
                        remote_failure(
                            "cache storage failed to provide requested write access"@,
                            error_kind_of(result->Err_0),
                        ),
                    ),
                ),
            )
        } else {
            (CheckState::Initialized, CheckActionView::Finish(Ok(mode)))
        },
    }
}

/// What a read of the service found: the bytes of the entry, `None` where there
/// is no entry, or the kind of the failure.
pub open spec fn read_outcome(result: Result<opendal::Buffer, opendal::Error>) -> Result<
    Option<Seq<u8>>,
    RemoteErrorKind,
> {
    match result {
        Ok(buffer) => Ok(Some(buffer_contents(buffer))),
        Err(error) => if error_kind_of(error) == RemoteErrorKind::NotFound {
            Ok(None)
        } else {
            Err(error_kind_of(error))
        },
    }
}

/// Whether `opened` can come of opening an entry of these bytes.
pub open spec fn opens_to<R, F: FnOnce(Bytes) -> Result<R, ErrorChain>>(
    open: F,
    contents: Seq<u8>,
    opened: Result<R, ErrorChain>,
) -> bool {
    exists|bytes: Bytes|
        bytes_contents(bytes) == contents && #[trigger] call_ensures(open, (bytes,), opened)
}

/// Whether `cache` is what a look-up answers where it found an entry of these
/// bytes: a hit if the entry opens, and the error of opening it if not.
pub open spec fn is_opened_entry<R, F: FnOnce(Bytes) -> Result<R, ErrorChain>>(
    open: F,
    contents: Seq<u8>,
    cache: Result<Cache<R>, ErrorChain>,
) -> bool {
    match cache {
        Ok(Cache::Hit(entry)) => opens_to(open, contents, Ok(entry)),
        Ok(Cache::Miss) => false,
        Err(error) => opens_to(open, contents, Err(error)),
    }
}

/// Whether `cache` is what a look-up answers after a read with that result, where
/// `open` opens the bytes of an entry.
pub open spec fn is_cache_read<R, F: FnOnce(Bytes) -> Result<R, ErrorChain>>(
    result: Result<opendal::Buffer, opendal::Error>,
    open: F,
    cache: Result<Cache<R>, ErrorChain>,
) -> bool {
    match read_outcome(result) {
        Ok(Some(contents)) => is_opened_entry(open, contents, cache),
        Ok(None) => cache == Ok::<Cache<R>, ErrorChain>(Cache::Miss),
        Err(kind) => cache is Err && cache->Err_0@ == remote_failure(
            "failed to read remote cache entry"@,
            kind,
        ),
    }
}

/// Whether `entry` is what a raw look-up answers after a read with that result.
pub open spec fn is_raw_read(
    result: Result<opendal::Buffer, opendal::Error>,
    entry: Result<Option<Bytes>, ErrorChain>,
) -> bool {
    match read_outcome(result) {
        Ok(Some(contents)) => entry matches Ok(Some(bytes)) && bytes_contents(bytes) == contents,
        Ok(None) => entry == Ok::<Option<Bytes>, ErrorChain>(None),
        Err(kind) => entry is Err && entry->Err_0@ == remote_failure(
            "failed to read raw cache bytes"@,
            kind,
        ),
    }
}

/// What is asked of the service for the write of an entry: the same bytes, under
/// the same path, unless the storage is read-only.
pub open spec fn write_request(mode: CacheMode, path: Seq<char>, data: Seq<u8>) -> Result<
    (Seq<char>, Seq<u8>),
    Seq<CauseView>,
> {
    match mode {
        CacheMode::ReadOnly => Err(seq![CauseView::Other("storage is read-only"@)]),
        CacheMode::ReadWrite => Ok((path, data)),
    }
}

/// The place of a storage, in words.
pub open spec fn location_text(scheme: Seq<char>, name: Seq<char>, root: Seq<char>) -> Seq<char> {
    scheme + ", name: "@ + name + ", prefix: "@ + root
}

/// Interpret the service's answer to the read of a cache entry. An entry that was
/// found is opened by `open`; one that does not open is an error, not a miss.
pub fn decode_remote_cache_read<R, F: FnOnce(Bytes) -> Result<R, ErrorChain>>(
    result: Result<opendal::Buffer, opendal::Error>,
    open: F,
) -> (cache: Result<Cache<R>, ErrorChain>)
    requires
        result matches Ok(buffer) ==> forall|bytes: Bytes|
            bytes_contents(bytes) == buffer_contents(buffer) ==> #[trigger] call_requires(
                open,
                (bytes,),
            ),
    ensures
        is_cache_read(result, open, cache),
{
    match result {
        Ok(buffer) => {
            let opened = open(buffer_to_bytes(buffer));
            assert(opens_to(open, buffer_contents(buffer), opened));
            match opened {
                Ok(entry) => Ok(Cache::Hit(entry)),
                Err(error) => Err(error),
            }
        },
        Err(error) => if error_kind(&error) == RemoteErrorKind::NotFound {
            Ok(Cache::Miss)
        } else {
            Err(RemoteStorage::error("failed to read remote cache entry", error))
        },
    }
}

/// Interpret the service's answer to the write of a cache entry.
pub fn decode_write(result: Result<(), opendal::Error>) -> (done: Result<(), ErrorChain>)
    ensures
        match result {
            Ok(_) => done is Ok,
            Err(error) => done is Err && done->Err_0@ == remote_failure(
                "failed to write remote cache entry"@,
                error_kind_of(error),
            ),
        },
{
    match result {
        Ok(()) => Ok(()),
        Err(error) => Err(RemoteStorage::error("failed to write remote cache entry", error)),
    }
}

/// The place of a storage, in words.
pub fn describe_location(scheme: &str, name: &str, root: &str) -> (text: String)
    ensures
        text@ == location_text(scheme@, name@, root@),
{
    let mut text = String::new();
    text.append(scheme);
    text.append(", name: ");
    text.append(name);
    text.append(", prefix: ");
    text.append(root);
    assert(text@ =~= location_text(scheme@, name@, root@));
    text
}

impl RemoteStorage {
    #[verifier::type_invariant]
    spec fn owns_a_write_probe(self) -> bool {
        is_write_probe(self.write_probe@)
    }

    /// The operator that the storage works through.
    pub closed spec fn spec_operator(self) -> opendal::Operator {
        self.operator
    }

    /// The mode that was asked for.
    pub closed spec fn mode(self) -> CacheMode {
        self.rw_mode
    }

    /// The path that a capability check writes to.
    pub closed spec fn probe(self) -> Seq<char> {
        self.write_probe@
    }

    /// The base directories.
    pub closed spec fn dirs(self) -> Seq<Vec<u8>> {
        self.basedirs@
    }

    /// Keep of a provider error what may be kept: the operation that failed and
    /// the kind of the failure.
    pub fn error(operation: &'static str, error: opendal::Error) -> (chain: ErrorChain)
        ensures
            chain@ == remote_failure(operation@, error_kind_of(error)),
    {
        ErrorChain::remote(RemoteStorageError { operation, kind: error_kind_text(&error) })
    }

    /// A storage that works through `operator`, with a write probe of its own.
    pub fn new(operator: opendal::Operator, basedirs: Vec<Vec<u8>>, rw_mode: CacheMode) -> (storage:
        RemoteStorage)
        ensures
            storage.spec_operator() == operator,
            storage.dirs() == basedirs@,
            storage.mode() == rw_mode,
            is_write_probe(storage.probe()),
    {
        Self::with_identity(operator, basedirs, rw_mode, new_uuid_v4_text().as_str())
    }

    /// A storage that works through `operator`, with the write probe of the
    /// identity `id`.
    pub fn with_identity(
        operator: opendal::Operator,
        basedirs: Vec<Vec<u8>>,
        rw_mode: CacheMode,
        id: &str,
    ) -> (storage: RemoteStorage)
        requires
            is_uuid_v4_text(id@),
        ensures
            storage.spec_operator() == operator,
            storage.dirs() == basedirs@,
            storage.mode() == rw_mode,
            storage.probe() == write_probe(id@),
    {
        let mut probe = String::new();
        probe.append(".sccache_check-");
        probe.append(id);
        assert(probe@ =~= write_probe(id@));
        RemoteStorage { operator, basedirs, rw_mode, write_probe: probe }
    }

    /// The operator that the storage works through.
    pub fn operator(&self) -> (operator: &opendal::Operator)
        ensures
            *operator == self.spec_operator(),
    {
        &self.operator
    }

    /// Move a capability check on.
    ///
    /// - `Ok(CacheMode::ReadOnly)` means cache can only be used to `get`
    ///   cache.
    /// - `Ok(CacheMode::ReadWrite)` means cache can do both `get` and `put`.
    /// - `Err(err)` means cache is not setup correctly or not match with
    ///   users input (for example, user try to use `ReadWrite` but cache
    ///   is `ReadOnly`).
    pub fn check(&self, state: CheckState, event: CheckEvent) -> (next: (CheckState, CheckAction))
        requires
            check_expects(state, event),
        ensures
            (next.0, next.1@) == check_step(self.mode(), self.probe(), state, event),
            is_write_probe(self.probe()),
    {
        proof {
            use_type_invariant(self);
        }
        match event {
            CheckEvent::Start => if state == CheckState::Initialized {
                (CheckState::Initialized, CheckAction::Finish(Ok(self.rw_mode)))
            } else {
                (CheckState::Reading, CheckAction::Read(".sccache_check"))
            },
            CheckEvent::ReadDone(result) => {
                if let Err(error) = result {
                    if error_kind(&error) != RemoteErrorKind::NotFound {
                        let error = Self::error("cache storage failed to read", error);
                        return (CheckState::Idle, CheckAction::Finish(Err(error)));
                    }
                }
                if self.rw_mode == CacheMode::ReadWrite {
                    let path = self.write_probe.clone();
                    (CheckState::Writing, CheckAction::Write { path, content: "Hello, World!" })
                } else {
                    (CheckState::Initialized, CheckAction::Finish(Ok(self.rw_mode)))
                }
            },
            CheckEvent::WriteDone(result) => {
                if let Err(error) = result {
                    if error_kind(&error) != RemoteErrorKind::AlreadyExists {
                        let error = Self::error(
                            "cache storage failed to provide requested write access",
                            error,
                        );
                        return (CheckState::Idle, CheckAction::Finish(Err(error)));
                    }
                }
                (CheckState::Initialized, CheckAction::Finish(Ok(self.rw_mode)))
            },
        }
    }

    /// The answer to a look-up, given what the service answered to the read of the
    /// entry. `open` opens the bytes of an entry.
    pub fn get<R, F: FnOnce(Bytes) -> Result<R, ErrorChain>>(
        &self,
        read: Result<opendal::Buffer, opendal::Error>,
        open: F,
    ) -> (cache: Result<Cache<R>, ErrorChain>)
        requires
            read matches Ok(buffer) ==> forall|bytes: Bytes|
                bytes_contents(bytes) == buffer_contents(buffer) ==> #[trigger] call_requires(
                    open,
                    (bytes,),
                ),
        ensures
            is_cache_read(read, open, cache),
    {
        decode_remote_cache_read(read, open)
    }

    /// The answer to a raw look-up, for multi-level backfill, given what the service
    /// answered to the read of the entry.
    ///
    /// Unlike [`RemoteStorage::get`], which opens the entry, this hands its bytes on
    /// as they are, so that they can be written to another cache level.
    pub fn get_raw(&self, read: Result<opendal::Buffer, opendal::Error>) -> (entry: Result<
        Option<Bytes>,
        ErrorChain,
    >)
        ensures
            is_raw_read(read, entry),
    {
        match read {
            Ok(buffer) => Ok(Some(buffer_to_bytes(buffer))),
            Err(error) => if error_kind(&error) == RemoteErrorKind::NotFound {
                Ok(None)
            } else {
                Err(Self::error("failed to read raw cache bytes", error))
            },
        }
    }

    /// The write to ask of the service for a raw write of `data` under `path`, or
    /// the refusal of a storage that may not be written to.
    ///
    /// Unlike `put`, which takes a serialized entry, this is for bytes that
    /// another level handed out. Paired with [`RemoteStorage::get_raw`] for
    /// level-to-level data transfer without a deserialize/reserialize round-trip.
    pub fn put_raw(&self, path: String, data: Bytes) -> (write: Result<RemoteWrite, ErrorChain>)
        ensures
            match write_request(self.mode(), path@, bytes_contents(data)) {
                Ok(request) => write is Ok && write->Ok_0@ == request && write->Ok_0.data == data,
                Err(refusal) => write is Err && write->Err_0@ == refusal,
            },
    {
        if self.rw_mode == CacheMode::ReadOnly {
            return Err(ErrorChain::message("storage is read-only"));
        }
        Ok(RemoteWrite { path, data })
    }

    /// The write to ask of the service for an entry under `path`, given what
    /// serializing the entry came to.
    pub fn put(&self, path: String, serialized: Result<Vec<u8>, ErrorChain>) -> (write: Result<
        RemoteWrite,
        ErrorChain,
    >)
        ensures
            match serialized {
                Err(error) => write == Err::<RemoteWrite, ErrorChain>(error),
                Ok(data) => match write_request(self.mode(), path@, data@) {
                    Ok(request) => write is Ok && write->Ok_0@ == request,
                    Err(refusal) => write is Err && write->Err_0@ == refusal,
                },
            },
    {
        match serialized {
            Err(error) => Err(error),
            Ok(data) => self.put_raw(path, bytes_from_vec(data)),
        }
    }
}

impl Storage for RemoteStorage {
    type MultiLevelStats = ();

    type PreprocessorRead = ();

    type PreprocessorEntry = ();

    fn location(&self) -> (text: String)
        ensures
            text@ == location_text(
                scheme_of(self.spec_operator()),
                name_of(self.spec_operator()),
                root_of(self.spec_operator()),
            ),
    {
        let name = operator_name(&self.operator);
        let root = operator_root(&self.operator);
        describe_location(operator_scheme(&self.operator), name.as_str(), root.as_str())
    }

    fn current_size(&self) -> (size: Result<Option<u64>, ErrorChain>)
        ensures
            size == Ok::<Option<u64>, ErrorChain>(None),
    {
        Ok(None)
    }

    fn max_size(&self) -> (size: Result<Option<u64>, ErrorChain>)
        ensures
            size == Ok::<Option<u64>, ErrorChain>(None),
    {
        Ok(None)
    }

    fn cache_type_name(&self) -> (name: &'static str)
        ensures
            name@ == scheme_of(self.spec_operator()),
    {
        operator_scheme(&self.operator)
    }

    fn basedirs(&self) -> (dirs: &[Vec<u8>])
        ensures
            dirs@ == self.dirs(),
    {
        self.basedirs.as_slice()
    }
}

} // verus!
