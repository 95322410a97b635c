//! A remote storage on real operators, over a scripted HTTP client.
use http::{Request, Response, StatusCode};
use opendal::layers::{HttpClientLayer, RetryLayer};
use opendal::raw::{HttpBody, HttpClient, HttpFetch, Operation};
use opendal::{Buffer, Error, ErrorKind, Operator};
use sccache::buffer::buffer_to_bytes;
use sccache::error::{classify_storage_error, Cause, ErrorChain, RemoteStorageError};
use sccache::remote::{
    decode_remote_cache_read, decode_write, describe_location, CheckAction, CheckEvent, CheckState,
    RemoteStorage,
};
use sccache::storage::{Cache, CacheMode, Storage};
use std::collections::{HashSet, VecDeque};
use std::future::Future;
use std::sync::atomic::{AtomicUsize, Ordering};
use std::sync::{Arc, Mutex};
use std::time::Duration;

#[derive(Clone)]
struct ProbeHttp {
    read_status: StatusCode,
    write_status: StatusCode,
    initial_write_statuses: Arc<Mutex<VecDeque<StatusCode>>>,
    reads: Arc<AtomicUsize>,
    writes: Arc<AtomicUsize>,
    write_paths: Arc<Mutex<Vec<String>>>,
}

impl HttpFetch for ProbeHttp {
    async fn fetch(&self, request: Request<Buffer>) -> opendal::Result<Response<HttpBody>> {
        tokio::task::yield_now().await;
        let status = match request.extensions().get::<Operation>() {
            Some(Operation::Read) => {
                self.reads.fetch_add(1, Ordering::SeqCst);
                self.read_status
            }
            Some(Operation::Write) => {
                self.writes.fetch_add(1, Ordering::SeqCst);
                self.write_paths
                    .lock()
                    .unwrap()
                    .push(request.uri().path().to_owned());
                self.initial_write_statuses
                    .lock()
                    .unwrap()
                    .pop_front()
                    .unwrap_or(self.write_status)
            }
            _ => panic!("unexpected probe request: {}", request.method()),
        };
        Ok(Response::builder()
            .status(status)
            .header("Content-Length", "0")
            .body(HttpBody::new(futures::stream::empty(), Some(0)))
            .unwrap())
    }
}

fn probe_http(read_status: StatusCode, write_status: StatusCode) -> ProbeHttp {
    ProbeHttp {
        read_status,
        write_status,
        initial_write_statuses: Arc::default(),
        reads: Arc::default(),
        writes: Arc::default(),
        write_paths: Arc::default(),
    }
}

fn s3_operator() -> Operator {
    Operator::new(
        opendal::services::S3::default()
            .bucket("probe-test")
            .root("cache/")
            .region("auto")
            .endpoint("http://s3.invalid")
            .disable_config_load()
            .disable_ec2_metadata()
            .allow_anonymous(),
    )
    .unwrap()
    .finish()
}

/// A storage with the state of its capability check.
struct Checked {
    storage: RemoteStorage,
    state: tokio::sync::Mutex<CheckState>,
}

impl Checked {
    fn new(operator: Operator, mode: CacheMode) -> Checked {
        Checked {
            storage: RemoteStorage::new(operator, vec![], mode),
            state: tokio::sync::Mutex::new(CheckState::Idle),
        }
    }

    /// Carry out what the capability check asks for.
    async fn check(&self) -> Result<CacheMode, ErrorChain> {
        let mut state = self.state.lock().await;
        let operator = self.storage.operator().clone().layer(
            RetryLayer::new()
                .with_min_delay(Duration::from_millis(1))
                .with_max_delay(Duration::from_millis(2)),
        );
        let mut event = CheckEvent::Start;
        loop {
            let (next, action) = self.storage.check(*state, event);
            *state = next;
            event = match action {
                CheckAction::Read(path) => {
                    CheckEvent::ReadDone(operator.read(path).await.map(|_| ()))
                }
                CheckAction::Write { path, content } => {
                    CheckEvent::WriteDone(operator.write(&path, content).await.map(|_| ()))
                }
                CheckAction::Finish(outcome) => return outcome,
            };
        }
    }

    fn is_initialized(&self) -> bool {
        *self.state.try_lock().unwrap() == CheckState::Initialized
    }
}

fn probe_storage(
    mode: CacheMode,
    read_status: StatusCode,
    write_status: StatusCode,
) -> (Checked, ProbeHttp) {
    let http = probe_http(read_status, write_status);
    let operator = s3_operator().layer(HttpClientLayer::new(HttpClient::with(http.clone())));
    (Checked::new(operator, mode), http)
}

fn block_on<F: Future>(future: F) -> F::Output {
    tokio::runtime::Builder::new_current_thread()
        .enable_all()
        .build()
        .unwrap()
        .block_on(future)
}

fn is_remote(error: &ErrorChain) -> bool {
    matches!(error.outermost, Cause::Remote(_))
}

#[test]
fn capability_check_rejects_failed_required_reads() {
    block_on(async {
        for mode in [CacheMode::ReadOnly, CacheMode::ReadWrite] {
            for status in [
                StatusCode::FORBIDDEN,
                StatusCode::TOO_MANY_REQUESTS,
                StatusCode::SERVICE_UNAVAILABLE,
            ] {
                let (storage, http) = probe_storage(mode, status, StatusCode::OK);
                let error = storage.check().await.unwrap_err();
                assert!(is_remote(&error), "{mode:?}: {status}");
                if status == StatusCode::FORBIDDEN {
                    assert_eq!(
                        error.to_text(),
                        "cache storage failed to read (PermissionDenied)"
                    );
                }
                assert_eq!(http.writes.load(Ordering::SeqCst), 0);
            }
        }
    });
}

#[test]
fn capability_check_rejects_failed_required_writes() {
    block_on(async {
        for status in [
            StatusCode::FORBIDDEN,
            StatusCode::TOO_MANY_REQUESTS,
            StatusCode::SERVICE_UNAVAILABLE,
        ] {
            let (storage, http) =
                probe_storage(CacheMode::ReadWrite, StatusCode::NOT_FOUND, status);
            let error = storage.check().await.unwrap_err();
            assert!(is_remote(&error), "{status}");
            assert!(!storage.is_initialized());
            if status == StatusCode::FORBIDDEN {
                assert_eq!(
                    error.to_text(),
                    "cache storage failed to provide requested write access (PermissionDenied)"
                );
                assert_eq!(http.writes.load(Ordering::SeqCst), 1);
            }
        }
    });
}

#[test]
fn capability_check_preserves_explicit_read_only_mode() {
    block_on(async {
        for status in [StatusCode::OK, StatusCode::NOT_FOUND] {
            let (storage, http) =
                probe_storage(CacheMode::ReadOnly, status, StatusCode::FORBIDDEN);
            assert_eq!(storage.check().await.unwrap(), CacheMode::ReadOnly);
            assert_eq!(http.writes.load(Ordering::SeqCst), 0);
        }
    });
}

#[test]
fn capability_check_preserves_requested_read_write_mode() {
    block_on(async {
        for status in [StatusCode::OK, StatusCode::NOT_FOUND] {
            let (storage, http) = probe_storage(CacheMode::ReadWrite, status, StatusCode::OK);
            assert_eq!(storage.check().await.unwrap(), CacheMode::ReadWrite);
            assert_eq!(http.writes.load(Ordering::SeqCst), 1);
        }
    });
}

#[test]
fn capability_check_initializes_once_for_concurrent_callers() {
    block_on(async {
        let (storage, http) =
            probe_storage(CacheMode::ReadWrite, StatusCode::NOT_FOUND, StatusCode::OK);
        let results = futures::future::join_all((0..8).map(|_| storage.check())).await;
        assert!(results
            .into_iter()
            .all(|mode| mode.unwrap() == CacheMode::ReadWrite));
        assert_eq!(storage.check().await.unwrap(), CacheMode::ReadWrite);
        assert_eq!(http.reads.load(Ordering::SeqCst), 1);
        assert_eq!(http.writes.load(Ordering::SeqCst), 1);
    });
}

#[test]
fn capability_independent_storage_instances_use_distinct_probe_keys() {
    block_on(async {
        let (storage, http) =
            probe_storage(CacheMode::ReadWrite, StatusCode::NOT_FOUND, StatusCode::OK);
        let instances: Vec<_> = (0..8)
            .map(|_| Checked::new(storage.storage.operator().clone(), CacheMode::ReadWrite))
            .collect();
        for result in
            futures::future::join_all(instances.iter().map(|storage| storage.check())).await
        {
            assert_eq!(result.unwrap(), CacheMode::ReadWrite);
        }
        let paths = http.write_paths.lock().unwrap();
        assert_eq!(paths.len(), 8);
        assert_eq!(paths.iter().collect::<HashSet<_>>().len(), 8);
        assert!(paths
            .iter()
            .all(|path| path.starts_with("/probe-test/cache/")));
    });
}

#[test]
fn capability_failed_checks_reuse_the_owned_probe_identity() {
    block_on(async {
        let (storage, http) =
            probe_storage(CacheMode::ReadWrite, StatusCode::NOT_FOUND, StatusCode::OK);
        http.initial_write_statuses
            .lock()
            .unwrap()
            .push_back(StatusCode::FORBIDDEN);
        let error = storage.check().await.unwrap_err();
        assert!(error.to_text().contains("PermissionDenied"));
        assert_eq!(storage.check().await.unwrap(), CacheMode::ReadWrite);
        let paths = http.write_paths.lock().unwrap();
        assert_eq!(paths.len(), 2);
        assert_eq!(paths[0], paths[1]);
    });
}

#[test]
fn capability_check_recovers_from_temporary_initial_write_contention() {
    block_on(async {
        let (storage, http) =
            probe_storage(CacheMode::ReadWrite, StatusCode::NOT_FOUND, StatusCode::OK);
        http.initial_write_statuses
            .lock()
            .unwrap()
            .push_back(StatusCode::TOO_MANY_REQUESTS);
        assert_eq!(storage.check().await.unwrap(), CacheMode::ReadWrite);
        assert_eq!(http.writes.load(Ordering::SeqCst), 2);
        assert_eq!(storage.check().await.unwrap(), CacheMode::ReadWrite);
        assert_eq!(http.writes.load(Ordering::SeqCst), 2);
    });
}

#[test]
fn capability_check_accepts_an_existing_immutable_probe() {
    block_on(async {
        let http = probe_http(StatusCode::NOT_FOUND, StatusCode::CONFLICT);
        let operator = Operator::new(
            opendal::services::Ghac::default()
                .root("cache/")
                .endpoint("http://ghac.invalid/")
                .runtime_token("synthetic-test-token"),
        )
        .unwrap()
        .layer(HttpClientLayer::new(HttpClient::with(http.clone())))
        .finish();
        let storage = Checked::new(operator, CacheMode::ReadWrite);
        assert_eq!(storage.check().await.unwrap(), CacheMode::ReadWrite);
        assert_eq!(http.writes.load(Ordering::SeqCst), 1);
    });
}

/// Open an entry that is text in front of a full stop.
fn open_entry(bytes: bytes::Bytes) -> Result<String, ErrorChain> {
    match std::str::from_utf8(&bytes).ok().and_then(|text| text.strip_suffix('.')) {
        Some(text) => Ok(text.to_string()),
        None => Err(ErrorChain::message("not an entry")),
    }
}

#[test]
fn get_propagates_unexpected_backend_errors() {
    let error = decode_remote_cache_read(
        Err(Error::new(ErrorKind::Unexpected, "injected read failure")),
        open_entry,
    )
    .unwrap_err();

    let kind = match &error.outermost {
        Cause::Remote(RemoteStorageError { kind, .. }) => Some(kind.as_str()),
        Cause::Other(_) => None,
    };
    assert_eq!(kind, Some("Unexpected"));
}

#[test]
fn capability_error_summary_excludes_provider_context() {
    let provider = Error::new(ErrorKind::PermissionDenied, "synthetic-provider-detail");
    let error = RemoteStorage::error("failed to read raw cache bytes", provider);
    let summary = classify_storage_error("read raw entry", &error);
    assert_eq!(
        summary,
        "cache storage read raw entry failed (PermissionDenied)"
    );
    assert!(!summary.contains("synthetic-provider-detail"));
    assert_eq!(1 + error.behind.len(), 1);
    assert!(!format!("{error:?}").contains("synthetic-provider-detail"));
}

#[test]
fn test_operator_storage_s3_with_basedirs() {
    let operator = Operator::new(
        opendal::services::S3::default()
            .bucket("test-bucket")
            .root("test-prefix")
            .region("us-east-1")
            .disable_config_load()
            .disable_ec2_metadata()
            .allow_anonymous(),
    )
    .expect("Failed to create S3 cache operator")
    .finish();

    let basedirs = vec![b"/home/user/project".to_vec(), b"/opt/build".to_vec()];

    let storage = RemoteStorage::new(operator, basedirs.clone(), CacheMode::ReadWrite);

    assert_eq!(storage.basedirs(), basedirs.as_slice());
    assert_eq!(storage.basedirs().len(), 2);
    assert_eq!(storage.basedirs()[0], b"/home/user/project".to_vec());
    assert_eq!(storage.basedirs()[1], b"/opt/build".to_vec());
}

fn redis_operator() -> Operator {
    Operator::new(
        opendal::services::Redis::default()
            .endpoint("redis://localhost:6379")
            .db(0)
            .root("test-prefix"),
    )
    .expect("Failed to create Redis cache operator")
    .finish()
}

#[test]
fn test_operator_storage_redis_with_basedirs() {
    let basedirs = vec![b"/workspace".to_vec()];

    let storage = RemoteStorage::new(redis_operator(), basedirs.clone(), CacheMode::ReadWrite);

    assert_eq!(storage.basedirs(), basedirs.as_slice());
    assert_eq!(storage.basedirs().len(), 1);
}

#[test]
fn test_operator_storage_redis_with_read_only() {
    let storage = RemoteStorage::new(redis_operator(), vec![], CacheMode::ReadOnly);

    let result = storage.put("test".to_string(), Ok(Vec::new()));
    match result {
        Ok(_) => panic!("expected error, got success {result:?}"),
        Err(err) => assert_eq!(err.to_text(), "storage is read-only"),
    }
}

#[test]
fn read_write_storage_writes_the_entry_as_it_is() {
    let storage = RemoteStorage::new(redis_operator(), vec![], CacheMode::ReadWrite);

    let write = storage.put("t/e/s/test".to_string(), Ok(vec![1, 2, 3])).unwrap();
    assert_eq!(write.path, "t/e/s/test");
    assert_eq!(write.data.as_ref(), &[1, 2, 3]);

    let raw = bytes::Bytes::from_static(b"raw");
    let write = storage.put_raw("k".to_string(), raw).unwrap();
    assert_eq!(write.path, "k");
    assert_eq!(write.data.as_ref(), b"raw");
}

#[test]
fn put_reports_a_failed_serialization_before_a_read_only_mode() {
    let storage = RemoteStorage::new(redis_operator(), vec![], CacheMode::ReadOnly);
    let error = storage
        .put("k".to_string(), Err(ErrorChain::message("no zip")))
        .unwrap_err();
    assert_eq!(error.to_text(), "no zip");
}

#[test]
fn raw_writes_are_refused_by_a_read_only_storage() {
    let storage = RemoteStorage::new(redis_operator(), vec![], CacheMode::ReadOnly);
    let error = storage
        .put_raw("k".to_string(), bytes::Bytes::from_static(b"raw"))
        .unwrap_err();
    assert_eq!(error.to_text(), "storage is read-only");
    assert!(error.behind.is_empty());
}

#[test]
fn location_names_the_service_the_bucket_and_the_root() {
    let storage = RemoteStorage::new(s3_operator(), vec![], CacheMode::ReadOnly);
    assert_eq!(storage.location(), "s3, name: probe-test, prefix: /cache/");
    assert_eq!(storage.cache_type_name(), "s3");
    assert_eq!(describe_location("a", "b", "c"), "a, name: b, prefix: c");
}

#[test]
fn remote_storage_knows_no_sizes() {
    let storage = RemoteStorage::new(s3_operator(), vec![], CacheMode::ReadOnly);
    assert_eq!(storage.current_size().unwrap(), None);
    assert_eq!(storage.max_size().unwrap(), None);
    assert_eq!(storage.read_error_count(), 0);
    assert!(storage.multilevel_stats().is_none());
}

#[test]
fn write_probe_is_the_read_path_with_a_random_uuid() {
    let storage = RemoteStorage::new(s3_operator(), vec![], CacheMode::ReadWrite);
    let (state, action) = storage.check(CheckState::Idle, CheckEvent::Start);
    assert_eq!(state, CheckState::Reading);
    assert!(matches!(action, CheckAction::Read(".sccache_check")));
    let (state, action) = storage.check(state, CheckEvent::ReadDone(Ok(())));
    assert_eq!(state, CheckState::Writing);
    match action {
        CheckAction::Write { path, content } => {
            assert_eq!(content, "Hello, World!");
            let id = path.strip_prefix(".sccache_check-").unwrap();
            assert_eq!(id.len(), 36);
            assert_eq!(&id[14..15], "4");
            assert!("89ab".contains(&id[19..20]));
            for (i, c) in id.chars().enumerate() {
                if [8, 13, 18, 23].contains(&i) {
                    assert_eq!(c, '-');
                } else {
                    assert!(c.is_ascii_digit() || ('a'..='f').contains(&c));
                }
            }
        }
        other => panic!("expected a write, got {other:?}"),
    }
}

#[test]
fn an_initialized_storage_is_not_checked_again() {
    let storage = RemoteStorage::new(s3_operator(), vec![], CacheMode::ReadWrite);
    for _ in 0..3 {
        let (state, action) = storage.check(CheckState::Initialized, CheckEvent::Start);
        assert_eq!(state, CheckState::Initialized);
        assert!(matches!(
            action,
            CheckAction::Finish(Ok(CacheMode::ReadWrite))
        ));
    }
}

#[test]
fn an_abandoned_check_starts_over() {
    let storage = RemoteStorage::new(s3_operator(), vec![], CacheMode::ReadWrite);
    for state in [CheckState::Idle, CheckState::Reading, CheckState::Writing] {
        let (state, action) = storage.check(state, CheckEvent::Start);
        assert_eq!(state, CheckState::Reading);
        assert!(matches!(action, CheckAction::Read(".sccache_check")));
    }
}

#[test]
fn reads_are_hits_misses_or_failures() {
    let storage = RemoteStorage::new(s3_operator(), vec![], CacheMode::ReadOnly);
    let buffer = Buffer::from(vec![
        bytes::Bytes::from_static(b"ab"),
        bytes::Bytes::from_static(b"c."),
    ]);
    match decode_remote_cache_read(Ok(buffer.clone()), open_entry).unwrap() {
        Cache::Hit(entry) => assert_eq!(entry, "abc"),
        Cache::Miss => panic!("expected a hit"),
    }
    assert_eq!(storage.get_raw(Ok(buffer)).unwrap().unwrap().as_ref(), b"abc.");

    let missing = || Error::new(ErrorKind::NotFound, "gone");
    assert!(matches!(
        decode_remote_cache_read(Err(missing()), open_entry).unwrap(),
        Cache::Miss
    ));
    assert!(storage.get_raw(Err(missing())).unwrap().is_none());

    let limited = || Error::new(ErrorKind::RateLimited, "slow down");
    assert_eq!(
        decode_remote_cache_read(Err(limited()), open_entry).unwrap_err().to_text(),
        "failed to read remote cache entry (RateLimited)"
    );
    assert_eq!(
        storage.get_raw(Err(limited())).unwrap_err().to_text(),
        "failed to read raw cache bytes (RateLimited)"
    );
}

#[test]
fn an_entry_that_does_not_open_is_an_error() {
    let storage = RemoteStorage::new(s3_operator(), vec![], CacheMode::ReadOnly);
    for contents in [&b""[..], b"abc", b"\xff."] {
        let buffer = Buffer::from(bytes::Bytes::from_static(contents));
        let error = decode_remote_cache_read(Ok(buffer.clone()), open_entry).unwrap_err();
        assert_eq!(error.to_text(), "not an entry");
        // The raw bytes are there all the same.
        let raw = storage.get_raw(Ok(buffer)).unwrap().unwrap();
        assert_eq!(raw.as_ref(), contents);
    }
}

#[test]
fn buffers_are_combined_whatever_their_parts() {
    let combined = |parts: &[&'static [u8]]| {
        let parts: Vec<_> = parts.iter().map(|part| bytes::Bytes::from_static(part)).collect();
        buffer_to_bytes(Buffer::from(parts))
    };
    assert_eq!(combined(&[]).as_ref(), b"");
    assert_eq!(combined(&[b""]).as_ref(), b"");
    assert_eq!(combined(&[b"a"]).as_ref(), b"a");
    assert_eq!(combined(&[b"", b"a"]).as_ref(), b"a");
    assert_eq!(combined(&[b"a", b"", b"b"]).as_ref(), b"ab");
    assert_eq!(combined(&[b"ab", b"", b"", b"c", b"def", b""]).as_ref(), b"abcdef");

    assert_eq!(buffer_to_bytes(Buffer::new()).as_ref(), b"");
    let whole = bytes::Bytes::from_static(b"whole");
    assert_eq!(buffer_to_bytes(Buffer::from(whole)).as_ref(), b"whole");
    let parts = vec![bytes::Bytes::from_static(b"abc"), bytes::Bytes::from_static(b"def")];
    assert_eq!(buffer_to_bytes(Buffer::from(parts).slice(2..5)).as_ref(), b"cde");
}

#[test]
fn raw_reads_give_back_raw_writes() {
    block_on(async {
        let operator = Operator::new(opendal::services::Memory::default())
            .unwrap()
            .finish();
        let storage = RemoteStorage::new(operator, vec![], CacheMode::ReadWrite);
        let data = bytes::Bytes::from_static(b"\x00raw\xff.");
        let write = storage.put_raw("k".to_string(), data.clone()).unwrap();
        let written = storage.operator().write(&write.path, write.data).await;
        decode_write(written.map(|_| ())).unwrap();
        let read = storage.operator().read("k").await;
        assert_eq!(storage.get_raw(read).unwrap(), Some(data));

        let write = storage.put("e".to_string(), Ok(b"entry.".to_vec())).unwrap();
        let written = storage.operator().write(&write.path, write.data).await;
        decode_write(written.map(|_| ())).unwrap();
        let read = storage.operator().read("e").await;
        match storage.get(read, open_entry).unwrap() {
            Cache::Hit(entry) => assert_eq!(entry, "entry"),
            Cache::Miss => panic!("expected a hit"),
        }
    });
}

#[test]
fn identities_tell_probes_apart() {
    let ids = [
        "01234567-89ab-4cde-8f01-23456789abcd",
        "01234567-89ab-4cde-8f01-23456789abce",
    ];
    for id in ids {
        let storage =
            RemoteStorage::with_identity(s3_operator(), vec![], CacheMode::ReadWrite, id);
        let (_, action) = storage.check(CheckState::Reading, CheckEvent::ReadDone(Ok(())));
        match action {
            CheckAction::Write { path, .. } => assert_eq!(path, format!(".sccache_check-{id}")),
            other => panic!("expected a write, got {other:?}"),
        }
    }
}

#[test]
fn writes_succeed_or_fail_with_the_kind() {
    assert!(decode_write(Ok(())).is_ok());
    assert_eq!(
        decode_write(Err(Error::new(ErrorKind::AlreadyExists, "there")))
            .unwrap_err()
            .to_text(),
        "failed to write remote cache entry (AlreadyExists)"
    );
}

#[test]
fn every_kind_is_shown_by_its_name() {
    let kinds = [
        (ErrorKind::Unexpected, "Unexpected"),
        (ErrorKind::Unsupported, "Unsupported"),
        (ErrorKind::ConfigInvalid, "ConfigInvalid"),
        (ErrorKind::NotFound, "NotFound"),
        (ErrorKind::PermissionDenied, "PermissionDenied"),
        (ErrorKind::IsADirectory, "IsADirectory"),
        (ErrorKind::NotADirectory, "NotADirectory"),
        (ErrorKind::AlreadyExists, "AlreadyExists"),
        (ErrorKind::RateLimited, "RateLimited"),
        (ErrorKind::IsSameFile, "IsSameFile"),
        (ErrorKind::ConditionNotMatch, "ConditionNotMatch"),
        (ErrorKind::RangeNotSatisfied, "RangeNotSatisfied"),
    ];
    let storage = RemoteStorage::new(s3_operator(), vec![], CacheMode::ReadWrite);
    for (kind, name) in kinds {
        let error = RemoteStorage::error("op", Error::new(kind, "detail"));
        assert_eq!(error.to_text(), format!("op ({name})"));

        // Only an absent probe counts as an answered read, and only an existing
        // one as a write that was taken.
        let read = CheckEvent::ReadDone(Err(Error::new(kind, "detail")));
        let (state, _) = storage.check(CheckState::Reading, read);
        let expected = if kind == ErrorKind::NotFound {
            CheckState::Writing
        } else {
            CheckState::Idle
        };
        assert_eq!(state, expected);
        let write = CheckEvent::WriteDone(Err(Error::new(kind, "detail")));
        let (state, _) = storage.check(CheckState::Writing, write);
        let expected = if kind == ErrorKind::AlreadyExists {
            CheckState::Initialized
        } else {
            CheckState::Idle
        };
        assert_eq!(state, expected);
    }
}
