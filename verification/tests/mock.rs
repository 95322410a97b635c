use bytes::Bytes;
use sccache::error::ErrorChain;
use sccache::mock::MockStorage;
use sccache::storage::{
    raw_read_unsupported, raw_write_unsupported, unchecked_mode, Cache, CacheMode, GetPathResult,
    PreprocessorCacheMode, Storage,
};
use std::path::PathBuf;
use std::time::Duration;

#[test]
fn look_ups_are_answered_in_order() {
    let mut mock = MockStorage::new(None, false);
    mock.next_get(Ok(Cache::Miss));
    mock.next_get(Ok(Cache::Hit(Bytes::from_static(b"entry"))));
    mock.next_get(Err(ErrorChain::message("down")));
    assert!(matches!(mock.get().outcome, Ok(Cache::Miss)));
    match mock.get().outcome {
        Ok(Cache::Hit(entry)) => assert_eq!(entry.as_ref(), b"entry"),
        other => panic!("expected a hit, got {other:?}"),
    }
    assert_eq!(mock.get().outcome.unwrap_err().to_text(), "down");
    assert!(mock.next_answer().outcome.is_none());
    mock.next_get(Ok(Cache::Miss));
    assert!(matches!(mock.next_answer().outcome, Some(Ok(Cache::Miss))));
}

#[test]
fn checks_answer_as_told() {
    let mock = MockStorage::new(None, false);
    assert_eq!(mock.check().outcome.unwrap(), CacheMode::ReadWrite);
    let mock = mock.with_check_error("no access");
    assert_eq!(mock.check().outcome.unwrap_err().to_text(), "no access");
}

#[test]
fn raw_reads_answer_as_told() {
    let mock = MockStorage::new(None, false);
    assert!(mock.get_raw().outcome.unwrap().is_none());
    let mock = mock.with_raw_read_bytes(Bytes::from_static(b"raw"));
    assert_eq!(mock.get_raw().outcome.unwrap().unwrap().as_ref(), b"raw");
    assert_eq!(mock.get_raw().outcome.unwrap().unwrap().as_ref(), b"raw");
    let mock = mock.with_raw_read_error("unreadable");
    assert_eq!(mock.get_raw().outcome.unwrap_err().to_text(), "unreadable");
}

#[test]
fn writes_take_as_long_as_told() {
    let mock = MockStorage::new(None, false);
    assert_eq!(mock.delay(), None);
    assert_eq!(mock.put().outcome.unwrap(), Duration::from_secs(0));
    let delay = Duration::from_millis(30);
    let mock = MockStorage::new(Some(delay), false);
    assert_eq!(mock.delay(), Some(delay));
    assert_eq!(mock.put().outcome.unwrap(), delay);
}

#[test]
fn every_operation_waits_as_long_as_told() {
    for delay in [None, Some(Duration::from_millis(30))] {
        let mut mock = MockStorage::new(delay, false);
        mock.next_get(Ok(Cache::Miss));
        assert_eq!(mock.get().wait, delay);
        assert_eq!(mock.next_answer().wait, delay);
        assert_eq!(mock.put().wait, delay);
        assert_eq!(mock.get_raw().wait, delay);
        assert_eq!(mock.check().wait, delay);
        let mock = mock.with_check_error("no access").with_raw_read_error("unreadable");
        assert_eq!(mock.get_raw().wait, delay);
        assert_eq!(mock.check().wait, delay);
    }
}

#[test]
fn a_mock_describes_itself() {
    let mock = MockStorage::new(None, true);
    assert_eq!(mock.location(), "Mock Storage");
    assert_eq!(mock.current_size().unwrap(), None);
    assert_eq!(mock.max_size().unwrap(), None);
    assert_eq!(
        mock.preprocessor_cache_mode_config(),
        PreprocessorCacheMode::Use(true)
    );
}

#[test]
fn backends_have_default_answers() {
    let mock = MockStorage::new(None, false);
    assert_eq!(mock.cache_type_name(), "unknown");
    assert!(mock.multilevel_stats().is_none());
    assert_eq!(mock.read_error_count(), 0);
    mock.reset_stats();
    assert!(mock.basedirs().is_empty());
    assert!(matches!(mock.get_path("key"), Ok(GetPathResult::Unsupported)));
    assert!(mock.get_preprocessor_cache_entry("key").unwrap().is_none());
    assert!(mock.put_preprocessor_cache_entry("key", ()).is_ok());
    assert!(raw_read_unsupported().unwrap().is_none());
    assert_eq!(
        raw_write_unsupported().to_text(),
        "put_raw not implemented for this storage backend"
    );
    assert_eq!(unchecked_mode().unwrap(), CacheMode::ReadWrite);
}

#[test]
fn path_results_are_duplicated() {
    let found = GetPathResult::Found(PathBuf::from("/cache/entry"));
    match found.clone() {
        GetPathResult::Found(path) => assert_eq!(path, PathBuf::from("/cache/entry")),
        other => panic!("expected a path, got {other:?}"),
    }
    assert!(matches!(GetPathResult::Miss.clone(), GetPathResult::Miss));
    assert!(matches!(
        GetPathResult::Unsupported.clone(),
        GetPathResult::Unsupported
    ));
}
