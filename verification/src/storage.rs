//! What every cache storage offers, and what it answers where a backend has
//! nothing of its own to say.
use crate::error::{CauseView, ErrorChain};
use bytes::Bytes;
use std::path::PathBuf;
use vstd::prelude::*;

verus! {

/// What a cache may be used for.
#[derive(Clone, Copy, Debug, PartialEq, Eq, Structural)]
pub enum CacheMode {
    /// Entries can only be read.
    ReadOnly,
    /// Entries can be read and written.
    ReadWrite,
}

/// Result of [`Storage::get_path`].
#[derive(Debug)]
pub enum GetPathResult {
    /// Cache hit: the entry lives at this filesystem path.
    Found(PathBuf),
    /// Cache miss: the key is not in the cache.
    Miss,
    /// This backend does not support direct file access; use `get`/`get_raw` instead.
    Unsupported,
}

impl Clone for GetPathResult {
    fn clone(&self) -> (copy: GetPathResult)
        ensures
            copy == *self,
    {
        match self {
            GetPathResult::Found(path) => GetPathResult::Found(path.clone()),
            GetPathResult::Miss => GetPathResult::Miss,
            GetPathResult::Unsupported => GetPathResult::Unsupported,
        }
    }
}

/// What a look-up in a cache came to.
#[derive(Debug)]
pub enum Cache<R> {
    /// The entry was found in the cache.
    Hit(R),
    /// Nothing failed, but the entry is not in the cache.
    Miss,
}

/// The configuration of preprocessor cache mode, as far as a storage decides it.
#[derive(Clone, Copy, Debug, PartialEq, Eq, Structural)]
pub enum PreprocessorCacheMode {
    /// The default configuration.
    Default,
    /// The default configuration, but with the mode switched on or off.
    Use(bool),
}

/// An interface to cache storage: the part of it that answers without waiting
/// for a backend.
pub trait Storage {
    /// Statistics of a storage of several levels.
    type MultiLevelStats;

    /// A stored preprocessor cache entry, open for reading.
    type PreprocessorRead;

    /// A preprocessor cache entry to be stored.
    type PreprocessorEntry;

    /// Get the storage location.
    fn location(&self) -> String;

    /// Get the current storage usage, if applicable.
    fn current_size(&self) -> Result<Option<u64>, ErrorChain>;

    /// Get the maximum storage size, if applicable.
    fn max_size(&self) -> Result<Option<u64>, ErrorChain>;

    /// Get the cache backend type name (e.g., "disk", "redis", "s3").
    /// Used for statistics and display purposes.
    fn cache_type_name(&self) -> (name: &'static str)
        default_ensures
            name@ == "unknown"@,
    {
        "unknown"
    }

    /// Get multi-level cache statistics, if this is a multi-level storage.
    fn multilevel_stats(&self) -> (stats: Option<Self::MultiLevelStats>)
        default_ensures
            stats is None,
    {
        None
    }

    /// Failed backend read operations, including reads recovered by another level.
    /// This is storage accounting, not a count of recompiled requests.
    fn read_error_count(&self) -> (count: u64)
        default_ensures
            count == 0,
    {
        0
    }

    /// Reset completed storage-operation statistics alongside server statistics.
    fn reset_stats(&self) {
    }

    /// Return the config for preprocessor cache mode if applicable
    fn preprocessor_cache_mode_config(&self) -> (mode: PreprocessorCacheMode)
        default_ensures
            mode == PreprocessorCacheMode::Default,
    {
        PreprocessorCacheMode::Default
    }

    /// Return the base directories for path normalization if configured
    fn basedirs(&self) -> (dirs: &[Vec<u8>])
        default_ensures
            dirs@.len() == 0,
    {
        &[]
    }

    /// Return the filesystem path of the cached entry for `key`.
    fn get_path(&self, _key: &str) -> (path: Result<GetPathResult, ErrorChain>)
        default_ensures
            path == Ok::<GetPathResult, ErrorChain>(GetPathResult::Unsupported),
    {
        Ok(GetPathResult::Unsupported)
    }

    /// Return the preprocessor cache entry for a given preprocessor key,
    /// if it exists.
    /// Only applicable when using preprocessor cache mode.
    fn get_preprocessor_cache_entry(&self, _key: &str) -> (entry: Result<
        Option<Self::PreprocessorRead>,
        ErrorChain,
    >)
        default_ensures
            entry == Ok::<Option<Self::PreprocessorRead>, ErrorChain>(None),
    {
        Ok(None)
    }

    /// Insert a preprocessor cache entry at the given preprocessor key,
    /// overwriting the entry if it exists.
    /// Only applicable when using preprocessor cache mode.
    fn put_preprocessor_cache_entry(&self, _key: &str, _entry: Self::PreprocessorEntry) -> (done:
        Result<(), ErrorChain>)
        default_ensures
            done == Ok::<(), ErrorChain>(()),
    {
        Ok(())
    }
}

/// The answer to a raw read of a backend that has no raw access: nothing found.
pub fn raw_read_unsupported() -> (entry: Result<Option<Bytes>, ErrorChain>)
    ensures
        entry == Ok::<Option<Bytes>, ErrorChain>(None),
{
    Ok(None)
}

/// The answer to a raw write of a backend that has no raw access: an error.
pub fn raw_write_unsupported() -> (refusal: ErrorChain)
    ensures
        refusal@ == seq![
            CauseView::Other("put_raw not implemented for this storage backend"@),
        ],
{
    ErrorChain::message("put_raw not implemented for this storage backend")
}

/// The capability of a backend that does not support a check: both to get and
/// to put.
pub fn unchecked_mode() -> (mode: Result<CacheMode, ErrorChain>)
    ensures
        mode == Ok::<CacheMode, ErrorChain>(CacheMode::ReadWrite),
{
    Ok(CacheMode::ReadWrite)
}

} // verus!
