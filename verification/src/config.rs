//! The configuration of cache storage.
use crate::storage::CacheMode;
use std::path::PathBuf;
use vstd::prelude::*;
use vstd::std_specs::convert::FromSpecImpl;

verus! {

/// The database that a Redis cache uses unless another is configured.
pub const DEFAULT_REDIS_DB: u32 = 0;

/// What a cache is configured to be used for.
#[derive(Clone, Copy, Debug, PartialEq, Eq, Structural)]
pub enum CacheModeConfig {
    ReadOnly,
    ReadWrite,
}

impl From<CacheModeConfig> for CacheMode {
    fn from(config: CacheModeConfig) -> (mode: CacheMode) {
        match config {
            CacheModeConfig::ReadOnly => CacheMode::ReadOnly,
            CacheModeConfig::ReadWrite => CacheMode::ReadWrite,
        }
    }
}

impl FromSpecImpl<CacheModeConfig> for CacheMode {
    open spec fn obeys_from_spec() -> bool {
        true
    }

    open spec fn from_spec(config: CacheModeConfig) -> CacheMode {
        mode_of(config)
    }
}

/// The mode that a configuration stands for.
pub open spec fn mode_of(config: CacheModeConfig) -> CacheMode {
    match config {
        CacheModeConfig::ReadOnly => CacheMode::ReadOnly,
        CacheModeConfig::ReadWrite => CacheMode::ReadWrite,
    }
}

#[derive(Debug)]
pub struct AzureCacheConfig {
    pub connection_string: String,
    pub container: String,
    pub key_prefix: String,
    pub rw_mode: CacheModeConfig,
}

#[derive(Debug)]
pub struct GCSCacheConfig {
    pub bucket: String,
    pub key_prefix: String,
    pub cred_path: Option<String>,
    pub rw_mode: CacheModeConfig,
    pub service_account: Option<String>,
    pub credential_url: Option<String>,
}

#[derive(Debug)]
pub struct GHACacheConfig {
    pub version: String,
    pub rw_mode: CacheModeConfig,
}

#[derive(Debug)]
pub struct MemcachedCacheConfig {
    pub url: String,
    pub username: Option<String>,
    pub password: Option<String>,
    pub expiration: u32,
    pub key_prefix: String,
    pub rw_mode: CacheModeConfig,
}

#[derive(Debug)]
pub struct RedisCacheConfig {
    pub endpoint: Option<String>,
    pub cluster_endpoints: Option<String>,
    pub username: Option<String>,
    pub password: Option<String>,
    pub db: u32,
    pub url: Option<String>,
    pub ttl: u64,
    pub key_prefix: String,
    pub rw_mode: CacheModeConfig,
}

#[derive(Debug)]
pub struct S3CacheConfig {
    pub bucket: String,
    pub region: Option<String>,
    pub key_prefix: String,
    pub no_credentials: bool,
    pub endpoint: Option<String>,
    pub use_ssl: Option<bool>,
    pub server_side_encryption: Option<bool>,
    pub enable_virtual_host_style: Option<bool>,
    pub rw_mode: CacheModeConfig,
}

#[derive(Debug)]
pub struct WebdavCacheConfig {
    pub endpoint: String,
    pub key_prefix: String,
    pub username: Option<String>,
    pub password: Option<String>,
    pub token: Option<String>,
    pub rw_mode: CacheModeConfig,
}

#[derive(Debug)]
pub struct OSSCacheConfig {
    pub bucket: String,
    pub key_prefix: String,
    pub endpoint: Option<String>,
    pub no_credentials: bool,
    pub rw_mode: CacheModeConfig,
}

#[derive(Debug)]
pub struct COSCacheConfig {
    pub bucket: String,
    pub key_prefix: String,
    pub endpoint: Option<String>,
    pub rw_mode: CacheModeConfig,
}

/// A remote cache, with its configuration.
#[derive(Debug)]
pub enum CacheType {
    Azure(AzureCacheConfig),
    GCS(GCSCacheConfig),
    GHA(GHACacheConfig),
    Memcached(MemcachedCacheConfig),
    Redis(RedisCacheConfig),
    S3(S3CacheConfig),
    Webdav(WebdavCacheConfig),
    OSS(OSSCacheConfig),
    COS(COSCacheConfig),
}

/// The cache on the local disk. `P` is the configuration of preprocessor cache
/// mode, which is handed on as it is.
#[derive(Debug)]
pub struct DiskCacheConfig<P> {
    pub dir: PathBuf,
    pub size: u64,
    pub preprocessor_cache_mode: P,
    pub rw_mode: CacheModeConfig,
}

/// The configuration, as far as a storage is chosen by it.
#[derive(Debug)]
pub struct Config<P> {
    pub cache: Option<CacheType>,
    pub fallback_cache: DiskCacheConfig<P>,
    pub basedirs: Vec<Vec<u8>>,
}

/// Which kinds of remote cache a build supports.
#[derive(Clone, Copy, Debug, PartialEq, Eq, Structural)]
pub struct Features {
    pub azure: bool,
    pub gcs: bool,
    pub gha: bool,
    pub memcached: bool,
    pub redis: bool,
    pub s3: bool,
    pub webdav: bool,
    pub oss: bool,
    pub cos: bool,
}

impl Features {
    /// Whether any kind of remote cache is supported.
    pub open spec fn some_supported(self) -> bool {
        self.azure || self.gcs || self.gha || self.memcached || self.redis || self.s3 || self.webdav
            || self.oss || self.cos
    }

    /// Whether the kind of this remote cache is supported.
    pub open spec fn spec_supports(self, cache_type: CacheType) -> bool {
        match cache_type {
            CacheType::Azure(_) => self.azure,
            CacheType::GCS(_) => self.gcs,
            CacheType::GHA(_) => self.gha,
            CacheType::Memcached(_) => self.memcached,
            CacheType::Redis(_) => self.redis,
            CacheType::S3(_) => self.s3,
            CacheType::Webdav(_) => self.webdav,
            CacheType::OSS(_) => self.oss,
            CacheType::COS(_) => self.cos,
        }
    }

    /// Whether any kind of remote cache is supported.
    pub fn any(&self) -> (any: bool)
        ensures
            any == self.some_supported(),
    {
        self.azure || self.gcs || self.gha || self.memcached || self.redis || self.s3 || self.webdav
            || self.oss || self.cos
    }

    /// Whether the kind of this remote cache is supported.
    pub fn supports(&self, cache_type: &CacheType) -> (supported: bool)
        ensures
            supported == self.spec_supports(*cache_type),
    {
        match cache_type {
            CacheType::Azure(_) => self.azure,
            CacheType::GCS(_) => self.gcs,
            CacheType::GHA(_) => self.gha,
            CacheType::Memcached(_) => self.memcached,
            CacheType::Redis(_) => self.redis,
            CacheType::S3(_) => self.s3,
            CacheType::Webdav(_) => self.webdav,
            CacheType::OSS(_) => self.oss,
            CacheType::COS(_) => self.cos,
        }
    }
}

} // verus!
