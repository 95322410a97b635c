//! The choice of a storage from the configuration.
use crate::config::{
    mode_of, CacheModeConfig, CacheType, Config, Features, RedisCacheConfig, DEFAULT_REDIS_DB,
};
use crate::error::{CauseView, ErrorChain};
use crate::remote::{is_write_probe, write_request, RemoteStorage};
use crate::storage::CacheMode;
use std::path::PathBuf;
use vstd::prelude::*;

verus! {

/// The operator to build for a remote cache: the service, and the settings that
/// its builder is given.
#[allow(inconsistent_fields)]
#[derive(Debug)]
pub enum BackendRequest<'a> {
    Azure { connection_string: &'a String, container: &'a String, key_prefix: &'a String },
    Gcs {
        bucket: &'a String,
        key_prefix: &'a String,
        cred_path: &'a Option<String>,
        service_account: &'a Option<String>,
        rw_mode: CacheMode,
        credential_url: &'a Option<String>,
    },
    Gha { version: &'a String },
    Memcached {
        url: &'a String,
        username: &'a Option<String>,
        password: &'a Option<String>,
        key_prefix: &'a String,
        expiration: u32,
    },
    RedisSingle {
        endpoint: &'a String,
        username: &'a Option<String>,
        password: &'a Option<String>,
        db: u32,
        key_prefix: &'a String,
        ttl: u64,
    },
    RedisCluster {
        endpoints: &'a String,
        username: &'a Option<String>,
        password: &'a Option<String>,
        db: u32,
        key_prefix: &'a String,
        ttl: u64,
    },
    RedisUrl { url: &'a String, key_prefix: &'a String, ttl: u64 },
    S3 {
        bucket: &'a String,
        key_prefix: &'a String,
        no_credentials: bool,
        region: &'a Option<String>,
        endpoint: &'a Option<String>,
        use_ssl: Option<bool>,
        server_side_encryption: Option<bool>,
        enable_virtual_host_style: Option<bool>,
    },
    Webdav {
        endpoint: &'a String,
        key_prefix: &'a String,
        username: &'a Option<String>,
        password: &'a Option<String>,
        token: &'a Option<String>,
    },
    Oss {
        bucket: &'a String,
        key_prefix: &'a String,
        endpoint: &'a Option<String>,
        no_credentials: bool,
    },
    Cos { bucket: &'a String, key_prefix: &'a String, endpoint: &'a Option<String> },
}

/// A remote cache to build: its operator, the base directories and the mode of
/// the storage on top of it.
#[derive(Debug)]
pub struct SingleCache<'a> {
    pub request: BackendRequest<'a>,
    pub basedirs: &'a [Vec<u8>],
    pub rw_mode: CacheMode,
}

/// The storage that a configuration asks for. `M` is a storage of several
/// levels.
#[derive(Debug)]
pub enum StorageChoice<'a, M, P> {
    /// This storage of several levels.
    MultiLevel(M),
    /// A storage on a remote cache.
    Single(SingleCache<'a>),
    /// A storage on the local disk.
    Disk {
        dir: &'a PathBuf,
        size: u64,
        preprocessor_cache_mode: &'a P,
        rw_mode: CacheMode,
        basedirs: &'a [Vec<u8>],
    },
}

/// What is said where a Redis cache is configured by a deprecated URL together
/// with settings that the URL overrides.
pub open spec fn redis_url_conflict() -> Seq<char> {
    "`username`, `password` and `db` has no effect when `url` is set. Please use `endpoint` or `cluster_endpoints` for new API accessing"@
}

/// The operator that a Redis cache asks for. Exactly one of a single endpoint,
/// the endpoints of a cluster and a deprecated URL has to be configured, and a
/// URL goes with neither credentials nor a database.
pub open spec fn redis_request(config: RedisCacheConfig) -> Result<
    BackendRequest<'static>,
    Seq<char>,
> {
    match (config.endpoint, config.cluster_endpoints, config.url) {
        (Some(endpoint), None, None) => Ok(
            BackendRequest::RedisSingle {
                endpoint: &endpoint,
                username: &config.username,
                password: &config.password,
                db: config.db,
                key_prefix: &config.key_prefix,
                ttl: config.ttl,
            },
        ),
        (None, Some(endpoints), None) => Ok(
            BackendRequest::RedisCluster {
                endpoints: &endpoints,
                username: &config.username,
                password: &config.password,
                db: config.db,
                key_prefix: &config.key_prefix,
                ttl: config.ttl,
            },
        ),
        (None, None, Some(url)) => if config.username is Some || config.password is Some || config.db
            != DEFAULT_REDIS_DB {
            Err(redis_url_conflict())
        } else {
            Ok(
                BackendRequest::RedisUrl {
                    url: &url,
                    key_prefix: &config.key_prefix,
                    ttl: config.ttl,
                },
            )
        },
        _ => Err("Only one of `endpoint`, `cluster_endpoints`, `url` must be set"@),
    }
}

/// The operator that a remote cache asks for.
pub open spec fn backend_request(cache_type: CacheType) -> Result<
    BackendRequest<'static>,
    Seq<char>,
> {
    match cache_type {
        CacheType::Azure(c) => Ok(
            BackendRequest::Azure {
                connection_string: &c.connection_string,
                container: &c.container,
                key_prefix: &c.key_prefix,
            },
        ),
        CacheType::GCS(c) => Ok(
            BackendRequest::Gcs {
                bucket: &c.bucket,
                key_prefix: &c.key_prefix,
                cred_path: &c.cred_path,
                service_account: &c.service_account,
                rw_mode: mode_of(c.rw_mode),
                credential_url: &c.credential_url,
            },
        ),
        CacheType::GHA(c) => Ok(BackendRequest::Gha { version: &c.version }),
        CacheType::Memcached(c) => Ok(
            BackendRequest::Memcached {
                url: &c.url,
                username: &c.username,
                password: &c.password,
                key_prefix: &c.key_prefix,
                expiration: c.expiration,
            },
        ),
        CacheType::Redis(c) => redis_request(c),
        CacheType::S3(c) => Ok(
            BackendRequest::S3 {
                bucket: &c.bucket,
                key_prefix: &c.key_prefix,
                no_credentials: c.no_credentials,
                region: &c.region,
                endpoint: &c.endpoint,
                use_ssl: c.use_ssl,
                server_side_encryption: c.server_side_encryption,
                enable_virtual_host_style: c.enable_virtual_host_style,
            },
        ),
        CacheType::Webdav(c) => Ok(
            BackendRequest::Webdav {
                endpoint: &c.endpoint,
                key_prefix: &c.key_prefix,
                username: &c.username,
                password: &c.password,
                token: &c.token,
            },
        ),
        CacheType::OSS(c) => Ok(
            BackendRequest::Oss {
                bucket: &c.bucket,
                key_prefix: &c.key_prefix,
                endpoint: &c.endpoint,
                no_credentials: c.no_credentials,
            },
        ),
        CacheType::COS(c) => Ok(
            BackendRequest::Cos {
                bucket: &c.bucket,
                key_prefix: &c.key_prefix,
                endpoint: &c.endpoint,
            },
        ),
    }
}

/// The mode that a remote cache is configured for.
pub open spec fn configured_mode(cache_type: CacheType) -> CacheMode {
    match cache_type {
        CacheType::Azure(c) => mode_of(c.rw_mode),
        CacheType::GCS(c) => mode_of(c.rw_mode),
        CacheType::GHA(c) => mode_of(c.rw_mode),
        CacheType::Memcached(c) => mode_of(c.rw_mode),
        CacheType::Redis(c) => mode_of(c.rw_mode),
        CacheType::S3(c) => mode_of(c.rw_mode),
        CacheType::Webdav(c) => mode_of(c.rw_mode),
        CacheType::OSS(c) => mode_of(c.rw_mode),
        CacheType::COS(c) => mode_of(c.rw_mode),
    }
}

/// The operator to build for a remote cache and the mode of the storage on top
/// of it, or what is said against it.
pub open spec fn single_cache(cache_type: CacheType, features: Features) -> Result<
    (BackendRequest<'static>, CacheMode),
    Seq<char>,
> {
    if !features.spec_supports(cache_type) {
        Err("Cache type not supported with current feature configuration"@)
    } else {
        match backend_request(cache_type) {
            Ok(request) => Ok((request, configured_mode(cache_type))),
            Err(text) => Err(text),
        }
    }
}

/// The name of a service in messages about it.
pub open spec fn backend_label(request: BackendRequest) -> Seq<char> {
    match request {
        BackendRequest::Azure { .. } => "azure"@,
        BackendRequest::Gcs { .. } => "gcs"@,
        BackendRequest::Gha { .. } => "gha"@,
        BackendRequest::Memcached { .. } => "memcached"@,
        BackendRequest::RedisSingle { .. } => "redis"@,
        BackendRequest::RedisCluster { .. } => "redis"@,
        BackendRequest::RedisUrl { .. } => "redis"@,
        BackendRequest::S3 { .. } => "s3"@,
        BackendRequest::Webdav { .. } => "webdav"@,
        BackendRequest::Oss { .. } => "oss"@,
        BackendRequest::Cos { .. } => "cos"@,
    }
}

/// The contents of byte strings.
pub open spec fn byte_strings(strings: Seq<Vec<u8>>) -> Seq<Seq<u8>> {
    strings.map_values(|string: Vec<u8>| string@)
}

fn redis_backend(config: &RedisCacheConfig) -> (request: Result<BackendRequest<'_>, ErrorChain>)
    ensures
        match redis_request(*config) {
            Ok(wanted) => request == Ok::<BackendRequest, ErrorChain>(wanted),
            Err(text) => request is Err && request->Err_0@ == seq![CauseView::Other(text)],
        },
{
    match (&config.endpoint, &config.cluster_endpoints, &config.url) {
        (Some(endpoint), None, None) => Ok(
            BackendRequest::RedisSingle {
                endpoint,
                username: &config.username,
                password: &config.password,
                db: config.db,
                key_prefix: &config.key_prefix,
                ttl: config.ttl,
            },
        ),
        (None, Some(endpoints), None) => Ok(
            BackendRequest::RedisCluster {
                endpoints,
                username: &config.username,
                password: &config.password,
                db: config.db,
                key_prefix: &config.key_prefix,
                ttl: config.ttl,
            },
        ),
        (None, None, Some(url)) => {
            if config.username.is_some() || config.password.is_some() || config.db
                != DEFAULT_REDIS_DB {
                return Err(
                    ErrorChain::message(
                        "`username`, `password` and `db` has no effect when `url` is set. Please use `endpoint` or `cluster_endpoints` for new API accessing",
                    ),
                );
            }
            Ok(BackendRequest::RedisUrl { url, key_prefix: &config.key_prefix, ttl: config.ttl })
        },
        _ => Err(
            ErrorChain::message("Only one of `endpoint`, `cluster_endpoints`, `url` must be set"),
        ),
    }
}

/// Build a single cache storage from CacheType: which operator to build, and
/// what storage to put on top of it.
///
/// [`SingleCache::finish`] does the rest, once the operator has been built.
pub fn build_single_cache<'a>(
    cache_type: &'a CacheType,
    basedirs: &'a [Vec<u8>],
    features: &Features,
) -> (cache: Result<SingleCache<'a>, ErrorChain>)
    ensures
        match single_cache(*cache_type, *features) {
            Ok((request, rw_mode)) => cache == Ok::<SingleCache, ErrorChain>(
                SingleCache { request, basedirs, rw_mode },
            ),
            Err(text) => cache is Err && cache->Err_0@ == seq![CauseView::Other(text)],
        },
{
    if !features.supports(cache_type) {
        return Err(
            ErrorChain::message("Cache type not supported with current feature configuration"),
        );
    }
    match cache_type {
        CacheType::Azure(c) => {
            let request = BackendRequest::Azure {
                connection_string: &c.connection_string,
                container: &c.container,
                key_prefix: &c.key_prefix,
            };
            Ok(SingleCache { request, basedirs, rw_mode: CacheMode::from(c.rw_mode) })
        },
        CacheType::GCS(c) => {
            let request = BackendRequest::Gcs {
                bucket: &c.bucket,
                key_prefix: &c.key_prefix,
                cred_path: &c.cred_path,
                service_account: &c.service_account,
                rw_mode: CacheMode::from(c.rw_mode),
                credential_url: &c.credential_url,
            };
            Ok(SingleCache { request, basedirs, rw_mode: CacheMode::from(c.rw_mode) })
        },
        CacheType::GHA(c) => {
            let request = BackendRequest::Gha { version: &c.version };
            Ok(SingleCache { request, basedirs, rw_mode: CacheMode::from(c.rw_mode) })
        },
        CacheType::Memcached(c) => {
            let request = BackendRequest::Memcached {
                url: &c.url,
                username: &c.username,
                password: &c.password,
                key_prefix: &c.key_prefix,
                expiration: c.expiration,
            };
            Ok(SingleCache { request, basedirs, rw_mode: CacheMode::from(c.rw_mode) })
        },
        CacheType::Redis(c) => match redis_backend(c) {
            Ok(request) => Ok(
                SingleCache { request, basedirs, rw_mode: CacheMode::from(c.rw_mode) },
            ),
            Err(error) => Err(error),
        },
        CacheType::S3(c) => {
            let request = BackendRequest::S3 {
                bucket: &c.bucket,
                key_prefix: &c.key_prefix,
                no_credentials: c.no_credentials,
                region: &c.region,
                endpoint: &c.endpoint,
                use_ssl: c.use_ssl,
                server_side_encryption: c.server_side_encryption,
                enable_virtual_host_style: c.enable_virtual_host_style,
            };
            Ok(SingleCache { request, basedirs, rw_mode: CacheMode::from(c.rw_mode) })
        },
        CacheType::Webdav(c) => {
            let request = BackendRequest::Webdav {
                endpoint: &c.endpoint,
                key_prefix: &c.key_prefix,
                username: &c.username,
                password: &c.password,
                token: &c.token,
            };
            Ok(SingleCache { request, basedirs, rw_mode: CacheMode::from(c.rw_mode) })
        },
        CacheType::OSS(c) => {
            let request = BackendRequest::Oss {
                bucket: &c.bucket,
                key_prefix: &c.key_prefix,
                endpoint: &c.endpoint,
                no_credentials: c.no_credentials,
            };
            Ok(SingleCache { request, basedirs, rw_mode: CacheMode::from(c.rw_mode) })
        },
        CacheType::COS(c) => {
            let request = BackendRequest::Cos {
                bucket: &c.bucket,
                key_prefix: &c.key_prefix,
                endpoint: &c.endpoint,
            };
            Ok(SingleCache { request, basedirs, rw_mode: CacheMode::from(c.rw_mode) })
        },
    }
}

/// Copy byte strings.
fn copy_strings(strings: &[Vec<u8>]) -> (copies: Vec<Vec<u8>>)
    ensures
        byte_strings(copies@) == byte_strings(strings@),
{
    let mut copies: Vec<Vec<u8>> = Vec::new();
    let mut next: usize = 0;
    while next < strings.len()
        invariant
            next <= strings@.len(),
            copies@.len() == next,
            forall|i: int| 0 <= i < next ==> (#[trigger] copies@[i])@ == strings@[i]@,
        decreases strings@.len() - next,
    {
        let mut copy: Vec<u8> = Vec::new();
        copy.extend_from_slice(strings[next].as_slice());
        assert(copy@ =~= strings@[next as int]@);
        copies.push(copy);
        next += 1;
    }
    assert(byte_strings(copies@) =~= byte_strings(strings@));
    copies
}

impl<'a> SingleCache<'a> {
    /// The name of the service in messages about it.
    pub fn label(&self) -> (label: &'static str)
        ensures
            label@ == backend_label(self.request),
    {
        match &self.request {
            BackendRequest::Azure { .. } => "azure",
            BackendRequest::Gcs { .. } => "gcs",
            BackendRequest::Gha { .. } => "gha",
            BackendRequest::Memcached { .. } => "memcached",
            BackendRequest::RedisSingle { .. } => "redis",
            BackendRequest::RedisCluster { .. } => "redis",
            BackendRequest::RedisUrl { .. } => "redis",
            BackendRequest::S3 { .. } => "s3",
            BackendRequest::Webdav { .. } => "webdav",
            BackendRequest::Oss { .. } => "oss",
            BackendRequest::Cos { .. } => "cos",
        }
    }

    /// The storage on top of the operator that was built, or the error where it
    /// could not be built, from what the builder said.
    pub fn finish(self, built: Result<opendal::Operator, String>) -> (storage: Result<
        RemoteStorage,
        ErrorChain,
    >)
        ensures
            match built {
                Ok(operator) => storage matches Ok(storage) && {
                    &&& storage.spec_operator() == operator
                    &&& byte_strings(storage.dirs()) == byte_strings(self.basedirs@)
                    &&& storage.mode() == self.rw_mode
                    &&& is_write_probe(storage.probe())
                },
                Err(text) => storage is Err && storage->Err_0@ == seq![
                    CauseView::Other(
                        "create "@ + backend_label(self.request) + " cache failed: "@ + text@,
                    ),
                ],
            },
    {
        match built {
            Ok(operator) => Ok(
                RemoteStorage::new(operator, copy_strings(self.basedirs), self.rw_mode),
            ),
            Err(text) => {
                let mut message = String::new();
                message.append("create ");
                message.append(self.label());
                message.append(" cache failed: ");
                message.append(text.as_str());
                assert(message@ =~= "create "@ + backend_label(self.request) + " cache failed: "@
                    + text@);
                Err(ErrorChain::message(message.as_str()))
            },
        }
    }
}

/// Get a suitable `Storage` implementation from configuration.
/// Supports both single-cache (backward compatible) and multi-level cache
/// configurations; `multilevel` is what looking for the latter came to.
pub fn storage_from_config<'a, M, P>(
    config: &'a Config<P>,
    multilevel: Result<Option<M>, ErrorChain>,
    features: &Features,
) -> (choice: Result<StorageChoice<'a, M, P>, ErrorChain>)
    ensures
        match multilevel {
            Err(error) => choice == Err::<StorageChoice<M, P>, ErrorChain>(error),
            Ok(Some(storage)) => choice == Ok::<StorageChoice<M, P>, ErrorChain>(
                StorageChoice::MultiLevel(storage),
            ),
            Ok(None) => if config.cache is Some && features.some_supported() {
                match single_cache(config.cache->Some_0, *features) {
                    Ok((request, rw_mode)) => choice matches Ok(StorageChoice::Single(cache)) && {
                        &&& cache.request == request
                        &&& cache.rw_mode == rw_mode
                        &&& cache.basedirs@ == config.basedirs@
                    },
                    Err(text) => choice is Err && choice->Err_0@ == seq![CauseView::Other(text)],
                }
            } else {
                choice matches Ok(
                    StorageChoice::Disk { dir, size, preprocessor_cache_mode, rw_mode, basedirs },
                ) && {
                    &&& *dir == config.fallback_cache.dir
                    &&& size == config.fallback_cache.size
                    &&& *preprocessor_cache_mode == config.fallback_cache.preprocessor_cache_mode
                    &&& rw_mode == mode_of(config.fallback_cache.rw_mode)
                    &&& basedirs@ == config.basedirs@
                }
            },
        },
        // The disk may be written to exactly where that is configured.
        choice matches Ok(StorageChoice::Disk { rw_mode, .. }) ==> (rw_mode == CacheMode::ReadWrite
            <==> config.fallback_cache.rw_mode == CacheModeConfig::ReadWrite),
        // A remote cache of a kind that the build supports is never passed over.
        multilevel matches Ok(None) && config.cache matches Some(cache_type)
            && features.spec_supports(cache_type) ==> !(choice matches Ok(StorageChoice::Disk { .. })),
{
    // Check for multi-level cache configuration
    match multilevel {
        Err(error) => return Err(error),
        Ok(Some(storage)) => return Ok(StorageChoice::MultiLevel(storage)),
        Ok(None) => {},
    }
    let basedirs = config.basedirs.as_slice();
    // Single cache or fallback to disk (backward compatible path)
    if features.any() {
        if let Some(cache_type) = &config.cache {
            return match build_single_cache(cache_type, basedirs, features) {
                Ok(cache) => Ok(StorageChoice::Single(cache)),
                Err(error) => Err(error),
            };
        }
    }
    // No remote cache configured - use disk cache only
    Ok(
        StorageChoice::Disk {
            dir: &config.fallback_cache.dir,
            size: config.fallback_cache.size,
            preprocessor_cache_mode: &config.fallback_cache.preprocessor_cache_mode,
            rw_mode: CacheMode::from(config.fallback_cache.rw_mode),
            basedirs,
        },
    )
}

/// A Redis cache can be built only where exactly one of the three ways to reach
/// it is configured. A single endpoint or a cluster is always taken; a
/// deprecated URL only without credentials and with the default database.
pub proof fn law_redis_is_reached_in_one_way(config: RedisCacheConfig)
    ensures
        ({
            let ways = (if config.endpoint is Some { 1int } else { 0 }) + (
            if config.cluster_endpoints is Some { 1int } else { 0 }) + (if config.url is Some {
                1int
            } else {
                0
            });
            redis_request(config) is Ok <==> ways == 1 && (config.url is Some ==> config.username
                is None && config.password is None && config.db == DEFAULT_REDIS_DB)
        }),
{
}

/// A remote cache of a kind that the build does not support is refused, and of
/// the others only a Redis cache can be.
pub proof fn law_supported_caches_are_built(cache_type: CacheType, features: Features)
    ensures
        !features.spec_supports(cache_type) ==> single_cache(cache_type, features) is Err,
        features.spec_supports(cache_type) && !(cache_type is Redis) ==> single_cache(
            cache_type,
            features,
        ) is Ok,
{
}

/// The storage on a remote cache that is configured read-only refuses every
/// write.
pub proof fn law_read_only_config_refuses_writes(
    cache_type: CacheType,
    features: Features,
    path: Seq<char>,
    data: Seq<u8>,
)
    requires
        configured_mode(cache_type) == CacheMode::ReadOnly,
        single_cache(cache_type, features) is Ok,
    ensures
        write_request(single_cache(cache_type, features)->Ok_0.1, path, data) is Err,
{
}

} // verus!
