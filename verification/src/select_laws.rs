//! What holds of the choice of a storage, whatever the configuration.
use crate::config::{
    mode_of, CacheModeConfig, CacheType, Features, RedisCacheConfig, DEFAULT_REDIS_DB,
};
use crate::remote::write_request;
use crate::select::{backend_label, byte_strings, redis_request, single_cache, BackendRequest};
use crate::storage::CacheMode;
use vstd::prelude::*;

verus! {

/// A configured mode is neither widened nor narrowed: writing is allowed exactly
/// where it was configured.
pub proof fn law_modes_are_kept(config: CacheModeConfig)
    ensures
        mode_of(config) == CacheMode::ReadWrite <==> config == CacheModeConfig::ReadWrite,
        mode_of(config) == CacheMode::ReadOnly <==> config == CacheModeConfig::ReadOnly,
{
}

/// A build that supports the kind of some remote cache does not pass over remote
/// caches, and one that supports no kind does.
pub proof fn law_supported_kinds_count(features: Features)
    ensures
        forall|cache_type: CacheType| #[trigger]
            features.spec_supports(cache_type) ==> features.some_supported(),
        (forall|cache_type: CacheType| !(#[trigger] features.spec_supports(cache_type)))
            ==> !features.some_supported(),
{
    if forall|cache_type: CacheType| !(#[trigger] features.spec_supports(cache_type)) {
        assert(!features.spec_supports(CacheType::Azure(arbitrary())));
        assert(!features.spec_supports(CacheType::GCS(arbitrary())));
        assert(!features.spec_supports(CacheType::GHA(arbitrary())));
        assert(!features.spec_supports(CacheType::Memcached(arbitrary())));
        assert(!features.spec_supports(CacheType::Redis(arbitrary())));
        assert(!features.spec_supports(CacheType::S3(arbitrary())));
        assert(!features.spec_supports(CacheType::Webdav(arbitrary())));
        assert(!features.spec_supports(CacheType::OSS(arbitrary())));
        assert(!features.spec_supports(CacheType::COS(arbitrary())));
    }
}

/// To support a kind of cache is a matter of its own flag alone: switching that
/// flag switches the support, and no other flag and no setting has a say in it.
pub proof fn law_each_kind_has_its_flag(
    left: Features,
    right: Features,
    cache_type: CacheType,
    other: CacheType,
)
    requires
        match cache_type {
            CacheType::Azure(_) => left.azure && !right.azure && other is Azure,
            CacheType::GCS(_) => left.gcs && !right.gcs && other is GCS,
            CacheType::GHA(_) => left.gha && !right.gha && other is GHA,
            CacheType::Memcached(_) => left.memcached && !right.memcached && other is Memcached,
            CacheType::Redis(_) => left.redis && !right.redis && other is Redis,
            CacheType::S3(_) => left.s3 && !right.s3 && other is S3,
            CacheType::Webdav(_) => left.webdav && !right.webdav && other is Webdav,
            CacheType::OSS(_) => left.oss && !right.oss && other is OSS,
            CacheType::COS(_) => left.cos && !right.cos && other is COS,
        },
    ensures
        left.spec_supports(cache_type),
        left.spec_supports(other),
        !right.spec_supports(cache_type),
        !right.spec_supports(other),
        left.some_supported(),
        single_cache(cache_type, right) == Err::<(BackendRequest<'static>, CacheMode), Seq<char>>(
            "Cache type not supported with current feature configuration"@,
        ),
{
}

/// A remote cache that is configured read-write can be written to, and one that
/// is configured read-only cannot, whatever its kind.
pub proof fn law_caches_keep_their_configured_mode(
    cache_type: CacheType,
    rw_mode: CacheModeConfig,
    features: Features,
    request: BackendRequest<'static>,
    mode: CacheMode,
    path: Seq<char>,
    data: Seq<u8>,
)
    requires
        match cache_type {
            CacheType::Azure(c) => rw_mode == c.rw_mode,
            CacheType::GCS(c) => rw_mode == c.rw_mode,
            CacheType::GHA(c) => rw_mode == c.rw_mode,
            CacheType::Memcached(c) => rw_mode == c.rw_mode,
            CacheType::Redis(c) => rw_mode == c.rw_mode,
            CacheType::S3(c) => rw_mode == c.rw_mode,
            CacheType::Webdav(c) => rw_mode == c.rw_mode,
            CacheType::OSS(c) => rw_mode == c.rw_mode,
            CacheType::COS(c) => rw_mode == c.rw_mode,
        },
        single_cache(cache_type, features) == Ok::<_, Seq<char>>((request, mode)),
    ensures
        rw_mode == CacheModeConfig::ReadWrite ==> mode == CacheMode::ReadWrite && write_request(
            mode,
            path,
            data,
        ) is Ok,
        rw_mode == CacheModeConfig::ReadOnly ==> mode == CacheMode::ReadOnly && write_request(
            mode,
            path,
            data,
        ) is Err,
        request matches BackendRequest::Gcs { rw_mode: told, .. } ==> told == mode,
{
}

/// Nothing that is configured of a remote cache is lost on the way to its
/// builder: two configurations that differ in any setting, or in their kind, or
/// in their mode, never come to the same.
pub proof fn law_no_setting_is_lost(left: CacheType, right: CacheType, features: Features)
    requires
        single_cache(left, features) is Ok,
        single_cache(left, features) == single_cache(right, features),
    ensures
        left == right,
{
}

/// The builder of a service is given each setting as the one that it was
/// configured as.
pub proof fn law_settings_keep_their_meaning(
    cache_type: CacheType,
    features: Features,
    request: BackendRequest<'static>,
    mode: CacheMode,
)
    requires
        single_cache(cache_type, features) == Ok::<_, Seq<char>>((request, mode)),
    ensures
        cache_type matches CacheType::Azure(c) ==> {
            &&& request matches BackendRequest::Azure { connection_string, container, key_prefix }
            &&& *connection_string == c.connection_string
            &&& *container == c.container
            &&& *key_prefix == c.key_prefix
        },
        cache_type matches CacheType::GCS(c) ==> {
            &&& request matches BackendRequest::Gcs {
                bucket,
                key_prefix,
                cred_path,
                service_account,
                rw_mode,
                credential_url,
            }
            &&& *bucket == c.bucket
            &&& *key_prefix == c.key_prefix
            &&& *cred_path == c.cred_path
            &&& *service_account == c.service_account
            &&& rw_mode == CacheMode::ReadWrite <==> c.rw_mode == CacheModeConfig::ReadWrite
            &&& *credential_url == c.credential_url
        },
        cache_type matches CacheType::GHA(c) ==> {
            &&& request matches BackendRequest::Gha { version }
            &&& *version == c.version
        },
        cache_type matches CacheType::Memcached(c) ==> {
            &&& request matches BackendRequest::Memcached {
                url,
                username,
                password,
                key_prefix,
                expiration,
            }
            &&& *url == c.url
            &&& *username == c.username
            &&& *password == c.password
            &&& *key_prefix == c.key_prefix
            &&& expiration == c.expiration
        },
        cache_type matches CacheType::S3(c) ==> {
            &&& request matches BackendRequest::S3 {
                bucket,
                key_prefix,
                no_credentials,
                region,
                endpoint,
                use_ssl,
                server_side_encryption,
                enable_virtual_host_style,
            }
            &&& *bucket == c.bucket
            &&& *key_prefix == c.key_prefix
            &&& no_credentials == c.no_credentials
            &&& *region == c.region
            &&& *endpoint == c.endpoint
            &&& use_ssl == c.use_ssl
            &&& server_side_encryption == c.server_side_encryption
            &&& enable_virtual_host_style == c.enable_virtual_host_style
        },
        cache_type matches CacheType::Webdav(c) ==> {
            &&& request matches BackendRequest::Webdav {
                endpoint,
                key_prefix,
                username,
                password,
                token,
            }
            &&& *endpoint == c.endpoint
            &&& *key_prefix == c.key_prefix
            &&& *username == c.username
            &&& *password == c.password
            &&& *token == c.token
        },
        cache_type matches CacheType::OSS(c) ==> {
            &&& request matches BackendRequest::Oss { bucket, key_prefix, endpoint, no_credentials }
            &&& *bucket == c.bucket
            &&& *key_prefix == c.key_prefix
            &&& *endpoint == c.endpoint
            &&& no_credentials == c.no_credentials
        },
        cache_type matches CacheType::COS(c) ==> {
            &&& request matches BackendRequest::Cos { bucket, key_prefix, endpoint }
            &&& *bucket == c.bucket
            &&& *key_prefix == c.key_prefix
            &&& *endpoint == c.endpoint
        },
{
}

/// A Redis cache is reached in the way that is configured, with the credentials,
/// the database, the prefix and the time to live of the configuration.
pub proof fn law_redis_settings_keep_their_meaning(
    config: RedisCacheConfig,
    features: Features,
    request: BackendRequest<'static>,
    mode: CacheMode,
)
    requires
        single_cache(CacheType::Redis(config), features) == Ok::<_, Seq<char>>((request, mode)),
    ensures
        config.endpoint matches Some(configured) ==> {
            &&& request matches BackendRequest::RedisSingle {
                endpoint,
                username,
                password,
                db,
                key_prefix,
                ttl,
            }
            &&& *endpoint == configured
            &&& *username == config.username
            &&& *password == config.password
            &&& db == config.db
            &&& *key_prefix == config.key_prefix
            &&& ttl == config.ttl
        },
        config.cluster_endpoints matches Some(configured) ==> {
            &&& request matches BackendRequest::RedisCluster {
                endpoints,
                username,
                password,
                db,
                key_prefix,
                ttl,
            }
            &&& *endpoints == configured
            &&& *username == config.username
            &&& *password == config.password
            &&& db == config.db
            &&& *key_prefix == config.key_prefix
            &&& ttl == config.ttl
        },
        config.url matches Some(configured) ==> {
            &&& request matches BackendRequest::RedisUrl { url, key_prefix, ttl }
            &&& *url == configured
            &&& *key_prefix == config.key_prefix
            &&& ttl == config.ttl
        },
        config.endpoint is Some || config.cluster_endpoints is Some || config.url is Some,
{
}

/// Why a Redis cache is refused: for a URL together with what it overrides, or
/// for any other number of ways to reach it than one.
pub proof fn law_redis_refusals(config: RedisCacheConfig, refusal: Seq<char>)
    requires
        redis_request(config) == Err::<BackendRequest<'static>, _>(refusal),
    ensures
        ({
            let overridden = config.username is Some || config.password is Some || config.db
                != DEFAULT_REDIS_DB;
            let only_url = config.url is Some && config.endpoint is None
                && config.cluster_endpoints is None;
            &&& only_url ==> overridden && refusal
                == "`username`, `password` and `db` has no effect when `url` is set. Please use `endpoint` or `cluster_endpoints` for new API accessing"@
            &&& !only_url ==> refusal
                == "Only one of `endpoint`, `cluster_endpoints`, `url` must be set"@
        }),
{
}

/// Messages about a remote cache name the service that was configured.
pub proof fn law_messages_name_the_service(
    cache_type: CacheType,
    features: Features,
    request: BackendRequest<'static>,
    mode: CacheMode,
)
    requires
        single_cache(cache_type, features) == Ok::<_, Seq<char>>((request, mode)),
    ensures
        cache_type is Azure ==> backend_label(request) == "azure"@,
        cache_type is GCS ==> backend_label(request) == "gcs"@,
        cache_type is GHA ==> backend_label(request) == "gha"@,
        cache_type is Memcached ==> backend_label(request) == "memcached"@,
        cache_type is Redis ==> backend_label(request) == "redis"@,
        cache_type is S3 ==> backend_label(request) == "s3"@,
        cache_type is Webdav ==> backend_label(request) == "webdav"@,
        cache_type is OSS ==> backend_label(request) == "oss"@,
        cache_type is COS ==> backend_label(request) == "cos"@,
{
}

/// Storages with the same base directories have as many of them, and byte for
/// byte the same ones in the same places.
pub proof fn law_directories_are_compared_whole(left: Seq<Vec<u8>>, right: Seq<Vec<u8>>)
    ensures
        byte_strings(left) == byte_strings(right) <==> left.len() == right.len() && forall|i: int|
            0 <= i < left.len() ==> (#[trigger] left[i])@ == right[i]@,
{
    let ours = byte_strings(left);
    let theirs = byte_strings(right);
    if ours == theirs {
        assert forall|i: int| 0 <= i < left.len() implies (#[trigger] left[i])@ == right[i]@ by {
            assert(ours[i] == theirs[i]);
        }
    }
    if left.len() == right.len() && forall|i: int|
        0 <= i < left.len() ==> (#[trigger] left[i])@ == right[i]@ {
        assert(ours =~= theirs);
    }
}

} // verus!
