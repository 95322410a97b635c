use sccache::config::{
    AzureCacheConfig, COSCacheConfig, CacheModeConfig, CacheType, Config, DiskCacheConfig,
    Features, GCSCacheConfig, GHACacheConfig, MemcachedCacheConfig, OSSCacheConfig,
    RedisCacheConfig, S3CacheConfig, WebdavCacheConfig,
};
use sccache::error::ErrorChain;
use sccache::select::{build_single_cache, storage_from_config, BackendRequest, StorageChoice};
use sccache::storage::{CacheMode, Storage};
use std::path::PathBuf;

const ALL: Features = Features {
    azure: true,
    gcs: true,
    gha: true,
    memcached: true,
    redis: true,
    s3: true,
    webdav: true,
    oss: true,
    cos: true,
};

const NONE: Features = Features {
    azure: false,
    gcs: false,
    gha: false,
    memcached: false,
    redis: false,
    s3: false,
    webdav: false,
    oss: false,
    cos: false,
};

fn text(s: &str) -> String {
    s.to_string()
}

fn some(s: &str) -> Option<String> {
    Some(s.to_string())
}

fn redis() -> RedisCacheConfig {
    RedisCacheConfig {
        endpoint: None,
        cluster_endpoints: None,
        username: None,
        password: None,
        db: 0,
        url: None,
        ttl: 7,
        key_prefix: text("prefix"),
        rw_mode: CacheModeConfig::ReadWrite,
    }
}

fn config(cache: Option<CacheType>) -> Config<&'static str> {
    Config {
        cache,
        fallback_cache: DiskCacheConfig {
            dir: PathBuf::from("/cache"),
            size: 42,
            preprocessor_cache_mode: "preprocessor",
            rw_mode: CacheModeConfig::ReadOnly,
        },
        basedirs: vec![b"/work".to_vec()],
    }
}

fn none<M>() -> Result<Option<M>, ErrorChain> {
    Ok(None)
}

/// One cache of every kind, with the name by which errors call it.
fn caches(rw_mode: CacheModeConfig) -> Vec<(CacheType, &'static str)> {
    vec![
        (
            CacheType::Azure(AzureCacheConfig {
                connection_string: text("cs"),
                container: text("c"),
                key_prefix: text("p"),
                rw_mode,
            }),
            "azure",
        ),
        (
            CacheType::GCS(GCSCacheConfig {
                bucket: text("b"),
                key_prefix: text("p"),
                cred_path: some("cp"),
                rw_mode,
                service_account: some("sa"),
                credential_url: some("cu"),
            }),
            "gcs",
        ),
        (
            CacheType::GHA(GHACacheConfig {
                version: text("v"),
                rw_mode,
            }),
            "gha",
        ),
        (
            CacheType::Memcached(MemcachedCacheConfig {
                url: text("u"),
                username: some("n"),
                password: some("pw"),
                expiration: 3,
                key_prefix: text("p"),
                rw_mode,
            }),
            "memcached",
        ),
        (
            CacheType::Redis(RedisCacheConfig {
                endpoint: some("e"),
                rw_mode,
                ..redis()
            }),
            "redis",
        ),
        (
            CacheType::S3(S3CacheConfig {
                bucket: text("b"),
                region: some("r"),
                key_prefix: text("p"),
                no_credentials: true,
                endpoint: some("e"),
                use_ssl: Some(true),
                server_side_encryption: Some(false),
                enable_virtual_host_style: None,
                rw_mode,
            }),
            "s3",
        ),
        (
            CacheType::Webdav(WebdavCacheConfig {
                endpoint: text("e"),
                key_prefix: text("p"),
                username: some("n"),
                password: some("pw"),
                token: some("t"),
                rw_mode,
            }),
            "webdav",
        ),
        (
            CacheType::OSS(OSSCacheConfig {
                bucket: text("b"),
                key_prefix: text("p"),
                endpoint: some("e"),
                no_credentials: true,
                rw_mode,
            }),
            "oss",
        ),
        (
            CacheType::COS(COSCacheConfig {
                bucket: text("b"),
                key_prefix: text("p"),
                endpoint: some("e"),
                rw_mode,
            }),
            "cos",
        ),
    ]
}

#[test]
fn every_kind_asks_for_its_own_operator() {
    let dirs = vec![b"/d".to_vec()];
    let caches = caches(CacheModeConfig::ReadOnly);
    for (cache_type, label) in &caches {
        let cache = build_single_cache(cache_type, &dirs, &ALL).unwrap();
        assert_eq!(cache.label(), *label);
        assert_eq!(cache.rw_mode, CacheMode::ReadOnly);
        assert_eq!(cache.basedirs, dirs.as_slice());
        let right = match (&cache.request, cache_type) {
            (
                BackendRequest::Azure {
                    connection_string,
                    container,
                    key_prefix,
                },
                CacheType::Azure(_),
            ) => *connection_string == "cs" && *container == "c" && *key_prefix == "p",
            (
                BackendRequest::Gcs {
                    bucket,
                    key_prefix,
                    cred_path,
                    service_account,
                    rw_mode,
                    credential_url,
                },
                CacheType::GCS(_),
            ) => {
                *bucket == "b"
                    && *key_prefix == "p"
                    && **cred_path == some("cp")
                    && **service_account == some("sa")
                    && *rw_mode == CacheMode::ReadOnly
                    && **credential_url == some("cu")
            }
            (BackendRequest::Gha { version }, CacheType::GHA(_)) => *version == "v",
            (
                BackendRequest::Memcached {
                    url,
                    username,
                    password,
                    key_prefix,
                    expiration,
                },
                CacheType::Memcached(_),
            ) => {
                *url == "u"
                    && **username == some("n")
                    && **password == some("pw")
                    && *key_prefix == "p"
                    && *expiration == 3
            }
            (
                BackendRequest::RedisSingle {
                    endpoint,
                    username,
                    password,
                    db,
                    key_prefix,
                    ttl,
                },
                CacheType::Redis(_),
            ) => {
                *endpoint == "e"
                    && username.is_none()
                    && password.is_none()
                    && *db == 0
                    && *key_prefix == "prefix"
                    && *ttl == 7
            }
            (
                BackendRequest::S3 {
                    bucket,
                    key_prefix,
                    no_credentials,
                    region,
                    endpoint,
                    use_ssl,
                    server_side_encryption,
                    enable_virtual_host_style,
                },
                CacheType::S3(_),
            ) => {
                *bucket == "b"
                    && *key_prefix == "p"
                    && *no_credentials
                    && **region == some("r")
                    && **endpoint == some("e")
                    && *use_ssl == Some(true)
                    && *server_side_encryption == Some(false)
                    && enable_virtual_host_style.is_none()
            }
            (
                BackendRequest::Webdav {
                    endpoint,
                    key_prefix,
                    username,
                    password,
                    token,
                },
                CacheType::Webdav(_),
            ) => {
                *endpoint == "e"
                    && *key_prefix == "p"
                    && **username == some("n")
                    && **password == some("pw")
                    && **token == some("t")
            }
            (
                BackendRequest::Oss {
                    bucket,
                    key_prefix,
                    endpoint,
                    no_credentials,
                },
                CacheType::OSS(_),
            ) => {
                *bucket == "b" && *key_prefix == "p" && **endpoint == some("e") && *no_credentials
            }
            (
                BackendRequest::Cos {
                    bucket,
                    key_prefix,
                    endpoint,
                },
                CacheType::COS(_),
            ) => *bucket == "b" && *key_prefix == "p" && **endpoint == some("e"),
            _ => false,
        };
        assert!(right, "{label}: {:?}", cache.request);
    }
}

#[test]
fn unsupported_kinds_are_refused() {
    for (cache_type, _) in &caches(CacheModeConfig::ReadWrite) {
        let error = build_single_cache(cache_type, &[], &NONE).unwrap_err();
        assert_eq!(
            error.to_text(),
            "Cache type not supported with current feature configuration"
        );
    }
    assert!(!NONE.any());
    assert!(Features { oss: true, ..NONE }.any());
}

#[test]
fn redis_is_reached_by_endpoint_cluster_or_url() {
    let cluster = CacheType::Redis(RedisCacheConfig {
        cluster_endpoints: some("a,b"),
        username: some("n"),
        password: some("pw"),
        db: 4,
        ..redis()
    });
    let cache = build_single_cache(&cluster, &[], &ALL).unwrap();
    match cache.request {
        BackendRequest::RedisCluster {
            endpoints,
            username,
            password,
            db,
            key_prefix,
            ttl,
        } => {
            assert_eq!(endpoints, "a,b");
            assert_eq!(*username, some("n"));
            assert_eq!(*password, some("pw"));
            assert_eq!((db, key_prefix.as_str(), ttl), (4, "prefix", 7));
        }
        other => panic!("expected a cluster, got {other:?}"),
    }

    let url = CacheType::Redis(RedisCacheConfig {
        url: some("redis://u"),
        ..redis()
    });
    let cache = build_single_cache(&url, &[], &ALL).unwrap();
    assert_eq!(cache.label(), "redis");
    match cache.request {
        BackendRequest::RedisUrl {
            url,
            key_prefix,
            ttl,
        } => assert_eq!((url.as_str(), key_prefix.as_str(), ttl), ("redis://u", "prefix", 7)),
        other => panic!("expected a URL, got {other:?}"),
    }
}

#[test]
fn redis_url_goes_with_no_other_settings() {
    let base = || RedisCacheConfig {
        url: some("redis://u"),
        ..redis()
    };
    let conflicting = [
        RedisCacheConfig { username: some("n"), ..base() },
        RedisCacheConfig { password: some("pw"), ..base() },
        RedisCacheConfig { db: 1, ..base() },
    ];
    for config in conflicting {
        let error = build_single_cache(&CacheType::Redis(config), &[], &ALL).unwrap_err();
        assert_eq!(
            error.to_text(),
            "`username`, `password` and `db` has no effect when `url` is set. Please use `endpoint` or `cluster_endpoints` for new API accessing"
        );
    }
}

#[test]
fn redis_is_reached_in_one_way_only() {
    let ambiguous = [
        redis(),
        RedisCacheConfig { endpoint: some("e"), url: some("u"), ..redis() },
        RedisCacheConfig { endpoint: some("e"), cluster_endpoints: some("c"), ..redis() },
        RedisCacheConfig { cluster_endpoints: some("c"), url: some("u"), ..redis() },
    ];
    for config in ambiguous {
        let error = build_single_cache(&CacheType::Redis(config), &[], &ALL).unwrap_err();
        assert_eq!(
            error.to_text(),
            "Only one of `endpoint`, `cluster_endpoints`, `url` must be set"
        );
    }
}

#[test]
fn a_failed_build_names_the_service() {
    for (cache_type, label) in &caches(CacheModeConfig::ReadWrite) {
        let cache = build_single_cache(cache_type, &[], &ALL).unwrap();
        let error = match cache.finish(Err(text("ConfigInvalid"))) {
            Ok(_) => panic!("expected an error"),
            Err(error) => error,
        };
        assert_eq!(
            error.to_text(),
            format!("create {label} cache failed: ConfigInvalid")
        );
    }
}

#[test]
fn a_built_operator_becomes_a_storage() {
    let operator = opendal::Operator::new(opendal::services::Memory::default())
        .unwrap()
        .finish();
    let dirs = vec![b"/a".to_vec(), b"".to_vec()];
    let (cache_type, _) = &caches(CacheModeConfig::ReadOnly)[0];
    let cache = build_single_cache(cache_type, &dirs, &ALL).unwrap();
    let storage = match cache.finish(Ok(operator)) {
        Ok(storage) => storage,
        Err(error) => panic!("{}", error.to_text()),
    };
    assert_eq!(storage.basedirs(), dirs.as_slice());
    assert_eq!(storage.cache_type_name(), "memory");
    assert_eq!(
        storage.put(text("k"), Ok(vec![])).unwrap_err().to_text(),
        "storage is read-only"
    );
}

#[test]
fn several_levels_come_first() {
    let config = config(caches(CacheModeConfig::ReadWrite).pop().map(|(cache, _)| cache));
    match storage_from_config(&config, Ok(Some("levels")), &ALL).unwrap() {
        StorageChoice::MultiLevel(storage) => assert_eq!(storage, "levels"),
        other => panic!("expected several levels, got {other:?}"),
    }
    let error =
        storage_from_config::<(), _>(&config, Err(ErrorChain::message("bad levels")), &ALL)
            .unwrap_err();
    assert_eq!(error.to_text(), "bad levels");
}

#[test]
fn a_configured_remote_cache_comes_second() {
    let config = config(Some(CacheType::GHA(GHACacheConfig {
        version: text("v"),
        rw_mode: CacheModeConfig::ReadWrite,
    })));
    match storage_from_config::<(), _>(&config, none(), &ALL).unwrap() {
        StorageChoice::Single(cache) => {
            assert_eq!(cache.label(), "gha");
            assert_eq!(cache.rw_mode, CacheMode::ReadWrite);
            assert_eq!(cache.basedirs, [b"/work".to_vec()]);
        }
        other => panic!("expected a remote cache, got {other:?}"),
    }
    let unsupported = Features { gha: false, ..ALL };
    assert_eq!(
        storage_from_config::<(), _>(&config, none(), &unsupported)
            .unwrap_err()
            .to_text(),
        "Cache type not supported with current feature configuration"
    );
}

#[test]
fn the_disk_is_the_fallback_and_keeps_its_mode() {
    let remote = Some(CacheType::GHA(GHACacheConfig {
        version: text("v"),
        rw_mode: CacheModeConfig::ReadWrite,
    }));
    for (cache, features) in [(None, ALL), (remote, NONE)] {
        let mut config = config(cache);
        for (rw_mode, mode) in [
            (CacheModeConfig::ReadOnly, CacheMode::ReadOnly),
            (CacheModeConfig::ReadWrite, CacheMode::ReadWrite),
        ] {
            config.fallback_cache.rw_mode = rw_mode;
            match storage_from_config::<(), _>(&config, none(), &features).unwrap() {
                StorageChoice::Disk {
                    dir,
                    size,
                    preprocessor_cache_mode,
                    rw_mode,
                    basedirs,
                } => {
                    assert_eq!(dir, &PathBuf::from("/cache"));
                    assert_eq!(size, 42);
                    assert_eq!(*preprocessor_cache_mode, "preprocessor");
                    assert_eq!(rw_mode, mode);
                    assert_eq!(basedirs, [b"/work".to_vec()]);
                }
                other => panic!("expected the disk, got {other:?}"),
            }
        }
    }
}
