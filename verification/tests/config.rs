//! Configuration: defaults, layers, environment and validation.

use durable_streams::config::error::{ConfigLoadError, ConfigValidationError};
use durable_streams::config::load::ConfigLoadOptions;
use durable_streams::config::model::{
    Config, HttpConfig, ProxyConfig, ProxyIdentityConfig, StorageConfig, TransportConfig,
    TransportConnectionConfig, TransportHttpConfig, TransportTlsConfig,
};
use durable_streams::config::modes::{
    AcidBackend, AlpnProtocol, ForwardedHeadersMode, HttpVersion, ProxyIdentityMode, StorageMode,
    TlsVersion, TransportMode, parse_storage_mode_env,
};
use durable_streams::config::patch::ConfigPatch;
use durable_streams::config::profile::DeploymentProfile;
use durable_streams::config::validate::{
    paths_overlap, valid_acid_shard_count, valid_ip_or_cidr,
};
use durable_streams::net::{IpAddr, SocketAddr};
use durable_streams::router::DEFAULT_STREAM_BASE_PATH;

fn lookup(pairs: &[(&str, &str)]) -> Vec<(String, String)> {
    pairs
        .iter()
        .map(|(key, value)| ((*key).to_string(), (*value).to_string()))
        .collect()
}

fn text_at(table: &toml::Table, path: &[&str]) -> Option<String> {
    let mut value = table.get(path[0])?;
    for key in &path[1..] {
        value = value.get(*key)?;
    }
    value.as_str().map(ToString::to_string)
}

/// The layer that a TOML text holds, of the settings that the tests use.
fn layer(text: &str) -> ConfigPatch {
    let table: toml::Table = text.parse().expect("valid TOML");
    let mut patch = ConfigPatch::default();
    patch.server.bind_address = text_at(&table, &["server", "bind_address"]);
    patch.http.stream_base_path = text_at(&table, &["http", "stream_base_path"]);
    patch.storage.mode =
        text_at(&table, &["storage", "mode"]).and_then(|m| parse_storage_mode_env(&m));
    patch.storage.data_dir = text_at(&table, &["storage", "data_dir"]);
    patch.transport.connection.long_poll_timeout_secs = table
        .get("transport")
        .and_then(|t| t.get("connection"))
        .and_then(|c| c.get("long_poll_timeout_secs"))
        .and_then(|n| n.as_integer())
        .map(|n| n as u64);
    patch.observability.rust_log = text_at(&table, &["observability", "rust_log"]);
    patch.tls.cert_path = text_at(&table, &["tls", "cert_path"]);
    patch.tls.key_path = text_at(&table, &["tls", "key_path"]);
    patch
}

#[test]
fn test_default_config() {
    let config = Config::default();
    assert_eq!(config.server.bind_address, "0.0.0.0:4437");
    assert_eq!(config.limits.max_memory_bytes, 100 * 1024 * 1024);
    assert_eq!(config.limits.max_stream_bytes, 10 * 1024 * 1024);
    assert_eq!(config.http.cors_origins, "*");
    assert!(!config.admin.enabled);
    assert_eq!(config.admin.base_path, "/admin");
    assert_eq!(config.transport.connection.long_poll_timeout_secs, 30);
    assert_eq!(config.transport.connection.sse_reconnect_interval_secs, 60);
    assert_eq!(config.http.stream_base_path, DEFAULT_STREAM_BASE_PATH);
    assert_eq!(config.storage.mode, StorageMode::Memory);
    assert_eq!(config.storage.data_dir, "./data/streams");
    assert_eq!(config.storage.acid_shard_count, 16);
    assert_eq!(config.storage.acid_backend, AcidBackend::File);
    assert_eq!(config.transport.mode, TransportMode::Http);
    assert_eq!(config.transport.http.versions, vec![HttpVersion::Http1]);
    assert_eq!(config.transport.tls.cert_path, None);
    assert_eq!(config.transport.tls.key_path, None);
    assert_eq!(config.observability.rust_log, "info");
}

#[test]
fn test_from_env_uses_defaults_when_no_ds_vars() {
    let config = Config::from_env(&Vec::new()).expect("config from env");
    assert_eq!(config.server.bind_address, "0.0.0.0:4437");
    assert_eq!(config.storage.mode, StorageMode::Memory);
    assert_eq!(config.observability.rust_log, "info");
}

#[test]
fn test_env_overrides_parse_new_and_legacy_keys() {
    let env = lookup(&[
        ("DS_SERVER__PORT", "8080"),
        ("DS_LIMITS__MAX_MEMORY_BYTES", "200000000"),
        ("DS_LIMITS__MAX_STREAM_BYTES", "20000000"),
        ("DS_HTTP__CORS_ORIGINS", "https://example.com"),
        ("DS_TRANSPORT__CONNECTION__LONG_POLL_TIMEOUT_SECS", "5"),
        ("DS_SERVER__SSE_RECONNECT_INTERVAL_SECS", "120"),
        ("DS_HTTP__STREAM_BASE_PATH", "/streams"),
        ("DS_STORAGE__MODE", "file-fast"),
        ("DS_STORAGE__DATA_DIR", "/tmp/ds-store"),
        ("DS_STORAGE__ACID_SHARD_COUNT", "32"),
        ("DS_TRANSPORT__MODE", "tls"),
        ("DS_TLS__CERT_PATH", "/tmp/cert.pem"),
        ("DS_TRANSPORT__TLS__KEY_PATH", "/tmp/key.pem"),
        ("DS_TRANSPORT__HTTP__VERSIONS", "http1,http2"),
        ("DS_OBSERVABILITY__RUST_LOG", "debug"),
    ]);
    let config = Config::from_env(&env).expect("config from env");

    assert_eq!(config.server.bind_address, "0.0.0.0:8080");
    assert_eq!(config.limits.max_memory_bytes, 200_000_000);
    assert_eq!(config.limits.max_stream_bytes, 20_000_000);
    assert_eq!(config.http.cors_origins, "https://example.com");
    assert_eq!(config.transport.connection.long_poll_timeout_secs, 5);
    assert_eq!(config.transport.connection.sse_reconnect_interval_secs, 120);
    assert_eq!(config.http.stream_base_path, "/streams");
    assert_eq!(config.storage.mode, StorageMode::FileFast);
    assert_eq!(config.storage.data_dir, "/tmp/ds-store");
    assert_eq!(config.storage.acid_shard_count, 32);
    assert_eq!(config.transport.mode, TransportMode::Tls);
    assert_eq!(
        config.transport.http.versions,
        vec![HttpVersion::Http1, HttpVersion::Http2]
    );
    assert_eq!(
        config.transport.tls.alpn_protocols,
        vec![AlpnProtocol::H2, AlpnProtocol::Http1_1]
    );
    assert_eq!(
        config.transport.tls.cert_path.as_deref(),
        Some("/tmp/cert.pem")
    );
    assert_eq!(
        config.transport.tls.key_path.as_deref(),
        Some("/tmp/key.pem")
    );
    assert_eq!(config.observability.rust_log, "debug");
}

#[test]
fn an_invalid_port_is_an_error_beside_an_address() {
    let env = lookup(&[
        ("DS_SERVER__BIND_ADDRESS", "127.0.0.1:9000"),
        ("DS_SERVER__PORT", "not-a-port"),
    ]);
    assert!(matches!(
        Config::from_env(&env),
        Err(ConfigLoadError::InvalidValue { key: "DS_SERVER__PORT", value, .. })
            if value == "not-a-port"
    ));
    let env = lookup(&[("DS_SERVER__BIND_ADDRESS", "127.0.0.1:9000"), ("DS_SERVER__PORT", "80")]);
    let config = Config::from_env(&env).expect("config from env");
    assert_eq!(config.server.bind_address, "127.0.0.1:9000");
}

#[test]
fn test_invalid_env_override_returns_typed_error() {
    let err = Config::from_env(
        &lookup(&[("DS_TRANSPORT__TLS__MIN_VERSION", "tls1.0")]),
    )
    .expect_err("expected invalid env override");

    assert_eq!(
        err,
        ConfigLoadError::InvalidValue {
            input_source: "environment",
            key: "DS_TRANSPORT__TLS__MIN_VERSION",
            value: "tls1.0".to_string(),
            reason: "unrecognized value".to_string(),
        }
    );
}

#[test]
fn test_built_in_profile_defaults_apply_cleanly() {
    // No layers: only the built-in profile and the defaults.
    let config = Config::from_layers(
        &DeploymentProfile::ProdTls,
        Vec::new(),
        &lookup(&[]),
    )
    .expect("config");

    assert_eq!(config.storage.mode, StorageMode::FileDurable);
    assert_eq!(config.storage.data_dir, "/var/lib/durable-streams");
    assert_eq!(config.transport.mode, TransportMode::Tls);
    assert_eq!(
        config.transport.http.versions,
        vec![HttpVersion::Http1, HttpVersion::Http2]
    );
    assert_eq!(
        config.transport.tls.alpn_protocols,
        vec![AlpnProtocol::H2, AlpnProtocol::Http1_1]
    );
}

#[test]
fn test_sources_layer_default_profile_local_override_and_env() {
    let default = layer(
        r#"
[server]
bind_address = "0.0.0.0:4437"

[http]
stream_base_path = "/v1/stream"

[storage]
mode = "memory"

[transport.connection]
long_poll_timeout_secs = 30

[observability]
rust_log = "warn"
"#,
    );
    let profile = layer(
        r#"
[server]
bind_address = "127.0.0.1:7777"

[http]
stream_base_path = "/streams"

[storage]
mode = "file-fast"
data_dir = "/tmp/dev-store"
"#,
    );
    let local = layer(
        r#"
[server]
bind_address = "127.0.0.1:8888"
"#,
    );

    let config = Config::from_layers(
        &DeploymentProfile::Dev,
        vec![default, profile, local],
        &lookup(&[
            ("DS_SERVER__BIND_ADDRESS", "127.0.0.1:9999"),
            ("DS_OBSERVABILITY__RUST_LOG", "debug"),
        ]),
    )
    .expect("config from sources");

    assert_eq!(config.server.bind_address, "127.0.0.1:9999");
    assert_eq!(config.http.stream_base_path, "/streams");
    assert_eq!(config.storage.mode, StorageMode::FileFast);
    assert_eq!(config.storage.data_dir, "/tmp/dev-store");
    assert_eq!(config.observability.rust_log, "debug");
}

#[test]
fn test_legacy_tls_fields_infer_tls_mode_when_mode_not_set() {
    let default = layer(
        r#"
[tls]
cert_path = "/tmp/cert.pem"
key_path = "/tmp/key.pem"
"#,
    );

    let config = Config::from_layers(
        &DeploymentProfile::Default,
        vec![default],
        &lookup(&[]),
    )
    .expect("config from sources");

    assert_eq!(config.transport.mode, TransportMode::Tls);
    assert_eq!(
        config.transport.tls.cert_path.as_deref(),
        Some("/tmp/cert.pem")
    );
    assert_eq!(
        config.transport.tls.key_path.as_deref(),
        Some("/tmp/key.pem")
    );
}

#[test]
fn test_disabled_admin_allows_overlapping_stream_mounts() {
    for path in ["/admin", "/admin/events", "/"] {
        let mut config = Config::default();
        config.http.stream_base_path = path.to_string();
        assert!(config.validate().is_ok(), "disabled admin reserves {path}");
    }
}

#[test]
fn test_enabled_admin_rejects_overlapping_stream_mounts() {
    for path in ["/admin", "/admin/events", "/"] {
        let mut config = Config::default();
        config.admin.enabled = true;
        config.http.stream_base_path = path.to_string();
        assert_eq!(
            config.validate(),
            Err(ConfigValidationError::AdminBasePathConflictsWithStreamBasePath),
            "overlapping mount: {path}"
        );
    }

    let mut config = Config::default();
    config.admin.enabled = true;
    config.admin.base_path = "/v1/stream/admin".to_string();
    assert_eq!(
        config.validate(),
        Err(ConfigValidationError::AdminBasePathConflictsWithStreamBasePath)
    );
    config.admin.base_path = "/v1/streams-admin".to_string();
    assert!(
        config.validate().is_ok(),
        "shared text prefix is not overlap"
    );
}

#[test]
fn test_admin_base_path_rejects_nonliteral_or_whitespace_paths() {
    for path in [
        " /admin",
        "/admin ",
        "/{*path}",
        "/{tenant}",
        "/:admin",
        "/*admin",
    ] {
        let mut config = Config::default();
        config.admin.enabled = true;
        config.admin.base_path = path.to_string();
        assert!(
            matches!(
                config.validate(),
                Err(ConfigValidationError::InvalidAdminBasePath { .. })
            ),
            "invalid admin mount: {path}"
        );
    }
}

#[test]
fn test_validate_accepts_valid_config_matrix() {
    let valid_configs = [
        Config::default(),
        Config {
            transport: TransportConfig {
                mode: TransportMode::Tls,
                http: TransportHttpConfig {
                    versions: vec![HttpVersion::Http1, HttpVersion::Http2],
                },
                tls: TransportTlsConfig {
                    cert_path: Some("/tmp/cert.pem".to_string()),
                    key_path: Some("/tmp/key.pem".to_string()),
                    client_ca_path: None,
                    min_version: TlsVersion::V1_2,
                    max_version: TlsVersion::V1_3,
                    alpn_protocols: vec![AlpnProtocol::Http1_1, AlpnProtocol::H2],
                },
                connection: TransportConnectionConfig {
                    long_poll_timeout_secs: 30,
                    sse_reconnect_interval_secs: 60,
                },
            },
            ..Config::default()
        },
        Config {
            transport: TransportConfig {
                mode: TransportMode::Mtls,
                http: TransportHttpConfig {
                    versions: vec![HttpVersion::Http1],
                },
                tls: TransportTlsConfig {
                    cert_path: Some("/tmp/cert.pem".to_string()),
                    key_path: Some("/tmp/key.pem".to_string()),
                    client_ca_path: Some("/tmp/ca.pem".to_string()),
                    min_version: TlsVersion::V1_2,
                    max_version: TlsVersion::V1_3,
                    alpn_protocols: vec![AlpnProtocol::Http1_1],
                },
                connection: TransportConnectionConfig {
                    long_poll_timeout_secs: 30,
                    sse_reconnect_interval_secs: 60,
                },
            },
            proxy: ProxyConfig {
                enabled: true,
                forwarded_headers: ForwardedHeadersMode::XForwarded,
                trusted_proxies: vec!["127.0.0.1/32".to_string()],
                identity: ProxyIdentityConfig {
                    mode: ProxyIdentityMode::Header,
                    header_name: Some("x-client-identity".to_string()),
                    require_tls: true,
                },
            },
            ..Config::default()
        },
    ];

    for config in valid_configs {
        assert!(
            config.validate().is_ok(),
            "config should validate: {config:?}"
        );
    }
}

fn assert_invalid_configs(
    invalid_cases: impl IntoIterator<Item = (Config, ConfigValidationError)>,
) {
    for (config, expected) in invalid_cases {
        assert_eq!(config.validate().expect_err("config should fail"), expected);
    }
}

#[test]
fn test_validate_rejects_http_transport_tls_misconfigurations() {
    assert_invalid_configs([
        (
            Config {
                transport: TransportConfig {
                    mode: TransportMode::Http,
                    tls: TransportTlsConfig {
                        cert_path: Some("/tmp/cert.pem".to_string()),
                        ..Config::default().transport.tls
                    },
                    ..Config::default().transport
                },
                ..Config::default()
            },
            ConfigValidationError::HttpModeDisallowsTlsField { field: "cert_path" },
        ),
        (
            Config {
                transport: TransportConfig {
                    mode: TransportMode::Tls,
                    tls: TransportTlsConfig {
                        cert_path: Some("/tmp/cert.pem".to_string()),
                        key_path: None,
                        ..Config::default().transport.tls
                    },
                    ..Config::default().transport
                },
                ..Config::default()
            },
            ConfigValidationError::MissingTlsField {
                mode: TransportMode::Tls,
                field: "key_path",
            },
        ),
        (
            Config {
                transport: TransportConfig {
                    mode: TransportMode::Http,
                    http: TransportHttpConfig {
                        versions: vec![HttpVersion::Http1, HttpVersion::Http2],
                    },
                    tls: TransportTlsConfig {
                        alpn_protocols: vec![AlpnProtocol::Http1_1, AlpnProtocol::H2],
                        ..Config::default().transport.tls
                    },
                    ..Config::default().transport
                },
                ..Config::default()
            },
            ConfigValidationError::HttpModeDoesNotSupportHttp2,
        ),
    ]);
}

#[test]
fn test_validate_rejects_invalid_tls_ranges_and_proxy_headers() {
    assert_invalid_configs([
        (
            Config {
                transport: TransportConfig {
                    mode: TransportMode::Tls,
                    tls: TransportTlsConfig {
                        cert_path: Some("/tmp/cert.pem".to_string()),
                        key_path: Some("/tmp/key.pem".to_string()),
                        min_version: TlsVersion::V1_3,
                        max_version: TlsVersion::V1_2,
                        alpn_protocols: vec![AlpnProtocol::Http1_1],
                        ..Config::default().transport.tls
                    },
                    ..Config::default().transport
                },
                ..Config::default()
            },
            ConfigValidationError::InvalidTlsVersionRange,
        ),
        (
            Config {
                proxy: ProxyConfig {
                    enabled: true,
                    forwarded_headers: ForwardedHeadersMode::Disabled,
                    trusted_proxies: vec!["127.0.0.1".to_string()],
                    ..Config::default().proxy
                },
                ..Config::default()
            },
            ConfigValidationError::ProxyEnabledRequiresForwardedHeaders,
        ),
        (
            Config {
                proxy: ProxyConfig {
                    enabled: true,
                    forwarded_headers: ForwardedHeadersMode::Forwarded,
                    trusted_proxies: vec!["not-a-cidr".to_string()],
                    ..Config::default().proxy
                },
                ..Config::default()
            },
            ConfigValidationError::InvalidTrustedProxy {
                value: "not-a-cidr".to_string(),
            },
        ),
    ]);
}

#[test]
fn test_validate_rejects_invalid_proxy_identity_requirements() {
    assert_invalid_configs([
        (
            Config {
                transport: TransportConfig {
                    mode: TransportMode::Tls,
                    tls: TransportTlsConfig {
                        cert_path: Some("/tmp/cert.pem".to_string()),
                        key_path: Some("/tmp/key.pem".to_string()),
                        alpn_protocols: vec![AlpnProtocol::Http1_1],
                        ..Config::default().transport.tls
                    },
                    ..Config::default().transport
                },
                proxy: ProxyConfig {
                    enabled: true,
                    forwarded_headers: ForwardedHeadersMode::XForwarded,
                    trusted_proxies: vec!["127.0.0.1".to_string()],
                    identity: ProxyIdentityConfig {
                        mode: ProxyIdentityMode::Header,
                        header_name: Some("x-client-identity".to_string()),
                        require_tls: true,
                    },
                },
                ..Config::default()
            },
            ConfigValidationError::HeaderIdentityRequiresMtls,
        ),
        (
            Config {
                transport: TransportConfig {
                    mode: TransportMode::Mtls,
                    tls: TransportTlsConfig {
                        cert_path: Some("/tmp/cert.pem".to_string()),
                        key_path: Some("/tmp/key.pem".to_string()),
                        client_ca_path: Some("/tmp/ca.pem".to_string()),
                        alpn_protocols: vec![AlpnProtocol::Http1_1],
                        ..Config::default().transport.tls
                    },
                    ..Config::default().transport
                },
                proxy: ProxyConfig {
                    enabled: true,
                    forwarded_headers: ForwardedHeadersMode::XForwarded,
                    trusted_proxies: vec!["127.0.0.1".to_string()],
                    identity: ProxyIdentityConfig {
                        mode: ProxyIdentityMode::Header,
                        header_name: None,
                        require_tls: true,
                    },
                },
                ..Config::default()
            },
            ConfigValidationError::HeaderIdentityRequiresHeaderName,
        ),
    ]);
}

// ── Wildcard CORS warning / profile validation ─────────────────

#[test]
fn test_wildcard_cors_emits_warning() {
    let config = Config::default();
    assert_eq!(config.http.cors_origins, "*");
    let warnings = config.warnings();
    assert_eq!(warnings.len(), 1);
    assert!(warnings[0].contains("cors_origins"));
}

#[test]
fn test_allow_wildcard_cors_suppresses_warning() {
    let config = Config {
        http: HttpConfig {
            allow_wildcard_cors: true,
            ..Config::default().http
        },
        ..Config::default()
    };
    assert!(config.warnings().is_empty());
}

#[test]
fn test_explicit_origins_no_warning() {
    let config = Config {
        http: HttpConfig {
            cors_origins: "https://example.com".to_string(),
            ..Config::default().http
        },
        ..Config::default()
    };
    assert!(config.warnings().is_empty());
}

#[test]
fn test_validate_profile_rejects_wildcard_cors_for_prod_profiles() {
    let config = Config::default();
    for profile in [
        DeploymentProfile::Prod,
        DeploymentProfile::ProdTls,
        DeploymentProfile::ProdMtls,
    ] {
        let expected = ConfigValidationError::WildcardCorsOriginsProd {
            profile: profile.as_str().to_string(),
        };
        assert_eq!(
            config.validate_profile(&profile).expect_err("should fail"),
            expected,
        );
    }
}

#[test]
fn test_validate_profile_allows_wildcard_cors_for_non_prod_profiles() {
    let config = Config::default();
    for profile in [
        DeploymentProfile::Default,
        DeploymentProfile::Dev,
        DeploymentProfile::Named("staging".to_string()),
    ] {
        assert!(
            config.validate_profile(&profile).is_ok(),
            "non-prod profile {profile:?} should pass"
        );
    }
}

#[test]
fn test_validate_profile_allows_wildcard_cors_with_escape_hatch() {
    let config = Config {
        http: HttpConfig {
            allow_wildcard_cors: true,
            ..Config::default().http
        },
        ..Config::default()
    };
    assert!(config.validate_profile(&DeploymentProfile::Prod).is_ok());
    assert!(config.validate_profile(&DeploymentProfile::ProdTls).is_ok());
    assert!(
        config
            .validate_profile(&DeploymentProfile::ProdMtls)
            .is_ok()
    );
}

#[test]
fn test_memory_mode_allows_empty_data_dir() {
    let config = Config {
        storage: StorageConfig {
            data_dir: String::new(),
            ..Config::default().storage
        },
        ..Config::default()
    };
    assert!(config.validate().is_ok());
}

#[test]
fn test_allow_wildcard_cors_env_override() {
    let config = Config::from_env(
        &lookup(&[("DS_HTTP__ALLOW_WILDCARD_CORS", "true")]),
    )
    .expect("config from env");
    assert!(config.http.allow_wildcard_cors);
    assert!(config.warnings().is_empty());
    assert!(config.validate_profile(&DeploymentProfile::Prod).is_ok());
}

// ── Layers and the environment ─────────────────────────────────────

#[test]
fn file_names_follow_the_profile() {
    let options = ConfigLoadOptions {
        config_dir: "config".to_string(),
        profile: DeploymentProfile::ProdMtls,
        config_override: None,
    };
    assert_eq!(options.file_names(), vec!["default.toml", "prod-mtls.toml", "local.toml"]);
}

#[test]
fn profiles_are_told_by_name() {
    for name in ["default", "dev", "prod", "prod-tls", "prod-mtls", "staging"] {
        assert_eq!(DeploymentProfile::select(name).as_str(), name);
    }
    assert_eq!(DeploymentProfile::select("dev"), DeploymentProfile::Dev);
    assert_eq!(
        DeploymentProfile::select("staging"),
        DeploymentProfile::Named("staging".to_string())
    );
}

#[test]
fn an_empty_layer_changes_nothing() {
    let config = Config::from_layers(
        &DeploymentProfile::Default,
        vec![ConfigPatch::default(), ConfigPatch::default()],
        &Vec::new(),
    )
    .unwrap();
    assert_eq!(config, Config::default());
}

#[test]
fn later_layers_win_and_the_environment_wins_over_all() {
    let mut first = ConfigPatch::default();
    first.limits.max_memory_bytes = Some(1);
    first.storage.data_dir = Some("a".to_string());
    let mut second = ConfigPatch::default();
    second.limits.max_memory_bytes = Some(2);
    let config = Config::from_layers(
        &DeploymentProfile::Prod,
        vec![first, second],
        &lookup(&[("DS_LIMITS__MAX_MEMORY_BYTES", "3")]),
    )
    .unwrap();
    assert_eq!(config.limits.max_memory_bytes, 3);
    assert_eq!(config.storage.data_dir, "a");
    assert_eq!(config.limits.max_stream_bytes, 268_435_456);
}

#[test]
fn numbers_in_the_environment_must_be_numbers() {
    let err = Config::from_env(&lookup(&[("DS_LIMITS__MAX_MEMORY_BYTES", "many")])).unwrap_err();
    assert!(matches!(
        &err,
        ConfigLoadError::InvalidValue { key: "DS_LIMITS__MAX_MEMORY_BYTES", value, .. }
            if value == "many"
    ));
    assert!(err.to_string().contains("DS_LIMITS__MAX_MEMORY_BYTES"));
}

#[test]
fn load_errors_are_put_in_words() {
    assert_eq!(
        ConfigLoadError::OverrideFileNotFound { path: "x.toml".to_string() }.to_string(),
        "config override file not found: 'x.toml'"
    );
    assert_eq!(
        ConfigLoadError::TomlParse { message: "bad".to_string() }.to_string(),
        "failed to parse TOML config: bad"
    );
}

// ── Validation ─────────────────────────────────────────────────────

#[test]
fn limits_must_not_be_zero() {
    let mut config = Config::default();
    config.limits.max_memory_bytes = 0;
    assert_eq!(config.validate(), Err(ConfigValidationError::MaxMemoryBytesTooSmall));
    let mut config = Config::default();
    config.limits.max_stream_bytes = 0;
    assert_eq!(config.validate(), Err(ConfigValidationError::MaxStreamBytesTooSmall));
    let mut config = Config::default();
    config.limits.max_stream_name_bytes = 0;
    assert_eq!(config.validate(), Err(ConfigValidationError::MaxStreamNameBytesTooSmall));
    let mut config = Config::default();
    config.limits.max_stream_name_segments = 0;
    assert_eq!(config.validate(), Err(ConfigValidationError::MaxStreamNameSegmentsTooSmall));
}

#[test]
fn listener_addresses_are_checked_and_read() {
    let mut config = Config::default();
    config.server.bind_address = "localhost".to_string();
    assert!(matches!(
        config.validate(),
        Err(ConfigValidationError::InvalidBindAddress { .. })
    ));
    assert!(config.bind_socket_addr().is_err());
    assert_eq!(
        Config::default().bind_socket_addr().unwrap(),
        SocketAddr { ip: IpAddr::V4(0), port: 4437, scope_id: 0 }
    );
}

#[test]
fn cors_lists_hold_origins_only() {
    let mut config = Config::default();
    config.http.cors_origins = "https://a.example,,https://b.example".to_string();
    assert_eq!(config.validate(), Err(ConfigValidationError::EmptyCorsOrigin));
    assert_eq!(config.validate_router(), Err(ConfigValidationError::EmptyCorsOrigin));
}

#[test]
fn overlapping_paths_share_a_segment_prefix() {
    assert!(paths_overlap("/a", "/a/b"));
    assert!(paths_overlap("/a/b", "/a"));
    assert!(paths_overlap("/", "/x"));
    assert!(!paths_overlap("/a", "/ab"));
    assert!(!paths_overlap("/v1/stream", "/v1/streams-admin"));
    assert!(paths_overlap("/v1/stream", "/v1/stream/admin/x"));
}

#[test]
fn shard_counts_are_powers_of_two() {
    for n in [1usize, 2, 16, 256] {
        assert!(valid_acid_shard_count(n), "{n}");
    }
    for n in [0usize, 3, 512] {
        assert!(!valid_acid_shard_count(n), "{n}");
    }
}

#[test]
fn proxies_are_addresses_or_ranges() {
    for ok in ["10.0.0.1", "10.0.0.0/8", "::1", "fd00::/128"] {
        assert!(valid_ip_or_cidr(ok), "{ok}");
    }
    for bad in ["10.0.0.0/33", "::/129", "10.0.0/8", "host", "1.2.3.4/", "/8"] {
        assert!(!valid_ip_or_cidr(bad), "{bad}");
    }
}

#[test]
fn mode_names_read_back() {
    for mode in [
        StorageMode::Memory,
        StorageMode::FileFast,
        StorageMode::FileDurable,
        StorageMode::Acid,
    ] {
        assert_eq!(parse_storage_mode_env(mode.as_str()), Some(mode));
    }
    assert_eq!(parse_storage_mode_env("nothing"), None);
}

#[test]
fn storage_modes_select_backend_and_syncing() {
    assert!(StorageMode::FileFast.uses_file_backend());
    assert!(StorageMode::FileDurable.uses_file_backend());
    assert!(!StorageMode::Acid.uses_file_backend());
    assert!(!StorageMode::Memory.uses_file_backend());
    assert!(StorageMode::FileDurable.sync_on_append());
    assert!(!StorageMode::FileFast.sync_on_append());
}
