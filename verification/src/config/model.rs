//! The resolved configuration and its mathematical model.

use vstd::prelude::*;
use crate::config::modes::{
    AcidBackend, AlpnProtocol, ForwardedHeadersMode, HttpVersion, ProxyIdentityMode, StorageMode,
    TlsVersion, TransportMode,
};
use crate::router::DEFAULT_STREAM_BASE_PATH;
use crate::text::{text_opt, texts};
use crate::time::Span;

verus! {

/// Server configuration resolved after all layering and defaults.
#[derive(Debug, Clone, PartialEq, Eq)]
pub struct Config {
    /// Listener settings.
    pub server: ServerConfig,
    /// Stream and storage size limits.
    pub limits: LimitsConfig,
    /// HTTP protocol surface configuration.
    pub http: HttpConfig,
    /// Optional operator/admin HTTP surface configuration.
    pub admin: AdminConfig,
    /// Persistence backend configuration.
    pub storage: StorageConfig,
    /// Transport and connection behaviour.
    pub transport: TransportConfig,
    /// Reverse-proxy trust and identity handoff.
    pub proxy: ProxyConfig,
    /// Logging and tracing defaults.
    pub observability: ObservabilityConfig,
}

/// Listener settings.
#[derive(Debug, Clone, PartialEq, Eq)]
pub struct ServerConfig {
    /// Socket address to bind, e.g. `0.0.0.0:4437`.
    pub bind_address: String,
}

/// Limits enforced by the server.
#[derive(Debug, Clone, PartialEq, Eq)]
pub struct LimitsConfig {
    /// Maximum total in-process payload bytes across all streams.
    pub max_memory_bytes: u64,
    /// Maximum payload bytes retained for any single stream.
    pub max_stream_bytes: u64,
    /// Maximum bytes buffered from one HTTP request body, including JSON framing.
    pub max_request_body_bytes: usize,
    /// Maximum byte length of a stream name.
    pub max_stream_name_bytes: usize,
    /// Maximum number of `/`-separated segments in a stream name.
    pub max_stream_name_segments: usize,
}

/// HTTP surface configuration.
#[derive(Debug, Clone, PartialEq, Eq)]
pub struct HttpConfig {
    /// CORS allowlist as `"*"` or a comma-separated origin list.
    pub cors_origins: String,
    /// Mount path for the protocol HTTP surface.
    pub stream_base_path: String,
    /// When `true`, wildcard CORS (`"*"`) is accepted without warnings or
    /// profile-level validation errors. Defaults to `false`.
    pub allow_wildcard_cors: bool,
    /// Permit HTTP webhook targets on localhost for development only.
    pub allow_insecure_webhooks: bool,
}

/// Optional operator/admin HTTP surface configuration.
///
/// Admin routes are disabled by default and are intended for trusted networks,
/// reverse proxies, or external access-control layers.
#[derive(Debug, Clone, PartialEq, Eq)]
pub struct AdminConfig {
    /// Whether to mount the admin router.
    pub enabled: bool,
    /// Mount path for operator-focused admin routes, e.g. `/admin`.
    pub base_path: String,
}

/// Persistence configuration.
#[derive(Debug, Clone, PartialEq, Eq)]
pub struct StorageConfig {
    /// Selected persistence backend.
    pub mode: StorageMode,
    /// Root directory for file-backed and acid-backed storage.
    pub data_dir: String,
    /// Number of shards used by the acid/redb backend.
    pub acid_shard_count: usize,
    /// Redb backend selection for the acid storage mode.
    pub acid_backend: AcidBackend,
}

/// Transport configuration.
#[derive(Debug, Clone, PartialEq, Eq)]
pub struct TransportConfig {
    /// HTTP / TLS / mTLS transport mode.
    pub mode: TransportMode,
    /// HTTP protocol version settings.
    pub http: TransportHttpConfig,
    /// TLS-related settings.
    pub tls: TransportTlsConfig,
    /// Connection behaviour shared by live-read endpoints.
    pub connection: TransportConnectionConfig,
}

/// HTTP version settings.
#[derive(Debug, Clone, PartialEq, Eq)]
pub struct TransportHttpConfig {
    /// Enabled HTTP protocol versions.
    pub versions: Vec<HttpVersion>,
}

/// TLS-related settings.
#[derive(Debug, Clone, PartialEq, Eq)]
pub struct TransportTlsConfig {
    /// Optional server certificate path in PEM format.
    pub cert_path: Option<String>,
    /// Optional server private key path in PEM or PKCS#8 format.
    pub key_path: Option<String>,
    /// Optional client CA bundle for mTLS validation.
    pub client_ca_path: Option<String>,
    /// Minimum accepted TLS protocol version.
    pub min_version: TlsVersion,
    /// Maximum accepted TLS protocol version.
    pub max_version: TlsVersion,
    /// Negotiated ALPN protocols when TLS is enabled.
    pub alpn_protocols: Vec<AlpnProtocol>,
}

impl TransportTlsConfig {
    /// Whether both certificate and private-key paths are set; does not check their contents.
    #[must_use]
    pub fn has_server_credentials(&self) -> (r: bool)
        ensures
            r == (self.cert_path is Some && self.key_path is Some),
    {
        self.cert_path.is_some() && self.key_path.is_some()
    }
}

/// Connection-level settings.
#[derive(Debug, Clone, PartialEq, Eq)]
pub struct TransportConnectionConfig {
    /// Long-poll timeout used by `GET ?live=long-poll`.
    pub long_poll_timeout_secs: u64,
    /// SSE reconnect interval in seconds (`0` disables forced reconnects).
    pub sse_reconnect_interval_secs: u64,
}

/// Reverse-proxy trust model.
#[derive(Debug, Clone, PartialEq, Eq)]
pub struct ProxyConfig {
    /// Whether proxy header trust is enabled.
    pub enabled: bool,
    /// Header family trusted from the proxy.
    pub forwarded_headers: ForwardedHeadersMode,
    /// Trusted proxy IPs or CIDRs.
    pub trusted_proxies: Vec<String>,
    /// Proxy-origin identity settings.
    pub identity: ProxyIdentityConfig,
}

/// Proxy-origin identity settings.
#[derive(Debug, Clone, PartialEq, Eq)]
pub struct ProxyIdentityConfig {
    /// Identity handoff mode.
    pub mode: ProxyIdentityMode,
    /// Trusted header carrying the identity.
    pub header_name: Option<String>,
    /// Whether the proxy identity handoff requires TLS on the outer hop.
    pub require_tls: bool,
}

/// Logging and tracing defaults.
#[derive(Debug, Clone, PartialEq, Eq)]
pub struct ObservabilityConfig {
    /// Default tracing filter used when `RUST_LOG` is not explicitly set.
    pub rust_log: String,
}

/// Every setting of a [`Config`], with texts and lists as sequences.
#[verifier::ext_equal]
pub struct Settings {
    pub bind_address: Seq<char>,
    pub max_memory_bytes: u64,
    pub max_stream_bytes: u64,
    pub max_request_body_bytes: usize,
    pub max_stream_name_bytes: usize,
    pub max_stream_name_segments: usize,
    pub cors_origins: Seq<char>,
    pub stream_base_path: Seq<char>,
    pub allow_wildcard_cors: bool,
    pub allow_insecure_webhooks: bool,
    pub admin_enabled: bool,
    pub admin_base_path: Seq<char>,
    pub storage_mode: StorageMode,
    pub data_dir: Seq<char>,
    pub acid_shard_count: usize,
    pub acid_backend: AcidBackend,
    pub transport_mode: TransportMode,
    pub http_versions: Seq<HttpVersion>,
    pub cert_path: Option<Seq<char>>,
    pub key_path: Option<Seq<char>>,
    pub client_ca_path: Option<Seq<char>>,
    pub min_version: TlsVersion,
    pub max_version: TlsVersion,
    pub alpn_protocols: Seq<AlpnProtocol>,
    pub long_poll_timeout_secs: u64,
    pub sse_reconnect_interval_secs: u64,
    pub proxy_enabled: bool,
    pub forwarded_headers: ForwardedHeadersMode,
    pub trusted_proxies: Seq<Seq<char>>,
    pub identity_mode: ProxyIdentityMode,
    pub identity_header: Option<Seq<char>>,
    pub identity_require_tls: bool,
    pub rust_log: Seq<char>,
}

impl View for Config {
    type V = Settings;

    open spec fn view(&self) -> Settings {
        Settings {
            bind_address: self.server.bind_address@,
            max_memory_bytes: self.limits.max_memory_bytes,
            max_stream_bytes: self.limits.max_stream_bytes,
            max_request_body_bytes: self.limits.max_request_body_bytes,
            max_stream_name_bytes: self.limits.max_stream_name_bytes,
            max_stream_name_segments: self.limits.max_stream_name_segments,
            cors_origins: self.http.cors_origins@,
            stream_base_path: self.http.stream_base_path@,
            allow_wildcard_cors: self.http.allow_wildcard_cors,
            allow_insecure_webhooks: self.http.allow_insecure_webhooks,
            admin_enabled: self.admin.enabled,
            admin_base_path: self.admin.base_path@,
            storage_mode: self.storage.mode,
            data_dir: self.storage.data_dir@,
            acid_shard_count: self.storage.acid_shard_count,
            acid_backend: self.storage.acid_backend,
            transport_mode: self.transport.mode,
            http_versions: self.transport.http.versions@,
            cert_path: text_opt(self.transport.tls.cert_path),
            key_path: text_opt(self.transport.tls.key_path),
            client_ca_path: text_opt(self.transport.tls.client_ca_path),
            min_version: self.transport.tls.min_version,
            max_version: self.transport.tls.max_version,
            alpn_protocols: self.transport.tls.alpn_protocols@,
            long_poll_timeout_secs: self.transport.connection.long_poll_timeout_secs,
            sse_reconnect_interval_secs: self.transport.connection.sse_reconnect_interval_secs,
            proxy_enabled: self.proxy.enabled,
            forwarded_headers: self.proxy.forwarded_headers,
            trusted_proxies: texts(self.proxy.trusted_proxies@),
            identity_mode: self.proxy.identity.mode,
            identity_header: text_opt(self.proxy.identity.header_name),
            identity_require_tls: self.proxy.identity.require_tls,
            rust_log: self.observability.rust_log@,
        }
    }
}

/// The settings before any layer.
pub open spec fn default_settings() -> Settings {
    Settings {
        bind_address: "0.0.0.0:4437"@,
        max_memory_bytes: 104_857_600,
        max_stream_bytes: 10_485_760,
        max_request_body_bytes: 10_485_760,
        max_stream_name_bytes: 1024,
        max_stream_name_segments: 8,
        cors_origins: "*"@,
        stream_base_path: "/v1/stream"@,
        allow_wildcard_cors: false,
        allow_insecure_webhooks: false,
        admin_enabled: false,
        admin_base_path: "/admin"@,
        storage_mode: StorageMode::Memory,
        data_dir: "./data/streams"@,
        acid_shard_count: 16,
        acid_backend: AcidBackend::File,
        transport_mode: TransportMode::Http,
        http_versions: seq![HttpVersion::Http1],
        cert_path: None,
        key_path: None,
        client_ca_path: None,
        min_version: TlsVersion::V1_3,
        max_version: TlsVersion::V1_3,
        alpn_protocols: seq![AlpnProtocol::Http1_1],
        long_poll_timeout_secs: 30,
        sse_reconnect_interval_secs: 60,
        proxy_enabled: false,
        forwarded_headers: ForwardedHeadersMode::Disabled,
        trusted_proxies: Seq::empty(),
        identity_mode: ProxyIdentityMode::Disabled,
        identity_header: None,
        identity_require_tls: true,
        rust_log: "info"@,
    }
}

/// Whether the HTTP version is among the enabled ones.
pub open spec fn enables(versions: Seq<HttpVersion>, version: HttpVersion) -> bool {
    exists|i: int| 0 <= i < versions.len() && #[trigger] versions[i] == version
}

/// Whether the protocol is among those that are negotiated.
pub open spec fn negotiates(protocols: Seq<AlpnProtocol>, protocol: AlpnProtocol) -> bool {
    exists|i: int| 0 <= i < protocols.len() && #[trigger] protocols[i] == protocol
}

/// The protocols to negotiate for the enabled HTTP versions: HTTP/2 first.
pub open spec fn default_alpn(versions: Seq<HttpVersion>) -> Seq<AlpnProtocol> {
    (if enables(versions, HttpVersion::Http2) {
        seq![AlpnProtocol::H2]
    } else {
        Seq::empty()
    }) + (if enables(versions, HttpVersion::Http1) {
        seq![AlpnProtocol::Http1_1]
    } else {
        Seq::empty()
    })
}

/// Whether the HTTP version is among the enabled ones.
pub fn contains_version(versions: &Vec<HttpVersion>, version: HttpVersion) -> (r: bool)
    ensures
        r == enables(versions@, version),
{
    let mut i: usize = 0;
    while i < versions.len()
        invariant
            i <= versions@.len(),
            forall|k: int| 0 <= k < i ==> #[trigger] versions@[k] != version,
        decreases versions.len() - i,
    {
        if versions[i] == version {
            assert(versions@[i as int] == version);
            return true;
        }
        i += 1;
    }
    false
}

/// Whether the protocol is among those that are negotiated.
pub fn contains_protocol(protocols: &Vec<AlpnProtocol>, protocol: AlpnProtocol) -> (r: bool)
    ensures
        r == negotiates(protocols@, protocol),
{
    let mut i: usize = 0;
    while i < protocols.len()
        invariant
            i <= protocols@.len(),
            forall|k: int| 0 <= k < i ==> #[trigger] protocols@[k] != protocol,
        decreases protocols.len() - i,
    {
        if protocols[i] == protocol {
            assert(protocols@[i as int] == protocol);
            return true;
        }
        i += 1;
    }
    false
}

/// The protocols to negotiate for the enabled HTTP versions.
pub fn default_alpn_protocols(versions: &Vec<HttpVersion>) -> (r: Vec<AlpnProtocol>)
    ensures
        r@ == default_alpn(versions@),
{
    let mut protocols: Vec<AlpnProtocol> = Vec::new();
    if contains_version(versions, HttpVersion::Http2) {
        protocols.push(AlpnProtocol::H2);
    }
    if contains_version(versions, HttpVersion::Http1) {
        protocols.push(AlpnProtocol::Http1_1);
    }
    assert(protocols@ =~= default_alpn(versions@));
    protocols
}

impl Default for Config {
    fn default() -> (r: Self)
        ensures
            r@ == default_settings(),
    {
        let mut versions: Vec<HttpVersion> = Vec::new();
        versions.push(HttpVersion::Http1);
        let alpn_protocols = default_alpn_protocols(&versions);
        proof {
            assert(versions@ =~= seq![HttpVersion::Http1]);
            assert(versions@[0] == HttpVersion::Http1);
            assert(alpn_protocols@ =~= seq![AlpnProtocol::Http1_1]);
        }
        let r = Config {
            server: ServerConfig { bind_address: "0.0.0.0:4437".to_owned() },
            limits: LimitsConfig {
                max_memory_bytes: 100 * 1024 * 1024,
                max_stream_bytes: 10 * 1024 * 1024,
                max_request_body_bytes: 10 * 1024 * 1024,
                max_stream_name_bytes: 1024,
                max_stream_name_segments: 8,
            },
            http: HttpConfig {
                cors_origins: "*".to_owned(),
                stream_base_path: DEFAULT_STREAM_BASE_PATH.to_owned(),
                allow_wildcard_cors: false,
                allow_insecure_webhooks: false,
            },
            admin: AdminConfig { enabled: false, base_path: "/admin".to_owned() },
            storage: StorageConfig {
                mode: StorageMode::Memory,
                data_dir: "./data/streams".to_owned(),
                acid_shard_count: 16,
                acid_backend: AcidBackend::File,
            },
            transport: TransportConfig {
                mode: TransportMode::Http,
                http: TransportHttpConfig { versions },
                tls: TransportTlsConfig {
                    cert_path: None,
                    key_path: None,
                    client_ca_path: None,
                    min_version: TlsVersion::V1_3,
                    max_version: TlsVersion::V1_3,
                    alpn_protocols,
                },
                connection: TransportConnectionConfig {
                    long_poll_timeout_secs: 30,
                    sse_reconnect_interval_secs: 60,
                },
            },
            proxy: ProxyConfig {
                enabled: false,
                forwarded_headers: ForwardedHeadersMode::Disabled,
                trusted_proxies: Vec::new(),
                identity: ProxyIdentityConfig {
                    mode: ProxyIdentityMode::Disabled,
                    header_name: None,
                    require_tls: true,
                },
            },
            observability: ObservabilityConfig { rust_log: "info".to_owned() },
        };
        assert(r@.trusted_proxies =~= Seq::<Seq<char>>::empty());
        r
    }
}

impl Config {
    /// True when direct TLS termination is enabled on this server.
    #[must_use]
    pub fn tls_enabled(&self) -> (r: bool)
        ensures
            r == (self@.transport_mode.is_tls() && self@.cert_path is Some && self@.key_path is Some),
    {
        self.transport.mode.uses_tls() && self.transport.tls.has_server_credentials()
    }

    /// Long-poll timeout as a typed [`Span`].
    #[must_use]
    pub fn long_poll_timeout(&self) -> (r: Span)
        ensures
            r == (Span { seconds: self@.long_poll_timeout_secs, nanos: 0 }),
    {
        Span::from_secs(self.transport.connection.long_poll_timeout_secs)
    }
}

} // verus!
