//! Layers of configuration: partial settings that are laid over others.

use vstd::prelude::*;
use crate::config::model::{
    Config, Settings, TransportConfig, TransportConnectionConfig, TransportTlsConfig, default_alpn,
    default_alpn_protocols,
};
use crate::config::modes::{
    AcidBackend, AlpnProtocol, ForwardedHeadersMode, HttpVersion, ProxyIdentityMode, StorageMode,
    TlsVersion, TransportMode,
};
use crate::decimal::{decimal, u64_text};
use crate::text::{joined, text_opt, texts};

verus! {

/// One layer of configuration, such as a file. What is not set leaves the layers below as
/// they are.
#[derive(Debug)]
pub struct ConfigPatch {
    pub server: ServerConfigPatch,
    pub limits: LimitsConfigPatch,
    pub http: HttpConfigPatch,
    pub admin: AdminConfigPatch,
    pub storage: StorageConfigPatch,
    pub transport: TransportConfigPatch,
    pub proxy: ProxyConfigPatch,
    pub observability: ObservabilityConfigPatch,
    /// Names of the certificate settings that older files use.
    pub tls: LegacyTlsPatch,
    /// Name of the log setting that older files use.
    pub log: LegacyLogPatch,
}

/// Listener settings of a layer.
#[derive(Debug)]
pub struct ServerConfigPatch {
    pub bind_address: Option<String>,
    pub port: Option<u16>,
    pub long_poll_timeout_secs: Option<u64>,
    pub sse_reconnect_interval_secs: Option<u64>,
}

/// Limits of a layer.
#[derive(Debug)]
pub struct LimitsConfigPatch {
    pub max_memory_bytes: Option<u64>,
    pub max_stream_bytes: Option<u64>,
    pub max_request_body_bytes: Option<usize>,
    pub max_stream_name_bytes: Option<usize>,
    pub max_stream_name_segments: Option<usize>,
}

/// HTTP surface settings of a layer.
#[derive(Debug)]
pub struct HttpConfigPatch {
    pub cors_origins: Option<String>,
    pub stream_base_path: Option<String>,
    pub allow_wildcard_cors: Option<bool>,
    pub allow_insecure_webhooks: Option<bool>,
}

/// Admin surface settings of a layer.
#[derive(Debug)]
pub struct AdminConfigPatch {
    pub enabled: Option<bool>,
    pub base_path: Option<String>,
}

/// Persistence settings of a layer.
#[derive(Debug)]
pub struct StorageConfigPatch {
    pub mode: Option<StorageMode>,
    pub data_dir: Option<String>,
    pub acid_shard_count: Option<usize>,
    pub acid_backend: Option<AcidBackend>,
}

/// Transport settings of a layer.
#[derive(Debug)]
pub struct TransportConfigPatch {
    pub mode: Option<TransportMode>,
    pub http: TransportHttpConfigPatch,
    pub tls: TransportTlsConfigPatch,
    pub connection: TransportConnectionConfigPatch,
}

/// HTTP version settings of a layer.
#[derive(Debug)]
pub struct TransportHttpConfigPatch {
    pub versions: Option<Vec<HttpVersion>>,
}

/// TLS settings of a layer.
#[derive(Debug)]
pub struct TransportTlsConfigPatch {
    pub cert_path: Option<String>,
    pub key_path: Option<String>,
    pub client_ca_path: Option<String>,
    pub min_version: Option<TlsVersion>,
    pub max_version: Option<TlsVersion>,
    pub alpn_protocols: Option<Vec<AlpnProtocol>>,
}

/// Connection settings of a layer.
#[derive(Debug)]
pub struct TransportConnectionConfigPatch {
    pub long_poll_timeout_secs: Option<u64>,
    pub sse_reconnect_interval_secs: Option<u64>,
}

/// Proxy settings of a layer.
#[derive(Debug)]
pub struct ProxyConfigPatch {
    pub enabled: Option<bool>,
    pub forwarded_headers: Option<ForwardedHeadersMode>,
    pub trusted_proxies: Option<Vec<String>>,
    pub identity: ProxyIdentityConfigPatch,
}

/// Proxy identity settings of a layer.
#[derive(Debug)]
pub struct ProxyIdentityConfigPatch {
    pub mode: Option<ProxyIdentityMode>,
    pub header_name: Option<String>,
    pub require_tls: Option<bool>,
}

/// Log settings of a layer.
#[derive(Debug)]
pub struct ObservabilityConfigPatch {
    pub rust_log: Option<String>,
}

/// Certificate settings under their older names.
#[derive(Debug)]
pub struct LegacyTlsPatch {
    pub cert_path: Option<String>,
    pub key_path: Option<String>,
}

/// Log setting under its older name.
#[derive(Debug)]
pub struct LegacyLogPatch {
    pub rust_log: Option<String>,
}

/// What the layers have shown so far about the choice of transport.
#[derive(Debug, Clone, Copy, PartialEq, Eq, Structural)]
pub struct MergeContext {
    /// A layer has named the transport mode.
    pub explicit_transport_mode: bool,
    /// A layer has given certificate settings under their older names.
    pub legacy_tls_seen: bool,
}

/// The layer that sets nothing.
pub open spec fn empty_patch() -> ConfigPatch {
    ConfigPatch {
        server: ServerConfigPatch {
            bind_address: None,
            port: None,
            long_poll_timeout_secs: None,
            sse_reconnect_interval_secs: None,
        },
        limits: LimitsConfigPatch {
            max_memory_bytes: None,
            max_stream_bytes: None,
            max_request_body_bytes: None,
            max_stream_name_bytes: None,
            max_stream_name_segments: None,
        },
        http: HttpConfigPatch {
            cors_origins: None,
            stream_base_path: None,
            allow_wildcard_cors: None,
            allow_insecure_webhooks: None,
        },
        admin: AdminConfigPatch { enabled: None, base_path: None },
        storage: StorageConfigPatch {
            mode: None,
            data_dir: None,
            acid_shard_count: None,
            acid_backend: None,
        },
        transport: TransportConfigPatch {
            mode: None,
            http: TransportHttpConfigPatch { versions: None },
            tls: TransportTlsConfigPatch {
                cert_path: None,
                key_path: None,
                client_ca_path: None,
                min_version: None,
                max_version: None,
                alpn_protocols: None,
            },
            connection: TransportConnectionConfigPatch {
                long_poll_timeout_secs: None,
                sse_reconnect_interval_secs: None,
            },
        },
        proxy: ProxyConfigPatch {
            enabled: None,
            forwarded_headers: None,
            trusted_proxies: None,
            identity: ProxyIdentityConfigPatch { mode: None, header_name: None, require_tls: None },
        },
        observability: ObservabilityConfigPatch { rust_log: None },
        tls: LegacyTlsPatch { cert_path: None, key_path: None },
        log: LegacyLogPatch { rust_log: None },
    }
}

impl Default for ConfigPatch {
    fn default() -> (r: Self)
        ensures
            r == empty_patch(),
    {
        ConfigPatch {
            server: ServerConfigPatch {
                bind_address: None,
                port: None,
                long_poll_timeout_secs: None,
                sse_reconnect_interval_secs: None,
            },
            limits: LimitsConfigPatch {
                max_memory_bytes: None,
                max_stream_bytes: None,
                max_request_body_bytes: None,
                max_stream_name_bytes: None,
                max_stream_name_segments: None,
            },
            http: HttpConfigPatch {
                cors_origins: None,
                stream_base_path: None,
                allow_wildcard_cors: None,
                allow_insecure_webhooks: None,
            },
            admin: AdminConfigPatch { enabled: None, base_path: None },
            storage: StorageConfigPatch {
                mode: None,
                data_dir: None,
                acid_shard_count: None,
                acid_backend: None,
            },
            transport: TransportConfigPatch {
                mode: None,
                http: TransportHttpConfigPatch { versions: None },
                tls: TransportTlsConfigPatch {
                    cert_path: None,
                    key_path: None,
                    client_ca_path: None,
                    min_version: None,
                    max_version: None,
                    alpn_protocols: None,
                },
                connection: TransportConnectionConfigPatch {
                    long_poll_timeout_secs: None,
                    sse_reconnect_interval_secs: None,
                },
            },
            proxy: ProxyConfigPatch {
                enabled: None,
                forwarded_headers: None,
                trusted_proxies: None,
                identity: ProxyIdentityConfigPatch {
                    mode: None,
                    header_name: None,
                    require_tls: None,
                },
            },
            observability: ObservabilityConfigPatch { rust_log: None },
            tls: LegacyTlsPatch { cert_path: None, key_path: None },
            log: LegacyLogPatch { rust_log: None },
        }
    }
}

/// The value of a layer, or the one below it.
pub open spec fn or_below<T>(layer: Option<T>, below: T) -> T {
    match layer {
        Some(v) => v,
        None => below,
    }
}

/// The text of a layer, or the one below it.
pub open spec fn or_text(layer: Option<String>, below: Seq<char>) -> Seq<char> {
    match layer {
        Some(t) => t@,
        None => below,
    }
}

/// The path of a layer, or the one below it.
pub open spec fn or_path(layer: Option<String>, below: Option<Seq<char>>) -> Option<Seq<char>> {
    match layer {
        Some(t) => Some(t@),
        None => below,
    }
}

/// The first of two values that is set.
pub open spec fn either<T>(a: Option<T>, b: Option<T>) -> Option<T> {
    if a is Some {
        a
    } else {
        b
    }
}

/// The settings with a layer over them. An address wins over a port, a setting under its
/// present name wins over the older name, and naming the HTTP versions selects the negotiated
/// protocols anew unless they are named too.
pub open spec fn with_patch(s: Settings, p: ConfigPatch) -> Settings {
    Settings {
        bind_address: match (p.server.bind_address, p.server.port) {
            (Some(t), _) => t@,
            (None, Some(port)) => "0.0.0.0:"@ + decimal(port as nat),
            (None, None) => s.bind_address,
        },
        max_memory_bytes: or_below(p.limits.max_memory_bytes, s.max_memory_bytes),
        max_stream_bytes: or_below(p.limits.max_stream_bytes, s.max_stream_bytes),
        max_request_body_bytes: or_below(p.limits.max_request_body_bytes, s.max_request_body_bytes),
        max_stream_name_bytes: or_below(p.limits.max_stream_name_bytes, s.max_stream_name_bytes),
        max_stream_name_segments: or_below(
            p.limits.max_stream_name_segments,
            s.max_stream_name_segments,
        ),
        cors_origins: or_text(p.http.cors_origins, s.cors_origins),
        stream_base_path: or_text(p.http.stream_base_path, s.stream_base_path),
        allow_wildcard_cors: or_below(p.http.allow_wildcard_cors, s.allow_wildcard_cors),
        allow_insecure_webhooks: or_below(p.http.allow_insecure_webhooks, s.allow_insecure_webhooks),
        admin_enabled: or_below(p.admin.enabled, s.admin_enabled),
        admin_base_path: or_text(p.admin.base_path, s.admin_base_path),
        storage_mode: or_below(p.storage.mode, s.storage_mode),
        data_dir: or_text(p.storage.data_dir, s.data_dir),
        acid_shard_count: or_below(p.storage.acid_shard_count, s.acid_shard_count),
        acid_backend: or_below(p.storage.acid_backend, s.acid_backend),
        transport_mode: or_below(p.transport.mode, s.transport_mode),
        http_versions: match p.transport.http.versions {
            Some(v) => v@,
            None => s.http_versions,
        },
        cert_path: or_path(either(p.transport.tls.cert_path, p.tls.cert_path), s.cert_path),
        key_path: or_path(either(p.transport.tls.key_path, p.tls.key_path), s.key_path),
        client_ca_path: or_path(p.transport.tls.client_ca_path, s.client_ca_path),
        min_version: or_below(p.transport.tls.min_version, s.min_version),
        max_version: or_below(p.transport.tls.max_version, s.max_version),
        alpn_protocols: match (p.transport.tls.alpn_protocols, p.transport.http.versions) {
            (Some(a), _) => a@,
            (None, Some(v)) => default_alpn(v@),
            (None, None) => s.alpn_protocols,
        },
        long_poll_timeout_secs: or_below(
            either(p.transport.connection.long_poll_timeout_secs, p.server.long_poll_timeout_secs),
            s.long_poll_timeout_secs,
        ),
        sse_reconnect_interval_secs: or_below(
            either(
                p.transport.connection.sse_reconnect_interval_secs,
                p.server.sse_reconnect_interval_secs,
            ),
            s.sse_reconnect_interval_secs,
        ),
        proxy_enabled: or_below(p.proxy.enabled, s.proxy_enabled),
        forwarded_headers: or_below(p.proxy.forwarded_headers, s.forwarded_headers),
        trusted_proxies: match p.proxy.trusted_proxies {
            Some(v) => texts(v@),
            None => s.trusted_proxies,
        },
        identity_mode: or_below(p.proxy.identity.mode, s.identity_mode),
        identity_header: or_path(p.proxy.identity.header_name, s.identity_header),
        identity_require_tls: or_below(p.proxy.identity.require_tls, s.identity_require_tls),
        rust_log: or_text(either(p.observability.rust_log, p.log.rust_log), s.rust_log),
    }
}

/// What a layer adds to what the layers below it have shown.
pub open spec fn context_after(ctx: MergeContext, p: ConfigPatch) -> MergeContext {
    MergeContext {
        explicit_transport_mode: ctx.explicit_transport_mode || p.transport.mode is Some,
        legacy_tls_seen: ctx.legacy_tls_seen || p.tls.cert_path is Some || p.tls.key_path is Some,
    }
}

/// What is known before any layer.
pub open spec fn no_context() -> MergeContext {
    MergeContext { explicit_transport_mode: false, legacy_tls_seen: false }
}

/// The settings in the end: where no layer named the transport mode, certificate settings
/// under their older names mean TLS.
pub open spec fn finalized(s: Settings, ctx: MergeContext) -> Settings {
    if !ctx.explicit_transport_mode && ctx.legacy_tls_seen && s.cert_path is Some && s.key_path is Some {
        Settings { transport_mode: TransportMode::Tls, ..s }
    } else {
        s
    }
}

fn or_first<T>(a: Option<T>, b: Option<T>) -> (r: Option<T>)
    ensures
        r == either(a, b),
{
    if a.is_some() {
        a
    } else {
        b
    }
}

fn lay<T: Copy>(slot: &mut T, layer: Option<T>)
    ensures
        *final(slot) == or_below(layer, *old(slot)),
{
    if let Some(v) = layer {
        *slot = v;
    }
}

fn lay_text(slot: &mut String, layer: Option<String>)
    ensures
        final(slot)@ == or_text(layer, old(slot)@),
{
    if let Some(v) = layer {
        *slot = v;
    }
}

fn lay_path(slot: &mut Option<String>, layer: Option<String>)
    ensures
        text_opt(*final(slot)) == or_path(layer, text_opt(*old(slot))),
{
    if layer.is_some() {
        *slot = layer;
    }
}

fn lay_tls(slot: &mut TransportTlsConfig, layer: TransportTlsConfigPatch, legacy: LegacyTlsPatch)
    ensures
        text_opt(final(slot).cert_path) == or_path(
            either(layer.cert_path, legacy.cert_path),
            text_opt(old(slot).cert_path),
        ),
        text_opt(final(slot).key_path) == or_path(
            either(layer.key_path, legacy.key_path),
            text_opt(old(slot).key_path),
        ),
        text_opt(final(slot).client_ca_path) == or_path(
            layer.client_ca_path,
            text_opt(old(slot).client_ca_path),
        ),
        final(slot).min_version == or_below(layer.min_version, old(slot).min_version),
        final(slot).max_version == or_below(layer.max_version, old(slot).max_version),
        final(slot).alpn_protocols@ == match layer.alpn_protocols {
            Some(a) => a@,
            None => old(slot).alpn_protocols@,
        },
{
    lay_path(&mut slot.cert_path, or_first(layer.cert_path, legacy.cert_path));
    lay_path(&mut slot.key_path, or_first(layer.key_path, legacy.key_path));
    lay_path(&mut slot.client_ca_path, layer.client_ca_path);
    lay(&mut slot.min_version, layer.min_version);
    lay(&mut slot.max_version, layer.max_version);
    if let Some(v) = layer.alpn_protocols {
        slot.alpn_protocols = v;
    }
}

fn lay_connection(
    slot: &mut TransportConnectionConfig,
    layer: TransportConnectionConfigPatch,
    server_long_poll_timeout_secs: Option<u64>,
    server_sse_reconnect_interval_secs: Option<u64>,
)
    ensures
        final(slot).long_poll_timeout_secs == or_below(
            either(layer.long_poll_timeout_secs, server_long_poll_timeout_secs),
            old(slot).long_poll_timeout_secs,
        ),
        final(slot).sse_reconnect_interval_secs == or_below(
            either(layer.sse_reconnect_interval_secs, server_sse_reconnect_interval_secs),
            old(slot).sse_reconnect_interval_secs,
        ),
{
    lay(
        &mut slot.long_poll_timeout_secs,
        or_first(layer.long_poll_timeout_secs, server_long_poll_timeout_secs),
    );
    lay(
        &mut slot.sse_reconnect_interval_secs,
        or_first(layer.sse_reconnect_interval_secs, server_sse_reconnect_interval_secs),
    );
}

/// Whether transport settings are others with a layer over them.
spec fn is_transport_with(
    t: TransportConfig,
    below: TransportConfig,
    p: TransportConfigPatch,
    legacy: LegacyTlsPatch,
    server_long_poll_timeout_secs: Option<u64>,
    server_sse_reconnect_interval_secs: Option<u64>,
) -> bool {
    &&& t.mode == or_below(p.mode, below.mode)
    &&& t.http.versions@ == match p.http.versions {
        Some(v) => v@,
        None => below.http.versions@,
    }
    &&& text_opt(t.tls.cert_path) == or_path(
        either(p.tls.cert_path, legacy.cert_path),
        text_opt(below.tls.cert_path),
    )
    &&& text_opt(t.tls.key_path) == or_path(
        either(p.tls.key_path, legacy.key_path),
        text_opt(below.tls.key_path),
    )
    &&& text_opt(t.tls.client_ca_path) == or_path(
        p.tls.client_ca_path,
        text_opt(below.tls.client_ca_path),
    )
    &&& t.tls.min_version == or_below(p.tls.min_version, below.tls.min_version)
    &&& t.tls.max_version == or_below(p.tls.max_version, below.tls.max_version)
    &&& t.tls.alpn_protocols@ == match (p.tls.alpn_protocols, p.http.versions) {
        (Some(a), _) => a@,
        (None, Some(v)) => default_alpn(v@),
        (None, None) => below.tls.alpn_protocols@,
    }
    &&& t.connection.long_poll_timeout_secs == or_below(
        either(p.connection.long_poll_timeout_secs, server_long_poll_timeout_secs),
        below.connection.long_poll_timeout_secs,
    )
    &&& t.connection.sse_reconnect_interval_secs == or_below(
        either(p.connection.sse_reconnect_interval_secs, server_sse_reconnect_interval_secs),
        below.connection.sse_reconnect_interval_secs,
    )
}

fn lay_versions(slot: &mut TransportConfig, layer: Option<Vec<HttpVersion>>)
    ensures
        *final(slot) == (TransportConfig {
            http: final(slot).http,
            tls: TransportTlsConfig {
                alpn_protocols: final(slot).tls.alpn_protocols,
                ..old(slot).tls
            },
            ..*old(slot)
        }),
        final(slot).http.versions@ == match layer {
            Some(v) => v@,
            None => old(slot).http.versions@,
        },
        final(slot).tls.alpn_protocols@ == match layer {
            Some(v) => default_alpn(v@),
            None => old(slot).tls.alpn_protocols@,
        },
{
    if let Some(versions) = layer {
        slot.tls.alpn_protocols = default_alpn_protocols(&versions);
        slot.http.versions = versions;
    }
}

impl MergeContext {
    /// Nothing is known yet.
    pub fn new() -> (r: Self)
        ensures
            r == no_context(),
    {
        MergeContext { explicit_transport_mode: false, legacy_tls_seen: false }
    }

    /// Settles the transport mode after the last layer.
    pub fn finalize(self, config: &mut Config)
        ensures
            final(config)@ == finalized(old(config)@, self),
    {
        if !self.explicit_transport_mode && self.legacy_tls_seen
            && config.transport.tls.has_server_credentials() {
            config.transport.mode = TransportMode::Tls;
        }
    }
}

impl Config {
    /// Lays a layer over this configuration.
    pub fn apply_patch(&mut self, patch: ConfigPatch, ctx: &mut MergeContext)
        ensures
            final(self)@ == with_patch(old(self)@, patch),
            *final(ctx) == context_after(*old(ctx), patch),
    {
        let ConfigPatch {
            server,
            limits,
            http,
            admin,
            storage,
            transport,
            proxy,
            observability,
            tls,
            log,
        } = patch;
        self.apply_limits_patch(&limits);
        self.apply_http_patch(http);
        self.apply_admin_patch(admin);
        self.apply_storage_patch(storage);
        self.apply_transport_patch(
            transport,
            tls,
            server.long_poll_timeout_secs,
            server.sse_reconnect_interval_secs,
            ctx,
        );
        self.apply_proxy_patch(proxy);
        self.apply_server_patch(server);
        match or_first(observability.rust_log, log.rust_log) {
            Some(rust_log) => {
                self.observability.rust_log = rust_log;
            },
            None => {},
        }
    }

    fn apply_server_patch(&mut self, patch: ServerConfigPatch)
        ensures
            final(self)@ == (Settings {
                bind_address: match (patch.bind_address, patch.port) {
                    (Some(t), _) => t@,
                    (None, Some(port)) => "0.0.0.0:"@ + decimal(port as nat),
                    (None, None) => old(self)@.bind_address,
                },
                ..old(self)@
            }),
    {
        match (patch.bind_address, patch.port) {
            (Some(bind_address), _) => {
                self.server.bind_address = bind_address;
            },
            (None, Some(port)) => {
                self.server.bind_address = joined("0.0.0.0:", u64_text(port as u64).as_str());
            },
            (None, None) => {},
        }
    }

    fn apply_limits_patch(&mut self, patch: &LimitsConfigPatch)
        ensures
            final(self)@ == (Settings {
                max_memory_bytes: or_below(patch.max_memory_bytes, old(self)@.max_memory_bytes),
                max_stream_bytes: or_below(patch.max_stream_bytes, old(self)@.max_stream_bytes),
                max_request_body_bytes: or_below(
                    patch.max_request_body_bytes,
                    old(self)@.max_request_body_bytes,
                ),
                max_stream_name_bytes: or_below(
                    patch.max_stream_name_bytes,
                    old(self)@.max_stream_name_bytes,
                ),
                max_stream_name_segments: or_below(
                    patch.max_stream_name_segments,
                    old(self)@.max_stream_name_segments,
                ),
                ..old(self)@
            }),
    {
        lay(&mut self.limits.max_memory_bytes, patch.max_memory_bytes);
        lay(&mut self.limits.max_stream_bytes, patch.max_stream_bytes);
        lay(&mut self.limits.max_request_body_bytes, patch.max_request_body_bytes);
        lay(&mut self.limits.max_stream_name_bytes, patch.max_stream_name_bytes);
        lay(&mut self.limits.max_stream_name_segments, patch.max_stream_name_segments);
    }

    fn apply_http_patch(&mut self, patch: HttpConfigPatch)
        ensures
            final(self)@ == (Settings {
                cors_origins: or_text(patch.cors_origins, old(self)@.cors_origins),
                stream_base_path: or_text(patch.stream_base_path, old(self)@.stream_base_path),
                allow_wildcard_cors: or_below(
                    patch.allow_wildcard_cors,
                    old(self)@.allow_wildcard_cors,
                ),
                allow_insecure_webhooks: or_below(
                    patch.allow_insecure_webhooks,
                    old(self)@.allow_insecure_webhooks,
                ),
                ..old(self)@
            }),
    {
        lay(&mut self.http.allow_insecure_webhooks, patch.allow_insecure_webhooks);
        lay_text(&mut self.http.cors_origins, patch.cors_origins);
        lay_text(&mut self.http.stream_base_path, patch.stream_base_path);
        lay(&mut self.http.allow_wildcard_cors, patch.allow_wildcard_cors);
    }

    fn apply_admin_patch(&mut self, patch: AdminConfigPatch)
        ensures
            final(self)@ == (Settings {
                admin_enabled: or_below(patch.enabled, old(self)@.admin_enabled),
                admin_base_path: or_text(patch.base_path, old(self)@.admin_base_path),
                ..old(self)@
            }),
    {
        lay(&mut self.admin.enabled, patch.enabled);
        lay_text(&mut self.admin.base_path, patch.base_path);
    }

    fn apply_storage_patch(&mut self, patch: StorageConfigPatch)
        ensures
            final(self)@ == (Settings {
                storage_mode: or_below(patch.mode, old(self)@.storage_mode),
                data_dir: or_text(patch.data_dir, old(self)@.data_dir),
                acid_shard_count: or_below(patch.acid_shard_count, old(self)@.acid_shard_count),
                acid_backend: or_below(patch.acid_backend, old(self)@.acid_backend),
                ..old(self)@
            }),
    {
        lay(&mut self.storage.mode, patch.mode);
        lay_text(&mut self.storage.data_dir, patch.data_dir);
        lay(&mut self.storage.acid_shard_count, patch.acid_shard_count);
        lay(&mut self.storage.acid_backend, patch.acid_backend);
    }

    fn apply_transport_patch(
        &mut self,
        patch: TransportConfigPatch,
        legacy_tls: LegacyTlsPatch,
        server_long_poll_timeout_secs: Option<u64>,
        server_sse_reconnect_interval_secs: Option<u64>,
        ctx: &mut MergeContext,
    )
        ensures
            *final(self) == (Config { transport: final(self).transport, ..*old(self) }),
            is_transport_with(
                final(self).transport,
                old(self).transport,
                patch,
                legacy_tls,
                server_long_poll_timeout_secs,
                server_sse_reconnect_interval_secs,
            ),
            *final(ctx) == (MergeContext {
                explicit_transport_mode: old(ctx).explicit_transport_mode || patch.mode is Some,
                legacy_tls_seen: old(ctx).legacy_tls_seen || legacy_tls.cert_path is Some
                    || legacy_tls.key_path is Some,
            }),
    {
        ctx.explicit_transport_mode = ctx.explicit_transport_mode || patch.mode.is_some();
        ctx.legacy_tls_seen = ctx.legacy_tls_seen || legacy_tls.cert_path.is_some()
            || legacy_tls.key_path.is_some();
        lay(&mut self.transport.mode, patch.mode);
        lay_versions(&mut self.transport, patch.http.versions);
        lay_tls(&mut self.transport.tls, patch.tls, legacy_tls);
        lay_connection(
            &mut self.transport.connection,
            patch.connection,
            server_long_poll_timeout_secs,
            server_sse_reconnect_interval_secs,
        );
    }

    fn apply_proxy_patch(&mut self, patch: ProxyConfigPatch)
        ensures
            final(self)@ == (Settings {
                proxy_enabled: or_below(patch.enabled, old(self)@.proxy_enabled),
                forwarded_headers: or_below(patch.forwarded_headers, old(self)@.forwarded_headers),
                trusted_proxies: match patch.trusted_proxies {
                    Some(v) => texts(v@),
                    None => old(self)@.trusted_proxies,
                },
                identity_mode: or_below(patch.identity.mode, old(self)@.identity_mode),
                identity_header: or_path(patch.identity.header_name, old(self)@.identity_header),
                identity_require_tls: or_below(
                    patch.identity.require_tls,
                    old(self)@.identity_require_tls,
                ),
                ..old(self)@
            }),
    {
        lay(&mut self.proxy.enabled, patch.enabled);
        lay(&mut self.proxy.forwarded_headers, patch.forwarded_headers);
        if let Some(v) = patch.trusted_proxies {
            self.proxy.trusted_proxies = v;
        }
        lay(&mut self.proxy.identity.mode, patch.identity.mode);
        lay_path(&mut self.proxy.identity.header_name, patch.identity.header_name);
        lay(&mut self.proxy.identity.require_tls, patch.identity.require_tls);
    }
}

} // verus!
