//! Why a configuration cannot be loaded or used.

use vstd::prelude::*;
use crate::config::modes::{
    AlpnProtocol, ForwardedHeadersMode, HttpVersion, ProxyIdentityMode, StorageMode, TransportMode,
};
use crate::text::{joined, joined3, joined4, joined5};

verus! {

/// Errors raised while loading config sources.
#[derive(Debug, Clone, PartialEq, Eq)]
pub enum ConfigLoadError {
    /// An explicitly requested override file does not exist.
    OverrideFileNotFound {
        /// Requested override file path.
        path: String,
    },
    /// A configuration source could not be decoded as the expected TOML structure.
    TomlParse {
        /// Parser diagnostic from the configuration provider.
        message: String,
    },
    /// A source value could not be converted to the expected setting type.
    InvalidValue {
        /// Source category, such as an environment override.
        input_source: &'static str,
        /// Configuration key that failed conversion.
        key: &'static str,
        /// Unconverted input value.
        value: String,
        /// Explanation of the failed conversion.
        reason: String,
    },
}

impl ConfigLoadError {
    /// The error in words.
    pub open spec fn text(self) -> Seq<char> {
        match self {
            ConfigLoadError::OverrideFileNotFound { path } => "config override file not found: '"@
                + path@ + "'"@,
            ConfigLoadError::TomlParse { message } => "failed to parse TOML config: "@ + message@,
            ConfigLoadError::InvalidValue { input_source, key, value, reason } => "invalid "@
                + input_source@ + " value for "@ + key@ + ": '"@ + value@ + "' ("@ + reason@ + ")"@,
        }
    }

    /// The error in words.
    pub fn to_string(&self) -> (r: String)
        ensures
            r@ == self.text(),
    {
        match self {
            ConfigLoadError::OverrideFileNotFound { path } => joined3(
                "config override file not found: '",
                path.as_str(),
                "'",
            ),
            ConfigLoadError::TomlParse { message } => joined(
                "failed to parse TOML config: ",
                message.as_str(),
            ),
            ConfigLoadError::InvalidValue { input_source, key, value, reason } => {
                let a = joined4("invalid ", input_source, " value for ", key);
                let b = joined5(a.as_str(), ": '", value.as_str(), "' (", reason.as_str());
                joined(b.as_str(), ")")
            },
        }
    }
}

/// Typed validation errors raised before startup.
#[derive(Debug, Clone, PartialEq, Eq)]
pub enum ConfigValidationError {
    /// The listener address is not a valid socket address.
    InvalidBindAddress {
        /// Configured value that failed validation.
        value: String,
        /// Explanation of the validation failure.
        reason: String,
    },
    /// The protocol mount path violates route constraints.
    InvalidStreamBasePath {
        /// Configured value that failed validation.
        value: String,
        /// Explanation of the validation failure.
        reason: String,
    },
    /// The admin mount path violates route constraints.
    InvalidAdminBasePath {
        /// Configured value that failed validation.
        value: String,
        /// Explanation of the validation failure.
        reason: String,
    },
    /// Enabled admin routes overlap the protocol mount path.
    AdminBasePathConflictsWithStreamBasePath,
    /// The CORS list includes an empty entry.
    EmptyCorsOrigin,
    /// A CORS entry is not an accepted origin.
    InvalidCorsOrigin {
        /// Configured value that failed validation.
        value: String,
    },
    /// The total payload byte limit is zero.
    MaxMemoryBytesTooSmall,
    /// The per-stream payload byte limit is zero.
    MaxStreamBytesTooSmall,
    /// The stream-name byte limit is zero.
    MaxStreamNameBytesTooSmall,
    /// The stream-name segment limit is zero.
    MaxStreamNameSegmentsTooSmall,
    /// A persistence mode requires a non-empty data directory.
    EmptyStorageDataDir {
        /// Configured mode involved in the conflict or requirement.
        mode: StorageMode,
    },
    /// ACID shard count must be a power of two between 1 and 256.
    InvalidAcidShardCount,
    /// The long-poll timeout is zero.
    LongPollTimeoutTooSmall,
    /// No HTTP protocol version is enabled.
    EmptyHttpVersions,
    /// HTTP/2 was requested for the plain HTTP listener.
    HttpModeDoesNotSupportHttp2,
    /// The minimum TLS version exceeds the maximum.
    InvalidTlsVersionRange,
    /// The selected TLS mode lacks a required credential path.
    MissingTlsField {
        /// Configured mode involved in the conflict or requirement.
        mode: TransportMode,
        /// TLS field requiring correction.
        field: &'static str,
    },
    /// A TLS credential path was supplied for plain HTTP.
    HttpModeDisallowsTlsField {
        /// TLS field requiring correction.
        field: &'static str,
    },
    /// A client CA was supplied for TLS without client authentication.
    ClientCaRequiresMtls,
    /// A configured TLS file path is empty.
    EmptyPath {
        /// TLS field requiring correction.
        field: &'static str,
    },
    /// An enabled HTTP version is absent from TLS ALPN negotiation.
    MissingAlpnProtocol {
        /// Enabled HTTP version.
        version: HttpVersion,
        /// ALPN identifier involved in the mismatch.
        alpn: AlpnProtocol,
    },
    /// TLS ALPN advertises an HTTP version that is not enabled.
    UnexpectedAlpnProtocol {
        /// ALPN identifier involved in the mismatch.
        alpn: AlpnProtocol,
    },
    /// Proxy trust is enabled without a forwarded-header family.
    ProxyEnabledRequiresForwardedHeaders,
    /// Proxy trust is enabled without any trusted peer addresses.
    ProxyEnabledRequiresTrustedProxies,
    /// Trusted peers were configured while proxy trust is disabled.
    ProxyDisabledDisallowsTrustedProxies,
    /// Forwarded headers were enabled while proxy trust is disabled.
    ProxyDisabledDisallowsForwardedHeaders {
        /// Configured mode involved in the conflict or requirement.
        mode: ForwardedHeadersMode,
    },
    /// Proxy identity handoff was enabled while proxy trust is disabled.
    ProxyDisabledDisallowsIdentityMode {
        /// Configured mode involved in the conflict or requirement.
        mode: ProxyIdentityMode,
    },
    /// An identity header was set while proxy trust is disabled.
    ProxyDisabledDisallowsIdentityHeader,
    /// A trusted proxy entry is not an accepted IP address or CIDR range.
    InvalidTrustedProxy {
        /// Configured value that failed validation.
        value: String,
    },
    /// Header-based identity handoff lacks a header name.
    HeaderIdentityRequiresHeaderName,
    /// Header-based identity handoff requires mutual TLS.
    HeaderIdentityRequiresMtls,
    /// An identity header name was set without header-based identity handoff.
    IdentityHeaderRequiresHeaderMode,
    /// The identity header name is not a valid HTTP header name.
    InvalidIdentityHeaderName {
        /// Configured value that failed validation.
        value: String,
    },
    /// A production profile uses wildcard CORS without an explicit override.
    WildcardCorsOriginsProd {
        /// Deployment profile that requires an explicit CORS policy.
        profile: String,
    },
}

impl ConfigValidationError {
    /// The error in words.
    pub open spec fn text(self) -> Seq<char> {
        match self {
            ConfigValidationError::InvalidBindAddress { value, reason } => "server.bind_address is invalid: '"@ + value@ + "' ("@ + reason@ + ")"@,
            ConfigValidationError::InvalidStreamBasePath { value, reason } => "http.stream_base_path is invalid: '"@ + value@ + "' ("@ + reason@ + ")"@,
            ConfigValidationError::InvalidAdminBasePath { value, reason } => "admin.base_path is invalid: '"@ + value@ + "' ("@ + reason@ + ")"@,
            ConfigValidationError::AdminBasePathConflictsWithStreamBasePath => "admin.base_path must not overlap http.stream_base_path"@,
            ConfigValidationError::EmptyCorsOrigin => "http.cors_origins contains an empty origin entry"@,
            ConfigValidationError::InvalidCorsOrigin { value } => "http.cors_origins entry is invalid: '"@ + value@ + "'"@,
            ConfigValidationError::MaxMemoryBytesTooSmall => "limits.max_memory_bytes must be at least 1"@,
            ConfigValidationError::MaxStreamBytesTooSmall => "limits.max_stream_bytes must be at least 1"@,
            ConfigValidationError::MaxStreamNameBytesTooSmall => "limits.max_stream_name_bytes must be at least 1"@,
            ConfigValidationError::MaxStreamNameSegmentsTooSmall => "limits.max_stream_name_segments must be at least 1"@,
            ConfigValidationError::EmptyStorageDataDir { mode } => "storage.data_dir must be a non-empty path when storage.mode is '"@ + mode.label() + "'"@,
            ConfigValidationError::InvalidAcidShardCount => "storage.acid_shard_count must be a power of two in 1..=256 when storage.mode is 'acid'"@,
            ConfigValidationError::LongPollTimeoutTooSmall => "transport.connection.long_poll_timeout_secs must be at least 1"@,
            ConfigValidationError::EmptyHttpVersions => "transport.http.versions must include at least one version"@,
            ConfigValidationError::HttpModeDoesNotSupportHttp2 => "transport.mode='http' does not support transport.http.versions containing http2"@,
            ConfigValidationError::InvalidTlsVersionRange => "transport.tls.min_version must be less than or equal to transport.tls.max_version"@,
            ConfigValidationError::MissingTlsField { mode, field } => "transport.mode='"@ + mode.label() + "' requires transport.tls."@ + field@,
            ConfigValidationError::HttpModeDisallowsTlsField { field } => "transport.mode='http' cannot be combined with transport.tls."@ + field@,
            ConfigValidationError::ClientCaRequiresMtls => "transport.mode='tls' cannot be combined with transport.tls.client_ca_path"@,
            ConfigValidationError::EmptyPath { field } => "transport.tls."@ + field@ + " must be a non-empty path when set"@,
            ConfigValidationError::MissingAlpnProtocol { version, alpn } => "transport.http.versions includes '"@ + version.label() + "', but transport.tls.alpn_protocols is missing '"@ + alpn.label() + "'"@,
            ConfigValidationError::UnexpectedAlpnProtocol { alpn } => "transport.tls.alpn_protocols includes '"@ + alpn.label() + "', but transport.http.versions does not enable the matching HTTP version"@,
            ConfigValidationError::ProxyEnabledRequiresForwardedHeaders => "proxy.enabled=true requires proxy.forwarded_headers to be set to 'x-forwarded' or 'forwarded'"@,
            ConfigValidationError::ProxyEnabledRequiresTrustedProxies => "proxy.enabled=true requires at least one entry in proxy.trusted_proxies"@,
            ConfigValidationError::ProxyDisabledDisallowsTrustedProxies => "proxy.enabled=false cannot be combined with proxy.trusted_proxies"@,
            ConfigValidationError::ProxyDisabledDisallowsForwardedHeaders { mode } => "proxy.enabled=false cannot be combined with proxy.forwarded_headers='"@ + mode.shown() + "'"@,
            ConfigValidationError::ProxyDisabledDisallowsIdentityMode { mode } => "proxy.enabled=false cannot be combined with proxy.identity.mode='"@ + mode.shown() + "'"@,
            ConfigValidationError::ProxyDisabledDisallowsIdentityHeader => "proxy.enabled=false cannot be combined with proxy.identity.header_name"@,
            ConfigValidationError::InvalidTrustedProxy { value } => "proxy.trusted_proxies entry is invalid: '"@ + value@ + "'"@,
            ConfigValidationError::HeaderIdentityRequiresHeaderName => "proxy.identity.mode='header' requires proxy.identity.header_name"@,
            ConfigValidationError::HeaderIdentityRequiresMtls => "proxy.identity.mode='header' requires transport.mode='mtls'"@,
            ConfigValidationError::IdentityHeaderRequiresHeaderMode => "proxy.identity.mode='none' cannot be combined with proxy.identity.header_name"@,
            ConfigValidationError::InvalidIdentityHeaderName { value } => "proxy.identity.header_name is invalid: '"@ + value@ + "'"@,
            ConfigValidationError::WildcardCorsOriginsProd { profile } => "http.cors_origins='*' is not allowed for the '"@ + profile@ + "' deployment profile; set http.allow_wildcard_cors=true to override, or specify explicit origins"@,
        }
    }

    /// The error in words.
    pub fn to_string(&self) -> (r: String)
        ensures
            r@ == self.text(),
    {
        match self {
            ConfigValidationError::InvalidBindAddress { value, reason } => joined5(
                "server.bind_address is invalid: '",
                value.as_str(),
                "' (",
                reason.as_str(),
                ")",
            ),
            ConfigValidationError::InvalidStreamBasePath { value, reason } => joined5(
                "http.stream_base_path is invalid: '",
                value.as_str(),
                "' (",
                reason.as_str(),
                ")",
            ),
            ConfigValidationError::InvalidAdminBasePath { value, reason } => joined5(
                "admin.base_path is invalid: '",
                value.as_str(),
                "' (",
                reason.as_str(),
                ")",
            ),
            ConfigValidationError::AdminBasePathConflictsWithStreamBasePath => "admin.base_path must not overlap http.stream_base_path".to_owned(),
            ConfigValidationError::EmptyCorsOrigin => "http.cors_origins contains an empty origin entry".to_owned(),
            ConfigValidationError::InvalidCorsOrigin { value } => joined3(
                "http.cors_origins entry is invalid: '",
                value.as_str(),
                "'",
            ),
            ConfigValidationError::MaxMemoryBytesTooSmall => "limits.max_memory_bytes must be at least 1".to_owned(),
            ConfigValidationError::MaxStreamBytesTooSmall => "limits.max_stream_bytes must be at least 1".to_owned(),
            ConfigValidationError::MaxStreamNameBytesTooSmall => "limits.max_stream_name_bytes must be at least 1".to_owned(),
            ConfigValidationError::MaxStreamNameSegmentsTooSmall => "limits.max_stream_name_segments must be at least 1".to_owned(),
            ConfigValidationError::EmptyStorageDataDir { mode } => joined3(
                "storage.data_dir must be a non-empty path when storage.mode is '",
                mode.as_str(),
                "'",
            ),
            ConfigValidationError::InvalidAcidShardCount => "storage.acid_shard_count must be a power of two in 1..=256 when storage.mode is 'acid'".to_owned(),
            ConfigValidationError::LongPollTimeoutTooSmall => "transport.connection.long_poll_timeout_secs must be at least 1".to_owned(),
            ConfigValidationError::EmptyHttpVersions => "transport.http.versions must include at least one version".to_owned(),
            ConfigValidationError::HttpModeDoesNotSupportHttp2 => "transport.mode='http' does not support transport.http.versions containing http2".to_owned(),
            ConfigValidationError::InvalidTlsVersionRange => "transport.tls.min_version must be less than or equal to transport.tls.max_version".to_owned(),
            ConfigValidationError::MissingTlsField { mode, field } => joined4(
                "transport.mode='",
                mode.as_str(),
                "' requires transport.tls.",
                field,
            ),
            ConfigValidationError::HttpModeDisallowsTlsField { field } => joined(
                "transport.mode='http' cannot be combined with transport.tls.",
                field,
            ),
            ConfigValidationError::ClientCaRequiresMtls => "transport.mode='tls' cannot be combined with transport.tls.client_ca_path".to_owned(),
            ConfigValidationError::EmptyPath { field } => joined3(
                "transport.tls.",
                field,
                " must be a non-empty path when set",
            ),
            ConfigValidationError::MissingAlpnProtocol { version, alpn } => joined5(
                "transport.http.versions includes '",
                version.as_str(),
                "', but transport.tls.alpn_protocols is missing '",
                alpn.as_str(),
                "'",
            ),
            ConfigValidationError::UnexpectedAlpnProtocol { alpn } => joined3(
                "transport.tls.alpn_protocols includes '",
                alpn.as_str(),
                "', but transport.http.versions does not enable the matching HTTP version",
            ),
            ConfigValidationError::ProxyEnabledRequiresForwardedHeaders => "proxy.enabled=true requires proxy.forwarded_headers to be set to 'x-forwarded' or 'forwarded'".to_owned(),
            ConfigValidationError::ProxyEnabledRequiresTrustedProxies => "proxy.enabled=true requires at least one entry in proxy.trusted_proxies".to_owned(),
            ConfigValidationError::ProxyDisabledDisallowsTrustedProxies => "proxy.enabled=false cannot be combined with proxy.trusted_proxies".to_owned(),
            ConfigValidationError::ProxyDisabledDisallowsForwardedHeaders { mode } => joined3(
                "proxy.enabled=false cannot be combined with proxy.forwarded_headers='",
                mode.debug_name(),
                "'",
            ),
            ConfigValidationError::ProxyDisabledDisallowsIdentityMode { mode } => joined3(
                "proxy.enabled=false cannot be combined with proxy.identity.mode='",
                mode.debug_name(),
                "'",
            ),
            ConfigValidationError::ProxyDisabledDisallowsIdentityHeader => "proxy.enabled=false cannot be combined with proxy.identity.header_name".to_owned(),
            ConfigValidationError::InvalidTrustedProxy { value } => joined3(
                "proxy.trusted_proxies entry is invalid: '",
                value.as_str(),
                "'",
            ),
            ConfigValidationError::HeaderIdentityRequiresHeaderName => "proxy.identity.mode='header' requires proxy.identity.header_name".to_owned(),
            ConfigValidationError::HeaderIdentityRequiresMtls => "proxy.identity.mode='header' requires transport.mode='mtls'".to_owned(),
            ConfigValidationError::IdentityHeaderRequiresHeaderMode => "proxy.identity.mode='none' cannot be combined with proxy.identity.header_name".to_owned(),
            ConfigValidationError::InvalidIdentityHeaderName { value } => joined3(
                "proxy.identity.header_name is invalid: '",
                value.as_str(),
                "'",
            ),
            ConfigValidationError::WildcardCorsOriginsProd { profile } => joined3(
                "http.cors_origins='*' is not allowed for the '",
                profile.as_str(),
                "' deployment profile; set http.allow_wildcard_cors=true to override, or specify explicit origins",
            ),
        }
    }
}

/// What is wrong with a configuration, with texts as sequences.
pub enum Fault {
    /// An error without texts of its own.
    Plain(ConfigValidationError),
    BindAddress { value: Seq<char>, reason: Seq<char> },
    StreamBasePath { value: Seq<char>, reason: Seq<char> },
    AdminBasePath { value: Seq<char>, reason: Seq<char> },
    CorsOrigin { value: Seq<char> },
    MissingTlsField { mode: TransportMode, field: Seq<char> },
    UnwantedTlsField { field: Seq<char> },
    EmptyPath { field: Seq<char> },
    TrustedProxy { value: Seq<char> },
    IdentityHeader { value: Seq<char> },
    WildcardCors { profile: Seq<char> },
}

impl ConfigValidationError {
    /// Whether this error reports the fault.
    pub open spec fn reports(self, fault: Fault) -> bool {
        match fault {
            Fault::Plain(e) => self == e,
            Fault::BindAddress { value: v, reason: r } =>
                self matches ConfigValidationError::InvalidBindAddress { value, reason } && value@ == v
                && reason@ == r,
            Fault::StreamBasePath { value: v, reason: r } =>
                self matches ConfigValidationError::InvalidStreamBasePath { value, reason } && value@
                == v && reason@ == r,
            Fault::AdminBasePath { value: v, reason: r } =>
                self matches ConfigValidationError::InvalidAdminBasePath { value, reason } && value@
                == v && reason@ == r,
            Fault::CorsOrigin { value: v } =>
                self matches ConfigValidationError::InvalidCorsOrigin { value } && value@ == v,
            Fault::MissingTlsField { mode: m, field: f } =>
                self matches ConfigValidationError::MissingTlsField { mode, field } && mode == m
                && field@ == f,
            Fault::UnwantedTlsField { field: f } =>
                self matches ConfigValidationError::HttpModeDisallowsTlsField { field } && field@ == f,
            Fault::EmptyPath { field: f } =>
                self matches ConfigValidationError::EmptyPath { field } && field@ == f,
            Fault::TrustedProxy { value: v } =>
                self matches ConfigValidationError::InvalidTrustedProxy { value } && value@ == v,
            Fault::IdentityHeader { value: v } =>
                self matches ConfigValidationError::InvalidIdentityHeaderName { value } && value@ == v,
            Fault::WildcardCors { profile: p } =>
                self matches ConfigValidationError::WildcardCorsOriginsProd { profile } && profile@
                == p,
        }
    }
}

/// The first of two faults.
pub open spec fn first(a: Option<Fault>, b: Option<Fault>) -> Option<Fault> {
    if a is Some {
        a
    } else {
        b
    }
}

/// Whether a check reports exactly this fault, or none.
pub open spec fn is_checked(r: Result<(), ConfigValidationError>, fault: Option<Fault>) -> bool {
    match r {
        Ok(_) => fault is None,
        Err(e) => fault matches Some(f) && e.reports(f),
    }
}

} // verus!
