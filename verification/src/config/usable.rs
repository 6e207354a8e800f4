//! Which configurations are accepted, and what an error says of one that is not.

use vstd::prelude::*;
use vstd::utf8::encode_utf8;
use crate::config::error::{ConfigValidationError, is_checked};
use crate::config::model::Settings;
use crate::config::modes::{
    AlpnProtocol, ForwardedHeadersMode, HttpVersion, ProxyIdentityMode, StorageMode, TlsVersion,
    TransportMode,
};
use crate::config::profile::DeploymentProfile;
use crate::config::validate::{
    advisories, config_fault, is_ip_or_cidr, is_literal, origins_fault, overlap, profile_fault,
    proxies_fault, router_fault, unexpected_fault,
};
use crate::http::{is_header_name, is_value_bytes};
use crate::net::socket_spec;
use crate::router::usable_origins;
use crate::startup::{one, tls_files};
use crate::text::{is_white_space, split_spec, trim_spec};

verus! {

/// Whether each origin of an allowlist can be sent.
pub open spec fn are_origins(list: Seq<char>) -> bool {
    list == "*"@ || forall|i: int|
        0 <= i < split_spec(list, ',').len() ==> is_origin(#[trigger] split_spec(list, ',')[i])
}

/// Whether a piece of an allowlist is an origin that can be sent.
pub open spec fn is_origin(piece: Seq<char>) -> bool {
    trim_spec(piece).len() > 0 && is_value_bytes(encode_utf8(trim_spec(piece)))
}

/// Whether a path is absolute and can be matched as it is.
pub open spec fn is_mount_path(path: Seq<char>) -> bool {
    &&& path.len() > 0 && path[0] == '/'
    &&& path.len() > 1 ==> path.last() != '/'
    &&& forall|i: int|
        0 <= i < path.len() ==> {
            let c = #[trigger] path[i];
            !is_white_space(c) && c != '{' && c != '}' && c != ':' && c != '*' && c != '?' && c != '#'
        }
}

/// Whether a path to a file is there and not blank.
pub open spec fn is_given(path: Option<Seq<char>>) -> bool {
    path matches Some(p) && trim_spec(p).len() > 0
}

/// Whether the transport settings fit together: plain HTTP has no TLS files and only HTTP/1.1, TLS
/// has a certificate and a key, mutual TLS an authority too, and what is negotiated are the enabled
/// versions.
pub open spec fn is_transport(s: Settings) -> bool {
    &&& s.long_poll_timeout_secs > 0
    &&& s.http_versions.len() > 0
    &&& s.min_version == s.max_version || (s.min_version == TlsVersion::V1_2 && s.max_version
        == TlsVersion::V1_3)
    &&& match s.transport_mode {
        TransportMode::Http => s.cert_path is None && s.key_path is None && s.client_ca_path is None
            && !s.http_versions.contains(HttpVersion::Http2),
        TransportMode::Tls => is_given(s.cert_path) && is_given(s.key_path) && s.client_ca_path is None,
        TransportMode::Mtls => is_given(s.cert_path) && is_given(s.key_path) && is_given(
            s.client_ca_path,
        ),
    }
    &&& s.http_versions.contains(HttpVersion::Http1) <==> s.alpn_protocols.contains(
        AlpnProtocol::Http1_1,
    )
    &&& s.http_versions.contains(HttpVersion::Http2) <==> s.alpn_protocols.contains(AlpnProtocol::H2)
}

/// Whether the proxy settings fit together: where proxies are trusted, it is said which and what
/// they may say, and identity comes by a header only over mutual TLS; else nothing is said.
pub open spec fn is_proxy(s: Settings) -> bool {
    if s.proxy_enabled {
        &&& s.forwarded_headers != ForwardedHeadersMode::Disabled
        &&& s.trusted_proxies.len() > 0
        &&& forall|i: int|
            0 <= i < s.trusted_proxies.len() ==> is_ip_or_cidr(#[trigger] s.trusted_proxies[i])
        &&& match s.identity_header {
            Some(name) => s.identity_mode == ProxyIdentityMode::Header && s.transport_mode
                == TransportMode::Mtls && is_header_name(name),
            None => s.identity_mode == ProxyIdentityMode::Disabled,
        }
    } else {
        s.forwarded_headers == ForwardedHeadersMode::Disabled && s.trusted_proxies.len() == 0
            && s.identity_mode == ProxyIdentityMode::Disabled && s.identity_header is None
    }
}

/// Whether a server can run with a configuration.
pub open spec fn is_usable(s: Settings) -> bool {
    &&& socket_spec(s.bind_address) is Some
    &&& are_origins(s.cors_origins)
    &&& is_mount_path(s.stream_base_path)
    &&& is_mount_path(s.admin_base_path) && s.admin_base_path.len() > 1
    &&& s.admin_enabled ==> !overlap(s.stream_base_path, s.admin_base_path)
    &&& s.max_memory_bytes > 0 && s.max_stream_bytes > 0
    &&& s.max_stream_name_bytes > 0 && s.max_stream_name_segments > 0
    &&& s.storage_mode != StorageMode::Memory ==> trim_spec(s.data_dir).len() > 0
    &&& s.storage_mode == StorageMode::Acid ==> is_power_of_two_up_to_256(s.acid_shard_count)
    &&& is_transport(s)
    &&& is_proxy(s)
}

/// Whether a number is a power of two up to 256.
pub open spec fn is_power_of_two_up_to_256(n: usize) -> bool {
    n == 1 || n == 2 || n == 4 || n == 8 || n == 16 || n == 32 || n == 64 || n == 128 || n == 256
}

proof fn lemma_origins(pieces: Seq<Seq<char>>)
    ensures
        origins_fault(pieces) is None <==> forall|i: int|
            0 <= i < pieces.len() ==> is_origin(#[trigger] pieces[i]),
    decreases pieces.len(),
{
    if pieces.len() > 0 {
        let rest = pieces.drop_first();
        lemma_origins(rest);
        if is_origin(pieces[0]) && origins_fault(rest) is None {
            assert forall|i: int| 0 <= i < pieces.len() implies is_origin(#[trigger] pieces[i]) by {
                if i > 0 {
                    assert(rest[i - 1] == pieces[i]);
                }
            }
        }
        if forall|i: int| 0 <= i < pieces.len() ==> is_origin(#[trigger] pieces[i]) {
            assert(is_origin(pieces[0]));
            assert forall|i: int| 0 <= i < rest.len() implies is_origin(#[trigger] rest[i]) by {
                assert(rest[i] == pieces[i + 1]);
            }
        }
    }
}

proof fn lemma_proxies(entries: Seq<Seq<char>>)
    ensures
        proxies_fault(entries) is None <==> forall|i: int|
            0 <= i < entries.len() ==> is_ip_or_cidr(#[trigger] entries[i]),
    decreases entries.len(),
{
    if entries.len() > 0 {
        let rest = entries.drop_first();
        lemma_proxies(rest);
        if is_ip_or_cidr(entries[0]) && proxies_fault(rest) is None {
            assert forall|i: int| 0 <= i < entries.len() implies is_ip_or_cidr(
                #[trigger] entries[i],
            ) by {
                if i > 0 {
                    assert(rest[i - 1] == entries[i]);
                }
            }
        }
        if forall|i: int| 0 <= i < entries.len() ==> is_ip_or_cidr(#[trigger] entries[i]) {
            assert(is_ip_or_cidr(entries[0]));
            assert forall|i: int| 0 <= i < rest.len() implies is_ip_or_cidr(#[trigger] rest[i]) by {
                assert(rest[i] == entries[i + 1]);
            }
        }
    }
}

proof fn lemma_unexpected(alpn: Seq<AlpnProtocol>, versions: Seq<HttpVersion>)
    ensures
        unexpected_fault(alpn, versions) is None <==> (alpn.contains(AlpnProtocol::H2)
            ==> versions.contains(HttpVersion::Http2)) && (alpn.contains(AlpnProtocol::Http1_1)
            ==> versions.contains(HttpVersion::Http1)),
    decreases alpn.len(),
{
    if alpn.len() > 0 {
        let rest = alpn.drop_first();
        lemma_unexpected(rest, versions);
        lemma_drop_first_contains(alpn, AlpnProtocol::H2);
        lemma_drop_first_contains(alpn, AlpnProtocol::Http1_1);
    } else {
        assert(!alpn.contains(AlpnProtocol::H2) && !alpn.contains(AlpnProtocol::Http1_1));
    }
}

proof fn lemma_drop_first_contains(alpn: Seq<AlpnProtocol>, p: AlpnProtocol)
    requires
        alpn.len() > 0,
    ensures
        alpn.contains(p) <==> alpn[0] == p || alpn.drop_first().contains(p),
{
    let rest = alpn.drop_first();
    if alpn.contains(p) && alpn[0] != p {
        let i = choose|i: int| 0 <= i < alpn.len() && alpn[i] == p;
        assert(rest[i - 1] == p);
    }
    if rest.contains(p) {
        let i = choose|i: int| 0 <= i < rest.len() && rest[i] == p;
        assert(alpn[i + 1] == p);
    }
    if alpn[0] == p {
        assert(alpn.contains(p));
    }
}

proof fn lemma_shards(n: usize)
    ensures
        crate::config::validate::is_shard_count(n) <==> is_power_of_two_up_to_256(n),
{
    vstd::arithmetic::power2::lemma2_to64();
    if is_power_of_two_up_to_256(n) {
        let k: nat = if n == 1 {
            0
        } else if n == 2 {
            1
        } else if n == 4 {
            2
        } else if n == 8 {
            3
        } else if n == 16 {
            4
        } else if n == 32 {
            5
        } else if n == 64 {
            6
        } else if n == 128 {
            7
        } else {
            8
        };
        assert(n == vstd::arithmetic::power2::pow2(k));
    }
    if crate::config::validate::is_shard_count(n) {
        let k = choose|k: nat| k <= 8 && n == #[trigger] vstd::arithmetic::power2::pow2(k);
        assert(k == 0 || k == 1 || k == 2 || k == 3 || k == 4 || k == 5 || k == 6 || k == 7 || k == 8);
    }
}

/// A configuration is accepted exactly where a server can run with it.
pub proof fn law_usable_configurations_are_accepted(
    s: Settings,
    r: Result<(), ConfigValidationError>,
)
    requires
        is_checked(r, config_fault(s)),
    ensures
        r is Ok <==> is_usable(s),
{
    lemma_origins(split_spec(s.cors_origins, ','));
    lemma_proxies(s.trusted_proxies);
    lemma_unexpected(s.alpn_protocols, s.http_versions);
    lemma_shards(s.acid_shard_count);
    lemma_paths(s.stream_base_path);
    lemma_paths(s.admin_base_path);
    lemma_enabled(s);
}

proof fn lemma_enabled(s: Settings)
    ensures
        crate::config::model::enables(s.http_versions, HttpVersion::Http1) == s.http_versions.contains(
            HttpVersion::Http1,
        ),
        crate::config::model::enables(s.http_versions, HttpVersion::Http2) == s.http_versions.contains(
            HttpVersion::Http2,
        ),
        crate::config::model::negotiates(s.alpn_protocols, AlpnProtocol::H2)
            == s.alpn_protocols.contains(AlpnProtocol::H2),
        crate::config::model::negotiates(s.alpn_protocols, AlpnProtocol::Http1_1)
            == s.alpn_protocols.contains(AlpnProtocol::Http1_1),
{
}

proof fn lemma_paths(path: Seq<char>)
    ensures
        crate::config::validate::stream_path_problem(path) is None <==> is_mount_path(path),
        crate::config::validate::admin_path_problem(path) is None <==> is_mount_path(path) && path.len()
            > 1,
{
    if is_mount_path(path) {
        assert(is_literal(path));
    }
}

/// The routes are built exactly where the settings that they need are in order.
pub proof fn law_usable_routes_are_built(s: Settings, r: Result<(), ConfigValidationError>)
    requires
        is_checked(r, router_fault(s)),
    ensures
        r is Ok <==> {
            &&& are_origins(s.cors_origins)
            &&& is_mount_path(s.stream_base_path)
            &&& s.admin_enabled ==> is_mount_path(s.admin_base_path) && s.admin_base_path.len() > 1
                && !overlap(s.stream_base_path, s.admin_base_path)
            &&& s.max_stream_name_bytes > 0 && s.max_stream_name_segments > 0
            &&& s.long_poll_timeout_secs > 0
            &&& is_proxy(s)
        },
{
    lemma_origins(split_spec(s.cors_origins, ','));
    lemma_proxies(s.trusted_proxies);
    lemma_paths(s.stream_base_path);
    lemma_paths(s.admin_base_path);
}

/// Production does not run with an open allowlist that was not asked for; nothing else is refused
/// for the sake of the profile.
pub proof fn law_production_is_not_open_by_accident(
    s: Settings,
    profile: DeploymentProfile,
    r: Result<(), ConfigValidationError>,
)
    requires
        is_checked(r, profile_fault(s, profile)),
    ensures
        r is Err <==> (profile is Prod || profile is ProdTls || profile is ProdMtls) && s.cors_origins
            == "*"@ && !s.allow_wildcard_cors,
{
}

/// An operator is warned of an open allowlist that was not asked for, and of admin routes that can
/// be reached from other machines; and of nothing else.
pub proof fn law_operators_are_warned(s: Settings)
    requires
        socket_spec(s.bind_address) is Some,
    ensures
        advisories(s).len() == (if s.cors_origins == "*"@ && !s.allow_wildcard_cors {
            1int
        } else {
            0
        }) + (if s.admin_enabled && !socket_spec(s.bind_address)->0.ip.loopback() {
            1int
        } else {
            0
        }),
{
}

/// Whether what an error says of a configuration is so.
pub open spec fn is_so(e: ConfigValidationError, s: Settings) -> bool {
    match e {
        ConfigValidationError::InvalidBindAddress { value, .. } => value@ == s.bind_address && socket_spec(
            s.bind_address,
        ) is None,
        ConfigValidationError::InvalidStreamBasePath { value, .. } => value@ == s.stream_base_path
            && !is_mount_path(s.stream_base_path),
        ConfigValidationError::InvalidAdminBasePath { value, .. } => value@ == s.admin_base_path && (
        !is_mount_path(s.admin_base_path) || s.admin_base_path.len() == 1),
        ConfigValidationError::AdminBasePathConflictsWithStreamBasePath => s.admin_enabled && overlap(
            s.stream_base_path,
            s.admin_base_path,
        ),
        ConfigValidationError::EmptyCorsOrigin | ConfigValidationError::InvalidCorsOrigin { .. } =>
            !are_origins(s.cors_origins),
        ConfigValidationError::MaxMemoryBytesTooSmall => s.max_memory_bytes == 0,
        ConfigValidationError::MaxStreamBytesTooSmall => s.max_stream_bytes == 0,
        ConfigValidationError::MaxStreamNameBytesTooSmall => s.max_stream_name_bytes == 0,
        ConfigValidationError::MaxStreamNameSegmentsTooSmall => s.max_stream_name_segments == 0,
        ConfigValidationError::EmptyStorageDataDir { mode } => mode == s.storage_mode && mode
            != StorageMode::Memory && trim_spec(s.data_dir).len() == 0,
        ConfigValidationError::InvalidAcidShardCount => s.storage_mode == StorageMode::Acid
            && !is_power_of_two_up_to_256(s.acid_shard_count),
        ConfigValidationError::LongPollTimeoutTooSmall => s.long_poll_timeout_secs == 0,
        ConfigValidationError::EmptyHttpVersions => s.http_versions.len() == 0,
        ConfigValidationError::HttpModeDoesNotSupportHttp2 => s.transport_mode == TransportMode::Http
            && s.http_versions.contains(HttpVersion::Http2),
        ConfigValidationError::InvalidTlsVersionRange => s.min_version == TlsVersion::V1_3
            && s.max_version == TlsVersion::V1_2,
        ConfigValidationError::MissingTlsField { mode, .. } => mode == s.transport_mode && mode
            != TransportMode::Http,
        ConfigValidationError::HttpModeDisallowsTlsField { .. } => s.transport_mode
            == TransportMode::Http,
        ConfigValidationError::ClientCaRequiresMtls => s.transport_mode == TransportMode::Tls
            && s.client_ca_path is Some,
        ConfigValidationError::MissingAlpnProtocol { version, alpn } => s.http_versions.contains(version)
            && !s.alpn_protocols.contains(alpn) && (version == HttpVersion::Http2 <==> alpn
            == AlpnProtocol::H2),
        ConfigValidationError::ProxyEnabledRequiresForwardedHeaders => s.proxy_enabled
            && s.forwarded_headers == ForwardedHeadersMode::Disabled,
        ConfigValidationError::ProxyEnabledRequiresTrustedProxies => s.proxy_enabled
            && s.trusted_proxies.len() == 0,
        ConfigValidationError::ProxyDisabledDisallowsTrustedProxies => !s.proxy_enabled
            && s.trusted_proxies.len() > 0,
        ConfigValidationError::ProxyDisabledDisallowsForwardedHeaders { mode } => !s.proxy_enabled && mode
            == s.forwarded_headers && mode != ForwardedHeadersMode::Disabled,
        ConfigValidationError::ProxyDisabledDisallowsIdentityMode { mode } => !s.proxy_enabled && mode
            == s.identity_mode && mode != ProxyIdentityMode::Disabled,
        ConfigValidationError::ProxyDisabledDisallowsIdentityHeader => !s.proxy_enabled
            && s.identity_header is Some,
        ConfigValidationError::HeaderIdentityRequiresHeaderName => s.proxy_enabled && s.identity_mode
            == ProxyIdentityMode::Header && s.identity_header is None,
        _ => true,
    }
}

proof fn lemma_plain_faults(pieces: Seq<Seq<char>>, entries: Seq<Seq<char>>, alpn: Seq<AlpnProtocol>, versions: Seq<HttpVersion>)
    ensures
        origins_fault(pieces) matches Some(f) ==> (f == crate::config::error::Fault::Plain(
            ConfigValidationError::EmptyCorsOrigin,
        ) || f is CorsOrigin),
        proxies_fault(entries) matches Some(f) ==> f is TrustedProxy,
        unexpected_fault(alpn, versions) matches Some(f) ==> (f matches crate::config::error::Fault::Plain(
            e,
        ) && e is UnexpectedAlpnProtocol),
    decreases pieces.len() + entries.len() + alpn.len(),
{
    if pieces.len() > 0 {
        lemma_plain_faults(pieces.drop_first(), entries, alpn, versions);
    }
    if entries.len() > 0 {
        lemma_plain_faults(pieces, entries.drop_first(), alpn, versions);
    }
    if alpn.len() > 0 {
        lemma_plain_faults(pieces, entries, alpn.drop_first(), versions);
    }
}

/// What an error says of a refused configuration is so.
#[verifier::rlimit(40)]
pub proof fn law_configuration_errors_are_true(s: Settings, e: ConfigValidationError)
    requires
        is_checked(Err(e), config_fault(s)),
    ensures
        is_so(e, s),
{
    lemma_origins(split_spec(s.cors_origins, ','));
    lemma_plain_faults(
        split_spec(s.cors_origins, ','),
        s.trusted_proxies,
        s.alpn_protocols,
        s.http_versions,
    );
    lemma_shards(s.acid_shard_count);
    lemma_paths(s.stream_base_path);
    lemma_paths(s.admin_base_path);
    lemma_enabled(s);
}

/// The origins that a server allows are those of an accepted allowlist, each and in order, without
/// blanks around them.
pub proof fn law_accepted_origins_are_allowed(pieces: Seq<Seq<char>>)
    requires
        forall|i: int| 0 <= i < pieces.len() ==> is_origin(#[trigger] pieces[i]),
    ensures
        usable_origins(pieces) == pieces.map_values(|p: Seq<char>| trim_spec(p)),
    decreases pieces.len(),
{
    let trimmed = pieces.map_values(|p: Seq<char>| trim_spec(p));
    if pieces.len() > 0 {
        let most = pieces.drop_last();
        assert forall|i: int| 0 <= i < most.len() implies is_origin(#[trigger] most[i]) by {
            assert(most[i] == pieces[i]);
        }
        law_accepted_origins_are_allowed(most);
        assert(is_origin(pieces[pieces.len() - 1]));
        assert(trimmed =~= most.map_values(|p: Seq<char>| trim_spec(p)).push(trim_spec(pieces.last())));
    } else {
        assert(trimmed =~= Seq::<Seq<char>>::empty());
    }
}

/// The TLS files that are checked at the start are those that the configuration names, the
/// certificate first.
pub proof fn law_every_tls_file_is_checked(s: Settings, path: Seq<char>)
    ensures
        tls_files(s).contains(path) <==> s.cert_path == Some(path) || s.key_path == Some(path)
            || s.client_ca_path == Some(path),
        s.cert_path matches Some(p) ==> tls_files(s)[0] == p,
{
    let f = tls_files(s);
    if let Some(p) = s.cert_path {
        assert(f[0] == p);
    }
    if let Some(p) = s.key_path {
        assert(f[one(s.cert_path).len() as int] == p);
    }
    if let Some(p) = s.client_ca_path {
        assert(f[f.len() - 1] == p);
    }
}

} // verus!
