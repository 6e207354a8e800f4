//! Checks on a resolved configuration.

use vstd::prelude::*;
use vstd::utf8::encode_utf8;
use crate::config::error::{ConfigValidationError, Fault, first, is_checked};
use crate::config::model::{
    Config, Settings, contains_protocol, contains_version, enables, negotiates,
};
use crate::config::modes::{
    AlpnProtocol, ForwardedHeadersMode, HttpVersion, ProxyIdentityMode, StorageMode, TransportMode,
};
use crate::config::profile::DeploymentProfile;
use crate::decimal::{parse_unsigned, unsigned_value};
use crate::http::{check_header_value, header_name, is_header_name, is_value_bytes};
use crate::net::{IpAddr, SocketAddr, ip_spec, parse_ip, parse_socket, socket_spec};
use crate::text::{
    after_spec, before_spec, chars_of, is_white_space, join_spec, joined3, lemma_join_then,
    lemma_split, lemma_split_then, same, split, split_once, split_spec, starts_with, text_opt, texts, trim, trim_spec, white_space,
};

verus! {

/// The fault of a listener address.
pub open spec fn bind_fault(raw: Seq<char>) -> Option<Fault> {
    if socket_spec(raw) is Some {
        None
    } else {
        Some(Fault::BindAddress { value: raw, reason: "invalid socket address syntax"@ })
    }
}

fn validate_socket_addr(raw: &str) -> (r: Result<SocketAddr, ConfigValidationError>)
    ensures
        match r {
            Ok(a) => socket_spec(raw@) == Some(a),
            Err(e) => bind_fault(raw@) matches Some(f) && e.reports(f),
        },
{
    match parse_socket(raw) {
        Some(a) => Ok(a),
        None => Err(
            ConfigValidationError::InvalidBindAddress {
                value: raw.to_owned(),
                reason: "invalid socket address syntax".to_owned(),
            },
        ),
    }
}

/// The first fault in a list of origins: one is empty, or cannot stand in a header.
pub open spec fn origins_fault(pieces: Seq<Seq<char>>) -> Option<Fault>
    decreases pieces.len(),
{
    if pieces.len() == 0 {
        None
    } else {
        let origin = trim_spec(pieces[0]);
        if origin.len() == 0 {
            Some(Fault::Plain(ConfigValidationError::EmptyCorsOrigin))
        } else if !is_value_bytes(encode_utf8(origin)) {
            Some(Fault::CorsOrigin { value: origin })
        } else {
            origins_fault(pieces.drop_first())
        }
    }
}

/// The fault of a CORS allowlist.
pub open spec fn cors_fault(origins: Seq<char>) -> Option<Fault> {
    if origins == "*"@ {
        None
    } else {
        origins_fault(split_spec(origins, ','))
    }
}

fn validate_cors_origins(origins: &str) -> (r: Result<(), ConfigValidationError>)
    ensures
        is_checked(r, cors_fault(origins@)),
{
    if same(origins, "*") {
        return Ok(());
    }
    let pieces = split(origins, ',');
    let mut i: usize = 0;
    assert(texts(pieces@).skip(0) =~= texts(pieces@));
    while i < pieces.len()
        invariant
            i <= pieces@.len(),
            texts(pieces@) == split_spec(origins@, ','),
            origins@ != "*"@,
            cors_fault(origins@) == origins_fault(texts(pieces@).skip(i as int)),
        decreases pieces.len() - i,
    {
        let ghost rest = texts(pieces@).skip(i as int);
        assert(rest[0] == pieces@[i as int]@);
        assert(rest.drop_first() =~= texts(pieces@).skip(i + 1));
        let origin = trim(pieces[i].as_str());
        if same(origin, "") {
            proof {
                reveal_strlit("");
            }
            return Err(ConfigValidationError::EmptyCorsOrigin);
        }
        proof {
            reveal_strlit("");
            if origin@.len() == 0 {
                assert(origin@ =~= ""@);
            }
        }
        match check_header_value(origin) {
            Ok(_) => {},
            Err(_) => return Err(
                ConfigValidationError::InvalidCorsOrigin { value: origin.to_owned() },
            ),
        }
        i += 1;
    }
    Ok(())
}

/// Whether `c` may stand in a mount path: no white space, and nothing that has a meaning in
/// routes, queries or fragments.
pub open spec fn is_path_char(c: char) -> bool {
    !is_white_space(c) && c != '{' && c != '}' && c != ':' && c != '*' && c != '?' && c != '#'
}

/// Whether a mount path is literal.
pub open spec fn is_literal(raw: Seq<char>) -> bool {
    forall|i: int| 0 <= i < raw.len() ==> is_path_char(#[trigger] raw[i])
}

fn literal(raw: &str) -> (r: bool)
    ensures
        r == is_literal(raw@),
{
    let v = chars_of(raw);
    let mut i: usize = 0;
    while i < v.len()
        invariant
            i <= v@.len(),
            v@ == raw@,
            forall|k: int| 0 <= k < i ==> is_path_char(#[trigger] raw@[k]),
        decreases v.len() - i,
    {
        let c = v[i];
        if white_space(c) || c == '{' || c == '}' || c == ':' || c == '*' || c == '?' || c == '#' {
            assert(!is_path_char(raw@[i as int]));
            return false;
        }
        i += 1;
    }
    true
}

/// Why a mount path for the protocol is rejected, if it is.
pub open spec fn stream_path_problem(raw: Seq<char>) -> Option<Seq<char>> {
    if !is_literal(raw) {
        Some("must be a literal URL path without whitespace, parameters, query, or fragment"@)
    } else if raw.len() == 0 {
        Some("must be a non-empty absolute path"@)
    } else if raw[0] != '/' {
        Some("must start with '/'"@)
    } else if raw.len() > 1 && raw.last() == '/' {
        Some("must not end with '/' unless the path is '/'"@)
    } else {
        None
    }
}

/// Why a mount path for the admin routes is rejected, if it is.
pub open spec fn admin_path_problem(raw: Seq<char>) -> Option<Seq<char>> {
    if !is_literal(raw) {
        Some("must be a literal path without whitespace, parameters, query, or fragment"@)
    } else if raw.len() == 0 {
        Some("must be a non-empty absolute path"@)
    } else if raw[0] != '/' {
        Some("must start with '/'"@)
    } else if raw.len() == 1 {
        Some("must not be '/'"@)
    } else if raw.last() == '/' {
        Some("must not end with '/'"@)
    } else {
        None
    }
}

/// The fault of a mount path for the protocol.
pub open spec fn stream_path_fault(raw: Seq<char>) -> Option<Fault> {
    match stream_path_problem(raw) {
        Some(reason) => Some(Fault::StreamBasePath { value: raw, reason }),
        None => None,
    }
}

/// The fault of a mount path for the admin routes.
pub open spec fn admin_path_fault(raw: Seq<char>) -> Option<Fault> {
    match admin_path_problem(raw) {
        Some(reason) => Some(Fault::AdminBasePath { value: raw, reason }),
        None => None,
    }
}

fn validate_stream_base_path(raw: &str) -> (r: Result<(), ConfigValidationError>)
    ensures
        is_checked(r, stream_path_fault(raw@)),
{
    let v = chars_of(raw);
    let n: usize = v.len();
    let reason: &'static str = if !literal(raw) {
        "must be a literal URL path without whitespace, parameters, query, or fragment"
    } else if n == 0 {
        "must be a non-empty absolute path"
    } else if v[0] != '/' {
        "must start with '/'"
    } else if n > 1 && v[n - 1] == '/' {
        "must not end with '/' unless the path is '/'"
    } else {
        return Ok(());
    };
    Err(
        ConfigValidationError::InvalidStreamBasePath {
            value: raw.to_owned(),
            reason: reason.to_owned(),
        },
    )
}

fn validate_admin_base_path(raw: &str) -> (r: Result<(), ConfigValidationError>)
    ensures
        is_checked(r, admin_path_fault(raw@)),
{
    let v = chars_of(raw);
    let n: usize = v.len();
    let reason: &'static str = if !literal(raw) {
        "must be a literal path without whitespace, parameters, query, or fragment"
    } else if n == 0 {
        "must be a non-empty absolute path"
    } else if v[0] != '/' {
        "must start with '/'"
    } else if n == 1 {
        "must not be '/'"
    } else if v[n - 1] == '/' {
        "must not end with '/'"
    } else {
        return Ok(());
    };
    Err(
        ConfigValidationError::InvalidAdminBasePath {
            value: raw.to_owned(),
            reason: reason.to_owned(),
        },
    )
}

/// Whether a path lies strictly below another.
pub open spec fn lies_below(path: Seq<char>, base: Seq<char>) -> bool {
    (base + seq!['/']).is_prefix_of(path)
}

/// Whether two mount paths share requests: one is the root, they are equal, or one lies below
/// the other.
pub open spec fn overlap(left: Seq<char>, right: Seq<char>) -> bool {
    left == "/"@ || right == "/"@ || left == right || lies_below(left, right) || lies_below(
        right,
        left,
    )
}

fn below(path: &str, base: &str) -> (r: bool)
    ensures
        r == lies_below(path@, base@),
{
    let mut prefix = base.to_owned();
    prefix.push('/');
    assert(prefix@ =~= base@ + seq!['/']);
    starts_with(path, prefix.as_str())
}

/// Whether two mount paths share requests.
pub fn paths_overlap(left: &str, right: &str) -> (r: bool)
    ensures
        r == overlap(left@, right@),
{
    same(left, "/") || same(right, "/") || same(left, right) || below(left, right) || below(
        right,
        left,
    )
}

/// The fault of overlapping mount paths.
pub open spec fn separation_fault(stream: Seq<char>, admin: Seq<char>) -> Option<Fault> {
    if overlap(stream, admin) {
        Some(Fault::Plain(ConfigValidationError::AdminBasePathConflictsWithStreamBasePath))
    } else {
        None
    }
}

fn validate_admin_path_separation(stream_base_path: &str, admin_base_path: &str) -> (r: Result<
    (),
    ConfigValidationError,
>)
    ensures
        is_checked(r, separation_fault(stream_base_path@, admin_base_path@)),
{
    if paths_overlap(stream_base_path, admin_base_path) {
        return Err(ConfigValidationError::AdminBasePathConflictsWithStreamBasePath);
    }
    Ok(())
}

/// Whether storage can be spread over this many shards: a power of two up to 256.
pub open spec fn is_shard_count(n: usize) -> bool {
    exists|k: nat| k <= 8 && n == #[trigger] vstd::arithmetic::power2::pow2(k)
}

/// Whether storage can be spread over this many shards.
pub fn valid_acid_shard_count(value: usize) -> (r: bool)
    ensures
        r == is_shard_count(value),
{
    proof {
        vstd::arithmetic::power2::lemma2_to64();
    }
    let mut k: u32 = 0;
    let mut p: usize = 1;
    while k < 8
        invariant
            k <= 8,
            p == vstd::arithmetic::power2::pow2(k as nat),
            p <= 256,
            k < 8 ==> p <= 128,
            k < 7 ==> p <= 64,
            forall|j: nat| j < k ==> value != #[trigger] vstd::arithmetic::power2::pow2(j),
        decreases 8 - k,
    {
        if value == p {
            return true;
        }
        proof {
            vstd::arithmetic::power2::lemma_pow2_unfold((k + 1) as nat);
            vstd::arithmetic::power2::lemma2_to64();
        }
        p = p * 2;
        k += 1;
    }
    value == p
}

/// The fault of an entry that should be an IP address or an address range.
pub open spec fn is_ip_or_cidr(raw: Seq<char>) -> bool {
    ip_spec(raw) is Some || (raw.contains('/') && (match ip_spec(before_spec(raw, '/')) {
        Some(IpAddr::V4(_)) => unsigned_value(after_spec(raw, '/'), 255) matches Some(n) && n <= 32,
        Some(IpAddr::V6(_)) => unsigned_value(after_spec(raw, '/'), 255) matches Some(n) && n <= 128,
        None => false,
    }))
}

/// Whether an entry is an IP address or an address range.
pub fn valid_ip_or_cidr(raw: &str) -> (r: bool)
    ensures
        r == is_ip_or_cidr(raw@),
{
    if parse_ip(raw).is_some() {
        return true;
    }
    match split_once(raw, '/') {
        None => false,
        Some((address, prefix)) => match (
            parse_ip(address.as_str()),
            parse_unsigned(prefix.as_str(), 255),
        ) {
            (Some(IpAddr::V4(_)), Ok(n)) => n <= 32,
            (Some(IpAddr::V6(_)), Ok(n)) => n <= 128,
            _ => false,
        },
    }
}

/// A fault that comes where a condition holds.
pub open spec fn fault_if(condition: bool, e: ConfigValidationError) -> Option<Fault> {
    if condition {
        Some(Fault::Plain(e))
    } else {
        None
    }
}

/// The first trusted proxy that is no address.
pub open spec fn proxies_fault(entries: Seq<Seq<char>>) -> Option<Fault>
    decreases entries.len(),
{
    if entries.len() == 0 {
        None
    } else if !is_ip_or_cidr(entries[0]) {
        Some(Fault::TrustedProxy { value: entries[0] })
    } else {
        proxies_fault(entries.drop_first())
    }
}

/// The fault of the identity handoff where proxies are trusted.
pub open spec fn identity_fault(s: Settings) -> Option<Fault> {
    match s.identity_mode {
        ProxyIdentityMode::Disabled => fault_if(
            s.identity_header is Some,
            ConfigValidationError::IdentityHeaderRequiresHeaderMode,
        ),
        ProxyIdentityMode::Header => if s.transport_mode != TransportMode::Mtls {
            Some(Fault::Plain(ConfigValidationError::HeaderIdentityRequiresMtls))
        } else {
            match s.identity_header {
                None => Some(Fault::Plain(ConfigValidationError::HeaderIdentityRequiresHeaderName)),
                Some(name) => if is_header_name(name) {
                    None
                } else {
                    Some(Fault::IdentityHeader { value: name })
                },
            }
        },
    }
}

/// The fault of the proxy settings.
pub open spec fn proxy_fault(s: Settings) -> Option<Fault> {
    if !s.proxy_enabled {
        first(
            fault_if(
                s.trusted_proxies.len() > 0,
                ConfigValidationError::ProxyDisabledDisallowsTrustedProxies,
            ),
            first(
                fault_if(
                    s.forwarded_headers != ForwardedHeadersMode::Disabled,
                    ConfigValidationError::ProxyDisabledDisallowsForwardedHeaders {
                        mode: s.forwarded_headers,
                    },
                ),
                first(
                    fault_if(
                        s.identity_mode != ProxyIdentityMode::Disabled,
                        ConfigValidationError::ProxyDisabledDisallowsIdentityMode {
                            mode: s.identity_mode,
                        },
                    ),
                    fault_if(
                        s.identity_header is Some,
                        ConfigValidationError::ProxyDisabledDisallowsIdentityHeader,
                    ),
                ),
            ),
        )
    } else {
        first(
            fault_if(
                s.forwarded_headers == ForwardedHeadersMode::Disabled,
                ConfigValidationError::ProxyEnabledRequiresForwardedHeaders,
            ),
            first(
                fault_if(
                    s.trusted_proxies.len() == 0,
                    ConfigValidationError::ProxyEnabledRequiresTrustedProxies,
                ),
                first(proxies_fault(s.trusted_proxies), identity_fault(s)),
            ),
        )
    }
}

fn validate_trusted_proxies(entries: &Vec<String>) -> (r: Result<(), ConfigValidationError>)
    ensures
        is_checked(r, proxies_fault(texts(entries@))),
{
    let mut i: usize = 0;
    assert(texts(entries@).skip(0) =~= texts(entries@));
    while i < entries.len()
        invariant
            i <= entries@.len(),
            proxies_fault(texts(entries@)) == proxies_fault(texts(entries@).skip(i as int)),
        decreases entries.len() - i,
    {
        let ghost rest = texts(entries@).skip(i as int);
        assert(rest[0] == entries@[i as int]@);
        assert(rest.drop_first() =~= texts(entries@).skip(i + 1));
        if !valid_ip_or_cidr(entries[i].as_str()) {
            return Err(ConfigValidationError::InvalidTrustedProxy { value: entries[i].clone() });
        }
        i += 1;
    }
    Ok(())
}

fn validate_identity(config: &Config) -> (r: Result<(), ConfigValidationError>)
    ensures
        is_checked(r, identity_fault(config@)),
{
    let identity = &config.proxy.identity;
    match identity.mode {
        ProxyIdentityMode::Disabled => {
            if identity.header_name.is_some() {
                return Err(ConfigValidationError::IdentityHeaderRequiresHeaderMode);
            }
        },
        ProxyIdentityMode::Header => {
            if config.transport.mode != TransportMode::Mtls {
                return Err(ConfigValidationError::HeaderIdentityRequiresMtls);
            }
            match &identity.header_name {
                None => return Err(ConfigValidationError::HeaderIdentityRequiresHeaderName),
                Some(name) => match header_name(name.as_str()) {
                    Ok(_) => {},
                    Err(_) => return Err(
                        ConfigValidationError::InvalidIdentityHeaderName { value: name.clone() },
                    ),
                },
            }
        },
    }
    Ok(())
}

fn validate_proxy(config: &Config) -> (r: Result<(), ConfigValidationError>)
    ensures
        is_checked(r, proxy_fault(config@)),
{
    let proxy = &config.proxy;
    assert(texts(proxy.trusted_proxies@).len() == proxy.trusted_proxies@.len());
    if !proxy.enabled {
        if proxy.trusted_proxies.len() > 0 {
            return Err(ConfigValidationError::ProxyDisabledDisallowsTrustedProxies);
        }
        if proxy.forwarded_headers != ForwardedHeadersMode::Disabled {
            return Err(
                ConfigValidationError::ProxyDisabledDisallowsForwardedHeaders {
                    mode: proxy.forwarded_headers,
                },
            );
        }
        if proxy.identity.mode != ProxyIdentityMode::Disabled {
            return Err(
                ConfigValidationError::ProxyDisabledDisallowsIdentityMode {
                    mode: proxy.identity.mode,
                },
            );
        }
        if proxy.identity.header_name.is_some() {
            return Err(ConfigValidationError::ProxyDisabledDisallowsIdentityHeader);
        }
        return Ok(());
    }
    if proxy.forwarded_headers == ForwardedHeadersMode::Disabled {
        return Err(ConfigValidationError::ProxyEnabledRequiresForwardedHeaders);
    }
    if proxy.trusted_proxies.len() == 0 {
        return Err(ConfigValidationError::ProxyEnabledRequiresTrustedProxies);
    }
    match validate_trusted_proxies(&proxy.trusted_proxies) {
        Ok(_) => validate_identity(config),
        Err(e) => Err(e),
    }
}

/// The fault of the size limits.
pub open spec fn limits_fault(s: Settings) -> Option<Fault> {
    first(
        fault_if(s.max_memory_bytes == 0, ConfigValidationError::MaxMemoryBytesTooSmall),
        first(
            fault_if(s.max_stream_bytes == 0, ConfigValidationError::MaxStreamBytesTooSmall),
            name_limits_fault(s),
        ),
    )
}

/// The fault of the limits on stream names.
pub open spec fn name_limits_fault(s: Settings) -> Option<Fault> {
    first(
        fault_if(s.max_stream_name_bytes == 0, ConfigValidationError::MaxStreamNameBytesTooSmall),
        fault_if(
            s.max_stream_name_segments == 0,
            ConfigValidationError::MaxStreamNameSegmentsTooSmall,
        ),
    )
}

/// The fault of the storage settings.
pub open spec fn storage_fault(s: Settings) -> Option<Fault> {
    first(
        fault_if(
            s.storage_mode != StorageMode::Memory && trim_spec(s.data_dir).len() == 0,
            ConfigValidationError::EmptyStorageDataDir { mode: s.storage_mode },
        ),
        fault_if(
            s.storage_mode == StorageMode::Acid && !is_shard_count(s.acid_shard_count),
            ConfigValidationError::InvalidAcidShardCount,
        ),
    )
}

/// The fault of a path that is set but blank.
pub open spec fn blank_fault(path: Option<Seq<char>>, field: Seq<char>) -> Option<Fault> {
    match path {
        Some(p) => if trim_spec(p).len() == 0 {
            Some(Fault::EmptyPath { field })
        } else {
            None
        },
        None => None,
    }
}

/// The fault of a path that is missing.
pub open spec fn missing_fault(path: Option<Seq<char>>, mode: TransportMode, field: Seq<char>) -> Option<
    Fault,
> {
    if path is None {
        Some(Fault::MissingTlsField { mode, field })
    } else {
        None
    }
}

/// The fault of a path that plain HTTP cannot use.
pub open spec fn unwanted_fault(path: Option<Seq<char>>, field: Seq<char>) -> Option<Fault> {
    if path is Some {
        Some(Fault::UnwantedTlsField { field })
    } else {
        None
    }
}

/// The fault of the TLS paths for the transport mode.
pub open spec fn tls_fault(s: Settings) -> Option<Fault> {
    match s.transport_mode {
        TransportMode::Http => first(
            unwanted_fault(s.cert_path, "cert_path"@),
            first(
                unwanted_fault(s.key_path, "key_path"@),
                unwanted_fault(s.client_ca_path, "client_ca_path"@),
            ),
        ),
        TransportMode::Tls => first(
            missing_fault(s.cert_path, s.transport_mode, "cert_path"@),
            first(
                missing_fault(s.key_path, s.transport_mode, "key_path"@),
                fault_if(s.client_ca_path is Some, ConfigValidationError::ClientCaRequiresMtls),
            ),
        ),
        TransportMode::Mtls => first(
            missing_fault(s.cert_path, s.transport_mode, "cert_path"@),
            first(
                missing_fault(s.key_path, s.transport_mode, "key_path"@),
                missing_fault(s.client_ca_path, s.transport_mode, "client_ca_path"@),
            ),
        ),
    }
}

/// The HTTP version that a negotiated protocol stands for.
pub open spec fn version_of(alpn: AlpnProtocol) -> HttpVersion {
    match alpn {
        AlpnProtocol::Http1_1 => HttpVersion::Http1,
        AlpnProtocol::H2 => HttpVersion::Http2,
    }
}

/// The first negotiated protocol whose HTTP version is not enabled.
pub open spec fn unexpected_fault(alpn: Seq<AlpnProtocol>, versions: Seq<HttpVersion>) -> Option<Fault>
    decreases alpn.len(),
{
    if alpn.len() == 0 {
        None
    } else if !enables(versions, version_of(alpn[0])) {
        Some(Fault::Plain(ConfigValidationError::UnexpectedAlpnProtocol { alpn: alpn[0] }))
    } else {
        unexpected_fault(alpn.drop_first(), versions)
    }
}

/// The fault of the negotiated protocols: those of the enabled HTTP versions, and no others.
pub open spec fn alpn_fault(s: Settings) -> Option<Fault> {
    first(
        fault_if(
            enables(s.http_versions, HttpVersion::Http2) && !negotiates(
                s.alpn_protocols,
                AlpnProtocol::H2,
            ),
            ConfigValidationError::MissingAlpnProtocol {
                version: HttpVersion::Http2,
                alpn: AlpnProtocol::H2,
            },
        ),
        first(
            fault_if(
                enables(s.http_versions, HttpVersion::Http1) && !negotiates(
                    s.alpn_protocols,
                    AlpnProtocol::Http1_1,
                ),
                ConfigValidationError::MissingAlpnProtocol {
                    version: HttpVersion::Http1,
                    alpn: AlpnProtocol::Http1_1,
                },
            ),
            unexpected_fault(s.alpn_protocols, s.http_versions),
        ),
    )
}

/// The fault of the transport settings.
pub open spec fn transport_fault(s: Settings) -> Option<Fault> {
    first(
        fault_if(s.long_poll_timeout_secs == 0, ConfigValidationError::LongPollTimeoutTooSmall),
        first(
            fault_if(s.http_versions.len() == 0, ConfigValidationError::EmptyHttpVersions),
            first(
                fault_if(
                    s.transport_mode == TransportMode::Http && enables(
                        s.http_versions,
                        HttpVersion::Http2,
                    ),
                    ConfigValidationError::HttpModeDoesNotSupportHttp2,
                ),
                first(
                    fault_if(
                        s.max_version.before(s.min_version),
                        ConfigValidationError::InvalidTlsVersionRange,
                    ),
                    first(
                        first(
                            blank_fault(s.cert_path, "cert_path"@),
                            first(
                                blank_fault(s.key_path, "key_path"@),
                                blank_fault(s.client_ca_path, "client_ca_path"@),
                            ),
                        ),
                        first(tls_fault(s), alpn_fault(s)),
                    ),
                ),
            ),
        ),
    )
}

/// The fault of the mount paths where both are used.
pub open spec fn admin_separation_fault(s: Settings) -> Option<Fault> {
    if s.admin_enabled {
        separation_fault(s.stream_base_path, s.admin_base_path)
    } else {
        None
    }
}

/// What is wrong with a configuration: the first fault found, if there is any.
pub open spec fn config_fault(s: Settings) -> Option<Fault> {
    first(
        bind_fault(s.bind_address),
        first(
            cors_fault(s.cors_origins),
            first(
                stream_path_fault(s.stream_base_path),
                first(
                    admin_path_fault(s.admin_base_path),
                    first(
                        admin_separation_fault(s),
                        first(
                            limits_fault(s),
                            first(storage_fault(s), first(transport_fault(s), proxy_fault(s))),
                        ),
                    ),
                ),
            ),
        ),
    )
}

/// What keeps routes from being built from a configuration.
pub open spec fn router_fault(s: Settings) -> Option<Fault> {
    first(
        cors_fault(s.cors_origins),
        first(
            stream_path_fault(s.stream_base_path),
            first(
                if s.admin_enabled {
                    first(
                        admin_path_fault(s.admin_base_path),
                        separation_fault(s.stream_base_path, s.admin_base_path),
                    )
                } else {
                    None
                },
                first(
                    name_limits_fault(s),
                    first(
                        fault_if(
                            s.long_poll_timeout_secs == 0,
                            ConfigValidationError::LongPollTimeoutTooSmall,
                        ),
                        proxy_fault(s),
                    ),
                ),
            ),
        ),
    )
}

/// What a deployment profile does not allow: production with an open CORS policy that was not
/// asked for.
pub open spec fn profile_fault(s: Settings, profile: DeploymentProfile) -> Option<Fault> {
    if profile.is_prod() && s.cors_origins == "*"@ && !s.allow_wildcard_cors {
        Some(Fault::WildcardCors { profile: profile.label() })
    } else {
        None
    }
}

/// The advisories about a configuration.
pub open spec fn advisories(s: Settings) -> Seq<Seq<char>> {
    (if s.cors_origins == "*"@ && !s.allow_wildcard_cors {
        seq![
            "http.cors_origins is set to '*' (allows all origins); consider restricting for production use"@,
        ]
    } else {
        Seq::empty()
    }) + (match socket_spec(s.bind_address) {
        Some(addr) => if s.admin_enabled && !addr.ip.loopback() {
            seq![
                "admin routes are enabled on non-loopback bind address "@ + addr.text()
                    + "; place them behind a trusted network, reverse proxy, or external access-control layer"@,
            ]
        } else {
            Seq::empty()
        },
        None => Seq::empty(),
    })
}

fn check_blank(path: &Option<String>, field: &'static str) -> (r: Result<(), ConfigValidationError>)
    ensures
        is_checked(r, blank_fault(text_opt(*path), field@)),
{
    match path {
        Some(p) => {
            if blank(p.as_str()) {
                Err(ConfigValidationError::EmptyPath { field })
            } else {
                Ok(())
            }
        },
        None => Ok(()),
    }
}

fn blank(s: &str) -> (r: bool)
    ensures
        r == (trim_spec(s@).len() == 0),
{
    chars_of(trim(s)).len() == 0
}

impl Config {
    /// Validate configuration invariants before server startup.
    ///
    /// # Errors
    ///
    /// Returns a typed validation error when config is internally inconsistent.
    pub fn validate(&self) -> (r: Result<(), ConfigValidationError>)
        ensures
            is_checked(r, config_fault(self@)),
    {
        match validate_socket_addr(self.server.bind_address.as_str()) {
            Ok(_) => {},
            Err(e) => return Err(e),
        }
        match validate_cors_origins(self.http.cors_origins.as_str()) {
            Ok(_) => {},
            Err(e) => return Err(e),
        }
        match validate_stream_base_path(self.http.stream_base_path.as_str()) {
            Ok(_) => {},
            Err(e) => return Err(e),
        }
        match validate_admin_base_path(self.admin.base_path.as_str()) {
            Ok(_) => {},
            Err(e) => return Err(e),
        }
        if self.admin.enabled {
            match validate_admin_path_separation(
                self.http.stream_base_path.as_str(),
                self.admin.base_path.as_str(),
            ) {
                Ok(_) => {},
                Err(e) => return Err(e),
            }
        }
        match self.validate_limits() {
            Ok(_) => {},
            Err(e) => return Err(e),
        }
        match self.validate_storage() {
            Ok(_) => {},
            Err(e) => return Err(e),
        }
        match self.validate_transport() {
            Ok(_) => {},
            Err(e) => return Err(e),
        }
        validate_proxy(self)
    }

    /// Validate what the routes depend on.
    pub fn validate_router(&self) -> (r: Result<(), ConfigValidationError>)
        ensures
            is_checked(r, router_fault(self@)),
    {
        match validate_cors_origins(self.http.cors_origins.as_str()) {
            Ok(_) => {},
            Err(e) => return Err(e),
        }
        match validate_stream_base_path(self.http.stream_base_path.as_str()) {
            Ok(_) => {},
            Err(e) => return Err(e),
        }
        if self.admin.enabled {
            match validate_admin_base_path(self.admin.base_path.as_str()) {
                Ok(_) => {},
                Err(e) => return Err(e),
            }
            match validate_admin_path_separation(
                self.http.stream_base_path.as_str(),
                self.admin.base_path.as_str(),
            ) {
                Ok(_) => {},
                Err(e) => return Err(e),
            }
        }
        if self.limits.max_stream_name_bytes == 0 {
            return Err(ConfigValidationError::MaxStreamNameBytesTooSmall);
        }
        if self.limits.max_stream_name_segments == 0 {
            return Err(ConfigValidationError::MaxStreamNameSegmentsTooSmall);
        }
        if self.transport.connection.long_poll_timeout_secs == 0 {
            return Err(ConfigValidationError::LongPollTimeoutTooSmall);
        }
        validate_proxy(self)
    }

    fn validate_limits(&self) -> (r: Result<(), ConfigValidationError>)
        ensures
            is_checked(r, limits_fault(self@)),
    {
        if self.limits.max_memory_bytes == 0 {
            return Err(ConfigValidationError::MaxMemoryBytesTooSmall);
        }
        if self.limits.max_stream_bytes == 0 {
            return Err(ConfigValidationError::MaxStreamBytesTooSmall);
        }
        if self.limits.max_stream_name_bytes == 0 {
            return Err(ConfigValidationError::MaxStreamNameBytesTooSmall);
        }
        if self.limits.max_stream_name_segments == 0 {
            return Err(ConfigValidationError::MaxStreamNameSegmentsTooSmall);
        }
        Ok(())
    }

    fn validate_storage(&self) -> (r: Result<(), ConfigValidationError>)
        ensures
            is_checked(r, storage_fault(self@)),
    {
        if self.storage.mode != StorageMode::Memory && blank(self.storage.data_dir.as_str()) {
            return Err(ConfigValidationError::EmptyStorageDataDir { mode: self.storage.mode });
        }
        if self.storage.mode == StorageMode::Acid && !valid_acid_shard_count(
            self.storage.acid_shard_count,
        ) {
            return Err(ConfigValidationError::InvalidAcidShardCount);
        }
        Ok(())
    }

    fn validate_transport(&self) -> (r: Result<(), ConfigValidationError>)
        ensures
            is_checked(r, transport_fault(self@)),
    {
        if self.transport.connection.long_poll_timeout_secs == 0 {
            return Err(ConfigValidationError::LongPollTimeoutTooSmall);
        }
        if self.transport.http.versions.len() == 0 {
            return Err(ConfigValidationError::EmptyHttpVersions);
        }
        if self.transport.mode == TransportMode::Http && contains_version(
            &self.transport.http.versions,
            HttpVersion::Http2,
        ) {
            return Err(ConfigValidationError::HttpModeDoesNotSupportHttp2);
        }
        if self.transport.tls.max_version.is_before(self.transport.tls.min_version) {
            return Err(ConfigValidationError::InvalidTlsVersionRange);
        }
        match check_blank(&self.transport.tls.cert_path, "cert_path") {
            Ok(_) => {},
            Err(e) => return Err(e),
        }
        match check_blank(&self.transport.tls.key_path, "key_path") {
            Ok(_) => {},
            Err(e) => return Err(e),
        }
        match check_blank(&self.transport.tls.client_ca_path, "client_ca_path") {
            Ok(_) => {},
            Err(e) => return Err(e),
        }
        match self.validate_transport_mode_tls() {
            Ok(_) => {},
            Err(e) => return Err(e),
        }
        self.validate_alpn_protocols()
    }

    fn validate_transport_mode_tls(&self) -> (r: Result<(), ConfigValidationError>)
        ensures
            is_checked(r, tls_fault(self@)),
    {
        let mode = self.transport.mode;
        let tls = &self.transport.tls;
        match mode {
            TransportMode::Http => {
                if tls.cert_path.is_some() {
                    return Err(
                        ConfigValidationError::HttpModeDisallowsTlsField { field: "cert_path" },
                    );
                }
                if tls.key_path.is_some() {
                    return Err(
                        ConfigValidationError::HttpModeDisallowsTlsField { field: "key_path" },
                    );
                }
                if tls.client_ca_path.is_some() {
                    return Err(
                        ConfigValidationError::HttpModeDisallowsTlsField { field: "client_ca_path" },
                    );
                }
            },
            TransportMode::Tls => {
                if tls.cert_path.is_none() {
                    return Err(ConfigValidationError::MissingTlsField { mode, field: "cert_path" });
                }
                if tls.key_path.is_none() {
                    return Err(ConfigValidationError::MissingTlsField { mode, field: "key_path" });
                }
                if tls.client_ca_path.is_some() {
                    return Err(ConfigValidationError::ClientCaRequiresMtls);
                }
            },
            TransportMode::Mtls => {
                if tls.cert_path.is_none() {
                    return Err(ConfigValidationError::MissingTlsField { mode, field: "cert_path" });
                }
                if tls.key_path.is_none() {
                    return Err(ConfigValidationError::MissingTlsField { mode, field: "key_path" });
                }
                if tls.client_ca_path.is_none() {
                    return Err(
                        ConfigValidationError::MissingTlsField { mode, field: "client_ca_path" },
                    );
                }
            },
        }
        Ok(())
    }

    fn validate_alpn_protocols(&self) -> (r: Result<(), ConfigValidationError>)
        ensures
            is_checked(r, alpn_fault(self@)),
    {
        let versions = &self.transport.http.versions;
        let protocols = &self.transport.tls.alpn_protocols;
        if contains_version(versions, HttpVersion::Http2) && !contains_protocol(
            protocols,
            AlpnProtocol::H2,
        ) {
            return Err(
                ConfigValidationError::MissingAlpnProtocol {
                    version: HttpVersion::Http2,
                    alpn: AlpnProtocol::H2,
                },
            );
        }
        if contains_version(versions, HttpVersion::Http1) && !contains_protocol(
            protocols,
            AlpnProtocol::Http1_1,
        ) {
            return Err(
                ConfigValidationError::MissingAlpnProtocol {
                    version: HttpVersion::Http1,
                    alpn: AlpnProtocol::Http1_1,
                },
            );
        }
        let mut i: usize = 0;
        assert(protocols@.skip(0) =~= protocols@);
        while i < protocols.len()
            invariant
                i <= protocols@.len(),
                unexpected_fault(protocols@, versions@) == unexpected_fault(
                    protocols@.skip(i as int),
                    versions@,
                ),
                alpn_fault(self@) == unexpected_fault(protocols@, versions@),
            decreases protocols.len() - i,
        {
            let alpn = protocols[i];
            assert(protocols@.skip(i as int)[0] == alpn);
            assert(protocols@.skip(i as int).drop_first() =~= protocols@.skip(i + 1));
            let version = match alpn {
                AlpnProtocol::Http1_1 => HttpVersion::Http1,
                AlpnProtocol::H2 => HttpVersion::Http2,
            };
            if !contains_version(versions, version) {
                return Err(ConfigValidationError::UnexpectedAlpnProtocol { alpn });
            }
            i += 1;
        }
        Ok(())
    }

    /// Deployment-profile-specific validation run after [`Config::validate`].
    ///
    /// Production profiles (`prod`, `prod-tls`, `prod-mtls`) reject wildcard
    /// CORS unless the operator has explicitly set `http.allow_wildcard_cors`.
    ///
    /// # Errors
    ///
    /// Returns [`ConfigValidationError::WildcardCorsOriginsProd`] when a
    /// production profile is active with `cors_origins = "*"` and the escape
    /// hatch is not set.
    pub fn validate_profile(&self, profile: &DeploymentProfile) -> (r: Result<
        (),
        ConfigValidationError,
    >)
        ensures
            is_checked(r, profile_fault(self@, *profile)),
    {
        let is_prod = match profile {
            DeploymentProfile::Prod | DeploymentProfile::ProdTls | DeploymentProfile::ProdMtls => true,
            _ => false,
        };
        if is_prod && same(self.http.cors_origins.as_str(), "*") && !self.http.allow_wildcard_cors {
            return Err(
                ConfigValidationError::WildcardCorsOriginsProd {
                    profile: profile.as_str().to_owned(),
                },
            );
        }
        Ok(())
    }

    /// Non-fatal advisories about the current configuration.
    ///
    /// They should be logged at startup but do not block the server from starting: wildcard
    /// CORS without an explicit opt-in, and admin routes that others can reach.
    #[must_use]
    pub fn warnings(&self) -> (r: Vec<String>)
        ensures
            texts(r@) == advisories(self@),
    {
        let mut w: Vec<String> = Vec::new();
        if same(self.http.cors_origins.as_str(), "*") && !self.http.allow_wildcard_cors {
            w.push(
                "http.cors_origins is set to '*' (allows all origins); consider restricting for production use".to_owned(),
            );
        }
        if self.admin.enabled {
            match self.bind_socket_addr() {
                Ok(addr) => {
                    if !addr.ip.is_loopback() {
                        w.push(
                            joined3(
                                "admin routes are enabled on non-loopback bind address ",
                                addr.to_string().as_str(),
                                "; place them behind a trusted network, reverse proxy, or external access-control layer",
                            ),
                        );
                    }
                },
                Err(_) => {},
            }
        }
        assert(texts(w@) =~= advisories(self@));
        w
    }

    /// Parsed bind address used by the runtime.
    ///
    /// # Errors
    ///
    /// Returns the same validation error that [`Config::validate`] would emit
    /// for an invalid bind address.
    pub fn bind_socket_addr(&self) -> (r: Result<SocketAddr, ConfigValidationError>)
        ensures
            match r {
                Ok(a) => socket_spec(self@.bind_address) == Some(a),
                Err(e) => bind_fault(self@.bind_address) matches Some(f) && e.reports(f),
            },
    {
        validate_socket_addr(self.server.bind_address.as_str())
    }
}

/// Overlap does not depend on which of two paths comes first.
pub proof fn law_overlap_is_symmetric(left: Seq<char>, right: Seq<char>)
    ensures
        overlap(left, right) == overlap(right, left),
{
}

/// The segments of an absolute path: the root has none.
pub open spec fn segments(path: Seq<char>) -> Seq<Seq<char>> {
    if path == "/"@ {
        Seq::empty()
    } else {
        split_spec(path.skip(1), '/')
    }
}

proof fn lemma_below_is_longer(path: Seq<char>, base: Seq<char>)
    requires
        path.len() > 0 && path[0] == '/' && path != "/"@,
        base.len() > 0 && base[0] == '/' && base != "/"@,
    ensures
        (path == base || lies_below(path, base)) <==> segments(base).is_prefix_of(segments(path)),
{
    let p = path.skip(1);
    let b = base.skip(1);
    let sp = segments(path);
    let sb = segments(base);
    lemma_split(p, '/');
    lemma_split(b, '/');
    assert(path =~= seq!['/'] + p);
    assert(base =~= seq!['/'] + b);
    if path == base {
        assert(sb.is_prefix_of(sp));
    } else if lies_below(path, base) {
        let rest = path.skip(base.len() as int + 1);
        assert(path =~= base + seq!['/'] + rest) by {
            assert((base + seq!['/']) =~= path.take(base.len() as int + 1));
        }
        assert(p =~= b + seq!['/'] + rest);
        lemma_split_then(b, rest, '/');
        assert(sb =~= (sb + split_spec(rest, '/')).take(sb.len() as int));
    }
    if sb.is_prefix_of(sp) {
        let more = sp.skip(sb.len() as int);
        assert(sp =~= sb + more);
        if more.len() == 0 {
            assert(sp =~= sb);
        } else {
            lemma_join_then(sb, more, seq!['/']);
            assert(p == b + seq!['/'] + join_spec(more, seq!['/']));
            assert(base + seq!['/'] =~= path.take(base.len() as int + 1));
        }
    }
}

/// Two absolute paths overlap exactly where the segments of one begin with those of the other:
/// a text that both begin with is not enough.
pub proof fn law_overlap_is_shared_segments(left: Seq<char>, right: Seq<char>)
    requires
        left.len() > 0 && left[0] == '/',
        right.len() > 0 && right[0] == '/',
    ensures
        overlap(left, right) <==> segments(left).is_prefix_of(segments(right)) || segments(
            right,
        ).is_prefix_of(segments(left)),
{
    if left == "/"@ {
        assert(segments(left) =~= segments(right).take(0));
    } else if right == "/"@ {
        assert(segments(right) =~= segments(left).take(0));
    } else {
        lemma_below_is_longer(left, right);
        lemma_below_is_longer(right, left);
    }
}

/// Where a valid configuration mounts the admin routes, no path lies both below that mount and
/// below the mount of the protocol, and the mounts differ.
pub proof fn law_valid_mounts_share_no_path(s: Settings, path: Seq<char>)
    requires
        config_fault(s) is None,
        s.admin_enabled,
    ensures
        s.stream_base_path != s.admin_base_path,
        !(lies_below(path, s.stream_base_path) && lies_below(path, s.admin_base_path)),
{
    let a = s.stream_base_path + seq!['/'];
    let b = s.admin_base_path + seq!['/'];
    if a.is_prefix_of(path) && b.is_prefix_of(path) {
        if s.stream_base_path.len() < s.admin_base_path.len() {
            assert(a =~= s.admin_base_path.take(a.len() as int)) by {
                assert forall|i: int| 0 <= i < a.len() implies a[i] == s.admin_base_path[i] by {
                    assert(path[i] == a[i]);
                    assert(path[i] == b[i]);
                }
            }
            assert(a.is_prefix_of(s.admin_base_path));
        } else if s.admin_base_path.len() < s.stream_base_path.len() {
            assert(b =~= s.stream_base_path.take(b.len() as int)) by {
                assert forall|i: int| 0 <= i < b.len() implies b[i] == s.stream_base_path[i] by {
                    assert(path[i] == a[i]);
                    assert(path[i] == b[i]);
                }
            }
            assert(b.is_prefix_of(s.stream_base_path));
        } else {
            assert(s.stream_base_path =~= s.admin_base_path) by {
                assert forall|i: int| 0 <= i < s.stream_base_path.len() implies
                    s.stream_base_path[i] == s.admin_base_path[i] by {
                    assert(path[i] == a[i]);
                    assert(path[i] == b[i]);
                }
            }
        }
    }
}

/// A valid configuration holds exactly the TLS paths that its transport mode uses: none for
/// plain HTTP, certificate and key for TLS, and a client CA besides for mutual TLS.
pub proof fn law_valid_transport_has_its_tls_paths(s: Settings)
    requires
        config_fault(s) is None,
    ensures
        s.cert_path is Some == s.transport_mode.is_tls(),
        s.key_path is Some == s.transport_mode.is_tls(),
        s.client_ca_path is Some == (s.transport_mode == TransportMode::Mtls),
        s.transport_mode == TransportMode::Http ==> !enables(s.http_versions, HttpVersion::Http2),
        !s.max_version.before(s.min_version),
{
}

proof fn lemma_unexpected(alpn: Seq<AlpnProtocol>, versions: Seq<HttpVersion>, i: int)
    requires
        unexpected_fault(alpn, versions) is None,
        0 <= i < alpn.len(),
    ensures
        enables(versions, version_of(alpn[i])),
    decreases alpn.len(),
{
    if i > 0 {
        assert(alpn.drop_first()[i - 1] == alpn[i]);
        lemma_unexpected(alpn.drop_first(), versions, i - 1);
    }
}

/// In a valid configuration a protocol is negotiated exactly where its HTTP version is enabled.
pub proof fn law_valid_alpn_matches_versions(s: Settings, alpn: AlpnProtocol)
    requires
        config_fault(s) is None,
    ensures
        negotiates(s.alpn_protocols, alpn) == enables(s.http_versions, version_of(alpn)),
{
    if negotiates(s.alpn_protocols, alpn) {
        let i = choose|i: int|
            0 <= i < s.alpn_protocols.len() && #[trigger] s.alpn_protocols[i] == alpn;
        lemma_unexpected(s.alpn_protocols, s.http_versions, i);
    }
}

/// A valid configuration can also be served: nothing that the routes depend on is wrong.
pub proof fn law_valid_config_builds_routes(s: Settings)
    requires
        config_fault(s) is None,
    ensures
        router_fault(s) is None,
{
}

proof fn lemma_proxies(entries: Seq<Seq<char>>, i: int)
    requires
        proxies_fault(entries) is None,
        0 <= i < entries.len(),
    ensures
        is_ip_or_cidr(entries[i]),
    decreases entries.len(),
{
    if i > 0 {
        assert(entries.drop_first()[i - 1] == entries[i]);
        lemma_proxies(entries.drop_first(), i - 1);
    }
}

/// A valid configuration trusts proxies only where trust is enabled, and every trusted entry is
/// an address or an address range.
pub proof fn law_valid_proxies_are_addresses(s: Settings, i: int)
    requires
        config_fault(s) is None,
        0 <= i < s.trusted_proxies.len(),
    ensures
        s.proxy_enabled,
        is_ip_or_cidr(s.trusted_proxies[i]),
{
    lemma_proxies(s.trusted_proxies, i);
}

} // verus!
