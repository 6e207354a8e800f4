//! The `DS_*` environment variables: the layer over all others.

use vstd::prelude::*;
use crate::config::error::ConfigLoadError;
use crate::config::model::{Config, Settings, default_alpn};
use crate::config::modes::{
    AcidBackend, AlpnProtocol, ForwardedHeadersMode, HttpVersion, ProxyIdentityMode, StorageMode,
    TlsVersion, TransportMode, parse_acid_backend_env, parse_alpn_protocol_env,
    parse_forwarded_headers_mode_env, parse_http_version_env, parse_proxy_identity_mode_env,
    parse_storage_mode_env, parse_tls_version_env, parse_transport_mode_env,
};
use crate::config::patch::{
    AdminConfigPatch, ConfigPatch, HttpConfigPatch, LegacyLogPatch, LegacyTlsPatch,
    LimitsConfigPatch, MergeContext, ObservabilityConfigPatch, ProxyConfigPatch,
    ProxyIdentityConfigPatch, ServerConfigPatch, StorageConfigPatch, TransportConfigPatch,
    TransportConnectionConfigPatch, TransportHttpConfigPatch, TransportTlsConfigPatch,
    context_after, either, or_below, with_patch,
};
use crate::decimal::{decimal, int_error, parse_unsigned, unsigned_value};
use crate::fields::{field_of, fields, get_field};
use crate::text::{
    ascii_lower_spec, chars_of, joined3, same, split, split_spec, text_opt, texts, trim, trim_spec,
};

verus! {

/// The names and values of environment variables.
pub type Variables = Seq<(Seq<char>, Seq<char>)>;

/// A variable whose value cannot be used.
pub struct EnvFault {
    pub key: Seq<char>,
    pub value: Seq<char>,
    pub reason: Seq<char>,
}

impl ConfigLoadError {
    /// Whether this error reports the variable.
    pub open spec fn reports(self, fault: EnvFault) -> bool {
        self matches ConfigLoadError::InvalidValue { input_source, key, value, reason }
            && input_source@ == "environment"@ && key@ == fault.key && value@ == fault.value
            && reason@ == fault.reason
    }
}

/// A choice that has names.
pub trait NamedChoice: Sized {
    /// The choice with a name in lower case letters.
    spec fn named(name: Seq<char>) -> Option<Self>;

    /// Reads the choice from text, the case of letters aside.
    fn read(raw: &str) -> (r: Option<Self>)
        ensures
            r == Self::named(ascii_lower_spec(raw@)),
    ;
}

impl NamedChoice for StorageMode {
    open spec fn named(name: Seq<char>) -> Option<Self> {
        StorageMode::with_name(name)
    }

    fn read(raw: &str) -> (r: Option<Self>) {
        parse_storage_mode_env(raw)
    }
}

impl NamedChoice for AcidBackend {
    open spec fn named(name: Seq<char>) -> Option<Self> {
        AcidBackend::with_name(name)
    }

    fn read(raw: &str) -> (r: Option<Self>) {
        parse_acid_backend_env(raw)
    }
}

impl NamedChoice for TransportMode {
    open spec fn named(name: Seq<char>) -> Option<Self> {
        TransportMode::with_name(name)
    }

    fn read(raw: &str) -> (r: Option<Self>) {
        parse_transport_mode_env(raw)
    }
}

impl NamedChoice for HttpVersion {
    open spec fn named(name: Seq<char>) -> Option<Self> {
        HttpVersion::with_name(name)
    }

    fn read(raw: &str) -> (r: Option<Self>) {
        parse_http_version_env(raw)
    }
}

impl NamedChoice for TlsVersion {
    open spec fn named(name: Seq<char>) -> Option<Self> {
        TlsVersion::with_name(name)
    }

    fn read(raw: &str) -> (r: Option<Self>) {
        parse_tls_version_env(raw)
    }
}

impl NamedChoice for AlpnProtocol {
    open spec fn named(name: Seq<char>) -> Option<Self> {
        AlpnProtocol::with_name(name)
    }

    fn read(raw: &str) -> (r: Option<Self>) {
        parse_alpn_protocol_env(raw)
    }
}

impl NamedChoice for ForwardedHeadersMode {
    open spec fn named(name: Seq<char>) -> Option<Self> {
        ForwardedHeadersMode::with_name(name)
    }

    fn read(raw: &str) -> (r: Option<Self>) {
        parse_forwarded_headers_mode_env(raw)
    }
}

impl NamedChoice for ProxyIdentityMode {
    open spec fn named(name: Seq<char>) -> Option<Self> {
        ProxyIdentityMode::with_name(name)
    }

    fn read(raw: &str) -> (r: Option<Self>) {
        parse_proxy_identity_mode_env(raw)
    }
}

/// The number in a variable, where it is set and holds one up to `max`.
pub open spec fn env_number(env: Variables, key: Seq<char>, max: nat) -> Option<nat> {
    match field_of(env, key) {
        Some(v) => unsigned_value(v, max),
        None => None,
    }
}

/// The fault of a variable that should hold a number up to `max`.
pub open spec fn number_fault(env: Variables, key: Seq<char>, max: nat) -> Option<EnvFault> {
    match field_of(env, key) {
        Some(v) => if unsigned_value(v, max) is None {
            Some(EnvFault { key, value: v, reason: int_error(v, max).message() })
        } else {
            None
        },
        None => None,
    }
}

/// The truth value in a text.
pub open spec fn truth(v: Seq<char>) -> Option<bool> {
    if v == "true"@ {
        Some(true)
    } else if v == "false"@ {
        Some(false)
    } else {
        None
    }
}

/// The truth value in a variable, where it is set and holds one.
pub open spec fn env_flag(env: Variables, key: Seq<char>) -> Option<bool> {
    match field_of(env, key) {
        Some(v) => truth(v),
        None => None,
    }
}

/// The fault of a variable that should hold a truth value.
pub open spec fn flag_fault(env: Variables, key: Seq<char>) -> Option<EnvFault> {
    match field_of(env, key) {
        Some(v) => if truth(v) is None {
            Some(
                EnvFault { key, value: v, reason: "provided string was not `true` or `false`"@ },
            )
        } else {
            None
        },
        None => None,
    }
}

/// The choice that a variable names, where it is set and names one.
pub open spec fn env_choice<T: NamedChoice>(env: Variables, key: Seq<char>) -> Option<T> {
    match field_of(env, key) {
        Some(v) => T::named(ascii_lower_spec(v)),
        None => None,
    }
}

/// The fault of a variable that should name a choice.
pub open spec fn choice_fault<T: NamedChoice>(env: Variables, key: Seq<char>) -> Option<EnvFault> {
    match field_of(env, key) {
        Some(v) => if T::named(ascii_lower_spec(v)) is None {
            Some(EnvFault { key, value: v, reason: "unrecognized value"@ })
        } else {
            None
        },
        None => None,
    }
}

/// The pieces of a list that are not blank, without surrounding white space.
pub open spec fn items_of(pieces: Seq<Seq<char>>) -> Seq<Seq<char>>
    decreases pieces.len(),
{
    if pieces.len() == 0 {
        Seq::empty()
    } else {
        let rest = items_of(pieces.drop_last());
        let item = trim_spec(pieces.last());
        if item.len() == 0 {
            rest
        } else {
            rest.push(item)
        }
    }
}

/// The items of a list with commas.
pub open spec fn items(v: Seq<char>) -> Seq<Seq<char>> {
    items_of(split_spec(v, ','))
}

/// The first item that names no choice.
pub open spec fn first_unknown<T: NamedChoice>(list: Seq<Seq<char>>) -> Option<Seq<char>>
    decreases list.len(),
{
    if list.len() == 0 {
        None
    } else {
        let before = first_unknown::<T>(list.drop_last());
        if before is Some {
            before
        } else if T::named(ascii_lower_spec(list.last())) is None {
            Some(list.last())
        } else {
            None
        }
    }
}

/// The choices that items name.
pub open spec fn choices_of<T: NamedChoice>(list: Seq<Seq<char>>) -> Seq<T> {
    list.map_values(|item: Seq<char>| T::named(ascii_lower_spec(item))->0)
}

/// The choices that a variable lists, where it is set and each item names one.
pub open spec fn env_choices<T: NamedChoice>(env: Variables, key: Seq<char>) -> Option<Seq<T>> {
    match field_of(env, key) {
        Some(v) => if first_unknown::<T>(items(v)) is None {
            Some(choices_of::<T>(items(v)))
        } else {
            None
        },
        None => None,
    }
}

/// The fault of a variable that should list choices.
pub open spec fn choices_fault<T: NamedChoice>(env: Variables, key: Seq<char>) -> Option<EnvFault> {
    match field_of(env, key) {
        Some(v) => match first_unknown::<T>(items(v)) {
            Some(item) => Some(
                EnvFault { key, value: v, reason: "unrecognized list item '"@ + item + "'"@ },
            ),
            None => None,
        },
        None => None,
    }
}

fn invalid(key: &'static str, value: String, reason: String) -> (r: ConfigLoadError)
    ensures
        r.reports((EnvFault { key: key@, value: value@, reason: reason@ })),
{
    ConfigLoadError::InvalidValue { input_source: "environment", key, value, reason }
}

fn read_number(env: &Vec<(String, String)>, key: &'static str, max: u64) -> (r: Result<
    Option<u64>,
    ConfigLoadError,
>)
    ensures
        match r {
            Ok(Some(n)) => env_number(fields(env@), key@, max as nat) == Some(n as nat)
                && number_fault(fields(env@), key@, max as nat) is None,
            Ok(None) => env_number(fields(env@), key@, max as nat) is None && number_fault(
                fields(env@),
                key@,
                max as nat,
            ) is None,
            Err(e) => number_fault(fields(env@), key@, max as nat) matches Some(f) && e.reports(f),
        },
{
    match get_field(env, key) {
        None => Ok(None),
        Some(value) => match parse_unsigned(value.as_str(), max) {
            Ok(n) => Ok(Some(n)),
            Err(e) => Err(invalid(key, value, e.as_str().to_owned())),
        },
    }
}

fn read_flag(env: &Vec<(String, String)>, key: &'static str) -> (r: Result<
    Option<bool>,
    ConfigLoadError,
>)
    ensures
        match r {
            Ok(v) => v == env_flag(fields(env@), key@) && flag_fault(fields(env@), key@) is None,
            Err(e) => flag_fault(fields(env@), key@) matches Some(f) && e.reports(f),
        },
{
    match get_field(env, key) {
        None => Ok(None),
        Some(value) => {
            if same(value.as_str(), "true") {
                Ok(Some(true))
            } else if same(value.as_str(), "false") {
                Ok(Some(false))
            } else {
                Err(invalid(key, value, "provided string was not `true` or `false`".to_owned()))
            }
        },
    }
}

fn read_choice<T: NamedChoice>(env: &Vec<(String, String)>, key: &'static str) -> (r: Result<
    Option<T>,
    ConfigLoadError,
>)
    ensures
        match r {
            Ok(v) => v == env_choice::<T>(fields(env@), key@) && choice_fault::<T>(
                fields(env@),
                key@,
            ) is None,
            Err(e) => choice_fault::<T>(fields(env@), key@) matches Some(f) && e.reports(f),
        },
{
    match get_field(env, key) {
        None => Ok(None),
        Some(value) => match T::read(value.as_str()) {
            Some(v) => Ok(Some(v)),
            None => Err(invalid(key, value, "unrecognized value".to_owned())),
        },
    }
}

fn read_items(value: &str) -> (r: Vec<String>)
    ensures
        texts(r@) == items(value@),
{
    let pieces = split(value, ',');
    let mut list: Vec<String> = Vec::new();
    let mut i: usize = 0;
    assert(texts(list@) =~= items_of(texts(pieces@).take(0)));
    while i < pieces.len()
        invariant
            i <= pieces@.len(),
            texts(list@) == items_of(texts(pieces@).take(i as int)),
        decreases pieces.len() - i,
    {
        let item = trim(pieces[i].as_str());
        let ghost before = list@;
        proof {
            let t = texts(pieces@).take(i + 1);
            assert(t.drop_last() =~= texts(pieces@).take(i as int));
            assert(t.last() == pieces@[i as int]@);
        }
        if chars_of(item).len() > 0 {
            list.push(item.to_owned());
            assert(texts(list@) =~= texts(before).push(item@));
        }
        i += 1;
    }
    assert(texts(pieces@).take(pieces@.len() as int) =~= texts(pieces@));
    list
}

fn read_choices<T: NamedChoice>(env: &Vec<(String, String)>, key: &'static str) -> (r: Result<
    Option<Vec<T>>,
    ConfigLoadError,
>)
    ensures
        match r {
            Ok(Some(v)) => env_choices::<T>(fields(env@), key@) == Some(v@) && choices_fault::<T>(
                fields(env@),
                key@,
            ) is None,
            Ok(None) => env_choices::<T>(fields(env@), key@) is None && choices_fault::<T>(
                fields(env@),
                key@,
            ) is None,
            Err(e) => choices_fault::<T>(fields(env@), key@) matches Some(f) && e.reports(f),
        },
{
    let value = match get_field(env, key) {
        None => return Ok(None),
        Some(value) => value,
    };
    let list = read_items(value.as_str());
    let mut chosen: Vec<T> = Vec::new();
    let mut i: usize = 0;
    let ghost all = texts(list@);
    assert(all.take(0) =~= Seq::<Seq<char>>::empty());
    assert(chosen@ =~= choices_of::<T>(all.take(0)));
    while i < list.len()
        invariant
            i <= list@.len(),
            all == texts(list@),
            all == items(value@),
            field_of(fields(env@), key@) == Some(value@),
            first_unknown::<T>(all.take(i as int)) is None,
            chosen@ == choices_of::<T>(all.take(i as int)),
        decreases list.len() - i,
    {
        proof {
            assert(all.take(i + 1).drop_last() =~= all.take(i as int));
            assert(all.take(i + 1).last() == list@[i as int]@);
        }
        match T::read(list[i].as_str()) {
            None => {
                proof {
                    lemma_first_unknown::<T>(all, i + 1);
                }
                let reason = joined3("unrecognized list item '", list[i].as_str(), "'");
                return Err(invalid(key, value, reason));
            },
            Some(v) => {
                let ghost before = chosen@;
                chosen.push(v);
                assert(chosen@ =~= choices_of::<T>(all.take(i + 1))) by {
                    assert(choices_of::<T>(all.take(i + 1)) =~= choices_of::<T>(
                        all.take(i as int),
                    ).push(v));
                }
            },
        }
        i += 1;
    }
    assert(all.take(all.len() as int) =~= all);
    Ok(Some(chosen))
}

proof fn lemma_first_unknown<T: NamedChoice>(list: Seq<Seq<char>>, i: int)
    requires
        0 <= i <= list.len(),
        first_unknown::<T>(list.take(i)) is Some,
    ensures
        first_unknown::<T>(list) == first_unknown::<T>(list.take(i)),
    decreases list.len(),
{
    if i == list.len() {
        assert(list.take(i) =~= list);
    } else {
        assert(list.drop_last().take(i) =~= list.take(i));
        lemma_first_unknown::<T>(list.drop_last(), i);
    }
}

/// The first of two faults.
pub open spec fn earlier(a: Option<EnvFault>, b: Option<EnvFault>) -> Option<EnvFault> {
    if a is Some {
        a
    } else {
        b
    }
}

/// The first fault in the listener and connection variables.
pub open spec fn server_env_fault(env: Variables) -> Option<EnvFault> {
    earlier(
        number_fault(env, "DS_SERVER__PORT"@, 65535),
        earlier(
            number_fault(env, "DS_TRANSPORT__CONNECTION__LONG_POLL_TIMEOUT_SECS"@, u64::MAX as nat),
            earlier(
                number_fault(env, "DS_SERVER__LONG_POLL_TIMEOUT_SECS"@, u64::MAX as nat),
                earlier(
                    number_fault(env, "DS_TRANSPORT__CONNECTION__SSE_RECONNECT_INTERVAL_SECS"@, u64::MAX as nat),
                    number_fault(env, "DS_SERVER__SSE_RECONNECT_INTERVAL_SECS"@, u64::MAX as nat),
                ),
            ),
        ),
    )
}

/// The first fault in the limit variables.
pub open spec fn limits_env_fault(env: Variables) -> Option<EnvFault> {
    earlier(
        number_fault(env, "DS_LIMITS__MAX_MEMORY_BYTES"@, u64::MAX as nat),
        earlier(
            number_fault(env, "DS_LIMITS__MAX_STREAM_BYTES"@, u64::MAX as nat),
            earlier(
                number_fault(env, "DS_LIMITS__MAX_REQUEST_BODY_BYTES"@, usize::MAX as nat),
                earlier(
                    number_fault(env, "DS_LIMITS__MAX_STREAM_NAME_BYTES"@, usize::MAX as nat),
                    number_fault(env, "DS_LIMITS__MAX_STREAM_NAME_SEGMENTS"@, usize::MAX as nat),
                ),
            ),
        ),
    )
}

/// The first fault in the HTTP surface variables.
pub open spec fn http_env_fault(env: Variables) -> Option<EnvFault> {
    earlier(
        flag_fault(env, "DS_HTTP__ALLOW_INSECURE_WEBHOOKS"@),
        flag_fault(env, "DS_HTTP__ALLOW_WILDCARD_CORS"@),
    )
}

/// The first fault in the admin variables.
pub open spec fn admin_env_fault(env: Variables) -> Option<EnvFault> {
    flag_fault(env, "DS_ADMIN__ENABLED"@)
}

/// The first fault in the storage variables.
pub open spec fn storage_env_fault(env: Variables) -> Option<EnvFault> {
    earlier(
        choice_fault::<StorageMode>(env, "DS_STORAGE__MODE"@),
        earlier(
            number_fault(env, "DS_STORAGE__ACID_SHARD_COUNT"@, usize::MAX as nat),
            choice_fault::<AcidBackend>(env, "DS_STORAGE__ACID_BACKEND"@),
        ),
    )
}

/// The first fault in the transport variables.
pub open spec fn transport_env_fault(env: Variables) -> Option<EnvFault> {
    earlier(
        choice_fault::<TransportMode>(env, "DS_TRANSPORT__MODE"@),
        earlier(
            choices_fault::<HttpVersion>(env, "DS_TRANSPORT__HTTP__VERSIONS"@),
            earlier(
                choice_fault::<TlsVersion>(env, "DS_TRANSPORT__TLS__MIN_VERSION"@),
                earlier(
                    choice_fault::<TlsVersion>(env, "DS_TRANSPORT__TLS__MAX_VERSION"@),
                    choices_fault::<AlpnProtocol>(env, "DS_TRANSPORT__TLS__ALPN_PROTOCOLS"@),
                ),
            ),
        ),
    )
}

/// The first fault in the proxy variables.
pub open spec fn proxy_env_fault(env: Variables) -> Option<EnvFault> {
    earlier(
        flag_fault(env, "DS_PROXY__ENABLED"@),
        earlier(
            choice_fault::<ForwardedHeadersMode>(env, "DS_PROXY__FORWARDED_HEADERS"@),
            earlier(
                choice_fault::<ProxyIdentityMode>(env, "DS_PROXY__IDENTITY__MODE"@),
                flag_fault(env, "DS_PROXY__IDENTITY__REQUIRE_TLS"@),
            ),
        ),
    )
}

/// The first variable whose value cannot be used.
pub open spec fn env_fault(env: Variables) -> Option<EnvFault> {
    earlier(
        server_env_fault(env),
        earlier(
            limits_env_fault(env),
            earlier(
                http_env_fault(env),
                earlier(
                    admin_env_fault(env),
                    earlier(
                        storage_env_fault(env),
                        earlier(
                            transport_env_fault(env),
                            proxy_env_fault(env),
                        ),
                    ),
                ),
            ),
        ),
    )
}

/// A number of 64 bits, where there is one.
pub open spec fn as_u64(n: Option<nat>) -> Option<u64> {
    match n {
        Some(v) => Some(v as u64),
        None => None,
    }
}

/// A size, where there is one.
pub open spec fn as_usize(n: Option<nat>) -> Option<usize> {
    match n {
        Some(v) => Some(v as usize),
        None => None,
    }
}

/// The number in a variable.
pub open spec fn env_u64(env: Variables, key: Seq<char>) -> Option<u64> {
    as_u64(env_number(env, key, u64::MAX as nat))
}

/// The size in a variable.
pub open spec fn env_usize(env: Variables, key: Seq<char>) -> Option<usize> {
    as_usize(env_number(env, key, usize::MAX as nat))
}

/// The settings with the variables over them.
pub open spec fn with_env(s: Settings, env: Variables) -> Settings {
    Settings {
        bind_address: match field_of(env, "DS_SERVER__BIND_ADDRESS"@) {
            Some(t) => t,
            None => match env_number(env, "DS_SERVER__PORT"@, 65535) {
                Some(port) => "0.0.0.0:"@ + decimal(port),
                None => s.bind_address,
            },
        },
        max_memory_bytes: or_below(
            env_u64(env, "DS_LIMITS__MAX_MEMORY_BYTES"@),
            s.max_memory_bytes,
        ),
        max_stream_bytes: or_below(
            env_u64(env, "DS_LIMITS__MAX_STREAM_BYTES"@),
            s.max_stream_bytes,
        ),
        max_request_body_bytes: or_below(
            env_usize(env, "DS_LIMITS__MAX_REQUEST_BODY_BYTES"@),
            s.max_request_body_bytes,
        ),
        max_stream_name_bytes: or_below(
            env_usize(env, "DS_LIMITS__MAX_STREAM_NAME_BYTES"@),
            s.max_stream_name_bytes,
        ),
        max_stream_name_segments: or_below(
            env_usize(env, "DS_LIMITS__MAX_STREAM_NAME_SEGMENTS"@),
            s.max_stream_name_segments,
        ),
        cors_origins: or_below(field_of(env, "DS_HTTP__CORS_ORIGINS"@), s.cors_origins),
        stream_base_path: or_below(field_of(env, "DS_HTTP__STREAM_BASE_PATH"@), s.stream_base_path),
        allow_wildcard_cors: or_below(
            env_flag(env, "DS_HTTP__ALLOW_WILDCARD_CORS"@),
            s.allow_wildcard_cors,
        ),
        allow_insecure_webhooks: or_below(
            env_flag(env, "DS_HTTP__ALLOW_INSECURE_WEBHOOKS"@),
            s.allow_insecure_webhooks,
        ),
        admin_enabled: or_below(env_flag(env, "DS_ADMIN__ENABLED"@), s.admin_enabled),
        admin_base_path: or_below(field_of(env, "DS_ADMIN__BASE_PATH"@), s.admin_base_path),
        storage_mode: or_below(
            env_choice::<StorageMode>(env, "DS_STORAGE__MODE"@),
            s.storage_mode,
        ),
        data_dir: or_below(field_of(env, "DS_STORAGE__DATA_DIR"@), s.data_dir),
        acid_shard_count: or_below(
            env_usize(env, "DS_STORAGE__ACID_SHARD_COUNT"@),
            s.acid_shard_count,
        ),
        acid_backend: or_below(
            env_choice::<AcidBackend>(env, "DS_STORAGE__ACID_BACKEND"@),
            s.acid_backend,
        ),
        transport_mode: or_below(
            env_choice::<TransportMode>(env, "DS_TRANSPORT__MODE"@),
            s.transport_mode,
        ),
        http_versions: or_below(
            env_choices::<HttpVersion>(env, "DS_TRANSPORT__HTTP__VERSIONS"@),
            s.http_versions,
        ),
        cert_path: either(
            either(
                field_of(env, "DS_TRANSPORT__TLS__CERT_PATH"@),
                field_of(env, "DS_TLS__CERT_PATH"@),
            ),
            s.cert_path,
        ),
        key_path: either(
            either(
                field_of(env, "DS_TRANSPORT__TLS__KEY_PATH"@),
                field_of(env, "DS_TLS__KEY_PATH"@),
            ),
            s.key_path,
        ),
        client_ca_path: either(
            field_of(env, "DS_TRANSPORT__TLS__CLIENT_CA_PATH"@),
            s.client_ca_path,
        ),
        min_version: or_below(
            env_choice::<TlsVersion>(env, "DS_TRANSPORT__TLS__MIN_VERSION"@),
            s.min_version,
        ),
        max_version: or_below(
            env_choice::<TlsVersion>(env, "DS_TRANSPORT__TLS__MAX_VERSION"@),
            s.max_version,
        ),
        alpn_protocols: match env_choices::<AlpnProtocol>(env, "DS_TRANSPORT__TLS__ALPN_PROTOCOLS"@) {
            Some(a) => a,
            None => match env_choices::<HttpVersion>(env, "DS_TRANSPORT__HTTP__VERSIONS"@) {
                Some(v) => default_alpn(v),
                None => s.alpn_protocols,
            },
        },
        long_poll_timeout_secs: or_below(
            either(
                env_u64(env, "DS_TRANSPORT__CONNECTION__LONG_POLL_TIMEOUT_SECS"@),
                env_u64(env, "DS_SERVER__LONG_POLL_TIMEOUT_SECS"@),
            ),
            s.long_poll_timeout_secs,
        ),
        sse_reconnect_interval_secs: or_below(
            either(
                env_u64(env, "DS_TRANSPORT__CONNECTION__SSE_RECONNECT_INTERVAL_SECS"@),
                env_u64(env, "DS_SERVER__SSE_RECONNECT_INTERVAL_SECS"@),
            ),
            s.sse_reconnect_interval_secs,
        ),
        proxy_enabled: or_below(env_flag(env, "DS_PROXY__ENABLED"@), s.proxy_enabled),
        forwarded_headers: or_below(
            env_choice::<ForwardedHeadersMode>(env, "DS_PROXY__FORWARDED_HEADERS"@),
            s.forwarded_headers,
        ),
        trusted_proxies: match field_of(env, "DS_PROXY__TRUSTED_PROXIES"@) {
            Some(v) => items(v),
            None => s.trusted_proxies,
        },
        identity_mode: or_below(
            env_choice::<ProxyIdentityMode>(env, "DS_PROXY__IDENTITY__MODE"@),
            s.identity_mode,
        ),
        identity_header: either(
            field_of(env, "DS_PROXY__IDENTITY__HEADER_NAME"@),
            s.identity_header,
        ),
        identity_require_tls: or_below(
            env_flag(env, "DS_PROXY__IDENTITY__REQUIRE_TLS"@),
            s.identity_require_tls,
        ),
        rust_log: or_below(
            either(
                field_of(env, "DS_OBSERVABILITY__RUST_LOG"@),
                field_of(env, "DS_LOG__RUST_LOG"@),
            ),
            s.rust_log,
        ),
    }
}

/// What the variables show about the choice of transport.
pub open spec fn env_context(ctx: MergeContext, env: Variables) -> MergeContext {
    MergeContext {
        explicit_transport_mode: ctx.explicit_transport_mode || field_of(
            env,
            "DS_TRANSPORT__MODE"@,
        ) is Some,
        legacy_tls_seen: ctx.legacy_tls_seen || field_of(env, "DS_TLS__CERT_PATH"@) is Some
            || field_of(env, "DS_TLS__KEY_PATH"@) is Some,
    }
}

spec fn is_connection_env(s: ServerConfigPatch, c: TransportConnectionConfigPatch, env: Variables) -> bool {
    &&& text_opt(s.bind_address) == field_of(env, "DS_SERVER__BIND_ADDRESS"@)
    &&& s.bind_address is None ==> match s.port {
        Some(n) => env_number(env, "DS_SERVER__PORT"@, 65535) == Some(n as nat),
        None => env_number(env, "DS_SERVER__PORT"@, 65535) is None,
    }
    &&& c.long_poll_timeout_secs == env_u64(
        env,
        "DS_TRANSPORT__CONNECTION__LONG_POLL_TIMEOUT_SECS"@,
    )
    &&& s.long_poll_timeout_secs == env_u64(env, "DS_SERVER__LONG_POLL_TIMEOUT_SECS"@)
    &&& c.sse_reconnect_interval_secs == env_u64(
        env,
        "DS_TRANSPORT__CONNECTION__SSE_RECONNECT_INTERVAL_SECS"@,
    )
    &&& s.sse_reconnect_interval_secs == env_u64(env, "DS_SERVER__SSE_RECONNECT_INTERVAL_SECS"@)
}

spec fn is_limits_env(p: LimitsConfigPatch, env: Variables) -> bool {
    &&& p.max_memory_bytes == env_u64(env, "DS_LIMITS__MAX_MEMORY_BYTES"@)
    &&& p.max_stream_bytes == env_u64(env, "DS_LIMITS__MAX_STREAM_BYTES"@)
    &&& p.max_request_body_bytes == env_usize(env, "DS_LIMITS__MAX_REQUEST_BODY_BYTES"@)
    &&& p.max_stream_name_bytes == env_usize(env, "DS_LIMITS__MAX_STREAM_NAME_BYTES"@)
    &&& p.max_stream_name_segments == env_usize(env, "DS_LIMITS__MAX_STREAM_NAME_SEGMENTS"@)
}

spec fn is_http_env(p: HttpConfigPatch, env: Variables) -> bool {
    &&& text_opt(p.cors_origins) == field_of(env, "DS_HTTP__CORS_ORIGINS"@)
    &&& text_opt(p.stream_base_path) == field_of(env, "DS_HTTP__STREAM_BASE_PATH"@)
    &&& p.allow_insecure_webhooks == env_flag(env, "DS_HTTP__ALLOW_INSECURE_WEBHOOKS"@)
    &&& p.allow_wildcard_cors == env_flag(env, "DS_HTTP__ALLOW_WILDCARD_CORS"@)
}

spec fn is_storage_env(p: StorageConfigPatch, env: Variables) -> bool {
    &&& p.mode == env_choice::<StorageMode>(env, "DS_STORAGE__MODE"@)
    &&& text_opt(p.data_dir) == field_of(env, "DS_STORAGE__DATA_DIR"@)
    &&& p.acid_shard_count == env_usize(env, "DS_STORAGE__ACID_SHARD_COUNT"@)
    &&& p.acid_backend == env_choice::<AcidBackend>(env, "DS_STORAGE__ACID_BACKEND"@)
}

spec fn is_transport_env(
    mode: Option<TransportMode>,
    http: TransportHttpConfigPatch,
    tls: TransportTlsConfigPatch,
    env: Variables,
) -> bool {
    &&& mode == env_choice::<TransportMode>(env, "DS_TRANSPORT__MODE"@)
    &&& match http.versions {
        Some(v) => env_choices::<HttpVersion>(env, "DS_TRANSPORT__HTTP__VERSIONS"@) == Some(v@),
        None => env_choices::<HttpVersion>(env, "DS_TRANSPORT__HTTP__VERSIONS"@) is None,
    }
    &&& text_opt(tls.cert_path) == field_of(env, "DS_TRANSPORT__TLS__CERT_PATH"@)
    &&& text_opt(tls.key_path) == field_of(env, "DS_TRANSPORT__TLS__KEY_PATH"@)
    &&& text_opt(tls.client_ca_path) == field_of(env, "DS_TRANSPORT__TLS__CLIENT_CA_PATH"@)
    &&& tls.min_version == env_choice::<TlsVersion>(env, "DS_TRANSPORT__TLS__MIN_VERSION"@)
    &&& tls.max_version == env_choice::<TlsVersion>(env, "DS_TRANSPORT__TLS__MAX_VERSION"@)
    &&& match tls.alpn_protocols {
        Some(v) => env_choices::<AlpnProtocol>(env, "DS_TRANSPORT__TLS__ALPN_PROTOCOLS"@) == Some(
            v@,
        ),
        None => env_choices::<AlpnProtocol>(env, "DS_TRANSPORT__TLS__ALPN_PROTOCOLS"@) is None,
    }
}

spec fn is_proxy_env(p: ProxyConfigPatch, env: Variables) -> bool {
    &&& p.enabled == env_flag(env, "DS_PROXY__ENABLED"@)
    &&& p.forwarded_headers == env_choice::<ForwardedHeadersMode>(
        env,
        "DS_PROXY__FORWARDED_HEADERS"@,
    )
    &&& match p.trusted_proxies {
        Some(v) => field_of(env, "DS_PROXY__TRUSTED_PROXIES"@) matches Some(t) && texts(v@) == items(
            t,
        ),
        None => field_of(env, "DS_PROXY__TRUSTED_PROXIES"@) is None,
    }
    &&& p.identity.mode == env_choice::<ProxyIdentityMode>(env, "DS_PROXY__IDENTITY__MODE"@)
    &&& text_opt(p.identity.header_name) == field_of(env, "DS_PROXY__IDENTITY__HEADER_NAME"@)
    &&& p.identity.require_tls == env_flag(env, "DS_PROXY__IDENTITY__REQUIRE_TLS"@)
}

fn size(n: Option<u64>) -> (r: Option<usize>)
    requires
        n matches Some(v) ==> v <= usize::MAX,
    ensures
        r == match n {
            Some(v) => Some(v as usize),
            None => None,
        },
{
    match n {
        Some(v) => Some(v as usize),
        None => None,
    }
}

fn apply_server_env(env: &Vec<(String, String)>) -> (r: Result<
    (ServerConfigPatch, TransportConnectionConfigPatch),
    ConfigLoadError,
>)
    ensures
        match r {
            Ok((s, c)) => server_env_fault(fields(env@)) is None && is_connection_env(
                s,
                c,
                fields(env@),
            ),
            Err(e) => server_env_fault(fields(env@)) matches Some(f) && e.reports(f),
        },
{
    let bind_address = get_field(env, "DS_SERVER__BIND_ADDRESS");
    let given_port: Option<u64> = match read_number(env, "DS_SERVER__PORT", 65535) {
        Ok(n) => n,
        Err(e) => return Err(e),
    };
    let port: Option<u16> = match given_port {
        Some(n) if bind_address.is_none() => Some(n as u16),
        _ => None,
    };
    let long_poll = match read_number(
        env,
        "DS_TRANSPORT__CONNECTION__LONG_POLL_TIMEOUT_SECS",
        u64::MAX,
    ) {
        Ok(v) => v,
        Err(e) => return Err(e),
    };
    let server_long_poll = match read_number(env, "DS_SERVER__LONG_POLL_TIMEOUT_SECS", u64::MAX) {
        Ok(v) => v,
        Err(e) => return Err(e),
    };
    let sse = match read_number(
        env,
        "DS_TRANSPORT__CONNECTION__SSE_RECONNECT_INTERVAL_SECS",
        u64::MAX,
    ) {
        Ok(v) => v,
        Err(e) => return Err(e),
    };
    let server_sse = match read_number(env, "DS_SERVER__SSE_RECONNECT_INTERVAL_SECS", u64::MAX) {
        Ok(v) => v,
        Err(e) => return Err(e),
    };
    Ok(
        (
            ServerConfigPatch {
                bind_address,
                port,
                long_poll_timeout_secs: server_long_poll,
                sse_reconnect_interval_secs: server_sse,
            },
            TransportConnectionConfigPatch {
                long_poll_timeout_secs: long_poll,
                sse_reconnect_interval_secs: sse,
            },
        ),
    )
}

fn apply_limits_env(env: &Vec<(String, String)>) -> (r: Result<LimitsConfigPatch, ConfigLoadError>)
    ensures
        match r {
            Ok(p) => limits_env_fault(fields(env@)) is None && is_limits_env(p, fields(env@)),
            Err(e) => limits_env_fault(fields(env@)) matches Some(f) && e.reports(f),
        },
{
    let max_memory_bytes = match read_number(env, "DS_LIMITS__MAX_MEMORY_BYTES", u64::MAX) {
        Ok(v) => v,
        Err(e) => return Err(e),
    };
    let max_stream_bytes = match read_number(env, "DS_LIMITS__MAX_STREAM_BYTES", u64::MAX) {
        Ok(v) => v,
        Err(e) => return Err(e),
    };
    let body = match read_number(env, "DS_LIMITS__MAX_REQUEST_BODY_BYTES", usize::MAX as u64) {
        Ok(v) => v,
        Err(e) => return Err(e),
    };
    let name = match read_number(env, "DS_LIMITS__MAX_STREAM_NAME_BYTES", usize::MAX as u64) {
        Ok(v) => v,
        Err(e) => return Err(e),
    };
    let segments = match read_number(env, "DS_LIMITS__MAX_STREAM_NAME_SEGMENTS", usize::MAX as u64) {
        Ok(v) => v,
        Err(e) => return Err(e),
    };
    Ok(
        LimitsConfigPatch {
            max_memory_bytes,
            max_stream_bytes,
            max_request_body_bytes: size(body),
            max_stream_name_bytes: size(name),
            max_stream_name_segments: size(segments),
        },
    )
}

fn apply_http_env(env: &Vec<(String, String)>) -> (r: Result<HttpConfigPatch, ConfigLoadError>)
    ensures
        match r {
            Ok(p) => http_env_fault(fields(env@)) is None && is_http_env(p, fields(env@)),
            Err(e) => http_env_fault(fields(env@)) matches Some(f) && e.reports(f),
        },
{
    let allow_insecure_webhooks = match read_flag(env, "DS_HTTP__ALLOW_INSECURE_WEBHOOKS") {
        Ok(v) => v,
        Err(e) => return Err(e),
    };
    let allow_wildcard_cors = match read_flag(env, "DS_HTTP__ALLOW_WILDCARD_CORS") {
        Ok(v) => v,
        Err(e) => return Err(e),
    };
    Ok(
        HttpConfigPatch {
            cors_origins: get_field(env, "DS_HTTP__CORS_ORIGINS"),
            stream_base_path: get_field(env, "DS_HTTP__STREAM_BASE_PATH"),
            allow_wildcard_cors,
            allow_insecure_webhooks,
        },
    )
}

fn apply_admin_env(env: &Vec<(String, String)>) -> (r: Result<AdminConfigPatch, ConfigLoadError>)
    ensures
        match r {
            Ok(p) => admin_env_fault(fields(env@)) is None && p.enabled == env_flag(
                fields(env@),
                "DS_ADMIN__ENABLED"@,
            ) && text_opt(p.base_path) == field_of(fields(env@), "DS_ADMIN__BASE_PATH"@),
            Err(e) => admin_env_fault(fields(env@)) matches Some(f) && e.reports(f),
        },
{
    match read_flag(env, "DS_ADMIN__ENABLED") {
        Ok(enabled) => Ok(
            AdminConfigPatch { enabled, base_path: get_field(env, "DS_ADMIN__BASE_PATH") },
        ),
        Err(e) => Err(e),
    }
}

fn apply_storage_env(env: &Vec<(String, String)>) -> (r: Result<StorageConfigPatch, ConfigLoadError>)
    ensures
        match r {
            Ok(p) => storage_env_fault(fields(env@)) is None && is_storage_env(p, fields(env@)),
            Err(e) => storage_env_fault(fields(env@)) matches Some(f) && e.reports(f),
        },
{
    let mode = match read_choice::<StorageMode>(env, "DS_STORAGE__MODE") {
        Ok(v) => v,
        Err(e) => return Err(e),
    };
    let shards = match read_number(env, "DS_STORAGE__ACID_SHARD_COUNT", usize::MAX as u64) {
        Ok(v) => v,
        Err(e) => return Err(e),
    };
    let acid_backend = match read_choice::<AcidBackend>(env, "DS_STORAGE__ACID_BACKEND") {
        Ok(v) => v,
        Err(e) => return Err(e),
    };
    Ok(
        StorageConfigPatch {
            mode,
            data_dir: get_field(env, "DS_STORAGE__DATA_DIR"),
            acid_shard_count: size(shards),
            acid_backend,
        },
    )
}

fn apply_transport_env(env: &Vec<(String, String)>) -> (r: Result<
    (Option<TransportMode>, TransportHttpConfigPatch, TransportTlsConfigPatch),
    ConfigLoadError,
>)
    ensures
        match r {
            Ok((mode, http, tls)) => transport_env_fault(fields(env@)) is None && is_transport_env(
                mode,
                http,
                tls,
                fields(env@),
            ),
            Err(e) => transport_env_fault(fields(env@)) matches Some(f) && e.reports(f),
        },
{
    let mode = match read_choice::<TransportMode>(env, "DS_TRANSPORT__MODE") {
        Ok(v) => v,
        Err(e) => return Err(e),
    };
    let versions = match read_choices::<HttpVersion>(env, "DS_TRANSPORT__HTTP__VERSIONS") {
        Ok(v) => v,
        Err(e) => return Err(e),
    };
    let min_version = match read_choice::<TlsVersion>(env, "DS_TRANSPORT__TLS__MIN_VERSION") {
        Ok(v) => v,
        Err(e) => return Err(e),
    };
    let max_version = match read_choice::<TlsVersion>(env, "DS_TRANSPORT__TLS__MAX_VERSION") {
        Ok(v) => v,
        Err(e) => return Err(e),
    };
    let alpn_protocols = match read_choices::<AlpnProtocol>(
        env,
        "DS_TRANSPORT__TLS__ALPN_PROTOCOLS",
    ) {
        Ok(v) => v,
        Err(e) => return Err(e),
    };
    Ok(
        (
            mode,
            TransportHttpConfigPatch { versions },
            TransportTlsConfigPatch {
                cert_path: get_field(env, "DS_TRANSPORT__TLS__CERT_PATH"),
                key_path: get_field(env, "DS_TRANSPORT__TLS__KEY_PATH"),
                client_ca_path: get_field(env, "DS_TRANSPORT__TLS__CLIENT_CA_PATH"),
                min_version,
                max_version,
                alpn_protocols,
            },
        ),
    )
}

fn apply_proxy_env(env: &Vec<(String, String)>) -> (r: Result<ProxyConfigPatch, ConfigLoadError>)
    ensures
        match r {
            Ok(p) => proxy_env_fault(fields(env@)) is None && is_proxy_env(p, fields(env@)),
            Err(e) => proxy_env_fault(fields(env@)) matches Some(f) && e.reports(f),
        },
{
    let enabled = match read_flag(env, "DS_PROXY__ENABLED") {
        Ok(v) => v,
        Err(e) => return Err(e),
    };
    let forwarded_headers = match read_choice::<ForwardedHeadersMode>(
        env,
        "DS_PROXY__FORWARDED_HEADERS",
    ) {
        Ok(v) => v,
        Err(e) => return Err(e),
    };
    let mode = match read_choice::<ProxyIdentityMode>(env, "DS_PROXY__IDENTITY__MODE") {
        Ok(v) => v,
        Err(e) => return Err(e),
    };
    let require_tls = match read_flag(env, "DS_PROXY__IDENTITY__REQUIRE_TLS") {
        Ok(v) => v,
        Err(e) => return Err(e),
    };
    let trusted_proxies = match get_field(env, "DS_PROXY__TRUSTED_PROXIES") {
        Some(value) => Some(read_items(value.as_str())),
        None => None,
    };
    Ok(
        ProxyConfigPatch {
            enabled,
            forwarded_headers,
            trusted_proxies,
            identity: ProxyIdentityConfigPatch {
                mode,
                header_name: get_field(env, "DS_PROXY__IDENTITY__HEADER_NAME"),
                require_tls,
            },
        },
    )
}

spec fn is_env_patch(p: ConfigPatch, env: Variables) -> bool {
    &&& is_connection_env(p.server, p.transport.connection, env)
    &&& is_limits_env(p.limits, env)
    &&& is_http_env(p.http, env)
    &&& p.admin.enabled == env_flag(env, "DS_ADMIN__ENABLED"@)
    &&& text_opt(p.admin.base_path) == field_of(env, "DS_ADMIN__BASE_PATH"@)
    &&& is_storage_env(p.storage, env)
    &&& is_transport_env(p.transport.mode, p.transport.http, p.transport.tls, env)
    &&& is_proxy_env(p.proxy, env)
    &&& text_opt(p.observability.rust_log) == field_of(env, "DS_OBSERVABILITY__RUST_LOG"@)
    &&& text_opt(p.log.rust_log) == field_of(env, "DS_LOG__RUST_LOG"@)
    &&& text_opt(p.tls.cert_path) == field_of(env, "DS_TLS__CERT_PATH"@)
    &&& text_opt(p.tls.key_path) == field_of(env, "DS_TLS__KEY_PATH"@)
}

proof fn lemma_env_layer(s: Settings, ctx: MergeContext, p: ConfigPatch, env: Variables)
    requires
        is_env_patch(p, env),
        env_fault(env) is None,
    ensures
        with_patch(s, p) == with_env(s, env),
        context_after(ctx, p) == env_context(ctx, env),
{
    let a = with_patch(s, p);
    let b = with_env(s, env);
    assert(a.bind_address == b.bind_address);
    assert(a.cert_path == b.cert_path);
    assert(a.key_path == b.key_path);
    assert(a.rust_log == b.rust_log);
    assert(a =~= b);
}

/// Reads the variables as a layer.
fn read_env(env: &Vec<(String, String)>) -> (r: Result<ConfigPatch, ConfigLoadError>)
    ensures
        match r {
            Ok(p) => env_fault(fields(env@)) is None && is_env_patch(p, fields(env@)),
            Err(e) => env_fault(fields(env@)) matches Some(f) && e.reports(f),
        },
{
    let (server, connection) = match apply_server_env(env) {
        Ok(v) => v,
        Err(e) => return Err(e),
    };
    let limits = match apply_limits_env(env) {
        Ok(v) => v,
        Err(e) => return Err(e),
    };
    let http = match apply_http_env(env) {
        Ok(v) => v,
        Err(e) => return Err(e),
    };
    let admin = match apply_admin_env(env) {
        Ok(v) => v,
        Err(e) => return Err(e),
    };
    let storage = match apply_storage_env(env) {
        Ok(v) => v,
        Err(e) => return Err(e),
    };
    let (mode, versions, tls) = match apply_transport_env(env) {
        Ok(v) => v,
        Err(e) => return Err(e),
    };
    let proxy = match apply_proxy_env(env) {
        Ok(v) => v,
        Err(e) => return Err(e),
    };
    Ok(
        ConfigPatch {
            server,
            limits,
            http,
            admin,
            storage,
            transport: TransportConfigPatch { mode, http: versions, tls, connection },
            proxy,
            observability: ObservabilityConfigPatch {
                rust_log: get_field(env, "DS_OBSERVABILITY__RUST_LOG"),
            },
            tls: LegacyTlsPatch {
                cert_path: get_field(env, "DS_TLS__CERT_PATH"),
                key_path: get_field(env, "DS_TLS__KEY_PATH"),
            },
            log: LegacyLogPatch { rust_log: get_field(env, "DS_LOG__RUST_LOG") },
        },
    )
}

impl Config {
    /// Lays the `DS_*` environment variables over this configuration. It stays as it is where
    /// a variable cannot be used.
    pub fn apply_env_overrides(&mut self, env: &Vec<(String, String)>, ctx: &mut MergeContext) -> (r:
        Result<(), ConfigLoadError>)
        ensures
            match r {
                Ok(_) => env_fault(fields(env@)) is None && final(self)@ == with_env(
                    old(self)@,
                    fields(env@),
                ) && *final(ctx) == env_context(*old(ctx), fields(env@)),
                Err(e) => (env_fault(fields(env@)) matches Some(f) && e.reports(f)) && *final(self)
                    == *old(self) && *final(ctx) == *old(ctx),
            },
    {
        match read_env(env) {
            Ok(patch) => {
                proof {
                    lemma_env_layer(self@, *ctx, patch, fields(env@));
                }
                self.apply_patch(patch, ctx);
                Ok(())
            },
            Err(e) => Err(e),
        }
    }
}

} // verus!
