//! What the layers of a configuration and the variables of the environment set.

use vstd::prelude::*;
use crate::config::env::{Variables, env_context, env_fault, items, items_of, truth, with_env};
use crate::config::load::{resolved, with_layers};
use crate::config::model::{Settings, default_alpn, enables, negotiates};
use crate::config::modes::{
    AcidBackend, AlpnProtocol, ForwardedHeadersMode, HttpVersion, ProxyIdentityMode, StorageMode,
    TlsVersion, TransportMode, law_acid_backend_name_reads_back,
    law_forwarded_headers_mode_name_reads_back, law_proxy_identity_mode_name_reads_back,
    law_storage_mode_name_reads_back, law_tls_version_name_reads_back,
    law_transport_mode_name_reads_back,
};
use crate::config::patch::{ConfigPatch, MergeContext, context_after, finalized, with_patch};
use crate::config::profile::DeploymentProfile;
use crate::decimal::{decimal, lemma_decimal_round_trip, unsigned_value};
use crate::fields::field_of;
use crate::text::{
    ascii_lower_spec, lemma_one_piece, lemma_split_then, split_spec, texts, trim_spec,
};

verus! {

/// A text that a variable holds is the setting in the end, whatever the profile and the files say.
pub proof fn law_variables_set_texts(
    profile: DeploymentProfile,
    layers: Seq<ConfigPatch>,
    env: Variables,
    t: Seq<char>,
)
    ensures
        ({
            let s = resolved(profile, layers, env);
            &&& field_of(env, "DS_HTTP__CORS_ORIGINS"@) == Some(t) ==> s.cors_origins == t
            &&& field_of(env, "DS_HTTP__STREAM_BASE_PATH"@) == Some(t) ==> s.stream_base_path == t
            &&& field_of(env, "DS_ADMIN__BASE_PATH"@) == Some(t) ==> s.admin_base_path == t
            &&& field_of(env, "DS_STORAGE__DATA_DIR"@) == Some(t) ==> s.data_dir == t
            &&& field_of(env, "DS_SERVER__BIND_ADDRESS"@) == Some(t) ==> s.bind_address == t
            &&& field_of(env, "DS_OBSERVABILITY__RUST_LOG"@) == Some(t) ==> s.rust_log == t
            &&& field_of(env, "DS_TRANSPORT__TLS__CERT_PATH"@) == Some(t) ==> s.cert_path == Some(t)
            &&& field_of(env, "DS_TRANSPORT__TLS__KEY_PATH"@) == Some(t) ==> s.key_path == Some(t)
            &&& field_of(env, "DS_TRANSPORT__TLS__CLIENT_CA_PATH"@) == Some(t) ==> s.client_ca_path == Some(t)
            &&& field_of(env, "DS_PROXY__IDENTITY__HEADER_NAME"@) == Some(t) ==> s.identity_header == Some(t)
        }),
{
}

/// A number that a variable holds is the setting in the end, whatever the profile and the files say.
pub proof fn law_variables_set_numbers(
    profile: DeploymentProfile,
    layers: Seq<ConfigPatch>,
    env: Variables,
    n: usize,
    m: u64,
)
    ensures
        ({
            let s = resolved(profile, layers, env);
            let size = Some(decimal(n as nat));
            let number = Some(decimal(m as nat));
            &&& field_of(env, "DS_LIMITS__MAX_MEMORY_BYTES"@) == number ==> s.max_memory_bytes == m
            &&& field_of(env, "DS_LIMITS__MAX_STREAM_BYTES"@) == number ==> s.max_stream_bytes == m
            &&& field_of(env, "DS_LIMITS__MAX_REQUEST_BODY_BYTES"@) == size ==> s.max_request_body_bytes == n
            &&& field_of(env, "DS_LIMITS__MAX_STREAM_NAME_BYTES"@) == size ==> s.max_stream_name_bytes == n
            &&& field_of(env, "DS_LIMITS__MAX_STREAM_NAME_SEGMENTS"@) == size ==> s.max_stream_name_segments == n
            &&& field_of(env, "DS_STORAGE__ACID_SHARD_COUNT"@) == size ==> s.acid_shard_count == n
            &&& field_of(env, "DS_TRANSPORT__CONNECTION__LONG_POLL_TIMEOUT_SECS"@) == number ==> s.long_poll_timeout_secs == m
            &&& field_of(env, "DS_TRANSPORT__CONNECTION__SSE_RECONNECT_INTERVAL_SECS"@) == number ==> s.sse_reconnect_interval_secs == m
            &&& field_of(env, "DS_SERVER__BIND_ADDRESS"@) is None && m <= 65535 && field_of(
                env,
                "DS_SERVER__PORT"@,
            ) == number ==> s.bind_address == "0.0.0.0:"@ + decimal(m as nat)
        }),
{
    lemma_decimal_round_trip(n as nat, usize::MAX as nat);
    lemma_decimal_round_trip(m as nat, u64::MAX as nat);
    if m <= 65535 {
        lemma_decimal_round_trip(m as nat, 65535);
    }
}

/// A truth value that a variable holds is the setting in the end, whatever the profile and the files
/// say.
pub proof fn law_variables_set_flags(
    profile: DeploymentProfile,
    layers: Seq<ConfigPatch>,
    env: Variables,
    on: bool,
)
    ensures
        ({
            let s = resolved(profile, layers, env);
            let text = Some(
                if on {
                    "true"@
                } else {
                    "false"@
                },
            );
            &&& field_of(env, "DS_HTTP__ALLOW_WILDCARD_CORS"@) == text ==> s.allow_wildcard_cors == on
            &&& field_of(env, "DS_HTTP__ALLOW_INSECURE_WEBHOOKS"@) == text ==> s.allow_insecure_webhooks == on
            &&& field_of(env, "DS_ADMIN__ENABLED"@) == text ==> s.admin_enabled == on
            &&& field_of(env, "DS_PROXY__ENABLED"@) == text ==> s.proxy_enabled == on
            &&& field_of(env, "DS_PROXY__IDENTITY__REQUIRE_TLS"@) == text ==> s.identity_require_tls == on
        }),
{
    reveal_strlit("true");
    reveal_strlit("false");
    assert("true"@.len() == 4 && "false"@.len() == 5);
}

/// The choice that `DS_STORAGE__MODE` names is the setting in the end, whatever the profile and the files say.
pub proof fn law_variable_sets_storage_mode(
    profile: DeploymentProfile,
    layers: Seq<ConfigPatch>,
    env: Variables,
    choice: StorageMode,
)
    requires
        field_of(env, "DS_STORAGE__MODE"@) == Some(choice.label()),
    ensures
        resolved(profile, layers, env).storage_mode == choice,
{
    law_storage_mode_name_reads_back(choice);
}

/// The choice that `DS_STORAGE__ACID_BACKEND` names is the setting in the end, whatever the profile and the files say.
pub proof fn law_variable_sets_acid_backend(
    profile: DeploymentProfile,
    layers: Seq<ConfigPatch>,
    env: Variables,
    choice: AcidBackend,
)
    requires
        field_of(env, "DS_STORAGE__ACID_BACKEND"@) == Some(choice.label()),
    ensures
        resolved(profile, layers, env).acid_backend == choice,
{
    law_acid_backend_name_reads_back(choice);
}

/// The choice that `DS_TRANSPORT__MODE` names is the setting in the end, whatever the profile and the files say.
pub proof fn law_variable_sets_transport_mode(
    profile: DeploymentProfile,
    layers: Seq<ConfigPatch>,
    env: Variables,
    choice: TransportMode,
)
    requires
        field_of(env, "DS_TRANSPORT__MODE"@) == Some(choice.label()),
    ensures
        resolved(profile, layers, env).transport_mode == choice,
{
    law_transport_mode_name_reads_back(choice);
}

/// The choice that `DS_TRANSPORT__TLS__MIN_VERSION` names is the setting in the end, whatever the profile and the files say.
pub proof fn law_variable_sets_min_version(
    profile: DeploymentProfile,
    layers: Seq<ConfigPatch>,
    env: Variables,
    choice: TlsVersion,
)
    requires
        field_of(env, "DS_TRANSPORT__TLS__MIN_VERSION"@) == Some(choice.label()),
    ensures
        resolved(profile, layers, env).min_version == choice,
{
    law_tls_version_name_reads_back(choice);
}

/// The choice that `DS_TRANSPORT__TLS__MAX_VERSION` names is the setting in the end, whatever the profile and the files say.
pub proof fn law_variable_sets_max_version(
    profile: DeploymentProfile,
    layers: Seq<ConfigPatch>,
    env: Variables,
    choice: TlsVersion,
)
    requires
        field_of(env, "DS_TRANSPORT__TLS__MAX_VERSION"@) == Some(choice.label()),
    ensures
        resolved(profile, layers, env).max_version == choice,
{
    law_tls_version_name_reads_back(choice);
}

/// The choice that `DS_PROXY__FORWARDED_HEADERS` names is the setting in the end, whatever the profile and the files say.
pub proof fn law_variable_sets_forwarded_headers(
    profile: DeploymentProfile,
    layers: Seq<ConfigPatch>,
    env: Variables,
    choice: ForwardedHeadersMode,
)
    requires
        field_of(env, "DS_PROXY__FORWARDED_HEADERS"@) == Some(choice.label()),
    ensures
        resolved(profile, layers, env).forwarded_headers == choice,
{
    law_forwarded_headers_mode_name_reads_back(choice);
}

/// The choice that `DS_PROXY__IDENTITY__MODE` names is the setting in the end, whatever the profile and the files say.
pub proof fn law_variable_sets_identity_mode(
    profile: DeploymentProfile,
    layers: Seq<ConfigPatch>,
    env: Variables,
    choice: ProxyIdentityMode,
)
    requires
        field_of(env, "DS_PROXY__IDENTITY__MODE"@) == Some(choice.label()),
    ensures
        resolved(profile, layers, env).identity_mode == choice,
{
    law_proxy_identity_mode_name_reads_back(choice);
}

/// Whether the environment says nothing of the server.
pub open spec fn says_nothing(env: Variables) -> bool {
    forall|key: Seq<char>| "DS_"@.is_prefix_of(key) ==> #[trigger] field_of(env, key) is None
}

/// Variables of other programs change nothing: without a variable of its own, the server runs with
/// what the profile and the files say.
pub proof fn law_other_variables_change_nothing(s: Settings, env: Variables)
    requires
        says_nothing(env),
    ensures
        with_env(s, env) == s,
        env_fault(env) is None,
{
    reveal_strlit("DS_");
    reveal_strlit("DS_HTTP__CORS_ORIGINS");
    assert("DS_HTTP__CORS_ORIGINS"@.take(3) =~= "DS_"@);
    assert("DS_"@.is_prefix_of("DS_HTTP__CORS_ORIGINS"@));
    reveal_strlit("DS_HTTP__STREAM_BASE_PATH");
    assert("DS_HTTP__STREAM_BASE_PATH"@.take(3) =~= "DS_"@);
    assert("DS_"@.is_prefix_of("DS_HTTP__STREAM_BASE_PATH"@));
    reveal_strlit("DS_ADMIN__BASE_PATH");
    assert("DS_ADMIN__BASE_PATH"@.take(3) =~= "DS_"@);
    assert("DS_"@.is_prefix_of("DS_ADMIN__BASE_PATH"@));
    reveal_strlit("DS_STORAGE__DATA_DIR");
    assert("DS_STORAGE__DATA_DIR"@.take(3) =~= "DS_"@);
    assert("DS_"@.is_prefix_of("DS_STORAGE__DATA_DIR"@));
    reveal_strlit("DS_SERVER__BIND_ADDRESS");
    assert("DS_SERVER__BIND_ADDRESS"@.take(3) =~= "DS_"@);
    assert("DS_"@.is_prefix_of("DS_SERVER__BIND_ADDRESS"@));
    reveal_strlit("DS_OBSERVABILITY__RUST_LOG");
    assert("DS_OBSERVABILITY__RUST_LOG"@.take(3) =~= "DS_"@);
    assert("DS_"@.is_prefix_of("DS_OBSERVABILITY__RUST_LOG"@));
    reveal_strlit("DS_TRANSPORT__TLS__CERT_PATH");
    assert("DS_TRANSPORT__TLS__CERT_PATH"@.take(3) =~= "DS_"@);
    assert("DS_"@.is_prefix_of("DS_TRANSPORT__TLS__CERT_PATH"@));
    reveal_strlit("DS_TRANSPORT__TLS__KEY_PATH");
    assert("DS_TRANSPORT__TLS__KEY_PATH"@.take(3) =~= "DS_"@);
    assert("DS_"@.is_prefix_of("DS_TRANSPORT__TLS__KEY_PATH"@));
    reveal_strlit("DS_TRANSPORT__TLS__CLIENT_CA_PATH");
    assert("DS_TRANSPORT__TLS__CLIENT_CA_PATH"@.take(3) =~= "DS_"@);
    assert("DS_"@.is_prefix_of("DS_TRANSPORT__TLS__CLIENT_CA_PATH"@));
    reveal_strlit("DS_PROXY__IDENTITY__HEADER_NAME");
    assert("DS_PROXY__IDENTITY__HEADER_NAME"@.take(3) =~= "DS_"@);
    assert("DS_"@.is_prefix_of("DS_PROXY__IDENTITY__HEADER_NAME"@));
    reveal_strlit("DS_LIMITS__MAX_MEMORY_BYTES");
    assert("DS_LIMITS__MAX_MEMORY_BYTES"@.take(3) =~= "DS_"@);
    assert("DS_"@.is_prefix_of("DS_LIMITS__MAX_MEMORY_BYTES"@));
    reveal_strlit("DS_LIMITS__MAX_STREAM_BYTES");
    assert("DS_LIMITS__MAX_STREAM_BYTES"@.take(3) =~= "DS_"@);
    assert("DS_"@.is_prefix_of("DS_LIMITS__MAX_STREAM_BYTES"@));
    reveal_strlit("DS_LIMITS__MAX_REQUEST_BODY_BYTES");
    assert("DS_LIMITS__MAX_REQUEST_BODY_BYTES"@.take(3) =~= "DS_"@);
    assert("DS_"@.is_prefix_of("DS_LIMITS__MAX_REQUEST_BODY_BYTES"@));
    reveal_strlit("DS_LIMITS__MAX_STREAM_NAME_BYTES");
    assert("DS_LIMITS__MAX_STREAM_NAME_BYTES"@.take(3) =~= "DS_"@);
    assert("DS_"@.is_prefix_of("DS_LIMITS__MAX_STREAM_NAME_BYTES"@));
    reveal_strlit("DS_LIMITS__MAX_STREAM_NAME_SEGMENTS");
    assert("DS_LIMITS__MAX_STREAM_NAME_SEGMENTS"@.take(3) =~= "DS_"@);
    assert("DS_"@.is_prefix_of("DS_LIMITS__MAX_STREAM_NAME_SEGMENTS"@));
    reveal_strlit("DS_STORAGE__ACID_SHARD_COUNT");
    assert("DS_STORAGE__ACID_SHARD_COUNT"@.take(3) =~= "DS_"@);
    assert("DS_"@.is_prefix_of("DS_STORAGE__ACID_SHARD_COUNT"@));
    reveal_strlit("DS_TRANSPORT__CONNECTION__LONG_POLL_TIMEOUT_SECS");
    assert("DS_TRANSPORT__CONNECTION__LONG_POLL_TIMEOUT_SECS"@.take(3) =~= "DS_"@);
    assert("DS_"@.is_prefix_of("DS_TRANSPORT__CONNECTION__LONG_POLL_TIMEOUT_SECS"@));
    reveal_strlit("DS_TRANSPORT__CONNECTION__SSE_RECONNECT_INTERVAL_SECS");
    assert("DS_TRANSPORT__CONNECTION__SSE_RECONNECT_INTERVAL_SECS"@.take(3) =~= "DS_"@);
    assert("DS_"@.is_prefix_of("DS_TRANSPORT__CONNECTION__SSE_RECONNECT_INTERVAL_SECS"@));
    reveal_strlit("DS_HTTP__ALLOW_WILDCARD_CORS");
    assert("DS_HTTP__ALLOW_WILDCARD_CORS"@.take(3) =~= "DS_"@);
    assert("DS_"@.is_prefix_of("DS_HTTP__ALLOW_WILDCARD_CORS"@));
    reveal_strlit("DS_HTTP__ALLOW_INSECURE_WEBHOOKS");
    assert("DS_HTTP__ALLOW_INSECURE_WEBHOOKS"@.take(3) =~= "DS_"@);
    assert("DS_"@.is_prefix_of("DS_HTTP__ALLOW_INSECURE_WEBHOOKS"@));
    reveal_strlit("DS_ADMIN__ENABLED");
    assert("DS_ADMIN__ENABLED"@.take(3) =~= "DS_"@);
    assert("DS_"@.is_prefix_of("DS_ADMIN__ENABLED"@));
    reveal_strlit("DS_PROXY__ENABLED");
    assert("DS_PROXY__ENABLED"@.take(3) =~= "DS_"@);
    assert("DS_"@.is_prefix_of("DS_PROXY__ENABLED"@));
    reveal_strlit("DS_PROXY__IDENTITY__REQUIRE_TLS");
    assert("DS_PROXY__IDENTITY__REQUIRE_TLS"@.take(3) =~= "DS_"@);
    assert("DS_"@.is_prefix_of("DS_PROXY__IDENTITY__REQUIRE_TLS"@));
    reveal_strlit("DS_STORAGE__MODE");
    assert("DS_STORAGE__MODE"@.take(3) =~= "DS_"@);
    assert("DS_"@.is_prefix_of("DS_STORAGE__MODE"@));
    reveal_strlit("DS_STORAGE__ACID_BACKEND");
    assert("DS_STORAGE__ACID_BACKEND"@.take(3) =~= "DS_"@);
    assert("DS_"@.is_prefix_of("DS_STORAGE__ACID_BACKEND"@));
    reveal_strlit("DS_TRANSPORT__MODE");
    assert("DS_TRANSPORT__MODE"@.take(3) =~= "DS_"@);
    assert("DS_"@.is_prefix_of("DS_TRANSPORT__MODE"@));
    reveal_strlit("DS_TRANSPORT__TLS__MIN_VERSION");
    assert("DS_TRANSPORT__TLS__MIN_VERSION"@.take(3) =~= "DS_"@);
    assert("DS_"@.is_prefix_of("DS_TRANSPORT__TLS__MIN_VERSION"@));
    reveal_strlit("DS_TRANSPORT__TLS__MAX_VERSION");
    assert("DS_TRANSPORT__TLS__MAX_VERSION"@.take(3) =~= "DS_"@);
    assert("DS_"@.is_prefix_of("DS_TRANSPORT__TLS__MAX_VERSION"@));
    reveal_strlit("DS_PROXY__FORWARDED_HEADERS");
    assert("DS_PROXY__FORWARDED_HEADERS"@.take(3) =~= "DS_"@);
    assert("DS_"@.is_prefix_of("DS_PROXY__FORWARDED_HEADERS"@));
    reveal_strlit("DS_PROXY__IDENTITY__MODE");
    assert("DS_PROXY__IDENTITY__MODE"@.take(3) =~= "DS_"@);
    assert("DS_"@.is_prefix_of("DS_PROXY__IDENTITY__MODE"@));
    reveal_strlit("DS_SERVER__PORT");
    assert("DS_SERVER__PORT"@.take(3) =~= "DS_"@);
    assert("DS_"@.is_prefix_of("DS_SERVER__PORT"@));
    reveal_strlit("DS_SERVER__LONG_POLL_TIMEOUT_SECS");
    assert("DS_SERVER__LONG_POLL_TIMEOUT_SECS"@.take(3) =~= "DS_"@);
    assert("DS_"@.is_prefix_of("DS_SERVER__LONG_POLL_TIMEOUT_SECS"@));
    reveal_strlit("DS_SERVER__SSE_RECONNECT_INTERVAL_SECS");
    assert("DS_SERVER__SSE_RECONNECT_INTERVAL_SECS"@.take(3) =~= "DS_"@);
    assert("DS_"@.is_prefix_of("DS_SERVER__SSE_RECONNECT_INTERVAL_SECS"@));
    reveal_strlit("DS_TRANSPORT__HTTP__VERSIONS");
    assert("DS_TRANSPORT__HTTP__VERSIONS"@.take(3) =~= "DS_"@);
    assert("DS_"@.is_prefix_of("DS_TRANSPORT__HTTP__VERSIONS"@));
    reveal_strlit("DS_TRANSPORT__TLS__ALPN_PROTOCOLS");
    assert("DS_TRANSPORT__TLS__ALPN_PROTOCOLS"@.take(3) =~= "DS_"@);
    assert("DS_"@.is_prefix_of("DS_TRANSPORT__TLS__ALPN_PROTOCOLS"@));
    reveal_strlit("DS_TLS__CERT_PATH");
    assert("DS_TLS__CERT_PATH"@.take(3) =~= "DS_"@);
    assert("DS_"@.is_prefix_of("DS_TLS__CERT_PATH"@));
    reveal_strlit("DS_TLS__KEY_PATH");
    assert("DS_TLS__KEY_PATH"@.take(3) =~= "DS_"@);
    assert("DS_"@.is_prefix_of("DS_TLS__KEY_PATH"@));
    reveal_strlit("DS_PROXY__TRUSTED_PROXIES");
    assert("DS_PROXY__TRUSTED_PROXIES"@.take(3) =~= "DS_"@);
    assert("DS_"@.is_prefix_of("DS_PROXY__TRUSTED_PROXIES"@));
    reveal_strlit("DS_LOG__RUST_LOG");
    assert("DS_LOG__RUST_LOG"@.take(3) =~= "DS_"@);
    assert("DS_"@.is_prefix_of("DS_LOG__RUST_LOG"@));
    assert(with_env(s, env) =~= s);
}

/// Whether a variable is not set, or holds a number up to a maximum.
pub open spec fn may_hold_number(env: Variables, key: Seq<char>, max: nat) -> bool {
    field_of(env, key) matches Some(v) ==> unsigned_value(v, max) is Some
}

/// Whether a variable is not set, or says "true" or "false".
pub open spec fn may_hold_flag(env: Variables, key: Seq<char>) -> bool {
    field_of(env, key) matches Some(v) ==> v == "true"@ || v == "false"@
}

/// In an environment that is accepted each variable holds what it should, if it is set; what is
/// reported of one that is refused is a variable that is set, with the value that it has.
pub proof fn law_accepted_variables_can_be_read(env: Variables)
    ensures
        env_fault(env) is None ==> {
            &&& may_hold_number(env, "DS_LIMITS__MAX_MEMORY_BYTES"@, u64::MAX as nat)
            &&& may_hold_number(env, "DS_LIMITS__MAX_STREAM_BYTES"@, u64::MAX as nat)
            &&& may_hold_number(env, "DS_LIMITS__MAX_REQUEST_BODY_BYTES"@, usize::MAX as nat)
            &&& may_hold_number(env, "DS_LIMITS__MAX_STREAM_NAME_BYTES"@, usize::MAX as nat)
            &&& may_hold_number(env, "DS_LIMITS__MAX_STREAM_NAME_SEGMENTS"@, usize::MAX as nat)
            &&& may_hold_number(env, "DS_STORAGE__ACID_SHARD_COUNT"@, usize::MAX as nat)
            &&& may_hold_number(env, "DS_TRANSPORT__CONNECTION__LONG_POLL_TIMEOUT_SECS"@, u64::MAX as nat)
            &&& may_hold_number(env, "DS_TRANSPORT__CONNECTION__SSE_RECONNECT_INTERVAL_SECS"@, u64::MAX as nat)
            &&& may_hold_number(env, "DS_SERVER__PORT"@, 65535)
            &&& may_hold_number(env, "DS_SERVER__LONG_POLL_TIMEOUT_SECS"@, u64::MAX as nat)
            &&& may_hold_number(env, "DS_SERVER__SSE_RECONNECT_INTERVAL_SECS"@, u64::MAX as nat)
            &&& may_hold_flag(env, "DS_HTTP__ALLOW_WILDCARD_CORS"@)
            &&& may_hold_flag(env, "DS_HTTP__ALLOW_INSECURE_WEBHOOKS"@)
            &&& may_hold_flag(env, "DS_ADMIN__ENABLED"@)
            &&& may_hold_flag(env, "DS_PROXY__ENABLED"@)
            &&& may_hold_flag(env, "DS_PROXY__IDENTITY__REQUIRE_TLS"@)
            &&& field_of(env, "DS_STORAGE__MODE"@) matches Some(v) ==> StorageMode::with_name(ascii_lower_spec(v)) is Some
            &&& field_of(env, "DS_STORAGE__ACID_BACKEND"@) matches Some(v) ==> AcidBackend::with_name(ascii_lower_spec(v)) is Some
            &&& field_of(env, "DS_TRANSPORT__MODE"@) matches Some(v) ==> TransportMode::with_name(ascii_lower_spec(v)) is Some
            &&& field_of(env, "DS_TRANSPORT__TLS__MIN_VERSION"@) matches Some(v) ==> TlsVersion::with_name(ascii_lower_spec(v)) is Some
            &&& field_of(env, "DS_TRANSPORT__TLS__MAX_VERSION"@) matches Some(v) ==> TlsVersion::with_name(ascii_lower_spec(v)) is Some
            &&& field_of(env, "DS_PROXY__FORWARDED_HEADERS"@) matches Some(v) ==> ForwardedHeadersMode::with_name(ascii_lower_spec(v)) is Some
            &&& field_of(env, "DS_PROXY__IDENTITY__MODE"@) matches Some(v) ==> ProxyIdentityMode::with_name(ascii_lower_spec(v)) is Some
        },
        env_fault(env) matches Some(f) ==> field_of(env, f.key) == Some(f.value),
{
}

/// A layer sets what it names and leaves the rest: an address wins over a port, a setting under its
/// present name over the older one.
pub proof fn law_layers_set_what_they_name(s: Settings, p: ConfigPatch)
    ensures
        ({
            let t = with_patch(s, p);
            &&& t.bind_address == match (p.server.bind_address, p.server.port) {
                (Some(a), _) => a@,
                (None, Some(n)) => "0.0.0.0:"@ + decimal(n as nat),
                (None, None) => s.bind_address,
            }
            &&& p.limits.max_memory_bytes matches Some(v) ==> t.max_memory_bytes == v
            &&& p.limits.max_memory_bytes is None ==> t.max_memory_bytes == s.max_memory_bytes
            &&& p.limits.max_stream_bytes matches Some(v) ==> t.max_stream_bytes == v
            &&& p.limits.max_stream_bytes is None ==> t.max_stream_bytes == s.max_stream_bytes
            &&& p.limits.max_request_body_bytes matches Some(v) ==> t.max_request_body_bytes == v
            &&& p.limits.max_request_body_bytes is None ==> t.max_request_body_bytes == s.max_request_body_bytes
            &&& p.limits.max_stream_name_bytes matches Some(v) ==> t.max_stream_name_bytes == v
            &&& p.limits.max_stream_name_bytes is None ==> t.max_stream_name_bytes == s.max_stream_name_bytes
            &&& p.limits.max_stream_name_segments matches Some(v) ==> t.max_stream_name_segments == v
            &&& p.limits.max_stream_name_segments is None ==> t.max_stream_name_segments == s.max_stream_name_segments
            &&& p.http.cors_origins matches Some(v) ==> t.cors_origins == v@
            &&& p.http.cors_origins is None ==> t.cors_origins == s.cors_origins
            &&& p.http.stream_base_path matches Some(v) ==> t.stream_base_path == v@
            &&& p.http.stream_base_path is None ==> t.stream_base_path == s.stream_base_path
            &&& p.http.allow_wildcard_cors matches Some(v) ==> t.allow_wildcard_cors == v
            &&& p.http.allow_wildcard_cors is None ==> t.allow_wildcard_cors == s.allow_wildcard_cors
            &&& p.http.allow_insecure_webhooks matches Some(v) ==> t.allow_insecure_webhooks == v
            &&& p.http.allow_insecure_webhooks is None ==> t.allow_insecure_webhooks == s.allow_insecure_webhooks
            &&& p.admin.enabled matches Some(v) ==> t.admin_enabled == v
            &&& p.admin.enabled is None ==> t.admin_enabled == s.admin_enabled
            &&& p.admin.base_path matches Some(v) ==> t.admin_base_path == v@
            &&& p.admin.base_path is None ==> t.admin_base_path == s.admin_base_path
            &&& p.storage.mode matches Some(v) ==> t.storage_mode == v
            &&& p.storage.mode is None ==> t.storage_mode == s.storage_mode
            &&& p.storage.data_dir matches Some(v) ==> t.data_dir == v@
            &&& p.storage.data_dir is None ==> t.data_dir == s.data_dir
            &&& p.storage.acid_shard_count matches Some(v) ==> t.acid_shard_count == v
            &&& p.storage.acid_shard_count is None ==> t.acid_shard_count == s.acid_shard_count
            &&& p.storage.acid_backend matches Some(v) ==> t.acid_backend == v
            &&& p.storage.acid_backend is None ==> t.acid_backend == s.acid_backend
            &&& p.transport.mode matches Some(v) ==> t.transport_mode == v
            &&& p.transport.mode is None ==> t.transport_mode == s.transport_mode
            &&& p.transport.http.versions matches Some(v) ==> t.http_versions == v@
            &&& p.transport.http.versions is None ==> t.http_versions == s.http_versions
            &&& p.transport.tls.client_ca_path matches Some(v) ==> t.client_ca_path == Some(v@)
            &&& p.transport.tls.client_ca_path is None ==> t.client_ca_path == s.client_ca_path
            &&& p.transport.tls.min_version matches Some(v) ==> t.min_version == v
            &&& p.transport.tls.min_version is None ==> t.min_version == s.min_version
            &&& p.transport.tls.max_version matches Some(v) ==> t.max_version == v
            &&& p.transport.tls.max_version is None ==> t.max_version == s.max_version
            &&& p.proxy.enabled matches Some(v) ==> t.proxy_enabled == v
            &&& p.proxy.enabled is None ==> t.proxy_enabled == s.proxy_enabled
            &&& p.proxy.forwarded_headers matches Some(v) ==> t.forwarded_headers == v
            &&& p.proxy.forwarded_headers is None ==> t.forwarded_headers == s.forwarded_headers
            &&& p.proxy.identity.mode matches Some(v) ==> t.identity_mode == v
            &&& p.proxy.identity.mode is None ==> t.identity_mode == s.identity_mode
            &&& p.proxy.identity.header_name matches Some(v) ==> t.identity_header == Some(v@)
            &&& p.proxy.identity.header_name is None ==> t.identity_header == s.identity_header
            &&& p.proxy.identity.require_tls matches Some(v) ==> t.identity_require_tls == v
            &&& p.proxy.identity.require_tls is None ==> t.identity_require_tls == s.identity_require_tls
            &&& p.transport.tls.cert_path matches Some(v) ==> t.cert_path == Some(v@)
            &&& p.transport.tls.cert_path is None ==> (p.tls.cert_path matches Some(v) ==> t.cert_path == Some(v@))
            &&& p.transport.tls.cert_path is None && p.tls.cert_path is None ==> t.cert_path == s.cert_path
            &&& p.transport.tls.key_path matches Some(v) ==> t.key_path == Some(v@)
            &&& p.transport.tls.key_path is None ==> (p.tls.key_path matches Some(v) ==> t.key_path == Some(v@))
            &&& p.transport.tls.key_path is None && p.tls.key_path is None ==> t.key_path == s.key_path
            &&& p.transport.connection.long_poll_timeout_secs matches Some(v) ==> t.long_poll_timeout_secs == v
            &&& p.transport.connection.long_poll_timeout_secs is None ==> (p.server.long_poll_timeout_secs matches Some(v) ==> t.long_poll_timeout_secs == v)
            &&& p.transport.connection.long_poll_timeout_secs is None && p.server.long_poll_timeout_secs is None ==> t.long_poll_timeout_secs == s.long_poll_timeout_secs
            &&& p.transport.connection.sse_reconnect_interval_secs matches Some(v) ==> t.sse_reconnect_interval_secs == v
            &&& p.transport.connection.sse_reconnect_interval_secs is None ==> (p.server.sse_reconnect_interval_secs matches Some(v) ==> t.sse_reconnect_interval_secs == v)
            &&& p.transport.connection.sse_reconnect_interval_secs is None && p.server.sse_reconnect_interval_secs is None ==> t.sse_reconnect_interval_secs == s.sse_reconnect_interval_secs
            &&& p.observability.rust_log matches Some(v) ==> t.rust_log == v@
            &&& p.observability.rust_log is None ==> (p.log.rust_log matches Some(v) ==> t.rust_log == v@)
            &&& p.observability.rust_log is None && p.log.rust_log is None ==> t.rust_log == s.rust_log
            &&& p.proxy.trusted_proxies matches Some(v) ==> t.trusted_proxies == texts(v@)
            &&& p.proxy.trusted_proxies is None ==> t.trusted_proxies == s.trusted_proxies
            &&& p.transport.tls.alpn_protocols matches Some(v) ==> t.alpn_protocols == v@
            &&& p.transport.tls.alpn_protocols is None && p.transport.http.versions is None
                ==> t.alpn_protocols == s.alpn_protocols
        }),
{
}

/// Naming the HTTP versions alone selects what is negotiated: the enabled versions and no others,
/// HTTP/2 first.
pub proof fn law_versions_select_what_is_negotiated(s: Settings, p: ConfigPatch)
    requires
        p.transport.http.versions is Some,
        p.transport.tls.alpn_protocols is None,
    ensures
        ({
            let t = with_patch(s, p);
            &&& negotiates(t.alpn_protocols, AlpnProtocol::H2) <==> enables(
                t.http_versions,
                HttpVersion::Http2,
            )
            &&& negotiates(t.alpn_protocols, AlpnProtocol::Http1_1) <==> enables(
                t.http_versions,
                HttpVersion::Http1,
            )
            &&& t.alpn_protocols.len() <= 2
            &&& t.alpn_protocols.len() == 2 ==> t.alpn_protocols[0] == AlpnProtocol::H2
        }),
{
    let v = with_patch(s, p).http_versions;
    let a = default_alpn(v);
    if enables(v, HttpVersion::Http2) {
        assert(a[0] == AlpnProtocol::H2);
    }
    if enables(v, HttpVersion::Http1) {
        assert(a[a.len() - 1] == AlpnProtocol::Http1_1);
    }
}

/// Certificate settings under their older names mean TLS exactly where no layer named the transport
/// mode and both are there; nothing else changes in the end.
pub proof fn law_older_certificates_mean_tls(s: Settings, ctx: MergeContext)
    ensures
        finalized(s, ctx).transport_mode == if ctx.legacy_tls_seen && !ctx.explicit_transport_mode
            && s.cert_path is Some && s.key_path is Some {
            TransportMode::Tls
        } else {
            s.transport_mode
        },
        (Settings { transport_mode: s.transport_mode, ..finalized(s, ctx) }) == s,
{
}

/// The mode counts as named, and certificates as given under their older names, from the first layer
/// or variable on that does so.
pub proof fn law_layers_are_remembered(ctx: MergeContext, p: ConfigPatch, env: Variables)
    ensures
        context_after(ctx, p).explicit_transport_mode <==> ctx.explicit_transport_mode
            || p.transport.mode is Some,
        context_after(ctx, p).legacy_tls_seen <==> ctx.legacy_tls_seen || p.tls.cert_path is Some
            || p.tls.key_path is Some,
        env_context(ctx, env).explicit_transport_mode <==> ctx.explicit_transport_mode || field_of(
            env,
            "DS_TRANSPORT__MODE"@,
        ) is Some,
        env_context(ctx, env).legacy_tls_seen <==> ctx.legacy_tls_seen || field_of(
            env,
            "DS_TLS__CERT_PATH"@,
        ) is Some || field_of(env, "DS_TLS__KEY_PATH"@) is Some,
{
}

/// The items of a list are those between the commas, in order, without blanks around them; blank
/// ones are left out.
pub proof fn law_lists_are_read_in_order(a: Seq<char>, b: Seq<char>)
    ensures
        items(a + seq![','] + b) == items(a) + items(b),
        !a.contains(',') && trim_spec(a).len() > 0 ==> items(a) == seq![trim_spec(a)],
        !a.contains(',') && trim_spec(a).len() == 0 ==> items(a) == Seq::<Seq<char>>::empty(),
{
    lemma_split_then(a, b, ',');
    lemma_items_then(split_spec(a, ','), split_spec(b, ','));
    if !a.contains(',') {
        lemma_one_piece(a, ',');
        assert(seq![a].drop_last() =~= Seq::<Seq<char>>::empty());
        assert(items_of(Seq::<Seq<char>>::empty()) =~= Seq::<Seq<char>>::empty());
        assert(seq![a].last() == a);
        assert(Seq::<Seq<char>>::empty().push(trim_spec(a)) =~= seq![trim_spec(a)]);
    }
}

proof fn lemma_items_then(p: Seq<Seq<char>>, q: Seq<Seq<char>>)
    ensures
        items_of(p + q) == items_of(p) + items_of(q),
    decreases q.len(),
{
    if q.len() == 0 {
        assert(p + q =~= p);
        assert(items_of(p) + items_of(q) =~= items_of(p));
    } else {
        lemma_items_then(p, q.drop_last());
        assert((p + q).drop_last() =~= p + q.drop_last());
        assert((p + q).last() == q.last());
        assert(items_of(p + q) =~= items_of(p) + items_of(q));
    }
}

/// Built-in profiles: development listens on the machine itself, production keeps its data on disk,
/// and production with TLS uses it; a profile without settings of its own changes nothing.
pub proof fn law_profiles_do_what_they_are_for(env: Variables)
    requires
        says_nothing(env),
    ensures
        resolved(DeploymentProfile::Dev, Seq::empty(), env).bind_address == "127.0.0.1:4437"@,
        resolved(DeploymentProfile::Prod, Seq::empty(), env).storage_mode == StorageMode::FileDurable,
        resolved(DeploymentProfile::ProdTls, Seq::empty(), env).storage_mode
            == StorageMode::FileDurable,
        resolved(DeploymentProfile::ProdMtls, Seq::empty(), env).storage_mode
            == StorageMode::FileDurable,
        resolved(DeploymentProfile::Prod, Seq::empty(), env).transport_mode == TransportMode::Http,
        resolved(DeploymentProfile::ProdTls, Seq::empty(), env).transport_mode == TransportMode::Tls,
        resolved(DeploymentProfile::ProdMtls, Seq::empty(), env).transport_mode == TransportMode::Mtls,
        enables(
            resolved(DeploymentProfile::ProdTls, Seq::empty(), env).http_versions,
            HttpVersion::Http2,
        ),
        resolved(DeploymentProfile::Default, Seq::empty(), env)
            == crate::config::model::default_settings(),
{
    let none = Seq::<ConfigPatch>::empty();
    assert forall|s: Settings, c: MergeContext| #[trigger] with_layers(s, c, none) == (s, c) by {
    }
    let d = crate::config::model::default_settings();
    law_other_variables_change_nothing(d, env);
    law_other_variables_change_nothing(
        crate::config::load::with_profile(d, DeploymentProfile::Dev),
        env,
    );
    law_other_variables_change_nothing(
        crate::config::load::with_profile(d, DeploymentProfile::Prod),
        env,
    );
    law_other_variables_change_nothing(
        crate::config::load::with_profile(d, DeploymentProfile::ProdTls),
        env,
    );
    law_other_variables_change_nothing(
        crate::config::load::with_profile(d, DeploymentProfile::ProdMtls),
        env,
    );
    let v = crate::config::load::with_profile(d, DeploymentProfile::ProdTls).http_versions;
    assert(v[1] == HttpVersion::Http2);
}

} // verus!
