//! What the files and the environment make of a client's configuration.

use vstd::prelude::*;
use crate::client::auth::AuthConfig;
use crate::client::config::{
    AuthFileConfig, ClientConfig, ClientConfigLoaderError, FileConfig, is_env_over, is_merge,
    is_resolved,
};
use crate::client::retry::Multiplier;
use crate::decimal::{decimal, lemma_decimal_round_trip};
use crate::fields::{field_of, fields, has_distinct_names, law_set_fields};
use crate::json::json_text_map;
use crate::text::text_opt;
use crate::urls::normal_url_spec;

verus! {

/// What a later file names wins over what an earlier one says, setting by setting and header by
/// header; what it does not name stays.
pub proof fn law_later_files_win(r: FileConfig, first: FileConfig, second: FileConfig, name: Seq<char>)
    requires
        is_merge(r, first, second),
        has_distinct_names(fields(second.defaults.headers@)),
        has_distinct_names(fields(second.defaults.query@)),
    ensures
        r.client.base_url == if second.client.base_url is Some {
            second.client.base_url
        } else {
            first.client.base_url
        },
        r.auth.kind == if second.auth.kind is Some {
            second.auth.kind
        } else {
            first.auth.kind
        },
        r.auth.bearer_token == if second.auth.bearer_token is Some {
            second.auth.bearer_token
        } else {
            first.auth.bearer_token
        },
        r.auth.username == if second.auth.username is Some {
            second.auth.username
        } else {
            first.auth.username
        },
        r.auth.password == if second.auth.password is Some {
            second.auth.password
        } else {
            first.auth.password
        },
        r.auth.header_name == if second.auth.header_name is Some {
            second.auth.header_name
        } else {
            first.auth.header_name
        },
        r.auth.header_value == if second.auth.header_value is Some {
            second.auth.header_value
        } else {
            first.auth.header_value
        },
        r.transport.user_agent == if second.transport.user_agent is Some {
            second.transport.user_agent
        } else {
            first.transport.user_agent
        },
        r.transport.proxy_url == if second.transport.proxy_url is Some {
            second.transport.proxy_url
        } else {
            first.transport.proxy_url
        },
        r.defaults.default_content_type == if second.defaults.default_content_type is Some {
            second.defaults.default_content_type
        } else {
            first.defaults.default_content_type
        },
        r.transport.connect_timeout_ms == if second.transport.connect_timeout_ms is Some {
            second.transport.connect_timeout_ms
        } else {
            first.transport.connect_timeout_ms
        },
        r.transport.request_timeout_ms == if second.transport.request_timeout_ms is Some {
            second.transport.request_timeout_ms
        } else {
            first.transport.request_timeout_ms
        },
        r.retry.initial_backoff_ms == if second.retry.initial_backoff_ms is Some {
            second.retry.initial_backoff_ms
        } else {
            first.retry.initial_backoff_ms
        },
        r.retry.max_backoff_ms == if second.retry.max_backoff_ms is Some {
            second.retry.max_backoff_ms
        } else {
            first.retry.max_backoff_ms
        },
        r.retry.max_retries == if second.retry.max_retries is Some {
            second.retry.max_retries
        } else {
            first.retry.max_retries
        },
        r.retry.backoff_multiplier == if second.retry.backoff_multiplier is Some {
            second.retry.backoff_multiplier
        } else {
            first.retry.backoff_multiplier
        },
        field_of(fields(r.defaults.headers@), name) == match field_of(
            fields(second.defaults.headers@),
            name,
        ) {
            Some(v) => Some(v),
            None => field_of(fields(first.defaults.headers@), name),
        },
        field_of(fields(r.defaults.query@), name) == match field_of(
            fields(second.defaults.query@),
            name,
        ) {
            Some(v) => Some(v),
            None => field_of(fields(first.defaults.query@), name),
        },
{
    law_set_fields(fields(first.defaults.headers@), fields(second.defaults.headers@), name);
    law_set_fields(fields(first.defaults.query@), fields(second.defaults.query@), name);
}

/// A text that a variable holds is the setting, and without the variable the files decide.
pub proof fn law_variables_are_the_settings(
    r: FileConfig,
    files: FileConfig,
    env: Seq<(Seq<char>, Seq<char>)>,
    prefix: Seq<char>,
    multiplier: Option<Option<Multiplier>>,
)
    requires
        is_env_over(r, files, env, prefix, multiplier),
    ensures
        text_opt(r.client.base_url) == match field_of(env, prefix + "CLIENT__BASE_URL"@) {
            Some(t) => Some(t),
            None => text_opt(files.client.base_url),
        },
        text_opt(r.auth.kind) == match field_of(env, prefix + "AUTH__TYPE"@) {
            Some(t) => Some(t),
            None => text_opt(files.auth.kind),
        },
        text_opt(r.auth.bearer_token) == match field_of(env, prefix + "AUTH__BEARER_TOKEN"@) {
            Some(t) => Some(t),
            None => text_opt(files.auth.bearer_token),
        },
        text_opt(r.auth.username) == match field_of(env, prefix + "AUTH__USERNAME"@) {
            Some(t) => Some(t),
            None => text_opt(files.auth.username),
        },
        text_opt(r.auth.password) == match field_of(env, prefix + "AUTH__PASSWORD"@) {
            Some(t) => Some(t),
            None => text_opt(files.auth.password),
        },
        text_opt(r.auth.header_name) == match field_of(env, prefix + "AUTH__HEADER_NAME"@) {
            Some(t) => Some(t),
            None => text_opt(files.auth.header_name),
        },
        text_opt(r.auth.header_value) == match field_of(env, prefix + "AUTH__HEADER_VALUE"@) {
            Some(t) => Some(t),
            None => text_opt(files.auth.header_value),
        },
        text_opt(r.transport.user_agent) == match field_of(env, prefix + "TRANSPORT__USER_AGENT"@) {
            Some(t) => Some(t),
            None => text_opt(files.transport.user_agent),
        },
        text_opt(r.transport.proxy_url) == match field_of(env, prefix + "TRANSPORT__PROXY_URL"@) {
            Some(t) => Some(t),
            None => text_opt(files.transport.proxy_url),
        },
        text_opt(r.defaults.default_content_type) == match field_of(env, prefix + "DEFAULTS__DEFAULT_CONTENT_TYPE"@) {
            Some(t) => Some(t),
            None => text_opt(files.defaults.default_content_type),
        },
        match field_of(env, prefix + "DEFAULTS__HEADERS_JSON"@) {
            Some(t) => json_text_map(t) == Ok::<Seq<(Seq<char>, Seq<char>)>, Seq<char>>(
                fields(r.defaults.headers@),
            ),
            None => r.defaults.headers == files.defaults.headers,
        },
        match field_of(env, prefix + "DEFAULTS__QUERY_JSON"@) {
            Some(t) => json_text_map(t) == Ok::<Seq<(Seq<char>, Seq<char>)>, Seq<char>>(
                fields(r.defaults.query@),
            ),
            None => r.defaults.query == files.defaults.query,
        },
{
}

/// A number that a variable holds is the setting, and without the variable the files decide.
pub proof fn law_number_variables_are_the_settings(
    r: FileConfig,
    files: FileConfig,
    env: Seq<(Seq<char>, Seq<char>)>,
    prefix: Seq<char>,
    multiplier: Option<Option<Multiplier>>,
    n: u64,
    retries: u32,
)
    requires
        is_env_over(r, files, env, prefix, multiplier),
    ensures
        field_of(env, prefix + "TRANSPORT__CONNECT_TIMEOUT_MS"@) == Some(decimal(n as nat)) ==> r.transport.connect_timeout_ms == Some(n),
        field_of(env, prefix + "TRANSPORT__CONNECT_TIMEOUT_MS"@) is None ==> r.transport.connect_timeout_ms == files.transport.connect_timeout_ms,
        field_of(env, prefix + "TRANSPORT__REQUEST_TIMEOUT_MS"@) == Some(decimal(n as nat)) ==> r.transport.request_timeout_ms == Some(n),
        field_of(env, prefix + "TRANSPORT__REQUEST_TIMEOUT_MS"@) is None ==> r.transport.request_timeout_ms == files.transport.request_timeout_ms,
        field_of(env, prefix + "RETRY__INITIAL_BACKOFF_MS"@) == Some(decimal(n as nat)) ==> r.retry.initial_backoff_ms == Some(n),
        field_of(env, prefix + "RETRY__INITIAL_BACKOFF_MS"@) is None ==> r.retry.initial_backoff_ms == files.retry.initial_backoff_ms,
        field_of(env, prefix + "RETRY__MAX_BACKOFF_MS"@) == Some(decimal(n as nat)) ==> r.retry.max_backoff_ms == Some(n),
        field_of(env, prefix + "RETRY__MAX_BACKOFF_MS"@) is None ==> r.retry.max_backoff_ms == files.retry.max_backoff_ms,
        field_of(env, prefix + "RETRY__MAX_RETRIES"@) == Some(decimal(retries as nat))
            ==> r.retry.max_retries == Some(retries),
        field_of(env, prefix + "RETRY__MAX_RETRIES"@) is None ==> r.retry.max_retries
            == files.retry.max_retries,
        multiplier matches Some(m) ==> r.retry.backoff_multiplier == m,
        multiplier is None ==> r.retry.backoff_multiplier == files.retry.backoff_multiplier,
{
    lemma_decimal_round_trip(n as nat, u64::MAX as nat);
    lemma_decimal_round_trip(retries as nat, u32::MAX as nat);
}

/// Whether a client authenticates as a file says: with the token, the name and the password, or the
/// header that it gives, and not at all where it gives none.
pub open spec fn authenticates_as(auth: AuthConfig, file: AuthFileConfig) -> bool {
    match file.kind {
        None => auth is Anonymous,
        Some(kind) => match auth {
            AuthConfig::Anonymous => kind@ == "none"@,
            AuthConfig::Bearer { token } => kind@ == "bearer"@ && file.bearer_token == Some(token),
            AuthConfig::Basic { username, password } => kind@ == "basic"@ && file.username == Some(
                username,
            ) && file.password == Some(password),
            AuthConfig::Header { name, value } => kind@ == "header"@ && file.header_name == Some(name)
                && file.header_value == Some(value),
        },
    }
}

/// A client is configured as the files and the environment say in the end: where the server is, who
/// the client is, how long it waits and how often it tries; what is not said has its default.
pub proof fn law_client_is_configured_as_told(c: ClientConfig, file: FileConfig)
    requires
        is_resolved(Ok(c), file),
    ensures
        match file.client.base_url {
            Some(t) => normal_url_spec(t@) == Ok::<Seq<char>, Seq<char>>(c.base_url@),
            None => c.base_url@ == "http://127.0.0.1:8080/"@,
        },
        authenticates_as(c.auth, file.auth),
        c.transport.connect_timeout.total() == match file.transport.connect_timeout_ms {
            Some(ms) => ms as int * 1_000_000,
            None => 5_000_000_000,
        },
        c.transport.request_timeout.total() == match file.transport.request_timeout_ms {
            Some(ms) => ms as int * 1_000_000,
            None => 30_000_000_000,
        },
        c.transport.user_agent@ == match file.transport.user_agent {
            Some(u) => u@,
            None => "durable-streams-client/0.1.0"@,
        },
        text_opt(c.transport.proxy_url) == text_opt(file.transport.proxy_url),
        c.retry.max_retries == match file.retry.max_retries {
            Some(n) => n,
            None => 3,
        },
        c.retry.initial_backoff.total() == match file.retry.initial_backoff_ms {
            Some(ms) => ms as int * 1_000_000,
            None => 100_000_000,
        },
        c.retry.max_backoff.total() == match file.retry.max_backoff_ms {
            Some(ms) => ms as int * 1_000_000,
            None => 2_000_000_000,
        },
        file.retry.backoff_multiplier matches Some(m) ==> c.retry.backoff_multiplier == m,
        0 < c.retry.initial_backoff.total() <= c.retry.max_backoff.total(),
        c.defaults == file.defaults,
{
    reveal_strlit("none");
    reveal_strlit("bearer");
    reveal_strlit("basic");
    reveal_strlit("header");
    assert("none"@.len() == 4 && "bearer"@[0] == 'b' && "header"@[0] == 'h' && "basic"@.len() == 5);
}

/// Whether a file names a kind of authentication that there is not, or leaves out what the kind
/// needs.
pub open spec fn lacks_what_it_needs(file: AuthFileConfig) -> bool {
    &&& file.kind matches Some(kind)
    &&& kind@ != "none"@
    &&& kind@ == "bearer"@ ==> file.bearer_token is None
    &&& kind@ == "basic"@ ==> file.username is None || file.password is None
    &&& kind@ == "header"@ ==> file.header_name is None || file.header_value is None
}

/// A file is refused where it names a kind of authentication that there is not, or leaves out what
/// the kind needs.
pub proof fn law_incomplete_authentication_is_refused(
    r: Result<ClientConfig, ClientConfigLoaderError>,
    file: FileConfig,
)
    requires
        is_resolved(r, file),
        lacks_what_it_needs(file.auth),
    ensures
        r is Err,
{
    reveal_strlit("none");
    reveal_strlit("bearer");
    reveal_strlit("basic");
    reveal_strlit("header");
    assert("none"@.len() == 4 && "bearer"@[0] == 'b' && "header"@[0] == 'h' && "basic"@.len() == 5);
}

/// A configuration is accepted exactly where the caller is identified, the delays can grow and the
/// timeouts are not zero.
pub proof fn law_usable_client_configurations_are_accepted(c: ClientConfig)
    ensures
        c.rejection() is None <==> c.auth.rejection() is None && c.retry.rejection() is None
            && c.transport.connect_timeout.total() > 0 && c.transport.request_timeout.total() > 0,
{
}

} // verus!
