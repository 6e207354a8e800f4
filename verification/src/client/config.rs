//! Configuration types and layered loading for the client.
//!
//! [`ClientConfig`] is the resolved runtime view. Files are merged in order, then
//! environment variables override them, and the result is resolved and checked.

use vstd::prelude::*;
use crate::client::auth::AuthConfig;
use crate::client::error::Error;
use crate::client::retry::{Multiplier, RetryOptions, RetryPolicy};
use crate::decimal::{parse_unsigned, unsigned_value};
use crate::fields::{
    field_of, fields, get_field, has_distinct_names, law_set_fields, lemma_set_fields_distinct, set_fields,
    with_fields,
};
use crate::json::{json_text_map, parse_text_map};
use crate::text::{joined, joined3, same, text_opt, texts, trim, trim_spec};
use crate::time::Span;
use crate::urls::{normal_url, normal_url_spec};

verus! {

/// Resolved client configuration.
#[derive(Debug, Clone, PartialEq, Eq)]
pub struct ClientConfig {
    /// Base server URL, for example `http://127.0.0.1:4437`.
    pub base_url: String,
    /// Authentication mode applied to outgoing requests.
    pub auth: AuthConfig,
    /// Transport-level timeouts, headers, and proxy settings.
    pub transport: TransportConfig,
    /// Retry behavior for transient operations.
    pub retry: RetryOptions,
    /// Request defaults merged into per-call options.
    pub defaults: DefaultsConfig,
}

/// The default retry options.
pub open spec fn default_retry() -> RetryOptions {
    RetryOptions {
        max_retries: 3,
        initial_backoff: Span { seconds: 0, nanos: 100_000_000 },
        max_backoff: Span { seconds: 2, nanos: 0 },
        backoff_multiplier: Multiplier { bits: 0x4000_0000_0000_0000, below_one: false },
    }
}

/// Whether a configuration is the default one, but for the base URL.
pub open spec fn is_default_client(c: ClientConfig, base_url: Seq<char>) -> bool {
    &&& c.base_url@ == base_url
    &&& c.auth == AuthConfig::Anonymous
    &&& is_default_transport(c.transport)
    &&& c.retry == default_retry()
    &&& c.defaults.default_content_type is None
    &&& c.defaults.headers@.len() == 0
    &&& c.defaults.query@.len() == 0
}

impl Default for ClientConfig {
    fn default() -> (r: Self)
        ensures
            is_default_client(r, "http://127.0.0.1:8080/"@),
    {
        ClientConfig {
            base_url: "http://127.0.0.1:8080/".to_owned(),
            auth: AuthConfig::Anonymous,
            transport: TransportConfig::default(),
            retry: RetryOptions {
                max_retries: 3,
                initial_backoff: Span { seconds: 0, nanos: 100_000_000 },
                max_backoff: Span { seconds: 2, nanos: 0 },
                backoff_multiplier: Multiplier { bits: 0x4000_0000_0000_0000, below_one: false },
            },
            defaults: DefaultsConfig::default(),
        }
    }
}

impl ClientConfig {
    /// Why the configuration is rejected, if it is.
    pub open spec fn rejection(self) -> Option<Seq<char>> {
        if self.auth.rejection() is Some {
            self.auth.rejection()
        } else if self.retry.rejection() is Some {
            self.retry.rejection()
        } else {
            self.transport.rejection()
        }
    }

    /// Validate auth, transport, and retry settings before client construction.
    pub fn validate(&self) -> (r: Result<(), Error>)
        ensures
            match r {
                Ok(_) => self.rejection() is None,
                Err(Error::InvalidArgument(m)) => self.rejection() == Some(m@),
                Err(_) => false,
            },
    {
        match self.auth.validate() {
            Ok(_) => {},
            Err(e) => return Err(e),
        }
        match RetryPolicy::validate(self.retry) {
            Ok(_) => {},
            Err(e) => return Err(e),
        }
        self.transport.validate()
    }
}

/// Default request-level options assembled from configuration.
///
/// These values are merged into individual requests unless the call site
/// overrides them explicitly.
#[derive(Debug, Clone, PartialEq, Eq)]
pub struct DefaultsConfig {
    pub default_content_type: Option<String>,
    pub headers: Vec<(String, String)>,
    pub query: Vec<(String, String)>,
}

impl DefaultsConfig {
    /// Whether no header and no parameter is named twice.
    pub open spec fn is_valid(self) -> bool {
        has_distinct_names(fields(self.headers@)) && has_distinct_names(fields(self.query@))
    }
}

impl Default for DefaultsConfig {
    fn default() -> (r: Self)
        ensures
            r.is_valid(),
            r.default_content_type is None,
            r.headers@.len() == 0,
            r.query@.len() == 0,
    {
        DefaultsConfig { default_content_type: None, headers: Vec::new(), query: Vec::new() }
    }
}

/// Transport-level configuration for the underlying HTTP client.
#[derive(Debug, Clone, PartialEq, Eq)]
pub struct TransportConfig {
    /// TCP/TLS connect timeout.
    pub connect_timeout: Span,
    /// Whole-request timeout.
    pub request_timeout: Span,
    /// User-Agent header sent with requests.
    pub user_agent: String,
    /// Optional proxy URL passed through to the HTTP client.
    pub proxy_url: Option<String>,
}

/// Whether a transport configuration is the default one.
pub open spec fn is_default_transport(t: TransportConfig) -> bool {
    &&& t.connect_timeout == (Span { seconds: 5, nanos: 0 })
    &&& t.request_timeout == (Span { seconds: 30, nanos: 0 })
    &&& t.user_agent@ == "durable-streams-client/0.1.0"@
    &&& t.proxy_url is None
}

impl Default for TransportConfig {
    fn default() -> (r: Self)
        ensures
            is_default_transport(r),
    {
        TransportConfig {
            connect_timeout: Span { seconds: 5, nanos: 0 },
            request_timeout: Span { seconds: 30, nanos: 0 },
            user_agent: "durable-streams-client/0.1.0".to_owned(),
            proxy_url: None,
        }
    }
}

impl TransportConfig {
    /// Why the configuration is rejected, if it is.
    pub open spec fn rejection(self) -> Option<Seq<char>> {
        if self.connect_timeout.total() == 0 {
            Some("transport connect_timeout must be greater than zero"@)
        } else if self.request_timeout.total() == 0 {
            Some("transport request_timeout must be greater than zero"@)
        } else {
            None
        }
    }

    /// Checks that the timeouts are not zero.
    pub fn validate(&self) -> (r: Result<(), Error>)
        ensures
            match r {
                Ok(_) => self.rejection() is None,
                Err(Error::InvalidArgument(m)) => self.rejection() == Some(m@),
                Err(_) => false,
            },
    {
        if self.connect_timeout.is_zero() {
            return Err(
                Error::invalid_argument("transport connect_timeout must be greater than zero"),
            );
        }
        if self.request_timeout.is_zero() {
            return Err(
                Error::invalid_argument("transport request_timeout must be greater than zero"),
            );
        }
        Ok(())
    }
}

/// Operational loader settings: which files are read, and which environment variables.
#[derive(Debug, Clone, PartialEq, Eq)]
pub struct ClientConfigLoader {
    /// Directory containing layered TOML config files.
    pub config_dir: String,
    /// Profile loaded after `default.toml`.
    pub profile: String,
    /// Optional extra TOML file merged last before env overrides.
    pub config_override: Option<String>,
    /// Environment variable prefix, for example `DURABLE_STREAMS_CLIENT__`.
    pub env_prefix: String,
}

impl Default for ClientConfigLoader {
    fn default() -> (r: Self)
        ensures
            r.config_dir@ == "config"@,
            r.profile@ == "default"@,
            r.config_override is None,
            r.env_prefix@ == "DURABLE_STREAMS_CLIENT__"@,
    {
        ClientConfigLoader {
            config_dir: "config".to_owned(),
            profile: "default".to_owned(),
            config_override: None,
            env_prefix: "DURABLE_STREAMS_CLIENT__".to_owned(),
        }
    }
}

impl ClientConfigLoader {
    /// The names of the files that are looked for in the directory, in the order in which
    /// they are laid over one another.
    pub fn file_names(&self) -> (r: Vec<String>)
        ensures
            texts(r@) == seq!["default.toml"@, trim_spec(self.profile@) + ".toml"@, "local.toml"@],
    {
        let mut names: Vec<String> = Vec::new();
        names.push("default.toml".to_owned());
        names.push(joined(trim(self.profile.as_str()), ".toml"));
        names.push("local.toml".to_owned());
        assert(texts(names@) =~= seq![
            "default.toml"@,
            trim_spec(self.profile@) + ".toml"@,
            "local.toml"@,
        ]);
        names
    }
}

/// Errors returned while assembling [`ClientConfig`] from operational sources.
#[derive(Debug)]
pub enum ClientConfigLoaderError {
    Io(String),
    Toml(String),
    Config(String),
    Error(Error),
}

impl ClientConfigLoaderError {
    /// The message of the error.
    pub open spec fn text(self) -> Seq<char> {
        match self {
            ClientConfigLoaderError::Io(m)
            | ClientConfigLoaderError::Toml(m)
            | ClientConfigLoaderError::Config(m) => m@,
            ClientConfigLoaderError::Error(e) => e.text(),
        }
    }

    /// The message of the error.
    pub fn to_string(&self) -> (r: String)
        ensures
            r@ == self.text(),
    {
        match self {
            ClientConfigLoaderError::Io(m)
            | ClientConfigLoaderError::Toml(m)
            | ClientConfigLoaderError::Config(m) => m.clone(),
            ClientConfigLoaderError::Error(e) => e.to_string(),
        }
    }
}

/// The later of two settings: the second where it is there, else the first.
pub open spec fn later<T>(first: Option<T>, second: Option<T>) -> Option<T> {
    match second {
        Some(v) => Some(v),
        None => first,
    }
}

fn override_with<T>(first: Option<T>, second: Option<T>) -> (r: Option<T>)
    ensures
        r == later(first, second),
{
    match second {
        Some(v) => Some(v),
        None => first,
    }
}

/// The client section of a file.
#[derive(Debug)]
pub struct ClientFileConfig {
    pub base_url: Option<String>,
}

impl ClientFileConfig {
    /// This section with the settings of another over it.
    pub fn merge(self, other: Self) -> (r: Self)
        ensures
            r == (ClientFileConfig { base_url: later(self.base_url, other.base_url) }),
    {
        ClientFileConfig { base_url: override_with(self.base_url, other.base_url) }
    }
}

/// The authentication section of a file.
#[derive(Debug)]
pub struct AuthFileConfig {
    pub kind: Option<String>,
    pub bearer_token: Option<String>,
    pub username: Option<String>,
    pub password: Option<String>,
    pub header_name: Option<String>,
    pub header_value: Option<String>,
}

/// The kind of authentication that a section asks for.
pub open spec fn auth_kind(file: AuthFileConfig) -> Seq<char> {
    match file.kind {
        Some(k) => k@,
        None => "none"@,
    }
}

/// What is wrong with an authentication section, if anything is.
pub open spec fn auth_error(file: AuthFileConfig) -> Option<Seq<char>> {
    let kind = auth_kind(file);
    if kind == "none"@ {
        None
    } else if kind == "bearer"@ {
        if file.bearer_token is None {
            Some("auth bearer_token is required"@)
        } else {
            None
        }
    } else if kind == "basic"@ {
        if file.username is None {
            Some("auth username is required"@)
        } else if file.password is None {
            Some("auth password is required"@)
        } else {
            None
        }
    } else if kind == "header"@ {
        if file.header_name is None {
            Some("auth header_name is required"@)
        } else if file.header_value is None {
            Some("auth header_value is required"@)
        } else {
            None
        }
    } else {
        Some("unsupported auth.type value: '"@ + kind + "'"@)
    }
}

/// The authentication that a section with nothing wrong describes.
pub open spec fn auth_of(file: AuthFileConfig) -> AuthConfig {
    let kind = auth_kind(file);
    if kind == "bearer"@ {
        AuthConfig::Bearer { token: file.bearer_token.unwrap() }
    } else if kind == "basic"@ {
        AuthConfig::Basic { username: file.username.unwrap(), password: file.password.unwrap() }
    } else if kind == "header"@ {
        AuthConfig::Header { name: file.header_name.unwrap(), value: file.header_value.unwrap() }
    } else {
        AuthConfig::Anonymous
    }
}

/// Whether a result is a configuration error with a message.
pub open spec fn is_config_error<T>(r: Result<T, ClientConfigLoaderError>, message: Seq<char>) -> bool {
    r matches Err(ClientConfigLoaderError::Config(m)) && m@ == message
}

fn config_error<T>(message: &str) -> (r: Result<T, ClientConfigLoaderError>)
    ensures
        is_config_error(r, message@),
{
    Err(ClientConfigLoaderError::Config(message.to_owned()))
}

impl AuthFileConfig {
    /// This section with the settings of another over it.
    pub fn merge(self, other: Self) -> (r: Self)
        ensures
            r == (AuthFileConfig {
                kind: later(self.kind, other.kind),
                bearer_token: later(self.bearer_token, other.bearer_token),
                username: later(self.username, other.username),
                password: later(self.password, other.password),
                header_name: later(self.header_name, other.header_name),
                header_value: later(self.header_value, other.header_value),
            }),
    {
        AuthFileConfig {
            kind: override_with(self.kind, other.kind),
            bearer_token: override_with(self.bearer_token, other.bearer_token),
            username: override_with(self.username, other.username),
            password: override_with(self.password, other.password),
            header_name: override_with(self.header_name, other.header_name),
            header_value: override_with(self.header_value, other.header_value),
        }
    }

    /// The authentication that the section describes.
    pub fn into_auth(self) -> (r: Result<AuthConfig, ClientConfigLoaderError>)
        ensures
            match auth_error(self) {
                Some(m) => is_config_error(r, m),
                None => r matches Ok(auth) && auth == auth_of(self),
            },
    {
        proof {
            reveal_strlit("none");
            reveal_strlit("bearer");
            reveal_strlit("basic");
            reveal_strlit("header");
            assert("bearer"@[0] != "header"@[0]);
            assert("none"@.len() == 4 && "bearer"@.len() == 6 && "basic"@.len() == 5
                && "header"@.len() == 6);
        }
        let kind = match &self.kind {
            Some(k) => k.as_str(),
            None => "none",
        };
        if same(kind, "none") {
            Ok(AuthConfig::Anonymous)
        } else if same(kind, "bearer") {
            match self.bearer_token {
                Some(token) => Ok(AuthConfig::Bearer { token }),
                None => config_error("auth bearer_token is required"),
            }
        } else if same(kind, "basic") {
            match self.username {
                Some(username) => match self.password {
                    Some(password) => Ok(AuthConfig::Basic { username, password }),
                    None => config_error("auth password is required"),
                },
                None => config_error("auth username is required"),
            }
        } else if same(kind, "header") {
            match self.header_name {
                Some(name) => match self.header_value {
                    Some(value) => Ok(AuthConfig::Header { name, value }),
                    None => config_error("auth header_value is required"),
                },
                None => config_error("auth header_name is required"),
            }
        } else {
            config_error(joined3("unsupported auth.type value: '", kind, "'").as_str())
        }
    }
}

/// The transport section of a file.
#[derive(Debug)]
pub struct TransportFileConfig {
    pub connect_timeout_ms: Option<u64>,
    pub request_timeout_ms: Option<u64>,
    pub user_agent: Option<String>,
    pub proxy_url: Option<String>,
}

/// Whether a length of time is the one in milliseconds where there is one, else as before.
pub open spec fn is_span_of(span: Span, millis: Option<u64>, before: Span) -> bool {
    match millis {
        Some(ms) => span.is_valid() && span.total() == ms * 1_000_000,
        None => span == before,
    }
}

impl TransportFileConfig {
    /// This section with the settings of another over it.
    pub fn merge(self, other: Self) -> (r: Self)
        ensures
            r == (TransportFileConfig {
                connect_timeout_ms: later(self.connect_timeout_ms, other.connect_timeout_ms),
                request_timeout_ms: later(self.request_timeout_ms, other.request_timeout_ms),
                user_agent: later(self.user_agent, other.user_agent),
                proxy_url: later(self.proxy_url, other.proxy_url),
            }),
    {
        TransportFileConfig {
            connect_timeout_ms: override_with(self.connect_timeout_ms, other.connect_timeout_ms),
            request_timeout_ms: override_with(self.request_timeout_ms, other.request_timeout_ms),
            user_agent: override_with(self.user_agent, other.user_agent),
            proxy_url: override_with(self.proxy_url, other.proxy_url),
        }
    }

    /// The transport configuration with the settings of the section over it.
    pub fn into_transport(self, current: TransportConfig) -> (r: TransportConfig)
        ensures
            is_span_of(r.connect_timeout, self.connect_timeout_ms, current.connect_timeout),
            is_span_of(r.request_timeout, self.request_timeout_ms, current.request_timeout),
            r.user_agent == match self.user_agent {
                Some(u) => u,
                None => current.user_agent,
            },
            r.proxy_url == later(current.proxy_url, self.proxy_url),
    {
        TransportConfig {
            connect_timeout: match self.connect_timeout_ms {
                Some(ms) => Span::from_millis(ms),
                None => current.connect_timeout,
            },
            request_timeout: match self.request_timeout_ms {
                Some(ms) => Span::from_millis(ms),
                None => current.request_timeout,
            },
            user_agent: match self.user_agent {
                Some(u) => u,
                None => current.user_agent,
            },
            proxy_url: override_with(current.proxy_url, self.proxy_url),
        }
    }
}

/// The retry section of a file.
#[derive(Debug)]
pub struct RetryFileConfig {
    pub max_retries: Option<u32>,
    pub initial_backoff_ms: Option<u64>,
    pub max_backoff_ms: Option<u64>,
    pub backoff_multiplier: Option<Multiplier>,
}

/// Whether retry options are those of the section over those before.
pub open spec fn is_retry_of(r: RetryOptions, file: RetryFileConfig, current: RetryOptions) -> bool {
    &&& r.max_retries == match file.max_retries {
        Some(n) => n,
        None => current.max_retries,
    }
    &&& is_span_of(r.initial_backoff, file.initial_backoff_ms, current.initial_backoff)
    &&& is_span_of(r.max_backoff, file.max_backoff_ms, current.max_backoff)
    &&& r.backoff_multiplier == match file.backoff_multiplier {
        Some(m) => m,
        None => current.backoff_multiplier,
    }
}

impl RetryFileConfig {
    /// This section with the settings of another over it.
    pub fn merge(self, other: Self) -> (r: Self)
        ensures
            r == (RetryFileConfig {
                max_retries: later(self.max_retries, other.max_retries),
                initial_backoff_ms: later(self.initial_backoff_ms, other.initial_backoff_ms),
                max_backoff_ms: later(self.max_backoff_ms, other.max_backoff_ms),
                backoff_multiplier: later(self.backoff_multiplier, other.backoff_multiplier),
            }),
    {
        RetryFileConfig {
            max_retries: override_with(self.max_retries, other.max_retries),
            initial_backoff_ms: override_with(self.initial_backoff_ms, other.initial_backoff_ms),
            max_backoff_ms: override_with(self.max_backoff_ms, other.max_backoff_ms),
            backoff_multiplier: override_with(self.backoff_multiplier, other.backoff_multiplier),
        }
    }

    /// The retry options with the settings of the section over them, checked.
    pub fn into_retry(self, current: RetryOptions) -> (r: Result<
        RetryOptions,
        ClientConfigLoaderError,
    >)
        ensures
            match r {
                Ok(options) => is_retry_of(options, self, current) && options.rejection() is None,
                Err(ClientConfigLoaderError::Error(Error::InvalidArgument(m))) => exists|
                    options: RetryOptions,
                | #[trigger]
                    is_retry_of(options, self, current) && options.rejection() == Some(m@),
                Err(_) => false,
            },
    {
        let options = RetryOptions {
            max_retries: match self.max_retries {
                Some(n) => n,
                None => current.max_retries,
            },
            initial_backoff: match self.initial_backoff_ms {
                Some(ms) => Span::from_millis(ms),
                None => current.initial_backoff,
            },
            max_backoff: match self.max_backoff_ms {
                Some(ms) => Span::from_millis(ms),
                None => current.max_backoff,
            },
            backoff_multiplier: match self.backoff_multiplier {
                Some(m) => m,
                None => current.backoff_multiplier,
            },
        };
        assert(is_retry_of(options, self, current));
        match RetryPolicy::validate(options) {
            Ok(_) => Ok(options),
            Err(e) => Err(ClientConfigLoaderError::Error(e)),
        }
    }
}

/// A configuration file.
#[derive(Debug)]
pub struct FileConfig {
    pub client: ClientFileConfig,
    pub auth: AuthFileConfig,
    pub transport: TransportFileConfig,
    pub retry: RetryFileConfig,
    pub defaults: DefaultsConfig,
}

/// Whether a file is one with the settings of another over it.
pub open spec fn is_merge(r: FileConfig, first: FileConfig, second: FileConfig) -> bool {
    &&& r.client.base_url == later(first.client.base_url, second.client.base_url)
    &&& r.auth.kind == later(first.auth.kind, second.auth.kind)
    &&& r.auth.bearer_token == later(first.auth.bearer_token, second.auth.bearer_token)
    &&& r.auth.username == later(first.auth.username, second.auth.username)
    &&& r.auth.password == later(first.auth.password, second.auth.password)
    &&& r.auth.header_name == later(first.auth.header_name, second.auth.header_name)
    &&& r.auth.header_value == later(first.auth.header_value, second.auth.header_value)
    &&& r.transport.connect_timeout_ms == later(
        first.transport.connect_timeout_ms,
        second.transport.connect_timeout_ms,
    )
    &&& r.transport.request_timeout_ms == later(
        first.transport.request_timeout_ms,
        second.transport.request_timeout_ms,
    )
    &&& r.transport.user_agent == later(first.transport.user_agent, second.transport.user_agent)
    &&& r.transport.proxy_url == later(first.transport.proxy_url, second.transport.proxy_url)
    &&& r.retry.max_retries == later(first.retry.max_retries, second.retry.max_retries)
    &&& r.retry.initial_backoff_ms == later(
        first.retry.initial_backoff_ms,
        second.retry.initial_backoff_ms,
    )
    &&& r.retry.max_backoff_ms == later(first.retry.max_backoff_ms, second.retry.max_backoff_ms)
    &&& r.retry.backoff_multiplier == later(
        first.retry.backoff_multiplier,
        second.retry.backoff_multiplier,
    )
    &&& r.defaults.default_content_type == later(
        first.defaults.default_content_type,
        second.defaults.default_content_type,
    )
    &&& fields(r.defaults.headers@) == with_fields(
        fields(first.defaults.headers@),
        fields(second.defaults.headers@),
    )
    &&& fields(r.defaults.query@) == with_fields(
        fields(first.defaults.query@),
        fields(second.defaults.query@),
    )
}

/// Whether a file says nothing.
pub open spec fn is_blank(f: FileConfig) -> bool {
    &&& f.client.base_url is None
    &&& f.auth.kind is None && f.auth.bearer_token is None && f.auth.username is None
    &&& f.auth.password is None && f.auth.header_name is None && f.auth.header_value is None
    &&& f.transport.connect_timeout_ms is None && f.transport.request_timeout_ms is None
    &&& f.transport.user_agent is None && f.transport.proxy_url is None
    &&& f.retry.max_retries is None && f.retry.initial_backoff_ms is None
    &&& f.retry.max_backoff_ms is None && f.retry.backoff_multiplier is None
    &&& f.defaults.default_content_type is None
    &&& f.defaults.headers@.len() == 0 && f.defaults.query@.len() == 0
}

impl Default for FileConfig {
    fn default() -> (r: Self)
        ensures
            is_blank(r),
    {
        FileConfig {
            client: ClientFileConfig { base_url: None },
            auth: AuthFileConfig {
                kind: None,
                bearer_token: None,
                username: None,
                password: None,
                header_name: None,
                header_value: None,
            },
            transport: TransportFileConfig {
                connect_timeout_ms: None,
                request_timeout_ms: None,
                user_agent: None,
                proxy_url: None,
            },
            retry: RetryFileConfig {
                max_retries: None,
                initial_backoff_ms: None,
                max_backoff_ms: None,
                backoff_multiplier: None,
            },
            defaults: DefaultsConfig::default(),
        }
    }
}

impl FileConfig {
    /// This file with the settings of another over it.
    pub fn merge(self, other: Self) -> (r: Self)
        ensures
            is_merge(r, self, other),
            self.defaults.is_valid() ==> r.defaults.is_valid(),
    {
        let mut headers = self.defaults.headers;
        set_fields(&mut headers, &other.defaults.headers);
        let mut query = self.defaults.query;
        set_fields(&mut query, &other.defaults.query);
        FileConfig {
            client: self.client.merge(other.client),
            auth: self.auth.merge(other.auth),
            transport: self.transport.merge(other.transport),
            retry: self.retry.merge(other.retry),
            defaults: DefaultsConfig {
                default_content_type: override_with(
                    self.defaults.default_content_type,
                    other.defaults.default_content_type,
                ),
                headers,
                query,
            },
        }
    }
}

/// What a variable of the environment says.
pub open spec fn env_of(env: Seq<(Seq<char>, Seq<char>)>, prefix: Seq<char>, name: Seq<char>) -> Option<
    Seq<char>,
> {
    field_of(env, prefix + name)
}

/// A text setting with the environment over it.
pub open spec fn text_over(value: Option<Seq<char>>, before: Option<String>) -> Option<Seq<char>> {
    match value {
        Some(v) => Some(v),
        None => text_opt(before),
    }
}

/// A number setting with the environment over it.
pub open spec fn number_over(value: Option<Seq<char>>, before: Option<u64>, max: nat) -> Option<nat> {
    match value {
        Some(v) => unsigned_value(v, max),
        None => match before {
            Some(n) => Some(n as nat),
            None => None,
        },
    }
}

/// The message for a variable that should be a number.
pub open spec fn bad_number(name: Seq<char>) -> Seq<char> {
    "invalid "@ + name + " environment override"@
}

/// Whether a variable is there and is no number up to `max`.
pub open spec fn is_bad_number(value: Option<Seq<char>>, max: nat) -> bool {
    value matches Some(v) && unsigned_value(v, max) is None
}

/// Whether a variable is there and is no JSON object of texts.
pub open spec fn is_bad_map(value: Option<Seq<char>>) -> bool {
    value matches Some(v) && json_text_map(v) is Err
}

/// The message for a variable that should be a JSON object of texts.
pub open spec fn bad_map(name: Seq<char>, value: Option<Seq<char>>) -> Seq<char> {
    "invalid "@ + name + " environment override: "@ + json_text_map(value.unwrap())->Err_0
}

/// The first thing that is wrong with the environment, if anything is. The multiplier is
/// read elsewhere, as it is a floating-point number.
pub open spec fn env_error(
    env: Seq<(Seq<char>, Seq<char>)>,
    prefix: Seq<char>,
    multiplier: Option<Option<Multiplier>>,
) -> Option<Seq<char>> {
    let max64 = u64::MAX as nat;
    let max32 = u32::MAX as nat;
    if is_bad_number(env_of(env, prefix, "TRANSPORT__CONNECT_TIMEOUT_MS"@), max64) {
        Some(bad_number("TRANSPORT__CONNECT_TIMEOUT_MS"@))
    } else if is_bad_number(env_of(env, prefix, "TRANSPORT__REQUEST_TIMEOUT_MS"@), max64) {
        Some(bad_number("TRANSPORT__REQUEST_TIMEOUT_MS"@))
    } else if is_bad_number(env_of(env, prefix, "RETRY__MAX_RETRIES"@), max32) {
        Some(bad_number("RETRY__MAX_RETRIES"@))
    } else if is_bad_number(env_of(env, prefix, "RETRY__INITIAL_BACKOFF_MS"@), max64) {
        Some(bad_number("RETRY__INITIAL_BACKOFF_MS"@))
    } else if is_bad_number(env_of(env, prefix, "RETRY__MAX_BACKOFF_MS"@), max64) {
        Some(bad_number("RETRY__MAX_BACKOFF_MS"@))
    } else if multiplier == Some(None::<Multiplier>) {
        Some("invalid RETRY__BACKOFF_MULTIPLIER environment override"@)
    } else if is_bad_map(env_of(env, prefix, "DEFAULTS__HEADERS_JSON"@)) {
        Some(
            bad_map(
                "DEFAULTS__HEADERS_JSON"@,
                env_of(env, prefix, "DEFAULTS__HEADERS_JSON"@),
            ),
        )
    } else if is_bad_map(env_of(env, prefix, "DEFAULTS__QUERY_JSON"@)) {
        Some(bad_map("DEFAULTS__QUERY_JSON"@, env_of(env, prefix, "DEFAULTS__QUERY_JSON"@)))
    } else {
        None
    }
}

/// Whether a number setting is what it has to be.
pub open spec fn is_u64(n: Option<u64>, expected: Option<nat>) -> bool {
    match n {
        Some(k) => expected == Some(k as nat),
        None => expected is None,
    }
}

/// Whether a file is another with the environment over it.
pub open spec fn is_env_over(
    r: FileConfig,
    config: FileConfig,
    env: Seq<(Seq<char>, Seq<char>)>,
    prefix: Seq<char>,
    multiplier: Option<Option<Multiplier>>,
) -> bool {
    let max64 = u64::MAX as nat;
    &&& text_opt(r.client.base_url) == text_over(
        env_of(env, prefix, "CLIENT__BASE_URL"@),
        config.client.base_url,
    )
    &&& text_opt(r.auth.kind) == text_over(env_of(env, prefix, "AUTH__TYPE"@), config.auth.kind)
    &&& text_opt(r.auth.bearer_token) == text_over(
        env_of(env, prefix, "AUTH__BEARER_TOKEN"@),
        config.auth.bearer_token,
    )
    &&& text_opt(r.auth.username) == text_over(
        env_of(env, prefix, "AUTH__USERNAME"@),
        config.auth.username,
    )
    &&& text_opt(r.auth.password) == text_over(
        env_of(env, prefix, "AUTH__PASSWORD"@),
        config.auth.password,
    )
    &&& text_opt(r.auth.header_name) == text_over(
        env_of(env, prefix, "AUTH__HEADER_NAME"@),
        config.auth.header_name,
    )
    &&& text_opt(r.auth.header_value) == text_over(
        env_of(env, prefix, "AUTH__HEADER_VALUE"@),
        config.auth.header_value,
    )
    &&& is_u64(
        r.transport.connect_timeout_ms,
        number_over(
            env_of(env, prefix, "TRANSPORT__CONNECT_TIMEOUT_MS"@),
            config.transport.connect_timeout_ms,
            max64,
        ),
    )
    &&& is_u64(
        r.transport.request_timeout_ms,
        number_over(
            env_of(env, prefix, "TRANSPORT__REQUEST_TIMEOUT_MS"@),
            config.transport.request_timeout_ms,
            max64,
        ),
    )
    &&& text_opt(r.transport.user_agent) == text_over(
        env_of(env, prefix, "TRANSPORT__USER_AGENT"@),
        config.transport.user_agent,
    )
    &&& text_opt(r.transport.proxy_url) == text_over(
        env_of(env, prefix, "TRANSPORT__PROXY_URL"@),
        config.transport.proxy_url,
    )
    &&& match env_of(env, prefix, "RETRY__MAX_RETRIES"@) {
        Some(v) => r.retry.max_retries matches Some(n) && unsigned_value(v, u32::MAX as nat) == Some(
            n as nat,
        ),
        None => r.retry.max_retries == config.retry.max_retries,
    }
    &&& is_u64(
        r.retry.initial_backoff_ms,
        number_over(
            env_of(env, prefix, "RETRY__INITIAL_BACKOFF_MS"@),
            config.retry.initial_backoff_ms,
            max64,
        ),
    )
    &&& is_u64(
        r.retry.max_backoff_ms,
        number_over(
            env_of(env, prefix, "RETRY__MAX_BACKOFF_MS"@),
            config.retry.max_backoff_ms,
            max64,
        ),
    )
    &&& r.retry.backoff_multiplier == match multiplier {
        Some(m) => m,
        None => config.retry.backoff_multiplier,
    }
    &&& text_opt(r.defaults.default_content_type) == text_over(
        env_of(env, prefix, "DEFAULTS__DEFAULT_CONTENT_TYPE"@),
        config.defaults.default_content_type,
    )
    &&& match env_of(env, prefix, "DEFAULTS__HEADERS_JSON"@) {
        Some(v) => json_text_map(v) matches Ok(members) && fields(r.defaults.headers@) == members,
        None => r.defaults.headers == config.defaults.headers,
    }
    &&& match env_of(env, prefix, "DEFAULTS__QUERY_JSON"@) {
        Some(v) => json_text_map(v) matches Ok(members) && fields(r.defaults.query@) == members,
        None => r.defaults.query == config.defaults.query,
    }
}

/// What a variable of the environment says.
pub fn env_value(env: &Vec<(String, String)>, prefix: &str, name: &str) -> (r: Option<String>)
    ensures
        text_opt(r) == env_of(fields(env@), prefix@, name@),
{
    get_field(env, joined(prefix, name).as_str())
}

fn env_text(
    env: &Vec<(String, String)>,
    prefix: &str,
    name: &str,
    before: Option<String>,
) -> (r: Option<String>)
    ensures
        text_opt(r) == text_over(env_of(fields(env@), prefix@, name@), before),
{
    match env_value(env, prefix, name) {
        Some(v) => Some(v),
        None => before,
    }
}

/// Reads a number that an environment variable holds.
pub fn parse_u64(name: &str, value: &str) -> (r: Result<u64, ClientConfigLoaderError>)
    ensures
        match unsigned_value(value@, u64::MAX as nat) {
            Some(k) => r matches Ok(n) && n == k,
            None => is_config_error(r, bad_number(name@)),
        },
{
    match parse_unsigned(value, u64::MAX) {
        Ok(n) => Ok(n),
        Err(_) => config_error(joined3("invalid ", name, " environment override").as_str()),
    }
}

/// Reads a number that an environment variable holds.
pub fn parse_u32(name: &str, value: &str) -> (r: Result<u32, ClientConfigLoaderError>)
    ensures
        match unsigned_value(value@, u32::MAX as nat) {
            Some(k) => r matches Ok(n) && n == k,
            None => is_config_error(r, bad_number(name@)),
        },
{
    match parse_unsigned(value, u32::MAX as u64) {
        Ok(n) => Ok(n as u32),
        Err(_) => config_error(joined3("invalid ", name, " environment override").as_str()),
    }
}

fn env_number(
    env: &Vec<(String, String)>,
    prefix: &str,
    name: &str,
    before: Option<u64>,
) -> (r: Result<Option<u64>, ClientConfigLoaderError>)
    ensures
        ({
            let value = env_of(fields(env@), prefix@, name@);
            match r {
                Ok(n) => !is_bad_number(value, u64::MAX as nat) && is_u64(
                    n,
                    number_over(value, before, u64::MAX as nat),
                ),
                Err(_) => is_bad_number(value, u64::MAX as nat) && is_config_error(
                    r,
                    bad_number(name@),
                ),
            }
        }),
{
    match env_value(env, prefix, name) {
        Some(v) => match parse_u64(name, v.as_str()) {
            Ok(n) => Ok(Some(n)),
            Err(e) => Err(e),
        },
        None => Ok(before),
    }
}

fn env_map(
    env: &Vec<(String, String)>,
    prefix: &str,
    name: &str,
    before: Vec<(String, String)>,
) -> (r: Result<Vec<(String, String)>, ClientConfigLoaderError>)
    ensures
        ({
            let value = env_of(fields(env@), prefix@, name@);
            match r {
                Ok(m) => !is_bad_map(value) && match value {
                    Some(v) => json_text_map(v) matches Ok(members) && fields(m@) == members,
                    None => m == before,
                } && (has_distinct_names(fields(before@)) ==> has_distinct_names(fields(m@))),
                Err(_) => is_bad_map(value) && is_config_error(r, bad_map(name@, value)),
            }
        }),
{
    match env_value(env, prefix, name) {
        Some(v) => match parse_text_map(v.as_str()) {
            Ok(m) => Ok(m),
            Err(e) => {
                let head = joined3("invalid ", name, " environment override: ");
                config_error(joined(head.as_str(), e.as_str()).as_str())
            },
        },
        None => Ok(before),
    }
}

/// The file with the environment over it. The multiplier, a floating-point number, is handed
/// over: absent, present but no number, or the number.
pub fn apply_env_overrides(
    prefix: &str,
    env: &Vec<(String, String)>,
    config: FileConfig,
    multiplier: Option<Option<Multiplier>>,
) -> (r: Result<FileConfig, ClientConfigLoaderError>)
    ensures
        match env_error(fields(env@), prefix@, multiplier) {
            Some(m) => is_config_error(r, m),
            None => r matches Ok(file) && is_env_over(file, config, fields(env@), prefix@, multiplier)
                && (config.defaults.is_valid() ==> file.defaults.is_valid()),
        },
{
    let client = ClientFileConfig {
        base_url: env_text(env, prefix, "CLIENT__BASE_URL", config.client.base_url),
    };
    let auth = AuthFileConfig {
        kind: env_text(env, prefix, "AUTH__TYPE", config.auth.kind),
        bearer_token: env_text(env, prefix, "AUTH__BEARER_TOKEN", config.auth.bearer_token),
        username: env_text(env, prefix, "AUTH__USERNAME", config.auth.username),
        password: env_text(env, prefix, "AUTH__PASSWORD", config.auth.password),
        header_name: env_text(env, prefix, "AUTH__HEADER_NAME", config.auth.header_name),
        header_value: env_text(env, prefix, "AUTH__HEADER_VALUE", config.auth.header_value),
    };
    let connect_timeout_ms = match env_number(
        env,
        prefix,
        "TRANSPORT__CONNECT_TIMEOUT_MS",
        config.transport.connect_timeout_ms,
    ) {
        Ok(n) => n,
        Err(e) => return Err(e),
    };
    let request_timeout_ms = match env_number(
        env,
        prefix,
        "TRANSPORT__REQUEST_TIMEOUT_MS",
        config.transport.request_timeout_ms,
    ) {
        Ok(n) => n,
        Err(e) => return Err(e),
    };
    let transport = TransportFileConfig {
        connect_timeout_ms,
        request_timeout_ms,
        user_agent: env_text(env, prefix, "TRANSPORT__USER_AGENT", config.transport.user_agent),
        proxy_url: env_text(env, prefix, "TRANSPORT__PROXY_URL", config.transport.proxy_url),
    };
    let max_retries = match env_value(env, prefix, "RETRY__MAX_RETRIES") {
        Some(v) => match parse_u32("RETRY__MAX_RETRIES", v.as_str()) {
            Ok(n) => Some(n),
            Err(e) => return Err(e),
        },
        None => config.retry.max_retries,
    };
    let initial_backoff_ms = match env_number(
        env,
        prefix,
        "RETRY__INITIAL_BACKOFF_MS",
        config.retry.initial_backoff_ms,
    ) {
        Ok(n) => n,
        Err(e) => return Err(e),
    };
    let max_backoff_ms = match env_number(
        env,
        prefix,
        "RETRY__MAX_BACKOFF_MS",
        config.retry.max_backoff_ms,
    ) {
        Ok(n) => n,
        Err(e) => return Err(e),
    };
    let backoff_multiplier = match multiplier {
        Some(Some(m)) => Some(m),
        Some(None) => return config_error("invalid RETRY__BACKOFF_MULTIPLIER environment override"),
        None => config.retry.backoff_multiplier,
    };
    let default_content_type = env_text(
        env,
        prefix,
        "DEFAULTS__DEFAULT_CONTENT_TYPE",
        config.defaults.default_content_type,
    );
    let headers = match env_map(env, prefix, "DEFAULTS__HEADERS_JSON", config.defaults.headers) {
        Ok(m) => m,
        Err(e) => return Err(e),
    };
    let query = match env_map(env, prefix, "DEFAULTS__QUERY_JSON", config.defaults.query) {
        Ok(m) => m,
        Err(e) => return Err(e),
    };
    Ok(
        FileConfig {
            client,
            auth,
            transport,
            retry: RetryFileConfig {
                max_retries,
                initial_backoff_ms,
                max_backoff_ms,
                backoff_multiplier,
            },
            defaults: DefaultsConfig { default_content_type, headers, query },
        },
    )
}

/// Whether a transport configuration is the default one with the settings of a section over
/// it.
pub open spec fn is_transport_of(t: TransportConfig, file: TransportFileConfig) -> bool {
    &&& is_span_of(t.connect_timeout, file.connect_timeout_ms, Span { seconds: 5, nanos: 0 })
    &&& is_span_of(t.request_timeout, file.request_timeout_ms, Span { seconds: 30, nanos: 0 })
    &&& t.user_agent@ == match file.user_agent {
        Some(u) => u@,
        None => "durable-streams-client/0.1.0"@,
    }
    &&& t.proxy_url == file.proxy_url
}

/// Whether a result is what a file comes to: the configuration that it describes, or the
/// first thing that is wrong with it.
pub open spec fn is_resolved(r: Result<ClientConfig, ClientConfigLoaderError>, file: FileConfig) -> bool {
    match r {
        Ok(c) => {
            &&& match file.client.base_url {
                Some(t) => normal_url_spec(t@) matches Ok(u) && c.base_url@ == u,
                None => c.base_url@ == "http://127.0.0.1:8080/"@,
            }
            &&& auth_error(file.auth) is None && c.auth == auth_of(file.auth)
            &&& is_transport_of(c.transport, file.transport)
            &&& is_retry_of(c.retry, file.retry, default_retry())
            &&& c.retry.rejection() is None
            &&& c.defaults == file.defaults
        },
        Err(e) => if file.client.base_url matches Some(t) && normal_url_spec(t@) is Err {
            e matches ClientConfigLoaderError::Error(Error::Url(m)) && m@ == normal_url_spec(
                file.client.base_url.unwrap()@,
            )->Err_0
        } else {
            match auth_error(file.auth) {
                Some(m) => is_config_error(r, m),
                None => e matches ClientConfigLoaderError::Error(Error::InvalidArgument(m)) && exists|
                    options: RetryOptions,
                | #[trigger]
                    is_retry_of(options, file.retry, default_retry()) && options.rejection() == Some(
                        m@,
                    ),
            }
        },
    }
}

impl FileConfig {
    /// The configuration that the file describes.
    pub fn try_into_config(self) -> (r: Result<ClientConfig, ClientConfigLoaderError>)
        ensures
            is_resolved(r, self),
    {
        let current = ClientConfig::default();
        let base_url = match &self.client.base_url {
            Some(t) => match normal_url(t.as_str()) {
                Ok(u) => u,
                Err(m) => return Err(ClientConfigLoaderError::Error(Error::Url(m))),
            },
            None => current.base_url,
        };
        let auth = match self.auth.into_auth() {
            Ok(a) => a,
            Err(e) => return Err(e),
        };
        let transport = self.transport.into_transport(current.transport);
        let retry = match self.retry.into_retry(current.retry) {
            Ok(o) => o,
            Err(e) => return Err(e),
        };
        Ok(ClientConfig { base_url, auth, transport, retry, defaults: self.defaults })
    }
}

/// Whether a file is what layers of files come to, each over the ones before it.
pub open spec fn is_layered(r: FileConfig, layers: Seq<FileConfig>) -> bool
    decreases layers.len(),
{
    if layers.len() == 0 {
        is_blank(r)
    } else {
        exists|below: FileConfig|
            is_layered(below, layers.drop_last()) && #[trigger] is_merge(r, below, layers.last())
    }
}

/// Merges files, each over the ones before it.
pub fn merge_layers(layers: Vec<FileConfig>) -> (r: FileConfig)
    ensures
        is_layered(r, layers@),
        r.defaults.is_valid(),
{
    let ghost all = layers@;
    let mut merged = FileConfig::default();
    for layer in it: layers
        invariant
            it.seq() == all,
            is_layered(merged, all.take(it.index() as int)),
            merged.defaults.is_valid(),
    {
        let ghost below = merged;
        merged = merged.merge(layer);
        proof {
            let next = all.take(it.index() as int + 1);
            assert(next.drop_last() =~= all.take(it.index() as int));
            assert(next.last() == layer);
            assert(is_merge(merged, below, next.last()));
        }
    }
    assert(all.take(all.len() as int) =~= all);
    merged
}

/// The configuration that a file and the environment come to, checked.
pub fn resolve(
    file: FileConfig,
    prefix: &str,
    env: &Vec<(String, String)>,
    multiplier: Option<Option<Multiplier>>,
) -> (r: Result<ClientConfig, ClientConfigLoaderError>)
    ensures
        match env_error(fields(env@), prefix@, multiplier) {
            Some(m) => is_config_error(r, m),
            None => exists|over: FileConfig|
                #![trigger is_env_over(over, file, fields(env@), prefix@, multiplier)]
                is_env_over(over, file, fields(env@), prefix@, multiplier) && match r {
                    Ok(c) => is_resolved(r, over) && c.rejection() is None,
                    Err(e) => is_resolved(r, over) || exists|c: ClientConfig|
                        #![trigger c.rejection()]
                        is_resolved(Ok(c), over) && (e matches ClientConfigLoaderError::Error(
                            Error::InvalidArgument(m),
                        ) && c.rejection() == Some(m@)),
                },
        },
        file.defaults.is_valid() ==> (r matches Ok(c) ==> c.defaults.is_valid()),
{
    let over = match apply_env_overrides(prefix, env, file, multiplier) {
        Ok(f) => f,
        Err(e) => return Err(e),
    };
    match over.try_into_config() {
        Ok(config) => match config.validate() {
            Ok(_) => Ok(config),
            Err(e) => {
                assert(config.rejection() is Some);
                Err(ClientConfigLoaderError::Error(e))
            },
        },
        Err(e) => Err(e),
    }
}

/// Whether the lists of a file name nothing twice.
pub open spec fn has_distinct_defaults(f: FileConfig) -> bool {
    f.defaults.is_valid()
}

/// Whether two files say the same, whatever the order of their headers and query parameters.
pub open spec fn says_the_same(a: FileConfig, b: FileConfig) -> bool {
    &&& a.client == b.client && a.auth == b.auth && a.transport == b.transport && a.retry == b.retry
    &&& a.defaults.default_content_type == b.defaults.default_content_type
    &&& forall|name: Seq<char>|
        #![trigger field_of(fields(a.defaults.headers@), name)]
        field_of(fields(a.defaults.headers@), name) == field_of(fields(b.defaults.headers@), name)
    &&& forall|name: Seq<char>|
        #![trigger field_of(fields(a.defaults.query@), name)]
        field_of(fields(a.defaults.query@), name) == field_of(fields(b.defaults.query@), name)
}

proof fn lemma_fields_associate(
    a: Seq<(Seq<char>, Seq<char>)>,
    b: Seq<(Seq<char>, Seq<char>)>,
    c: Seq<(Seq<char>, Seq<char>)>,
    name: Seq<char>,
)
    requires
        has_distinct_names(b),
        has_distinct_names(c),
    ensures
        field_of(with_fields(with_fields(a, b), c), name) == field_of(
            with_fields(a, with_fields(b, c)),
            name,
        ),
{
    lemma_set_fields_distinct(b, c);
    law_set_fields(with_fields(a, b), c, name);
    law_set_fields(a, b, name);
    law_set_fields(a, with_fields(b, c), name);
    law_set_fields(b, c, name);
}

/// What three layers of files come to does not depend on which two are merged first.
pub proof fn law_layers_associate(
    a: FileConfig,
    b: FileConfig,
    c: FileConfig,
    ab: FileConfig,
    bc: FileConfig,
    left: FileConfig,
    right: FileConfig,
)
    requires
        has_distinct_defaults(b),
        has_distinct_defaults(c),
        is_merge(ab, a, b),
        is_merge(left, ab, c),
        is_merge(bc, b, c),
        is_merge(right, a, bc),
    ensures
        says_the_same(left, right),
{
    assert forall|name: Seq<char>|
        #![trigger field_of(fields(left.defaults.headers@), name)]
        field_of(fields(left.defaults.headers@), name) == field_of(
            fields(right.defaults.headers@),
            name,
        ) by {
        lemma_fields_associate(
            fields(a.defaults.headers@),
            fields(b.defaults.headers@),
            fields(c.defaults.headers@),
            name,
        );
    }
    assert forall|name: Seq<char>|
        #![trigger field_of(fields(left.defaults.query@), name)]
        field_of(fields(left.defaults.query@), name) == field_of(
            fields(right.defaults.query@),
            name,
        ) by {
        lemma_fields_associate(
            fields(a.defaults.query@),
            fields(b.defaults.query@),
            fields(c.defaults.query@),
            name,
        );
    }
}

/// A setting that the environment names is decided by it alone: whatever two sets of files
/// say, the settings that the environment names come out the same.
pub proof fn law_environment_wins(
    first: FileConfig,
    second: FileConfig,
    a: FileConfig,
    b: FileConfig,
    env: Seq<(Seq<char>, Seq<char>)>,
    prefix: Seq<char>,
    multiplier: Option<Option<Multiplier>>,
)
    requires
        is_env_over(a, first, env, prefix, multiplier),
        is_env_over(b, second, env, prefix, multiplier),
    ensures
        env_of(env, prefix, "CLIENT__BASE_URL"@) is Some ==> text_opt(a.client.base_url) == text_opt(
            b.client.base_url,
        ),
        env_of(env, prefix, "AUTH__TYPE"@) is Some ==> text_opt(a.auth.kind) == text_opt(b.auth.kind),
        env_of(env, prefix, "AUTH__BEARER_TOKEN"@) is Some ==> text_opt(a.auth.bearer_token)
            == text_opt(b.auth.bearer_token),
        env_of(env, prefix, "AUTH__USERNAME"@) is Some ==> text_opt(a.auth.username) == text_opt(
            b.auth.username,
        ),
        env_of(env, prefix, "AUTH__PASSWORD"@) is Some ==> text_opt(a.auth.password) == text_opt(
            b.auth.password,
        ),
        env_of(env, prefix, "AUTH__HEADER_NAME"@) is Some ==> text_opt(a.auth.header_name)
            == text_opt(b.auth.header_name),
        env_of(env, prefix, "AUTH__HEADER_VALUE"@) is Some ==> text_opt(a.auth.header_value)
            == text_opt(b.auth.header_value),
        env_of(env, prefix, "TRANSPORT__CONNECT_TIMEOUT_MS"@) is Some
            ==> a.transport.connect_timeout_ms == b.transport.connect_timeout_ms,
        env_of(env, prefix, "TRANSPORT__REQUEST_TIMEOUT_MS"@) is Some
            ==> a.transport.request_timeout_ms == b.transport.request_timeout_ms,
        env_of(env, prefix, "TRANSPORT__USER_AGENT"@) is Some ==> text_opt(a.transport.user_agent)
            == text_opt(b.transport.user_agent),
        env_of(env, prefix, "TRANSPORT__PROXY_URL"@) is Some ==> text_opt(a.transport.proxy_url)
            == text_opt(b.transport.proxy_url),
        env_of(env, prefix, "RETRY__MAX_RETRIES"@) is Some ==> a.retry.max_retries
            == b.retry.max_retries,
        env_of(env, prefix, "RETRY__INITIAL_BACKOFF_MS"@) is Some ==> a.retry.initial_backoff_ms
            == b.retry.initial_backoff_ms,
        env_of(env, prefix, "RETRY__MAX_BACKOFF_MS"@) is Some ==> a.retry.max_backoff_ms
            == b.retry.max_backoff_ms,
        multiplier is Some ==> a.retry.backoff_multiplier == b.retry.backoff_multiplier,
        env_of(env, prefix, "DEFAULTS__DEFAULT_CONTENT_TYPE"@) is Some ==> text_opt(
            a.defaults.default_content_type,
        ) == text_opt(b.defaults.default_content_type),
        env_of(env, prefix, "DEFAULTS__HEADERS_JSON"@) is Some ==> fields(a.defaults.headers@)
            == fields(b.defaults.headers@),
        env_of(env, prefix, "DEFAULTS__QUERY_JSON"@) is Some ==> fields(a.defaults.query@) == fields(
            b.defaults.query@,
        ),
{
}

} // verus!
