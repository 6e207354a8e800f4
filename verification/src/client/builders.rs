//! Fluent construction of clients and requests.

use vstd::prelude::*;
use crate::client::auth::AuthConfig;
use crate::client::config::{
    ClientConfig, DefaultsConfig, TransportConfig, default_retry, is_default_transport,
};
use crate::client::error::Error;
use crate::client::model::{
    AppendRequest, CloseStreamRequest, CreateStreamRequest, LiveMode, ReadRequest, RequestOptions,
};
use crate::client::requests::{build_default_headers, header_problem, is_sendable, with_lower_names};
use crate::client::retry::RetryOptions;
use crate::client::types::{Offset, token_of};
use crate::fields::{copy_fields, fields, set_field, with_field};
use crate::text::text_opt;
use crate::time::Span;
use crate::urls::{normal_url, normal_url_spec};

verus! {

/// Durable Streams client.
///
/// It owns the configuration and the checked default headers; requests are made from it.
#[derive(Debug)]
pub struct Client {
    pub config: ClientConfig,
    pub default_headers: Vec<(String, String)>,
}

/// Stream-scoped view over a [`Client`].
#[derive(Debug)]
pub struct StreamHandle {
    pub default_content_type: Option<String>,
    pub path: String,
}

/// Whether a client is the one that a configuration describes.
pub open spec fn is_client_of(c: Client, config: ClientConfig) -> bool {
    c.config == config && fields(c.default_headers@) == with_lower_names(
        fields(config.defaults.headers@),
    )
}

/// Whether an error is why no client can be made from a configuration: it is rejected, or
/// the first default header that cannot be sent.
pub open spec fn is_client_error(e: Error, config: ClientConfig) -> bool {
    let f = fields(config.defaults.headers@);
    e matches Error::InvalidArgument(m) && (match config.rejection() {
        Some(t) => m@ == t,
        None => exists|i: int|
            0 <= i < f.len() && !is_sendable(#[trigger] f[i]) && m@ == header_problem(f[i]) && forall|
                j: int,
            |
                0 <= j < i ==> is_sendable(#[trigger] f[j]),
    })
}

impl Client {
    /// Start building a client with ergonomic fluent configuration.
    #[must_use]
    pub fn builder() -> (r: ClientBuilder)
        ensures
            r.is_fresh(),
    {
        ClientBuilder::new()
    }

    /// Build a client from validated configuration.
    pub fn from_config(config: ClientConfig) -> (r: Result<Self, Error>)
        ensures
            match r {
                Ok(c) => config.rejection() is None && is_client_of(c, config) && forall|i: int|
                    0 <= i < config.defaults.headers@.len() ==> is_sendable(
                        #[trigger] fields(config.defaults.headers@)[i],
                    ),
                Err(e) => is_client_error(e, config),
            },
    {
        match config.validate() {
            Ok(_) => {},
            Err(e) => return Err(e),
        }
        match build_default_headers(&config.defaults) {
            Ok(default_headers) => Ok(Client { config, default_headers }),
            Err(e) => Err(e),
        }
    }

    /// Return the resolved configuration used by this client.
    #[must_use]
    pub fn config(&self) -> (r: &ClientConfig)
        ensures
            *r == self.config,
    {
        &self.config
    }

    /// Bind a stream path and return a path-scoped handle.
    #[must_use]
    pub fn stream(&self, path: String) -> (r: StreamHandle)
        ensures
            r.path == path,
            text_opt(r.default_content_type) == text_opt(self.config.defaults.default_content_type),
    {
        StreamHandle {
            default_content_type: self.config.defaults.default_content_type.clone(),
            path,
        }
    }
}

/// Fluent builder for constructing a [`Client`] without assembling a full
/// [`ClientConfig`] manually.
#[derive(Debug)]
pub struct ClientBuilder {
    pub config: ClientConfig,
    pub pending_error: Option<Error>,
}

impl ClientBuilder {
    /// Whether nothing has been set.
    pub open spec fn is_fresh(self) -> bool {
        &&& self.config.base_url@ == "http://127.0.0.1:8080/"@
        &&& self.config.auth == AuthConfig::Anonymous
        &&& is_default_transport(self.config.transport)
        &&& self.config.retry == default_retry()
        &&& self.config.defaults.default_content_type is None
        &&& self.config.defaults.headers@.len() == 0
        &&& self.config.defaults.query@.len() == 0
        &&& self.pending_error is None
    }

    /// Create a builder with the defaults.
    #[must_use]
    pub fn new() -> (r: Self)
        ensures
            r.is_fresh(),
    {
        ClientBuilder { config: ClientConfig::default(), pending_error: None }
    }

    /// Set the Durable Streams server base URL.
    #[must_use]
    pub fn base_url(self, url: &str) -> (r: Self)
        ensures
            if self.pending_error is Some {
                r == self
            } else {
                match normal_url_spec(url@) {
                    Ok(u) => r.config.base_url@ == u && r == (ClientBuilder {
                        config: ClientConfig { base_url: r.config.base_url, ..self.config },
                        pending_error: None,
                    }),
                    Err(e) => r.config == self.config && (r.pending_error matches Some(Error::Url(m))
                        && m@ == e),
                }
            },
    {
        if self.pending_error.is_some() {
            return self;
        }
        match normal_url(url) {
            Ok(u) => ClientBuilder {
                config: ClientConfig { base_url: u, ..self.config },
                pending_error: None,
            },
            Err(m) => ClientBuilder { config: self.config, pending_error: Some(Error::Url(m)) },
        }
    }

    /// This builder with another authentication.
    pub open spec fn with_auth(self, auth: AuthConfig) -> Self {
        ClientBuilder { config: ClientConfig { auth, ..self.config }, ..self }
    }

    /// Configure bearer token authentication.
    #[must_use]
    pub fn bearer_auth(self, token: String) -> (r: Self)
        ensures
            r == self.with_auth(AuthConfig::Bearer { token }),
    {
        ClientBuilder {
            config: ClientConfig { auth: AuthConfig::Bearer { token }, ..self.config },
            pending_error: self.pending_error,
        }
    }

    /// Configure basic authentication.
    #[must_use]
    pub fn basic_auth(self, username: String, password: String) -> (r: Self)
        ensures
            r == self.with_auth(AuthConfig::Basic { username, password }),
    {
        ClientBuilder {
            config: ClientConfig { auth: AuthConfig::Basic { username, password }, ..self.config },
            pending_error: self.pending_error,
        }
    }

    /// Configure static header authentication.
    #[must_use]
    pub fn header_auth(self, name: String, value: String) -> (r: Self)
        ensures
            r == self.with_auth(AuthConfig::Header { name, value }),
    {
        ClientBuilder {
            config: ClientConfig { auth: AuthConfig::Header { name, value }, ..self.config },
            pending_error: self.pending_error,
        }
    }

    /// This builder with another transport.
    pub open spec fn with_transport(self, transport: TransportConfig) -> Self {
        ClientBuilder { config: ClientConfig { transport, ..self.config }, ..self }
    }

    /// Set the connect timeout for new requests.
    #[must_use]
    pub fn connect_timeout(self, timeout: Span) -> (r: Self)
        ensures
            r == self.with_transport(
                TransportConfig { connect_timeout: timeout, ..self.config.transport },
            ),
    {
        let mut r = self;
        r.config.transport.connect_timeout = timeout;
        r
    }

    /// Set the per-request timeout.
    #[must_use]
    pub fn request_timeout(self, timeout: Span) -> (r: Self)
        ensures
            r == self.with_transport(
                TransportConfig { request_timeout: timeout, ..self.config.transport },
            ),
    {
        let mut r = self;
        r.config.transport.request_timeout = timeout;
        r
    }

    /// Set the default user agent.
    #[must_use]
    pub fn user_agent(self, value: String) -> (r: Self)
        ensures
            r == self.with_transport(TransportConfig { user_agent: value, ..self.config.transport }),
    {
        let mut r = self;
        r.config.transport.user_agent = value;
        r
    }

    /// Set the proxy URL for the underlying HTTP client.
    #[must_use]
    pub fn proxy_url(self, value: String) -> (r: Self)
        ensures
            r == self.with_transport(
                TransportConfig { proxy_url: Some(value), ..self.config.transport },
            ),
    {
        let mut r = self;
        r.config.transport.proxy_url = Some(value);
        r
    }

    /// This builder with other request defaults.
    pub open spec fn with_defaults(self, defaults: DefaultsConfig) -> Self {
        ClientBuilder { config: ClientConfig { defaults, ..self.config }, ..self }
    }

    /// Set the default content type used by the ergonomic stream API.
    #[must_use]
    pub fn default_content_type(self, value: String) -> (r: Self)
        ensures
            r == self.with_defaults(
                DefaultsConfig { default_content_type: Some(value), ..self.config.defaults },
            ),
    {
        let mut r = self;
        r.config.defaults.default_content_type = Some(value);
        r
    }

    /// Add a default header applied to every request.
    #[must_use]
    pub fn default_header(self, name: String, value: String) -> (r: Self)
        ensures
            r == self.with_defaults(
                DefaultsConfig { headers: r.config.defaults.headers, ..self.config.defaults },
            ),
            fields(r.config.defaults.headers@) == with_field(
                fields(self.config.defaults.headers@),
                name@,
                value@,
            ),
            self.config.defaults.is_valid() ==> r.config.defaults.is_valid(),
    {
        let mut r = self;
        set_field(&mut r.config.defaults.headers, name, value);
        r
    }

    /// Add a default query parameter applied to every request.
    #[must_use]
    pub fn default_query(self, name: String, value: String) -> (r: Self)
        ensures
            r == self.with_defaults(
                DefaultsConfig { query: r.config.defaults.query, ..self.config.defaults },
            ),
            fields(r.config.defaults.query@) == with_field(
                fields(self.config.defaults.query@),
                name@,
                value@,
            ),
            self.config.defaults.is_valid() ==> r.config.defaults.is_valid(),
    {
        let mut r = self;
        set_field(&mut r.config.defaults.query, name, value);
        r
    }

    /// Override the retry policy.
    #[must_use]
    pub fn retry(self, retry: RetryOptions) -> (r: Self)
        ensures
            r == (ClientBuilder { config: ClientConfig { retry, ..self.config }, ..self }),
    {
        let mut r = self;
        r.config.retry = retry;
        r
    }

    /// Build the configured client. An error that was met on the way comes first.
    pub fn build(self) -> (r: Result<Client, Error>)
        ensures
            match self.pending_error {
                Some(e) => r == Err::<Client, Error>(e),
                None => match r {
                    Ok(c) => self.config.rejection() is None && is_client_of(c, self.config)
                        && forall|i: int|
                        0 <= i < self.config.defaults.headers@.len() ==> is_sendable(
                            #[trigger] fields(self.config.defaults.headers@)[i],
                        ),
                    Err(e) => is_client_error(e, self.config),
                },
            },
    {
        match self.pending_error {
            Some(e) => Err(e),
            None => Client::from_config(self.config),
        }
    }
}

/// Whether request options hold nothing.
pub open spec fn no_options(o: RequestOptions) -> bool {
    o.headers@.len() == 0 && o.query@.len() == 0 && o.is_valid()
}

fn empty_options() -> (r: RequestOptions)
    ensures
        no_options(r),
{
    RequestOptions { headers: Vec::new(), query: Vec::new() }
}

/// Whether options are others with a header set.
pub open spec fn is_with_header(
    r: RequestOptions,
    before: RequestOptions,
    name: Seq<char>,
    value: Seq<char>,
) -> bool {
    &&& r.query == before.query
    &&& fields(r.headers@) == with_field(fields(before.headers@), name, value)
    &&& before.is_valid() ==> r.is_valid()
}

/// Whether options are others with a parameter set.
pub open spec fn is_with_query(
    r: RequestOptions,
    before: RequestOptions,
    name: Seq<char>,
    value: Seq<char>,
) -> bool {
    &&& r.headers == before.headers
    &&& fields(r.query@) == with_field(fields(before.query@), name, value)
    &&& before.is_valid() ==> r.is_valid()
}

fn add_header(options: RequestOptions, name: String, value: String) -> (r: RequestOptions)
    ensures
        is_with_header(r, options, name@, value@),
{
    let mut headers = options.headers;
    set_field(&mut headers, name, value);
    RequestOptions { headers, query: options.query }
}

fn add_parameter(options: RequestOptions, name: String, value: String) -> (r: RequestOptions)
    ensures
        is_with_query(r, options, name@, value@),
{
    let mut query = options.query;
    set_field(&mut query, name, value);
    RequestOptions { headers: options.headers, query }
}

/// Builder for ergonomic stream creation.
#[derive(Debug)]
pub struct CreateBuilder {
    pub path: String,
    pub content_type: Option<String>,
    pub ttl_seconds: Option<u64>,
    pub expires_at: Option<String>,
    pub closed: bool,
    pub body: Option<Vec<u8>>,
    pub options: RequestOptions,
}

/// Builder for ergonomic appends.
#[derive(Debug)]
pub struct AppendBuilder {
    pub path: String,
    pub body: Vec<u8>,
    pub content_type: Option<String>,
    pub expected_seq: Option<String>,
    pub options: RequestOptions,
}

/// Builder for ergonomic closes.
#[derive(Debug)]
pub struct CloseBuilder {
    pub path: String,
    pub body: Option<Vec<u8>>,
    pub content_type: Option<String>,
    pub options: RequestOptions,
}

/// Builder for ergonomic reads.
#[derive(Debug)]
pub struct ReadBuilder {
    pub path: String,
    pub offset: Offset,
    pub live: LiveMode,
    pub timeout: Option<Span>,
    pub max_chunks: Option<usize>,
    pub wait_for_up_to_date: bool,
    pub cursor: Option<String>,
    pub if_none_match: Option<String>,
    pub options: RequestOptions,
}

impl StreamHandle {
    /// Return the stream path bound to this handle.
    #[must_use]
    pub fn path(&self) -> (r: &str)
        ensures
            r@ == self.path@,
    {
        self.path.as_str()
    }

    /// Start building a stream creation request.
    #[must_use]
    pub fn create(&self) -> (r: CreateBuilder)
        ensures
            r.path == self.path,
            text_opt(r.content_type) == text_opt(self.default_content_type),
            r.ttl_seconds is None,
            r.expires_at is None,
            !r.closed,
            r.body is None,
            no_options(r.options),
    {
        CreateBuilder {
            path: self.path.clone(),
            content_type: self.default_content_type.clone(),
            ttl_seconds: None,
            expires_at: None,
            closed: false,
            body: None,
            options: empty_options(),
        }
    }

    /// Start building an append of raw bytes to this stream.
    #[must_use]
    pub fn append(&self, body: Vec<u8>) -> (r: AppendBuilder)
        ensures
            r.path == self.path,
            r.body == body,
            text_opt(r.content_type) == text_opt(self.default_content_type),
            r.expected_seq is None,
            no_options(r.options),
    {
        AppendBuilder {
            path: self.path.clone(),
            body,
            content_type: self.default_content_type.clone(),
            expected_seq: None,
            options: empty_options(),
        }
    }

    /// Start building a close request.
    #[must_use]
    pub fn close(&self) -> (r: CloseBuilder)
        ensures
            r.path == self.path,
            r.body is None,
            text_opt(r.content_type) == text_opt(self.default_content_type),
            no_options(r.options),
    {
        CloseBuilder {
            path: self.path.clone(),
            body: None,
            content_type: self.default_content_type.clone(),
            options: empty_options(),
        }
    }

    /// Start building a collected read request.
    #[must_use]
    pub fn read(&self) -> (r: ReadBuilder)
        ensures
            r.path == self.path,
            r.offset == Offset::Beginning,
            r.live == LiveMode::CatchUp,
            r.timeout is None,
            r.max_chunks is None,
            !r.wait_for_up_to_date,
            r.cursor is None,
            r.if_none_match is None,
            no_options(r.options),
    {
        ReadBuilder {
            path: self.path.clone(),
            offset: Offset::Beginning,
            live: LiveMode::CatchUp,
            timeout: None,
            max_chunks: None,
            wait_for_up_to_date: false,
            cursor: None,
            if_none_match: None,
            options: empty_options(),
        }
    }
}

impl CreateBuilder {
    /// Override the content type used for stream creation.
    #[must_use]
    pub fn content_type(self, value: String) -> (r: Self)
        ensures
            r == (CreateBuilder { content_type: Some(value), ..self }),
    {
        CreateBuilder { content_type: Some(value), ..self }
    }

    /// Set the stream TTL; fractions of a second are dropped.
    #[must_use]
    pub fn ttl(self, ttl: Span) -> (r: Self)
        ensures
            r == (CreateBuilder { ttl_seconds: Some(ttl.seconds), ..self }),
    {
        CreateBuilder { ttl_seconds: Some(ttl.seconds), ..self }
    }

    /// Set the stream TTL in seconds directly.
    #[must_use]
    pub fn ttl_seconds(self, ttl_seconds: u64) -> (r: Self)
        ensures
            r == (CreateBuilder { ttl_seconds: Some(ttl_seconds), ..self }),
    {
        CreateBuilder { ttl_seconds: Some(ttl_seconds), ..self }
    }

    /// Set an explicit expiry timestamp string.
    #[must_use]
    pub fn expires_at(self, value: String) -> (r: Self)
        ensures
            r == (CreateBuilder { expires_at: Some(value), ..self }),
    {
        CreateBuilder { expires_at: Some(value), ..self }
    }

    /// Mark the stream as closed immediately after creation.
    #[must_use]
    pub fn closed(self, closed: bool) -> (r: Self)
        ensures
            r == (CreateBuilder { closed, ..self }),
    {
        CreateBuilder { closed, ..self }
    }

    /// Add an initial body payload.
    #[must_use]
    pub fn body(self, body: Vec<u8>) -> (r: Self)
        ensures
            r == (CreateBuilder { body: Some(body), ..self }),
    {
        CreateBuilder { body: Some(body), ..self }
    }

    /// Add one request header to this operation.
    #[must_use]
    pub fn header(self, name: String, value: String) -> (r: Self)
        ensures
            r == (CreateBuilder { options: r.options, ..self }),
            is_with_header(r.options, self.options, name@, value@),
    {
        CreateBuilder { options: add_header(self.options, name, value), ..self }
    }

    /// Add one query parameter to this operation.
    #[must_use]
    pub fn query(self, name: String, value: String) -> (r: Self)
        ensures
            r == (CreateBuilder { options: r.options, ..self }),
            is_with_query(r.options, self.options, name@, value@),
    {
        CreateBuilder { options: add_parameter(self.options, name, value), ..self }
    }

    /// Replace the low-level request options for this operation.
    #[must_use]
    pub fn replace_options(self, options: RequestOptions) -> (r: Self)
        ensures
            r == (CreateBuilder { options, ..self }),
    {
        CreateBuilder { options, ..self }
    }

    /// The request that has been built. A stream without a content type holds bytes.
    pub fn into_raw(self) -> (r: CreateStreamRequest)
        ensures
            r.content_type@ == match self.content_type {
                Some(t) => t@,
                None => "application/octet-stream"@,
            },
            r.ttl_seconds == self.ttl_seconds,
            r.expires_at == self.expires_at,
            r.closed == self.closed,
            r.body == self.body,
            r.options == self.options,
    {
        CreateStreamRequest {
            content_type: match self.content_type {
                Some(t) => t,
                None => "application/octet-stream".to_owned(),
            },
            ttl_seconds: self.ttl_seconds,
            expires_at: self.expires_at,
            closed: self.closed,
            body: self.body,
            options: self.options,
        }
    }
}

impl AppendBuilder {
    /// Override the content type used for this append.
    #[must_use]
    pub fn content_type(self, value: String) -> (r: Self)
        ensures
            r == (AppendBuilder { content_type: Some(value), ..self }),
    {
        AppendBuilder { content_type: Some(value), ..self }
    }

    /// Set the expected stream sequence token.
    #[must_use]
    pub fn expected_seq(self, value: String) -> (r: Self)
        ensures
            r == (AppendBuilder { expected_seq: Some(value), ..self }),
    {
        AppendBuilder { expected_seq: Some(value), ..self }
    }

    /// Add one request header to this operation.
    #[must_use]
    pub fn header(self, name: String, value: String) -> (r: Self)
        ensures
            r == (AppendBuilder { options: r.options, ..self }),
            is_with_header(r.options, self.options, name@, value@),
    {
        AppendBuilder { options: add_header(self.options, name, value), ..self }
    }

    /// Add one query parameter to this operation.
    #[must_use]
    pub fn query(self, name: String, value: String) -> (r: Self)
        ensures
            r == (AppendBuilder { options: r.options, ..self }),
            is_with_query(r.options, self.options, name@, value@),
    {
        AppendBuilder { options: add_parameter(self.options, name, value), ..self }
    }

    /// Replace the low-level request options for this operation.
    #[must_use]
    pub fn replace_options(self, options: RequestOptions) -> (r: Self)
        ensures
            r == (AppendBuilder { options, ..self }),
    {
        AppendBuilder { options, ..self }
    }

    /// The request that has been built.
    pub fn into_raw(self) -> (r: AppendRequest)
        ensures
            r == (AppendRequest {
                body: self.body,
                content_type: self.content_type,
                stream_seq: self.expected_seq,
                producer: None,
                options: self.options,
            }),
    {
        AppendRequest {
            body: self.body,
            content_type: self.content_type,
            stream_seq: self.expected_seq,
            producer: None,
            options: self.options,
        }
    }
}

impl CloseBuilder {
    /// Add a final body payload.
    #[must_use]
    pub fn body(self, body: Vec<u8>) -> (r: Self)
        ensures
            r == (CloseBuilder { body: Some(body), ..self }),
    {
        CloseBuilder { body: Some(body), ..self }
    }

    /// Override the content type used for the final close payload.
    #[must_use]
    pub fn content_type(self, value: String) -> (r: Self)
        ensures
            r == (CloseBuilder { content_type: Some(value), ..self }),
    {
        CloseBuilder { content_type: Some(value), ..self }
    }

    /// Add one request header to this operation.
    #[must_use]
    pub fn header(self, name: String, value: String) -> (r: Self)
        ensures
            r == (CloseBuilder { options: r.options, ..self }),
            is_with_header(r.options, self.options, name@, value@),
    {
        CloseBuilder { options: add_header(self.options, name, value), ..self }
    }

    /// Add one query parameter to this operation.
    #[must_use]
    pub fn query(self, name: String, value: String) -> (r: Self)
        ensures
            r == (CloseBuilder { options: r.options, ..self }),
            is_with_query(r.options, self.options, name@, value@),
    {
        CloseBuilder { options: add_parameter(self.options, name, value), ..self }
    }

    /// Replace the low-level request options for this operation.
    #[must_use]
    pub fn replace_options(self, options: RequestOptions) -> (r: Self)
        ensures
            r == (CloseBuilder { options, ..self }),
    {
        CloseBuilder { options, ..self }
    }

    /// The request that has been built.
    pub fn into_raw(self) -> (r: CloseStreamRequest)
        ensures
            r == (CloseStreamRequest {
                body: self.body,
                content_type: self.content_type,
                producer: None,
                options: self.options,
            }),
    {
        CloseStreamRequest {
            body: self.body,
            content_type: self.content_type,
            producer: None,
            options: self.options,
        }
    }
}

impl ReadBuilder {
    /// Start reading from a different offset.
    #[must_use]
    pub fn offset(self, offset: Offset) -> (r: Self)
        ensures
            r == (ReadBuilder { offset, ..self }),
    {
        ReadBuilder { offset, ..self }
    }

    /// Set the live mode used for this read.
    #[must_use]
    pub fn live(self, live: LiveMode) -> (r: Self)
        ensures
            r == (ReadBuilder { live, ..self }),
    {
        ReadBuilder { live, ..self }
    }

    /// Bound the request time budget.
    #[must_use]
    pub fn timeout(self, timeout: Span) -> (r: Self)
        ensures
            r == (ReadBuilder { timeout: Some(timeout), ..self }),
    {
        ReadBuilder { timeout: Some(timeout), ..self }
    }

    /// Limit the number of chunks collected.
    #[must_use]
    pub fn max_chunks(self, max_chunks: usize) -> (r: Self)
        ensures
            r == (ReadBuilder { max_chunks: Some(max_chunks), ..self }),
    {
        ReadBuilder { max_chunks: Some(max_chunks), ..self }
    }

    /// Keep reading until the server reports that the stream is up to date.
    #[must_use]
    pub fn until_up_to_date(self) -> (r: Self)
        ensures
            r == (ReadBuilder { wait_for_up_to_date: true, ..self }),
    {
        ReadBuilder { wait_for_up_to_date: true, ..self }
    }

    /// Send an initial request-collapsing cursor.
    #[must_use]
    pub fn cursor(self, value: String) -> (r: Self)
        ensures
            r == (ReadBuilder { cursor: Some(value), ..self }),
    {
        ReadBuilder { cursor: Some(value), ..self }
    }

    /// Set an `If-None-Match` precondition.
    #[must_use]
    pub fn if_none_match(self, value: String) -> (r: Self)
        ensures
            r == (ReadBuilder { if_none_match: Some(value), ..self }),
    {
        ReadBuilder { if_none_match: Some(value), ..self }
    }

    /// Add one request header to this operation.
    #[must_use]
    pub fn header(self, name: String, value: String) -> (r: Self)
        ensures
            r == (ReadBuilder { options: r.options, ..self }),
            is_with_header(r.options, self.options, name@, value@),
    {
        ReadBuilder { options: add_header(self.options, name, value), ..self }
    }

    /// Add one query parameter to this operation.
    #[must_use]
    pub fn query(self, name: String, value: String) -> (r: Self)
        ensures
            r == (ReadBuilder { options: r.options, ..self }),
            is_with_query(r.options, self.options, name@, value@),
    {
        ReadBuilder { options: add_parameter(self.options, name, value), ..self }
    }

    /// Replace the low-level request options for this operation.
    #[must_use]
    pub fn replace_options(self, options: RequestOptions) -> (r: Self)
        ensures
            r == (ReadBuilder { options, ..self }),
    {
        ReadBuilder { options, ..self }
    }

    /// The request that has been built.
    pub fn to_raw_request(&self) -> (r: ReadRequest)
        ensures
            r.offset matches Some(o) && o@ == token_of(self.offset@),
            r.live == self.live,
            r.timeout == self.timeout,
            r.max_chunks == self.max_chunks,
            r.wait_for_up_to_date == self.wait_for_up_to_date,
            text_opt(r.cursor) == text_opt(self.cursor),
            text_opt(r.if_none_match) == text_opt(self.if_none_match),
            r.options.headers@ == self.options.headers@,
            r.options.query@ == self.options.query@,
    {
        ReadRequest {
            offset: Some(self.offset.to_string()),
            live: self.live,
            timeout: self.timeout,
            max_chunks: self.max_chunks,
            wait_for_up_to_date: self.wait_for_up_to_date,
            cursor: self.cursor.clone(),
            if_none_match: self.if_none_match.clone(),
            options: RequestOptions {
                headers: copy_fields(&self.options.headers),
                query: copy_fields(&self.options.query),
            },
        }
    }
}

} // verus!
