//! The named choices of the configuration: what they are called and how they are read.

use vstd::prelude::*;
use crate::text::{ascii_lower_spec, same, to_ascii_lowercase};

verus! {

/// Storage backend selection for the server runtime.
///
/// This is the main operator-facing choice when deciding how the server should
/// persist streams.
#[derive(Debug, Clone, Copy, PartialEq, Eq, Structural)]
pub enum StorageMode {
    /// In-memory backend.
    ///
    /// Best suited to tests, demos, and ephemeral development environments.
    Memory,
    /// File logs with journaled append commits and fewer lower-level syncs.
    FileFast,
    /// File logs with journaled commits and additional write syncing.
    FileDurable,
    /// Transactional redb-backed storage.
    Acid,
}

impl StorageMode {
    /// The canonical name.
    pub open spec fn label(self) -> Seq<char> {
        match self {
            StorageMode::Memory => "memory"@,
            StorageMode::FileFast => "file-fast"@,
            StorageMode::FileDurable => "file-durable"@,
            StorageMode::Acid => "acid"@,
        }
    }

    /// The canonical name.
    #[must_use]
    pub fn as_str(self) -> (r: &'static str)
        ensures
            r@ == self.label(),
    {
        match self {
            StorageMode::Memory => "memory",
            StorageMode::FileFast => "file-fast",
            StorageMode::FileDurable => "file-durable",
            StorageMode::Acid => "acid",
        }
    }

    /// The canonical name, as text of its own.
    pub fn to_string(&self) -> (r: String)
        ensures
            r@ == self.label(),
    {
        self.as_str().to_owned()
    }

    /// The choice with a name or an alias, in lower case letters.
    pub open spec fn with_name(name: Seq<char>) -> Option<StorageMode> {
        if name == "memory"@ {
            Some(StorageMode::Memory)
        } else if name == "file-fast"@ || name == "fast"@ {
            Some(StorageMode::FileFast)
        } else if name == "file-durable"@ || name == "file"@ || name == "durable"@ {
            Some(StorageMode::FileDurable)
        } else if name == "acid"@ || name == "redb"@ {
            Some(StorageMode::Acid)
        } else {
            None
        }
    }
}

/// Reads a [`StorageMode`] from text: a name or an alias in any letter case.
pub fn parse_storage_mode_env(raw: &str) -> (r: Option<StorageMode>)
    ensures
        r == StorageMode::with_name(ascii_lower_spec(raw@)),
{
    let lower = to_ascii_lowercase(raw);
    let name = lower.as_str();
    if same(name, "memory") {
        Some(StorageMode::Memory)
    } else if same(name, "file-fast") || same(name, "fast") {
        Some(StorageMode::FileFast)
    } else if same(name, "file-durable") || same(name, "file") || same(name, "durable") {
        Some(StorageMode::FileDurable)
    } else if same(name, "acid") || same(name, "redb") {
        Some(StorageMode::Acid)
    } else {
        None
    }
}

/// Every [`StorageMode`] is read back from its canonical name.
pub proof fn law_storage_mode_name_reads_back(choice: StorageMode)
    ensures
        StorageMode::with_name(ascii_lower_spec(choice.label())) == Some(choice),
{
    reveal_strlit("acid");
    reveal_strlit("durable");
    reveal_strlit("fast");
    reveal_strlit("file");
    reveal_strlit("file-durable");
    reveal_strlit("file-fast");
    reveal_strlit("memory");
    reveal_strlit("redb");
    assert(ascii_lower_spec("memory"@) =~= "memory"@);
    assert(ascii_lower_spec("file-fast"@) =~= "file-fast"@);
    assert(ascii_lower_spec("file-durable"@) =~= "file-durable"@);
    assert(ascii_lower_spec("acid"@) =~= "acid"@);
    assert("acid"@[0] != "fast"@[0]);
    assert("acid"@[0] != "file"@[0]);
}

/// Redb persistence medium used by [`StorageMode::Acid`].
#[derive(Debug, Clone, Copy, PartialEq, Eq, Structural)]
pub enum AcidBackend {
    /// File-backed redb (default).
    File,
    /// In-memory redb, which drops all state on shutdown.
    InMemory,
}

impl AcidBackend {
    /// The canonical name.
    pub open spec fn label(self) -> Seq<char> {
        match self {
            AcidBackend::File => "file"@,
            AcidBackend::InMemory => "in-memory"@,
        }
    }

    /// The canonical name.
    #[must_use]
    pub fn as_str(self) -> (r: &'static str)
        ensures
            r@ == self.label(),
    {
        match self {
            AcidBackend::File => "file",
            AcidBackend::InMemory => "in-memory",
        }
    }

    /// The canonical name, as text of its own.
    pub fn to_string(&self) -> (r: String)
        ensures
            r@ == self.label(),
    {
        self.as_str().to_owned()
    }

    /// The choice with a name or an alias, in lower case letters.
    pub open spec fn with_name(name: Seq<char>) -> Option<AcidBackend> {
        if name == "file"@ {
            Some(AcidBackend::File)
        } else if name == "in-memory"@ || name == "memory"@ || name == "inmemory"@ {
            Some(AcidBackend::InMemory)
        } else {
            None
        }
    }
}

/// Reads an [`AcidBackend`] from text: a name or an alias in any letter case.
pub fn parse_acid_backend_env(raw: &str) -> (r: Option<AcidBackend>)
    ensures
        r == AcidBackend::with_name(ascii_lower_spec(raw@)),
{
    let lower = to_ascii_lowercase(raw);
    let name = lower.as_str();
    if same(name, "file") {
        Some(AcidBackend::File)
    } else if same(name, "in-memory") || same(name, "memory") || same(name, "inmemory") {
        Some(AcidBackend::InMemory)
    } else {
        None
    }
}

/// Every [`AcidBackend`] is read back from its canonical name.
pub proof fn law_acid_backend_name_reads_back(choice: AcidBackend)
    ensures
        AcidBackend::with_name(ascii_lower_spec(choice.label())) == Some(choice),
{
    reveal_strlit("file");
    reveal_strlit("in-memory");
    reveal_strlit("inmemory");
    reveal_strlit("memory");
    assert(ascii_lower_spec("file"@) =~= "file"@);
    assert(ascii_lower_spec("in-memory"@) =~= "in-memory"@);
}

/// Transport mode selected for the listener.
#[derive(Debug, Clone, Copy, PartialEq, Eq, Structural)]
pub enum TransportMode {
    /// Plain HTTP transport.
    Http,
    /// Server-side TLS.
    Tls,
    /// Mutual TLS.
    Mtls,
}

impl TransportMode {
    /// The canonical name.
    pub open spec fn label(self) -> Seq<char> {
        match self {
            TransportMode::Http => "http"@,
            TransportMode::Tls => "tls"@,
            TransportMode::Mtls => "mtls"@,
        }
    }

    /// The canonical name.
    #[must_use]
    pub fn as_str(self) -> (r: &'static str)
        ensures
            r@ == self.label(),
    {
        match self {
            TransportMode::Http => "http",
            TransportMode::Tls => "tls",
            TransportMode::Mtls => "mtls",
        }
    }

    /// The canonical name, as text of its own.
    pub fn to_string(&self) -> (r: String)
        ensures
            r@ == self.label(),
    {
        self.as_str().to_owned()
    }

    /// The choice with a name or an alias, in lower case letters.
    pub open spec fn with_name(name: Seq<char>) -> Option<TransportMode> {
        if name == "http"@ {
            Some(TransportMode::Http)
        } else if name == "tls"@ {
            Some(TransportMode::Tls)
        } else if name == "mtls"@ {
            Some(TransportMode::Mtls)
        } else {
            None
        }
    }
}

/// Reads a [`TransportMode`] from text: a name or an alias in any letter case.
pub fn parse_transport_mode_env(raw: &str) -> (r: Option<TransportMode>)
    ensures
        r == TransportMode::with_name(ascii_lower_spec(raw@)),
{
    let lower = to_ascii_lowercase(raw);
    let name = lower.as_str();
    if same(name, "http") {
        Some(TransportMode::Http)
    } else if same(name, "tls") {
        Some(TransportMode::Tls)
    } else if same(name, "mtls") {
        Some(TransportMode::Mtls)
    } else {
        None
    }
}

/// Every [`TransportMode`] is read back from its canonical name.
pub proof fn law_transport_mode_name_reads_back(choice: TransportMode)
    ensures
        TransportMode::with_name(ascii_lower_spec(choice.label())) == Some(choice),
{
    reveal_strlit("http");
    reveal_strlit("mtls");
    reveal_strlit("tls");
    assert(ascii_lower_spec("http"@) =~= "http"@);
    assert(ascii_lower_spec("tls"@) =~= "tls"@);
    assert(ascii_lower_spec("mtls"@) =~= "mtls"@);
    assert("mtls"@[0] != "http"@[0]);
}

/// Operator-facing HTTP protocol versions.
#[derive(Debug, Clone, Copy, PartialEq, Eq, Structural)]
pub enum HttpVersion {
    /// HTTP/1.1
    Http1,
    /// HTTP/2
    Http2,
}

impl HttpVersion {
    /// The canonical name.
    pub open spec fn label(self) -> Seq<char> {
        match self {
            HttpVersion::Http1 => "http1"@,
            HttpVersion::Http2 => "http2"@,
        }
    }

    /// The canonical name.
    #[must_use]
    pub fn as_str(self) -> (r: &'static str)
        ensures
            r@ == self.label(),
    {
        match self {
            HttpVersion::Http1 => "http1",
            HttpVersion::Http2 => "http2",
        }
    }

    /// The canonical name, as text of its own.
    pub fn to_string(&self) -> (r: String)
        ensures
            r@ == self.label(),
    {
        self.as_str().to_owned()
    }

    /// The choice with a name or an alias, in lower case letters.
    pub open spec fn with_name(name: Seq<char>) -> Option<HttpVersion> {
        if name == "http1"@ || name == "1.1"@ || name == "http1.1"@ || name == "http/1.1"@ || name == "h1"@ {
            Some(HttpVersion::Http1)
        } else if name == "http2"@ || name == "2"@ || name == "h2"@ {
            Some(HttpVersion::Http2)
        } else {
            None
        }
    }
}

/// Reads a [`HttpVersion`] from text: a name or an alias in any letter case.
pub fn parse_http_version_env(raw: &str) -> (r: Option<HttpVersion>)
    ensures
        r == HttpVersion::with_name(ascii_lower_spec(raw@)),
{
    let lower = to_ascii_lowercase(raw);
    let name = lower.as_str();
    if same(name, "http1") || same(name, "1.1") || same(name, "http1.1") || same(name, "http/1.1") || same(name, "h1") {
        Some(HttpVersion::Http1)
    } else if same(name, "http2") || same(name, "2") || same(name, "h2") {
        Some(HttpVersion::Http2)
    } else {
        None
    }
}

/// Every [`HttpVersion`] is read back from its canonical name.
pub proof fn law_http_version_name_reads_back(choice: HttpVersion)
    ensures
        HttpVersion::with_name(ascii_lower_spec(choice.label())) == Some(choice),
{
    reveal_strlit("1.1");
    reveal_strlit("2");
    reveal_strlit("h1");
    reveal_strlit("h2");
    reveal_strlit("http/1.1");
    reveal_strlit("http1");
    reveal_strlit("http1.1");
    reveal_strlit("http2");
    assert(ascii_lower_spec("http1"@) =~= "http1"@);
    assert(ascii_lower_spec("http2"@) =~= "http2"@);
    assert("http2"@[4] != "http1"@[4]);
}

/// TLS protocol versions accepted by the config layer.
#[derive(Debug, Clone, Copy, PartialEq, Eq, Structural)]
pub enum TlsVersion {
    /// TLS 1.2
    V1_2,
    /// TLS 1.3
    V1_3,
}

impl TlsVersion {
    /// The canonical name.
    pub open spec fn label(self) -> Seq<char> {
        match self {
            TlsVersion::V1_2 => "1.2"@,
            TlsVersion::V1_3 => "1.3"@,
        }
    }

    /// The canonical name.
    #[must_use]
    pub fn as_str(self) -> (r: &'static str)
        ensures
            r@ == self.label(),
    {
        match self {
            TlsVersion::V1_2 => "1.2",
            TlsVersion::V1_3 => "1.3",
        }
    }

    /// The canonical name, as text of its own.
    pub fn to_string(&self) -> (r: String)
        ensures
            r@ == self.label(),
    {
        self.as_str().to_owned()
    }

    /// The choice with a name or an alias, in lower case letters.
    pub open spec fn with_name(name: Seq<char>) -> Option<TlsVersion> {
        if name == "1.2"@ || name == "tls1.2"@ || name == "tls-1.2"@ {
            Some(TlsVersion::V1_2)
        } else if name == "1.3"@ || name == "tls1.3"@ || name == "tls-1.3"@ {
            Some(TlsVersion::V1_3)
        } else {
            None
        }
    }
}

/// Reads a [`TlsVersion`] from text: a name or an alias in any letter case.
pub fn parse_tls_version_env(raw: &str) -> (r: Option<TlsVersion>)
    ensures
        r == TlsVersion::with_name(ascii_lower_spec(raw@)),
{
    let lower = to_ascii_lowercase(raw);
    let name = lower.as_str();
    if same(name, "1.2") || same(name, "tls1.2") || same(name, "tls-1.2") {
        Some(TlsVersion::V1_2)
    } else if same(name, "1.3") || same(name, "tls1.3") || same(name, "tls-1.3") {
        Some(TlsVersion::V1_3)
    } else {
        None
    }
}

/// Every [`TlsVersion`] is read back from its canonical name.
pub proof fn law_tls_version_name_reads_back(choice: TlsVersion)
    ensures
        TlsVersion::with_name(ascii_lower_spec(choice.label())) == Some(choice),
{
    reveal_strlit("1.2");
    reveal_strlit("1.3");
    reveal_strlit("tls-1.2");
    reveal_strlit("tls-1.3");
    reveal_strlit("tls1.2");
    reveal_strlit("tls1.3");
    assert(ascii_lower_spec("1.2"@) =~= "1.2"@);
    assert(ascii_lower_spec("1.3"@) =~= "1.3"@);
    assert("1.3"@[2] != "1.2"@[2]);
}

/// ALPN protocols used when TLS is enabled.
#[derive(Debug, Clone, Copy, PartialEq, Eq, Structural)]
pub enum AlpnProtocol {
    /// HTTP/1.1 ALPN identifier.
    Http1_1,
    /// HTTP/2 ALPN identifier.
    H2,
}

impl AlpnProtocol {
    /// The canonical name.
    pub open spec fn label(self) -> Seq<char> {
        match self {
            AlpnProtocol::Http1_1 => "http/1.1"@,
            AlpnProtocol::H2 => "h2"@,
        }
    }

    /// The canonical name.
    #[must_use]
    pub fn as_str(self) -> (r: &'static str)
        ensures
            r@ == self.label(),
    {
        match self {
            AlpnProtocol::Http1_1 => "http/1.1",
            AlpnProtocol::H2 => "h2",
        }
    }

    /// The canonical name, as text of its own.
    pub fn to_string(&self) -> (r: String)
        ensures
            r@ == self.label(),
    {
        self.as_str().to_owned()
    }

    /// The choice with a name or an alias, in lower case letters.
    pub open spec fn with_name(name: Seq<char>) -> Option<AlpnProtocol> {
        if name == "http/1.1"@ || name == "http1"@ || name == "h1"@ {
            Some(AlpnProtocol::Http1_1)
        } else if name == "h2"@ || name == "http2"@ {
            Some(AlpnProtocol::H2)
        } else {
            None
        }
    }
}

/// Reads an [`AlpnProtocol`] from text: a name or an alias in any letter case.
pub fn parse_alpn_protocol_env(raw: &str) -> (r: Option<AlpnProtocol>)
    ensures
        r == AlpnProtocol::with_name(ascii_lower_spec(raw@)),
{
    let lower = to_ascii_lowercase(raw);
    let name = lower.as_str();
    if same(name, "http/1.1") || same(name, "http1") || same(name, "h1") {
        Some(AlpnProtocol::Http1_1)
    } else if same(name, "h2") || same(name, "http2") {
        Some(AlpnProtocol::H2)
    } else {
        None
    }
}

/// Every [`AlpnProtocol`] is read back from its canonical name.
pub proof fn law_alpn_protocol_name_reads_back(choice: AlpnProtocol)
    ensures
        AlpnProtocol::with_name(ascii_lower_spec(choice.label())) == Some(choice),
{
    reveal_strlit("h1");
    reveal_strlit("h2");
    reveal_strlit("http/1.1");
    reveal_strlit("http1");
    reveal_strlit("http2");
    assert(ascii_lower_spec("http/1.1"@) =~= "http/1.1"@);
    assert(ascii_lower_spec("h2"@) =~= "h2"@);
    assert("h2"@[1] != "h1"@[1]);
}

/// Forwarded-header family trusted from a proxy.
#[derive(Debug, Clone, Copy, PartialEq, Eq, Structural)]
pub enum ForwardedHeadersMode {
    /// Do not trust any proxy headers.
    Disabled,
    /// Trust the `X-Forwarded-*` header family.
    XForwarded,
    /// Trust RFC 7239 `Forwarded`.
    Forwarded,
}

impl ForwardedHeadersMode {
    /// The canonical name.
    pub open spec fn label(self) -> Seq<char> {
        match self {
            ForwardedHeadersMode::Disabled => "none"@,
            ForwardedHeadersMode::XForwarded => "x-forwarded"@,
            ForwardedHeadersMode::Forwarded => "forwarded"@,
        }
    }

    /// The canonical name.
    #[must_use]
    pub fn as_str(self) -> (r: &'static str)
        ensures
            r@ == self.label(),
    {
        match self {
            ForwardedHeadersMode::Disabled => "none",
            ForwardedHeadersMode::XForwarded => "x-forwarded",
            ForwardedHeadersMode::Forwarded => "forwarded",
        }
    }

    /// The canonical name, as text of its own.
    pub fn to_string(&self) -> (r: String)
        ensures
            r@ == self.label(),
    {
        self.as_str().to_owned()
    }

    /// The choice with a name or an alias, in lower case letters.
    pub open spec fn with_name(name: Seq<char>) -> Option<ForwardedHeadersMode> {
        if name == "none"@ {
            Some(ForwardedHeadersMode::Disabled)
        } else if name == "x-forwarded"@ || name == "xforwarded"@ {
            Some(ForwardedHeadersMode::XForwarded)
        } else if name == "forwarded"@ {
            Some(ForwardedHeadersMode::Forwarded)
        } else {
            None
        }
    }
}

/// Reads a [`ForwardedHeadersMode`] from text: a name or an alias in any letter case.
pub fn parse_forwarded_headers_mode_env(raw: &str) -> (r: Option<ForwardedHeadersMode>)
    ensures
        r == ForwardedHeadersMode::with_name(ascii_lower_spec(raw@)),
{
    let lower = to_ascii_lowercase(raw);
    let name = lower.as_str();
    if same(name, "none") {
        Some(ForwardedHeadersMode::Disabled)
    } else if same(name, "x-forwarded") || same(name, "xforwarded") {
        Some(ForwardedHeadersMode::XForwarded)
    } else if same(name, "forwarded") {
        Some(ForwardedHeadersMode::Forwarded)
    } else {
        None
    }
}

/// Every [`ForwardedHeadersMode`] is read back from its canonical name.
pub proof fn law_forwarded_headers_mode_name_reads_back(choice: ForwardedHeadersMode)
    ensures
        ForwardedHeadersMode::with_name(ascii_lower_spec(choice.label())) == Some(choice),
{
    reveal_strlit("forwarded");
    reveal_strlit("none");
    reveal_strlit("x-forwarded");
    reveal_strlit("xforwarded");
    assert(ascii_lower_spec("none"@) =~= "none"@);
    assert(ascii_lower_spec("x-forwarded"@) =~= "x-forwarded"@);
    assert(ascii_lower_spec("forwarded"@) =~= "forwarded"@);
}

/// Proxy-origin identity handoff strategy.
#[derive(Debug, Clone, Copy, PartialEq, Eq, Structural)]
pub enum ProxyIdentityMode {
    /// No proxy identity handoff.
    Disabled,
    /// Trust a single HTTP header from the proxy.
    Header,
}

impl ProxyIdentityMode {
    /// The canonical name.
    pub open spec fn label(self) -> Seq<char> {
        match self {
            ProxyIdentityMode::Disabled => "none"@,
            ProxyIdentityMode::Header => "header"@,
        }
    }

    /// The canonical name.
    #[must_use]
    pub fn as_str(self) -> (r: &'static str)
        ensures
            r@ == self.label(),
    {
        match self {
            ProxyIdentityMode::Disabled => "none",
            ProxyIdentityMode::Header => "header",
        }
    }

    /// The canonical name, as text of its own.
    pub fn to_string(&self) -> (r: String)
        ensures
            r@ == self.label(),
    {
        self.as_str().to_owned()
    }

    /// The choice with a name or an alias, in lower case letters.
    pub open spec fn with_name(name: Seq<char>) -> Option<ProxyIdentityMode> {
        if name == "none"@ {
            Some(ProxyIdentityMode::Disabled)
        } else if name == "header"@ {
            Some(ProxyIdentityMode::Header)
        } else {
            None
        }
    }
}

/// Reads a [`ProxyIdentityMode`] from text: a name or an alias in any letter case.
pub fn parse_proxy_identity_mode_env(raw: &str) -> (r: Option<ProxyIdentityMode>)
    ensures
        r == ProxyIdentityMode::with_name(ascii_lower_spec(raw@)),
{
    let lower = to_ascii_lowercase(raw);
    let name = lower.as_str();
    if same(name, "none") {
        Some(ProxyIdentityMode::Disabled)
    } else if same(name, "header") {
        Some(ProxyIdentityMode::Header)
    } else {
        None
    }
}

/// Every [`ProxyIdentityMode`] is read back from its canonical name.
pub proof fn law_proxy_identity_mode_name_reads_back(choice: ProxyIdentityMode)
    ensures
        ProxyIdentityMode::with_name(ascii_lower_spec(choice.label())) == Some(choice),
{
    reveal_strlit("header");
    reveal_strlit("none");
    assert(ascii_lower_spec("none"@) =~= "none"@);
    assert(ascii_lower_spec("header"@) =~= "header"@);
}

impl StorageMode {
    /// Whether this mode selects the append-log backend, excluding file-backed ACID storage.
    #[must_use]
    pub fn uses_file_backend(self) -> (r: bool)
        ensures
            r == (self == StorageMode::FileFast || self == StorageMode::FileDurable),
    {
        self == StorageMode::FileFast || self == StorageMode::FileDurable
    }

    /// Whether the append-log backend should sync writes before acknowledging them.
    #[must_use]
    pub fn sync_on_append(self) -> (r: bool)
        ensures
            r == (self == StorageMode::FileDurable),
    {
        self == StorageMode::FileDurable
    }
}

impl TransportMode {
    /// Whether the listener has a TLS context.
    pub open spec fn is_tls(self) -> bool {
        self != TransportMode::Http
    }

    /// Whether the listener requires a TLS context, including mutual TLS.
    #[must_use]
    pub fn uses_tls(self) -> (r: bool)
        ensures
            r == self.is_tls(),
    {
        self == TransportMode::Tls || self == TransportMode::Mtls
    }
}

impl TlsVersion {
    /// Whether this version is older than another.
    pub open spec fn before(self, other: TlsVersion) -> bool {
        self == TlsVersion::V1_2 && other == TlsVersion::V1_3
    }

    /// Whether this version is older than another.
    pub fn is_before(self, other: TlsVersion) -> (r: bool)
        ensures
            r == self.before(other),
    {
        self == TlsVersion::V1_2 && other == TlsVersion::V1_3
    }
}

impl ForwardedHeadersMode {
    /// The mode as diagnostics show it.
    pub open spec fn shown(self) -> Seq<char> {
        match self {
            ForwardedHeadersMode::Disabled => "None"@,
            ForwardedHeadersMode::XForwarded => "XForwarded"@,
            ForwardedHeadersMode::Forwarded => "Forwarded"@,
        }
    }

    /// The mode as diagnostics show it.
    pub fn debug_name(self) -> (r: &'static str)
        ensures
            r@ == self.shown(),
    {
        match self {
            ForwardedHeadersMode::Disabled => "None",
            ForwardedHeadersMode::XForwarded => "XForwarded",
            ForwardedHeadersMode::Forwarded => "Forwarded",
        }
    }
}

impl ProxyIdentityMode {
    /// The mode as diagnostics show it.
    pub open spec fn shown(self) -> Seq<char> {
        match self {
            ProxyIdentityMode::Disabled => "None"@,
            ProxyIdentityMode::Header => "Header"@,
        }
    }

    /// The mode as diagnostics show it.
    pub fn debug_name(self) -> (r: &'static str)
        ensures
            r@ == self.shown(),
    {
        match self {
            ProxyIdentityMode::Disabled => "None",
            ProxyIdentityMode::Header => "Header",
        }
    }
}

} // verus!
