//! Startup preflight, phase-aware diagnostics, and typed error mapping.
//!
//! The server startup sequence is divided into explicit phases. Each phase
//! produces a typed error that preserves the underlying cause chain and
//! identifies the failing phase so operators can act on the first failure
//! without guessing which stage broke.

use vstd::prelude::*;
use crate::config::error::{ConfigLoadError, ConfigValidationError};
use crate::config::model::{Config, Settings};
use crate::config::modes::{AlpnProtocol, TlsVersion};
use crate::net::SocketAddr;
use crate::text::{joined, joined3, joined4, texts};

verus! {

/// Discrete phases of the server startup sequence.
///
/// Each phase maps to a single logical step. When a phase fails, the
/// error identifies which phase produced the failure so operators can
/// diagnose without guessing.
#[derive(Debug, Clone, Copy, PartialEq, Eq, Structural)]
pub enum StartupPhase {
    /// Loading and merging configuration sources.
    LoadConfig,
    /// Validating the merged configuration.
    ValidateConfig,
    /// Resolving the transport mode (HTTP / TLS / mTLS).
    ResolveTransport,
    /// Checking TLS file presence and readability.
    CheckTlsFiles,
    /// Building the rustls `ServerConfig`.
    BuildTlsContext,
    /// Binding the TCP listener.
    BindListener,
    /// Running the server after binding.
    StartServer,
}

impl StartupPhase {
    /// The name of the phase.
    pub open spec fn label(self) -> Seq<char> {
        match self {
            StartupPhase::LoadConfig => "load_config"@,
            StartupPhase::ValidateConfig => "validate_config"@,
            StartupPhase::ResolveTransport => "resolve_transport"@,
            StartupPhase::CheckTlsFiles => "check_tls_files"@,
            StartupPhase::BuildTlsContext => "build_tls_context"@,
            StartupPhase::BindListener => "bind_listener"@,
            StartupPhase::StartServer => "start_server"@,
        }
    }

    /// The name of the phase.
    pub fn as_str(self) -> (r: &'static str)
        ensures
            r@ == self.label(),
    {
        match self {
            StartupPhase::LoadConfig => "load_config",
            StartupPhase::ValidateConfig => "validate_config",
            StartupPhase::ResolveTransport => "resolve_transport",
            StartupPhase::CheckTlsFiles => "check_tls_files",
            StartupPhase::BuildTlsContext => "build_tls_context",
            StartupPhase::BindListener => "bind_listener",
            StartupPhase::StartServer => "start_server",
        }
    }

    /// The name of the phase, as text of its own.
    pub fn to_string(&self) -> (r: String)
        ensures
            r@ == self.label(),
    {
        self.as_str().to_owned()
    }
}

/// Top-level startup error carrying phase context and a typed cause.
#[derive(Debug)]
pub struct StartupError {
    /// The phase that failed.
    pub phase: StartupPhase,
    /// The typed cause.
    pub kind: StartupErrorKind,
}

/// Typed cause attached to a [`StartupError`].
#[derive(Debug)]
pub enum StartupErrorKind {
    /// Configuration file could not be loaded or parsed.
    ConfigLoad(ConfigLoadError),
    /// Merged configuration failed validation.
    ConfigValidation(ConfigValidationError),
    /// A required TLS file is missing from the filesystem.
    TlsFileNotFound { path: String },
    /// A TLS file exists but is not a regular file (e.g. directory, symlink to dir).
    TlsFileNotRegular { path: String },
    /// A TLS file exists but could not be read (permissions, I/O).
    TlsFileNotReadable { path: String, reason: String },
    /// The rustls `ServerConfig` could not be built from the provided PEM files.
    TlsContext(String),
    /// The TCP listener could not bind to the configured address.
    Bind { addr: SocketAddr, source: String },
    /// A runtime error after the server began accepting connections.
    Runtime(String),
}

impl StartupErrorKind {
    /// The cause in words.
    pub open spec fn text(self) -> Seq<char> {
        match self {
            StartupErrorKind::ConfigLoad(e) => "config load failed: "@ + e.text(),
            StartupErrorKind::ConfigValidation(e) => "config validation failed: "@ + e.text(),
            StartupErrorKind::TlsFileNotFound { path } => "TLS file not found: "@ + path@,
            StartupErrorKind::TlsFileNotRegular { path } => "TLS path is not a regular file: "@ + path@,
            StartupErrorKind::TlsFileNotReadable { path, reason } => "TLS file is not readable: "@
                + path@ + ": "@ + reason@,
            StartupErrorKind::TlsContext(m) => "failed to build TLS context: "@ + m@,
            StartupErrorKind::Bind { addr, source } => "failed to bind "@ + addr.text() + ": "@
                + source@,
            StartupErrorKind::Runtime(m) => "server error: "@ + m@,
        }
    }

    /// The cause in words.
    pub fn to_string(&self) -> (r: String)
        ensures
            r@ == self.text(),
    {
        match self {
            StartupErrorKind::ConfigLoad(e) => joined(
                "config load failed: ",
                e.to_string().as_str(),
            ),
            StartupErrorKind::ConfigValidation(e) => joined(
                "config validation failed: ",
                e.to_string().as_str(),
            ),
            StartupErrorKind::TlsFileNotFound { path } => joined(
                "TLS file not found: ",
                path.as_str(),
            ),
            StartupErrorKind::TlsFileNotRegular { path } => joined(
                "TLS path is not a regular file: ",
                path.as_str(),
            ),
            StartupErrorKind::TlsFileNotReadable { path, reason } => joined4(
                "TLS file is not readable: ",
                path.as_str(),
                ": ",
                reason.as_str(),
            ),
            StartupErrorKind::TlsContext(m) => joined("failed to build TLS context: ", m.as_str()),
            StartupErrorKind::Bind { addr, source } => joined4(
                "failed to bind ",
                addr.to_string().as_str(),
                ": ",
                source.as_str(),
            ),
            StartupErrorKind::Runtime(m) => joined("server error: ", m.as_str()),
        }
    }
}

impl StartupError {
    #[must_use]
    pub fn new(phase: StartupPhase, kind: StartupErrorKind) -> (r: Self)
        ensures
            r == (StartupError { phase, kind }),
    {
        StartupError { phase, kind }
    }

    #[must_use]
    pub fn config_load(source: ConfigLoadError) -> (r: Self)
        ensures
            r == (StartupError {
                phase: StartupPhase::LoadConfig,
                kind: StartupErrorKind::ConfigLoad(source),
            }),
    {
        StartupError::new(StartupPhase::LoadConfig, StartupErrorKind::ConfigLoad(source))
    }

    #[must_use]
    pub fn config_validation(source: ConfigValidationError) -> (r: Self)
        ensures
            r == (StartupError {
                phase: StartupPhase::ValidateConfig,
                kind: StartupErrorKind::ConfigValidation(source),
            }),
    {
        StartupError::new(StartupPhase::ValidateConfig, StartupErrorKind::ConfigValidation(source))
    }

    pub fn tls_context(message: String) -> (r: Self)
        ensures
            r == (StartupError {
                phase: StartupPhase::BuildTlsContext,
                kind: StartupErrorKind::TlsContext(message),
            }),
    {
        StartupError::new(StartupPhase::BuildTlsContext, StartupErrorKind::TlsContext(message))
    }

    #[must_use]
    pub fn bind(addr: SocketAddr, source: String) -> (r: Self)
        ensures
            r == (StartupError {
                phase: StartupPhase::BindListener,
                kind: StartupErrorKind::Bind { addr, source },
            }),
    {
        StartupError::new(StartupPhase::BindListener, StartupErrorKind::Bind { addr, source })
    }

    pub fn runtime(message: String) -> (r: Self)
        ensures
            r == (StartupError {
                phase: StartupPhase::StartServer,
                kind: StartupErrorKind::Runtime(message),
            }),
    {
        StartupError::new(StartupPhase::StartServer, StartupErrorKind::Runtime(message))
    }

    /// The error in words: the phase, then the cause.
    pub open spec fn text(self) -> Seq<char> {
        "["@ + self.phase.label() + "] "@ + self.kind.text()
    }

    /// The error in words: the phase, then the cause.
    pub fn to_string(&self) -> (r: String)
        ensures
            r@ == self.text(),
    {
        joined4("[", self.phase.as_str(), "] ", self.kind.to_string().as_str())
    }
}

/// Classification of a single TLS file check.
#[derive(Debug, Clone, PartialEq, Eq)]
pub enum TlsFileStatus {
    /// File exists, is a regular file, and is readable.
    Readable,
    /// File does not exist on disk.
    NotFound,
    /// Path exists but is not a regular file.
    NotRegular,
    /// File exists but cannot be read.
    NotReadable(String),
}

/// What the filesystem says about a path.
#[derive(Debug)]
pub enum FileProbe {
    /// There is nothing.
    Missing,
    /// It cannot be looked at, for this reason.
    Hidden(String),
    /// There is something other than a regular file.
    Other,
    /// There is a regular file, and this is why it cannot be opened, if it cannot.
    Regular(Option<String>),
}

/// Whether what the filesystem says about a path means a readable regular file.
#[must_use]
pub fn check_tls_file(probe: FileProbe) -> (r: TlsFileStatus)
    ensures
        r == match probe {
            FileProbe::Missing => TlsFileStatus::NotFound,
            FileProbe::Hidden(reason) => TlsFileStatus::NotReadable(reason),
            FileProbe::Other => TlsFileStatus::NotRegular,
            FileProbe::Regular(Some(reason)) => TlsFileStatus::NotReadable(reason),
            FileProbe::Regular(None) => TlsFileStatus::Readable,
        },
{
    match probe {
        FileProbe::Missing => TlsFileStatus::NotFound,
        FileProbe::Hidden(reason) => TlsFileStatus::NotReadable(reason),
        FileProbe::Other => TlsFileStatus::NotRegular,
        FileProbe::Regular(Some(reason)) => TlsFileStatus::NotReadable(reason),
        FileProbe::Regular(None) => TlsFileStatus::Readable,
    }
}

/// A path, where there is one.
pub open spec fn one(path: Option<Seq<char>>) -> Seq<Seq<char>> {
    match path {
        Some(p) => seq![p],
        None => Seq::empty(),
    }
}

/// The TLS files of a configuration, in the order in which they are checked.
pub open spec fn tls_files(s: Settings) -> Seq<Seq<char>> {
    one(s.cert_path) + one(s.key_path) + one(s.client_ca_path)
}

/// The TLS files of a configuration, in the order in which they are checked.
pub fn tls_file_paths(config: &Config) -> (r: Vec<String>)
    ensures
        texts(r@) == tls_files(config@),
{
    let tls = &config.transport.tls;
    let mut paths: Vec<String> = Vec::new();
    if let Some(p) = &tls.cert_path {
        paths.push(p.clone());
    }
    assert(texts(paths@) =~= one(config@.cert_path));
    if let Some(p) = &tls.key_path {
        paths.push(p.clone());
    }
    assert(texts(paths@) =~= one(config@.cert_path) + one(config@.key_path));
    if let Some(p) = &tls.client_ca_path {
        paths.push(p.clone());
    }
    assert(texts(paths@) =~= tls_files(config@));
    paths
}

/// Whether a cause reports the status of a file.
pub open spec fn reports_file(kind: StartupErrorKind, file: Seq<char>, status: TlsFileStatus) -> bool {
    match status {
        TlsFileStatus::Readable => false,
        TlsFileStatus::NotFound => kind matches StartupErrorKind::TlsFileNotFound { path } && path@ == file,
        TlsFileStatus::NotRegular => kind matches StartupErrorKind::TlsFileNotRegular { path }
            && path@ == file,
        TlsFileStatus::NotReadable(why) =>
            kind matches StartupErrorKind::TlsFileNotReadable { path, reason } && path@ == file
            && reason@ == why@,
    }
}

/// Run preflight checks on all configured TLS file paths, given the status of each.
///
/// Returns `Ok(())` if all present paths pass, or the first error found.
///
/// # Errors
///
/// Returns a [`StartupError`] with phase [`StartupPhase::CheckTlsFiles`] when
/// a configured TLS file is missing, not a regular file, or not readable.
pub fn preflight_tls_files(config: &Config, statuses: &Vec<TlsFileStatus>) -> (r: Result<
    (),
    StartupError,
>)
    requires
        statuses@.len() == tls_files(config@).len(),
    ensures
        match r {
            Ok(_) => forall|i: int| 0 <= i < statuses@.len() ==> (#[trigger] statuses@[i]) is Readable,
            Err(e) => e.phase == StartupPhase::CheckTlsFiles && exists|i: int|
                #![trigger statuses@[i]]
                0 <= i < statuses@.len() && reports_file(
                    e.kind,
                    tls_files(config@)[i],
                    statuses@[i],
                ) && forall|j: int| 0 <= j < i ==> (#[trigger] statuses@[j]) is Readable,
        },
{
    let paths = tls_file_paths(config);
    assert(texts(paths@).len() == paths@.len());
    let mut i: usize = 0;
    while i < paths.len()
        invariant
            i <= paths@.len(),
            texts(paths@) == tls_files(config@),
            statuses@.len() == paths@.len(),
            forall|j: int| 0 <= j < i ==> (#[trigger] statuses@[j]) is Readable,
        decreases paths.len() - i,
    {
        assert(texts(paths@)[i as int] == paths@[i as int]@);
        let kind = match &statuses[i] {
            TlsFileStatus::Readable => None,
            TlsFileStatus::NotFound => Some(
                StartupErrorKind::TlsFileNotFound { path: paths[i].clone() },
            ),
            TlsFileStatus::NotRegular => Some(
                StartupErrorKind::TlsFileNotRegular { path: paths[i].clone() },
            ),
            TlsFileStatus::NotReadable(reason) => Some(
                StartupErrorKind::TlsFileNotReadable {
                    path: paths[i].clone(),
                    reason: reason.clone(),
                },
            ),
        };
        if let Some(kind) = kind {
            assert(reports_file(kind, tls_files(config@)[i as int], statuses@[i as int]));
            return Err(StartupError::new(StartupPhase::CheckTlsFiles, kind));
        }
        i += 1;
    }
    Ok(())
}

/// The protocol versions in a range.
pub open spec fn versions_between(min: TlsVersion, max: TlsVersion) -> Seq<TlsVersion> {
    (if min == TlsVersion::V1_2 {
        seq![TlsVersion::V1_2]
    } else {
        Seq::empty()
    }) + (if max == TlsVersion::V1_3 {
        seq![TlsVersion::V1_3]
    } else {
        Seq::empty()
    })
}

/// The protocol versions in a range.
pub fn tls_protocol_versions(min: TlsVersion, max: TlsVersion) -> (r: Vec<TlsVersion>)
    ensures
        r@ == versions_between(min, max),
{
    let mut versions: Vec<TlsVersion> = Vec::new();
    if min == TlsVersion::V1_2 {
        versions.push(TlsVersion::V1_2);
    }
    if max == TlsVersion::V1_3 {
        versions.push(TlsVersion::V1_3);
    }
    assert(versions@ =~= versions_between(min, max));
    versions
}

/// A valid range holds at least one version, and exactly those from its lower to its upper end.
pub proof fn law_valid_range_has_versions(min: TlsVersion, max: TlsVersion, version: TlsVersion)
    requires
        !max.before(min),
    ensures
        versions_between(min, max).len() > 0,
        versions_between(min, max).contains(version) == (!version.before(min) && !max.before(version)),
{
    let v = versions_between(min, max);
    if !version.before(min) && !max.before(version) {
        if version == TlsVersion::V1_2 {
            assert(v[0] == version);
        } else {
            assert(v[v.len() - 1] == version);
        }
    }
}

/// The texts of protocol identifiers.
pub open spec fn alpn_texts(protocols: Seq<AlpnProtocol>) -> Seq<Seq<char>> {
    protocols.map_values(|a: AlpnProtocol| a.label())
}

/// The identifiers of the negotiated protocols, in order.
pub fn alpn_identifiers(config: &Config) -> (r: Vec<String>)
    ensures
        texts(r@) == alpn_texts(config@.alpn_protocols),
{
    let protocols = &config.transport.tls.alpn_protocols;
    let mut list: Vec<String> = Vec::new();
    let mut i: usize = 0;
    assert(texts(list@) =~= alpn_texts(protocols@.take(0)));
    while i < protocols.len()
        invariant
            i <= protocols@.len(),
            texts(list@) == alpn_texts(protocols@.take(i as int)),
        decreases protocols.len() - i,
    {
        let ghost before = list@;
        list.push(protocols[i].to_string());
        assert(texts(list@) =~= texts(before).push(protocols@[i as int].label()));
        assert(alpn_texts(protocols@.take(i + 1)) =~= alpn_texts(protocols@.take(i as int)).push(
            protocols@[i as int].label(),
        ));
        i += 1;
    }
    assert(protocols@.take(protocols@.len() as int) =~= protocols@);
    list
}

/// Where a running server can be reached.
#[derive(Debug)]
pub struct Endpoints {
    pub scheme: &'static str,
    pub health: String,
    pub readiness: String,
    pub protocol_base: String,
}

/// Where a server with this configuration can be reached once it is bound.
pub fn bound_endpoints(config: &Config, addr: &SocketAddr) -> (r: Endpoints)
    ensures
        r.scheme@ == if config@.transport_mode.is_tls() && config@.cert_path is Some
            && config@.key_path is Some {
            "https"@
        } else {
            "http"@
        },
        r.health@ == r.scheme@ + "://"@ + addr.text() + "/healthz"@,
        r.readiness@ == r.scheme@ + "://"@ + addr.text() + "/readyz"@,
        r.protocol_base@ == r.scheme@ + "://"@ + addr.text() + config@.stream_base_path + "/"@,
{
    let scheme: &'static str = if config.tls_enabled() {
        "https"
    } else {
        "http"
    };
    let root = joined3(scheme, "://", addr.to_string().as_str());
    let health = joined(root.as_str(), "/healthz");
    let readiness = joined(root.as_str(), "/readyz");
    let protocol_base = joined3(root.as_str(), config.http.stream_base_path.as_str(), "/");
    Endpoints { scheme, health, readiness, protocol_base }
}

} // verus!
