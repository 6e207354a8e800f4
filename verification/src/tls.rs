//! What a TLS context is built from: the certificates and keys of PEM files, and the settings
//! that choose among them.

use vstd::prelude::*;
use crate::bytes::byte_lists;
use crate::config::model::Config;
use crate::config::modes::{TlsVersion, TransportMode};
use crate::startup::{
    StartupError, StartupErrorKind, StartupPhase, alpn_identifiers, alpn_texts, tls_protocol_versions,
    versions_between,
};
use crate::text::{joined3, joined4, text_opt, texts};

verus! {

/// How a private key is encoded.
#[derive(Debug, Clone, Copy, PartialEq, Eq, Structural)]
pub enum KeyFormat {
    Pkcs1,
    Sec1,
    Pkcs8,
    /// None of the others.
    Other,
}

/// A private key.
#[derive(Debug)]
pub struct PrivateKey {
    pub format: KeyFormat,
    pub der: Vec<u8>,
}

/// The DER encodings of the certificates in a PEM file, in order; else the message of the error.
pub uninterp spec fn pem_certificates(data: Seq<u8>) -> Result<Seq<Seq<u8>>, Seq<char>>;

/// The format and the DER encoding of the first private key in a PEM file, where there is one;
/// else the message of the error.
pub uninterp spec fn pem_private_key(data: Seq<u8>) -> Result<Option<(KeyFormat, Seq<u8>)>, Seq<char>>;

/// `rustls_pemfile::certs` over bytes in memory: the certificates up to the end, or the first
/// error. Both depend on the bytes alone.
#[verifier::external_body]
fn read_certificates(data: &[u8]) -> (r: Result<Vec<Vec<u8>>, String>)
    ensures
        match r {
            Ok(certs) => pem_certificates(data@) matches Ok(c) && byte_lists(certs@) == c,
            Err(m) => pem_certificates(data@) matches Err(e) && m@ == e,
        },
{
    let mut rest = data;
    let found = rustls_pemfile::certs(&mut rest).collect::<Result<Vec<_>, std::io::Error>>();
    match found {
        Ok(certs) => Ok(certs.into_iter().map(|c| c.to_vec()).collect()),
        Err(e) => Err(e.to_string()),
    }
}

/// `rustls_pemfile::private_key` over bytes in memory: the first private key, none where there
/// is none, or the first error before it. All depend on the bytes alone.
#[verifier::external_body]
fn read_private_key(data: &[u8]) -> (r: Result<Option<PrivateKey>, String>)
    ensures
        match r {
            Ok(Some(key)) => pem_private_key(data@) matches Ok(Some(k)) && (key.format, key.der@) == k,
            Ok(None) => pem_private_key(data@) matches Ok(None),
            Err(m) => pem_private_key(data@) matches Err(e) && m@ == e,
        },
{
    let mut rest = data;
    let key = rustls_pemfile::private_key(&mut rest).map_err(|e| e.to_string())?;
    Ok(key.map(|key| PrivateKey {
        format: match &key {
            rustls::pki_types::PrivateKeyDer::Pkcs1(_) => KeyFormat::Pkcs1,
            rustls::pki_types::PrivateKeyDer::Sec1(_) => KeyFormat::Sec1,
            rustls::pki_types::PrivateKeyDer::Pkcs8(_) => KeyFormat::Pkcs8,
            _ => KeyFormat::Other,
        },
        der: key.secret_der().to_vec(),
    }))
}

/// Whether a result is a failure to build the TLS context, with this message.
pub open spec fn is_tls_failure<T>(r: Result<T, StartupError>, message: Seq<char>) -> bool {
    r matches Err(e) && e.phase == StartupPhase::BuildTlsContext
        && (e.kind matches StartupErrorKind::TlsContext(m) && m@ == message)
}

/// What certificates are used for.
#[derive(Debug, Clone, Copy, PartialEq, Eq, Structural)]
pub enum CertificateUse {
    /// The server shows them.
    Server,
    /// Clients are checked against them.
    ClientCa,
}

impl CertificateUse {
    /// How an unreadable file is reported, up to its path.
    pub open spec fn unreadable(self) -> Seq<char> {
        match self {
            CertificateUse::Server => "failed to read cert file '"@,
            CertificateUse::ClientCa => "failed to read CA file '"@,
        }
    }

    /// How a file that is no PEM is reported, up to its path.
    pub open spec fn malformed(self) -> Seq<char> {
        match self {
            CertificateUse::Server => "failed to parse PEM certs from '"@,
            CertificateUse::ClientCa => "failed to parse PEM CA certs from '"@,
        }
    }

    /// How a file without certificates is reported, up to its path.
    pub open spec fn absent(self) -> Seq<char> {
        match self {
            CertificateUse::Server => "no certificates found in '"@,
            CertificateUse::ClientCa => "no CA certificates found in '"@,
        }
    }
}

/// What the certificates that were found in a file, or the error that reading them gave, come
/// to. There must be at least one.
pub fn certificates_found(
    purpose: CertificateUse,
    path: &str,
    found: Result<Vec<Vec<u8>>, String>,
) -> (r: Result<Vec<Vec<u8>>, StartupError>)
    ensures
        match found {
            Err(m) => is_tls_failure(r, purpose.malformed() + path@ + "': "@ + m@),
            Ok(certs) => if certs@.len() == 0 {
                is_tls_failure(r, purpose.absent() + path@ + "'"@)
            } else {
                r == Ok::<Vec<Vec<u8>>, StartupError>(certs)
            },
        },
{
    match found {
        Err(m) => {
            let start: &'static str = match purpose {
                CertificateUse::Server => "failed to parse PEM certs from '",
                CertificateUse::ClientCa => "failed to parse PEM CA certs from '",
            };
            Err(StartupError::tls_context(joined4(start, path, "': ", m.as_str())))
        },
        Ok(certs) => {
            if certs.len() == 0 {
                let start: &'static str = match purpose {
                    CertificateUse::Server => "no certificates found in '",
                    CertificateUse::ClientCa => "no CA certificates found in '",
                };
                return Err(StartupError::tls_context(joined3(start, path, "'")));
            }
            Ok(certs)
        },
    }
}

/// Whether a result is what a file of certificates comes to.
pub open spec fn are_certificates_of(
    r: Result<Vec<Vec<u8>>, StartupError>,
    purpose: CertificateUse,
    path: Seq<char>,
    data: Result<Vec<u8>, String>,
) -> bool {
    match data {
        Err(m) => is_tls_failure(r, purpose.unreadable() + path + "': "@ + m@),
        Ok(bytes) => match pem_certificates(bytes@) {
            Err(m) => is_tls_failure(r, purpose.malformed() + path + "': "@ + m),
            Ok(certs) => if certs.len() == 0 {
                is_tls_failure(r, purpose.absent() + path + "'"@)
            } else {
                r matches Ok(found) && byte_lists(found@) == certs
            },
        },
    }
}

/// Load the PEM certificates of a file, given its content or why it cannot be read.
///
/// # Errors
///
/// Returns an error in the phase [`StartupPhase::BuildTlsContext`] when the file cannot be read,
/// is no PEM, or holds no certificate.
pub fn load_pem_certs(purpose: CertificateUse, path: &str, data: Result<Vec<u8>, String>) -> (r:
    Result<Vec<Vec<u8>>, StartupError>)
    ensures
        are_certificates_of(r, purpose, path@, data),
{
    match data {
        Err(m) => {
            let start: &'static str = match purpose {
                CertificateUse::Server => "failed to read cert file '",
                CertificateUse::ClientCa => "failed to read CA file '",
            };
            Err(StartupError::tls_context(joined4(start, path, "': ", m.as_str())))
        },
        Ok(bytes) => {
            let found = read_certificates(bytes.as_slice());
            assert(found matches Ok(certs) ==> byte_lists(certs@).len() == certs@.len());
            certificates_found(purpose, path, found)
        },
    }
}

/// What the private key that was found in a file, or the error that reading it gave, comes to.
pub fn private_key_found(path: &str, found: Result<Option<PrivateKey>, String>) -> (r: Result<
    PrivateKey,
    StartupError,
>)
    ensures
        match found {
            Err(m) => is_tls_failure(r, "failed to parse PEM key from '"@ + path@ + "': "@ + m@),
            Ok(None) => is_tls_failure(r, "no private key found in '"@ + path@ + "'"@),
            Ok(Some(key)) => r == Ok::<PrivateKey, StartupError>(key),
        },
{
    match found {
        Err(m) => Err(
            StartupError::tls_context(
                joined4("failed to parse PEM key from '", path, "': ", m.as_str()),
            ),
        ),
        Ok(None) => Err(
            StartupError::tls_context(joined3("no private key found in '", path, "'")),
        ),
        Ok(Some(key)) => Ok(key),
    }
}

/// Load the first PEM private key of a file, given its content or why it cannot be read.
///
/// # Errors
///
/// Returns an error in the phase [`StartupPhase::BuildTlsContext`] when the file cannot be read,
/// is no PEM, or holds no private key.
pub fn load_pem_private_key(path: &str, data: Result<Vec<u8>, String>) -> (r: Result<
    PrivateKey,
    StartupError,
>)
    ensures
        match data {
            Err(m) => is_tls_failure(r, "failed to read key file '"@ + path@ + "': "@ + m@),
            Ok(bytes) => match pem_private_key(bytes@) {
                Err(m) => is_tls_failure(r, "failed to parse PEM key from '"@ + path@ + "': "@ + m),
                Ok(None) => is_tls_failure(r, "no private key found in '"@ + path@ + "'"@),
                Ok(Some(k)) => r matches Ok(key) && (key.format, key.der@) == k,
            },
        },
{
    match data {
        Err(m) => Err(
            StartupError::tls_context(
                joined4("failed to read key file '", path, "': ", m.as_str()),
            ),
        ),
        Ok(bytes) => private_key_found(path, read_private_key(bytes.as_slice())),
    }
}

/// What a TLS context is built from.
#[derive(Debug)]
pub struct TlsPlan {
    /// The protocol versions that are offered.
    pub versions: Vec<TlsVersion>,
    pub cert_path: String,
    pub key_path: String,
    /// Where clients have to show a certificate, the file of those who may issue it.
    pub client_ca_path: Option<String>,
    /// The protocols that are negotiated, in order.
    pub alpn: Vec<String>,
}

/// Decides what the TLS context of a configuration is built from. A configuration that was
/// validated for TLS has the paths.
pub fn tls_plan(config: &Config) -> (r: TlsPlan)
    requires
        config@.cert_path is Some,
        config@.key_path is Some,
        config@.transport_mode == TransportMode::Mtls ==> config@.client_ca_path is Some,
    ensures
        r.versions@ == versions_between(config@.min_version, config@.max_version),
        Some(r.cert_path@) == config@.cert_path,
        Some(r.key_path@) == config@.key_path,
        text_opt(r.client_ca_path) == if config@.transport_mode == TransportMode::Mtls {
            config@.client_ca_path
        } else {
            None
        },
        texts(r.alpn@) == alpn_texts(config@.alpn_protocols),
{
    let tls = &config.transport.tls;
    let client_ca_path = match config.transport.mode {
        TransportMode::Mtls => tls.client_ca_path.clone(),
        _ => None,
    };
    TlsPlan {
        versions: tls_protocol_versions(tls.min_version, tls.max_version),
        cert_path: tls.cert_path.clone().unwrap(),
        key_path: tls.key_path.clone().unwrap(),
        client_ca_path,
        alpn: alpn_identifiers(config),
    }
}

/// Certificates are loaded exactly where the file can be read, is PEM and holds at least one, and
/// then they are all that it holds; else the error names the file.
pub proof fn law_certificates_are_those_of_the_file(
    r: Result<Vec<Vec<u8>>, StartupError>,
    purpose: CertificateUse,
    path: Seq<char>,
    data: Result<Vec<u8>, String>,
)
    requires
        are_certificates_of(r, purpose, path, data),
    ensures
        r is Ok <==> (data matches Ok(bytes) && pem_certificates(bytes@) matches Ok(certs) && certs.len()
            > 0),
        r matches Ok(found) ==> found@.len() > 0 && pem_certificates(data->Ok_0@) == Ok::<
            Seq<Seq<u8>>,
            Seq<char>,
        >(byte_lists(found@)),
        r matches Err(e) ==> e.phase == StartupPhase::BuildTlsContext && (
        e.kind matches StartupErrorKind::TlsContext(m) && crate::text::occurs(m@, path)),
{
    if let Ok(found) = r {
        assert(byte_lists(found@).len() == found@.len());
    } else {
        let message = match data {
            Err(m) => purpose.unreadable() + path + "': "@ + m@,
            Ok(bytes) => match pem_certificates(bytes@) {
                Err(m) => purpose.malformed() + path + "': "@ + m,
                Ok(_) => purpose.absent() + path + "'"@,
            },
        };
        let n = match data {
            Err(_) => purpose.unreadable().len(),
            Ok(bytes) => match pem_certificates(bytes@) {
                Err(_) => purpose.malformed().len(),
                Ok(_) => purpose.absent().len(),
            },
        };
        assert(message.subrange(n as int, n as int + path.len()) =~= path);
        assert(crate::text::occurs_at(message, path, n as int));
    }
}

} // verus!
