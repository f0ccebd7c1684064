//! Protocol-agnostic client abstractions for IoT-style messaging.
//!
//! The crate models a small set of capability contracts (connection
//! lifecycle, publish, subscribe with a streamed inbox) that transport
//! adapters satisfy uniformly, together with shared TLS and credential
//! configuration primitives and a document-store configuration surface.
//! The decision logic of every adapter lives here with a verified
//! contract; the transport I/O itself is driven by a thin unverified
//! shell around the library.

use vstd::prelude::*;

pub mod clients;
pub mod stores;

verus! {

/// Configuration failures detected before any network activity.
///
/// Each variant names the half of a required pairing that is missing,
/// or the configured file that could not be found on disk.
#[derive(Debug, Clone, Copy, PartialEq, Eq, Structural)]
pub enum ConfigError {
    /// A configured CA certificate file does not exist.
    CaFileUnreadable,
    /// A configured client certificate file does not exist.
    CertFileUnreadable,
    /// A configured client key file does not exist.
    KeyFileUnreadable,
    /// A client certificate was supplied without its private key.
    CertWithoutKey,
    /// A client private key was supplied without its certificate.
    KeyWithoutCert,
    /// A username was supplied without a password.
    UsernameWithoutPassword,
    /// A password was supplied without a username.
    PasswordWithoutUsername,
}

impl ConfigError {
    /// The message text that belongs to this error.
    pub open spec fn spec_message(self) -> Seq<char> {
        match self {
            ConfigError::CaFileUnreadable => "Could not access TLS CA file"@,
            ConfigError::CertFileUnreadable => "Could not access TLS cert file"@,
            ConfigError::KeyFileUnreadable => "Could not access TLS key file"@,
            ConfigError::CertWithoutKey => "TLS requires both tls-cert and tls-key arguments"@,
            ConfigError::KeyWithoutCert => "TLS requires both tls-cert and tls-key arguments"@,
            ConfigError::UsernameWithoutPassword => "User auth requires both username and password arguments"@,
            ConfigError::PasswordWithoutUsername => "User auth requires both username and password arguments"@,
        }
    }

    /// A human-readable description naming the missing counterpart.
    pub fn message(&self) -> (r: String)
        ensures
            r@ == self.spec_message(),
    {
        match self {
            ConfigError::CaFileUnreadable => "Could not access TLS CA file".to_owned(),
            ConfigError::CertFileUnreadable => "Could not access TLS cert file".to_owned(),
            ConfigError::KeyFileUnreadable => "Could not access TLS key file".to_owned(),
            ConfigError::CertWithoutKey => "TLS requires both tls-cert and tls-key arguments".to_owned(),
            ConfigError::KeyWithoutCert => "TLS requires both tls-cert and tls-key arguments".to_owned(),
            ConfigError::UsernameWithoutPassword => "User auth requires both username and password arguments".to_owned(),
            ConfigError::PasswordWithoutUsername => "User auth requires both username and password arguments".to_owned(),
        }
    }
}

/// Relies on str's `==` (PartialEq), which compares the character
/// contents of the two strings.
#[verifier::external_body]
pub(crate) fn str_eq(a: &str, b: &str) -> (r: bool)
    ensures
        r == (a@ == b@),
{
    a == b
}

/// Copy an optional string, keeping its contents.
pub(crate) fn clone_opt_string(s: &Option<String>) -> (r: Option<String>)
    ensures
        r.deep_view() == s.deep_view(),
        r is Some <==> s is Some,
{
    match s {
        Some(v) => Some(v.as_str().to_owned()),
        None => None,
    }
}

/// General TLS configuration options.
///
/// Paths to PEM-encoded material. The client certificate and key must
/// be supplied together; adapters reject a lone half of that pair.
#[derive(Debug, Clone, PartialEq)]
pub struct TlsOptions {
    /// TLS certificate authority (CA) file in PEM format.
    pub tls_ca_file: Option<String>,
    /// TLS client certificate file in PEM format.
    pub tls_cert_file: Option<String>,
    /// TLS client key file in PEM format.
    pub tls_key_file: Option<String>,
}

impl Default for TlsOptions {
    /// All material absent: plain connections, nothing to validate.
    fn default() -> (r: Self)
        ensures
            r.tls_ca_file is None,
            r.tls_cert_file is None,
            r.tls_key_file is None,
    {
        Self { tls_ca_file: None, tls_cert_file: None, tls_key_file: None }
    }
}

impl TlsOptions {
    /// The certificate/key pairing invariant: both present or both absent.
    pub open spec fn cert_key_paired(self) -> bool {
        (self.tls_cert_file is Some) <==> (self.tls_key_file is Some)
    }

    /// Relies on std::path::Path::exists, which its documentation says
    /// returns whether the path points at an existing entity on disk.
    /// The answer depends on the state of the disk at the moment of the
    /// call, so nothing is promised of the result.
    #[verifier::external_body]
    fn path_exists(p: &str) -> bool {
        std::path::Path::new(p).exists()
    }

    /// Check every configured path for existence on disk, in the fixed
    /// order CA file, certificate file, key file. Absent paths are
    /// always valid; the first configured path that does not exist
    /// decides the error. Advisory: checked once at configuration
    /// time, not re-checked per connection attempt.
    pub fn validate(&self) -> (r: Result<(), ConfigError>)
        ensures
            (self.tls_ca_file is None && self.tls_cert_file is None && self.tls_key_file is None)
                ==> r is Ok,
            r == Err::<(), ConfigError>(ConfigError::CaFileUnreadable) ==> self.tls_ca_file is Some,
            r == Err::<(), ConfigError>(ConfigError::CertFileUnreadable) ==> self.tls_cert_file is Some,
            r == Err::<(), ConfigError>(ConfigError::KeyFileUnreadable) ==> self.tls_key_file is Some,
            r is Err ==> (r->Err_0 == ConfigError::CaFileUnreadable
                || r->Err_0 == ConfigError::CertFileUnreadable
                || r->Err_0 == ConfigError::KeyFileUnreadable),
    {
        let ca_found: Option<bool> = match &self.tls_ca_file {
            Some(f) => Some(Self::path_exists(f.as_str())),
            None => None,
        };
        let cert_found: Option<bool> = match &self.tls_cert_file {
            Some(f) => Some(Self::path_exists(f.as_str())),
            None => None,
        };
        let key_found: Option<bool> = match &self.tls_key_file {
            Some(f) => Some(Self::path_exists(f.as_str())),
            None => None,
        };
        validation_outcome(ca_found, cert_found, key_found)
    }
}

/// The pure verdict of TLS path validation, over the existence answers
/// alone. `None` stands for a path that was never configured; `Some(b)`
/// for a configured path whose existence check answered `b`.
///
/// Validation succeeds exactly when every configured path was found;
/// absent paths are always valid. The first missing file, in the order
/// CA, certificate, key, names the error.
pub fn validation_outcome(
    ca_found: Option<bool>,
    cert_found: Option<bool>,
    key_found: Option<bool>,
) -> (r: Result<(), ConfigError>)
    ensures
        r is Ok <==> (ca_found != Some(false) && cert_found != Some(false) && key_found != Some(
            false,
        )),
        ca_found == Some(false) ==> r == Err::<(), ConfigError>(ConfigError::CaFileUnreadable),
        ca_found != Some(false) && cert_found == Some(false) ==> r == Err::<(), ConfigError>(
            ConfigError::CertFileUnreadable,
        ),
        ca_found != Some(false) && cert_found != Some(false) && key_found == Some(false) ==> r
            == Err::<(), ConfigError>(ConfigError::KeyFileUnreadable),
{
    if ca_found == Some(false) {
        Err(ConfigError::CaFileUnreadable)
    } else if cert_found == Some(false) {
        Err(ConfigError::CertFileUnreadable)
    } else if key_found == Some(false) {
        Err(ConfigError::KeyFileUnreadable)
    } else {
        Ok(())
    }
}

/// General user (username / password) configuration options.
///
/// Both halves must be supplied together; adapters reject a lone
/// username or password.
#[derive(Debug, Clone, PartialEq)]
pub struct UserOptions {
    /// Username for the connection.
    pub username: Option<String>,
    /// Password for the connection.
    pub password: Option<String>,
}

impl Default for UserOptions {
    /// No credentials: anonymous access.
    fn default() -> (r: Self)
        ensures
            r.username is None,
            r.password is None,
    {
        Self { username: None, password: None }
    }
}

impl UserOptions {
    /// The credential pairing invariant: both present or both absent.
    pub open spec fn user_paired(self) -> bool {
        (self.username is Some) <==> (self.password is Some)
    }
}

} // verus!

