use iot_core::ConfigError;
use iot_core::TlsOptions;
use iot_core::UserOptions;
use iot_core::validation_outcome;

fn tls(ca: Option<&str>, cert: Option<&str>, key: Option<&str>) -> TlsOptions {
    TlsOptions {
        tls_ca_file: ca.map(|s| s.to_string()),
        tls_cert_file: cert.map(|s| s.to_string()),
        tls_key_file: key.map(|s| s.to_string()),
    }
}

#[test]
fn tls_default_is_absent() {
    let t = TlsOptions::default();
    assert_eq!(t.tls_ca_file, None);
    assert_eq!(t.tls_cert_file, None);
    assert_eq!(t.tls_key_file, None);
}

#[test]
fn user_default_is_absent() {
    let u = UserOptions::default();
    assert_eq!(u.username, None);
    assert_eq!(u.password, None);
}

#[test]
fn validate_with_nothing_configured_succeeds() {
    assert_eq!(tls(None, None, None).validate(), Ok(()));
}

#[test]
fn validate_with_existing_paths_succeeds() {
    // The filesystem root always exists.
    assert_eq!(tls(Some("/"), Some("/"), Some("/")).validate(), Ok(()));
}

#[test]
fn validate_reports_missing_ca_file() {
    let t = tls(Some("/nonexistent/ca.pem"), None, None);
    assert_eq!(t.validate(), Err(ConfigError::CaFileUnreadable));
    assert_eq!(
        ConfigError::CaFileUnreadable.message(),
        "Could not access TLS CA file"
    );
}

#[test]
fn validate_reports_missing_cert_file() {
    let t = tls(Some("/"), Some("/nonexistent/cert.pem"), Some("/"));
    assert_eq!(t.validate(), Err(ConfigError::CertFileUnreadable));
}

#[test]
fn validate_reports_missing_key_file() {
    let t = tls(Some("/"), Some("/"), Some("/nonexistent/key.pem"));
    assert_eq!(t.validate(), Err(ConfigError::KeyFileUnreadable));
}

#[test]
fn validation_outcome_succeeds_iff_every_configured_path_was_found() {
    let choices = [None, Some(true), Some(false)];
    for ca in choices {
        for cert in choices {
            for key in choices {
                let r = validation_outcome(ca, cert, key);
                let all_found =
                    ca != Some(false) && cert != Some(false) && key != Some(false);
                assert_eq!(r.is_ok(), all_found, "ca={ca:?} cert={cert:?} key={key:?}");
            }
        }
    }
}

#[test]
fn validation_outcome_names_the_first_missing_file() {
    assert_eq!(
        validation_outcome(Some(false), Some(false), Some(false)),
        Err(ConfigError::CaFileUnreadable)
    );
    assert_eq!(
        validation_outcome(Some(true), Some(false), Some(false)),
        Err(ConfigError::CertFileUnreadable)
    );
    assert_eq!(
        validation_outcome(None, None, Some(false)),
        Err(ConfigError::KeyFileUnreadable)
    );
}

#[test]
fn pairing_error_messages_name_the_missing_counterpart() {
    assert_eq!(
        ConfigError::CertWithoutKey.message(),
        "TLS requires both tls-cert and tls-key arguments"
    );
    assert_eq!(
        ConfigError::KeyWithoutCert.message(),
        "TLS requires both tls-cert and tls-key arguments"
    );
    assert_eq!(
        ConfigError::UsernameWithoutPassword.message(),
        "User auth requires both username and password arguments"
    );
    assert_eq!(
        ConfigError::PasswordWithoutUsername.message(),
        "User auth requires both username and password arguments"
    );
}
