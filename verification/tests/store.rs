use iot_core::ConfigError;
use iot_core::TlsOptions;
use iot_core::UserOptions;
use iot_core::stores::ElasticOptions;
use iot_core::stores::store_elastic::basic_auth_header;
use iot_core::stores::store_elastic::map_request_body;

fn creds(user: &str, pass: &str) -> UserOptions {
    UserOptions { username: Some(user.to_string()), password: Some(pass.to_string()) }
}

#[test]
fn elastic_options_from_bare_endpoint() {
    let o = ElasticOptions::from("http://localhost:9200");
    assert_eq!(o.es_url, "http://localhost:9200");
    assert_eq!(o.tls_opts, TlsOptions::default());
    assert_eq!(o.user_opts, UserOptions::default());
}

#[test]
fn elastic_options_from_tuples() {
    let u = creds("user", "pass");
    let t = TlsOptions {
        tls_ca_file: Some("ca.pem".to_string()),
        tls_cert_file: None,
        tls_key_file: None,
    };
    let o = ElasticOptions::from(("http://localhost:9200", u.clone()));
    assert_eq!(o.user_opts, u);
    assert_eq!(o.tls_opts, TlsOptions::default());
    let o = ElasticOptions::from(("http://localhost:9200", t.clone()));
    assert_eq!(o.tls_opts, t);
    assert_eq!(o.user_opts, UserOptions::default());
    let o = ElasticOptions::from(("http://localhost:9200", u.clone(), t.clone()));
    assert_eq!(o.user_opts, u);
    assert_eq!(o.tls_opts, t);
}

#[test]
fn elastic_plan_rejects_lone_username() {
    let mut o = ElasticOptions::from("http://localhost:9200");
    o.user_opts.username = Some("user".to_string());
    assert_eq!(o.connect_plan(), Err(ConfigError::UsernameWithoutPassword));
}

#[test]
fn elastic_plan_rejects_lone_password() {
    let mut o = ElasticOptions::from("http://localhost:9200");
    o.user_opts.password = Some("pass".to_string());
    assert_eq!(o.connect_plan(), Err(ConfigError::PasswordWithoutUsername));
}

#[test]
fn elastic_plan_rejects_broken_tls_pair_before_credentials() {
    let mut o = ElasticOptions::from("https://localhost:9200");
    o.tls_opts.tls_key_file = Some("client.key".to_string());
    o.user_opts.username = Some("user".to_string());
    assert_eq!(o.connect_plan(), Err(ConfigError::KeyWithoutCert));
}

#[test]
fn elastic_plan_carries_identity_and_auth_header() {
    let o = ElasticOptions::from((
        "https://localhost:9200",
        creds("user", "pass"),
        TlsOptions {
            tls_ca_file: Some("ca.pem".to_string()),
            tls_cert_file: Some("client.pem".to_string()),
            tls_key_file: Some("client.key".to_string()),
        },
    ));
    let p = o.connect_plan().unwrap();
    assert_eq!(p.endpoint, "https://localhost:9200");
    assert_eq!(p.ca_file, Some("ca.pem".to_string()));
    let idf = p.identity.unwrap();
    assert_eq!(idf.cert_file, "client.pem");
    assert_eq!(idf.key_file, "client.key");
    assert_eq!(p.auth_header, Some("Basic dXNlcjpwYXNz".to_string()));
}

#[test]
fn basic_auth_header_encodes_the_credentials() {
    // base64("user:pass") == dXNlcjpwYXNz
    assert_eq!(basic_auth_header("user", "pass"), "Basic dXNlcjpwYXNz");
    // base64(":") == Og==
    assert_eq!(basic_auth_header("", ""), "Basic Og==");
}

#[test]
fn map_request_body_frames_index_and_mapping() {
    let body = map_request_body("sensors", "{\"properties\":{}}");
    assert_eq!(
        String::from_utf8(body).unwrap(),
        "{\"mappings\":{\"sensors\":\"{\\\"properties\\\":{}}\"}}"
    );
}

#[test]
fn map_request_body_is_valid_json() {
    let body = map_request_body("weird\"index\\name\n", "{\"a\":1}");
    let v: serde_json::Value = serde_json::from_slice(&body).unwrap();
    let mappings = v.get("mappings").unwrap().as_object().unwrap();
    assert_eq!(mappings.len(), 1);
    assert_eq!(
        mappings.get("weird\"index\\name\n").unwrap().as_str().unwrap(),
        "{\"a\":1}"
    );
}

#[test]
fn map_request_body_escapes_control_bytes() {
    let body = map_request_body("a\nb", "m");
    let text = String::from_utf8(body).unwrap();
    assert_eq!(text, "{\"mappings\":{\"a\\u000ab\":\"m\"}}");
}
