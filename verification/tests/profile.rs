use irodori_qdrant::config::{build_url, QdrantConfig};
use irodori_qdrant::options::{ProfileOption, ProfileOptions};
use irodori_qdrant::tls::TlsConfig;

fn text(value: &str) -> Option<String> {
    Some(value.to_string())
}

fn config(options: &ProfileOptions, secrets: &[&str]) -> QdrantConfig {
    let secrets = secrets.iter().map(|secret| secret.to_string()).collect();
    QdrantConfig::from_request(options, secrets).unwrap()
}

#[test]
fn builds_url_from_profile() {
    let options = ProfileOptions {
        host: text("qdrant.local"),
        port: text("6443"),
        tls: Some(true),
        ..ProfileOptions::default()
    };
    let config = QdrantConfig::from_request(&options, vec![]).unwrap();
    assert_eq!(config.base_url, "https://qdrant.local:6443");
}

#[test]
fn takes_the_api_key_from_the_password_field() {
    let options = ProfileOptions {
        host: text("qdrant.local"),
        password: text("key_from_the_form"),
        ..ProfileOptions::default()
    };
    let config = QdrantConfig::from_request(&options, vec![]).unwrap();
    assert_eq!(config.api_key.as_deref(), Some("key_from_the_form"));
}

#[test]
fn explicit_api_key_option_wins_over_password() {
    let options = ProfileOptions {
        host: text("qdrant.local"),
        password: text("stale"),
        api_key: text("explicit"),
        ..ProfileOptions::default()
    };
    let config = QdrantConfig::from_request(&options, vec![]).unwrap();
    assert_eq!(config.api_key.as_deref(), Some("explicit"));
}

#[test]
fn redacts_an_api_key_taken_from_the_password_field() {
    let options = ProfileOptions {
        host: text("qdrant.local"),
        password: text("key_secret"),
        ..ProfileOptions::default()
    };
    let secrets: Vec<String> = options.sensitive().into_iter().flatten().collect();
    let config = QdrantConfig::from_request(&options, secrets).unwrap();
    assert_eq!(
        config.redact("rejected key key_secret"),
        "rejected key ****"
    );
}

#[test]
fn reads_tls_paths_from_the_connector_options() {
    assert_eq!(ProfileOption::RootCert.names()[0], "sslRootCert");
    assert_eq!(ProfileOption::ClientCert.names()[0], "sslCert");
    assert_eq!(ProfileOption::ClientKey.names()[0], "sslKey");
    let tls = TlsConfig::from_request(&ProfileOptions {
        root_cert: text("/etc/ssl/ca.pem"),
        client_cert: text("/etc/ssl/client.pem"),
        client_key: text("/etc/ssl/client.key"),
        ..ProfileOptions::default()
    });
    assert_eq!(tls.root_cert_path.as_deref(), Some("/etc/ssl/ca.pem"));
    assert_eq!(tls.client_cert_path.as_deref(), Some("/etc/ssl/client.pem"));
    assert_eq!(tls.client_key_path.as_deref(), Some("/etc/ssl/client.key"));
    assert!(!tls.accept_invalid_certs);
}

#[test]
fn accepts_the_driver_spellings_of_the_tls_options() {
    assert!(ProfileOption::RootCert.names().contains(&"sslrootcert"));
    assert!(ProfileOption::ClientCert.names().contains(&"ssl-cert"));
    let tls = TlsConfig::from_request(&ProfileOptions {
        root_cert: text("/ca.pem"),
        client_cert: text("/c.pem"),
        ..ProfileOptions::default()
    });
    assert_eq!(tls.root_cert_path.as_deref(), Some("/ca.pem"));
    assert_eq!(tls.client_cert_path.as_deref(), Some("/c.pem"));
}

#[test]
fn options_are_looked_up_in_order_of_preference() {
    assert_eq!(ProfileOption::Url.names(), vec!["connectionString", "url", "dsn"]);
    assert_eq!(ProfileOption::Host.names(), vec!["host", "endpoint"]);
    assert_eq!(ProfileOption::Port.names(), vec!["port"]);
    assert_eq!(ProfileOption::Tls.names(), vec!["tls", "ssl"]);
    assert_eq!(ProfileOption::ApiKey.names(), vec!["apiKey", "api_key"]);
    assert_eq!(ProfileOption::Password.names(), vec!["password"]);
    assert_eq!(
        ProfileOption::BearerToken.names(),
        vec!["token", "bearerToken", "accessToken"]
    );
    assert_eq!(
        ProfileOption::RootCert.names(),
        vec!["sslRootCert", "sslrootcert", "ssl-ca", "caCert"]
    );
    assert_eq!(
        ProfileOption::ClientCert.names(),
        vec!["sslCert", "sslcert", "ssl-cert", "clientCert"]
    );
    assert_eq!(
        ProfileOption::ClientKey.names(),
        vec!["sslKey", "sslkey", "ssl-key", "clientKey"]
    );
    assert_eq!(ProfileOption::Insecure.names(), vec!["sslInsecure", "tlsInsecure"]);
    assert_eq!(
        ProfileOption::Collection.names(),
        vec!["collection", "collectionName"]
    );
}

#[test]
fn an_empty_profile_means_the_local_server() {
    assert_eq!(build_url(&ProfileOptions::default()), "http://127.0.0.1:6333");
    let options = ProfileOptions { tls: Some(false), ..ProfileOptions::default() };
    assert_eq!(build_url(&options), "http://127.0.0.1:6333");
}

#[test]
fn a_url_wins_over_its_parts_and_loses_its_trailing_slashes() {
    let options = ProfileOptions {
        url: text("https://q.example/api//"),
        host: text("ignored"),
        ..ProfileOptions::default()
    };
    assert_eq!(options.base_url(), "https://q.example/api//");
    assert_eq!(config(&options, &[]).base_url, "https://q.example/api");
}

#[test]
fn the_bearer_token_is_kept_beside_the_key() {
    let options = ProfileOptions {
        api_key: text("k"),
        bearer_token: text("t"),
        ..ProfileOptions::default()
    };
    let config = config(&options, &["k", "t"]);
    assert_eq!(config.api_key.as_deref(), Some("k"));
    assert_eq!(config.bearer_token.as_deref(), Some("t"));
    assert_eq!(config.redaction_values, vec!["k", "t"]);
    assert_eq!(config.clone(), config);
}

#[test]
fn only_affirmative_words_switch_certificate_checks_off() {
    for (value, expected) in [
        ("1", true),
        ("true", true),
        ("yes", true),
        (" yes\n", true),
        ("\u{2003}true\u{85}", true),
        ("TRUE", false),
        ("on", false),
        ("0", false),
        ("", false),
    ] {
        let tls = TlsConfig::from_request(&ProfileOptions {
            insecure: text(value),
            ..ProfileOptions::default()
        });
        assert_eq!(tls.accept_invalid_certs, expected, "{value:?}");
    }
}

#[test]
fn masks_the_address_and_every_secret() {
    let options = ProfileOptions { url: text("http://q:1"), ..ProfileOptions::default() };
    let config = config(&options, &["abc", "", "bc"]);
    assert_eq!(
        config.redact("http://q:1/x: abcabc and bc, twice http://q:1"),
        "<qdrant-url>/x: ******** and ****, twice <qdrant-url>"
    );
    assert_eq!(config.redact("nothing to hide"), "nothing to hide");
    let once = config.redact("abc http://q:1");
    assert_eq!(config.redact(&once), once);
}

#[test]
fn an_empty_address_matches_between_all_characters() {
    let options = ProfileOptions { url: text("/"), ..ProfileOptions::default() };
    let config = config(&options, &[]);
    assert_eq!(config.base_url, "");
    assert_eq!(config.redact("ab"), "ab".replace("", "<qdrant-url>"));
    assert_eq!(config.redact(""), "<qdrant-url>");
}

#[test]
fn the_key_and_the_token_are_the_sensitive_values() {
    let options = ProfileOptions {
        password: text("from the form"),
        bearer_token: text("t0ken"),
        ..ProfileOptions::default()
    };
    assert_eq!(options.sensitive(), vec![text("from the form"), text("t0ken")]);
    let explicit = ProfileOptions { api_key: text("explicit"), ..options };
    assert_eq!(explicit.sensitive(), vec![text("explicit"), text("t0ken")]);
    assert_eq!(ProfileOptions::default().sensitive(), vec![None, None]);
}

#[test]
fn a_credential_that_is_sent_never_shows() {
    let options = ProfileOptions {
        api_key: text("explicit"),
        bearer_token: text("t0ken"),
        ..ProfileOptions::default()
    };
    let secrets: Vec<String> = options.sensitive().into_iter().flatten().collect();
    let config = QdrantConfig::from_request(&options, secrets).unwrap();
    assert!(config.redaction_values.contains(&"explicit".to_string()));
    assert!(config.redaction_values.contains(&"t0ken".to_string()));
    assert_eq!(config.redact("explicit and t0ken"), "**** and ****");
}
