use irodori_qdrant::config::QdrantConfig;
use irodori_qdrant::connection::QdrantConnection;
use irodori_qdrant::driver::Reply;
use irodori_qdrant::opening::{open, Opening, OpeningStep};
use irodori_qdrant::options::ProfileOptions;
use irodori_qdrant::tls::{read_pem, ClientSetup, SetupStep, TlsConfig};

const CERT: &str = "-----BEGIN CERTIFICATE-----
MIIBmzCCAUGgAwIBAgIUQAxG5j8mBWjkddGx+iBsoKAHh7MwCgYIKoZIzj0EAwIw
FjEUMBIGA1UEAwwLcWRyYW50LnRlc3QwIBcNMjYxMTE1MTUzNDU2WhgPMjEyNjEw
MjIxNTM0NTZaMBYxFDASBgNVBAMMC3FkcmFudC50ZXN0MFkwEwYHKoZIzj0CAQYI
KoZIzj0DAQcDQgAEs6PymLdNnmL/BzW6oNpfDvmog5Ds423JlhLKXaPZbtARG0+3
bjGoW6KgHu0rwC9/P1jnHPb94FwRedOhJeWgcKNrMGkwHQYDVR0OBBYEFPWiuyvI
c/xCoS76zV+EPFnHLWy5MB8GA1UdIwQYMBaAFPWiuyvIc/xCoS76zV+EPFnHLWy5
MA8GA1UdEwEB/wQFMAMBAf8wFgYDVR0RBA8wDYILcWRyYW50LnRlc3QwCgYIKoZI
zj0EAwIDSAAwRQIgRzSQA8JBMreWRtRq+rJchemGtDpZfY+zuaZwKrd9Eh8CIQCf
wdRPSa0kiIQM0d3MbIvK/p+nRsMr0v8y1+Fq1Gu12g==
-----END CERTIFICATE-----";

const KEY_BODY: &str = "MIGHAgEAMBMGByqGSM49AgEGCCqGSM49AwEHBG0wawIBAQQgD5mXPuJyrEmp1lbx
VIWF8225x+xpTl0ac5Lvkr7GZ6yhRANCAASzo/KYt02eYv8HNbqg2l8O+aiDkOzj
bcmWEspdo9lu0BEbT7duMahboqAe7SvAL38/WOcc9v3gXBF506El5aBw";

fn block(kind: &str, body: &str) -> Vec<u8> {
    format!("-----BEGIN {kind}-----\n{body}\n-----END {kind}-----\n").into_bytes()
}

fn key() -> Vec<u8> {
    block("PRIVATE KEY", KEY_BODY)
}

fn asked(step: SetupStep) -> (String, ClientSetup) {
    match step {
        SetupStep::Read { path, setup } => (path, setup),
        SetupStep::Done(_) => panic!("the setup ended"),
    }
}

fn done(step: SetupStep) -> Result<reqwest::Client, String> {
    match step {
        SetupStep::Read { path, .. } => panic!("the setup asks for {path}"),
        SetupStep::Done(result) => result,
    }
}

fn paths(root: Option<&str>, cert: Option<&str>, key: Option<&str>) -> TlsConfig {
    TlsConfig {
        root_cert_path: root.map(|path| path.to_string()),
        client_cert_path: cert.map(|path| path.to_string()),
        client_key_path: key.map(|path| path.to_string()),
        accept_invalid_certs: false,
    }
}

#[test]
fn a_profile_without_tls_options_keeps_the_plain_client() {
    let tls = TlsConfig::from_request(&ProfileOptions::default());
    assert_eq!(tls, TlsConfig::default());
    assert!(done(tls.build_client()).is_ok());
}

#[test]
fn half_a_client_identity_is_rejected_with_a_usable_message() {
    let cert_only = TlsConfig {
        client_cert_path: Some("/etc/ssl/client.pem".into()),
        ..TlsConfig::default()
    };
    assert_eq!(
        done(cert_only.build_client()).unwrap_err(),
        "SSL client certificate needs a matching client key."
    );

    let key_only = TlsConfig {
        client_key_path: Some("/etc/ssl/client.key".into()),
        ..TlsConfig::default()
    };
    assert_eq!(
        done(key_only.build_client()).unwrap_err(),
        "SSL client key needs a matching client certificate."
    );
}

#[test]
fn an_unreadable_certificate_names_the_file_and_the_field() {
    let tls = TlsConfig {
        root_cert_path: Some("/definitely/not/here.pem".into()),
        ..TlsConfig::default()
    };
    let (path, setup) = asked(tls.build_client());
    assert_eq!(path, "/definitely/not/here.pem");
    let err = done(setup.resume(Err("No such file or directory (os error 2)".to_string())))
        .unwrap_err();
    assert!(
        err.starts_with("SSL root certificate at /definitely/not/here.pem"),
        "{err}"
    );
    assert_eq!(
        err,
        "SSL root certificate at /definitely/not/here.pem could not be read: No such file or directory (os error 2)"
    );
}

#[test]
fn a_certificate_file_with_no_pem_block_is_rejected() {
    let tls = TlsConfig {
        root_cert_path: Some("/tmp/not-a-cert.pem".into()),
        ..TlsConfig::default()
    };
    let (_, setup) = asked(tls.build_client());
    let err = done(setup.resume(Ok(b"this is not a certificate".to_vec()))).unwrap_err();
    assert!(err.contains("contains no PEM certificate"), "{err}");
    assert_eq!(
        err,
        "SSL root certificate at /tmp/not-a-cert.pem contains no PEM certificate."
    );
}

#[test]
fn a_root_certificate_is_added() {
    let (path, setup) = asked(paths(Some("/ca.pem"), None, None).build_client());
    assert_eq!(path, "/ca.pem");
    assert!(done(setup.resume(Ok(CERT.as_bytes().to_vec()))).is_ok());
}

#[test]
fn a_root_certificate_that_cannot_be_used_fails_the_client() {
    let (_, setup) = asked(paths(Some("/ca.pem"), None, None).build_client());
    let bytes = block("CERTIFICATE", "AAAA");
    assert_eq!(
        done(setup.resume(Ok(bytes))).unwrap_err(),
        "TLS client setup failed: builder error"
    );
}

#[test]
fn a_broken_bundle_is_no_valid_pem() {
    let (_, setup) = asked(paths(Some("/ca.pem"), None, None).build_client());
    let bytes = block("CERTIFICATE", "!!!!");
    assert_eq!(
        done(setup.resume(Ok(bytes))).unwrap_err(),
        "SSL root certificate at /ca.pem is not valid PEM: builder error"
    );
}

#[test]
fn an_identity_is_joined_from_two_files() {
    let tls = paths(Some("/ca.pem"), Some("/c.pem"), Some("/k.pem"));
    let (path, setup) = asked(tls.build_client());
    assert_eq!(path, "/ca.pem");
    let (path, setup) = asked(setup.resume(Ok(CERT.as_bytes().to_vec())));
    assert_eq!(path, "/c.pem");
    let (path, setup) = asked(setup.resume(Ok(CERT.as_bytes().to_vec())));
    assert_eq!(path, "/k.pem");
    assert!(done(setup.resume(Ok(key()))).is_ok());
}

#[test]
fn a_root_failure_comes_before_half_an_identity() {
    let (_, setup) = asked(paths(Some("/ca.pem"), Some("/c.pem"), None).build_client());
    assert_eq!(
        done(setup.resume(Err("gone".to_string()))).unwrap_err(),
        "SSL root certificate at /ca.pem could not be read: gone"
    );
    let (_, setup) = asked(paths(Some("/ca.pem"), Some("/c.pem"), None).build_client());
    assert_eq!(
        done(setup.resume(Ok(CERT.as_bytes().to_vec()))).unwrap_err(),
        "SSL client certificate needs a matching client key."
    );
}

#[test]
fn an_unreadable_identity_names_the_half() {
    let tls = paths(None, Some("/c.pem"), Some("/k.pem"));
    let (path, setup) = asked(tls.build_client());
    assert_eq!(path, "/c.pem");
    assert_eq!(
        done(setup.resume(Err("gone".to_string()))).unwrap_err(),
        "SSL client certificate at /c.pem could not be read: gone"
    );
    let (_, setup) = asked(tls.build_client());
    let (path, setup) = asked(setup.resume(Ok(CERT.as_bytes().to_vec())));
    assert_eq!(path, "/k.pem");
    assert_eq!(
        done(setup.resume(Err("gone".to_string()))).unwrap_err(),
        "SSL client key at /k.pem could not be read: gone"
    );
}

#[test]
fn an_identity_without_a_key_is_not_usable() {
    let (_, setup) = asked(paths(None, Some("/c.pem"), Some("/k.pem")).build_client());
    let (_, setup) = asked(setup.resume(Ok(CERT.as_bytes().to_vec())));
    assert_eq!(
        done(setup.resume(Ok(b"nothing".to_vec()))).unwrap_err(),
        "SSL client identity is not usable: builder error"
    );
    let (_, setup) = asked(paths(None, Some("/c.pem"), Some("/k.pem")).build_client());
    let (_, setup) = asked(setup.resume(Ok(vec![])));
    assert_eq!(
        done(setup.resume(Ok(key()))).unwrap_err(),
        "SSL client identity is not usable: builder error"
    );
}

#[test]
fn unchecked_certificates_need_no_file() {
    let tls = TlsConfig { accept_invalid_certs: true, ..TlsConfig::default() };
    assert!(done(tls.build_client()).is_ok());
    assert_eq!(tls.clone(), tls);
}

#[test]
fn a_file_that_was_read_is_handed_on() {
    assert_eq!(read_pem("/p", "Label", Ok(vec![1, 2])), Ok(vec![1, 2]));
    assert_eq!(
        read_pem("/p", "Label", Err("why".to_string())),
        Err("Label at /p could not be read: why".to_string())
    );
}

fn opened(step: OpeningStep) -> Result<QdrantConnection, (String, String)> {
    match step {
        OpeningStep::Read { path, .. } => panic!("the opening asks for {path}"),
        OpeningStep::Done(Ok(connection)) => Ok(connection),
        OpeningStep::Done(Err(Reply::Failure { code, message })) => Err((code, message)),
        OpeningStep::Done(Err(_)) => panic!("no failure"),
    }
}

fn wanted(step: OpeningStep) -> (String, Opening) {
    match step {
        OpeningStep::Read { path, opening } => (path, opening),
        OpeningStep::Done(_) => panic!("the opening ended"),
    }
}

fn mutual() -> QdrantConfig {
    let options = ProfileOptions {
        api_key: Some("s3cret".to_string()),
        root_cert: Some("/ca/s3cret.pem".to_string()),
        client_cert: Some("/c.pem".to_string()),
        client_key: Some("/k.pem".to_string()),
        ..ProfileOptions::default()
    };
    QdrantConfig::from_request(&options, vec!["s3cret".to_string()]).unwrap()
}

#[test]
fn opening_reads_the_files_and_keeps_the_configuration() {
    let (path, opening) = wanted(open(Ok(mutual())));
    assert_eq!(path, "/ca/s3cret.pem");
    let (path, opening) = wanted(opening.resume(Ok(CERT.as_bytes().to_vec())));
    assert_eq!(path, "/c.pem");
    let (path, opening) = wanted(opening.resume(Ok(CERT.as_bytes().to_vec())));
    assert_eq!(path, "/k.pem");
    match opened(opening.resume(Ok(key()))) {
        Ok(connection) => assert_eq!(connection.config, mutual()),
        Err((_, message)) => panic!("{message}"),
    }
}

#[test]
fn opening_without_files_ends_at_once() {
    let config = QdrantConfig::from_request(&ProfileOptions::default(), vec![]).unwrap();
    match opened(open(Ok(config.clone()))) {
        Ok(connection) => assert_eq!(connection.config, config),
        Err((_, message)) => panic!("{message}"),
    }
}

#[test]
fn a_refused_opening_is_redacted() {
    let (_, opening) = wanted(open(Ok(mutual())));
    assert_eq!(
        opened(opening.resume(Err("gone".to_string()))).err(),
        Some((
            "connector.invalidRequest".to_string(),
            "SSL root certificate at /ca/****.pem could not be read: gone".to_string()
        ))
    );
    assert_eq!(
        opened(open(Err("no profile".to_string()))).err(),
        Some(("connector.invalidRequest".to_string(), "no profile".to_string()))
    );
}

#[test]
fn every_certificate_of_a_bundle_is_added() {
    let (_, setup) = asked(paths(Some("/ca.pem"), None, None).build_client());
    let mut bytes = format!("{CERT}\n").into_bytes();
    bytes.extend(block("CERTIFICATE", "AAAA"));
    assert_eq!(
        done(setup.resume(Ok(bytes))).unwrap_err(),
        "TLS client setup failed: builder error"
    );
    let (_, setup) = asked(paths(Some("/ca.pem"), None, None).build_client());
    assert!(done(setup.resume(Ok(format!("{CERT}\n{CERT}\n").into_bytes()))).is_ok());
}
