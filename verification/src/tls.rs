//! Transport security: what a profile asks for, and the HTTP client that
//! honours it.
//!
//! Building a client reads up to three files. The library does not read them:
//! it says which file it needs next ([`SetupStep::Read`]), and is resumed with
//! the bytes.

use vstd::prelude::*;

use crate::options::ProfileOptions;
use crate::text;

verus! {

/// The HTTP client of `reqwest`.
#[verifier::external_type_specification]
#[verifier::external_body]
pub struct ExClient(reqwest::Client);

/// The builder of an HTTP client.
#[verifier::external_type_specification]
#[verifier::external_body]
pub struct ExClientBuilder(reqwest::ClientBuilder);

/// A trusted certificate.
#[verifier::external_type_specification]
#[verifier::external_body]
pub struct ExCertificate(reqwest::Certificate);

/// A client certificate with its key.
#[verifier::external_type_specification]
#[verifier::external_body]
pub struct ExIdentity(reqwest::Identity);

/// The error of `reqwest`.
#[verifier::external_type_specification]
#[verifier::external_body]
pub struct ExHttpError(reqwest::Error);

/// The TLS settings of a client: the root certificates trusted besides the
/// built-in ones, the identity shown to the server, and whether certificates
/// are accepted unchecked.
#[verifier::ext_equal]
pub struct TlsSettings {
    pub roots: Seq<reqwest::Certificate>,
    pub identity: Option<reqwest::Identity>,
    pub accept_invalid_certs: bool,
}

/// The TLS settings that a builder holds.
pub uninterp spec fn builder_tls(builder: reqwest::ClientBuilder) -> TlsSettings;

/// The TLS settings that a client was built with.
pub uninterp spec fn client_tls(client: reqwest::Client) -> TlsSettings;

/// The certificates that `reqwest::Certificate::from_pem_bundle` reads from a
/// file's bytes, or nothing where it fails.
pub uninterp spec fn pem_bundle(pem: Seq<u8>) -> Option<Seq<reqwest::Certificate>>;

/// The identity that `reqwest::Identity::from_pem` reads from a file's bytes, or
/// nothing where it fails.
pub uninterp spec fn pem_identity(pem: Seq<u8>) -> Option<reqwest::Identity>;

/// The message that a `reqwest::Error` displays.
pub uninterp spec fn http_error_text(error: reqwest::Error) -> Seq<char>;

/// The settings of a builder that nothing was asked of.
pub open spec fn default_tls() -> TlsSettings {
    TlsSettings { roots: Seq::empty(), identity: None, accept_invalid_certs: false }
}

/// `reqwest::Client::builder`: a builder with no certificate added, no identity,
/// and certificates checked.
pub assume_specification[ reqwest::Client::builder ]() -> (builder: reqwest::ClientBuilder)
    ensures
        builder_tls(builder) == default_tls(),
;

/// `reqwest::ClientBuilder::add_root_certificate` adds one trusted certificate.
pub assume_specification[ reqwest::ClientBuilder::add_root_certificate ](
    builder: reqwest::ClientBuilder,
    cert: reqwest::Certificate,
) -> (result: reqwest::ClientBuilder)
    ensures
        builder_tls(result) == (TlsSettings {
            roots: builder_tls(builder).roots.push(cert),
            ..builder_tls(builder)
        }),
;

/// `reqwest::ClientBuilder::identity` sets the identity.
pub assume_specification[ reqwest::ClientBuilder::identity ](
    builder: reqwest::ClientBuilder,
    identity: reqwest::Identity,
) -> (result: reqwest::ClientBuilder)
    ensures
        builder_tls(result) == (TlsSettings { identity: Some(identity), ..builder_tls(builder) }),
;

/// `reqwest::ClientBuilder::danger_accept_invalid_certs` sets whether
/// certificates are accepted unchecked.
pub assume_specification[ reqwest::ClientBuilder::danger_accept_invalid_certs ](
    builder: reqwest::ClientBuilder,
    accept_invalid_certs: bool,
) -> (result: reqwest::ClientBuilder)
    ensures
        builder_tls(result) == (TlsSettings { accept_invalid_certs, ..builder_tls(builder) }),
;

/// `reqwest::ClientBuilder::build`: a client with the builder's settings, or an
/// error of the kind that displays as `builder error`. Whether it succeeds is
/// left open: that rests on the certificates' contents and on the TLS backend.
#[verifier::external_body]
fn build(builder: reqwest::ClientBuilder) -> (result: Result<reqwest::Client, reqwest::Error>)
    ensures
        match result {
            Ok(client) => client_tls(client) == builder_tls(builder),
            Err(error) => http_error_text(error) == "builder error"@,
        },
{
    builder.build()
}

/// `reqwest::Certificate::from_pem_bundle`: the certificates of the PEM blocks
/// in `pem`, none where there is no block, or an error of the kind that displays
/// as `builder error`.
#[verifier::external_body]
fn read_bundle(pem: &Vec<u8>) -> (result: Result<Vec<reqwest::Certificate>, reqwest::Error>)
    ensures
        match result {
            Ok(certificates) => pem_bundle(pem@) == Some(certificates@),
            Err(error) => pem_bundle(pem@) is None && http_error_text(error) == "builder error"@,
        },
{
    reqwest::Certificate::from_pem_bundle(pem)
}

/// `reqwest::Identity::from_pem`: the identity made of the certificates and the
/// private key in `pem`, or an error of the kind that displays as
/// `builder error`.
#[verifier::external_body]
fn read_identity(pem: &Vec<u8>) -> (result: Result<reqwest::Identity, reqwest::Error>)
    ensures
        match result {
            Ok(identity) => pem_identity(pem@) == Some(identity),
            Err(error) => pem_identity(pem@) is None && http_error_text(error)
                == "builder error"@,
        },
{
    reqwest::Identity::from_pem(pem)
}

/// The `Display` of a `reqwest::Error`: its message.
#[verifier::external_body]
fn error_message(error: &reqwest::Error) -> (message: String)
    ensures
        message@ == http_error_text(*error),
{
    error.to_string()
}

/// Transport security, as a profile sets it.
///
/// Paths, never key material: profiles persist in the clear, so they carry a
/// path, and the file is read when the connection is made.
#[derive(Debug, PartialEq, Eq)]
pub struct TlsConfig {
    pub root_cert_path: Option<String>,
    pub client_cert_path: Option<String>,
    pub client_key_path: Option<String>,
    pub accept_invalid_certs: bool,
}

/// The content of a [`TlsConfig`].
#[verifier::ext_equal]
pub struct TlsView {
    pub root_cert_path: Option<Seq<char>>,
    pub client_cert_path: Option<Seq<char>>,
    pub client_key_path: Option<Seq<char>>,
    pub accept_invalid_certs: bool,
}

impl TlsView {
    /// Whether nothing is configured.
    pub open spec fn is_plain(self) -> bool {
        &&& self.root_cert_path is None
        &&& self.client_cert_path is None
        &&& self.client_key_path is None
        &&& !self.accept_invalid_certs
    }

    /// What a client's settings must be to honour this configuration: root
    /// certificates were added exactly if a file with some is named; both halves
    /// of an identity are named or neither is, and the client shows an identity
    /// exactly if they are; and certificates go unchecked exactly if that was
    /// asked for.
    pub open spec fn honoured_by(self, settings: TlsSettings) -> bool {
        &&& self.root_cert_path is Some <==> settings.roots.len() > 0
        &&& self.client_cert_path is Some <==> self.client_key_path is Some
        &&& self.client_cert_path is Some <==> settings.identity is Some
        &&& self.accept_invalid_certs == settings.accept_invalid_certs
    }
}

/// Whether an option's text asks for certificates to go unchecked.
pub open spec fn is_affirmative(value: Seq<char>) -> bool {
    let word = text::trimmed(value);
    ||| word == "1"@
    ||| word == "true"@
    ||| word == "yes"@
}

fn affirmative(value: &str) -> (result: bool)
    ensures
        result == is_affirmative(value@),
{
    let word = text::trim(value);
    text::same(word, "1") || text::same(word, "true") || text::same(word, "yes")
}

/// The transport security that a profile's options set.
pub open spec fn transport(options: &ProfileOptions) -> TlsView {
    TlsView {
        root_cert_path: text::optional(options.root_cert),
        client_cert_path: text::optional(options.client_cert),
        client_key_path: text::optional(options.client_key),
        accept_invalid_certs: match options.insecure {
            Some(value) => is_affirmative(value@),
            None => false,
        },
    }
}

impl Default for TlsConfig {
    /// Nothing configured.
    fn default() -> (tls: TlsConfig)
        ensures
            tls@.is_plain(),
    {
        TlsConfig {
            root_cert_path: None,
            client_cert_path: None,
            client_key_path: None,
            accept_invalid_certs: false,
        }
    }
}

impl Clone for TlsConfig {
    fn clone(&self) -> (copy: TlsConfig)
        ensures
            copy@ == self@,
    {
        TlsConfig {
            root_cert_path: text::copy_of(&self.root_cert_path),
            client_cert_path: text::copy_of(&self.client_cert_path),
            client_key_path: text::copy_of(&self.client_key_path),
            accept_invalid_certs: self.accept_invalid_certs,
        }
    }
}

impl TlsConfig {
    /// The content of this configuration.
    pub open spec fn view(&self) -> TlsView {
        TlsView {
            root_cert_path: text::optional(self.root_cert_path),
            client_cert_path: text::optional(self.client_cert_path),
            client_key_path: text::optional(self.client_key_path),
            accept_invalid_certs: self.accept_invalid_certs,
        }
    }

    /// The transport security that a profile's options set.
    pub fn from_request(options: &ProfileOptions) -> (tls: TlsConfig)
        ensures
            tls@ == transport(options),
    {
        TlsConfig {
            root_cert_path: text::copy_of(&options.root_cert),
            client_cert_path: text::copy_of(&options.client_cert),
            client_key_path: text::copy_of(&options.client_key),
            accept_invalid_certs: match &options.insecure {
                Some(value) => affirmative(value.as_str()),
                None => false,
            },
        }
    }
}

/// The file whose bytes a [`ClientSetup`] waits for.
enum Awaited {
    RootCert,
    /// The certificate, with the path of the key that comes after it.
    ClientCert(String),
    /// The key, with the bytes of the certificate that came before it.
    ClientKey(Vec<u8>),
}

/// The content of the awaited file's kind.
pub enum AwaitedView {
    RootCert,
    ClientCert,
    ClientKey(Seq<u8>),
}

/// A client in the making, waiting for the bytes of a file.
pub struct ClientSetup {
    tls: TlsConfig,
    builder: reqwest::ClientBuilder,
    awaited: Awaited,
    path: String,
}

/// The content of a [`ClientSetup`]: the configuration, the settings gathered so
/// far, which file is awaited, and its path.
#[verifier::ext_equal]
pub struct SetupView {
    pub tls: TlsView,
    pub settings: TlsSettings,
    pub awaited: AwaitedView,
    pub path: Seq<char>,
}

impl SetupView {
    /// How many files are left to read at most, the awaited one included.
    pub open spec fn files_left(self) -> nat {
        match self.awaited {
            AwaitedView::RootCert => 3,
            AwaitedView::ClientCert => 2,
            AwaitedView::ClientKey(_) => 1,
        }
    }

    /// What holds of every setup: the awaited file is the one that the
    /// configuration names, and the root certificates, if any are named, are in
    /// before the identity is looked at.
    pub open spec fn well_formed(self) -> bool {
        &&& self.settings.identity is None
        &&& !self.settings.accept_invalid_certs
        &&& match self.awaited {
            AwaitedView::RootCert => {
                &&& self.tls.root_cert_path == Some(self.path)
                &&& self.settings.roots.len() == 0
            },
            AwaitedView::ClientCert => {
                &&& self.tls.root_cert_path is Some <==> self.settings.roots.len() > 0
                &&& self.tls.client_cert_path == Some(self.path)
                &&& self.tls.client_key_path is Some
            },
            AwaitedView::ClientKey(_) => {
                &&& self.tls.root_cert_path is Some <==> self.settings.roots.len() > 0
                &&& self.tls.client_cert_path is Some
                &&& self.tls.client_key_path == Some(self.path)
            },
        }
    }
}

/// What building a client asks for next, or how it ended.
pub enum SetupStep {
    /// The file at `path` is to be read, and `setup` resumed with its bytes.
    Read { path: String, setup: ClientSetup },
    Done(Result<reqwest::Client, String>),
}

/// What a step comes to.
#[verifier::ext_equal]
pub enum StepView {
    /// The file that this setup waits for is to be read.
    Read(SetupView),
    /// The setup ends with this message.
    Fails(Seq<char>),
    /// A client with these settings is built. Where that fails, the setup ends
    /// with the builder's error behind `opening`.
    Builds { settings: TlsSettings, opening: Seq<char> },
}

impl StepView {
    /// How many files are left to read at most.
    pub open spec fn files_left(self) -> nat {
        match self {
            StepView::Read(setup) => setup.files_left(),
            _ => 0,
        }
    }
}

impl SetupStep {
    /// Whether this is a step that comes to `expected`.
    pub open spec fn comes_to(self, expected: StepView) -> bool {
        match expected {
            StepView::Read(setup) => {
                self matches SetupStep::Read { path, setup: found } && path@ == setup.path
                    && found@ == setup
            },
            StepView::Fails(message) => {
                self matches SetupStep::Done(Err(found)) && found@ == message
            },
            StepView::Builds { settings, opening } => match self {
                SetupStep::Done(Ok(client)) => client_tls(client) == settings,
                SetupStep::Done(Err(message)) => message@ == opening + "builder error"@,
                SetupStep::Read { .. } => false,
            },
        }
    }
}

/// The step of a configuration whose identity, if it names one, is in
/// `settings`: the client is built.
pub open spec fn step_after_identity(tls: TlsView, settings: TlsSettings) -> StepView {
    StepView::Builds {
        settings: TlsSettings { accept_invalid_certs: tls.accept_invalid_certs, ..settings },
        opening: "TLS client setup failed: "@,
    }
}

/// The step of a configuration whose root certificates, if it names some, are in
/// `settings`: the identity is next, half an identity is refused, and without
/// one the client is built.
pub open spec fn step_after_roots(tls: TlsView, settings: TlsSettings) -> StepView {
    match (tls.client_cert_path, tls.client_key_path) {
        (Some(path), Some(_)) => StepView::Read(
            SetupView { tls, settings, awaited: AwaitedView::ClientCert, path },
        ),
        (Some(_), None) => StepView::Fails(
            "SSL client certificate needs a matching client key."@,
        ),
        (None, Some(_)) => StepView::Fails(
            "SSL client key needs a matching client certificate."@,
        ),
        (None, None) => step_after_identity(tls, settings),
    }
}

/// The step that building a client starts with.
pub open spec fn first_step(tls: TlsView) -> StepView {
    if tls.is_plain() {
        StepView::Builds { settings: default_tls(), opening: "HTTP client setup failed: "@ }
    } else {
        match tls.root_cert_path {
            Some(path) => StepView::Read(
                SetupView {
                    tls,
                    settings: default_tls(),
                    awaited: AwaitedView::RootCert,
                    path,
                },
            ),
            None => step_after_roots(tls, default_tls()),
        }
    }
}

/// The step after the awaited file was read, or could not be.
pub open spec fn next_step(setup: SetupView, read: Result<Seq<u8>, Seq<char>>) -> StepView {
    match (setup.awaited, read) {
        (AwaitedView::RootCert, Err(reason)) => StepView::Fails(
            read_failure("SSL root certificate"@, setup.path, reason),
        ),
        (AwaitedView::RootCert, Ok(pem)) => match pem_bundle(pem) {
            None => StepView::Fails(
                "SSL root certificate at "@ + setup.path + " is not valid PEM: "@
                    + "builder error"@,
            ),
            Some(bundle) => if bundle.len() == 0 {
                StepView::Fails(
                    "SSL root certificate at "@ + setup.path + " contains no PEM certificate."@,
                )
            } else {
                step_after_roots(setup.tls, TlsSettings { roots: bundle, ..setup.settings })
            },
        },
        (AwaitedView::ClientCert, Err(reason)) => StepView::Fails(
            read_failure("SSL client certificate"@, setup.path, reason),
        ),
        (AwaitedView::ClientCert, Ok(pem)) => StepView::Read(
            SetupView {
                awaited: AwaitedView::ClientKey(pem),
                path: setup.tls.client_key_path->0,
                ..setup
            },
        ),
        (AwaitedView::ClientKey(_), Err(reason)) => StepView::Fails(
            read_failure("SSL client key"@, setup.path, reason),
        ),
        (AwaitedView::ClientKey(cert), Ok(key)) => match pem_identity(joined_pem(cert, key)) {
            None => StepView::Fails("SSL client identity is not usable: "@ + "builder error"@),
            Some(identity) => step_after_identity(
                setup.tls,
                TlsSettings { identity: Some(identity), ..setup.settings },
            ),
        },
    }
}

/// The bytes of a file, or the reason why it could not be read.
pub open spec fn read_view(read: Result<Vec<u8>, String>) -> Result<Seq<u8>, Seq<char>> {
    match read {
        Ok(bytes) => Ok(bytes@),
        Err(reason) => Err(reason@),
    }
}

/// The message for a file that could not be read.
pub open spec fn read_failure(label: Seq<char>, path: Seq<char>, reason: Seq<char>) -> Seq<char> {
    label + " at "@ + path + " could not be read: "@ + reason
}

/// A certificate and a key as one PEM text, the key on a line of its own.
pub open spec fn joined_pem(cert: Seq<u8>, key: Seq<u8>) -> Seq<u8> {
    if cert.len() > 0 && cert.last() == 0x0a {
        cert + key
    } else {
        cert.push(0x0a) + key
    }
}

/// The bytes of a file, or the message that names the file and what it is for.
pub fn read_pem(path: &str, label: &str, read: Result<Vec<u8>, String>) -> (result: Result<
    Vec<u8>,
    String,
>)
    ensures
        match (read, result) {
            (Ok(bytes), Ok(pem)) => pem == bytes,
            (Err(reason), Err(message)) => message@ == read_failure(label@, path@, reason@),
            _ => false,
        },
{
    match read {
        Ok(bytes) => Ok(bytes),
        Err(reason) => {
            let mut message = label.to_owned();
            message.append(" at ");
            message.append(path);
            message.append(" could not be read: ");
            message.append(reason.as_str());
            Err(message)
        },
    }
}

fn concluded(builder: reqwest::ClientBuilder, opening: &str) -> (step: SetupStep)
    ensures
        step.comes_to(
            StepView::Builds { settings: builder_tls(builder), opening: opening@ },
        ),
{
    match build(builder) {
        Ok(client) => SetupStep::Done(Ok(client)),
        Err(error) => {
            let mut message = opening.to_owned();
            message.append(error_message(&error).as_str());
            SetupStep::Done(Err(message))
        },
    }
}

/// The builder that trusts the certificates of a bundle too.
fn trusting(
    builder: reqwest::ClientBuilder,
    bundle: Vec<reqwest::Certificate>,
) -> (result: reqwest::ClientBuilder)
    ensures
        builder_tls(result) == (TlsSettings {
            roots: builder_tls(builder).roots + bundle@,
            ..builder_tls(builder)
        }),
{
    let ghost settings = builder_tls(builder);
    let mut builder = builder;
    assert(settings.roots + bundle@.take(0) =~= settings.roots);
    for certificate in it: bundle
        invariant
            it.seq() == bundle@,
            builder_tls(builder) == (TlsSettings {
                roots: settings.roots + bundle@.take(it.index() as int),
                ..settings
            }),
    {
        builder = builder.add_root_certificate(certificate);
        assert(builder_tls(builder).roots =~= settings.roots + bundle@.take(it.index() + 1));
    }
    assert(bundle@.take(bundle@.len() as int) =~= bundle@);
    builder
}

/// The builder that checks certificates, or leaves them unchecked, as the
/// configuration asks.
fn checked(tls: &TlsConfig, builder: reqwest::ClientBuilder) -> (result: reqwest::ClientBuilder)
    requires
        !builder_tls(builder).accept_invalid_certs,
    ensures
        builder_tls(result) == (TlsSettings {
            accept_invalid_certs: tls@.accept_invalid_certs,
            ..builder_tls(builder)
        }),
{
    if tls.accept_invalid_certs {
        builder.danger_accept_invalid_certs(true)
    } else {
        builder
    }
}

fn after_identity(tls: &TlsConfig, builder: reqwest::ClientBuilder) -> (step: SetupStep)
    requires
        !builder_tls(builder).accept_invalid_certs,
    ensures
        step.comes_to(step_after_identity(tls@, builder_tls(builder))),
{
    concluded(checked(tls, builder), "TLS client setup failed: ")
}

fn after_roots(tls: TlsConfig, builder: reqwest::ClientBuilder) -> (step: SetupStep)
    requires
        builder_tls(builder).identity is None,
        !builder_tls(builder).accept_invalid_certs,
        tls@.root_cert_path is Some <==> builder_tls(builder).roots.len() > 0,
    ensures
        step.comes_to(step_after_roots(tls@, builder_tls(builder))),
{
    match (&tls.client_cert_path, &tls.client_key_path) {
        (Some(cert_path), Some(key_path)) => {
            let path = cert_path.clone();
            let setup = ClientSetup {
                tls: tls.clone(),
                builder,
                awaited: Awaited::ClientCert(key_path.clone()),
                path: cert_path.clone(),
            };
            SetupStep::Read { path, setup }
        },
        (Some(_), None) => SetupStep::Done(
            Err("SSL client certificate needs a matching client key.".to_owned()),
        ),
        (None, Some(_)) => SetupStep::Done(
            Err("SSL client key needs a matching client certificate.".to_owned()),
        ),
        (None, None) => after_identity(&tls, builder),
    }
}

impl TlsConfig {
    /// Starts building a client that honours this configuration.
    ///
    /// Where nothing is configured the default client is built, so that a plain
    /// `http://` endpoint needs nothing else.
    pub fn build_client(&self) -> (step: SetupStep)
        ensures
            step.comes_to(first_step(self@)),
            step matches SetupStep::Done(Ok(client)) ==> self@.honoured_by(client_tls(client)),
            step matches SetupStep::Read { setup, .. } ==> setup@.well_formed() && setup@.tls
                == self@,
    {
        if self.root_cert_path.is_none() && self.client_cert_path.is_none()
            && self.client_key_path.is_none() && !self.accept_invalid_certs {
            return concluded(reqwest::Client::builder(), "HTTP client setup failed: ");
        }
        let builder = reqwest::Client::builder();
        match &self.root_cert_path {
            Some(path) => {
                let setup = ClientSetup {
                    tls: self.clone(),
                    builder,
                    awaited: Awaited::RootCert,
                    path: path.clone(),
                };
                SetupStep::Read { path: path.clone(), setup }
            },
            None => after_roots(self.clone(), builder),
        }
    }
}

impl ClientSetup {
    /// The content of this setup.
    pub closed spec fn view(&self) -> SetupView {
        SetupView {
            tls: self.tls@,
            settings: builder_tls(self.builder),
            awaited: match self.awaited {
                Awaited::RootCert => AwaitedView::RootCert,
                Awaited::ClientCert(_) => AwaitedView::ClientCert,
                Awaited::ClientKey(cert) => AwaitedView::ClientKey(cert@),
            },
            path: self.path@,
        }
    }

    #[verifier::type_invariant]
    spec fn inv(self) -> bool {
        &&& self@.well_formed()
        &&& self.awaited matches Awaited::ClientCert(key_path) ==> self@.tls.client_key_path
            == Some(key_path@)
    }

    /// Goes on with the bytes of the awaited file, or with the reason why it
    /// could not be read.
    ///
    /// A root certificate file without a PEM block is refused: to add nothing
    /// and carry on would verify the server against something other than the
    /// certificates that were named.
    pub fn resume(self, read: Result<Vec<u8>, String>) -> (step: SetupStep)
        ensures
            step.comes_to(next_step(self@, read_view(read))),
            step matches SetupStep::Done(Ok(client)) ==> self@.tls.honoured_by(client_tls(client)),
            step matches SetupStep::Read { setup, .. } ==> setup@.well_formed() && setup@.tls
                == self@.tls && setup@.files_left() < self@.files_left(),
    {
        proof {
            use_type_invariant(&self);
        }
        let ClientSetup { tls, builder, awaited, path } = self;
        match awaited {
            Awaited::RootCert => {
                let pem = match read_pem(path.as_str(), "SSL root certificate", read) {
                    Ok(pem) => pem,
                    Err(message) => return SetupStep::Done(Err(message)),
                };
                let bundle = match read_bundle(&pem) {
                    Ok(bundle) => bundle,
                    Err(error) => {
                        let mut message = "SSL root certificate at ".to_owned();
                        message.append(path.as_str());
                        message.append(" is not valid PEM: ");
                        message.append(error_message(&error).as_str());
                        return SetupStep::Done(Err(message));
                    },
                };
                if bundle.len() == 0 {
                    let mut message = "SSL root certificate at ".to_owned();
                    message.append(path.as_str());
                    message.append(" contains no PEM certificate.");
                    return SetupStep::Done(Err(message));
                }
                assert(builder_tls(builder).roots + bundle@ =~= bundle@);
                after_roots(tls, trusting(builder, bundle))
            },
            Awaited::ClientCert(key_path) => {
                let pem = match read_pem(path.as_str(), "SSL client certificate", read) {
                    Ok(pem) => pem,
                    Err(message) => return SetupStep::Done(Err(message)),
                };
                let path = key_path.clone();
                let setup = ClientSetup {
                    tls,
                    builder,
                    awaited: Awaited::ClientKey(pem),
                    path: key_path,
                };
                SetupStep::Read { path, setup }
            },
            Awaited::ClientKey(cert) => {
                let key = match read_pem(path.as_str(), "SSL client key", read) {
                    Ok(key) => key,
                    Err(message) => return SetupStep::Done(Err(message)),
                };
                let mut pem = cert;
                if pem.len() == 0 || pem[pem.len() - 1] != 0x0a {
                    pem.push(0x0a);
                }
                let mut key = key;
                let ghost expected = joined_pem(cert@, key@);
                pem.append(&mut key);
                assert(pem@ =~= expected);
                match read_identity(&pem) {
                    Ok(identity) => after_identity(&tls, builder.identity(identity)),
                    Err(error) => {
                        let mut message = "SSL client identity is not usable: ".to_owned();
                        message.append(error_message(&error).as_str());
                        SetupStep::Done(Err(message))
                    },
                }
            },
        }
    }
}

/// Where a setup ends if every file it asks for holds what `files` says.
pub open spec fn last_step(
    step: StepView,
    files: spec_fn(Seq<char>) -> Result<Seq<u8>, Seq<char>>,
) -> StepView
    decreases step.files_left(),
{
    match step {
        StepView::Read(setup) => last_step(next_step(setup, files(setup.path)), files),
        _ => step,
    }
}

/// The root certificates that a configuration adds, or why there are none.
pub open spec fn configured_roots(
    tls: TlsView,
    files: spec_fn(Seq<char>) -> Result<Seq<u8>, Seq<char>>,
) -> Result<Seq<reqwest::Certificate>, Seq<char>> {
    match tls.root_cert_path {
        None => Ok(Seq::empty()),
        Some(path) => match files(path) {
            Err(reason) => Err(read_failure("SSL root certificate"@, path, reason)),
            Ok(pem) => match pem_bundle(pem) {
                None => Err(
                    "SSL root certificate at "@ + path + " is not valid PEM: "@
                        + "builder error"@,
                ),
                Some(bundle) => if bundle.len() == 0 {
                    Err("SSL root certificate at "@ + path + " contains no PEM certificate."@)
                } else {
                    Ok(bundle)
                },
            },
        },
    }
}

/// The identity that a configuration shows, if it names one, or why it cannot.
pub open spec fn configured_identity(
    tls: TlsView,
    files: spec_fn(Seq<char>) -> Result<Seq<u8>, Seq<char>>,
) -> Result<Option<reqwest::Identity>, Seq<char>> {
    match (tls.client_cert_path, tls.client_key_path) {
        (None, None) => Ok(None),
        (Some(_), None) => Err("SSL client certificate needs a matching client key."@),
        (None, Some(_)) => Err("SSL client key needs a matching client certificate."@),
        (Some(cert_path), Some(key_path)) => match (files(cert_path), files(key_path)) {
            (Err(reason), _) => Err(read_failure("SSL client certificate"@, cert_path, reason)),
            (_, Err(reason)) => Err(read_failure("SSL client key"@, key_path, reason)),
            (Ok(cert), Ok(key)) => match pem_identity(joined_pem(cert, key)) {
                None => Err("SSL client identity is not usable: "@ + "builder error"@),
                Some(identity) => Ok(Some(identity)),
            },
        },
    }
}

/// Whatever the files hold, a setup ends, and how it ends is decided by the
/// configuration and the files it names: with the first thing that is wrong, the
/// root certificates looked at before the identity, or with a client that has
/// exactly the root certificates, the identity and the checks asked for.
pub proof fn setup_ends_as_configured(
    tls: TlsView,
    files: spec_fn(Seq<char>) -> Result<Seq<u8>, Seq<char>>,
)
    ensures
        last_step(first_step(tls), files) == (if tls.is_plain() {
            first_step(tls)
        } else {
            match (configured_roots(tls, files), configured_identity(tls, files)) {
                (Err(message), _) => StepView::Fails(message),
                (_, Err(message)) => StepView::Fails(message),
                (Ok(roots), Ok(identity)) => StepView::Builds {
                    settings: TlsSettings {
                        roots,
                        identity,
                        accept_invalid_certs: tls.accept_invalid_certs,
                    },
                    opening: "TLS client setup failed: "@,
                },
            }
        }),
{
    reveal_with_fuel(last_step, 4);
}

/// A client that a setup ends with honours the configuration that the setup
/// started from, whatever the files hold.
pub proof fn built_client_honours_configuration(
    tls: TlsView,
    files: spec_fn(Seq<char>) -> Result<Seq<u8>, Seq<char>>,
)
    ensures
        last_step(first_step(tls), files) matches StepView::Builds { settings, .. }
            ==> tls.honoured_by(settings),
{
    setup_ends_as_configured(tls, files);
}

/// In a joined PEM text the certificate comes first, unchanged, and the key
/// starts on a line of its own.
pub proof fn key_starts_its_own_line(cert: Seq<u8>, key: Seq<u8>)
    ensures
        ({
            let joined = joined_pem(cert, key);
            let start = joined.len() - key.len();
            &&& cert.len() <= start <= cert.len() + 1
            &&& start > 0
            &&& joined.take(cert.len() as int) == cert
            &&& joined[start - 1] == 0x0a
            &&& joined.skip(start) == key
        }),
{
    let joined = joined_pem(cert, key);
    let start = joined.len() - key.len();
    assert(joined.take(cert.len() as int) =~= cert);
    assert(joined.skip(start) =~= key);
}

/// Each path of a profile is taken as it is, whatever the other options are, and
/// without an option on the checks certificates are checked.
pub proof fn paths_are_taken_as_they_are(options: &ProfileOptions, tls: TlsConfig)
    requires
        call_ensures(TlsConfig::from_request, (options,), tls),
    ensures
        options.root_cert is Some <==> tls.root_cert_path is Some,
        options.root_cert matches Some(path) ==> tls.root_cert_path->0@ == path@,
        options.client_cert is Some <==> tls.client_cert_path is Some,
        options.client_cert matches Some(path) ==> tls.client_cert_path->0@ == path@,
        options.client_key is Some <==> tls.client_key_path is Some,
        options.client_key matches Some(path) ==> tls.client_key_path->0@ == path@,
        options.insecure is None ==> !tls.accept_invalid_certs,
{
}

/// Certificates go unchecked exactly if the option, without the white space around
/// it, is one of three words.
pub proof fn only_three_words_switch_checks_off(
    options: &ProfileOptions,
    tls: TlsConfig,
    before: Seq<char>,
    word: Seq<char>,
    after: Seq<char>,
)
    requires
        call_ensures(TlsConfig::from_request, (options,), tls),
        options.insecure matches Some(value) && value@ == before + word + after,
        text::blank(before),
        text::blank(after),
        word.len() > 0 ==> !text::is_white_space(word[0]) && !text::is_white_space(word.last()),
    ensures
        tls.accept_invalid_certs <==> (word == seq!['1'] || word == seq!['t', 'r', 'u', 'e'] || word
            == seq!['y', 'e', 's']),
{
    reveal_strlit("1");
    reveal_strlit("true");
    reveal_strlit("yes");
    text::trimming_leaves_the_core(before, word, after);
    assert("1"@ =~= seq!['1']);
    assert("true"@ =~= seq!['t', 'r', 'u', 'e']);
    assert("yes"@ =~= seq!['y', 'e', 's']);
}

/// A file that was read is handed on as it is, and one that was not is told with
/// what it is for, its path and the reason.
pub proof fn unread_file_is_told(
    path: &str,
    label: &str,
    read: Result<Vec<u8>, String>,
    result: Result<Vec<u8>, String>,
)
    requires
        call_ensures(read_pem, (path, label, read), result),
    ensures
        read matches Ok(bytes) ==> (result matches Ok(pem) && pem@ == bytes@),
        read matches Err(reason) ==> (result matches Err(message) && message@ == label@ + " at "@
            + path@ + " could not be read: "@ + reason@),
{
}

/// Whether a step ends the setup with the message `message`.
pub open spec fn ends_with(step: SetupStep, message: Seq<char>) -> bool {
    step matches SetupStep::Done(Err(found)) && found@ == message
}

/// Whether a step ends the setup, with a client of exactly these settings or with
/// the builder's error.
pub open spec fn ends_with_client(
    step: SetupStep,
    roots: Seq<reqwest::Certificate>,
    identity: Option<reqwest::Identity>,
    accept_invalid_certs: bool,
) -> bool {
    match step {
        SetupStep::Done(Ok(client)) => {
            &&& client_tls(client).roots == roots
            &&& client_tls(client).identity == identity
            &&& client_tls(client).accept_invalid_certs == accept_invalid_certs
        },
        SetupStep::Done(Err(message)) => message@ == "TLS client setup failed: "@
            + "builder error"@,
        SetupStep::Read { .. } => false,
    }
}

/// Whether a step is what a configuration asks for once these root certificates
/// are trusted: the certificate of its identity is read next, half an identity is
/// refused, and without one the client is built.
pub open spec fn turns_to_identity(
    step: SetupStep,
    tls: TlsView,
    roots: Seq<reqwest::Certificate>,
) -> bool {
    &&& tls.client_cert_path is Some && tls.client_key_path is Some ==> {
        &&& step matches SetupStep::Read { path, setup }
        &&& path@ == tls.client_cert_path->0
        &&& setup@.path == tls.client_cert_path->0
        &&& setup@.awaited is ClientCert
        &&& setup@.tls == tls
        &&& setup@.settings.roots == roots
    }
    &&& tls.client_cert_path is Some && tls.client_key_path is None ==> ends_with(
        step,
        "SSL client certificate needs a matching client key."@,
    )
    &&& tls.client_cert_path is None && tls.client_key_path is Some ==> ends_with(
        step,
        "SSL client key needs a matching client certificate."@,
    )
    &&& tls.client_cert_path is None && tls.client_key_path is None ==> ends_with_client(
        step,
        roots,
        None,
        tls.accept_invalid_certs,
    )
}

/// Building starts with the root certificate file where one is named, and else
/// with the identity; where nothing is configured the default client is built, and
/// its failure is told as one of the HTTP client.
pub proof fn building_starts_as_configured(tls: &TlsConfig, step: SetupStep)
    requires
        call_ensures(TlsConfig::build_client, (tls,), step),
    ensures
        tls.root_cert_path matches Some(root) ==> {
            &&& step matches SetupStep::Read { path, setup }
            &&& path@ == root@
            &&& setup@.path == root@
            &&& setup@.awaited is RootCert
            &&& setup@.tls == tls@
        },
        tls.root_cert_path is None && tls.client_cert_path is None && tls.client_key_path is None
            && !tls.accept_invalid_certs ==> (match step {
            SetupStep::Done(Ok(client)) => {
                &&& client_tls(client).roots.len() == 0
                &&& client_tls(client).identity is None
                &&& !client_tls(client).accept_invalid_certs
            },
            SetupStep::Done(Err(message)) => message@ == "HTTP client setup failed: "@
                + "builder error"@,
            SetupStep::Read { .. } => false,
        }),
        tls.root_cert_path is None && (tls.client_cert_path is Some || tls.client_key_path is Some
            || tls.accept_invalid_certs) ==> turns_to_identity(step, tls@, Seq::empty()),
{
}

/// The content of a configuration is what its fields say.
pub proof fn configuration_says_what_its_fields_say(tls: TlsConfig)
    ensures
        tls.root_cert_path is Some <==> tls@.root_cert_path is Some,
        tls.root_cert_path matches Some(path) ==> tls@.root_cert_path == Some(path@),
        tls.client_cert_path is Some <==> tls@.client_cert_path is Some,
        tls.client_cert_path matches Some(path) ==> tls@.client_cert_path == Some(path@),
        tls.client_key_path is Some <==> tls@.client_key_path is Some,
        tls.client_key_path matches Some(path) ==> tls@.client_key_path == Some(path@),
        tls@.accept_invalid_certs == tls.accept_invalid_certs,
{
}

/// A root certificate file that cannot be read, is no valid PEM or holds no
/// certificate is refused by its path; else exactly its certificates are trusted,
/// and the identity is next.
pub proof fn root_file_decides_what_is_trusted(
    setup: ClientSetup,
    read: Result<Vec<u8>, String>,
    step: SetupStep,
)
    requires
        call_ensures(ClientSetup::resume, (setup, read), step),
        setup@.awaited is RootCert,
    ensures
        read matches Err(reason) ==> ends_with(
            step,
            "SSL root certificate"@ + " at "@ + setup@.path + " could not be read: "@ + reason@,
        ),
        read matches Ok(pem) ==> (pem_bundle(pem@) is None ==> ends_with(
            step,
            "SSL root certificate at "@ + setup@.path + " is not valid PEM: "@ + "builder error"@,
        )),
        read matches Ok(pem) ==> (pem_bundle(pem@) matches Some(bundle) ==> bundle.len() == 0
            ==> ends_with(
            step,
            "SSL root certificate at "@ + setup@.path + " contains no PEM certificate."@,
        )),
        read matches Ok(pem) ==> (pem_bundle(pem@) matches Some(bundle) ==> bundle.len() > 0
            ==> setup@.well_formed() ==> turns_to_identity(step, setup@.tls, bundle)),
{
}

/// The certificate file of an identity is kept as it was read, and the key file is
/// next; nothing else changes.
pub proof fn certificate_file_is_kept_for_the_key(
    setup: ClientSetup,
    read: Result<Vec<u8>, String>,
    step: SetupStep,
)
    requires
        call_ensures(ClientSetup::resume, (setup, read), step),
        setup@.awaited is ClientCert,
    ensures
        read matches Err(reason) ==> ends_with(
            step,
            "SSL client certificate"@ + " at "@ + setup@.path + " could not be read: "@ + reason@,
        ),
        read matches Ok(pem) ==> {
            &&& step matches SetupStep::Read { path, setup: next }
            &&& next@.awaited == AwaitedView::ClientKey(pem@)
            &&& next@.path == path@
            &&& setup@.tls.client_key_path matches Some(key_path) ==> path@ == key_path
            &&& next@.tls == setup@.tls
            &&& next@.settings == setup@.settings
        },
{
}

/// The key file completes the identity: the certificate's bytes, a line end where
/// they have none, and the key's bytes are read as one text, and the client built
/// shows exactly the identity read.
pub proof fn key_file_completes_the_identity(
    setup: ClientSetup,
    read: Result<Vec<u8>, String>,
    step: SetupStep,
    cert: Seq<u8>,
)
    requires
        call_ensures(ClientSetup::resume, (setup, read), step),
        setup@.awaited == AwaitedView::ClientKey(cert),
    ensures
        read matches Err(reason) ==> ends_with(
            step,
            "SSL client key"@ + " at "@ + setup@.path + " could not be read: "@ + reason@,
        ),
        read matches Ok(key) ==> {
            let joined = if cert.len() > 0 && cert[cert.len() - 1] == 10 {
                cert + key@
            } else {
                cert + seq![10u8] + key@
            };
            &&& pem_identity(joined) is None ==> ends_with(
                step,
                "SSL client identity is not usable: "@ + "builder error"@,
            )
            &&& pem_identity(joined) matches Some(identity) ==> ends_with_client(
                step,
                setup@.settings.roots,
                Some(identity),
                setup@.tls.accept_invalid_certs,
            )
        },
{
    if let Ok(key) = read {
        assert(cert.push(0x0a) =~= cert + seq![10u8]);
    }
}

/// A configuration with half an identity never gets a client, whatever the files
/// hold, and neither does one whose named root file yields no certificate.
pub proof fn incomplete_configuration_gets_no_client(
    tls: TlsView,
    files: spec_fn(Seq<char>) -> Result<Seq<u8>, Seq<char>>,
)
    ensures
        tls.client_cert_path is Some && tls.client_key_path is None ==> last_step(
            first_step(tls),
            files,
        ) is Fails,
        tls.client_cert_path is None && tls.client_key_path is Some ==> last_step(
            first_step(tls),
            files,
        ) is Fails,
        tls.root_cert_path matches Some(path) ==> (files(path) is Err ==> last_step(
            first_step(tls),
            files,
        ) is Fails),
        tls.root_cert_path matches Some(path) ==> (files(path) matches Ok(pem) ==> ((pem_bundle(pem)
            matches Some(bundle) ==> bundle.len() == 0) ==> last_step(first_step(tls), files)
            is Fails)),
{
    setup_ends_as_configured(tls, files);
}

/// What a setup ends with rests on the named files alone: files that a
/// configuration does not name make no difference.
pub proof fn other_files_make_no_difference(
    tls: TlsView,
    files: spec_fn(Seq<char>) -> Result<Seq<u8>, Seq<char>>,
    others: spec_fn(Seq<char>) -> Result<Seq<u8>, Seq<char>>,
)
    requires
        tls.root_cert_path matches Some(path) ==> files(path) == others(path),
        tls.client_cert_path matches Some(path) ==> files(path) == others(path),
        tls.client_key_path matches Some(path) ==> files(path) == others(path),
    ensures
        last_step(first_step(tls), files) == last_step(first_step(tls), others),
{
    setup_ends_as_configured(tls, files);
    setup_ends_as_configured(tls, others);
}

}
