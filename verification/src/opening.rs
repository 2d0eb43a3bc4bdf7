//! Opening a connection: from a configuration to a client that honours it.
//!
//! The configuration travels with the client in the making, so that the
//! connection that comes out talks by the configuration its client was built
//! for.

use vstd::prelude::*;

use crate::config::{ConfigView, QdrantConfig};
use crate::connection::{ConnectionView, QdrantConnection};
use crate::driver;
use crate::driver::Reply;
use crate::tls;
use crate::tls::{ClientSetup, SetupStep, SetupView, StepView};

verus! {

impl ConnectionView {
    /// Whether the client is what the connection's own configuration asks for.
    pub open spec fn honours_its_configuration(self) -> bool {
        self.config.tls.honoured_by(self.settings)
    }
}

/// A connection in the making, waiting for the bytes of a file.
pub struct Opening {
    config: QdrantConfig,
    setup: ClientSetup,
}

/// The content of an [`Opening`].
#[verifier::ext_equal]
pub struct OpeningView {
    pub config: ConfigView,
    pub setup: SetupView,
}

/// What opening a connection asks for next, or how it ended.
pub enum OpeningStep {
    /// The file at `path` is to be read, and `opening` resumed with its bytes.
    Read { path: String, opening: Opening },
    Done(Result<QdrantConnection, Reply>),
}

impl OpeningStep {
    /// Whether this is the refusal of an opening whose client could not be had,
    /// for `reason`.
    pub open spec fn refuses(self, config: ConfigView, reason: Seq<char>) -> bool {
        self matches OpeningStep::Done(Err(reply)) && reply@ == driver::redacted_failure(
            config,
            "connector.invalidRequest"@,
            reason,
        )
    }

    /// Whether this is the step of an opening whose client comes to `expected`.
    pub open spec fn comes_to(self, config: ConfigView, expected: StepView) -> bool {
        match expected {
            StepView::Read(setup) => {
                self matches OpeningStep::Read { path, opening } && path@ == setup.path
                    && opening@ == (OpeningView { config, setup })
            },
            StepView::Fails(message) => self.refuses(config, message),
            StepView::Builds { settings, opening } => {
                ||| self matches OpeningStep::Done(Ok(connection)) && connection@ == (
                ConnectionView { settings, config })
                ||| self.refuses(config, opening + "builder error"@)
            },
        }
    }
}

fn concluded(config: QdrantConfig, step: SetupStep) -> (result: OpeningStep)
    requires
        step matches SetupStep::Read { setup, .. } ==> setup@.tls == config@.tls,
    ensures
        forall|expected: StepView| #[trigger]
            step.comes_to(expected) ==> result.comes_to(config@, expected),
        match step {
            SetupStep::Read { setup, .. } => result matches OpeningStep::Read { opening, .. }
                && opening@ == (OpeningView { config: config@, setup: setup@ }),
            SetupStep::Done(Ok(client)) => result matches OpeningStep::Done(Ok(connection))
                && connection@ == (ConnectionView {
                settings: tls::client_tls(client),
                config: config@,
            }),
            SetupStep::Done(Err(_)) => result matches OpeningStep::Done(Err(_)),
        },
{
    match step {
        SetupStep::Read { path, setup } => OpeningStep::Read {
            path,
            opening: Opening { config, setup },
        },
        SetupStep::Done(client) => OpeningStep::Done(driver::open_connection(config, client)),
    }
}

/// Starts opening a connection, or refuses where there is no configuration to
/// open it by.
pub fn open(config: Result<QdrantConfig, String>) -> (step: OpeningStep)
    ensures
        match config {
            Err(reason) => step matches OpeningStep::Done(Err(reply)) && reply@
                == driver::invalid_request(reason@),
            Ok(config) => {
                &&& step.comes_to(config@, tls::first_step(config@.tls))
                &&& step matches OpeningStep::Done(Ok(connection)) ==> connection@.config
                    == config@ && connection@.honours_its_configuration()
                &&& step matches OpeningStep::Read { opening, .. } ==> opening@.config == config@
                    && opening@.setup.tls == config@.tls
            },
        },
{
    match config {
        Err(reason) => OpeningStep::Done(
            Err(driver::failure("connector.invalidRequest", reason.as_str())),
        ),
        Ok(config) => {
            let step = config.tls.build_client();
            concluded(config, step)
        },
    }
}

impl Opening {
    /// The content of this opening.
    pub closed spec fn view(&self) -> OpeningView {
        OpeningView { config: self.config@, setup: self.setup@ }
    }

    #[verifier::type_invariant]
    spec fn inv(self) -> bool {
        self.setup@.tls == self.config@.tls
    }

    /// Goes on with the bytes of the awaited file, or with the reason why it
    /// could not be read.
    ///
    /// A connection that comes out talks by the configuration that was opened,
    /// and its client honours that configuration.
    pub fn resume(self, read: Result<Vec<u8>, String>) -> (step: OpeningStep)
        ensures
            step.comes_to(self@.config, tls::next_step(self@.setup, tls::read_view(read))),
            step matches OpeningStep::Done(Ok(connection)) ==> connection@.config == self@.config
                && connection@.honours_its_configuration(),
            step matches OpeningStep::Read { opening, .. } ==> opening@.config == self@.config
                && opening@.setup.tls == self@.config.tls && opening@.setup.files_left()
                < self@.setup.files_left(),
    {
        proof {
            use_type_invariant(&self);
        }
        let Opening { config, setup } = self;
        concluded(config, setup.resume(read))
    }
}

/// Whatever the files hold, a connection that opening a configuration ends with
/// has a client that honours that configuration.
pub proof fn opened_connection_honours_its_configuration(
    config: ConfigView,
    files: spec_fn(Seq<char>) -> Result<Seq<u8>, Seq<char>>,
    step: OpeningStep,
)
    requires
        step.comes_to(config, tls::last_step(tls::first_step(config.tls), files)),
    ensures
        step matches OpeningStep::Done(Ok(connection)) ==> connection@.config == config
            && connection@.honours_its_configuration(),
{
    tls::built_client_honours_configuration(config.tls, files);
}

/// Without a configuration nothing is opened, and the reason is told as it is.
pub proof fn opening_without_configuration_is_refused(
    config: Result<QdrantConfig, String>,
    step: OpeningStep,
)
    requires
        call_ensures(open, (config,), step),
        config is Err,
    ensures
        step matches OpeningStep::Done(Err(reply)) && driver::fails_as(
            reply,
            "connector.invalidRequest"@,
            config->Err_0@,
        ),
{
}

/// An opening asks for the file that the setup of its client waits for, tells a
/// client that could not be had as an invalid request with the reason redacted,
/// and ends with a connection of exactly the settings asked for and the
/// configuration opened.
pub proof fn opening_follows_the_setup(config: ConfigView, step: OpeningStep, expected: StepView)
    requires
        step.comes_to(config, expected),
    ensures
        expected matches StepView::Read(setup) ==> {
            &&& step matches OpeningStep::Read { path, opening }
            &&& path@ == setup.path
            &&& opening@.config == config
            &&& opening@.setup == setup
        },
        expected matches StepView::Fails(message) ==> (step matches OpeningStep::Done(Err(reply))
            && driver::fails_as(reply, "connector.invalidRequest"@, config.redacted(message))),
        expected matches StepView::Builds { settings, opening } ==> (match step {
            OpeningStep::Done(Ok(connection)) => connection@.settings == settings
                && connection@.config == config,
            OpeningStep::Done(Err(reply)) => driver::fails_as(
                reply,
                "connector.invalidRequest"@,
                config.redacted(opening + "builder error"@),
            ),
            OpeningStep::Read { .. } => false,
        }),
{
}

}
