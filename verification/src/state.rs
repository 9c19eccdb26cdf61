//! State that every request handler shares.

use std::sync::Arc;

use vstd::prelude::*;

use crate::config::Config;
use crate::error::AppError;
use crate::router::fallback;
use crate::router::fallback::Plan;
use crate::upstream::shared;
use crate::upstream::shared::SharedPool;
use crate::upstream::snapshot::{PoolSnapshot, UpstreamScheme};

verus! {

/// How many idle connections to one upstream are kept.
pub const MAX_IDLE_PER_HOST: usize = 32;

/// `reqwest::Client`, carried through and never looked into.
#[verifier::external_type_specification]
#[verifier::external_body]
pub struct ExClient(reqwest::Client);

/// `reqwest::ClientBuilder`, carried through and never looked into.
#[verifier::external_type_specification]
#[verifier::external_body]
pub struct ExClientBuilder(reqwest::ClientBuilder);

/// `reqwest::Certificate`, carried through and never looked into.
#[verifier::external_type_specification]
#[verifier::external_body]
pub struct ExCertificate(reqwest::Certificate);

/// `reqwest::redirect::Policy`, carried through and never looked into.
#[verifier::external_type_specification]
#[verifier::external_body]
pub struct ExPolicy(reqwest::redirect::Policy);

/// The PEM text that a certificate holds.
pub uninterp spec fn certificate_pem(cert: reqwest::Certificate) -> Seq<u8>;

/// The PEM texts of the root certificates that a builder holds beside the
/// system's, in the order in which they were added.
pub uninterp spec fn builder_roots(builder: reqwest::ClientBuilder) -> Seq<Seq<u8>>;

/// How many idle connections to one host a builder's client is to keep.
pub uninterp spec fn builder_idle_limit(builder: reqwest::ClientBuilder) -> usize;

/// The PEM texts of the root certificates that a client was made to trust
/// beside the system's.
pub uninterp spec fn client_roots(client: reqwest::Client) -> Seq<Seq<u8>>;

/// How many idle connections to one host a client was made to keep.
pub uninterp spec fn client_idle_limit(client: reqwest::Client) -> usize;

/// Whether a redirect policy lets a client follow redirects at all.
pub uninterp spec fn follows_redirects(chosen: reqwest::redirect::Policy) -> bool;

/// Whether a builder's client is to follow redirects.
pub uninterp spec fn builder_follows_redirects(builder: reqwest::ClientBuilder) -> bool;

/// Whether a client was made to follow redirects. One that was not hands a
/// redirect back like any other response.
pub uninterp spec fn client_follows_redirects(client: reqwest::Client) -> bool;

/// `reqwest::Client::builder` starts a builder without root certificates of its
/// own and without a limit on idle connections, whose client follows redirects.
pub assume_specification[ reqwest::Client::builder ]() -> (builder: reqwest::ClientBuilder)
    ensures
        builder_roots(builder) == Seq::<Seq<u8>>::empty(),
        builder_idle_limit(builder) == usize::MAX,
        builder_follows_redirects(builder),
;

/// `redirect::Policy::none` makes the policy of following no redirect.
pub assume_specification[ reqwest::redirect::Policy::none ]() -> (chosen:
    reqwest::redirect::Policy)
    ensures
        !follows_redirects(chosen),
;

/// `ClientBuilder::redirect` sets the redirect policy and nothing else.
pub assume_specification[ reqwest::ClientBuilder::redirect ](
    builder: reqwest::ClientBuilder,
    chosen: reqwest::redirect::Policy,
) -> (redirecting: reqwest::ClientBuilder)
    ensures
        builder_follows_redirects(redirecting) == follows_redirects(chosen),
        builder_roots(redirecting) == builder_roots(builder),
        builder_idle_limit(redirecting) == builder_idle_limit(builder),
;

/// `ClientBuilder::pool_max_idle_per_host` sets the limit on idle connections
/// and nothing else.
pub assume_specification[ reqwest::ClientBuilder::pool_max_idle_per_host ](
    builder: reqwest::ClientBuilder,
    max: usize,
) -> (limited: reqwest::ClientBuilder)
    ensures
        builder_idle_limit(limited) == max,
        builder_roots(limited) == builder_roots(builder),
        builder_follows_redirects(limited) == builder_follows_redirects(builder),
;

/// `Certificate::from_pem` takes in a PEM text and holds it. Nothing is claimed
/// of when it succeeds: that depends on the TLS backend.
pub assume_specification[ reqwest::Certificate::from_pem ](pem: &[u8]) -> (loaded: Result<
    reqwest::Certificate,
    reqwest::Error,
>)
    ensures
        loaded matches Ok(cert) ==> certificate_pem(cert) == pem@,
;

/// `ClientBuilder::add_root_certificate` adds a certificate to trust and changes
/// nothing else.
pub assume_specification[ reqwest::ClientBuilder::add_root_certificate ](
    builder: reqwest::ClientBuilder,
    cert: reqwest::Certificate,
) -> (trusting: reqwest::ClientBuilder)
    ensures
        builder_roots(trusting) == builder_roots(builder).push(certificate_pem(cert)),
        builder_idle_limit(trusting) == builder_idle_limit(builder),
        builder_follows_redirects(trusting) == builder_follows_redirects(builder),
;

/// `ClientBuilder::build` makes a client with the builder's settings. Nothing is
/// claimed of when it succeeds: that depends on the TLS backend and on the
/// system's settings.
pub assume_specification[ reqwest::ClientBuilder::build ](
    builder: reqwest::ClientBuilder,
) -> (built: Result<reqwest::Client, reqwest::Error>)
    ensures
        built matches Ok(client) ==> client_roots(client) == builder_roots(builder),
        built matches Ok(client) ==> client_idle_limit(client) == builder_idle_limit(builder),
        built matches Ok(client) ==> client_follows_redirects(client) == builder_follows_redirects(
            builder,
        ),
;

/// `Client::clone` makes another handle of the same client.
pub assume_specification[ <reqwest::Client as Clone>::clone ](client: &reqwest::Client) -> (copy:
    reqwest::Client)
    ensures
        client_roots(copy) == client_roots(*client),
        client_idle_limit(copy) == client_idle_limit(*client),
        client_follows_redirects(copy) == client_follows_redirects(*client),
;

/// Why there is no HTTP client for upstream requests.
#[derive(Debug)]
pub enum StateError {
    /// The CA bundle was not accepted.
    CaBundle(reqwest::Error),
    /// The client could not be built.
    Client(reqwest::Error),
}

impl StateError {
    /// What the operator is told.
    pub open spec fn text(self) -> Seq<char> {
        match self {
            StateError::CaBundle(_) => "upstream CA bundle is not valid PEM"@,
            StateError::Client(_) => "building reqwest::Client"@,
        }
    }

    /// What the operator is told.
    pub fn message(&self) -> (message: &'static str)
        ensures
            message@ == self.text(),
    {
        match self {
            StateError::CaBundle(_) => "upstream CA bundle is not valid PEM",
            StateError::Client(_) => "building reqwest::Client",
        }
    }
}

/// State available to every request handler.
#[derive(Debug)]
pub struct AppState {
    /// The current snapshot of the upstream pools.
    pub pool: Arc<SharedPool>,
    /// Resolved runtime configuration.
    pub config: Arc<Config>,
    /// HTTP client for upstream requests.
    pub client: reqwest::Client,
}

/// The root certificates to trust beside the system's: the CA bundle, if there
/// is one.
pub open spec fn extra_roots(ca_pem: Option<Seq<u8>>) -> Seq<Seq<u8>> {
    match ca_pem {
        Some(pem) => seq![pem],
        None => Seq::empty(),
    }
}

/// The client keeps [`MAX_IDLE_PER_HOST`] idle connections to each upstream,
/// trusts the CA bundle, if there is one, and follows no redirect: a redirect
/// passes through like any other response.
pub open spec fn serves_upstreams(client: reqwest::Client, ca_pem: Option<Seq<u8>>) -> bool {
    &&& client_idle_limit(client) == MAX_IDLE_PER_HOST
    &&& client_roots(client) == extra_roots(ca_pem)
    &&& !client_follows_redirects(client)
}

/// The builder's client would serve upstreams.
pub open spec fn is_set_up(builder: reqwest::ClientBuilder, ca_pem: Option<Seq<u8>>) -> bool {
    &&& builder_idle_limit(builder) == MAX_IDLE_PER_HOST
    &&& builder_roots(builder) == extra_roots(ca_pem)
    &&& !builder_follows_redirects(builder)
}

/// The bytes of an optional text.
pub open spec fn bytes_view(bytes: Option<&[u8]>) -> Option<Seq<u8>> {
    match bytes {
        Some(b) => Some(b@),
        None => None,
    }
}

/// The settings of the HTTP client for upstream requests. `ca` is what came of
/// loading the CA bundle, if there is one.
///
/// # Errors
///
/// Returns [`StateError::CaBundle`] exactly when loading the bundle failed.
pub fn client_settings(ca: Option<Result<reqwest::Certificate, reqwest::Error>>) -> (settings:
    Result<reqwest::ClientBuilder, StateError>)
    ensures
        match ca {
            Some(Err(e)) => settings == Err::<reqwest::ClientBuilder, StateError>(
                StateError::CaBundle(e),
            ),
            Some(Ok(cert)) => settings matches Ok(builder) && is_set_up(
                builder,
                Some(certificate_pem(cert)),
            ),
            None => settings matches Ok(builder) && is_set_up(builder, None),
        },
{
    let no_redirects = reqwest::redirect::Policy::none();
    let builder = reqwest::Client::builder().pool_max_idle_per_host(MAX_IDLE_PER_HOST).redirect(
        no_redirects,
    );
    match ca {
        Some(Ok(cert)) => {
            let trusting = builder.add_root_certificate(cert);
            assert(builder_roots(trusting) =~= seq![certificate_pem(cert)]);
            Ok(trusting)
        },
        Some(Err(e)) => Err(StateError::CaBundle(e)),
        None => Ok(builder),
    }
}

/// What came of building the client.
///
/// # Errors
///
/// Returns [`StateError::Client`] exactly when building failed.
pub fn client_outcome(built: Result<reqwest::Client, reqwest::Error>) -> (client: Result<
    reqwest::Client,
    StateError,
>)
    ensures
        client == match built {
            Ok(c) => Ok::<reqwest::Client, StateError>(c),
            Err(e) => Err::<reqwest::Client, StateError>(StateError::Client(e)),
        },
{
    match built {
        Ok(c) => Ok(c),
        Err(e) => Err(StateError::Client(e)),
    }
}

/// Build the HTTP client for upstream requests. Whether the CA bundle is
/// accepted and the client can be built is not for the router to say.
fn upstream_client(ca_pem: Option<&[u8]>) -> (client: Result<reqwest::Client, StateError>)
    ensures
        match client {
            Ok(c) => serves_upstreams(c, bytes_view(ca_pem)),
            Err(StateError::CaBundle(_)) => ca_pem is Some,
            Err(StateError::Client(_)) => true,
        },
{
    let ca = match ca_pem {
        Some(pem) => Some(reqwest::Certificate::from_pem(pem)),
        None => None,
    };
    match client_settings(ca) {
        Ok(builder) => client_outcome(builder.build()),
        Err(e) => Err(e),
    }
}

impl Clone for AppState {
    fn clone(&self) -> (copy: Self)
        ensures
            copy.pool == self.pool,
            copy.config == self.config,
            client_roots(copy.client) == client_roots(self.client),
            client_idle_limit(copy.client) == client_idle_limit(self.client),
            client_follows_redirects(copy.client) == client_follows_redirects(self.client),
    {
        AppState {
            pool: self.pool.clone(),
            config: self.config.clone(),
            client: self.client.clone(),
        }
    }
}

impl AppState {
    /// Create a new [`AppState`] with pools that hold no upstreams and a fresh
    /// HTTP client. `ca_pem` is what the configured CA bundle holds.
    ///
    /// # Errors
    ///
    /// Returns an error if the CA bundle is not accepted, or if the client
    /// cannot be built.
    pub fn new(config: Config, ca_pem: Option<&[u8]>) -> (made: Result<Self, StateError>)
        ensures
            match made {
                Ok(state) => {
                    &&& *state.config == config
                    &&& serves_upstreams(state.client, bytes_view(ca_pem))
                    &&& shared::made_with(*state.pool).holds_nothing()
                },
                Err(StateError::CaBundle(_)) => ca_pem is Some,
                Err(StateError::Client(_)) => true,
            },
    {
        match upstream_client(ca_pem) {
            Ok(client) => Ok(AppState::with_client(config, client)),
            Err(e) => Err(e),
        }
    }

    /// Create a new [`AppState`] around an HTTP client, with pools that hold no
    /// upstreams.
    pub fn with_client(config: Config, client: reqwest::Client) -> (state: Self)
        ensures
            *state.config == config,
            state.client == client,
            shared::made_with(*state.pool).holds_nothing(),
    {
        AppState { pool: Arc::new(SharedPool::empty()), config: Arc::new(config), client }
    }

    /// Return the [`UpstreamScheme`] to use when contacting upstreams.
    #[must_use]
    pub fn upstream_scheme(&self) -> (scheme: UpstreamScheme)
        ensures
            scheme == if self.config.upstream_tls {
                UpstreamScheme::Https
            } else {
                UpstreamScheme::Http
            },
    {
        self.config.upstream_scheme()
    }

    /// Decide how to serve a request, by its path and the pools as they are
    /// now.
    ///
    /// # Errors
    ///
    /// Returns [`AppError::NoUpstreamAvailable`] when no upstream is routable.
    pub fn plan(&self, path_and_query: &str) -> (plan: Result<Plan, AppError>)
        ensures
            exists|snapshot: PoolSnapshot|
                #[trigger] snapshot.is_pure() && shared::was_held(*self.pool, snapshot)
                    && fallback::is_planned(
                    path_and_query@,
                    *self.config,
                    snapshot,
                    plan,
                ),
    {
        let snapshot = self.pool.current();
        let plan = fallback::route(path_and_query, &self.config, &snapshot);
        assert((*snapshot).is_pure());
        plan
    }
}

/// A client that serves upstreams trusts the CA bundle and no other certificate
/// beside the system's, keeps up to 32 idle connections to one host, and hands
/// redirects back; the builder of such a client is set up just so.
pub proof fn clients_for_upstreams(
    client: reqwest::Client,
    builder: reqwest::ClientBuilder,
    pem: Seq<u8>,
)
    ensures
        serves_upstreams(client, Some(pem)) <==> client_roots(client) == seq![pem]
            && client_idle_limit(client) == 32 && !client_follows_redirects(client),
        serves_upstreams(client, None) <==> client_roots(client) == Seq::<Seq<u8>>::empty()
            && client_idle_limit(client) == 32 && !client_follows_redirects(client),
        is_set_up(builder, Some(pem)) <==> builder_roots(builder) == seq![pem]
            && builder_idle_limit(builder) == 32 && !builder_follows_redirects(builder),
        is_set_up(builder, None) <==> builder_roots(builder) == Seq::<Seq<u8>>::empty()
            && builder_idle_limit(builder) == 32 && !builder_follows_redirects(builder),
{
}

/// The bundle's bytes are taken as they are, and what went wrong is told by its
/// kind.
pub proof fn bundles_and_their_errors(pem: &[u8], e: reqwest::Error)
    ensures
        bytes_view(Some(pem)) == Some(pem@),
        bytes_view(None) is None,
        StateError::CaBundle(e).text() == "upstream CA bundle is not valid PEM"@,
        StateError::Client(e).text() == "building reqwest::Client"@,
{
}

}
