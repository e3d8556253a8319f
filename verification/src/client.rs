//! The authenticated client: how a login ends, and which requests a client
//! that is logged in may make.

use crate::fetch::{EndpointQuery, FetchState, TransportFailure};
use crate::json::DecodeError;
use crate::model::auth::{
    auth_error_of, auth_response_of, AuthError, AuthErrorView, AuthResponse, AuthResponseView,
    AuthSuccessBody, AuthSuccessView,
};
use crate::model::season_results::{query_pairs, SeasonResultsQuery};
use crate::text::{bool_text, bool_to_string, decimal, pairs_text, u32_to_string};
use vstd::prelude::*;

verus! {

/// Where the credentials are posted.
pub const AUTH_URL: &'static str = "https://members-ng.iracing.com/auth";

/// Where the results of one subsession are asked for.
pub const SESSION_RESULTS_URL: &'static str = "https://members-ng.iracing.com/data/results/get";

/// Where the results of a season are asked for.
pub const SEASON_RESULTS_URL: &'static str =
    "https://members-ng.iracing.com/data/results/season_results";

/// Where the catalogue of cars is asked for.
pub const ALL_CARS_URL: &'static str = "https://members-ng.iracing.com/data/car/get";

/// Why a login did not give a client.
#[derive(Clone, Debug)]
pub enum ClientInitError {
    /// The service could not be reached, or the connection broke.
    ConnectionFailure(TransportFailure),
    /// The service answered, but not with a reply this client understands.
    ProtocolMismatch(DecodeError),
    /// The service answered that the login failed.
    AuthenticationFailure(AuthError),
}

/// The mathematical value of a [`ClientInitError`].
pub enum ClientInitErrorView {
    ConnectionFailure(TransportFailure),
    ProtocolMismatch(DecodeError),
    AuthenticationFailure(AuthErrorView),
}

impl View for ClientInitError {
    type V = ClientInitErrorView;

    open spec fn view(&self) -> ClientInitErrorView {
        match *self {
            ClientInitError::ConnectionFailure(failure) => ClientInitErrorView::ConnectionFailure(
                failure,
            ),
            ClientInitError::ProtocolMismatch(error) => ClientInitErrorView::ProtocolMismatch(
                error,
            ),
            ClientInitError::AuthenticationFailure(error) => {
                ClientInitErrorView::AuthenticationFailure(error@)
            },
        }
    }
}

impl ClientInitErrorView {
    /// The error in words.
    pub open spec fn text(self) -> Seq<char> {
        match self {
            ClientInitErrorView::ConnectionFailure(_) => "Connection failure"@,
            ClientInitErrorView::ProtocolMismatch(_) => "Unexpected response from iRacing"@,
            ClientInitErrorView::AuthenticationFailure(_) => "Authentication with iRacing failed"@,
        }
    }
}

impl ClientInitError {
    /// The error in words.
    pub fn to_string(&self) -> (r: String)
        ensures
            r@ == self@.text(),
    {
        match self {
            ClientInitError::ConnectionFailure(_) => "Connection failure".to_owned(),
            ClientInitError::ProtocolMismatch(_) => "Unexpected response from iRacing".to_owned(),
            ClientInitError::AuthenticationFailure(_) => {
                "Authentication with iRacing failed".to_owned()
            },
        }
    }
}

/// How a login ends once its reply was classified: a success reply gives the
/// session's data, a failure reply an authentication failure under the cause
/// that its message names, and a reply that could not be read a protocol
/// mismatch.
pub open spec fn login_result(response: Result<AuthResponseView, DecodeError>) -> Result<
    AuthSuccessView,
    ClientInitErrorView,
> {
    match response {
        Ok(AuthResponseView::Success(body)) => Ok(body),
        Ok(AuthResponseView::Failure(body)) => Err(
            ClientInitErrorView::AuthenticationFailure(auth_error_of(body)),
        ),
        Err(e) => Err(ClientInitErrorView::ProtocolMismatch(e)),
    }
}

/// How a login ends, given what came back for the posted credentials: a
/// request that got no answer is a connection failure, and an answer is
/// classified by its body.
pub open spec fn login_outcome(reply: Result<Vec<u8>, TransportFailure>) -> Result<
    AuthSuccessView,
    ClientInitErrorView,
> {
    match reply {
        Err(failure) => Err(ClientInitErrorView::ConnectionFailure(failure)),
        Ok(body) => login_result(auth_response_of(body@)),
    }
}

/// Whether exactly one of four statements holds.
pub open spec fn exactly_one(a: bool, b: bool, c: bool, d: bool) -> bool {
    ||| a && !b && !c && !d
    ||| !a && b && !c && !d
    ||| !a && !b && c && !d
    ||| !a && !b && !c && d
}

/// A login ends in exactly one of four ways, and the reply alone decides in
/// which: with the session's data where the reply is a success reply, with an
/// authentication failure where it is a failure reply, with a protocol
/// mismatch where it is neither, and with a connection failure where there
/// was no reply.
pub proof fn lemma_login_ends_in_exactly_one_way(reply: Result<Vec<u8>, TransportFailure>)
    ensures
        exactly_one(
            login_outcome(reply) is Ok,
            login_outcome(reply) is Err && login_outcome(reply)->Err_0 is AuthenticationFailure,
            login_outcome(reply) is Err && login_outcome(reply)->Err_0 is ProtocolMismatch,
            login_outcome(reply) is Err && login_outcome(reply)->Err_0 is ConnectionFailure,
        ),
        match reply {
            Err(failure) => login_outcome(reply) == Err::<AuthSuccessView, ClientInitErrorView>(
                ClientInitErrorView::ConnectionFailure(failure),
            ),
            Ok(body) => match auth_response_of(body@) {
                Ok(AuthResponseView::Success(auth)) => login_outcome(reply) == Ok::<
                    AuthSuccessView,
                    ClientInitErrorView,
                >(auth),
                Ok(AuthResponseView::Failure(failure)) => login_outcome(reply) == Err::<
                    AuthSuccessView,
                    ClientInitErrorView,
                >(ClientInitErrorView::AuthenticationFailure(auth_error_of(failure))),
                Err(e) => login_outcome(reply) == Err::<AuthSuccessView, ClientInitErrorView>(
                    ClientInitErrorView::ProtocolMismatch(e),
                ),
            },
        },
{
}

/// Whether `r` is the value that `expected` describes.
pub open spec fn login_is(
    r: Result<AuthSuccessBody, ClientInitError>,
    expected: Result<AuthSuccessView, ClientInitErrorView>,
) -> bool {
    match r {
        Ok(auth) => expected == Ok::<AuthSuccessView, ClientInitErrorView>(auth@),
        Err(e) => expected == Err::<AuthSuccessView, ClientInitErrorView>(e@),
    }
}

/// Decides how a login ends from its classified reply.
pub fn conclude_login(response: Result<AuthResponse, DecodeError>) -> (r: Result<
    AuthSuccessBody,
    ClientInitError,
>)
    ensures
        match response {
            Ok(response) => login_is(r, login_result(Ok(response@))),
            Err(e) => login_is(r, login_result(Err(e))),
        },
{
    match response {
        Ok(AuthResponse::Success(auth)) => Ok(auth),
        Ok(AuthResponse::Failure(body)) => Err(
            ClientInitError::AuthenticationFailure(AuthError::from_failure(body)),
        ),
        Err(e) => Err(ClientInitError::ProtocolMismatch(e)),
    }
}

/// Decides how a login ends from what came back for the posted credentials.
pub fn authenticate(reply: Result<Vec<u8>, TransportFailure>) -> (r: Result<
    AuthSuccessBody,
    ClientInitError,
>)
    ensures
        login_is(r, login_outcome(reply)),
{
    match reply {
        Err(failure) => Err(ClientInitError::ConnectionFailure(failure)),
        Ok(body) => conclude_login(AuthResponse::from_body(body.as_slice())),
    }
}

/// An authenticated iRacing API client.
///
/// `T` is the connection over which the login was made, which holds the
/// session's cookies. A client exists only after a login that succeeded, and
/// requests for data are made by a client only.
pub struct IracingApiClient<T> {
    transport: T,
    auth: AuthSuccessBody,
}

impl<T> IracingApiClient<T> {
    /// The connection that the client was made with.
    pub closed spec fn connection(self) -> T {
        self.transport
    }

    /// The data returned by iRacing after authentication.
    pub closed spec fn session(self) -> AuthSuccessBody {
        self.auth
    }

    /// Makes a client of the connection over which the credentials were
    /// posted and of what came back for them. The client is made if and only
    /// if the reply is a success reply; every other outcome is an error, and
    /// the connection is then dropped.
    pub fn new(transport: T, reply: Result<Vec<u8>, TransportFailure>) -> (r: Result<
        Self,
        ClientInitError,
    >)
        ensures
            match r {
                Ok(client) => client.connection() == transport && login_outcome(reply) == Ok::<
                    AuthSuccessView,
                    ClientInitErrorView,
                >(client.session()@),
                Err(e) => login_outcome(reply) == Err::<AuthSuccessView, ClientInitErrorView>(e@),
            },
    {
        match authenticate(reply) {
            Ok(auth) => Ok(IracingApiClient { transport, auth }),
            Err(e) => Err(e),
        }
    }

    /// The connection that the client was made with.
    pub fn transport(&self) -> (r: &T)
        ensures
            *r == self.connection(),
    {
        &self.transport
    }

    /// The data returned by iRacing after authentication
    pub fn auth(&self) -> (r: &AuthSuccessBody)
        ensures
            *r == self.session(),
    {
        &self.auth
    }

    /// Starts a fetch of the results of one subsession.
    pub fn session_results(&self, subsession_id: u32, include_licenses: bool) -> (r: FetchState)
        ensures
            r matches FetchState::Ready(query) && query.url@ == SESSION_RESULTS_URL@ && pairs_text(
                query.params@,
            ) == seq![
                ("subsession_id"@, decimal(subsession_id as nat)),
                ("include_licenses"@, bool_text(include_licenses)),
            ],
    {
        let mut params: Vec<(&'static str, String)> = Vec::new();
        params.push(("subsession_id", u32_to_string(subsession_id)));
        params.push(("include_licenses", bool_to_string(include_licenses)));
        proof {
            assert(pairs_text(params@) =~= seq![
                ("subsession_id"@, decimal(subsession_id as nat)),
                ("include_licenses"@, bool_text(include_licenses)),
            ]);
        }
        FetchState::Ready(EndpointQuery { url: SESSION_RESULTS_URL, params })
    }

    /// Starts a fetch of the results of a season.
    pub fn season_results(&self, query: SeasonResultsQuery) -> (r: FetchState)
        ensures
            r matches FetchState::Ready(endpoint) && endpoint.url@ == SEASON_RESULTS_URL@
                && pairs_text(endpoint.params@) == query_pairs(query.season(), query.filters()),
    {
        FetchState::Ready(
            EndpointQuery { url: SEASON_RESULTS_URL, params: query.as_query_params() },
        )
    }

    /// Starts a fetch of the catalogue of cars.
    pub fn all_cars(&self) -> (r: FetchState)
        ensures
            r matches FetchState::Ready(query) && query.url@ == ALL_CARS_URL@ && query.params@.len()
                == 0,
    {
        FetchState::Ready(EndpointQuery { url: ALL_CARS_URL, params: Vec::new() })
    }
}

} // verus!
