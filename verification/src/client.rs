//! The client: a base URL and the credentials of the session, and the one
//! function through which every request is built.

use crate::api::auth::{Login, Logout, RefreshToken};
use crate::common::{
    Descriptor, DescriptorView, Endpoint, Method, PayloadKind, Request, RequestView,
};
use crate::errors::{Errors, ErrorsView, HttpError, HttpErrorView};
use crate::location::{
    join_absolute, joined_url, parse_absolute, parsed_url, set_query, with_query,
};
use crate::reply::{answer, payload, read_reply, reply_view, Reply};
use crate::schema::auth::{
    check_token_response, login_response, refresh_token_response, AuthTokens, AuthTokensView,
    CheckTokenResponse, CheckTokenResponseView, LoginResponse, LoginResponseView,
    RefreshTokenResponse, RefreshTokenResponseView,
};
use crate::schema::common::{no_data, NoData};
use crate::text::optional_text;
use vstd::prelude::*;

verus! {

/// The client used to talk to the API.
#[derive(Clone, Debug)]
pub struct Client {
    base_url: String,
    tokens: Option<AuthTokens>,
}

/// The value of a [`Client`].
pub struct ClientView {
    /// The base URL, in its normal form.
    pub base_url: Seq<char>,
    /// The stored credentials.
    pub tokens: Option<AuthTokensView>,
}

/// The value of optional tokens.
pub open spec fn optional_tokens(tokens: Option<AuthTokens>) -> Option<AuthTokensView> {
    match tokens {
        Some(tokens) => Some(tokens@),
        None => None,
    }
}

impl View for Client {
    type V = ClientView;

    closed spec fn view(&self) -> ClientView {
        ClientView { base_url: self.base_url@, tokens: optional_tokens(self.tokens) }
    }
}

/// The URL of a call: its path resolved against `base`, with the payload
/// as the query where the call sends one there. `None` where the `url`
/// crate rejects a step.
pub open spec fn resolved_url(base: Seq<char>, call: DescriptorView, payload: Option<Seq<char>>)
    -> Option<Seq<char>> {
    match joined_url(base, call.path) {
        None => None,
        Some(url) => match payload {
            Some(query) if call.payload == PayloadKind::Query => with_query(url, query),
            _ => Some(url),
        },
    }
}

/// The request that a client with the given base URL and tokens builds for
/// a call and its serialized payload, or the error that it stops with.
///
/// The URL is resolved first. A call that requires authentication is then
/// refused where there are no tokens; where there are tokens, the session
/// token goes with every request.
pub open spec fn prepared(
    base: Seq<char>,
    tokens: Option<AuthTokensView>,
    call: DescriptorView,
    payload: Option<Seq<char>>,
) -> Result<RequestView, ErrorsView> {
    match resolved_url(base, call, payload) {
        None => Err(ErrorsView::ParseUrl),
        Some(url) => match tokens {
            None if call.require_auth => Err(ErrorsView::MissingTokens),
            _ => Ok(
                RequestView {
                    method: call.method,
                    url,
                    body: if call.payload == PayloadKind::Body {
                        payload
                    } else {
                        None
                    },
                    multipart: call.multipart,
                    bearer: match tokens {
                        Some(tokens) => Some(tokens.session),
                        None => None,
                    },
                },
            ),
        },
    }
}

/// The request of a liveness check: a plain `GET` of `/ping`, without
/// credentials.
pub open spec fn ping_request(base: Seq<char>) -> Result<RequestView, ErrorsView> {
    match joined_url(base, "/ping"@) {
        Some(url) => Ok(
            RequestView { method: Method::Get, url, body: None, multipart: None, bearer: None },
        ),
        None => Err(ErrorsView::ParseUrl),
    }
}

/// The outcome of a liveness check that came back as `reply`: the server
/// is alive where the body is exactly `pong`.
pub open spec fn ping_outcome(reply: Reply) -> Result<(), ErrorsView> {
    match reply {
        Err(cause) => Err(ErrorsView::Http(cause)),
        Ok(body) => if body == "pong"@ {
            Ok(())
        } else {
            Err(ErrorsView::PingError)
        },
    }
}

/// The request that a client builds for a call that it makes only with
/// credentials: without tokens it asks for them before anything else.
pub open spec fn authorized(
    base: Seq<char>,
    tokens: Option<AuthTokensView>,
    call: DescriptorView,
    payload: Option<Seq<char>>,
) -> Result<RequestView, ErrorsView> {
    match tokens {
        None => Err(ErrorsView::MissingTokens),
        Some(_) => prepared(base, tokens, call, payload),
    }
}

/// The request that a client builds for a call that it makes without
/// credentials, whether it holds tokens or not.
pub open spec fn anonymous(base: Seq<char>, call: DescriptorView, payload: Option<Seq<char>>)
    -> Result<RequestView, ErrorsView> {
    prepared(base, None, call, payload)
}

/// The description of a refresh.
pub open spec fn refresh_call() -> DescriptorView {
    crate::common::plain_call(
        Method::Post,
        "/auth/refresh"@,
        false,
        PayloadKind::Body,
        crate::common::Shape::Single,
    )
}

/// Whether `r` is the outcome `expected`, value for value.
pub open spec fn request_is(r: Result<Request, Errors>, expected: Result<RequestView, ErrorsView>)
    -> bool {
    match r {
        Ok(request) => expected == Ok::<RequestView, ErrorsView>(request@),
        Err(error) => expected == Err::<RequestView, ErrorsView>(error@),
    }
}

/// The request for a call whose body could not be written: the error that
/// building the request stops with, else the encoding failure.
pub open spec fn unwritten(
    base: Seq<char>,
    tokens: Option<AuthTokensView>,
    call: DescriptorView,
) -> Result<RequestView, ErrorsView> {
    match prepared(base, tokens, call, None) {
        Ok(_) => Err(ErrorsView::Http(HttpErrorView::Encode)),
        Err(error) => Err(error),
    }
}

/// The request for a call that sends `body`, where `None` stands for a
/// body that could not be written.
pub open spec fn prepared_with_body(
    base: Seq<char>,
    tokens: Option<AuthTokensView>,
    call: DescriptorView,
    body: Option<Seq<char>>,
) -> Result<RequestView, ErrorsView> {
    match body {
        Some(body) => prepared(base, tokens, call, Some(body)),
        None => unwritten(base, tokens, call),
    }
}

/// The answer to a login that came back as `reply`.
pub open spec fn login_answer(reply: Reply) -> Result<LoginResponseView, ErrorsView> {
    answer(reply, |json: crate::json::JsonView| login_response(json))
}

/// The answer to a logout that came back as `reply`.
pub open spec fn logout_answer(reply: Reply) -> Result<NoData, ErrorsView> {
    answer(reply, |json: crate::json::JsonView| no_data(json))
}

/// The answer to a check of the session that came back as `reply`.
pub open spec fn check_answer(reply: Reply) -> Result<CheckTokenResponseView, ErrorsView> {
    answer(reply, |json: crate::json::JsonView| check_token_response(json))
}

/// The answer to a refresh that came back as `reply`.
pub open spec fn refresh_answer(reply: Reply) -> Result<RefreshTokenResponseView, ErrorsView> {
    answer(reply, |json: crate::json::JsonView| refresh_token_response(json))
}

/// The client after the reply to a login: it holds the tokens of a
/// successful answer, and is unchanged after any other.
pub open spec fn after_login(client: ClientView, reply: Reply) -> ClientView {
    match login_answer(reply) {
        Ok(response) => ClientView { base_url: client.base_url, tokens: Some(response.tokens) },
        Err(_) => client,
    }
}

/// The client after the reply to a logout: it holds no tokens after a
/// successful answer, and is unchanged after any other.
pub open spec fn after_logout(client: ClientView, reply: Reply) -> ClientView {
    match logout_answer(reply) {
        Ok(_) => ClientView { base_url: client.base_url, tokens: None },
        Err(_) => client,
    }
}

/// The client after the reply to a refresh: it holds the tokens of a
/// successful answer, and is unchanged after any other.
pub open spec fn after_refresh(client: ClientView, reply: Reply) -> ClientView {
    match refresh_answer(reply) {
        Ok(response) => ClientView { base_url: client.base_url, tokens: Some(response.tokens) },
        Err(_) => client,
    }
}

/// The value of optional tokens that are borrowed.
pub open spec fn borrowed_tokens(tokens: Option<&AuthTokens>) -> Option<AuthTokensView> {
    match tokens {
        Some(tokens) => Some(tokens@),
        None => None,
    }
}

/// Builds the request for a call from the base URL `base` with `tokens`.
fn build(base: &str, tokens: Option<&AuthTokens>, call: Descriptor, payload: Option<String>) -> (r:
    Result<Request, Errors>)
    ensures
        request_is(r, prepared(base@, borrowed_tokens(tokens), call@, optional_text(payload))),
{
    let joined = match join_absolute(base, call.path.as_str()) {
        Ok(url) => url,
        Err(error) => {
            return Err(Errors::ParseUrl(error));
        },
    };
    let (url, body) = match call.payload {
        PayloadKind::Query => match payload {
            Some(query) => match set_query(joined.as_str(), query.as_str()) {
                Ok(url) => (url, None),
                Err(error) => {
                    return Err(Errors::ParseUrl(error));
                },
            },
            None => (joined, None),
        },
        PayloadKind::Body => (joined, payload),
        PayloadKind::NoData => (joined, None),
    };
    let bearer = match tokens {
        Some(tokens) => Some(tokens.session.clone()),
        None => {
            if call.require_auth {
                return Err(Errors::MissingTokens);
            }
            None
        },
    };
    Ok(Request { method: call.method, url, body, multipart: call.multipart, bearer })
}

impl Default for Client {
    /// A client for the public API, without credentials.
    fn default() -> (client: Client)
        ensures
            client@.base_url == "https://api.mangadex.org/"@,
            client@.tokens is None,
    {
        Client { base_url: "https://api.mangadex.org/".to_owned(), tokens: None }
    }
}

impl Client {
    /// Creates a client for the API at `base_url`, without credentials.
    ///
    /// Fails with [`Errors::ParseUrl`] exactly where `base_url` is no
    /// absolute URL.
    pub fn new(base_url: &str) -> (r: Result<Client, Errors>)
        ensures
            match r {
                Ok(client) => parsed_url(base_url@) == Some(client@.base_url)
                    && client@.tokens is None,
                Err(error) => parsed_url(base_url@) is None && error@ == ErrorsView::ParseUrl,
            },
    {
        match parse_absolute(base_url) {
            Ok(base_url) => Ok(Client { base_url, tokens: None }),
            Err(error) => Err(Errors::ParseUrl(error)),
        }
    }

    /// The base URL, in its normal form.
    pub fn base_url(&self) -> (url: &str)
        ensures
            url@ == self@.base_url,
    {
        self.base_url.as_str()
    }

    /// Get the tokens used for authentication.
    pub fn get_tokens(&self) -> (tokens: Option<&AuthTokens>)
        ensures
            match tokens {
                Some(tokens) => self@.tokens == Some(tokens@),
                None => self@.tokens is None,
            },
    {
        self.tokens.as_ref()
    }

    /// Set the tokens used for authentication.
    pub fn set_tokens(&mut self, tokens: Option<AuthTokens>)
        ensures
            final(self)@.tokens == optional_tokens(tokens),
            final(self)@.base_url == old(self)@.base_url,
    {
        self.tokens = tokens;
    }

    /// The stored tokens, or [`Errors::MissingTokens`] where there are none.
    pub fn require_tokens(&self) -> (r: Result<&AuthTokens, Errors>)
        ensures
            match r {
                Ok(tokens) => self@.tokens == Some(tokens@),
                Err(error) => self@.tokens is None && error@ == ErrorsView::MissingTokens,
            },
    {
        match &self.tokens {
            Some(tokens) => Ok(tokens),
            None => Err(Errors::MissingTokens),
        }
    }

    /// Builds the request of a login with `username` and `password`.
    pub fn login(&self, username: &str, password: &str) -> (r: Result<Request, Errors>)
        ensures
            request_is(
                r,
                prepared_with_body(
                    self@.base_url,
                    self@.tokens,
                    (Login { username, password }).call(),
                    (Login { username, password }).body_text(),
                ),
            ),
    {
        let endpoint = Login { username, password };
        self.request_with_body(&endpoint, endpoint.body())
    }

    /// Takes the reply to a login: on success the client stores the tokens
    /// of the answer, which are handed back; on any failure the client is
    /// left as it was.
    pub fn complete_login(&mut self, reply: Result<String, HttpError>) -> (r: Result<
        &AuthTokens,
        Errors,
    >)
        ensures
            final(self)@ == after_login(old(self)@, reply_view(reply)),
            match r {
                Ok(tokens) => login_answer(reply_view(reply)) == Ok::<
                    LoginResponseView,
                    ErrorsView,
                >(LoginResponseView { tokens: tokens@ }),
                Err(error) => login_answer(reply_view(reply)) == Err::<
                    LoginResponseView,
                    ErrorsView,
                >(error@),
            },
    {
        let json = match read_reply(reply) {
            Ok(json) => json,
            Err(error) => {
                return Err(error);
            },
        };
        let response = match payload(&json) {
            Ok(payload) => match LoginResponse::from_json(payload) {
                Some(response) => response,
                None => {
                    return Err(Errors::Http(HttpError::Decode));
                },
            },
            Err(error) => {
                return Err(error);
            },
        };
        self.tokens = Some(response.tokens);
        Ok(self.tokens.as_ref().unwrap())
    }

    /// Builds the request of a check of the session: `GET /auth/check`.
    ///
    /// Requires auth.
    pub fn check_token(&self) -> (r: Result<Request, Errors>)
        ensures
            request_is(
                r,
                authorized(
                    self@.base_url,
                    self@.tokens,
                    crate::common::plain_call(
                        Method::Get,
                        "/auth/check"@,
                        true,
                        PayloadKind::NoData,
                        crate::common::Shape::Single,
                    ),
                    None,
                ),
            ),
    {
        let call = Descriptor::new(
            Method::Get,
            "/auth/check".to_owned(),
            true,
            PayloadKind::NoData,
            crate::common::Shape::Single,
        );
        self.prepare_authorized(call, None)
    }

    /// Takes the reply to a check of the session.
    pub fn complete_check_token(reply: Result<String, HttpError>) -> (r: Result<
        CheckTokenResponse,
        Errors,
    >)
        ensures
            match r {
                Ok(response) => check_answer(reply_view(reply)) == Ok::<
                    CheckTokenResponseView,
                    ErrorsView,
                >(response@),
                Err(error) => check_answer(reply_view(reply)) == Err::<
                    CheckTokenResponseView,
                    ErrorsView,
                >(error@),
            },
    {
        let json = match read_reply(reply) {
            Ok(json) => json,
            Err(error) => {
                return Err(error);
            },
        };
        match payload(&json) {
            Ok(payload) => match CheckTokenResponse::from_json(payload) {
                Some(response) => Ok(response),
                None => Err(Errors::Http(HttpError::Decode)),
            },
            Err(error) => Err(error),
        }
    }

    /// Builds the request of a logout.
    pub fn logout(&self) -> (r: Result<Request, Errors>)
        ensures
            request_is(r, prepared(self@.base_url, self@.tokens, Logout.call(), None)),
    {
        self.request(&Logout, None)
    }

    /// Takes the reply to a logout: on success the client forgets its
    /// tokens; on any failure it is left as it was.
    pub fn complete_logout(&mut self, reply: Result<String, HttpError>) -> (r: Result<(), Errors>)
        ensures
            final(self)@ == after_logout(old(self)@, reply_view(reply)),
            match r {
                Ok(_) => logout_answer(reply_view(reply)) is Ok,
                Err(error) => logout_answer(reply_view(reply)) == Err::<NoData, ErrorsView>(
                    error@,
                ),
            },
    {
        let json = match read_reply(reply) {
            Ok(json) => json,
            Err(error) => {
                return Err(error);
            },
        };
        match payload(&json) {
            Ok(payload) => match NoData::from_json(payload) {
                Some(_) => {},
                None => {
                    return Err(Errors::Http(HttpError::Decode));
                },
            },
            Err(error) => {
                return Err(error);
            },
        };
        self.tokens = None;
        Ok(())
    }

    /// Builds the request of a refresh, which sends the stored refresh
    /// token. Without stored tokens there is nothing to send.
    pub fn refresh_tokens(&self) -> (r: Result<Request, Errors>)
        ensures
            request_is(
                r,
                match self@.tokens {
                    None => Err(ErrorsView::MissingTokens),
                    Some(tokens) => prepared_with_body(
                        self@.base_url,
                        self@.tokens,
                        refresh_call(),
                        crate::json::one_string("token"@, tokens.refresh),
                    ),
                },
            ),
    {
        let tokens = match &self.tokens {
            Some(tokens) => tokens,
            None => {
                return Err(Errors::MissingTokens);
            },
        };
        let endpoint = RefreshToken { refresh_token: tokens.refresh.as_str() };
        self.request_with_body(&endpoint, endpoint.body())
    }

    /// Takes the reply to a refresh: on success the client stores the
    /// tokens of the answer, both of them; on any failure it is left as it
    /// was.
    pub fn complete_refresh_tokens(&mut self, reply: Result<String, HttpError>) -> (r: Result<
        RefreshTokenResponse,
        Errors,
    >)
        ensures
            final(self)@ == after_refresh(old(self)@, reply_view(reply)),
            match r {
                Ok(response) => refresh_answer(reply_view(reply)) == Ok::<
                    RefreshTokenResponseView,
                    ErrorsView,
                >(response@),
                Err(error) => refresh_answer(reply_view(reply)) == Err::<
                    RefreshTokenResponseView,
                    ErrorsView,
                >(error@),
            },
    {
        let json = match read_reply(reply) {
            Ok(json) => json,
            Err(error) => {
                return Err(error);
            },
        };
        let response = match payload(&json) {
            Ok(payload) => match RefreshTokenResponse::from_json(payload) {
                Some(response) => response,
                None => {
                    return Err(Errors::Http(HttpError::Decode));
                },
            },
            Err(error) => {
                return Err(error);
            },
        };
        self.tokens = Some(response.tokens.clone());
        Ok(response)
    }

    /// Builds the request of a liveness check.
    pub fn ping(&self) -> (r: Result<Request, Errors>)
        ensures
            request_is(r, ping_request(self@.base_url)),
    {
        match join_absolute(self.base_url.as_str(), "/ping") {
            Ok(url) => Ok(
                Request { method: Method::Get, url, body: None, multipart: None, bearer: None },
            ),
            Err(error) => Err(Errors::ParseUrl(error)),
        }
    }

    /// Takes the reply to a liveness check, where the body of the response
    /// is taken as text.
    pub fn complete_ping(reply: Result<String, HttpError>) -> (r: Result<(), Errors>)
        ensures
            match r {
                Ok(_) => ping_outcome(reply_view(reply)) is Ok,
                Err(error) => ping_outcome(reply_view(reply)) == Err::<(), ErrorsView>(error@),
            },
    {
        match reply {
            Err(cause) => Err(Errors::Http(cause)),
            Ok(body) => if crate::text::same_text(body.as_str(), "pong") {
                Ok(())
            } else {
                Err(Errors::PingError)
            },
        }
    }

    /// Builds the request for a call that is made only with credentials:
    /// the tokens are asked for before anything else.
    pub fn prepare_authorized(&self, call: Descriptor, payload: Option<String>) -> (r: Result<
        Request,
        Errors,
    >)
        ensures
            request_is(
                r,
                authorized(self@.base_url, self@.tokens, call@, optional_text(payload)),
            ),
    {
        match &self.tokens {
            None => Err(Errors::MissingTokens),
            Some(_) => self.prepare(call, payload),
        }
    }

    /// Builds the request for a call that is made without credentials,
    /// whether the client holds tokens or not.
    pub fn prepare_anonymous(&self, call: Descriptor, payload: Option<String>) -> (r: Result<
        Request,
        Errors,
    >)
        ensures
            request_is(r, anonymous(self@.base_url, call@, optional_text(payload))),
    {
        build(self.base_url.as_str(), None, call, payload)
    }

    /// Builds the request for an endpoint that sends a body, where `None`
    /// stands for a body that could not be written.
    pub fn request_with_body<E: Endpoint>(&self, endpoint: &E, body: Option<String>) -> (r:
        Result<Request, Errors>)
        ensures
            request_is(
                r,
                prepared_with_body(
                    self@.base_url,
                    self@.tokens,
                    endpoint.call(),
                    optional_text(body),
                ),
            ),
    {
        match body {
            Some(body) => self.request(endpoint, Some(body)),
            None => match self.request(endpoint, None) {
                Ok(_) => Err(Errors::Http(HttpError::Encode)),
                Err(error) => Err(error),
            },
        }
    }

    /// Builds the request for a call.
    ///
    /// `payload` is the call's serialized input: the query string where the
    /// call sends a query, the JSON text where it sends a body.
    pub fn prepare(&self, call: Descriptor, payload: Option<String>) -> (r: Result<Request, Errors>)
        ensures
            request_is(r, prepared(self@.base_url, self@.tokens, call@, optional_text(payload))),
    {
        build(self.base_url.as_str(), self.tokens.as_ref(), call, payload)
    }

    /// Builds the request for an endpoint and its serialized input.
    pub fn request<E: Endpoint>(&self, endpoint: &E, payload: Option<String>) -> (r: Result<
        Request,
        Errors,
    >)
        ensures
            request_is(
                r,
                prepared(self@.base_url, self@.tokens, endpoint.call(), optional_text(payload)),
            ),
    {
        self.prepare(endpoint.descriptor(), payload)
    }
}

/// A call that requires authentication gets no request from a client
/// without tokens; where the URL of the call resolves, what it gets is
/// [`Errors::MissingTokens`].
pub proof fn auth_required_needs_tokens(
    base: Seq<char>,
    call: DescriptorView,
    payload: Option<Seq<char>>,
)
    requires
        call.require_auth,
    ensures
        prepared(base, None, call, payload) is Err,
        resolved_url(base, call, payload) is Some ==> prepared(base, None, call, payload) == Err::<
            RequestView,
            ErrorsView,
        >(ErrorsView::MissingTokens),
        authorized(base, None, call, payload) == Err::<RequestView, ErrorsView>(
            ErrorsView::MissingTokens,
        ),
{
}

/// After a login that succeeds and a logout that succeeds, the client
/// holds no tokens, whatever it held before.
pub proof fn login_then_logout_clears(client: ClientView, login: Reply, logout: Reply)
    requires
        login_answer(login) is Ok,
        logout_answer(logout) is Ok,
    ensures
        after_logout(after_login(client, login), logout).tokens is None,
{
}

/// A logout that fails leaves the client's tokens as they were.
pub proof fn failed_logout_keeps_tokens(client: ClientView, logout: Reply)
    requires
        logout_answer(logout) is Err,
    ensures
        after_logout(client, logout) == client,
{
}

/// A refresh that succeeds puts both tokens of the answer in the place of
/// the old pair; one that fails changes neither token.
pub proof fn refresh_replaces_both(client: ClientView, reply: Reply)
    ensures
        match refresh_answer(reply) {
            Ok(response) => {
                &&& after_refresh(client, reply).tokens matches Some(tokens)
                &&& tokens.session == response.tokens.session
                &&& tokens.refresh == response.tokens.refresh
            },
            Err(_) => after_refresh(client, reply) == client,
        },
{
}

} // verus!
