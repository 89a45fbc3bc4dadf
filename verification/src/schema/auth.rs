//! Credentials and the answers of the authentication endpoints.

use crate::json::{optional_member_text, texts, Json, JsonView};
use crate::text::optional_text;
use vstd::prelude::*;

verus! {

/// Tokens returned on login.
#[derive(Debug, PartialEq, Eq)]
pub struct AuthTokens {
    /// A token that lives for 15 minutes.
    pub session: String,
    /// A token that lives for 1 month. Allows getting another refresh token.
    pub refresh: String,
}

/// The value of an [`AuthTokens`].
pub struct AuthTokensView {
    pub session: Seq<char>,
    pub refresh: Seq<char>,
}

impl View for AuthTokens {
    type V = AuthTokensView;

    open spec fn view(&self) -> AuthTokensView {
        AuthTokensView { session: self.session@, refresh: self.refresh@ }
    }
}

impl Clone for AuthTokens {
    fn clone(&self) -> (copy: AuthTokens)
        ensures
            copy@ == self@,
    {
        AuthTokens { session: self.session.clone(), refresh: self.refresh.clone() }
    }
}

/// The tokens that `json` is: an object with a string under `session` and
/// a string under `refresh`.
pub open spec fn auth_tokens(json: JsonView) -> Option<AuthTokensView> {
    match (json.member("session"@), json.member("refresh"@)) {
        (Some(JsonView::Text(session)), Some(JsonView::Text(refresh))) => Some(
            AuthTokensView { session, refresh },
        ),
        _ => None,
    }
}

impl AuthTokens {
    /// Reads a pair of tokens.
    pub fn from_json(json: &Json) -> (r: Option<AuthTokens>)
        ensures
            match r {
                Some(tokens) => auth_tokens(json@) == Some(tokens@),
                None => auth_tokens(json@) is None,
            },
    {
        let session = match json.get("session") {
            Some(Json::Text(session)) => session.clone(),
            _ => {
                return None;
            },
        };
        let refresh = match json.get("refresh") {
            Some(Json::Text(refresh)) => refresh.clone(),
            _ => {
                return None;
            },
        };
        Some(AuthTokens { session, refresh })
    }
}

/// The answer to a login.
#[derive(Clone, Debug, PartialEq, Eq)]
pub struct LoginResponse {
    pub tokens: AuthTokens,
}

/// The value of a [`LoginResponse`].
pub struct LoginResponseView {
    pub tokens: AuthTokensView,
}

impl View for LoginResponse {
    type V = LoginResponseView;

    open spec fn view(&self) -> LoginResponseView {
        LoginResponseView { tokens: self.tokens@ }
    }
}

/// The answer to a login that `json` is: its tokens stand under `token`.
pub open spec fn login_response(json: JsonView) -> Option<LoginResponseView> {
    match json.member("token"@) {
        Some(token) => match auth_tokens(token) {
            Some(tokens) => Some(LoginResponseView { tokens }),
            None => None,
        },
        None => None,
    }
}

impl LoginResponse {
    /// Reads the answer to a login.
    pub fn from_json(json: &Json) -> (r: Option<LoginResponse>)
        ensures
            match r {
                Some(response) => login_response(json@) == Some(response@),
                None => login_response(json@) is None,
            },
    {
        match json.get("token") {
            Some(token) => match AuthTokens::from_json(token) {
                Some(tokens) => Some(LoginResponse { tokens }),
                None => None,
            },
            None => None,
        }
    }
}

/// Response when checking a token.
#[derive(Clone, Debug, PartialEq, Eq)]
pub struct CheckTokenResponse {
    pub is_authenticated: bool,
    pub roles: Vec<String>,
    pub permissions: Vec<String>,
}

/// The value of a [`CheckTokenResponse`].
pub struct CheckTokenResponseView {
    pub is_authenticated: bool,
    pub roles: Seq<Seq<char>>,
    pub permissions: Seq<Seq<char>>,
}

impl View for CheckTokenResponse {
    type V = CheckTokenResponseView;

    open spec fn view(&self) -> CheckTokenResponseView {
        CheckTokenResponseView {
            is_authenticated: self.is_authenticated,
            roles: self.roles.deep_view(),
            permissions: self.permissions.deep_view(),
        }
    }
}

/// The answer to a check that `json` is: a truth value under
/// `isAuthenticated`, an array of strings under `roles` and one under
/// `permissions`.
pub open spec fn check_token_response(json: JsonView) -> Option<CheckTokenResponseView> {
    match (json.member("isAuthenticated"@), json.member("roles"@), json.member("permissions"@)) {
        (Some(JsonView::Bool(is_authenticated)), Some(roles), Some(permissions)) => match (
            texts(roles),
            texts(permissions),
        ) {
            (Some(roles), Some(permissions)) => Some(
                CheckTokenResponseView { is_authenticated, roles, permissions },
            ),
            _ => None,
        },
        _ => None,
    }
}

impl CheckTokenResponse {
    /// Reads the answer to a check of the session.
    pub fn from_json(json: &Json) -> (r: Option<CheckTokenResponse>)
        ensures
            match r {
                Some(response) => check_token_response(json@) == Some(response@),
                None => check_token_response(json@) is None,
            },
    {
        let is_authenticated = match json.get("isAuthenticated") {
            Some(Json::Bool(flag)) => *flag,
            _ => {
                return None;
            },
        };
        let roles = match json.get("roles") {
            Some(roles) => match roles.as_texts() {
                Some(roles) => roles,
                None => {
                    return None;
                },
            },
            None => {
                return None;
            },
        };
        let permissions = match json.get("permissions") {
            Some(permissions) => match permissions.as_texts() {
                Some(permissions) => permissions,
                None => {
                    return None;
                },
            },
            None => {
                return None;
            },
        };
        Some(CheckTokenResponse { is_authenticated, roles, permissions })
    }
}

/// The response when refreshing the session token.
#[derive(Clone, Debug, PartialEq, Eq)]
pub struct RefreshTokenResponse {
    pub tokens: AuthTokens,
    pub message: Option<String>,
}

/// The value of a [`RefreshTokenResponse`].
pub struct RefreshTokenResponseView {
    pub tokens: AuthTokensView,
    pub message: Option<Seq<char>>,
}

impl View for RefreshTokenResponse {
    type V = RefreshTokenResponseView;

    open spec fn view(&self) -> RefreshTokenResponseView {
        RefreshTokenResponseView { tokens: self.tokens@, message: optional_text(self.message) }
    }
}

/// The answer to a refresh that `json` is: its tokens stand under `token`,
/// and a text, `null` or nothing under `message`.
pub open spec fn refresh_token_response(json: JsonView) -> Option<RefreshTokenResponseView> {
    match (json.member("token"@), optional_member_text(json, "message"@)) {
        (Some(token), Some(message)) => match auth_tokens(token) {
            Some(tokens) => Some(RefreshTokenResponseView { tokens, message }),
            None => None,
        },
        _ => None,
    }
}

impl RefreshTokenResponse {
    /// Reads the answer to a refresh.
    pub fn from_json(json: &Json) -> (r: Option<RefreshTokenResponse>)
        ensures
            match r {
                Some(response) => refresh_token_response(json@) == Some(response@),
                None => refresh_token_response(json@) is None,
            },
    {
        let tokens = match json.get("token") {
            Some(token) => match AuthTokens::from_json(token) {
                Some(tokens) => tokens,
                None => {
                    return None;
                },
            },
            None => {
                return None;
            },
        };
        match json.optional_text("message") {
            Some(message) => Some(RefreshTokenResponse { tokens, message }),
            None => None,
        }
    }
}

} // verus!
