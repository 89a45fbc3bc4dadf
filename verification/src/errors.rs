//! What can go wrong between a call and its decoded answer.

use crate::schema::errors::{ApiErrorView, ApiErrors};
use vstd::prelude::*;

verus! {

/// A failure of the HTTP exchange itself.
#[derive(Clone, Debug, PartialEq, Eq)]
pub enum HttpError {
    /// The request could not be sent or no response arrived; the text says why.
    Transport(String),
    /// The input of the call could not be written as JSON.
    Encode,
    /// A response arrived, but its body is not the JSON that was expected.
    Decode,
}

/// The value of an [`HttpError`].
pub enum HttpErrorView {
    Transport(Seq<char>),
    Encode,
    Decode,
}

impl View for HttpError {
    type V = HttpErrorView;

    open spec fn view(&self) -> HttpErrorView {
        match self {
            HttpError::Transport(reason) => HttpErrorView::Transport(reason@),
            HttpError::Encode => HttpErrorView::Encode,
            HttpError::Decode => HttpErrorView::Decode,
        }
    }
}

/// Every error that a call can end in.
#[derive(Debug)]
pub enum Errors {
    /// A URL could not be read or resolved.
    ParseUrl(url::ParseError),
    /// The exchange failed, or the response could not be decoded.
    Http(HttpError),
    /// The call needs credentials and the client holds none.
    MissingTokens,
    /// The server answered with an error envelope.
    Api(ApiErrors),
    /// The liveness check was answered with something other than `pong`.
    PingError,
}

/// The value of an [`Errors`]; the parser's own error is left out of it.
pub enum ErrorsView {
    ParseUrl,
    Http(HttpErrorView),
    MissingTokens,
    Api(Seq<ApiErrorView>),
    PingError,
}

impl View for Errors {
    type V = ErrorsView;

    open spec fn view(&self) -> ErrorsView {
        match self {
            Errors::ParseUrl(_) => ErrorsView::ParseUrl,
            Errors::Http(cause) => ErrorsView::Http(cause@),
            Errors::MissingTokens => ErrorsView::MissingTokens,
            Errors::Api(errors) => ErrorsView::Api(errors@),
            Errors::PingError => ErrorsView::PingError,
        }
    }
}

impl Errors {
    /// The error's one-line description.
    pub fn message(&self) -> (text: String)
        ensures
            text@ == match self@ {
                ErrorsView::ParseUrl => "parse url error"@,
                ErrorsView::Http(_) => "http error"@,
                ErrorsView::MissingTokens => "missing tokens error"@,
                ErrorsView::Api(_) => "api error"@,
                ErrorsView::PingError => "invalid ping response"@,
            },
    {
        match self {
            Errors::ParseUrl(_) => "parse url error".to_owned(),
            Errors::Http(_) => "http error".to_owned(),
            Errors::MissingTokens => "missing tokens error".to_owned(),
            Errors::Api(_) => "api error".to_owned(),
            Errors::PingError => "invalid ping response".to_owned(),
        }
    }
}

} // verus!
