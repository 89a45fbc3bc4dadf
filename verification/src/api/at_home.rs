//! MangaDex@Home server.

use crate::client::{prepared, request_is, Client};
use crate::common::{
    plain_call, resource, resource_path, Descriptor, DescriptorView, Endpoint, Method,
    PayloadKind, Request, Shape,
};
use crate::errors::{Errors, ErrorsView, HttpError, HttpErrorView};
use crate::ident::Uuid;
use crate::location::{parse_absolute, parsed_url};
use crate::reply::{document, read_reply, reply_view, Reply};
use crate::schema::at_home::{at_home_server, AtHomeServer};
use crate::text::join_text;
use vstd::prelude::*;

verus! {

/// Get MangaDex@Home server URL.
///
/// Call to `GET /at-home/server/{chapterId}`.
#[derive(Debug)]
pub struct GetAtHomeServer<'a> {
    /// Chapter ID
    pub chapter_id: &'a Uuid,
    /// Force selecting from MangaDex@Home servers that use the standard
    /// HTTPS port 443.
    ///
    /// While the conventional port for HTTPS traffic is 443 and servers are
    /// encouraged to use it, it is not a hard requirement as it technically
    /// isn't anything special.
    ///
    /// However, some misbehaving school/office network will at time block
    /// traffic to non-standard ports, and setting this flag to true will
    /// ensure selection of a server that uses these.
    pub force_port443: bool,
}

impl<'a> Endpoint for GetAtHomeServer<'a> {
    open spec fn call(&self) -> DescriptorView {
        plain_call(
            Method::Get,
            resource("/at-home/server/"@, *self.chapter_id, ""@),
            false,
            PayloadKind::Query,
            Shape::Bare,
        )
    }

    fn descriptor(&self) -> (d: Descriptor) {
        Descriptor::new(
            Method::Get,
            resource_path("/at-home/server/", self.chapter_id, ""),
            false,
            PayloadKind::Query,
            Shape::Bare,
        )
    }
}

/// The URL of the server that came back as `reply`: the text under
/// `baseUrl` of the document, in the normal form of an absolute URL.
pub open spec fn server_url(reply: Reply) -> Result<Seq<char>, ErrorsView> {
    match document(reply) {
        Err(error) => Err(error),
        Ok(json) => match at_home_server(json) {
            None => Err(ErrorsView::Http(HttpErrorView::Decode)),
            Some(base_url) => match parsed_url(base_url) {
                Some(url) => Ok(url),
                None => Err(ErrorsView::ParseUrl),
            },
        },
    }
}

impl<'a> GetAtHomeServer<'a> {
    /// The query of the call: the flag under `forcePort443`.
    pub open spec fn query_text(&self) -> Seq<char> {
        "forcePort443="@ + if self.force_port443 {
            "true"@
        } else {
            "false"@
        }
    }

    /// Writes the query of the call.
    pub fn query(&self) -> (text: String)
        ensures
            text@ == self.query_text(),
    {
        if self.force_port443 {
            join_text("forcePort443=", "true")
        } else {
            join_text("forcePort443=", "false")
        }
    }

    /// Builds the request of the call for `client`.
    pub fn send(&self, client: &Client) -> (r: Result<Request, Errors>)
        ensures
            request_is(
                r,
                prepared(client@.base_url, client@.tokens, self.call(), Some(self.query_text())),
            ),
    {
        client.request(self, Some(self.query()))
    }

    /// Takes the reply to the call and gives the URL of the server.
    pub fn receive(reply: Result<String, HttpError>) -> (r: Result<String, Errors>)
        ensures
            match r {
                Ok(url) => server_url(reply_view(reply)) == Ok::<Seq<char>, ErrorsView>(url@),
                Err(error) => server_url(reply_view(reply)) == Err::<Seq<char>, ErrorsView>(
                    error@,
                ),
            },
    {
        let json = match read_reply(reply) {
            Ok(json) => json,
            Err(error) => {
                return Err(error);
            },
        };
        let server = match AtHomeServer::from_json(&json) {
            Some(server) => server,
            None => {
                return Err(Errors::Http(HttpError::Decode));
            },
        };
        match parse_absolute(server.base_url.as_str()) {
            Ok(url) => Ok(url),
            Err(error) => Err(Errors::ParseUrl(error)),
        }
    }
}

/// Another name of [`GetAtHomeServer`].
pub type AtHomeServerReq<'a> = GetAtHomeServer<'a>;

} // verus!
