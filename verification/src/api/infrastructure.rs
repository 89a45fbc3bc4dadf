//! Server status.

use crate::client::{ping_request, request_is, Client};
use crate::common::Request;
use crate::errors::Errors;
use vstd::prelude::*;

verus! {

/// Ping the server.
///
/// Call to `GET /ping`.
#[derive(Debug)]
pub struct Ping;

impl Ping {
    /// Builds the request of the call for `client`.
    pub fn send(&self, client: &Client) -> (r: Result<Request, Errors>)
        ensures
            request_is(r, ping_request(client@.base_url)),
    {
        client.ping()
    }
}

} // verus!
