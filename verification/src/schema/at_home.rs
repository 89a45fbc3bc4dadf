//! The server that delivers the pages of a chapter.

use crate::json::{Json, JsonView};
use vstd::prelude::*;

verus! {

/// The MangaDex@Home server that was picked for a chapter.
#[derive(Clone, Debug, PartialEq, Eq)]
pub struct AtHomeServer {
    pub base_url: String,
}

/// The server that `json` names: its URL is the string under `baseUrl`.
pub open spec fn at_home_server(json: JsonView) -> Option<Seq<char>> {
    match json.member("baseUrl"@) {
        Some(JsonView::Text(base_url)) => Some(base_url),
        _ => None,
    }
}

impl AtHomeServer {
    /// Reads the answer that names a server.
    pub fn from_json(json: &Json) -> (r: Option<AtHomeServer>)
        ensures
            match r {
                Some(server) => at_home_server(json@) == Some(server.base_url@),
                None => at_home_server(json@) is None,
            },
    {
        match json.get("baseUrl") {
            Some(Json::Text(base_url)) => Some(AtHomeServer { base_url: base_url.clone() }),
            _ => None,
        }
    }
}

/// Another name of [`AtHomeServer`].
pub type AtHomeServerRes = AtHomeServer;

} // verus!
