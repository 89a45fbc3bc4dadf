//! The core of a client for the MangaDex HTTP API, without the network.
//!
//! A call goes through the library twice. Before it is sent, the library
//! builds its [`Request`](common::Request) from the client's base URL, the
//! description of the call and the client's credentials, or refuses it
//! where the call needs credentials and the client holds none. After the
//! reply has come, the library reads the document, takes the envelope off
//! and hands out the payload or the error, and the client takes over the
//! tokens of a login or a refresh.
//!
//! Sending the request is left to the user of the library, and so is
//! writing and reading the payloads of everything but authentication.
//!
//! ```text
//! let mut client = Client::new("https://api.mangadex.org/")?;
//! let request = client.login("username", "password")?;
//! let body = /* send `request`, take the body of the response */;
//! let tokens = client.complete_login(Ok(body))?;
//! ```
//!
//! The modules:
//!
//! - [`client`]: the client, its credentials and the building of requests;
//! - [`manga`]: the calls about manga, as methods of the client;
//! - [`api`]: one value for each call of the API;
//! - [`common`]: the description of a call and the request built from it;
//! - [`reply`]: from the reply to the answer;
//! - [`schema`]: the envelope and the shapes of what is sent and received;
//! - [`json`], [`location`], [`ident`], [`text`]: JSON documents, URLs,
//!   identifiers and text;
//! - [`errors`]: what can go wrong.

pub mod api;
pub mod client;
pub mod common;
pub mod errors;
pub mod ident;
pub mod json;
pub mod location;
pub mod manga;
pub mod reply;
pub mod schema;
pub mod text;

pub use client::Client;
pub use errors::Errors;
