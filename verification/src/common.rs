//! What one call is made of: its description, and the request built from it.

use crate::ident::{hyphenated, Uuid};
use crate::text::join_text;
use vstd::prelude::*;

verus! {

/// The HTTP method of a request.
#[derive(Clone, Copy, Debug, PartialEq, Eq, Hash, Structural)]
pub enum Method {
    Get,
    Post,
    Put,
    Delete,
}

impl Method {
    /// The method's name on the wire.
    pub fn as_str(&self) -> (name: &'static str)
        ensures
            name@ == match *self {
                Method::Get => "GET"@,
                Method::Post => "POST"@,
                Method::Put => "PUT"@,
                Method::Delete => "DELETE"@,
            },
    {
        match self {
            Method::Get => "GET",
            Method::Post => "POST",
            Method::Put => "PUT",
            Method::Delete => "DELETE",
        }
    }
}

/// Where the serialized input of a call travels.
#[derive(Clone, Copy, Debug, PartialEq, Eq, Hash, Structural)]
pub enum PayloadKind {
    /// The call sends no input.
    NoData,
    /// The input is the query of the URL.
    Query,
    /// The input is the JSON body.
    Body,
}

/// How the answer of a call is wrapped.
#[derive(Clone, Copy, Debug, PartialEq, Eq, Hash, Structural)]
pub enum Shape {
    /// The body is the answer itself, without an envelope.
    Bare,
    /// The body is one envelope, whose payload is the answer.
    Single,
    /// The body is one envelope with nothing in it.
    Empty,
    /// The body is a page of a list, whose items are envelopes.
    Page,
    /// The body is an array, whose items are envelopes.
    List,
}

/// One part of a multipart form: a named run of bytes.
#[derive(Clone, Debug, PartialEq, Eq)]
pub struct Part {
    pub name: String,
    pub bytes: Vec<u8>,
}

/// The value of a [`Part`].
pub struct PartView {
    pub name: Seq<char>,
    pub bytes: Seq<u8>,
}

impl View for Part {
    type V = PartView;

    open spec fn view(&self) -> PartView {
        PartView { name: self.name@, bytes: self.bytes@ }
    }
}

/// The value of an optional [`Part`].
pub open spec fn optional_part(part: Option<Part>) -> Option<PartView> {
    match part {
        Some(part) => Some(part@),
        None => None,
    }
}

/// The description of one call: everything about it that does not depend
/// on the client that makes it.
#[derive(Clone, Debug, PartialEq, Eq)]
pub struct Descriptor {
    /// The HTTP method.
    pub method: Method,
    /// The path, resolved against the client's base URL.
    pub path: String,
    /// Whether the call is refused locally when the client holds no tokens.
    pub require_auth: bool,
    /// Where the serialized input goes.
    pub payload: PayloadKind,
    /// A file to upload, sent as a multipart form.
    pub multipart: Option<Part>,
    /// How the answer is wrapped.
    pub answer: Shape,
}

/// The value of a [`Descriptor`].
pub struct DescriptorView {
    pub method: Method,
    pub path: Seq<char>,
    pub require_auth: bool,
    pub payload: PayloadKind,
    pub multipart: Option<PartView>,
    pub answer: Shape,
}

impl View for Descriptor {
    type V = DescriptorView;

    open spec fn view(&self) -> DescriptorView {
        DescriptorView {
            method: self.method,
            path: self.path@,
            require_auth: self.require_auth,
            payload: self.payload,
            multipart: optional_part(self.multipart),
            answer: self.answer,
        }
    }
}

/// A description with the given parts, and no file.
pub open spec fn plain_call(
    method: Method,
    path: Seq<char>,
    require_auth: bool,
    payload: PayloadKind,
    answer: Shape,
) -> DescriptorView {
    DescriptorView { method, path, require_auth, payload, multipart: None, answer }
}

impl Descriptor {
    /// A description with the given parts, and no file.
    pub fn new(
        method: Method,
        path: String,
        require_auth: bool,
        payload: PayloadKind,
        answer: Shape,
    ) -> (d: Descriptor)
        ensures
            d@ == plain_call(method, path@, require_auth, payload, answer),
    {
        Descriptor { method, path, require_auth, payload, multipart: None, answer }
    }
}

/// The path of the resource `id` under `prefix`, with `suffix` behind it.
pub open spec fn resource(prefix: Seq<char>, id: Uuid, suffix: Seq<char>) -> Seq<char> {
    prefix + hyphenated(id.value) + suffix
}

/// The path of the resource `second` under the resource `first`.
pub open spec fn nested_resource(
    prefix: Seq<char>,
    first: Uuid,
    middle: Seq<char>,
    second: Uuid,
) -> Seq<char> {
    prefix + hyphenated(first.value) + middle + hyphenated(second.value)
}

/// Writes the path of the resource `id` under `prefix`, with `suffix`
/// behind it.
pub fn resource_path(prefix: &str, id: &Uuid, suffix: &str) -> (path: String)
    ensures
        path@ == resource(prefix@, *id, suffix@),
{
    let path = join_text(prefix, id.to_hyphenated().as_str());
    join_text(path.as_str(), suffix)
}

/// Writes the path of the resource `second` under the resource `first`.
pub fn nested_resource_path(prefix: &str, first: &Uuid, middle: &str, second: &Uuid) -> (path:
    String)
    ensures
        path@ == nested_resource(prefix@, *first, middle@, *second),
{
    let path = join_text(prefix, first.to_hyphenated().as_str());
    let path = join_text(path.as_str(), middle);
    join_text(path.as_str(), second.to_hyphenated().as_str())
}

/// A request, ready to be sent.
#[derive(Clone, Debug, PartialEq, Eq)]
pub struct Request {
    /// The HTTP method.
    pub method: Method,
    /// The absolute URL, query included.
    pub url: String,
    /// The JSON body.
    pub body: Option<String>,
    /// A file to upload, sent as a multipart form.
    pub multipart: Option<Part>,
    /// The token of the `Authorization: Bearer` header.
    pub bearer: Option<String>,
}

/// The value of a [`Request`].
pub struct RequestView {
    pub method: Method,
    pub url: Seq<char>,
    pub body: Option<Seq<char>>,
    pub multipart: Option<PartView>,
    pub bearer: Option<Seq<char>>,
}

impl View for Request {
    type V = RequestView;

    open spec fn view(&self) -> RequestView {
        RequestView {
            method: self.method,
            url: self.url@,
            body: match self.body {
                Some(body) => Some(body@),
                None => None,
            },
            multipart: optional_part(self.multipart),
            bearer: match self.bearer {
                Some(token) => Some(token@),
                None => None,
            },
        }
    }
}

/// An operation of the API: a value that describes one call.
pub trait Endpoint {
    /// The description of the call.
    spec fn call(&self) -> DescriptorView;

    /// Builds the description of the call.
    fn descriptor(&self) -> (d: Descriptor)
        ensures
            d@ == self.call(),
    ;
}

} // verus!
