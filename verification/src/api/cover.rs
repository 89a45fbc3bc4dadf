//! Cover art.

use crate::client::{prepared, request_is, Client};
use crate::common::{
    plain_call, resource, resource_path, Descriptor, DescriptorView, Endpoint, Method, Part,
    PartView, PayloadKind, Request, Shape,
};
use crate::errors::Errors;
use crate::ident::Uuid;
use crate::schema::cover::CoverOrder;
use vstd::prelude::*;

verus! {

/// Cover art list.
///
/// Call to `GET /cover`.
#[derive(Debug, Default)]
pub struct ListCovers<'a> {
    /// Page size (max 100)
    pub limit: Option<i32>,
    /// Page offset (max ~10k)
    pub offset: Option<i32>,
    /// Manga ids (max 100)
    pub manga: Vec<&'a Uuid>,
    /// Cover ids (max 100)
    pub covers: Vec<&'a Uuid>,
    /// Uploader ids (max 100)
    pub uploaders: Vec<&'a Uuid>,
    /// Sort order
    pub order: Option<CoverOrder>,
}

impl<'a> Endpoint for ListCovers<'a> {
    open spec fn call(&self) -> DescriptorView {
        plain_call(Method::Get, "/cover"@, false, PayloadKind::Query, Shape::Page)
    }

    fn descriptor(&self) -> (d: Descriptor) {
        Descriptor::new(Method::Get, "/cover".to_owned(), false, PayloadKind::Query, Shape::Page)
    }
}

/// Get cover.
///
/// Call to `GET /cover/{id}`.
#[derive(Debug)]
pub struct GetCover<'a> {
    /// Cover id
    pub cover_id: &'a Uuid,
}

impl<'a> Endpoint for GetCover<'a> {
    open spec fn call(&self) -> DescriptorView {
        plain_call(
            Method::Get,
            resource("/cover/"@, *self.cover_id, ""@),
            false,
            PayloadKind::NoData,
            Shape::Single,
        )
    }

    fn descriptor(&self) -> (d: Descriptor) {
        Descriptor::new(
            Method::Get,
            resource_path("/cover/", self.cover_id, ""),
            false,
            PayloadKind::NoData,
            Shape::Single,
        )
    }
}

/// Edit cover (requires authentication).
///
/// Call to `PUT /cover/{id}`.
#[derive(Debug)]
pub struct EditCover<'a> {
    /// Cover id
    pub cover_id: &'a Uuid,
    /// Cover volume
    pub volume: Option<&'a str>,
    /// Cover description
    pub description: Option<&'a str>,
    /// Cover version
    pub version: i32,
}

impl<'a> Endpoint for EditCover<'a> {
    open spec fn call(&self) -> DescriptorView {
        plain_call(
            Method::Put,
            resource("/cover/"@, *self.cover_id, ""@),
            true,
            PayloadKind::Body,
            Shape::Single,
        )
    }

    fn descriptor(&self) -> (d: Descriptor) {
        Descriptor::new(
            Method::Put,
            resource_path("/cover/", self.cover_id, ""),
            true,
            PayloadKind::Body,
            Shape::Single,
        )
    }
}

/// Delete cover (requires authentication).
///
/// Call to `DELETE /cover/{id}`.
#[derive(Debug)]
pub struct DeleteCover<'a> {
    /// Cover id
    pub cover_id: &'a Uuid,
}

impl<'a> Endpoint for DeleteCover<'a> {
    open spec fn call(&self) -> DescriptorView {
        plain_call(
            Method::Delete,
            resource("/cover/"@, *self.cover_id, ""@),
            true,
            PayloadKind::NoData,
            Shape::Empty,
        )
    }

    fn descriptor(&self) -> (d: Descriptor) {
        Descriptor::new(
            Method::Delete,
            resource_path("/cover/", self.cover_id, ""),
            true,
            PayloadKind::NoData,
            Shape::Empty,
        )
    }
}

/// Upload cover (requires authentication).
///
/// Call to `POST /cover/{mangaId}`.
#[derive(Debug)]
pub struct UploadCover<'a> {
    /// Manga id
    pub manga_id: &'a Uuid,
    /// Image bytes
    pub image_bytes: Vec<u8>,
}

impl<'a> UploadCover<'a> {
    /// The path of the call.
    pub fn path(&self) -> (path: String)
        ensures
            path@ == resource("/cover/"@, *self.manga_id, ""@),
    {
        resource_path("/cover/", self.manga_id, "")
    }

    /// The method of the call.
    pub fn method(&self) -> (method: Method)
        ensures
            method == Method::Post,
    {
        Method::Post
    }

    /// Whether the call is refused where the client holds no tokens.
    pub fn require_auth(&self) -> (required: bool)
        ensures
            required,
    {
        true
    }

    /// The form of the call: the image, under the name `file`.
    pub fn multipart(&self) -> (form: Option<Part>)
        ensures
            form matches Some(part) && part@ == (PartView {
                name: "file"@,
                bytes: self.image_bytes@,
            }),
    {
        Some(Part { name: "file".to_owned(), bytes: self.image_bytes.clone() })
    }

    /// Builds the request of the call for `client`.
    pub fn send(&self, client: &Client) -> (r: Result<Request, Errors>)
        ensures
            request_is(r, prepared(client@.base_url, client@.tokens, self.call(), None)),
    {
        client.request(self, None)
    }
}

impl<'a> Endpoint for UploadCover<'a> {
    open spec fn call(&self) -> DescriptorView {
        DescriptorView {
            method: Method::Post,
            path: resource("/cover/"@, *self.manga_id, ""@),
            require_auth: true,
            payload: PayloadKind::NoData,
            multipart: Some(PartView { name: "file"@, bytes: self.image_bytes@ }),
            answer: Shape::Single,
        }
    }

    fn descriptor(&self) -> (d: Descriptor) {
        Descriptor {
            method: self.method(),
            path: self.path(),
            require_auth: self.require_auth(),
            payload: PayloadKind::NoData,
            multipart: self.multipart(),
            answer: Shape::Single,
        }
    }
}

} // verus!
