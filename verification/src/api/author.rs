//! Manga authors.

use crate::common::{
    plain_call, resource, resource_path, Descriptor, DescriptorView, Endpoint, Method,
    PayloadKind, Shape,
};
use crate::ident::Uuid;
use crate::schema::author::AuthorOrder;
use crate::schema::common::PaginationQuery;
use vstd::prelude::*;

verus! {

/// Author list.
///
/// Call to `GET /author`.
#[derive(Debug, Default)]
pub struct ListAuthors<'a> {
    /// Page size and offset
    pub pagination: PaginationQuery,
    /// Author ids (limited to 100 per request)
    pub ids: Vec<&'a Uuid>,
    /// Author name
    pub name: Option<&'a str>,
    /// Sort order
    pub order: Option<AuthorOrder>,
}

impl<'a> Endpoint for ListAuthors<'a> {
    open spec fn call(&self) -> DescriptorView {
        plain_call(
            Method::Get,
            "/author"@,
            false,
            PayloadKind::Query,
            Shape::Page,
        )
    }

    fn descriptor(&self) -> (d: Descriptor) {
        Descriptor::new(
            Method::Get,
            "/author".to_owned(),
            false,
            PayloadKind::Query,
            Shape::Page,
        )
    }
}

/// Create author (requires authentication).
///
/// Call to `POST /author`.
#[derive(Debug)]
pub struct CreateAuthor<'a> {
    /// Author name
    pub name: &'a str,
    /// Version
    pub version: i32,
}

impl<'a> Endpoint for CreateAuthor<'a> {
    open spec fn call(&self) -> DescriptorView {
        plain_call(
            Method::Post,
            "/author"@,
            true,
            PayloadKind::Body,
            Shape::Single,
        )
    }

    fn descriptor(&self) -> (d: Descriptor) {
        Descriptor::new(
            Method::Post,
            "/author".to_owned(),
            true,
            PayloadKind::Body,
            Shape::Single,
        )
    }
}

/// Get author.
///
/// Call to `GET /author/{id}`.
#[derive(Debug)]
pub struct GetAuthor<'a> {
    /// Author id
    pub id: &'a Uuid,
}

impl<'a> Endpoint for GetAuthor<'a> {
    open spec fn call(&self) -> DescriptorView {
        plain_call(
            Method::Get,
            resource("/author/"@, *self.id, ""@),
            false,
            PayloadKind::NoData,
            Shape::Single,
        )
    }

    fn descriptor(&self) -> (d: Descriptor) {
        Descriptor::new(
            Method::Get,
            resource_path("/author/", self.id, ""),
            false,
            PayloadKind::NoData,
            Shape::Single,
        )
    }
}

/// Update author (requires authentication).
///
/// Call to `PUT /author/{id}`.
#[derive(Debug)]
pub struct UpdateAuthor<'a> {
    /// Author id
    pub id: &'a Uuid,
    /// Author name
    pub name: &'a str,
    /// Version
    pub version: i32,
}

impl<'a> Endpoint for UpdateAuthor<'a> {
    open spec fn call(&self) -> DescriptorView {
        plain_call(
            Method::Put,
            resource("/author/"@, *self.id, ""@),
            true,
            PayloadKind::Body,
            Shape::Single,
        )
    }

    fn descriptor(&self) -> (d: Descriptor) {
        Descriptor::new(
            Method::Put,
            resource_path("/author/", self.id, ""),
            true,
            PayloadKind::Body,
            Shape::Single,
        )
    }
}

/// Delete author (requires authentication).
///
/// Call to `DELETE /author/{id}`.
#[derive(Debug)]
pub struct DeleteAuthor<'a> {
    /// Author id
    pub id: &'a Uuid,
}

impl<'a> Endpoint for DeleteAuthor<'a> {
    open spec fn call(&self) -> DescriptorView {
        plain_call(
            Method::Delete,
            resource("/author/"@, *self.id, ""@),
            true,
            PayloadKind::NoData,
            Shape::Empty,
        )
    }

    fn descriptor(&self) -> (d: Descriptor) {
        Descriptor::new(
            Method::Delete,
            resource_path("/author/", self.id, ""),
            true,
            PayloadKind::NoData,
            Shape::Empty,
        )
    }
}

/// Author list, with the ids and the name as values of its own.
///
/// Call to `GET /author`.
#[derive(Clone, Debug, Default)]
pub struct ListAuthorsReq {
    /// Page size and offset
    pub pagination: PaginationQuery,
    /// Author ids (limited to 100 per request)
    pub ids: Vec<Uuid>,
    /// Author name
    pub name: Option<String>,
    /// Sort order
    pub order: Option<AuthorOrder>,
}

impl Endpoint for ListAuthorsReq {
    open spec fn call(&self) -> DescriptorView {
        plain_call(Method::Get, "/author"@, false, PayloadKind::Query, Shape::Page)
    }

    fn descriptor(&self) -> (d: Descriptor) {
        Descriptor::new(Method::Get, "/author".to_owned(), false, PayloadKind::Query, Shape::Page)
    }
}

/// Another name of [`CreateAuthor`].
pub type CreateAuthorReq<'a> = CreateAuthor<'a>;

/// Another name of [`UpdateAuthor`].
pub type UpdateAuthorReq<'a> = UpdateAuthor<'a>;

/// Another name of [`GetAuthor`].
pub type GetAuthorReq<'a> = GetAuthor<'a>;

/// Another name of [`DeleteAuthor`].
pub type DeleteAuthorReq<'a> = DeleteAuthor<'a>;

} // verus!
