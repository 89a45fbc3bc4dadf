//! Custom lists.

use crate::common::{
    nested_resource, nested_resource_path, plain_call, resource, resource_path, Descriptor,
    DescriptorView, Endpoint, Method, PayloadKind, Shape,
};
use crate::ident::Uuid;
use crate::schema::common::PaginationQuery;
use crate::schema::list::CustomListVisibility;
use vstd::prelude::*;

verus! {

/// Create custom list (requires authentication).
///
/// Call to `POST /list`.
#[derive(Debug)]
pub struct CreateCustomList<'a> {
    /// List name
    pub name: &'a str,
    /// Who can see the list
    pub visibility: CustomListVisibility,
    /// Manga of the list
    pub manga: Vec<&'a Uuid>,
    /// Version
    pub version: i32,
}

impl<'a> Endpoint for CreateCustomList<'a> {
    open spec fn call(&self) -> DescriptorView {
        plain_call(
            Method::Post,
            "/list"@,
            true,
            PayloadKind::Body,
            Shape::Single,
        )
    }

    fn descriptor(&self) -> (d: Descriptor) {
        Descriptor::new(
            Method::Post,
            "/list".to_owned(),
            true,
            PayloadKind::Body,
            Shape::Single,
        )
    }
}

/// Get custom list.
///
/// Call to `GET /list/{id}`.
#[derive(Debug)]
pub struct GetCustomList<'a> {
    /// List id
    pub id: &'a Uuid,
}

impl<'a> Endpoint for GetCustomList<'a> {
    open spec fn call(&self) -> DescriptorView {
        plain_call(
            Method::Get,
            resource("/list/"@, *self.id, ""@),
            false,
            PayloadKind::NoData,
            Shape::Single,
        )
    }

    fn descriptor(&self) -> (d: Descriptor) {
        Descriptor::new(
            Method::Get,
            resource_path("/list/", self.id, ""),
            false,
            PayloadKind::NoData,
            Shape::Single,
        )
    }
}

/// Update custom list (requires authentication).
///
/// Call to `PUT /list/{id}`.
#[derive(Debug)]
pub struct UpdateCustomList<'a> {
    /// List id
    pub id: &'a Uuid,
    /// List name
    pub name: &'a str,
    /// Who can see the list
    pub visibility: CustomListVisibility,
    /// Manga of the list
    pub manga: Vec<&'a Uuid>,
    /// Version
    pub version: i32,
}

impl<'a> Endpoint for UpdateCustomList<'a> {
    open spec fn call(&self) -> DescriptorView {
        plain_call(
            Method::Put,
            resource("/list/"@, *self.id, ""@),
            true,
            PayloadKind::Body,
            Shape::Single,
        )
    }

    fn descriptor(&self) -> (d: Descriptor) {
        Descriptor::new(
            Method::Put,
            resource_path("/list/", self.id, ""),
            true,
            PayloadKind::Body,
            Shape::Single,
        )
    }
}

/// Delete custom list (requires authentication).
///
/// Call to `DELETE /list/{id}`.
#[derive(Debug)]
pub struct DeleteCustomList<'a> {
    /// List id
    pub id: &'a Uuid,
}

impl<'a> Endpoint for DeleteCustomList<'a> {
    open spec fn call(&self) -> DescriptorView {
        plain_call(
            Method::Delete,
            resource("/list/"@, *self.id, ""@),
            true,
            PayloadKind::NoData,
            Shape::Empty,
        )
    }

    fn descriptor(&self) -> (d: Descriptor) {
        Descriptor::new(
            Method::Delete,
            resource_path("/list/", self.id, ""),
            true,
            PayloadKind::NoData,
            Shape::Empty,
        )
    }
}

/// Add manga to custom list (requires authentication).
///
/// Call to `POST /manga/{id}/list/{listId}`.
#[derive(Debug)]
pub struct AddMangaToCustomList<'a> {
    /// Manga id
    pub manga_id: &'a Uuid,
    /// List id
    pub list_id: &'a Uuid,
}

impl<'a> Endpoint for AddMangaToCustomList<'a> {
    open spec fn call(&self) -> DescriptorView {
        plain_call(
            Method::Post,
            nested_resource("/manga/"@, *self.manga_id, "/list/"@, *self.list_id),
            true,
            PayloadKind::NoData,
            Shape::Empty,
        )
    }

    fn descriptor(&self) -> (d: Descriptor) {
        Descriptor::new(
            Method::Post,
            nested_resource_path("/manga/", self.manga_id, "/list/", self.list_id),
            true,
            PayloadKind::NoData,
            Shape::Empty,
        )
    }
}

/// Remove manga from custom list (requires authentication).
///
/// Call to `DELETE /manga/{id}/list/{listId}`.
#[derive(Debug)]
pub struct RemoveMangaFromCustomList<'a> {
    /// Manga id
    pub manga_id: &'a Uuid,
    /// List id
    pub list_id: &'a Uuid,
}

impl<'a> Endpoint for RemoveMangaFromCustomList<'a> {
    open spec fn call(&self) -> DescriptorView {
        plain_call(
            Method::Delete,
            nested_resource("/manga/"@, *self.manga_id, "/list/"@, *self.list_id),
            true,
            PayloadKind::NoData,
            Shape::Empty,
        )
    }

    fn descriptor(&self) -> (d: Descriptor) {
        Descriptor::new(
            Method::Delete,
            nested_resource_path("/manga/", self.manga_id, "/list/", self.list_id),
            true,
            PayloadKind::NoData,
            Shape::Empty,
        )
    }
}

/// The custom lists of the logged user (requires authentication).
///
/// Call to `GET /user/list`.
#[derive(Debug, Default)]
pub struct GetLoggedUserCustomLists {
    /// Page size and offset
    pub pagination: PaginationQuery,
}

impl Endpoint for GetLoggedUserCustomLists {
    open spec fn call(&self) -> DescriptorView {
        plain_call(
            Method::Get,
            "/user/list"@,
            true,
            PayloadKind::Query,
            Shape::Page,
        )
    }

    fn descriptor(&self) -> (d: Descriptor) {
        Descriptor::new(
            Method::Get,
            "/user/list".to_owned(),
            true,
            PayloadKind::Query,
            Shape::Page,
        )
    }
}

/// The custom lists of a user (requires authentication).
///
/// Call to `GET /user/{id}/list`.
#[derive(Debug)]
pub struct GetUserCustomLists<'a> {
    /// User id
    pub user_id: &'a Uuid,
    /// Page size and offset
    pub pagination: PaginationQuery,
}

impl<'a> Endpoint for GetUserCustomLists<'a> {
    open spec fn call(&self) -> DescriptorView {
        plain_call(
            Method::Get,
            resource("/user/"@, *self.user_id, "/list"@),
            true,
            PayloadKind::Query,
            Shape::Page,
        )
    }

    fn descriptor(&self) -> (d: Descriptor) {
        Descriptor::new(
            Method::Get,
            resource_path("/user/", self.user_id, "/list"),
            true,
            PayloadKind::Query,
            Shape::Page,
        )
    }
}

} // verus!
