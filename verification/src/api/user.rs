//! User data.

use crate::common::{
    plain_call, resource, resource_path, Descriptor, DescriptorView, Endpoint, Method,
    PayloadKind, Shape,
};
use crate::ident::Uuid;
use crate::schema::user::UserOrder;
use vstd::prelude::*;

verus! {

/// User list (requires authentication).
///
/// Call to `GET /user`.
#[derive(Debug, Default)]
pub struct ListUsers<'a> {
    /// Page size
    pub limit: Option<i32>,
    /// Page offset
    pub offset: Option<i32>,
    /// User ids (limited to 100 per request)
    pub user_ids: Vec<&'a Uuid>,
    /// User name
    pub username: Option<&'a str>,
    /// Sort order
    pub order: Option<UserOrder>,
}

impl<'a> Endpoint for ListUsers<'a> {
    open spec fn call(&self) -> DescriptorView {
        plain_call(
            Method::Get,
            "/user"@,
            true,
            PayloadKind::Query,
            Shape::Page,
        )
    }

    fn descriptor(&self) -> (d: Descriptor) {
        Descriptor::new(
            Method::Get,
            "/user".to_owned(),
            true,
            PayloadKind::Query,
            Shape::Page,
        )
    }
}

/// Get user.
///
/// Call to `GET /user/{id}`.
#[derive(Debug)]
pub struct GetUser<'a> {
    /// User id
    pub user_id: &'a Uuid,
}

impl<'a> Endpoint for GetUser<'a> {
    open spec fn call(&self) -> DescriptorView {
        plain_call(
            Method::Get,
            resource("/user/"@, *self.user_id, ""@),
            false,
            PayloadKind::NoData,
            Shape::Single,
        )
    }

    fn descriptor(&self) -> (d: Descriptor) {
        Descriptor::new(
            Method::Get,
            resource_path("/user/", self.user_id, ""),
            false,
            PayloadKind::NoData,
            Shape::Single,
        )
    }
}

/// Delete user (requires authentication).
///
/// Call to `DELETE /user/{id}`.
#[derive(Debug)]
pub struct DeleteUser<'a> {
    /// User id
    pub user_id: &'a Uuid,
}

impl<'a> Endpoint for DeleteUser<'a> {
    open spec fn call(&self) -> DescriptorView {
        plain_call(
            Method::Delete,
            resource("/user/"@, *self.user_id, ""@),
            true,
            PayloadKind::NoData,
            Shape::Empty,
        )
    }

    fn descriptor(&self) -> (d: Descriptor) {
        Descriptor::new(
            Method::Delete,
            resource_path("/user/", self.user_id, ""),
            true,
            PayloadKind::NoData,
            Shape::Empty,
        )
    }
}

/// Approve the deletion of a user (requires authentication).
///
/// Call to `POST /user/delete/{code}`.
#[derive(Debug)]
pub struct ApproveUserDeletion<'a> {
    /// The code that was mailed
    pub code: &'a Uuid,
}

impl<'a> Endpoint for ApproveUserDeletion<'a> {
    open spec fn call(&self) -> DescriptorView {
        plain_call(
            Method::Post,
            resource("/user/delete/"@, *self.code, ""@),
            true,
            PayloadKind::NoData,
            Shape::Empty,
        )
    }

    fn descriptor(&self) -> (d: Descriptor) {
        Descriptor::new(
            Method::Post,
            resource_path("/user/delete/", self.code, ""),
            true,
            PayloadKind::NoData,
            Shape::Empty,
        )
    }
}

/// Update the password of the logged user (requires authentication).
///
/// Call to `POST /user/password`.
#[derive(Debug)]
pub struct UpdatePassword<'a> {
    /// The password so far
    pub old_password: &'a str,
    /// The password from now on
    pub new_password: &'a str,
}

impl<'a> Endpoint for UpdatePassword<'a> {
    open spec fn call(&self) -> DescriptorView {
        plain_call(
            Method::Post,
            "/user/password"@,
            true,
            PayloadKind::Body,
            Shape::Empty,
        )
    }

    fn descriptor(&self) -> (d: Descriptor) {
        Descriptor::new(
            Method::Post,
            "/user/password".to_owned(),
            true,
            PayloadKind::Body,
            Shape::Empty,
        )
    }
}

/// Update the email address of the logged user (requires authentication).
///
/// Call to `POST /user/email`.
#[derive(Debug)]
pub struct UpdateEmail<'a> {
    /// Email address
    pub email: &'a str,
}

impl<'a> Endpoint for UpdateEmail<'a> {
    open spec fn call(&self) -> DescriptorView {
        plain_call(
            Method::Post,
            "/user/email"@,
            true,
            PayloadKind::Body,
            Shape::Empty,
        )
    }

    fn descriptor(&self) -> (d: Descriptor) {
        Descriptor::new(
            Method::Post,
            "/user/email".to_owned(),
            true,
            PayloadKind::Body,
            Shape::Empty,
        )
    }
}

/// The logged user (requires authentication).
///
/// Call to `GET /user/me`.
#[derive(Debug)]
pub struct GetLoggedUser;

impl Endpoint for GetLoggedUser {
    open spec fn call(&self) -> DescriptorView {
        plain_call(
            Method::Get,
            "/user/me"@,
            true,
            PayloadKind::NoData,
            Shape::Single,
        )
    }

    fn descriptor(&self) -> (d: Descriptor) {
        Descriptor::new(
            Method::Get,
            "/user/me".to_owned(),
            true,
            PayloadKind::NoData,
            Shape::Single,
        )
    }
}

/// The groups that the logged user follows (requires authentication).
///
/// Call to `GET /user/follows/group`.
#[derive(Debug, Default)]
pub struct ListFollowedGroups {
    /// Page size
    pub limit: Option<i32>,
    /// Page offset
    pub offset: Option<i32>,
}

impl Endpoint for ListFollowedGroups {
    open spec fn call(&self) -> DescriptorView {
        plain_call(
            Method::Get,
            "/user/follows/group"@,
            true,
            PayloadKind::Query,
            Shape::Page,
        )
    }

    fn descriptor(&self) -> (d: Descriptor) {
        Descriptor::new(
            Method::Get,
            "/user/follows/group".to_owned(),
            true,
            PayloadKind::Query,
            Shape::Page,
        )
    }
}

/// The users that the logged user follows (requires authentication).
///
/// Call to `GET /user/follows/user`.
#[derive(Debug, Default)]
pub struct ListFollowedUsers {
    /// Page size
    pub limit: Option<i32>,
    /// Page offset
    pub offset: Option<i32>,
}

impl Endpoint for ListFollowedUsers {
    open spec fn call(&self) -> DescriptorView {
        plain_call(
            Method::Get,
            "/user/follows/user"@,
            true,
            PayloadKind::Query,
            Shape::Page,
        )
    }

    fn descriptor(&self) -> (d: Descriptor) {
        Descriptor::new(
            Method::Get,
            "/user/follows/user".to_owned(),
            true,
            PayloadKind::Query,
            Shape::Page,
        )
    }
}

/// The manga that the logged user follows (requires authentication).
///
/// Call to `GET /user/follows/manga`.
#[derive(Debug, Default)]
pub struct ListFollowedManga {
    /// Page size
    pub limit: Option<i32>,
    /// Page offset
    pub offset: Option<i32>,
}

impl Endpoint for ListFollowedManga {
    open spec fn call(&self) -> DescriptorView {
        plain_call(
            Method::Get,
            "/user/follows/manga"@,
            true,
            PayloadKind::Query,
            Shape::Page,
        )
    }

    fn descriptor(&self) -> (d: Descriptor) {
        Descriptor::new(
            Method::Get,
            "/user/follows/manga".to_owned(),
            true,
            PayloadKind::Query,
            Shape::Page,
        )
    }
}

} // verus!
