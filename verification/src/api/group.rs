//! Scanlation groups.

use crate::common::{
    plain_call, resource, resource_path, Descriptor, DescriptorView, Endpoint, Method,
    PayloadKind, Shape,
};
use crate::ident::Uuid;
use crate::schema::common::PaginationQuery;
use vstd::prelude::*;

verus! {

/// Scanlation group list.
///
/// Call to `GET /group`.
#[derive(Debug, Default)]
pub struct ListGroups<'a> {
    /// Page size and offset
    pub pagination: PaginationQuery,
    /// Group ids (limited to 100 per request)
    pub ids: Vec<&'a Uuid>,
    /// Group name
    pub name: Option<&'a str>,
}

impl<'a> Endpoint for ListGroups<'a> {
    open spec fn call(&self) -> DescriptorView {
        plain_call(
            Method::Get,
            "/group"@,
            false,
            PayloadKind::Query,
            Shape::Page,
        )
    }

    fn descriptor(&self) -> (d: Descriptor) {
        Descriptor::new(
            Method::Get,
            "/group".to_owned(),
            false,
            PayloadKind::Query,
            Shape::Page,
        )
    }
}

/// Create scanlation group (requires authentication).
///
/// Call to `POST /group`.
#[derive(Debug)]
pub struct CreateGroup<'a> {
    /// Group name
    pub name: &'a str,
    /// Leader of the group
    pub leader: &'a Uuid,
    /// Members of the group
    pub members: Vec<&'a Uuid>,
    /// Version
    pub version: i32,
}

impl<'a> Endpoint for CreateGroup<'a> {
    open spec fn call(&self) -> DescriptorView {
        plain_call(
            Method::Post,
            "/group"@,
            true,
            PayloadKind::Body,
            Shape::Single,
        )
    }

    fn descriptor(&self) -> (d: Descriptor) {
        Descriptor::new(
            Method::Post,
            "/group".to_owned(),
            true,
            PayloadKind::Body,
            Shape::Single,
        )
    }
}

/// View scanlation group.
///
/// Call to `GET /group/{id}`.
#[derive(Debug)]
pub struct ViewGroup<'a> {
    /// Group id
    pub id: &'a Uuid,
}

impl<'a> Endpoint for ViewGroup<'a> {
    open spec fn call(&self) -> DescriptorView {
        plain_call(
            Method::Get,
            resource("/group/"@, *self.id, ""@),
            false,
            PayloadKind::NoData,
            Shape::Single,
        )
    }

    fn descriptor(&self) -> (d: Descriptor) {
        Descriptor::new(
            Method::Get,
            resource_path("/group/", self.id, ""),
            false,
            PayloadKind::NoData,
            Shape::Single,
        )
    }
}

/// Update scanlation group (requires authentication).
///
/// Call to `PUT /group/{id}`.
#[derive(Debug)]
pub struct UpdateGroup<'a> {
    /// Group id
    pub id: &'a Uuid,
    /// Group name
    pub name: &'a str,
    /// Leader of the group
    pub leader: Uuid,
    /// Members of the group
    pub members: Vec<Uuid>,
    /// Version
    pub version: i32,
}

impl<'a> Endpoint for UpdateGroup<'a> {
    open spec fn call(&self) -> DescriptorView {
        plain_call(
            Method::Put,
            resource("/group/"@, *self.id, ""@),
            true,
            PayloadKind::Body,
            Shape::Single,
        )
    }

    fn descriptor(&self) -> (d: Descriptor) {
        Descriptor::new(
            Method::Put,
            resource_path("/group/", self.id, ""),
            true,
            PayloadKind::Body,
            Shape::Single,
        )
    }
}

/// Delete scanlation group (requires authentication).
///
/// Call to `DELETE /group/{id}`.
#[derive(Debug)]
pub struct DeleteGroup<'a> {
    /// Group id
    pub id: &'a Uuid,
}

impl<'a> Endpoint for DeleteGroup<'a> {
    open spec fn call(&self) -> DescriptorView {
        plain_call(
            Method::Delete,
            resource("/group/"@, *self.id, ""@),
            true,
            PayloadKind::NoData,
            Shape::Empty,
        )
    }

    fn descriptor(&self) -> (d: Descriptor) {
        Descriptor::new(
            Method::Delete,
            resource_path("/group/", self.id, ""),
            true,
            PayloadKind::NoData,
            Shape::Empty,
        )
    }
}

/// Follow scanlation group (requires authentication).
///
/// Call to `POST /group/{id}/follow`.
#[derive(Debug)]
pub struct FollowGroup<'a> {
    /// Group id
    pub id: &'a Uuid,
}

impl<'a> Endpoint for FollowGroup<'a> {
    open spec fn call(&self) -> DescriptorView {
        plain_call(
            Method::Post,
            resource("/group/"@, *self.id, "/follow"@),
            true,
            PayloadKind::NoData,
            Shape::Empty,
        )
    }

    fn descriptor(&self) -> (d: Descriptor) {
        Descriptor::new(
            Method::Post,
            resource_path("/group/", self.id, "/follow"),
            true,
            PayloadKind::NoData,
            Shape::Empty,
        )
    }
}

/// Unfollow scanlation group (requires authentication).
///
/// Call to `DELETE /group/{id}/follow`.
#[derive(Debug)]
pub struct UnfollowGroup<'a> {
    /// Group id
    pub id: &'a Uuid,
}

impl<'a> Endpoint for UnfollowGroup<'a> {
    open spec fn call(&self) -> DescriptorView {
        plain_call(
            Method::Delete,
            resource("/group/"@, *self.id, "/follow"@),
            true,
            PayloadKind::NoData,
            Shape::Empty,
        )
    }

    fn descriptor(&self) -> (d: Descriptor) {
        Descriptor::new(
            Method::Delete,
            resource_path("/group/", self.id, "/follow"),
            true,
            PayloadKind::NoData,
            Shape::Empty,
        )
    }
}

/// The groups that the logged user follows (requires authentication).
///
/// Call to `GET /user/follows/group`.
#[derive(Debug)]
pub struct FollowedGroups<'a> {
    /// Page size and offset
    pub pagination: &'a PaginationQuery,
}

impl<'a> Endpoint for FollowedGroups<'a> {
    open spec fn call(&self) -> DescriptorView {
        plain_call(
            Method::Get,
            "/user/follows/group"@,
            true,
            PayloadKind::Query,
            Shape::Page,
        )
    }

    fn descriptor(&self) -> (d: Descriptor) {
        Descriptor::new(
            Method::Get,
            "/user/follows/group".to_owned(),
            true,
            PayloadKind::Query,
            Shape::Page,
        )
    }
}

/// Scanlation group list, with every filter given.
///
/// Call to `GET /group`.
#[derive(Debug, Default)]
pub struct ListGroupReq {
    /// Page size
    pub limit: Option<i32>,
    /// Page offset
    pub offset: Option<i32>,
    /// Group ids (limited to 100 per request)
    pub ids: Option<Vec<Uuid>>,
    /// Group name
    pub name: Option<String>,
}

impl ListGroupReq {
    /// The search for the groups `ids` with the name `name`, of which the
    /// page of at most `limit` items from item `offset` on is asked for.
    pub fn new(limit: i32, offset: i32, ids: Vec<Uuid>, name: &str) -> (query: ListGroupReq)
        ensures
            query.limit == Some(limit),
            query.offset == Some(offset),
            query.ids == Some(ids),
            query.name matches Some(text) && text@ == name@,
    {
        ListGroupReq {
            limit: Some(limit),
            offset: Some(offset),
            ids: Some(ids),
            name: Some(name.to_owned()),
        }
    }
}

impl Endpoint for ListGroupReq {
    open spec fn call(&self) -> DescriptorView {
        plain_call(Method::Get, "/group"@, false, PayloadKind::Query, Shape::Page)
    }

    fn descriptor(&self) -> (d: Descriptor) {
        Descriptor::new(Method::Get, "/group".to_owned(), false, PayloadKind::Query, Shape::Page)
    }
}

/// Create scanlation group (requires authentication), with the name and
/// the members as values of its own.
///
/// Call to `POST /group`.
#[derive(Clone, Debug)]
pub struct CreateGroupReq {
    /// Group name
    pub name: String,
    /// Leader of the group
    pub leader: Option<Uuid>,
    /// Members of the group
    pub members: Option<Vec<Uuid>>,
    /// Version
    pub version: i32,
}

impl Endpoint for CreateGroupReq {
    open spec fn call(&self) -> DescriptorView {
        plain_call(Method::Post, "/group"@, true, PayloadKind::Body, Shape::Single)
    }

    fn descriptor(&self) -> (d: Descriptor) {
        Descriptor::new(Method::Post, "/group".to_owned(), true, PayloadKind::Body, Shape::Single)
    }
}

/// Update scanlation group (requires authentication), where the body
/// says which group is meant.
///
/// Call to `PUT /group`.
#[derive(Clone, Debug)]
pub struct UpdateGroupReq {
    /// Group name
    pub name: String,
    /// Leader of the group
    pub leader: Option<Uuid>,
    /// Members of the group
    pub members: Option<Vec<Uuid>>,
    /// Version
    pub version: i32,
}

impl Endpoint for UpdateGroupReq {
    open spec fn call(&self) -> DescriptorView {
        plain_call(Method::Put, "/group"@, true, PayloadKind::Body, Shape::Single)
    }

    fn descriptor(&self) -> (d: Descriptor) {
        Descriptor::new(Method::Put, "/group".to_owned(), true, PayloadKind::Body, Shape::Single)
    }
}

/// Another name of [`ViewGroup`].
pub type ViewGroupReq<'a> = ViewGroup<'a>;

/// Another name of [`DeleteGroup`].
pub type DeleteGroupReq<'a> = DeleteGroup<'a>;

/// Another name of [`FollowGroup`].
pub type FollowGroupReq<'a> = FollowGroup<'a>;

/// Another name of [`UnfollowGroup`].
pub type UnfollowGroupReq<'a> = UnfollowGroup<'a>;

/// Another name of [`FollowedGroups`].
pub type FollowedGroupsReq<'a> = FollowedGroups<'a>;

} // verus!
