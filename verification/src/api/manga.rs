//! Manga.

use crate::client::{prepared, request_is, Client};
use crate::common::{
    plain_call, resource, resource_path, Descriptor, DescriptorView, Endpoint, Method,
    PayloadKind, Request, Shape,
};
use crate::errors::{Errors, ErrorsView, HttpError};
use crate::json::JsonView;
use crate::reply::{answer, payload, read_reply, reply_view, Reply};
use crate::schema::manga::{
    reading_status_body, reading_statuses, MangaReadingStatusBody, MangaReadingStatuses,
};
use crate::text::join_text;
use std::collections::HashMap;
use crate::ident::Uuid;
use crate::schema::common::PaginationQuery;
use crate::schema::manga::{
    ContentRating, Demographic, MangaFeedQuery, MangaOrder, MangaReadingStatus, MangaRequest,
    MangaStatus, TagMode,
};
use crate::schema::time::Timestamp;
use vstd::prelude::*;

verus! {

/// Manga list.
///
/// Search a list of manga.
///
/// Call to `GET /manga`.
#[derive(Debug, Default)]
pub struct ListManga<'a> {
    /// Page size
    pub limit: Option<i32>,
    /// Page offset
    pub offset: Option<i32>,
    /// Manga title
    pub title: Option<String>,
    /// Manga authors
    pub authors: Vec<&'a Uuid>,
    /// Manga artists
    pub artists: Vec<&'a Uuid>,
    /// Year of release
    pub year: Option<i32>,
    /// Included tags
    pub included_tags: Vec<&'a Uuid>,
    /// Tag inclusion mode
    pub included_tags_mode: Option<TagMode>,
    /// Excluded tags
    pub excluded_tags: Vec<&'a Uuid>,
    /// Tag exclusion mode
    pub excluded_tags_mode: Option<TagMode>,
    /// Manga status
    pub status: Vec<MangaStatus>,
    /// Original language
    pub original_language: Vec<String>,
    /// Publication demographic
    pub publication_demographic: Vec<Demographic>,
    /// Manga ids
    pub manga_ids: Vec<Uuid>,
    /// Content rating
    pub content_rating: Option<ContentRating>,
    /// Created after this time
    pub created_at_since: Option<Timestamp>,
    /// Updated after this time
    pub updated_at_since: Option<Timestamp>,
    /// Sorting order
    pub order: Option<MangaOrder>,
}

impl<'a> Endpoint for ListManga<'a> {
    open spec fn call(&self) -> DescriptorView {
        plain_call(
            Method::Get,
            "/manga"@,
            false,
            PayloadKind::Query,
            Shape::Page,
        )
    }

    fn descriptor(&self) -> (d: Descriptor) {
        Descriptor::new(
            Method::Get,
            "/manga".to_owned(),
            false,
            PayloadKind::Query,
            Shape::Page,
        )
    }
}

/// Create manga (requires authentication).
///
/// Call to `POST /manga`.
#[derive(Debug)]
pub struct CreateManga<'a> {
    /// What the manga is to be
    pub request: &'a MangaRequest,
}

impl<'a> Endpoint for CreateManga<'a> {
    open spec fn call(&self) -> DescriptorView {
        plain_call(
            Method::Post,
            "/manga"@,
            true,
            PayloadKind::Body,
            Shape::Single,
        )
    }

    fn descriptor(&self) -> (d: Descriptor) {
        Descriptor::new(
            Method::Post,
            "/manga".to_owned(),
            true,
            PayloadKind::Body,
            Shape::Single,
        )
    }
}

/// View manga.
///
/// Call to `GET /manga/{id}`.
#[derive(Debug)]
pub struct GetManga<'a> {
    /// Manga id
    pub id: &'a Uuid,
}

impl<'a> Endpoint for GetManga<'a> {
    open spec fn call(&self) -> DescriptorView {
        plain_call(
            Method::Get,
            resource("/manga/"@, *self.id, ""@),
            false,
            PayloadKind::NoData,
            Shape::Single,
        )
    }

    fn descriptor(&self) -> (d: Descriptor) {
        Descriptor::new(
            Method::Get,
            resource_path("/manga/", self.id, ""),
            false,
            PayloadKind::NoData,
            Shape::Single,
        )
    }
}

/// Update manga (requires authentication).
///
/// Call to `PUT /manga/{id}`.
#[derive(Debug)]
pub struct UpdateManga<'a> {
    /// Manga id
    pub id: &'a Uuid,
    /// What the manga is to be
    pub request: &'a MangaRequest,
}

impl<'a> Endpoint for UpdateManga<'a> {
    open spec fn call(&self) -> DescriptorView {
        plain_call(
            Method::Put,
            resource("/manga/"@, *self.id, ""@),
            true,
            PayloadKind::Body,
            Shape::Single,
        )
    }

    fn descriptor(&self) -> (d: Descriptor) {
        Descriptor::new(
            Method::Put,
            resource_path("/manga/", self.id, ""),
            true,
            PayloadKind::Body,
            Shape::Single,
        )
    }
}

/// Delete manga (requires authentication).
///
/// Call to `DELETE /manga/{id}`.
#[derive(Debug)]
pub struct DeleteManga<'a> {
    /// Manga id
    pub id: &'a Uuid,
}

impl<'a> Endpoint for DeleteManga<'a> {
    open spec fn call(&self) -> DescriptorView {
        plain_call(
            Method::Delete,
            resource("/manga/"@, *self.id, ""@),
            true,
            PayloadKind::NoData,
            Shape::Empty,
        )
    }

    fn descriptor(&self) -> (d: Descriptor) {
        Descriptor::new(
            Method::Delete,
            resource_path("/manga/", self.id, ""),
            true,
            PayloadKind::NoData,
            Shape::Empty,
        )
    }
}

/// Unfollow manga (requires authentication).
///
/// Call to `DELETE /manga/{id}/follow`.
#[derive(Debug)]
pub struct UnfollowManga<'a> {
    /// Manga id
    pub id: &'a Uuid,
}

impl<'a> Endpoint for UnfollowManga<'a> {
    open spec fn call(&self) -> DescriptorView {
        plain_call(
            Method::Delete,
            resource("/manga/"@, *self.id, "/follow"@),
            true,
            PayloadKind::NoData,
            Shape::Empty,
        )
    }

    fn descriptor(&self) -> (d: Descriptor) {
        Descriptor::new(
            Method::Delete,
            resource_path("/manga/", self.id, "/follow"),
            true,
            PayloadKind::NoData,
            Shape::Empty,
        )
    }
}

/// Follow manga (requires authentication).
///
/// Call to `POST /manga/{id}/follow`.
#[derive(Debug)]
pub struct FollowManga<'a> {
    /// Manga id
    pub id: &'a Uuid,
}

impl<'a> Endpoint for FollowManga<'a> {
    open spec fn call(&self) -> DescriptorView {
        plain_call(
            Method::Post,
            resource("/manga/"@, *self.id, "/follow"@),
            true,
            PayloadKind::NoData,
            Shape::Empty,
        )
    }

    fn descriptor(&self) -> (d: Descriptor) {
        Descriptor::new(
            Method::Post,
            resource_path("/manga/", self.id, "/follow"),
            true,
            PayloadKind::NoData,
            Shape::Empty,
        )
    }
}

/// Manga read markers (requires authentication).
///
/// A list of chapter ids that are marked as read for the specified manga.
///
/// Call to `GET /manga/{id}/read`.
#[derive(Debug)]
pub struct GetMangaReadMarkers<'a> {
    /// Manga id
    pub manga_id: &'a Uuid,
}

impl<'a> Endpoint for GetMangaReadMarkers<'a> {
    open spec fn call(&self) -> DescriptorView {
        plain_call(
            Method::Get,
            resource("/manga/"@, *self.manga_id, "/read"@),
            true,
            PayloadKind::NoData,
            Shape::Single,
        )
    }

    fn descriptor(&self) -> (d: Descriptor) {
        Descriptor::new(
            Method::Get,
            resource_path("/manga/", self.manga_id, "/read"),
            true,
            PayloadKind::NoData,
            Shape::Single,
        )
    }
}

/// Manga read markers (requires authentication).
///
/// A list of chapter ids that are marked as read for the given manga ids.
///
/// Call to `GET /manga/read`.
#[derive(Debug, Default)]
pub struct GetBatchMangaReadMarkers<'a> {
    /// Manga ids
    pub ids: Vec<&'a Uuid>,
}

impl<'a> Endpoint for GetBatchMangaReadMarkers<'a> {
    open spec fn call(&self) -> DescriptorView {
        plain_call(
            Method::Get,
            "/manga/read"@,
            true,
            PayloadKind::Query,
            Shape::Single,
        )
    }

    fn descriptor(&self) -> (d: Descriptor) {
        Descriptor::new(
            Method::Get,
            "/manga/read".to_owned(),
            true,
            PayloadKind::Query,
            Shape::Single,
        )
    }
}

/// Get a random manga.
///
/// Call to `GET /manga/random`.
#[derive(Debug)]
pub struct RandomManga;

impl Endpoint for RandomManga {
    open spec fn call(&self) -> DescriptorView {
        plain_call(
            Method::Get,
            "/manga/random"@,
            false,
            PayloadKind::NoData,
            Shape::Single,
        )
    }

    fn descriptor(&self) -> (d: Descriptor) {
        Descriptor::new(
            Method::Get,
            "/manga/random".to_owned(),
            false,
            PayloadKind::NoData,
            Shape::Single,
        )
    }
}

/// Global tag list.
///
/// Call to `GET /manga/tag`.
#[derive(Debug)]
pub struct ListTags;

impl Endpoint for ListTags {
    open spec fn call(&self) -> DescriptorView {
        plain_call(
            Method::Get,
            "/manga/tag"@,
            false,
            PayloadKind::NoData,
            Shape::List,
        )
    }

    fn descriptor(&self) -> (d: Descriptor) {
        Descriptor::new(
            Method::Get,
            "/manga/tag".to_owned(),
            false,
            PayloadKind::NoData,
            Shape::List,
        )
    }
}

/// The manga that the logged user follows (requires authentication).
///
/// Call to `GET /user/follows/manga`.
#[derive(Debug)]
pub struct ListFollowedManga<'a> {
    /// Page size and offset
    pub query: &'a PaginationQuery,
}

impl<'a> Endpoint for ListFollowedManga<'a> {
    open spec fn call(&self) -> DescriptorView {
        plain_call(
            Method::Get,
            "/user/follows/manga"@,
            true,
            PayloadKind::Query,
            Shape::Page,
        )
    }

    fn descriptor(&self) -> (d: Descriptor) {
        Descriptor::new(
            Method::Get,
            "/user/follows/manga".to_owned(),
            true,
            PayloadKind::Query,
            Shape::Page,
        )
    }
}

/// Get all manga reading status for logged user (requires authentication).
///
/// Call to `GET /manga/status`.
#[derive(Debug, Default)]
pub struct AllMangaStatus {
    /// Only the manga with this status
    pub status: Option<MangaReadingStatus>,
}

impl Endpoint for AllMangaStatus {
    open spec fn call(&self) -> DescriptorView {
        plain_call(
            Method::Get,
            "/manga/status"@,
            true,
            PayloadKind::Query,
            Shape::Single,
        )
    }

    fn descriptor(&self) -> (d: Descriptor) {
        Descriptor::new(
            Method::Get,
            "/manga/status".to_owned(),
            true,
            PayloadKind::Query,
            Shape::Single,
        )
    }
}

/// Get manga reading status (requires authentication).
///
/// Call to `GET /manga/{id}/status`.
#[derive(Debug)]
pub struct GetMangaStatus<'a> {
    /// Manga id
    pub id: &'a Uuid,
}

impl<'a> Endpoint for GetMangaStatus<'a> {
    open spec fn call(&self) -> DescriptorView {
        plain_call(
            Method::Get,
            resource("/manga/"@, *self.id, "/status"@),
            true,
            PayloadKind::NoData,
            Shape::Single,
        )
    }

    fn descriptor(&self) -> (d: Descriptor) {
        Descriptor::new(
            Method::Get,
            resource_path("/manga/", self.id, "/status"),
            true,
            PayloadKind::NoData,
            Shape::Single,
        )
    }
}

/// Update manga reading status (requires authentication).
///
/// Call to `POST /manga/{id}/status`.
#[derive(Debug)]
pub struct UpdateMangaStatus<'a> {
    /// Manga id
    pub id: &'a Uuid,
    /// The new status
    pub status: MangaReadingStatus,
}

impl<'a> Endpoint for UpdateMangaStatus<'a> {
    open spec fn call(&self) -> DescriptorView {
        plain_call(
            Method::Post,
            resource("/manga/"@, *self.id, "/status"@),
            true,
            PayloadKind::Body,
            Shape::Empty,
        )
    }

    fn descriptor(&self) -> (d: Descriptor) {
        Descriptor::new(
            Method::Post,
            resource_path("/manga/", self.id, "/status"),
            true,
            PayloadKind::Body,
            Shape::Empty,
        )
    }
}

/// The reading status of one manga, as the answer that came back as
/// `reply` names it.
pub open spec fn reading_status_answer(reply: Reply) -> Result<MangaReadingStatusBody, ErrorsView> {
    answer(reply, |json: JsonView| reading_status_body(json))
}

/// The reading status of every manga of the user, as the answer that came
/// back as `reply` names them, by the number of each manga's id.
pub open spec fn reading_statuses_answer(reply: Reply) -> Result<
    Map<u128, MangaReadingStatus>,
    ErrorsView,
> {
    answer(reply, |json: JsonView| reading_statuses(json))
}

impl<'a> GetMangaStatus<'a> {
    /// Builds the request of the call for `client`.
    pub fn send(&self, client: &Client) -> (r: Result<Request, Errors>)
        ensures
            request_is(r, prepared(client@.base_url, client@.tokens, self.call(), None)),
    {
        client.request(self, None)
    }

    /// Takes the reply to the call and gives the reading status.
    pub fn receive(reply: Result<String, HttpError>) -> (r: Result<MangaReadingStatus, Errors>)
        ensures
            match r {
                Ok(status) => reading_status_answer(reply_view(reply)) == Ok::<
                    MangaReadingStatusBody,
                    ErrorsView,
                >(MangaReadingStatusBody { status }),
                Err(error) => reading_status_answer(reply_view(reply)) == Err::<
                    MangaReadingStatusBody,
                    ErrorsView,
                >(error@),
            },
    {
        let json = match read_reply(reply) {
            Ok(json) => json,
            Err(error) => {
                return Err(error);
            },
        };
        match payload(&json) {
            Ok(payload) => match MangaReadingStatusBody::from_json(payload) {
                Some(body) => Ok(body.status),
                None => Err(Errors::Http(HttpError::Decode)),
            },
            Err(error) => Err(error),
        }
    }
}

impl AllMangaStatus {
    /// The query of the call: the name of the status under `status`, or
    /// nothing where no status is asked for.
    pub open spec fn query_text(&self) -> Seq<char> {
        match self.status {
            Some(status) => "status="@ + status.name(),
            None => Seq::empty(),
        }
    }

    /// Writes the query of the call.
    pub fn query(&self) -> (text: String)
        ensures
            text@ == self.query_text(),
    {
        match &self.status {
            Some(status) => join_text("status=", status.as_str()),
            None => String::new(),
        }
    }

    /// Builds the request of the call for `client`.
    pub fn send(&self, client: &Client) -> (r: Result<Request, Errors>)
        ensures
            request_is(
                r,
                prepared(client@.base_url, client@.tokens, self.call(), Some(self.query_text())),
            ),
    {
        client.request(self, Some(self.query()))
    }

    /// Takes the reply to the call and gives the reading status of every
    /// manga, by the number of the manga's id.
    pub fn receive(reply: Result<String, HttpError>) -> (r: Result<
        HashMap<u128, MangaReadingStatus>,
        Errors,
    >)
        ensures
            match r {
                Ok(found) => reading_statuses_answer(reply_view(reply)) == Ok::<
                    Map<u128, MangaReadingStatus>,
                    ErrorsView,
                >(found@),
                Err(error) => reading_statuses_answer(reply_view(reply)) == Err::<
                    Map<u128, MangaReadingStatus>,
                    ErrorsView,
                >(error@),
            },
    {
        let json = match read_reply(reply) {
            Ok(json) => json,
            Err(error) => {
                return Err(error);
            },
        };
        match payload(&json) {
            Ok(payload) => match MangaReadingStatuses::from_json(payload) {
                Some(found) => Ok(found.statuses),
                None => Err(Errors::Http(HttpError::Decode)),
            },
            Err(error) => Err(error),
        }
    }
}

/// Manga feed, with the filter as a value of its own.
///
/// Call to `GET /manga/{id}/feed`.
#[derive(Debug)]
pub struct MangaFeed<'a> {
    /// Manga id
    pub manga_id: &'a Uuid,
    /// Which chapters to list
    pub query: &'a MangaFeedQuery,
}

impl<'a> Endpoint for MangaFeed<'a> {
    open spec fn call(&self) -> DescriptorView {
        plain_call(
            Method::Get,
            resource("/manga/"@, *self.manga_id, "/feed"@),
            false,
            PayloadKind::Query,
            Shape::Page,
        )
    }

    fn descriptor(&self) -> (d: Descriptor) {
        Descriptor::new(
            Method::Get,
            resource_path("/manga/", self.manga_id, "/feed"),
            false,
            PayloadKind::Query,
            Shape::Page,
        )
    }
}

/// Another name of [`GetManga`].
pub type ViewManga<'a> = GetManga<'a>;

/// Another name of [`ListFollowedManga`].
pub type FollowedMangaList<'a> = ListFollowedManga<'a>;

/// Another name of [`ListTags`].
pub type TagList = ListTags;

/// Another name of [`GetBatchMangaReadMarkers`].
pub type MangaReadMarkers<'a> = GetBatchMangaReadMarkers<'a>;

} // verus!
