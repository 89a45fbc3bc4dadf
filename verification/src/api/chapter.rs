//! Chapter data.

use crate::common::{
    plain_call, resource, resource_path, Descriptor, DescriptorView, Endpoint, Method,
    PayloadKind, Shape,
};
use crate::ident::Uuid;
use crate::schema::chapter::ChapterOrder;
use crate::schema::common::LanguageCode;
use crate::schema::time::Timestamp;
use vstd::prelude::*;

verus! {

/// Chapter list.
///
/// Call to `GET /chapter`.
#[derive(Debug, Default)]
pub struct ListChapters<'a> {
    /// Page size
    pub limit: Option<i32>,
    /// Page offset
    pub offset: Option<i32>,
    /// Chapter ids (limited to 100 per request)
    pub chapter_ids: Vec<&'a Uuid>,
    /// Chapter title
    pub title: Option<&'a str>,
    /// Scanlation groups
    pub groups: Vec<&'a Uuid>,
    /// Uploader
    pub uploader: Option<&'a Uuid>,
    /// Manga
    pub manga: Option<&'a Uuid>,
    /// Volume
    pub volume: Option<&'a str>,
    /// Chapter
    pub chapter: Option<&'a str>,
    /// Translated language
    pub translated_language: Option<LanguageCode>,
    /// Created after this time
    pub created_at_since: Option<Timestamp>,
    /// Updated after this time
    pub updated_at_since: Option<Timestamp>,
    /// Published after this time
    pub publish_at_since: Option<Timestamp>,
    /// Sort order
    pub order: Option<ChapterOrder>,
}

impl<'a> Endpoint for ListChapters<'a> {
    open spec fn call(&self) -> DescriptorView {
        plain_call(
            Method::Get,
            "/chapter"@,
            false,
            PayloadKind::Query,
            Shape::Page,
        )
    }

    fn descriptor(&self) -> (d: Descriptor) {
        Descriptor::new(
            Method::Get,
            "/chapter".to_owned(),
            false,
            PayloadKind::Query,
            Shape::Page,
        )
    }
}

/// Get chapter.
///
/// Call to `GET /chapter/{id}`.
#[derive(Debug)]
pub struct GetChapter<'a> {
    /// Chapter id
    pub chapter_id: &'a Uuid,
}

impl<'a> Endpoint for GetChapter<'a> {
    open spec fn call(&self) -> DescriptorView {
        plain_call(
            Method::Get,
            resource("/chapter/"@, *self.chapter_id, ""@),
            false,
            PayloadKind::NoData,
            Shape::Single,
        )
    }

    fn descriptor(&self) -> (d: Descriptor) {
        Descriptor::new(
            Method::Get,
            resource_path("/chapter/", self.chapter_id, ""),
            false,
            PayloadKind::NoData,
            Shape::Single,
        )
    }
}

/// Update chapter (requires authentication).
///
/// Call to `PUT /chapter/{id}`.
#[derive(Debug)]
pub struct UpdateChapter<'a> {
    /// Chapter id
    pub chapter_id: &'a Uuid,
    /// Chapter title
    pub title: &'a str,
    /// Volume
    pub volume: Option<&'a str>,
    /// Chapter
    pub chapter: Option<&'a str>,
    /// Translated language
    pub translated_language: LanguageCode,
    /// Pages
    pub data: Vec<&'a str>,
    /// Pages of the data saver
    pub data_saver: Vec<&'a str>,
    /// Version
    pub version: i32,
}

impl<'a> Endpoint for UpdateChapter<'a> {
    open spec fn call(&self) -> DescriptorView {
        plain_call(
            Method::Put,
            resource("/chapter/"@, *self.chapter_id, ""@),
            true,
            PayloadKind::Body,
            Shape::Single,
        )
    }

    fn descriptor(&self) -> (d: Descriptor) {
        Descriptor::new(
            Method::Put,
            resource_path("/chapter/", self.chapter_id, ""),
            true,
            PayloadKind::Body,
            Shape::Single,
        )
    }
}

/// Delete chapter (requires authentication).
///
/// Call to `DELETE /chapter/{id}`.
#[derive(Debug)]
pub struct DeleteChapter<'a> {
    /// Chapter id
    pub chapter_id: &'a Uuid,
}

impl<'a> Endpoint for DeleteChapter<'a> {
    open spec fn call(&self) -> DescriptorView {
        plain_call(
            Method::Delete,
            resource("/chapter/"@, *self.chapter_id, ""@),
            true,
            PayloadKind::NoData,
            Shape::Empty,
        )
    }

    fn descriptor(&self) -> (d: Descriptor) {
        Descriptor::new(
            Method::Delete,
            resource_path("/chapter/", self.chapter_id, ""),
            true,
            PayloadKind::NoData,
            Shape::Empty,
        )
    }
}

/// Mark chapter as read (requires authentication).
///
/// Call to `POST /chapter/{id}/read`.
#[derive(Debug)]
pub struct MarkChapterRead<'a> {
    /// Chapter id
    pub chapter_id: &'a Uuid,
}

impl<'a> Endpoint for MarkChapterRead<'a> {
    open spec fn call(&self) -> DescriptorView {
        plain_call(
            Method::Post,
            resource("/chapter/"@, *self.chapter_id, "/read"@),
            true,
            PayloadKind::NoData,
            Shape::Empty,
        )
    }

    fn descriptor(&self) -> (d: Descriptor) {
        Descriptor::new(
            Method::Post,
            resource_path("/chapter/", self.chapter_id, "/read"),
            true,
            PayloadKind::NoData,
            Shape::Empty,
        )
    }
}

/// Mark chapter as unread (requires authentication).
///
/// Call to `DELETE /chapter/{id}/read`.
#[derive(Debug)]
pub struct MarkChapterUnread<'a> {
    /// Chapter id
    pub chapter_id: &'a Uuid,
}

impl<'a> Endpoint for MarkChapterUnread<'a> {
    open spec fn call(&self) -> DescriptorView {
        plain_call(
            Method::Delete,
            resource("/chapter/"@, *self.chapter_id, "/read"@),
            true,
            PayloadKind::NoData,
            Shape::Empty,
        )
    }

    fn descriptor(&self) -> (d: Descriptor) {
        Descriptor::new(
            Method::Delete,
            resource_path("/chapter/", self.chapter_id, "/read"),
            true,
            PayloadKind::NoData,
            Shape::Empty,
        )
    }
}

} // verus!
