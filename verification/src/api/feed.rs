//! Chapter feed.

use crate::common::{
    plain_call, resource, resource_path, Descriptor, DescriptorView, Endpoint, Method,
    PayloadKind, Shape,
};
use crate::ident::Uuid;
use crate::schema::common::LanguageCode;
use crate::schema::feed::FeedOrder;
use crate::schema::time::Timestamp;
use vstd::prelude::*;

verus! {

/// Manga feed.
///
/// Call to `GET /manga/{id}/feed`.
#[derive(Debug)]
pub struct GetMangaFeed<'a> {
    /// Manga id
    pub manga_id: &'a Uuid,
    /// Page size
    pub limit: Option<i32>,
    /// Page offset
    pub offset: Option<i32>,
    /// Translated languages
    pub translated_language: Vec<LanguageCode>,
    /// Created after this time
    pub created_at_since: Option<Timestamp>,
    /// Updated after this time
    pub updated_at_since: Option<Timestamp>,
    /// Published after this time
    pub publish_at_since: Option<Timestamp>,
    /// Sort order
    pub order: Option<FeedOrder>,
}

impl<'a> Endpoint for GetMangaFeed<'a> {
    open spec fn call(&self) -> DescriptorView {
        plain_call(
            Method::Get,
            resource("/manga/"@, *self.manga_id, "/feed"@),
            false,
            PayloadKind::Query,
            Shape::Page,
        )
    }

    fn descriptor(&self) -> (d: Descriptor) {
        Descriptor::new(
            Method::Get,
            resource_path("/manga/", self.manga_id, "/feed"),
            false,
            PayloadKind::Query,
            Shape::Page,
        )
    }
}

/// Feed of the manga that the logged user follows (requires authentication).
///
/// Call to `GET /user/follows/manga/feed`.
#[derive(Debug, Default)]
pub struct FollowedMangaFeed {
    /// Page size
    pub limit: Option<i32>,
    /// Page offset
    pub offset: Option<i32>,
    /// Translated languages
    pub translated_language: Vec<LanguageCode>,
    /// Created after this time
    pub created_at_since: Option<Timestamp>,
    /// Updated after this time
    pub updated_at_since: Option<Timestamp>,
    /// Published after this time
    pub publish_at_since: Option<Timestamp>,
    /// Sort order
    pub order: Option<FeedOrder>,
}

impl Endpoint for FollowedMangaFeed {
    open spec fn call(&self) -> DescriptorView {
        plain_call(
            Method::Get,
            "/user/follows/manga/feed"@,
            true,
            PayloadKind::Body,
            Shape::Page,
        )
    }

    fn descriptor(&self) -> (d: Descriptor) {
        Descriptor::new(
            Method::Get,
            "/user/follows/manga/feed".to_owned(),
            true,
            PayloadKind::Body,
            Shape::Page,
        )
    }
}

/// Custom list manga feed.
///
/// Call to `GET /list/{id}/feed`.
#[derive(Debug)]
pub struct CustomListMangaFeed<'a> {
    /// List id
    pub list_id: &'a Uuid,
    /// Page size
    pub limit: Option<i32>,
    /// Page offset
    pub offset: Option<i32>,
    /// Translated languages
    pub translated_language: Vec<LanguageCode>,
    /// Created after this time
    pub created_at_since: Option<Timestamp>,
    /// Updated after this time
    pub updated_at_since: Option<Timestamp>,
    /// Published after this time
    pub publish_at_since: Option<Timestamp>,
    /// Sort order
    pub order: Option<FeedOrder>,
}

impl<'a> Endpoint for CustomListMangaFeed<'a> {
    open spec fn call(&self) -> DescriptorView {
        plain_call(
            Method::Get,
            resource("/list/"@, *self.list_id, "/feed"@),
            false,
            PayloadKind::Query,
            Shape::Page,
        )
    }

    fn descriptor(&self) -> (d: Descriptor) {
        Descriptor::new(
            Method::Get,
            resource_path("/list/", self.list_id, "/feed"),
            false,
            PayloadKind::Query,
            Shape::Page,
        )
    }
}

} // verus!
