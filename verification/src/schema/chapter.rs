//! Chapters.

use crate::errors::Errors;
use crate::ident::Uuid;
use crate::schema::common::{ApiData, ApiObject, OrderType, Results};
use crate::schema::time::Timestamp;
use vstd::prelude::*;

verus! {

/// What a chapter says of itself.
#[derive(Clone, Debug)]
pub struct ChapterAttributes {
    pub title: String,
    pub volume: Option<String>,
    pub translated_language: String,
    pub hash: String,
    pub data: Vec<String>,
    pub data_saver: Vec<String>,
    pub uploader: Uuid,
    pub version: i32,
    pub created_at: Timestamp,
    pub updated_at: Timestamp,
    pub publish_at: Timestamp,
}

/// By what a list of chapters is sorted.
#[derive(Clone, Copy, Debug, PartialEq, Eq, Hash, Structural)]
pub enum ChapterOrder {
    CreatedAt(OrderType),
    UpdatedAt(OrderType),
    PublishAt(OrderType),
    Volume(OrderType),
    Chapter(OrderType),
}

pub type Chapter = ApiObject<ChapterAttributes>;

pub type ChapterResponse = Result<ApiData<Chapter>, Errors>;

pub type ChapterList = Results<ChapterResponse>;

} // verus!
