//! The shapes of what the API sends and receives.

pub mod at_home;
pub mod auth;
pub mod author;
pub mod chapter;
pub mod common;
pub mod cover;
pub mod errors;
pub mod feed;
pub mod group;
pub mod legacy;
pub mod list;
pub mod manga;
pub mod report;
pub mod time;
pub mod user;

pub use common::{
    ApiData, ApiObject, ApiResult, FromResponse, LanguageCode, LocalizedString, NoData,
    OrderType, PaginationQuery, Relationship, ResourceType, Results,
};
