//! The operations of the API, one value for each call.

pub mod account;
pub mod at_home;
pub mod auth;
pub mod author;
pub mod captcha;
pub mod chapter;
pub mod cover;
pub mod feed;
pub mod group;
pub mod infrastructure;
pub mod legacy;
pub mod list;
pub mod manga;
pub mod report;
pub mod user;
