//! Authors.

use crate::errors::Errors;
use crate::schema::common::{ApiData, ApiObject, OrderType, Results};
use crate::schema::time::Timestamp;
use vstd::prelude::*;

verus! {

/// By what a list of authors is sorted.
#[derive(Clone, Copy, Debug, PartialEq, Eq, Hash, Structural)]
pub struct AuthorOrder {
    pub name: OrderType,
}

/// What an author says of itself.
#[derive(Clone, Debug)]
pub struct AuthorAttributes {
    pub name: String,
    pub image_url: Option<String>,
    pub version: i32,
    pub created_at: Timestamp,
    pub updated_at: Timestamp,
}

pub type Author = ApiObject<AuthorAttributes>;

pub type AuthorResponse = Result<ApiData<Author>, Errors>;

pub type AuthorList = Results<AuthorResponse>;

} // verus!
