//! Cover art.

use crate::errors::Errors;
use crate::schema::common::{ApiData, ApiObject, OrderType, Results};
use crate::schema::time::Timestamp;
use vstd::prelude::*;

verus! {

/// By what a list of covers is sorted.
#[derive(Clone, Copy, Debug, PartialEq, Eq, Hash, Structural)]
pub enum CoverOrder {
    CreatedAt(OrderType),
    UpdatedAt(OrderType),
    Volume(OrderType),
}

/// What a cover says of itself.
#[derive(Clone, Debug)]
pub struct CoverAttributes {
    pub volume: Option<String>,
    pub file_name: String,
    pub description: Option<String>,
    pub version: i32,
    pub created_at: Timestamp,
    pub updated_at: Timestamp,
}

pub type Cover = ApiObject<CoverAttributes>;

pub type CoverResponse = Result<ApiData<Cover>, Errors>;

pub type CoverList = Results<CoverResponse>;

} // verus!
