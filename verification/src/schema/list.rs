//! Custom lists.

use crate::errors::Errors;
use crate::schema::common::{ApiData, ApiObject, Results};
use crate::schema::user::User;
use vstd::prelude::*;

verus! {

/// Who can see a custom list.
#[derive(Clone, Copy, Debug, PartialEq, Eq, Hash, Structural)]
pub enum CustomListVisibility {
    Public,
    Private,
}

/// What a custom list says of itself.
#[derive(Clone, Debug)]
pub struct CustomListAttributes {
    pub name: String,
    pub visibility: CustomListVisibility,
    pub owner: User,
    pub version: i32,
}

pub type CustomList = ApiObject<CustomListAttributes>;

pub type CustomListResponse = Result<ApiData<CustomList>, Errors>;

pub type CustomListList = Results<CustomListResponse>;

} // verus!
