//! Users.

use crate::errors::Errors;
use crate::schema::common::{ApiData, ApiObject, OrderType, Results};
use vstd::prelude::*;

verus! {

/// What a user says of itself.
#[derive(Clone, Debug)]
pub struct UserAttributes {
    pub username: String,
    pub version: i32,
}

/// The kind of a user resource.
#[derive(Clone, Copy, Debug, PartialEq, Eq, Hash, Structural)]
pub enum UserType {
    User,
}

/// By what a list of users is sorted.
#[derive(Clone, Copy, Debug, PartialEq, Eq, Hash, Structural)]
pub enum UserOrder {
    Username(OrderType),
}

pub type User = ApiObject<UserAttributes, UserType>;

pub type UserResponse = Result<ApiData<User>, Errors>;

pub type UserList = Results<UserResponse>;

} // verus!
