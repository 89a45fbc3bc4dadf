//! Scanlation groups.

use crate::errors::Errors;
use crate::schema::common::{ApiData, ApiObject, Results};
use crate::schema::time::Timestamp;
use crate::schema::user::User;
use vstd::prelude::*;

verus! {

/// What a scanlation group says of itself.
#[derive(Clone, Debug)]
pub struct ScanlationGroupAttributes {
    pub name: String,
    pub leader: User,
    pub website: Option<String>,
    pub irc_server: Option<String>,
    pub irc_channel: Option<String>,
    pub discord: Option<String>,
    pub contact_email: Option<String>,
    pub description: Option<String>,
    pub locked: bool,
    pub version: i32,
    pub created_at: Timestamp,
    pub updated_at: Timestamp,
}

/// The kind of a scanlation group resource.
#[derive(Clone, Copy, Debug, PartialEq, Eq, Hash, Structural)]
pub enum ScanlationGroupType {
    ScanlationGroup,
}

pub type ScanlationGroup = ApiObject<ScanlationGroupAttributes, ScanlationGroupType>;

pub type ScanlationGroupData = ApiData<ScanlationGroup>;

pub type ScanlationGroupResponse = Result<ScanlationGroupData, Errors>;

pub type ScanlationGroupList = Results<ScanlationGroupResponse>;

} // verus!
