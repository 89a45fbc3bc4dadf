//! The mapping from the ids of the old site to the ids of this one.

use crate::errors::Errors;
use crate::ident::Uuid;
use crate::schema::common::{ApiData, ApiObject};
use vstd::prelude::*;

verus! {

/// The kind of resource that an old id belongs to.
#[derive(Clone, Copy, Debug, PartialEq, Eq, Hash, Structural)]
pub enum MappingType {
    Group,
    Manga,
    Chapter,
    Tag,
}

/// The kind of a mapping resource.
#[derive(Clone, Copy, Debug, PartialEq, Eq, Hash, Structural)]
pub enum MappingIdType {
    MappingId,
}

/// One old id and the id that took its place.
#[derive(Clone, Copy, Debug, PartialEq, Eq, Hash, Structural)]
pub struct MappingIdAttributes {
    pub kind: MappingType,
    pub legacy_id: u32,
    pub new_id: Uuid,
}

pub type MappingId = ApiObject<MappingIdAttributes, MappingIdType>;

pub type MappingIdResponse = Result<ApiData<MappingId>, Errors>;

} // verus!
