//! Legacy mapping.

use crate::common::{
    plain_call, Descriptor, DescriptorView, Endpoint, Method, PayloadKind, Shape,
};
use crate::schema::legacy::MappingType;
use vstd::prelude::*;

verus! {

/// The ids that took the place of the ids of the old site.
///
/// Call to `POST /legacy/mapping`.
#[derive(Debug)]
pub struct LegacyMapping {
    /// The kind of resource that the ids belong to
    pub kind: MappingType,
    /// Ids of the old site
    pub ids: Vec<u32>,
}

impl Endpoint for LegacyMapping {
    open spec fn call(&self) -> DescriptorView {
        plain_call(
            Method::Post,
            "/legacy/mapping"@,
            false,
            PayloadKind::Body,
            Shape::List,
        )
    }

    fn descriptor(&self) -> (d: Descriptor) {
        Descriptor::new(
            Method::Post,
            "/legacy/mapping".to_owned(),
            false,
            PayloadKind::Body,
            Shape::List,
        )
    }
}

/// Another name of [`LegacyMapping`].
pub type LegacyMappingReq = LegacyMapping;

} // verus!
