//! Reports and the reasons for them.

use crate::errors::Errors;
use crate::schema::common::{ApiData, ApiObject, LocalizedString, Results};
use vstd::prelude::*;

verus! {

/// What a report is about.
#[derive(Clone, Copy, Debug, PartialEq, Eq, Hash, Structural)]
pub enum ReportCategory {
    Manga,
    Chapter,
    ScanlationGroup,
    User,
}

impl ReportCategory {
    /// The name of the category, as it stands in a path.
    pub open spec fn name(self) -> Seq<char> {
        match self {
            ReportCategory::Manga => "manga"@,
            ReportCategory::Chapter => "chapter"@,
            ReportCategory::ScanlationGroup => "scanlation_group"@,
            ReportCategory::User => "user"@,
        }
    }

    /// The name of the category, as it stands in a path.
    pub fn as_str(&self) -> (name: &'static str)
        ensures
            name@ == self.name(),
    {
        match self {
            ReportCategory::Manga => "manga",
            ReportCategory::Chapter => "chapter",
            ReportCategory::ScanlationGroup => "scanlation_group",
            ReportCategory::User => "user",
        }
    }

    /// The name of the category, as an owned text.
    pub fn fmt(&self) -> (name: String)
        ensures
            name@ == self.name(),
    {
        self.as_str().to_owned()
    }
}

/// What a reason for a report says of itself.
#[derive(Clone, Debug)]
pub struct ReportAttributes {
    pub reason: LocalizedString,
    pub details_required: bool,
    pub category: ReportCategory,
    pub version: i32,
}

pub type Report = ApiObject<ReportAttributes>;

pub type ReportResponse = Result<ApiData<Report>, Errors>;

pub type ReportList = Results<ReportResponse>;

} // verus!
