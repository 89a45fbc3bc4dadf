//! Reports.

use crate::common::{
    plain_call, Descriptor, DescriptorView, Endpoint, Method, PayloadKind, Shape,
};
use crate::ident::Uuid;
use crate::schema::report::ReportCategory;
use crate::text::join_text;
use vstd::prelude::*;

verus! {

/// The reasons for which something of a category can be reported.
///
/// Call to `GET /reports/reasons/{category}`.
#[derive(Debug)]
pub struct ListReports {
    /// What the report is about
    pub category: ReportCategory,
}

impl Endpoint for ListReports {
    open spec fn call(&self) -> DescriptorView {
        plain_call(
            Method::Get,
            "/reports/reasons/"@ + self.category.name(),
            false,
            PayloadKind::Query,
            Shape::Page,
        )
    }

    fn descriptor(&self) -> (d: Descriptor) {
        Descriptor::new(
            Method::Get,
            join_text("/reports/reasons/", self.category.as_str()),
            false,
            PayloadKind::Query,
            Shape::Page,
        )
    }
}

/// Create a report (requires authentication).
///
/// Call to `POST /report`.
#[derive(Debug)]
pub struct CreateReport<'a> {
    /// What the report is about
    pub category: ReportCategory,
    /// The reason for the report
    pub reason: &'a str,
    /// What is reported
    pub object_id: &'a Uuid,
    /// Details
    pub details: &'a str,
}

impl<'a> Endpoint for CreateReport<'a> {
    open spec fn call(&self) -> DescriptorView {
        plain_call(
            Method::Post,
            "/report"@,
            true,
            PayloadKind::Body,
            Shape::Single,
        )
    }

    fn descriptor(&self) -> (d: Descriptor) {
        Descriptor::new(
            Method::Post,
            "/report".to_owned(),
            true,
            PayloadKind::Body,
            Shape::Single,
        )
    }
}

} // verus!
