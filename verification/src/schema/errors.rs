//! The error records of an error envelope.

use crate::ident::{parsed_uuid, Uuid};
use crate::json::{each, optional_member_text, Json, JsonView};
use crate::text::optional_text;
use vstd::prelude::*;

verus! {

/// One error record of the API.
#[derive(Clone, Debug, PartialEq, Eq)]
pub struct ApiError {
    /// The error id.
    pub id: Uuid,
    /// The error status.
    pub status: i32,
    /// The error title.
    pub title: Option<String>,
    /// Details about the error.
    pub detail: Option<String>,
}

/// The value of an [`ApiError`].
pub struct ApiErrorView {
    pub id: Uuid,
    pub status: i32,
    pub title: Option<Seq<char>>,
    pub detail: Option<Seq<char>>,
}

impl View for ApiError {
    type V = ApiErrorView;

    open spec fn view(&self) -> ApiErrorView {
        ApiErrorView {
            id: self.id,
            status: self.status,
            title: optional_text(self.title),
            detail: optional_text(self.detail),
        }
    }
}

/// The error records that an error envelope carries.
#[derive(Clone, Debug, PartialEq, Eq)]
pub struct ApiErrors {
    /// A list of errors.
    pub errors: Vec<ApiError>,
}

impl View for ApiErrors {
    type V = Seq<ApiErrorView>;

    open spec fn view(&self) -> Seq<ApiErrorView> {
        Seq::new(self.errors@.len(), |i: int| self.errors@[i]@)
    }
}

/// The error record that `json` is: an object with a UUID as text under
/// `id`, an integer of 32 bits under `status`, and a text, `null` or nothing
/// under `title` and under `detail`. `None` for any other document.
pub open spec fn api_error(json: JsonView) -> Option<ApiErrorView> {
    match (
        json.member("id"@),
        json.member("status"@),
        optional_member_text(json, "title"@),
        optional_member_text(json, "detail"@),
    ) {
        (Some(JsonView::Text(id)), Some(status), Some(title), Some(detail)) => match (
            parsed_uuid(id),
            status.integer(),
        ) {
            (Some(value), Some(code)) if i32::MIN <= code <= i32::MAX => Some(
                ApiErrorView { id: Uuid { value }, status: code as i32, title, detail },
            ),
            _ => None,
        },
        _ => None,
    }
}

/// The error records of the document `json`: those of the array under
/// `errors`, none where the document has no such member. `None` where the
/// member is no array or one of its items is no error record.
pub open spec fn api_errors(json: JsonView) -> Option<Seq<ApiErrorView>> {
    match json.member("errors"@) {
        None => Some(Seq::empty()),
        Some(JsonView::Array(items)) => each(items, |item: JsonView| api_error(item)),
        Some(_) => None,
    }
}

impl ApiError {
    /// Reads an error record.
    pub fn from_json(json: &Json) -> (r: Option<ApiError>)
        ensures
            match r {
                Some(error) => api_error(json@) == Some(error@),
                None => api_error(json@) is None,
            },
    {
        let id = match json.get("id") {
            Some(id) => match id.as_str() {
                Some(id) => match Uuid::parse_str(id) {
                    Some(id) => id,
                    None => {
                        return None;
                    },
                },
                None => {
                    return None;
                },
            },
            None => {
                return None;
            },
        };
        let status = match json.get("status") {
            Some(status) => match status.as_i32() {
                Some(status) => status,
                None => {
                    return None;
                },
            },
            None => {
                return None;
            },
        };
        let title = match json.optional_text("title") {
            Some(title) => title,
            None => {
                return None;
            },
        };
        let detail = match json.optional_text("detail") {
            Some(detail) => detail,
            None => {
                return None;
            },
        };
        Some(ApiError { id, status, title, detail })
    }

    /// The record's one-line description.
    pub fn message(&self) -> (text: String)
        ensures
            text@ == "api error"@,
    {
        "api error".to_owned()
    }
}

impl ApiErrors {
    /// Reads the error records of a document.
    pub fn from_json(json: &Json) -> (r: Option<ApiErrors>)
        ensures
            match r {
                Some(errors) => api_errors(json@) == Some(errors@),
                None => api_errors(json@) is None,
            },
    {
        let items = match json.get("errors") {
            None => {
                let errors = ApiErrors { errors: Vec::new() };
                return Some(errors);
            },
            Some(member) => match member.as_array() {
                Some(items) => items,
                None => {
                    return None;
                },
            },
        };
        let ghost read = |item: JsonView| api_error(item);
        let mut errors: Vec<ApiError> = Vec::new();
        let mut i: usize = 0;
        while i < items.len()
            invariant
                i <= items.len(),
                errors@.len() == i,
                json@.member("errors"@) == Some(JsonView::Array(items.deep_view())),
                read == |item: JsonView| api_error(item),
                forall|k: int|
                    0 <= k < i ==> read(#[trigger] items.deep_view()[k]) == Some(errors@[k]@),
            decreases items.len() - i,
        {
            match ApiError::from_json(&items[i]) {
                Some(error) => {
                    errors.push(error);
                },
                None => {
                    assert(read(items.deep_view()[i as int]) is None);
                    return None;
                },
            }
            i += 1;
        }
        let errors = ApiErrors { errors };
        Some(errors)
    }

    /// The one-line description of an error envelope.
    pub fn message(&self) -> (text: String)
        ensures
            text@ == "bad request"@,
    {
        "bad request".to_owned()
    }
}

} // verus!
