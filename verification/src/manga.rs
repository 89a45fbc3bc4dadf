//! The calls about manga, as methods of the client.
//!
//! Each method builds the request of one call. The calls that change
//! something or read what belongs to the user are made only with
//! credentials; the others are made without, whether the client holds
//! tokens or not.

use crate::client::{anonymous, authorized, request_is, Client};
use crate::common::{
    nested_resource, nested_resource_path, plain_call, resource, resource_path, Descriptor,
    Method, PayloadKind, Request, Shape,
};
use crate::errors::{Errors, ErrorsView, HttpError};
use crate::ident::{hyphenated, Uuid};
use crate::json::JsonView;
use crate::reply::{answer, payload, read_reply, reply_view, Reply};
use crate::schema::manga::{
    read_status, read_statuses, status_member, statuses, MangaStatus,
};
use crate::text::join_text;
use std::collections::HashMap;
use vstd::prelude::*;

verus! {

/// The query that asks for the manga `ids`: `ids=` and an id, once for
/// each of them, with `&` in between.
pub open spec fn ids_query(ids: Seq<Uuid>) -> Seq<char>
    decreases ids.len(),
{
    if ids.len() == 0 {
        Seq::empty()
    } else if ids.len() == 1 {
        "ids="@ + hyphenated(ids[0].value)
    } else {
        ids_query(ids.drop_last()) + "&ids="@ + hyphenated(ids.last().value)
    }
}

/// Writes the query that asks for the manga `ids`.
pub fn write_ids_query(ids: &[Uuid]) -> (text: String)
    ensures
        text@ == ids_query(ids@),
{
    if ids.len() == 0 {
        return String::new();
    }
    let mut text = join_text("ids=", ids[0].to_hyphenated().as_str());
    let mut i: usize = 1;
    while i < ids.len()
        invariant
            1 <= i <= ids.len(),
            text@ == ids_query(ids@.take(i as int)),
        decreases ids.len() - i,
    {
        let ghost longer = ids@.take(i as int + 1);
        assert(longer.drop_last() =~= ids@.take(i as int));
        text = join_text(text.as_str(), "&ids=");
        text = join_text(text.as_str(), ids[i].to_hyphenated().as_str());
        i += 1;
    }
    assert(ids@.take(i as int) =~= ids@);
    text
}

/// The query that asks for the manga with `status`.
pub open spec fn status_query(status: MangaStatus) -> Seq<char> {
    "status="@ + status.name()
}

/// The body that sets the status of a manga to `status`.
pub open spec fn status_body(status: MangaStatus) -> Seq<char> {
    "{\"status\":\""@ + status.name() + "\"}"@
}

/// `None` for an empty text, which stands for no query at all.
pub open spec fn nonempty(text: Seq<char>) -> Option<Seq<char>> {
    if text.len() == 0 {
        None
    } else {
        Some(text)
    }
}

/// `None` for an empty text, which stands for no query at all.
fn some_query(text: String) -> (r: Option<String>)
    ensures
        crate::text::optional_text(r) == nonempty(text@),
{
    if text.as_str().is_empty() {
        None
    } else {
        Some(text)
    }
}

/// The status of one manga, as the answer that came back as `reply` names
/// it.
pub open spec fn status_answer(reply: Reply) -> Result<MangaStatus, ErrorsView> {
    answer(reply, |json: JsonView| status_member::<MangaStatus>(json))
}

/// The status of every manga of the user, as the answer that came back as
/// `reply` names them, by the number of each manga's id.
pub open spec fn statuses_answer(reply: Reply) -> Result<Map<u128, MangaStatus>, ErrorsView> {
    answer(reply, |json: JsonView| statuses::<MangaStatus>(json))
}

impl Client {
    /// List manga: `GET /manga` with `query`, the serialized search.
    pub fn list_manga(&self, query: String) -> (r: Result<Request, Errors>)
        ensures
            request_is(
                r,
                anonymous(
                    self@.base_url,
                    plain_call(Method::Get, "/manga"@, false, PayloadKind::Query, Shape::Page),
                    nonempty(query@),
                ),
            ),
    {
        let call = Descriptor::new(
            Method::Get,
            "/manga".to_owned(),
            false,
            PayloadKind::Query,
            Shape::Page,
        );
        self.prepare_anonymous(call, some_query(query))
    }

    /// Create a manga: `POST /manga` with `request`, the serialized manga.
    ///
    /// Requires auth.
    pub fn create_manga(&self, request: String) -> (r: Result<Request, Errors>)
        ensures
            request_is(
                r,
                authorized(
                    self@.base_url,
                    self@.tokens,
                    plain_call(Method::Post, "/manga"@, true, PayloadKind::Body, Shape::Single),
                    Some(request@),
                ),
            ),
    {
        let call = Descriptor::new(
            Method::Post,
            "/manga".to_owned(),
            true,
            PayloadKind::Body,
            Shape::Single,
        );
        self.prepare_authorized(call, Some(request))
    }

    /// Update a manga: `PUT /manga` with `request`, the serialized manga.
    ///
    /// Requires auth.
    pub fn update_manga(&self, request: String) -> (r: Result<Request, Errors>)
        ensures
            request_is(
                r,
                authorized(
                    self@.base_url,
                    self@.tokens,
                    plain_call(Method::Put, "/manga"@, true, PayloadKind::Body, Shape::Single),
                    Some(request@),
                ),
            ),
    {
        let call = Descriptor::new(
            Method::Put,
            "/manga".to_owned(),
            true,
            PayloadKind::Body,
            Shape::Single,
        );
        self.prepare_authorized(call, Some(request))
    }

    /// View a single manga: `GET /manga/{id}`.
    pub fn view_manga(&self, id: &Uuid) -> (r: Result<Request, Errors>)
        ensures
            request_is(
                r,
                anonymous(
                    self@.base_url,
                    plain_call(
                        Method::Get,
                        resource("/manga/"@, *id, ""@),
                        false,
                        PayloadKind::NoData,
                        Shape::Single,
                    ),
                    None,
                ),
            ),
    {
        let call = Descriptor::new(
            Method::Get,
            resource_path("/manga/", id, ""),
            false,
            PayloadKind::NoData,
            Shape::Single,
        );
        self.prepare_anonymous(call, None)
    }

    /// Delete a manga: `DELETE /manga/{id}`.
    ///
    /// Requires auth.
    pub fn delete_manga(&self, id: &Uuid) -> (r: Result<Request, Errors>)
        ensures
            request_is(
                r,
                authorized(
                    self@.base_url,
                    self@.tokens,
                    plain_call(
                        Method::Delete,
                        resource("/manga/"@, *id, ""@),
                        true,
                        PayloadKind::NoData,
                        Shape::Empty,
                    ),
                    None,
                ),
            ),
    {
        let call = Descriptor::new(
            Method::Delete,
            resource_path("/manga/", id, ""),
            true,
            PayloadKind::NoData,
            Shape::Empty,
        );
        self.prepare_authorized(call, None)
    }

    /// Add manga to a custom list: `POST /manga/{id}/list/{listId}`.
    ///
    /// Requires auth.
    pub fn add_manga_to_custom_list(&self, manga_id: &Uuid, list_id: &Uuid) -> (r: Result<
        Request,
        Errors,
    >)
        ensures
            request_is(
                r,
                authorized(
                    self@.base_url,
                    self@.tokens,
                    plain_call(
                        Method::Post,
                        nested_resource("/manga/"@, *manga_id, "/list/"@, *list_id),
                        true,
                        PayloadKind::NoData,
                        Shape::Empty,
                    ),
                    None,
                ),
            ),
    {
        let call = Descriptor::new(
            Method::Post,
            nested_resource_path("/manga/", manga_id, "/list/", list_id),
            true,
            PayloadKind::NoData,
            Shape::Empty,
        );
        self.prepare_authorized(call, None)
    }

    /// Remove manga from a custom list: `DELETE /manga/{id}/list/{listId}`.
    ///
    /// Requires auth.
    pub fn remove_manga_from_custom_list(&self, manga_id: &Uuid, list_id: &Uuid) -> (r: Result<
        Request,
        Errors,
    >)
        ensures
            request_is(
                r,
                authorized(
                    self@.base_url,
                    self@.tokens,
                    plain_call(
                        Method::Delete,
                        nested_resource("/manga/"@, *manga_id, "/list/"@, *list_id),
                        true,
                        PayloadKind::NoData,
                        Shape::Empty,
                    ),
                    None,
                ),
            ),
    {
        let call = Descriptor::new(
            Method::Delete,
            nested_resource_path("/manga/", manga_id, "/list/", list_id),
            true,
            PayloadKind::NoData,
            Shape::Empty,
        );
        self.prepare_authorized(call, None)
    }

    /// Get the feed of the manga that the logged user follows:
    /// `GET /user/follows/manga/feed` with `query`, the serialized filter,
    /// as its body.
    ///
    /// Requires auth.
    pub fn followed_manga_feed(&self, query: String) -> (r: Result<Request, Errors>)
        ensures
            request_is(
                r,
                authorized(
                    self@.base_url,
                    self@.tokens,
                    plain_call(
                        Method::Get,
                        "/user/follows/manga/feed"@,
                        true,
                        PayloadKind::Body,
                        Shape::Page,
                    ),
                    Some(query@),
                ),
            ),
    {
        let call = Descriptor::new(
            Method::Get,
            "/user/follows/manga/feed".to_owned(),
            true,
            PayloadKind::Body,
            Shape::Page,
        );
        self.prepare_authorized(call, Some(query))
    }

    /// Unfollow a manga: `DELETE /manga/{id}/follow`.
    ///
    /// Requires auth.
    pub fn unfollow_manga(&self, manga_id: &Uuid) -> (r: Result<Request, Errors>)
        ensures
            request_is(
                r,
                authorized(
                    self@.base_url,
                    self@.tokens,
                    plain_call(
                        Method::Delete,
                        resource("/manga/"@, *manga_id, "/follow"@),
                        true,
                        PayloadKind::NoData,
                        Shape::Empty,
                    ),
                    None,
                ),
            ),
    {
        let call = Descriptor::new(
            Method::Delete,
            resource_path("/manga/", manga_id, "/follow"),
            true,
            PayloadKind::NoData,
            Shape::Empty,
        );
        self.prepare_authorized(call, None)
    }

    /// Follow a manga: `POST /manga/{id}/follow`.
    ///
    /// Requires auth.
    pub fn follow_manga(&self, manga_id: &Uuid) -> (r: Result<Request, Errors>)
        ensures
            request_is(
                r,
                authorized(
                    self@.base_url,
                    self@.tokens,
                    plain_call(
                        Method::Post,
                        resource("/manga/"@, *manga_id, "/follow"@),
                        true,
                        PayloadKind::NoData,
                        Shape::Empty,
                    ),
                    None,
                ),
            ),
    {
        let call = Descriptor::new(
            Method::Post,
            resource_path("/manga/", manga_id, "/follow"),
            true,
            PayloadKind::NoData,
            Shape::Empty,
        );
        self.prepare_authorized(call, None)
    }

    /// Get the feed of a manga: `GET /manga/{id}/feed` with `query`, the
    /// serialized filter, as its body.
    pub fn manga_feed(&self, manga_id: &Uuid, query: String) -> (r: Result<Request, Errors>)
        ensures
            request_is(
                r,
                anonymous(
                    self@.base_url,
                    plain_call(
                        Method::Get,
                        resource("/manga/"@, *manga_id, "/feed"@),
                        false,
                        PayloadKind::Body,
                        Shape::Page,
                    ),
                    Some(query@),
                ),
            ),
    {
        let call = Descriptor::new(
            Method::Get,
            resource_path("/manga/", manga_id, "/feed"),
            false,
            PayloadKind::Body,
            Shape::Page,
        );
        self.prepare_anonymous(call, Some(query))
    }

    /// A list of chapter ids that are marked as read for the specified
    /// manga: `GET /manga/{id}/read`.
    ///
    /// Requires auth.
    pub fn manga_read_markers(&self, manga_id: &Uuid) -> (r: Result<Request, Errors>)
        ensures
            request_is(
                r,
                authorized(
                    self@.base_url,
                    self@.tokens,
                    plain_call(
                        Method::Get,
                        resource("/manga/"@, *manga_id, "/read"@),
                        true,
                        PayloadKind::NoData,
                        Shape::Single,
                    ),
                    None,
                ),
            ),
    {
        let call = Descriptor::new(
            Method::Get,
            resource_path("/manga/", manga_id, "/read"),
            true,
            PayloadKind::NoData,
            Shape::Single,
        );
        self.prepare_authorized(call, None)
    }

    /// A list of chapter ids that are marked as read for the given manga
    /// ids: `GET /manga/read`, with each id under `ids` in the query.
    ///
    /// Requires auth.
    pub fn manga_read_markers_more(&self, manga_ids: &[Uuid]) -> (r: Result<Request, Errors>)
        ensures
            request_is(
                r,
                authorized(
                    self@.base_url,
                    self@.tokens,
                    plain_call(
                        Method::Get,
                        "/manga/read"@,
                        true,
                        PayloadKind::Query,
                        Shape::Single,
                    ),
                    nonempty(ids_query(manga_ids@)),
                ),
            ),
    {
        let call = Descriptor::new(
            Method::Get,
            "/manga/read".to_owned(),
            true,
            PayloadKind::Query,
            Shape::Single,
        );
        self.prepare_authorized(call, some_query(write_ids_query(manga_ids)))
    }

    /// Get a random manga: `GET /manga/random`.
    pub fn random_manga(&self) -> (r: Result<Request, Errors>)
        ensures
            request_is(
                r,
                anonymous(
                    self@.base_url,
                    plain_call(
                        Method::Get,
                        "/manga/random"@,
                        false,
                        PayloadKind::NoData,
                        Shape::Single,
                    ),
                    None,
                ),
            ),
    {
        let call = Descriptor::new(
            Method::Get,
            "/manga/random".to_owned(),
            false,
            PayloadKind::NoData,
            Shape::Single,
        );
        self.prepare_anonymous(call, None)
    }

    /// Get all tags: `GET /manga/tag`.
    pub fn tag_list(&self) -> (r: Result<Request, Errors>)
        ensures
            request_is(
                r,
                anonymous(
                    self@.base_url,
                    plain_call(Method::Get, "/manga/tag"@, false, PayloadKind::NoData, Shape::List),
                    None,
                ),
            ),
    {
        let call = Descriptor::new(
            Method::Get,
            "/manga/tag".to_owned(),
            false,
            PayloadKind::NoData,
            Shape::List,
        );
        self.prepare_anonymous(call, None)
    }

    /// Get the manga that the logged user follows:
    /// `GET /user/follows/manga` with `query`, the serialized page, as its
    /// body.
    ///
    /// Requires auth.
    pub fn followed_manga_list(&self, query: String) -> (r: Result<Request, Errors>)
        ensures
            request_is(
                r,
                authorized(
                    self@.base_url,
                    self@.tokens,
                    plain_call(
                        Method::Get,
                        "/user/follows/manga"@,
                        true,
                        PayloadKind::Body,
                        Shape::Page,
                    ),
                    Some(query@),
                ),
            ),
    {
        let call = Descriptor::new(
            Method::Get,
            "/user/follows/manga".to_owned(),
            true,
            PayloadKind::Body,
            Shape::Page,
        );
        self.prepare_authorized(call, Some(query))
    }

    /// Get all manga reading status for the logged user:
    /// `GET /manga/status`, with `status` in the query where one is given.
    ///
    /// Requires auth.
    pub fn all_manga_reading_status(&self, status: Option<MangaStatus>) -> (r: Result<
        Request,
        Errors,
    >)
        ensures
            request_is(
                r,
                authorized(
                    self@.base_url,
                    self@.tokens,
                    plain_call(
                        Method::Get,
                        "/manga/status"@,
                        true,
                        PayloadKind::Query,
                        Shape::Single,
                    ),
                    match status {
                        Some(status) => Some(status_query(status)),
                        None => None,
                    },
                ),
            ),
    {
        let call = Descriptor::new(
            Method::Get,
            "/manga/status".to_owned(),
            true,
            PayloadKind::Query,
            Shape::Single,
        );
        let query = match status {
            Some(status) => Some(join_text("status=", status.as_str())),
            None => None,
        };
        self.prepare_authorized(call, query)
    }

    /// Takes the reply to [`Client::all_manga_reading_status`] and gives
    /// the status of every manga, by the number of the manga's id.
    pub fn complete_all_manga_reading_status(reply: Result<String, HttpError>) -> (r: Result<
        HashMap<u128, MangaStatus>,
        Errors,
    >)
        ensures
            match r {
                Ok(found) => statuses_answer(reply_view(reply)) == Ok::<
                    Map<u128, MangaStatus>,
                    ErrorsView,
                >(found@),
                Err(error) => statuses_answer(reply_view(reply)) == Err::<
                    Map<u128, MangaStatus>,
                    ErrorsView,
                >(error@),
            },
    {
        let json = match read_reply(reply) {
            Ok(json) => json,
            Err(error) => {
                return Err(error);
            },
        };
        match payload(&json) {
            Ok(payload) => match read_statuses::<MangaStatus>(payload) {
                Some(found) => Ok(found),
                None => Err(Errors::Http(HttpError::Decode)),
            },
            Err(error) => Err(error),
        }
    }

    /// Get the reading status of a manga: `GET /manga/{id}/status`.
    ///
    /// Requires auth.
    pub fn manga_reading_status(&self, manga_id: &Uuid) -> (r: Result<Request, Errors>)
        ensures
            request_is(
                r,
                authorized(
                    self@.base_url,
                    self@.tokens,
                    plain_call(
                        Method::Get,
                        resource("/manga/"@, *manga_id, "/status"@),
                        true,
                        PayloadKind::NoData,
                        Shape::Single,
                    ),
                    None,
                ),
            ),
    {
        let call = Descriptor::new(
            Method::Get,
            resource_path("/manga/", manga_id, "/status"),
            true,
            PayloadKind::NoData,
            Shape::Single,
        );
        self.prepare_authorized(call, None)
    }

    /// Takes the reply to [`Client::manga_reading_status`] and gives the
    /// status.
    pub fn complete_manga_reading_status(reply: Result<String, HttpError>) -> (r: Result<
        MangaStatus,
        Errors,
    >)
        ensures
            match r {
                Ok(status) => status_answer(reply_view(reply)) == Ok::<MangaStatus, ErrorsView>(
                    status,
                ),
                Err(error) => status_answer(reply_view(reply)) == Err::<MangaStatus, ErrorsView>(
                    error@,
                ),
            },
    {
        let json = match read_reply(reply) {
            Ok(json) => json,
            Err(error) => {
                return Err(error);
            },
        };
        match payload(&json) {
            Ok(payload) => match read_status::<MangaStatus>(payload) {
                Some(status) => Ok(status),
                None => Err(Errors::Http(HttpError::Decode)),
            },
            Err(error) => Err(error),
        }
    }

    /// Set the reading status of a manga: `POST /manga/{id}/status`, with
    /// the name of `status` under `status` in the body.
    ///
    /// Requires auth.
    pub fn update_manga_reading_status(&self, manga_id: &Uuid, status: MangaStatus) -> (r: Result<
        Request,
        Errors,
    >)
        ensures
            request_is(
                r,
                authorized(
                    self@.base_url,
                    self@.tokens,
                    plain_call(
                        Method::Post,
                        resource("/manga/"@, *manga_id, "/status"@),
                        true,
                        PayloadKind::Body,
                        Shape::Empty,
                    ),
                    Some(status_body(status)),
                ),
            ),
    {
        let call = Descriptor::new(
            Method::Post,
            resource_path("/manga/", manga_id, "/status"),
            true,
            PayloadKind::Body,
            Shape::Empty,
        );
        let body = join_text("{\"status\":\"", status.as_str());
        let body = join_text(body.as_str(), "\"}");
        self.prepare_authorized(call, Some(body))
    }
}

} // verus!
