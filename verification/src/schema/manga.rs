//! Manga, tags and reading status.

use crate::errors::Errors;
use crate::ident::Uuid;
use crate::json::{Json, JsonView};
use crate::ident::parsed_uuid;
use crate::json::MemberView;
use crate::schema::common::{
    ApiData, ApiObject, LocalizedString, OrderType, PaginationQuery, Results, WireName,
};
use crate::schema::time::Timestamp;
use std::collections::HashMap;
use vstd::prelude::*;

verus! {

/// The tag mode.
#[derive(Clone, Copy, Debug, PartialEq, Eq, Hash, Structural)]
pub enum TagMode {
    /// AND mode
    And,
    /// OR mode
    Or,
}

/// What a tag says of itself.
#[derive(Clone, Debug, PartialEq, Eq)]
pub struct TagAttributes {
    pub name: LocalizedString,
    pub description: LocalizedString,
    pub group: String,
    pub version: i32,
}

/// The status of a manga.
#[derive(Clone, Copy, Debug, PartialEq, Eq, Hash, Structural)]
pub enum MangaStatus {
    Ongoing,
    Completed,
    Hiatus,
    Cancelled,
}

impl MangaStatus {
    /// The name that stands for the status on the wire.
    pub open spec fn name(self) -> Seq<char> {
        match self {
            MangaStatus::Ongoing => "ongoing"@,
            MangaStatus::Completed => "completed"@,
            MangaStatus::Hiatus => "hiatus"@,
            MangaStatus::Cancelled => "cancelled"@,
        }
    }

    /// The name that stands for the status on the wire.
    pub fn as_str(&self) -> (name: &'static str)
        ensures
            name@ == self.name(),
    {
        match self {
            MangaStatus::Ongoing => "ongoing",
            MangaStatus::Completed => "completed",
            MangaStatus::Hiatus => "hiatus",
            MangaStatus::Cancelled => "cancelled",
        }
    }
}

/// The status that `name` stands for on the wire.
pub open spec fn manga_status(name: Seq<char>) -> Option<MangaStatus> {
    if name == "ongoing"@ {
        Some(MangaStatus::Ongoing)
    } else if name == "completed"@ {
        Some(MangaStatus::Completed)
    } else if name == "hiatus"@ {
        Some(MangaStatus::Hiatus)
    } else if name == "cancelled"@ {
        Some(MangaStatus::Cancelled)
    } else {
        None
    }
}

impl WireName for MangaStatus {
    open spec fn named(name: Seq<char>) -> Option<MangaStatus> {
        manga_status(name)
    }

    fn from_name(name: &str) -> (r: Option<MangaStatus>) {
        if crate::text::same_text(name, "ongoing") {
            Some(MangaStatus::Ongoing)
        } else if crate::text::same_text(name, "completed") {
            Some(MangaStatus::Completed)
        } else if crate::text::same_text(name, "hiatus") {
            Some(MangaStatus::Hiatus)
        } else if crate::text::same_text(name, "cancelled") {
            Some(MangaStatus::Cancelled)
        } else {
            None
        }
    }
}

/// The publication demographic.
#[derive(Clone, Copy, Debug, PartialEq, Eq, Hash, Structural)]
pub enum Demographic {
    Shounen,
    Shoujo,
    Josei,
    Seinen,
    /// No demographic; `none` on the wire.
    Unspecified,
}

/// The content rating of the publication.
#[derive(Clone, Copy, Debug, PartialEq, Eq, Hash, Structural)]
pub enum ContentRating {
    Safe,
    Suggestive,
    Erotica,
    Pornographic,
}

/// By what a list of manga is sorted.
#[derive(Clone, Copy, Debug, PartialEq, Eq, Hash, Structural)]
pub enum MangaOrder {
    CreatedAt(OrderType),
    UpdatedAt(OrderType),
}

/// The order of a list by creation and by last change.
#[derive(Clone, Copy, Debug, PartialEq, Eq, Hash, Structural)]
pub struct Order {
    pub created_at: OrderType,
    pub updated_at: OrderType,
}

/// The order of a feed by volume and by chapter.
#[derive(Clone, Copy, Debug, PartialEq, Eq, Hash, Structural)]
pub struct FeedOrder {
    pub volume: OrderType,
    pub chapter: OrderType,
}

/// A search for manga, over borrowed lists.
#[derive(Clone, Debug, Default)]
pub struct MangaQuery<'a> {
    pub limit: Option<i32>,
    pub offset: Option<i32>,
    pub title: Option<&'a str>,
    pub authors: Option<&'a [Uuid]>,
    pub artists: Option<&'a [Uuid]>,
    pub year: Option<i32>,
    pub included_tags: Option<&'a [Uuid]>,
    pub included_tags_mode: Option<TagMode>,
    pub status: Option<&'a [MangaStatus]>,
    pub original_language: Option<&'a [&'a str]>,
    pub publication_demographic: Option<&'a [Demographic]>,
    pub ids: Option<&'a [Uuid]>,
    pub content_rating: Option<ContentRating>,
    pub created_at_since: Option<Timestamp>,
    pub updated_at_since: Option<Timestamp>,
    pub order: Option<Order>,
}

/// Which chapters of a feed to list.
#[derive(Clone, Debug)]
pub struct MangaFeedQuery {
    pub pagination: PaginationQuery,
    pub translated_language: Option<Vec<String>>,
    pub created_at_since: Option<Timestamp>,
    pub updated_at_since: Option<Timestamp>,
    pub publish_at_since: Option<Timestamp>,
    pub order: Option<FeedOrder>,
}

/// Where else a manga can be found, by the short name of each site.
#[derive(Clone, Debug, Default, PartialEq, Eq)]
pub struct Links {
    pub al: Option<String>,
    pub ap: Option<String>,
    pub bw: Option<String>,
    pub mu: Option<String>,
    pub nu: Option<String>,
    pub kt: Option<String>,
    pub amz: Option<String>,
    pub ebj: Option<String>,
    pub mal: Option<String>,
    pub raw: Option<String>,
    pub engtl: Option<String>,
    pub extra: HashMap<String, String>,
}

/// What a manga says of itself.
#[derive(Clone, Debug)]
pub struct MangaAttributes {
    pub title: LocalizedString,
    pub alt_titles: Vec<LocalizedString>,
    pub description: LocalizedString,
    pub links: Links,
    pub original_language: String,
    pub last_volume: Option<String>,
    pub last_chapter: Option<String>,
    pub publication_demographic: Option<Demographic>,
    pub status: Option<MangaStatus>,
    /// Year of release
    pub year: Option<i32>,
    pub content_rating: Option<ContentRating>,
    pub tags: Vec<Tag>,
    pub version: i32,
    pub created_at: Timestamp,
    pub updated_at: Timestamp,
}

/// What is sent to create or to update a manga.
#[derive(Clone, Debug, Default)]
pub struct MangaRequest {
    pub title: LocalizedString,
    pub alt_titles: Option<Vec<LocalizedString>>,
    pub description: Option<LocalizedString>,
    pub authors: Option<Vec<Uuid>>,
    pub artists: Option<Vec<Uuid>>,
    pub links: Option<Links>,
    pub original_language: Option<String>,
    pub last_volume: Option<String>,
    pub last_chapter: Option<String>,
    pub publication_demographic: Option<Demographic>,
    pub status: Option<MangaStatus>,
    /// Year of release
    pub year: Option<i32>,
    pub content_rating: Option<ContentRating>,
    pub mod_notes: Option<String>,
    pub version: i32,
}

/// The reading status of every manga that the user follows, by the number
/// of the manga's id.
#[derive(Clone, Debug)]
pub struct MangaReadingStatuses {
    pub statuses: HashMap<u128, MangaReadingStatus>,
}

/// How far the user is with a manga.
#[derive(Clone, Copy, Debug, PartialEq, Eq, Hash, Structural)]
pub enum MangaReadingStatus {
    Reading,
    OnHold,
    PlanToRead,
    Dropped,
    ReReading,
    Completed,
}

impl MangaReadingStatus {
    /// The name that stands for the status on the wire.
    pub open spec fn name(self) -> Seq<char> {
        match self {
            MangaReadingStatus::Reading => "reading"@,
            MangaReadingStatus::OnHold => "on_hold"@,
            MangaReadingStatus::PlanToRead => "plan_to_read"@,
            MangaReadingStatus::Dropped => "dropped"@,
            MangaReadingStatus::ReReading => "re_reading"@,
            MangaReadingStatus::Completed => "completed"@,
        }
    }

    /// The name that stands for the status on the wire.
    pub fn as_str(&self) -> (name: &'static str)
        ensures
            name@ == self.name(),
    {
        match self {
            MangaReadingStatus::Reading => "reading",
            MangaReadingStatus::OnHold => "on_hold",
            MangaReadingStatus::PlanToRead => "plan_to_read",
            MangaReadingStatus::Dropped => "dropped",
            MangaReadingStatus::ReReading => "re_reading",
            MangaReadingStatus::Completed => "completed",
        }
    }

}

impl WireName for MangaReadingStatus {
    open spec fn named(name: Seq<char>) -> Option<MangaReadingStatus> {
        reading_status(name)
    }

    fn from_name(name: &str) -> (r: Option<MangaReadingStatus>) {
        if crate::text::same_text(name, "reading") {
            Some(MangaReadingStatus::Reading)
        } else if crate::text::same_text(name, "on_hold") {
            Some(MangaReadingStatus::OnHold)
        } else if crate::text::same_text(name, "plan_to_read") {
            Some(MangaReadingStatus::PlanToRead)
        } else if crate::text::same_text(name, "dropped") {
            Some(MangaReadingStatus::Dropped)
        } else if crate::text::same_text(name, "re_reading") {
            Some(MangaReadingStatus::ReReading)
        } else if crate::text::same_text(name, "completed") {
            Some(MangaReadingStatus::Completed)
        } else {
            None
        }
    }
}

/// The reading status that `name` stands for on the wire.
pub open spec fn reading_status(name: Seq<char>) -> Option<MangaReadingStatus> {
    if name == "reading"@ {
        Some(MangaReadingStatus::Reading)
    } else if name == "on_hold"@ {
        Some(MangaReadingStatus::OnHold)
    } else if name == "plan_to_read"@ {
        Some(MangaReadingStatus::PlanToRead)
    } else if name == "dropped"@ {
        Some(MangaReadingStatus::Dropped)
    } else if name == "re_reading"@ {
        Some(MangaReadingStatus::ReReading)
    } else if name == "completed"@ {
        Some(MangaReadingStatus::Completed)
    } else {
        None
    }
}

/// The status under `status` of the document `json`, as its name says.
pub open spec fn status_member<T: WireName>(json: JsonView) -> Option<T> {
    match json.member("status"@) {
        Some(JsonView::Text(name)) => T::named(name),
        _ => None,
    }
}

/// Reads the status under `status` of a document.
pub fn read_status<T: WireName>(json: &Json) -> (r: Option<T>)
    ensures
        r == status_member::<T>(json@),
{
    match json.get("status") {
        Some(Json::Text(name)) => T::from_name(name.as_str()),
        _ => None,
    }
}

/// The statuses that the first `upto` of `members` give: each key is the
/// id of a manga as text, each value the name of a status. A later member
/// takes the place of an earlier one with the same id. `None` where a key
/// is no id or a value no name of a status.
pub open spec fn statuses_upto<T: WireName>(members: Seq<MemberView>, upto: int) -> Option<
    Map<u128, T>,
>
    decreases upto,
{
    if upto <= 0 {
        Some(Map::empty())
    } else {
        match (
            statuses_upto::<T>(members, upto - 1),
            parsed_uuid(members[upto - 1].key),
            members[upto - 1].value,
        ) {
            (Some(found), Some(id), JsonView::Text(name)) => match T::named(name) {
                Some(status) => Some(found.insert(id, status)),
                None => None,
            },
            _ => None,
        }
    }
}

/// The statuses that the object under `statuses` of the document `json`
/// gives, by the number of each manga's id.
pub open spec fn statuses<T: WireName>(json: JsonView) -> Option<Map<u128, T>> {
    match json.member("statuses"@) {
        Some(JsonView::Object(members)) => statuses_upto::<T>(members, members.len() as int),
        _ => None,
    }
}

/// Reads the statuses under `statuses` of a document, by the number of
/// each manga's id.
pub fn read_statuses<T: WireName>(json: &Json) -> (r: Option<HashMap<u128, T>>)
    ensures
        match r {
            Some(found) => statuses::<T>(json@) == Some(found@),
            None => statuses::<T>(json@) is None,
        },
{
    broadcast use vstd::std_specs::hash::group_hash_axioms;

    let members = match json.get("statuses") {
        Some(Json::Object(members)) => members,
        _ => {
            return None;
        },
    };
    let ghost pairs = json@.member("statuses"@).unwrap()->Object_0;
    let mut found: HashMap<u128, T> = HashMap::new();
    let mut i: usize = 0;
    while i < members.len()
        invariant
            i <= members.len(),
            json@.member("statuses"@) == Some(JsonView::Object(pairs)),
            pairs.len() == members@.len(),
            forall|k: int|
                0 <= k < members@.len() ==> #[trigger] pairs[k] == (MemberView {
                    key: members@[k].0@,
                    value: members@[k].1@,
                }),
            statuses_upto::<T>(pairs, i as int) == Some(found@),
        decreases members.len() - i,
    {
        let id = match crate::ident::Uuid::parse_str(members[i].0.as_str()) {
            Some(id) => id,
            None => {
                proof {
                    statuses_stay_unread::<T>(pairs, i as int + 1, pairs.len() as int);
                }
                return None;
            },
        };
        let status: T = match &members[i].1 {
            Json::Text(name) => match T::from_name(name.as_str()) {
                Some(status) => status,
                None => {
                    proof {
                        statuses_stay_unread::<T>(pairs, i as int + 1, pairs.len() as int);
                    }
                    return None;
                },
            },
            _ => {
                proof {
                    statuses_stay_unread::<T>(pairs, i as int + 1, pairs.len() as int);
                }
                return None;
            },
        };
        found.insert(id.value, status);
        i += 1;
    }
    Some(found)
}

/// Once some members give no statuses, no more of them do.
proof fn statuses_stay_unread<T: WireName>(members: Seq<MemberView>, from: int, upto: int)
    requires
        0 <= from <= upto,
        statuses_upto::<T>(members, from) is None,
    ensures
        statuses_upto::<T>(members, upto) is None,
    decreases upto - from,
{
    if from < upto {
        statuses_stay_unread::<T>(members, from, upto - 1);
    }
}

/// The reading status of one manga.
#[derive(Clone, Copy, Debug, PartialEq, Eq, Hash, Structural)]
pub struct MangaReadingStatusBody {
    pub status: MangaReadingStatus,
}

/// The reading status that `json` holds: the name of one under `status`.
pub open spec fn reading_status_body(json: JsonView) -> Option<MangaReadingStatusBody> {
    match status_member::<MangaReadingStatus>(json) {
        Some(status) => Some(MangaReadingStatusBody { status }),
        None => None,
    }
}

/// The reading statuses that `json` holds: those of the object under
/// `statuses`.
pub open spec fn reading_statuses(json: JsonView) -> Option<Map<u128, MangaReadingStatus>> {
    statuses::<MangaReadingStatus>(json)
}

impl MangaReadingStatuses {
    /// Reads the reading status of every manga.
    pub fn from_json(json: &Json) -> (r: Option<MangaReadingStatuses>)
        ensures
            match r {
                Some(found) => reading_statuses(json@) == Some(found.statuses@),
                None => reading_statuses(json@) is None,
            },
    {
        match read_statuses::<MangaReadingStatus>(json) {
            Some(statuses) => Some(MangaReadingStatuses { statuses }),
            None => None,
        }
    }
}

impl MangaReadingStatusBody {
    /// Reads the reading status of one manga.
    pub fn from_json(json: &Json) -> (r: Option<MangaReadingStatusBody>)
        ensures
            r == reading_status_body(json@),
    {
        match read_status::<MangaReadingStatus>(json) {
            Some(status) => Some(MangaReadingStatusBody { status }),
            None => None,
        }
    }
}

/// How often a chapter exists.
#[derive(Clone, Debug)]
pub struct ChapterAggregate {
    pub chapter: String,
    pub count: i32,
}

/// The chapters of a volume.
#[derive(Clone, Debug)]
pub struct VolumeAggregate {
    pub volume: String,
    pub count: i32,
    pub chapters: HashMap<String, ChapterAggregate>,
}

/// The volumes of a manga.
#[derive(Clone, Debug)]
pub struct MangaAggregate {
    pub volumes: HashMap<String, VolumeAggregate>,
}

/// Another name of [`MangaRequest`].
pub type MangaPayload = MangaRequest;

pub type MangaAggregateResponse = Result<MangaAggregate, Errors>;

pub type Tag = ApiObject<TagAttributes>;

pub type TagResponse = Result<ApiData<Tag>, Errors>;

pub type TagList = Vec<TagResponse>;

pub type Manga = ApiObject<MangaAttributes>;

pub type MangaResponse = Result<ApiData<Manga>, Errors>;

pub type MangaList = Results<MangaResponse>;

pub type MangaReadMarkers = Vec<Uuid>;

pub type MangaReadMarkerResponse = Result<ApiData<MangaReadMarkers>, Errors>;

} // verus!
