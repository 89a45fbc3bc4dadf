//! The envelope that wraps nearly every answer, and the shapes shared by
//! all resources.

use crate::errors::Errors;
use crate::ident::{parsed_uuid, Uuid};
use crate::json::{each, Json, JsonView};
use crate::schema::errors::{api_errors, ApiErrorView, ApiErrors};
use vstd::prelude::*;

verus! {

/// An answer as it stands in its envelope: the payload of an `ok`, or the
/// records of an `error`.
#[derive(Debug)]
pub struct ApiResult<T, E = ApiErrors>(pub Result<T, E>);

impl<T, E> ApiResult<T, E> {
    /// Takes the envelope off.
    pub fn into_result(self) -> (r: Result<T, E>)
        ensures
            r == self.0,
    {
        self.0
    }
}

/// What an envelope holds, as a value: the document of an `ok`, or the
/// records of an `error`.
pub type Tagged = Result<JsonView, Seq<ApiErrorView>>;

/// The envelope that `json` is.
///
/// An object whose `result` is the text `ok` holds itself as its payload.
/// An object whose `result` is the text `error` holds the error records
/// under `errors`. Any other document is no envelope: `None`.
pub open spec fn envelope(json: JsonView) -> Option<Tagged> {
    match json.member("result"@) {
        Some(JsonView::Text(tag)) => if tag == "ok"@ {
            Some(Ok(json))
        } else if tag == "error"@ {
            match api_errors(json) {
                Some(errors) => Some(Err(errors)),
                None => None,
            }
        } else {
            None
        },
        _ => None,
    }
}

/// The value of an envelope whose payload is a document.
pub open spec fn tagged(answer: ApiResult<&Json>) -> Tagged {
    match answer.0 {
        Ok(payload) => Ok(payload@),
        Err(errors) => Err(errors@),
    }
}

/// Reads the envelope that `json` is.
pub fn api_result<'a>(json: &'a Json) -> (r: Option<ApiResult<&'a Json>>)
    ensures
        match r {
            Some(answer) => envelope(json@) == Some(tagged(answer)),
            None => envelope(json@) is None,
        },
{
    proof {
        reveal_strlit("ok");
        reveal_strlit("error");
    }
    let tag = match json.get("result") {
        Some(tag) => match tag.as_str() {
            Some(tag) => tag,
            None => {
                return None;
            },
        },
        None => {
            return None;
        },
    };
    if crate::text::same_text(tag, "ok") {
        Some(ApiResult(Ok(json)))
    } else if crate::text::same_text(tag, "error") {
        match ApiErrors::from_json(json) {
            Some(errors) => Some(ApiResult(Err(errors))),
            None => None,
        }
    } else {
        None
    }
}

/// The envelopes of all items of the array `json`, each read on its own.
/// `None` where `json` is no array or an item is no envelope.
pub open spec fn envelopes(json: JsonView) -> Option<Seq<Tagged>> {
    match json {
        JsonView::Array(items) => each(items, |item: JsonView| envelope(item)),
        _ => None,
    }
}

/// The values of a list of envelopes.
pub open spec fn all_tagged(answers: Seq<ApiResult<&Json>>) -> Seq<Tagged> {
    Seq::new(answers.len(), |i: int| tagged(answers[i]))
}

/// Reads an array of envelopes, each item on its own.
pub fn api_results<'a>(json: &'a Json) -> (r: Option<Vec<ApiResult<&'a Json>>>)
    ensures
        match r {
            Some(answers) => envelopes(json@) == Some(all_tagged(answers@)),
            None => envelopes(json@) is None,
        },
{
    let items = match json.as_array() {
        Some(items) => items,
        None => {
            return None;
        },
    };
    let ghost read = |item: JsonView| envelope(item);
    let mut answers: Vec<ApiResult<&'a Json>> = Vec::new();
    let mut i: usize = 0;
    while i < items.len()
        invariant
            i <= items.len(),
            answers@.len() == i,
            json@ == JsonView::Array(items.deep_view()),
            read == |item: JsonView| envelope(item),
            forall|k: int|
                0 <= k < i ==> read(#[trigger] items.deep_view()[k]) == Some(tagged(answers@[k])),
        decreases items.len() - i,
    {
        match api_result(&items[i]) {
            Some(answer) => {
                answers.push(answer);
            },
            None => {
                assert(read(items.deep_view()[i as int]) is None);
                return None;
            },
        }
        i += 1;
    }
    Some(answers)
}

/// One page of a list.
#[derive(Clone, Debug, Hash, PartialEq, Eq)]
pub struct Results<T> {
    pub results: Vec<T>,
    pub limit: i32,
    pub offset: i32,
    pub total: i32,
}

/// The value of a page of envelopes.
pub struct Page {
    pub results: Seq<Tagged>,
    pub limit: i32,
    pub offset: i32,
    pub total: i32,
}

/// The integer of 32 bits under `key`, where `json` has one there.
pub open spec fn member_i32(json: JsonView, key: Seq<char>) -> Option<i32> {
    match json.member(key) {
        Some(number) => match number.integer() {
            Some(value) if i32::MIN <= value <= i32::MAX => Some(value as i32),
            _ => None,
        },
        None => None,
    }
}

/// The page that `json` is: an object with an array of envelopes under
/// `results` and integers of 32 bits under `limit`, `offset` and `total`.
/// Each item is read on its own; `None` where a part is missing or an item
/// is no envelope.
pub open spec fn page(json: JsonView) -> Option<Page> {
    match (
        json.member("results"@),
        member_i32(json, "limit"@),
        member_i32(json, "offset"@),
        member_i32(json, "total"@),
    ) {
        (Some(results), Some(limit), Some(offset), Some(total)) => match envelopes(results) {
            Some(results) => Some(Page { results, limit, offset, total }),
            None => None,
        },
        _ => None,
    }
}

/// The value of a page of envelopes.
pub open spec fn paged(list: Results<ApiResult<&Json>>) -> Page {
    Page {
        results: all_tagged(list.results@),
        limit: list.limit,
        offset: list.offset,
        total: list.total,
    }
}

/// Reads the integer of 32 bits under `key`.
pub fn get_i32(json: &Json, key: &str) -> (r: Option<i32>)
    ensures
        r == member_i32(json@, key@),
{
    match json.get(key) {
        Some(number) => number.as_i32(),
        None => None,
    }
}

/// Reads one page of a list, each item on its own.
pub fn api_page<'a>(json: &'a Json) -> (r: Option<Results<ApiResult<&'a Json>>>)
    ensures
        match r {
            Some(list) => page(json@) == Some(paged(list)),
            None => page(json@) is None,
        },
{
    let results = match json.get("results") {
        Some(results) => match api_results(results) {
            Some(results) => results,
            None => {
                return None;
            },
        },
        None => {
            return None;
        },
    };
    let limit = match get_i32(json, "limit") {
        Some(limit) => limit,
        None => {
            return None;
        },
    };
    let offset = match get_i32(json, "offset") {
        Some(offset) => offset,
        None => {
            return None;
        },
    };
    let total = match get_i32(json, "total") {
        Some(total) => total,
        None => {
            return None;
        },
    };
    Some(Results { results, limit, offset, total })
}

/// A value that a fixed name stands for on the wire.
pub trait WireName: Sized {
    /// The value that `name` stands for.
    spec fn named(name: Seq<char>) -> Option<Self>;

    /// Reads the value that `name` stands for.
    fn from_name(name: &str) -> (r: Option<Self>)
        ensures
            r == Self::named(name@),
    ;
}

/// The kind of a resource.
#[derive(Clone, Copy, Debug, PartialEq, Eq, Hash, Structural)]
pub enum ResourceType {
    Manga,
    Chapter,
    CoverArt,
    Author,
    Artist,
    ScanlationGroup,
    Tag,
    User,
    CustomList,
}

/// The kind of resource that `name` stands for on the wire.
pub open spec fn resource_type(name: Seq<char>) -> Option<ResourceType> {
    if name == "manga"@ {
        Some(ResourceType::Manga)
    } else if name == "chapter"@ {
        Some(ResourceType::Chapter)
    } else if name == "cover_art"@ {
        Some(ResourceType::CoverArt)
    } else if name == "author"@ {
        Some(ResourceType::Author)
    } else if name == "artist"@ {
        Some(ResourceType::Artist)
    } else if name == "scanlation_group"@ {
        Some(ResourceType::ScanlationGroup)
    } else if name == "tag"@ {
        Some(ResourceType::Tag)
    } else if name == "user"@ {
        Some(ResourceType::User)
    } else if name == "custom_list"@ {
        Some(ResourceType::CustomList)
    } else {
        None
    }
}

impl ResourceType {
    /// The name that stands for the kind on the wire.
    pub open spec fn name(self) -> Seq<char> {
        match self {
            ResourceType::Manga => "manga"@,
            ResourceType::Chapter => "chapter"@,
            ResourceType::CoverArt => "cover_art"@,
            ResourceType::Author => "author"@,
            ResourceType::Artist => "artist"@,
            ResourceType::ScanlationGroup => "scanlation_group"@,
            ResourceType::Tag => "tag"@,
            ResourceType::User => "user"@,
            ResourceType::CustomList => "custom_list"@,
        }
    }

    /// The name that stands for the kind on the wire.
    pub fn as_str(&self) -> (name: &'static str)
        ensures
            name@ == self.name(),
    {
        match self {
            ResourceType::Manga => "manga",
            ResourceType::Chapter => "chapter",
            ResourceType::CoverArt => "cover_art",
            ResourceType::Author => "author",
            ResourceType::Artist => "artist",
            ResourceType::ScanlationGroup => "scanlation_group",
            ResourceType::Tag => "tag",
            ResourceType::User => "user",
            ResourceType::CustomList => "custom_list",
        }
    }

}

impl WireName for ResourceType {
    open spec fn named(name: Seq<char>) -> Option<ResourceType> {
        resource_type(name)
    }

    fn from_name(name: &str) -> (r: Option<ResourceType>) {
        if crate::text::same_text(name, "manga") {
            Some(ResourceType::Manga)
        } else if crate::text::same_text(name, "chapter") {
            Some(ResourceType::Chapter)
        } else if crate::text::same_text(name, "cover_art") {
            Some(ResourceType::CoverArt)
        } else if crate::text::same_text(name, "author") {
            Some(ResourceType::Author)
        } else if crate::text::same_text(name, "artist") {
            Some(ResourceType::Artist)
        } else if crate::text::same_text(name, "scanlation_group") {
            Some(ResourceType::ScanlationGroup)
        } else if crate::text::same_text(name, "tag") {
            Some(ResourceType::Tag)
        } else if crate::text::same_text(name, "user") {
            Some(ResourceType::User)
        } else if crate::text::same_text(name, "custom_list") {
            Some(ResourceType::CustomList)
        } else {
            None
        }
    }
}

impl ResourceType {
    /// Every kind is read back from its own name.
    pub proof fn name_round_trip(self)
        ensures
            resource_type(self.name()) == Some(self),
    {
        reveal_strlit("manga");
        reveal_strlit("chapter");
        reveal_strlit("cover_art");
        reveal_strlit("author");
        reveal_strlit("artist");
        reveal_strlit("scanlation_group");
        reveal_strlit("tag");
        reveal_strlit("user");
        reveal_strlit("custom_list");
        assert("manga"@.len() == 5 && "chapter"@.len() == 7 && "cover_art"@.len() == 9);
        assert("scanlation_group"@.len() == 16 && "user"@.len() == 4);
        assert("custom_list"@.len() == 11);
        assert("author"@[1] == 'u' && "artist"@[1] == 'r');
    }
}

/// A link from one resource to another.
#[derive(Clone, Copy, Debug, PartialEq, Eq, Hash, Structural)]
pub struct Relationship {
    pub id: Uuid,
    pub kind: ResourceType,
}

/// The link that `json` is: an object with a UUID as text under `id` and
/// the name of a kind of resource under `type`.
pub open spec fn relationship(json: JsonView) -> Option<Relationship> {
    match (json.member("id"@), json.member("type"@)) {
        (Some(JsonView::Text(id)), Some(JsonView::Text(kind))) => match (
            parsed_uuid(id),
            resource_type(kind),
        ) {
            (Some(value), Some(kind)) => Some(Relationship { id: Uuid { value }, kind }),
            _ => None,
        },
        _ => None,
    }
}

/// The links of the document `json`: those of the array under
/// `relationships`, none where the document has no such member.
pub open spec fn relationships(json: JsonView) -> Option<Seq<Relationship>> {
    match json.member("relationships"@) {
        None => Some(Seq::empty()),
        Some(JsonView::Array(items)) => each(items, |item: JsonView| relationship(item)),
        Some(_) => None,
    }
}

impl Relationship {
    /// Reads a link.
    pub fn from_json(json: &Json) -> (r: Option<Relationship>)
        ensures
            r == relationship(json@),
    {
        let id = match json.get("id") {
            Some(Json::Text(id)) => match Uuid::parse_str(id.as_str()) {
                Some(id) => id,
                None => {
                    return None;
                },
            },
            _ => {
                return None;
            },
        };
        let kind = match json.get("type") {
            Some(Json::Text(kind)) => match ResourceType::from_name(kind.as_str()) {
                Some(kind) => kind,
                None => {
                    return None;
                },
            },
            _ => {
                return None;
            },
        };
        Some(Relationship { id, kind })
    }

    /// Reads the links of a document.
    pub fn all_from_json(json: &Json) -> (r: Option<Vec<Relationship>>)
        ensures
            match r {
                Some(links) => relationships(json@) == Some(links@),
                None => relationships(json@) is None,
            },
    {
        let items = match json.get("relationships") {
            None => {
                let links: Vec<Relationship> = Vec::new();
                return Some(links);
            },
            Some(member) => match member.as_array() {
                Some(items) => items,
                None => {
                    return None;
                },
            },
        };
        let ghost read = |item: JsonView| relationship(item);
        let mut links: Vec<Relationship> = Vec::new();
        let mut i: usize = 0;
        while i < items.len()
            invariant
                i <= items.len(),
                links@.len() == i,
                json@.member("relationships"@) == Some(JsonView::Array(items.deep_view())),
                read == |item: JsonView| relationship(item),
                forall|k: int|
                    0 <= k < i ==> read(#[trigger] items.deep_view()[k]) == Some(links@[k]),
            decreases items.len() - i,
        {
            match Relationship::from_json(&items[i]) {
                Some(link) => {
                    links.push(link);
                },
                None => {
                    assert(read(items.deep_view()[i as int]) is None);
                    return None;
                },
            }
            i += 1;
        }
        Some(links)
    }
}

/// A payload with the links of its resource.
#[derive(Clone, Debug, Default, Hash, PartialEq, Eq)]
pub struct ApiData<T> {
    pub data: T,
    pub relationships: Vec<Relationship>,
}

/// The value of an [`ApiData`] whose payload is a document.
pub struct ApiDataView {
    pub data: JsonView,
    pub relationships: Seq<Relationship>,
}

/// The payload with links that `json` is: whatever stands under `data`,
/// with the links under `relationships`.
pub open spec fn api_data(json: JsonView) -> Option<ApiDataView> {
    match (json.member("data"@), relationships(json)) {
        (Some(data), Some(relationships)) => Some(ApiDataView { data, relationships }),
        _ => None,
    }
}

/// Reads a payload with its links; the payload itself is left as it is.
pub fn read_api_data<'a>(json: &'a Json) -> (r: Option<ApiData<&'a Json>>)
    ensures
        match r {
            Some(found) => api_data(json@) == Some(
                ApiDataView { data: found.data@, relationships: found.relationships@ },
            ),
            None => api_data(json@) is None,
        },
{
    let data = match json.get("data") {
        Some(data) => data,
        None => {
            return None;
        },
    };
    match Relationship::all_from_json(json) {
        Some(relationships) => Some(ApiData { data, relationships }),
        None => None,
    }
}

/// A resource: its id, its kind and its attributes.
#[derive(Clone, Debug, Default, Hash, PartialEq, Eq)]
pub struct ApiObject<A, T = ResourceType> {
    pub id: Uuid,
    pub kind: T,
    pub attributes: A,
}

/// The value of an [`ApiObject`] whose attributes are a document.
pub struct ApiObjectView {
    pub id: Uuid,
    pub kind: ResourceType,
    pub attributes: JsonView,
}

/// The resource that `json` is: an object with a UUID as text under `id`,
/// the name of a kind of resource under `type`, and its attributes under
/// `attributes`.
pub open spec fn api_object(json: JsonView) -> Option<ApiObjectView> {
    match (relationship(json), json.member("attributes"@)) {
        (Some(link), Some(attributes)) => Some(
            ApiObjectView { id: link.id, kind: link.kind, attributes },
        ),
        _ => None,
    }
}

/// Reads a resource; its attributes are left as they are.
pub fn read_api_object<'a>(json: &'a Json) -> (r: Option<ApiObject<&'a Json>>)
    ensures
        match r {
            Some(found) => api_object(json@) == Some(
                ApiObjectView { id: found.id, kind: found.kind, attributes: found.attributes@ },
            ),
            None => api_object(json@) is None,
        },
{
    let link = match Relationship::from_json(json) {
        Some(link) => link,
        None => {
            return None;
        },
    };
    match json.get("attributes") {
        Some(attributes) => Some(ApiObject { id: link.id, kind: link.kind, attributes }),
        None => None,
    }
}

/// A language, by the code that stands for it on the wire.
#[derive(Clone, Copy, Debug, PartialEq, Eq, Hash, Structural)]
pub enum LanguageCode {
    /// `ar`
    Arabic,
    /// `bn`
    Bengali,
    /// `bg`
    Bulgarian,
    /// `my`
    Burmese,
    /// `ca`
    Catalan,
    /// `zh`
    ChineseSimp,
    /// `zh-hk`
    ChineseTrad,
    /// `cs`
    Czech,
    /// `da`
    Danish,
    /// `nl`
    Dutch,
    /// `en`
    English,
    /// `tl`
    Filipino,
    /// `fi`
    Finnish,
    /// `fr`
    French,
    /// `de`
    German,
    /// `el`
    Greek,
    /// `he`
    Hebrew,
    /// `hi`
    Hindi,
    /// `hu`
    Hungarian,
    /// `id`
    Indonesian,
    /// `it`
    Italian,
    /// `ja`
    Japanese,
    /// `ko`
    Korean,
    /// `lt`
    Lithuanian,
    /// `ms`
    Malay,
    /// `mn`
    Mongolian,
    /// `no`
    Norwegian,
    /// `fa`
    Persian,
    /// `pl`
    Polish,
    /// `pt-br`
    PortugueseBr,
    /// `pt`
    PortuguesePt,
    /// `ro`
    Romanian,
    /// `ru`
    Russian,
    /// `sr`
    SerboCroatian,
    /// `es`
    SpanishEs,
    /// `es-la`
    SpanishLATAM,
    /// `sv`
    Swedish,
    /// `th`
    Thai,
    /// `tr`
    Turkish,
    /// `uk`
    Ukrainian,
    /// `vi`
    Vietnamese,
    /// `NULL`
    Null,
}

/// A text in several languages.
pub type LocalizedString = std::collections::HashMap<LanguageCode, String>;

/// The order of a sorted list.
#[derive(Clone, Copy, Debug, PartialEq, Eq, Hash, Structural)]
pub enum OrderType {
    Asc,
    Desc,
}

/// Which page of a list to ask for.
#[derive(Clone, Copy, Debug, Default, PartialEq, Eq, Hash)]
pub struct PaginationQuery {
    pub limit: Option<i32>,
    pub offset: Option<i32>,
}

impl PaginationQuery {
    /// The page of at most `limit` items from item `offset` on.
    pub fn new(limit: Option<i32>, offset: Option<i32>) -> (query: PaginationQuery)
        ensures
            query.limit == limit,
            query.offset == offset,
    {
        PaginationQuery { limit, offset }
    }
}

/// The answer of a call that answers with nothing.
#[derive(Clone, Copy, Debug, Default, PartialEq, Eq, Hash, Structural)]
pub struct NoData;

/// The empty answer that `json` is: an object with no member but its
/// `result`. `None` for any other document.
pub open spec fn no_data(json: JsonView) -> Option<NoData> {
    match json {
        JsonView::Object(members) => if only_the_tag(members) {
            Some(NoData)
        } else {
            None
        },
        _ => None,
    }
}

/// Whether every one of `members` has the key `result`.
pub open spec fn only_the_tag(members: Seq<crate::json::MemberView>) -> bool {
    forall|i: int| 0 <= i < members.len() ==> (#[trigger] members[i]).key == "result"@
}

impl NoData {
    /// Reads an empty answer.
    pub fn from_json(json: &Json) -> (r: Option<NoData>)
        ensures
            r == no_data(json@),
    {
        match json {
            Json::Object(members) => {
                let ghost pairs = json@->Object_0;
                let mut i: usize = 0;
                while i < members.len()
                    invariant
                        i <= members.len(),
                        json@ == JsonView::Object(pairs),
                        pairs.len() == members@.len(),
                        forall|k: int|
                            0 <= k < members@.len() ==> (#[trigger] pairs[k]).key
                                == members@[k].0@,
                        forall|k: int| 0 <= k < i ==> (#[trigger] pairs[k]).key == "result"@,
                    decreases members.len() - i,
                {
                    if !crate::text::same_text(members[i].0.as_str(), "result") {
                        assert(pairs[i as int].key != "result"@);
                        return None;
                    }
                    i += 1;
                }
                Some(NoData)
            },
            _ => None,
        }
    }
}

/// Whether `out` is `answer` with its envelope taken off: the payload of
/// an `ok`, or [`Errors::Api`] with the records of an `error`.
pub open spec fn lifted<T>(answer: ApiResult<T>, out: Result<T, Errors>) -> bool {
    match answer.0 {
        Ok(payload) => out == Ok::<T, Errors>(payload),
        Err(errors) => out == Err::<T, Errors>(Errors::Api(errors)),
    }
}

/// Turning what was decoded into what a caller gets.
pub trait FromResponse: Sized {
    /// What was decoded.
    type Response;

    /// Whether `out` is what a caller gets for `response`.
    spec fn answers(response: Self::Response, out: Self) -> bool;

    /// Turns what was decoded into what a caller gets.
    fn from_response(response: Self::Response) -> (out: Self)
        ensures
            Self::answers(response, out),
    ;
}

impl<T> FromResponse for Result<T, Errors> {
    type Response = ApiResult<T, ApiErrors>;

    open spec fn answers(response: ApiResult<T, ApiErrors>, out: Result<T, Errors>) -> bool {
        lifted(response, out)
    }

    fn from_response(response: ApiResult<T, ApiErrors>) -> (out: Result<T, Errors>) {
        match response.into_result() {
            Ok(payload) => Ok(payload),
            Err(errors) => Err(Errors::Api(errors)),
        }
    }
}

impl<T> FromResponse for Vec<Result<T, Errors>> {
    type Response = Vec<ApiResult<T, ApiErrors>>;

    /// Every item has its own envelope taken off, in place.
    open spec fn answers(response: Vec<ApiResult<T, ApiErrors>>, out: Vec<Result<T, Errors>>)
        -> bool {
        &&& out@.len() == response@.len()
        &&& forall|i: int| 0 <= i < response@.len() ==> lifted(response@[i], #[trigger] out@[i])
    }

    fn from_response(response: Vec<ApiResult<T, ApiErrors>>) -> (out: Vec<Result<T, Errors>>) {
        let ghost answers = response@;
        let mut out: Vec<Result<T, Errors>> = Vec::new();
        for answer in iter: response
            invariant
                iter.seq() == answers,
                out@.len() == iter.index(),
                forall|i: int| 0 <= i < iter.index() ==> lifted(answers[i], #[trigger] out@[i]),
        {
            out.push(FromResponse::from_response(answer));
        }
        out
    }
}

impl<T> FromResponse for Results<Result<T, Errors>> {
    type Response = Results<ApiResult<T, ApiErrors>>;

    /// Every item has its own envelope taken off, in place; `limit`,
    /// `offset` and `total` are kept.
    open spec fn answers(
        response: Results<ApiResult<T, ApiErrors>>,
        out: Results<Result<T, Errors>>,
    ) -> bool {
        &&& out.results@.len() == response.results@.len()
        &&& forall|i: int|
            0 <= i < response.results@.len() ==> lifted(
                response.results@[i],
                #[trigger] out.results@[i],
            )
        &&& out.limit == response.limit
        &&& out.offset == response.offset
        &&& out.total == response.total
    }

    fn from_response(response: Results<ApiResult<T, ApiErrors>>) -> (out: Results<
        Result<T, Errors>,
    >) {
        Results {
            results: FromResponse::from_response(response.results),
            offset: response.offset,
            limit: response.limit,
            total: response.total,
        }
    }
}

} // verus!
