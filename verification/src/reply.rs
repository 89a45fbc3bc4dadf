//! From what came back for a request to the answer of the call.

use crate::common::Shape;
use crate::errors::{Errors, ErrorsView, HttpError, HttpErrorView};
use crate::json::{parsed_json, Json, JsonView};
use crate::schema::common::{
    api_page, api_result, api_results, envelope, envelopes, no_data, page, FromResponse,
    NoData, Results, Tagged,
};
use vstd::prelude::*;

verus! {

/// What came back for a request, as a value: the text of the response
/// body, or the failure of the exchange.
pub type Reply = Result<Seq<char>, HttpErrorView>;

/// The value of what came back for a request.
pub open spec fn reply_view(reply: Result<String, HttpError>) -> Reply {
    match reply {
        Ok(body) => Ok(body@),
        Err(cause) => Err(cause@),
    }
}

/// The document that came back: a failed exchange is passed on as
/// [`Errors::Http`], and so is a body that is not JSON, as a decoding
/// failure.
pub open spec fn document(reply: Reply) -> Result<JsonView, ErrorsView> {
    match reply {
        Err(cause) => Err(ErrorsView::Http(cause)),
        Ok(body) => match parsed_json(body) {
            Some(json) => Ok(json),
            None => Err(ErrorsView::Http(HttpErrorView::Decode)),
        },
    }
}

/// The payload of the envelope that `json` is: an error envelope gives
/// [`Errors::Api`] with its records, a document that is no envelope gives a
/// decoding failure.
pub open spec fn unwrapped(json: JsonView) -> Result<JsonView, ErrorsView> {
    match envelope(json) {
        Some(Ok(payload)) => Ok(payload),
        Some(Err(errors)) => Err(ErrorsView::Api(errors)),
        None => Err(ErrorsView::Http(HttpErrorView::Decode)),
    }
}

/// The answer that `read` finds in the payload of the envelope `json`; a
/// payload that `read` rejects gives a decoding failure.
pub open spec fn typed<T>(json: JsonView, read: spec_fn(JsonView) -> Option<T>) -> Result<
    T,
    ErrorsView,
> {
    match unwrapped(json) {
        Ok(payload) => match read(payload) {
            Some(value) => Ok(value),
            None => Err(ErrorsView::Http(HttpErrorView::Decode)),
        },
        Err(error) => Err(error),
    }
}

/// The answer of a call whose reply is `reply` and whose payload is read
/// by `read`.
pub open spec fn answer<T>(reply: Reply, read: spec_fn(JsonView) -> Option<T>) -> Result<
    T,
    ErrorsView,
> {
    match document(reply) {
        Ok(json) => typed(json, read),
        Err(error) => Err(error),
    }
}

/// Reads the document that came back.
pub fn read_reply(reply: Result<String, HttpError>) -> (r: Result<Json, Errors>)
    ensures
        match r {
            Ok(json) => document(reply_view(reply)) == Ok::<JsonView, ErrorsView>(json@),
            Err(error) => document(reply_view(reply)) == Err::<JsonView, ErrorsView>(error@),
        },
{
    match reply {
        Err(cause) => Err(Errors::Http(cause)),
        Ok(body) => match Json::parse(body.as_str()) {
            Some(json) => Ok(json),
            None => Err(Errors::Http(HttpError::Decode)),
        },
    }
}

/// Takes the envelope off a document.
pub fn payload<'a>(json: &'a Json) -> (r: Result<&'a Json, Errors>)
    ensures
        match r {
            Ok(payload) => unwrapped(json@) == Ok::<JsonView, ErrorsView>(payload@),
            Err(error) => unwrapped(json@) == Err::<JsonView, ErrorsView>(error@),
        },
{
    match api_result(json) {
        Some(answer) => FromResponse::from_response(answer),
        None => Err(Errors::Http(HttpError::Decode)),
    }
}

/// A document without a `result` of `ok` or `error` is no envelope, and
/// reading it as one gives a decoding failure, whatever the payload was to
/// be.
pub proof fn missing_tag_is_malformed<T>(json: JsonView, read: spec_fn(JsonView) -> Option<T>)
    requires
        json.member("result"@) != Some(JsonView::Text("ok"@)),
        json.member("result"@) != Some(JsonView::Text("error"@)),
    ensures
        envelope(json) is None,
        unwrapped(json) == Err::<JsonView, ErrorsView>(ErrorsView::Http(HttpErrorView::Decode)),
        typed(json, read) == Err::<T, ErrorsView>(ErrorsView::Http(HttpErrorView::Decode)),
{
}

/// One item of a list, as a caller gets it: the payload of an `ok`, or
/// [`Errors::Api`] with the records of an `error`.
pub open spec fn item(tagged: Tagged) -> Result<JsonView, ErrorsView> {
    match tagged {
        Ok(payload) => Ok(payload),
        Err(errors) => Err(ErrorsView::Api(errors)),
    }
}

/// The value of one item of a list.
pub open spec fn item_view(item: Result<&Json, Errors>) -> Result<JsonView, ErrorsView> {
    match item {
        Ok(payload) => Ok(payload@),
        Err(error) => Err(error@),
    }
}

/// The answer of a call, still to be read as the type that the call
/// answers with.
#[derive(Debug)]
pub enum Answer<'a> {
    /// The body itself.
    Bare(&'a Json),
    /// The payload of the envelope.
    Single(&'a Json),
    /// Nothing.
    Empty,
    /// A page of a list; each item stands for itself.
    Page(Results<Result<&'a Json, Errors>>),
    /// A list; each item stands for itself.
    List(Vec<Result<&'a Json, Errors>>),
}

/// The value of an [`Answer`].
pub enum AnswerView {
    Bare(JsonView),
    Single(JsonView),
    Empty,
    Page { items: Seq<Result<JsonView, ErrorsView>>, limit: i32, offset: i32, total: i32 },
    List(Seq<Result<JsonView, ErrorsView>>),
}

impl<'a> View for Answer<'a> {
    type V = AnswerView;

    open spec fn view(&self) -> AnswerView {
        match self {
            Answer::Bare(json) => AnswerView::Bare(json@),
            Answer::Single(payload) => AnswerView::Single(payload@),
            Answer::Empty => AnswerView::Empty,
            Answer::Page(list) => AnswerView::Page {
                items: Seq::new(list.results@.len(), |i: int| item_view(list.results@[i])),
                limit: list.limit,
                offset: list.offset,
                total: list.total,
            },
            Answer::List(list) => AnswerView::List(
                Seq::new(list@.len(), |i: int| item_view(list@[i])),
            ),
        }
    }
}

/// The answer that the document `json` holds for a call whose answer is
/// wrapped as `shape` says.
///
/// The items of a page or of a list are read one by one: an item that is
/// an error envelope is an error of its own and leaves its neighbours as
/// they are. A document that does not have the shape gives a decoding
/// failure.
pub open spec fn decoded(shape: Shape, json: JsonView) -> Result<AnswerView, ErrorsView> {
    match shape {
        Shape::Bare => Ok(AnswerView::Bare(json)),
        Shape::Single => match unwrapped(json) {
            Ok(payload) => Ok(AnswerView::Single(payload)),
            Err(error) => Err(error),
        },
        Shape::Empty => match typed(json, |payload: JsonView| no_data(payload)) {
            Ok(_) => Ok(AnswerView::Empty),
            Err(error) => Err(error),
        },
        Shape::Page => match page(json) {
            Some(found) => Ok(
                AnswerView::Page {
                    items: found.results.map_values(|tagged: Tagged| item(tagged)),
                    limit: found.limit,
                    offset: found.offset,
                    total: found.total,
                },
            ),
            None => Err(ErrorsView::Http(HttpErrorView::Decode)),
        },
        Shape::List => match envelopes(json) {
            Some(found) => Ok(AnswerView::List(found.map_values(|tagged: Tagged| item(tagged)))),
            None => Err(ErrorsView::Http(HttpErrorView::Decode)),
        },
    }
}

/// Reads the answer that a document holds for a call whose answer is
/// wrapped as `shape` says.
pub fn decode<'a>(shape: Shape, json: &'a Json) -> (r: Result<Answer<'a>, Errors>)
    ensures
        match r {
            Ok(answer) => decoded(shape, json@) == Ok::<AnswerView, ErrorsView>(answer@),
            Err(error) => decoded(shape, json@) == Err::<AnswerView, ErrorsView>(error@),
        },
{
    match shape {
        Shape::Bare => Ok(Answer::Bare(json)),
        Shape::Single => match payload(json) {
            Ok(payload) => Ok(Answer::Single(payload)),
            Err(error) => Err(error),
        },
        Shape::Empty => match payload(json) {
            Ok(payload) => match NoData::from_json(payload) {
                Some(_) => Ok(Answer::Empty),
                None => Err(Errors::Http(HttpError::Decode)),
            },
            Err(error) => Err(error),
        },
        Shape::Page => match api_page(json) {
            Some(found) => {
                let ghost tags = page(json@).unwrap().results;
                let list: Results<Result<&'a Json, Errors>> = FromResponse::from_response(found);
                let answer = Answer::Page(list);
                proof {
                    let expected = tags.map_values(|tagged: Tagged| item(tagged));
                    assert(answer@->Page_items =~= expected);
                }
                Ok(answer)
            },
            None => Err(Errors::Http(HttpError::Decode)),
        },
        Shape::List => match api_results(json) {
            Some(found) => {
                let ghost tags = envelopes(json@).unwrap();
                let list: Vec<Result<&'a Json, Errors>> = FromResponse::from_response(found);
                let answer = Answer::List(list);
                proof {
                    let expected = tags.map_values(|tagged: Tagged| item(tagged));
                    assert(answer@->List_0 =~= expected);
                }
                Ok(answer)
            },
            None => Err(Errors::Http(HttpError::Decode)),
        },
    }
}

/// Every item of a page is read from its own envelope and from nothing
/// else: an `ok` beside an `error` stays an `ok`, and an `error` beside an
/// `ok` is an error of its own, not the failure of the page.
pub proof fn page_items_stand_alone(json: JsonView, items: Seq<JsonView>, i: int)
    requires
        json.member("results"@) == Some(JsonView::Array(items)),
        page(json) is Some,
        0 <= i < items.len(),
    ensures
        decoded(Shape::Page, json) matches Ok(AnswerView::Page { items: found, .. }) && {
            &&& found.len() == items.len()
            &&& envelope(items[i]) matches Some(tagged) && found[i] == item(tagged)
            &&& found[i] is Ok <==> items[i].member("result"@) == Some(JsonView::Text("ok"@))
        },
{
    reveal_strlit("ok");
    reveal_strlit("error");
}

/// Every item of a list is read from its own envelope and from nothing
/// else.
pub proof fn list_items_stand_alone(items: Seq<JsonView>, i: int)
    requires
        envelopes(JsonView::Array(items)) is Some,
        0 <= i < items.len(),
    ensures
        decoded(Shape::List, JsonView::Array(items)) matches Ok(AnswerView::List(found)) && {
            &&& found.len() == items.len()
            &&& envelope(items[i]) matches Some(tagged) && found[i] == item(tagged)
            &&& found[i] is Ok <==> items[i].member("result"@) == Some(JsonView::Text("ok"@))
        },
{
    reveal_strlit("ok");
    reveal_strlit("error");
}

} // verus!
