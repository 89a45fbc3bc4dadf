//! Absolute URLs, as text; the `url` crate reads, joins and changes them.

use vstd::prelude::*;
use vstd::utf8::encode_utf8;

verus! {

/// The error of the `url` crate's parser.
#[verifier::external_type_specification]
#[verifier::external_body]
pub struct ExParseError(url::ParseError);

/// The serialization of the URL that `url::Url::parse` reads from `input`,
/// or `None` where it rejects `input`.
pub uninterp spec fn parsed_url(input: Seq<char>) -> Option<Seq<char>>;

/// The serialization of the URL that `url::Url::join` resolves `input` to
/// against the URL read from `base`, or `None` where `base` or `input` is
/// rejected.
pub uninterp spec fn joined_url(base: Seq<char>, input: Seq<char>) -> Option<Seq<char>>;

/// The serialization of the URL read from `url` after `url::Url::set_query`
/// has put `query` in the place of its query, or `None` where `url` is
/// rejected.
pub uninterp spec fn replaced_query(url: Seq<char>, query: Seq<char>) -> Option<Seq<char>>;

/// Calls `url::Url::parse` on `input` and hands back the serialization of
/// the URL. The contract only gives the outcome its name.
#[verifier::external_body]
pub(crate) fn parse_absolute(input: &str) -> (r: Result<String, url::ParseError>)
    ensures
        r matches Ok(text) ==> parsed_url(input@) == Some(text@),
        r is Err ==> parsed_url(input@) is None,
{
    url::Url::parse(input).map(String::from)
}

/// Reads `base` with `url::Url::parse`, calls `url::Url::join` with `input`
/// and hands back the serialization of the result. The contract only gives
/// the outcome its name.
#[verifier::external_body]
pub(crate) fn join_absolute(base: &str, input: &str) -> (r: Result<String, url::ParseError>)
    ensures
        r matches Ok(text) ==> joined_url(base@, input@) == Some(text@),
        r is Err ==> joined_url(base@, input@) is None,
{
    url::Url::parse(base)?.join(input).map(String::from)
}

/// Reads `url` with `url::Url::parse`, calls `url::Url::set_query` with
/// `Some(query)` and hands back the serialization of the result.
///
/// `set_query` stops the program where the URL that it changes has more
/// than `u32::MAX` bytes. Reading `url` and escaping `query` make neither
/// text more than a few times as long, so the `requires` keeps each of
/// them under a sixteenth of that size.
#[verifier::external_body]
fn replace_query(url: &str, query: &str) -> (r: Result<String, url::ParseError>)
    requires
        query_fits(url@, query@),
    ensures
        r matches Ok(text) ==> replaced_query(url@, query@) == Some(text@),
        r is Err ==> replaced_query(url@, query@) is None,
{
    let mut parsed = url::Url::parse(url)?;
    parsed.set_query(Some(query));
    Ok(String::from(parsed))
}

/// The error that the `url` crate gives for a URL that is too long:
/// `url::ParseError::Overflow`.
#[verifier::external_body]
fn overflow() -> url::ParseError {
    url::ParseError::Overflow
}

/// The most bytes that a URL, or a query to put into one, may have here.
pub const MAX_BYTES: usize = 0x0fff_ffff;

/// Whether `url` and `query` are short enough for `query` to be put into
/// `url`: neither has more than [`MAX_BYTES`] bytes.
pub open spec fn query_fits(url: Seq<char>, query: Seq<char>) -> bool {
    encode_utf8(url).len() <= MAX_BYTES && encode_utf8(query).len() <= MAX_BYTES
}

/// `url` with `query` as its query, or `None` where `url` is no absolute
/// URL or one of the two is too long.
pub open spec fn with_query(url: Seq<char>, query: Seq<char>) -> Option<Seq<char>> {
    if query_fits(url, query) {
        replaced_query(url, query)
    } else {
        None
    }
}

/// Puts `query` in the place of the query of the absolute URL `url`.
pub fn set_query(url: &str, query: &str) -> (r: Result<String, url::ParseError>)
    ensures
        r matches Ok(text) ==> with_query(url@, query@) == Some(text@),
        r is Err ==> with_query(url@, query@) is None,
{
    if url.as_bytes().len() > MAX_BYTES || query.as_bytes().len() > MAX_BYTES {
        return Err(overflow());
    }
    replace_query(url, query)
}

} // verus!
