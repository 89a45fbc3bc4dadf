//! A JSON document as a tree, with the mathematical value it stands for.

use crate::text::{join_text, optional_text, same_text};
use vstd::prelude::*;
use vstd::string::is_ascii_spec_bytes;

verus! {

/// A JSON document.
///
/// A number keeps the decimal text it was written with; an object keeps its
/// members in order, as pairs of a key and a value.
#[derive(Debug, PartialEq, Eq)]
pub enum Json {
    Null,
    Bool(bool),
    Number(String),
    Text(String),
    Array(Vec<Json>),
    Object(Vec<(String, Json)>),
}

/// The value of a [`Json`] document.
pub enum JsonView {
    Null,
    Bool(bool),
    Number(Seq<char>),
    Text(Seq<char>),
    Array(Seq<JsonView>),
    Object(Seq<MemberView>),
}

/// One member of an object: a key and the value under it.
pub struct MemberView {
    pub key: Seq<char>,
    pub value: JsonView,
}

impl DeepView for Json {
    type V = JsonView;

    open spec fn deep_view(&self) -> JsonView {
        self.view()
    }
}

impl View for Json {
    type V = JsonView;

    open spec fn view(&self) -> JsonView
        decreases self,
    {
        match self {
            Json::Null => JsonView::Null,
            Json::Bool(b) => JsonView::Bool(*b),
            Json::Number(digits) => JsonView::Number(digits@),
            Json::Text(text) => JsonView::Text(text@),
            Json::Array(items) => JsonView::Array(
                Seq::new(
                    items@.len(),
                    |i: int|
                        if 0 <= i < items@.len() {
                            items@[i].view()
                        } else {
                            JsonView::Null
                        },
                ),
            ),
            Json::Object(members) => JsonView::Object(
                Seq::new(
                    members@.len(),
                    |i: int|
                        if 0 <= i < members@.len() {
                            MemberView { key: members@[i].0@, value: members@[i].1.view() }
                        } else {
                            MemberView { key: Seq::empty(), value: JsonView::Null }
                        },
                ),
            ),
        }
    }
}

/// The value of the first member of `members`, from index `from` on, whose
/// key is `key`.
pub open spec fn lookup_from(members: Seq<MemberView>, key: Seq<char>, from: int)
    -> Option<JsonView>
    decreases members.len() - from,
{
    if from < 0 || from >= members.len() {
        None
    } else if members[from].key == key {
        Some(members[from].value)
    } else {
        lookup_from(members, key, from + 1)
    }
}

/// Whether `c` is a decimal digit.
pub open spec fn is_digit(c: char) -> bool {
    '0' <= c <= '9'
}

/// Whether `text` is made of decimal digits alone.
pub open spec fn all_digits(text: Seq<char>) -> bool {
    forall|i: int| 0 <= i < text.len() ==> is_digit(#[trigger] text[i])
}

/// The number that the decimal digits `text` write.
pub open spec fn digits_value(text: Seq<char>) -> int
    decreases text.len(),
{
    if text.len() == 0 {
        0
    } else {
        10 * digits_value(text.drop_last()) + (text.last() as u32 as int - 48)
    }
}

/// The integer that `text` writes in decimal: digits, with `-` before them
/// for a negative number. `None` for any other text.
pub open spec fn decimal(text: Seq<char>) -> Option<int> {
    if text.len() > 0 && text[0] == '-' {
        if text.len() > 1 && all_digits(text.skip(1)) {
            Some(-digits_value(text.skip(1)))
        } else {
            None
        }
    } else if text.len() > 0 && all_digits(text) {
        Some(digits_value(text))
    } else {
        None
    }
}

/// The readings of all `items` by `read`, in order; `None` where `read`
/// gives `None` for one of them.
pub open spec fn each<T>(items: Seq<JsonView>, read: spec_fn(JsonView) -> Option<T>) -> Option<
    Seq<T>,
> {
    if forall|i: int| 0 <= i < items.len() ==> read(#[trigger] items[i]) is Some {
        Some(Seq::new(items.len(), |i: int| read(items[i]).unwrap()))
    } else {
        None
    }
}

/// The optional text under `key`: `Some(None)` where `json` has no such
/// member or `null` there, `Some(Some(..))` where it has a string there,
/// `None` where it has anything else.
pub open spec fn optional_member_text(json: JsonView, key: Seq<char>) -> Option<Option<Seq<char>>> {
    match json.member(key) {
        None => Some(None),
        Some(JsonView::Null) => Some(None),
        Some(JsonView::Text(text)) => Some(Some(text)),
        Some(_) => None,
    }
}

/// The texts of the array `json`; `None` where `json` is no array or one
/// of its items is no string.
pub open spec fn texts(json: JsonView) -> Option<Seq<Seq<char>>> {
    match json {
        JsonView::Array(items) => each(items, |item: JsonView| item.text()),
        _ => None,
    }
}

impl JsonView {
    /// The value of the first member with the key `key`, where `self` is an
    /// object that has one.
    pub open spec fn member(self, key: Seq<char>) -> Option<JsonView> {
        match self {
            JsonView::Object(members) => lookup_from(members, key, 0),
            _ => None,
        }
    }

    /// The characters, where `self` is a string.
    pub open spec fn text(self) -> Option<Seq<char>> {
        match self {
            JsonView::Text(text) => Some(text),
            _ => None,
        }
    }

    /// The truth value, where `self` is `true` or `false`.
    pub open spec fn boolean(self) -> Option<bool> {
        match self {
            JsonView::Bool(b) => Some(b),
            _ => None,
        }
    }

    /// The integer, where `self` is a number written without fraction and
    /// exponent.
    pub open spec fn integer(self) -> Option<int> {
        match self {
            JsonView::Number(digits) => decimal(digits),
            _ => None,
        }
    }

    /// The items, where `self` is an array.
    pub open spec fn items(self) -> Option<Seq<JsonView>> {
        match self {
            JsonView::Array(items) => Some(items),
            _ => None,
        }
    }
}

/// A run of digits is worth at least as much as each of its beginnings.
proof fn digits_value_grows(text: Seq<char>, k: int)
    requires
        all_digits(text),
        0 <= k <= text.len(),
    ensures
        0 <= digits_value(text.take(k)) <= digits_value(text),
    decreases text.len() - k,
{
    if k == text.len() {
        assert(text.take(k) =~= text);
        digits_value_nonnegative(text);
    } else {
        digits_value_grows(text, k + 1);
        let longer = text.take(k + 1);
        assert(longer.drop_last() =~= text.take(k));
        digits_value_nonnegative(text.take(k));
    }
}

/// A run of digits writes no negative number.
proof fn digits_value_nonnegative(text: Seq<char>)
    requires
        all_digits(text),
    ensures
        0 <= digits_value(text),
    decreases text.len(),
{
    if text.len() > 0 {
        digits_value_nonnegative(text.drop_last());
    }
}

/// Reads `text` from index `from` on as a run of digits, up to `2^63`.
///
/// `None` where a character is no digit or the number is over `2^63`.
fn parse_digits(text: &str, from: usize) -> (r: Option<u128>)
    requires
        text.is_ascii(),
        from <= text@.len(),
    ensures
        match r {
            Some(value) => all_digits(text@.skip(from as int)) && value == digits_value(
                text@.skip(from as int),
            ) && value <= 0x8000_0000_0000_0000,
            None => !all_digits(text@.skip(from as int)) || digits_value(text@.skip(from as int))
                > 0x8000_0000_0000_0000,
        },
{
    let bytes = text.as_bytes();
    proof {
        is_ascii_spec_bytes(text);
    }
    let ghost digits = text@.skip(from as int);
    let mut value: u128 = 0;
    let mut i: usize = from;
    while i < bytes.len()
        invariant
            from <= i <= bytes.len(),
            bytes.len() == text@.len(),
            digits == text@.skip(from as int),
            forall|k: int| 0 <= k < bytes.len() ==> bytes@[k] == text@[k] as u8,
            forall|k: int| 0 <= k < bytes.len() ==> '\0' <= #[trigger] text@[k] <= '\u{7f}',
            all_digits(digits.take(i - from)),
            value == digits_value(digits.take(i - from)),
            value <= 0x8000_0000_0000_0000,
        decreases bytes.len() - i,
    {
        let byte = bytes[i];
        assert(digits[i - from] == text@[i as int]);
        if byte < 48 || byte > 57 {
            return None;
        }
        let ghost longer = digits.take(i - from + 1);
        assert(longer.drop_last() =~= digits.take(i - from));
        assert forall|k: int| 0 <= k < longer.len() implies is_digit(#[trigger] longer[k]) by {
            if k < i - from {
                assert(longer[k] == digits.take(i - from)[k]);
            }
        }
        value = value * 10 + (byte - 48) as u128;
        if value > 0x8000_0000_0000_0000 {
            proof {
                if all_digits(digits) {
                    digits_value_grows(digits, i - from + 1);
                }
            }
            return None;
        }
        i += 1;
    }
    assert(digits.take(i - from) =~= digits);
    Some(value)
}

/// Reads `text` as a decimal integer that fits 64 bits.
pub fn parse_decimal(text: &str) -> (r: Option<i64>)
    ensures
        r matches Some(value) ==> decimal(text@) == Some(value as int),
        r is None ==> match decimal(text@) {
            Some(value) => value < i64::MIN || value > i64::MAX,
            None => true,
        },
{
    if !text.is_ascii() {
        proof {
            let i = choose|i: int|
                0 <= i < text@.len() && !('\0' <= #[trigger] text@[i] <= '\u{7f}');
            if i > 0 {
                assert(text@.skip(1)[i - 1] == text@[i]);
            }
        }
        return None;
    }
    let bytes = text.as_bytes();
    proof {
        is_ascii_spec_bytes(text);
    }
    if bytes.len() == 0 {
        return None;
    }
    if bytes[0] == 45 {
        if bytes.len() == 1 {
            return None;
        }
        match parse_digits(text, 1) {
            Some(value) => Some((-(value as i128)) as i64),
            None => None,
        }
    } else {
        assert(text@.skip(0) =~= text@);
        match parse_digits(text, 0) {
            Some(value) => if value > 0x7fff_ffff_ffff_ffff {
                None
            } else {
                Some(value as i64)
            },
            None => None,
        }
    }
}

/// A document of the `serde_json` crate.
#[verifier::external_type_specification]
#[verifier::external_body]
pub struct ExValue(serde_json::Value);

/// The tree that a `serde_json::Value` holds.
pub uninterp spec fn value_tree(value: serde_json::Value) -> JsonView;

/// What `serde_json::from_str` reads from `text`: the tree of the document,
/// or `None` where `text` is not one JSON document.
pub uninterp spec fn parsed_json(text: Seq<char>) -> Option<JsonView>;

/// Calls `serde_json::from_str` for a `serde_json::Value`. A parse error
/// becomes `None`; the contract only gives the outcome its name.
#[verifier::external_body]
fn read_value(text: &str) -> (r: Option<serde_json::Value>)
    ensures
        r matches Some(value) ==> parsed_json(text@) == Some(value_tree(value)),
        r is None ==> parsed_json(text@) is None,
{
    serde_json::from_str::<serde_json::Value>(text).ok()
}

/// Moves a `serde_json::Value` into a [`Json`], variant by variant; a number
/// is written out with `serde_json::Number`'s `Display`.
#[verifier::external_body]
fn tree_of(value: serde_json::Value) -> (r: Json)
    ensures
        r@ == value_tree(value),
{
    match value {
        serde_json::Value::Null => Json::Null,
        serde_json::Value::Bool(b) => Json::Bool(b),
        serde_json::Value::Number(n) => Json::Number(n.to_string()),
        serde_json::Value::String(s) => Json::Text(s),
        serde_json::Value::Array(a) => Json::Array(a.into_iter().map(tree_of).collect()),
        serde_json::Value::Object(o) => Json::Object(
            o.into_iter().map(|(k, v)| (k, tree_of(v))).collect(),
        ),
    }
}

/// The JSON string that `serde_json::to_string` writes for `text`, quotes
/// and escapes included, or `None` where it fails.
pub uninterp spec fn json_string(text: Seq<char>) -> Option<Seq<char>>;

/// Calls `serde_json::to_string` on `text`. An error becomes `None`; the
/// contract only gives the outcome its name.
#[verifier::external_body]
fn write_string(text: &str) -> (r: Option<String>)
    ensures
        optional_text(r) == json_string(text@),
{
    serde_json::to_string(text).ok()
}

/// Writes `text` as a JSON string, quotes and escapes included.
pub fn quote(text: &str) -> (r: Option<String>)
    ensures
        optional_text(r) == json_string(text@),
{
    write_string(text)
}

/// The JSON object with the string `first` under `first_key` and the string
/// `second` under `second_key`; `None` where a string cannot be written.
///
/// The keys are taken as they are: they need no escaping.
pub open spec fn two_strings(
    first_key: Seq<char>,
    first: Seq<char>,
    second_key: Seq<char>,
    second: Seq<char>,
) -> Option<Seq<char>> {
    match (json_string(first), json_string(second)) {
        (Some(first), Some(second)) => Some(
            "{\""@ + first_key + "\":"@ + first + ",\""@ + second_key + "\":"@ + second + "}"@,
        ),
        _ => None,
    }
}

/// The JSON object with the string `value` under `key`; `None` where the
/// string cannot be written.
pub open spec fn one_string(key: Seq<char>, value: Seq<char>) -> Option<Seq<char>> {
    match json_string(value) {
        Some(value) => Some("{\""@ + key + "\":"@ + value + "}"@),
        None => None,
    }
}

/// Writes the JSON object with the string `value` under `key`.
pub fn write_one_string(key: &str, value: &str) -> (r: Option<String>)
    ensures
        optional_text(r) == one_string(key@, value@),
{
    let value = match quote(value) {
        Some(value) => value,
        None => {
            return None;
        },
    };
    let text = join_text("{\"", key);
    let text = join_text(text.as_str(), "\":");
    let text = join_text(text.as_str(), value.as_str());
    Some(join_text(text.as_str(), "}"))
}

/// Writes the JSON object with the string `first` under `first_key` and
/// the string `second` under `second_key`.
pub fn write_two_strings(first_key: &str, first: &str, second_key: &str, second: &str) -> (r:
    Option<String>)
    ensures
        optional_text(r) == two_strings(first_key@, first@, second_key@, second@),
{
    let first = match quote(first) {
        Some(first) => first,
        None => {
            return None;
        },
    };
    let second = match quote(second) {
        Some(second) => second,
        None => {
            return None;
        },
    };
    let text = join_text("{\"", first_key);
    let text = join_text(text.as_str(), "\":");
    let text = join_text(text.as_str(), first.as_str());
    let text = join_text(text.as_str(), ",\"");
    let text = join_text(text.as_str(), second_key);
    let text = join_text(text.as_str(), "\":");
    let text = join_text(text.as_str(), second.as_str());
    Some(join_text(text.as_str(), "}"))
}

impl Json {
    /// The value of the first member with the key `key`, where `self` is an
    /// object that has one.
    pub fn get(&self, key: &str) -> (r: Option<&Json>)
        ensures
            match r {
                Some(value) => self@.member(key@) == Some(value@),
                None => self@.member(key@) is None,
            },
    {
        match self {
            Json::Object(members) => {
                let ghost pairs = self@->Object_0;
                let mut i: usize = 0;
                while i < members.len()
                    invariant
                        i <= members.len(),
                        self@ == JsonView::Object(pairs),
                        pairs.len() == members@.len(),
                        forall|k: int|
                            0 <= k < members@.len() ==> #[trigger] pairs[k] == (MemberView {
                                key: members@[k].0@,
                                value: members@[k].1@,
                            }),
                        lookup_from(pairs, key@, 0) == lookup_from(pairs, key@, i as int),
                    decreases members.len() - i,
                {
                    if same_text(members[i].0.as_str(), key) {
                        return Some(&members[i].1);
                    }
                    i += 1;
                }
                None
            },
            _ => None,
        }
    }

    /// The characters, where `self` is a string.
    pub fn as_str(&self) -> (r: Option<&str>)
        ensures
            match r {
                Some(text) => self@.text() == Some(text@),
                None => self@.text() is None,
            },
    {
        match self {
            Json::Text(text) => Some(text.as_str()),
            _ => None,
        }
    }

    /// The truth value, where `self` is `true` or `false`.
    pub fn as_bool(&self) -> (r: Option<bool>)
        ensures
            r == self@.boolean(),
    {
        match self {
            Json::Bool(b) => Some(*b),
            _ => None,
        }
    }

    /// The integer, where `self` is a number that is written without
    /// fraction and exponent and fits 64 bits.
    pub fn as_i64(&self) -> (r: Option<i64>)
        ensures
            r matches Some(value) ==> self@.integer() == Some(value as int),
            r is None ==> match self@.integer() {
                Some(value) => value < i64::MIN || value > i64::MAX,
                None => true,
            },
    {
        match self {
            Json::Number(digits) => parse_decimal(digits.as_str()),
            _ => None,
        }
    }

    /// The integer, where `self` is a number that is written without
    /// fraction and exponent and fits 32 bits.
    pub fn as_i32(&self) -> (r: Option<i32>)
        ensures
            r matches Some(value) ==> self@.integer() == Some(value as int),
            r is None ==> match self@.integer() {
                Some(value) => value < i32::MIN || value > i32::MAX,
                None => true,
            },
    {
        match self.as_i64() {
            Some(value) => if value < -0x8000_0000 || value > 0x7fff_ffff {
                None
            } else {
                Some(value as i32)
            },
            None => None,
        }
    }

    /// The items, where `self` is an array.
    pub fn as_array(&self) -> (r: Option<&Vec<Json>>)
        ensures
            match r {
                Some(items) => self@.items() == Some(items.deep_view()),
                None => self@.items() is None,
            },
    {
        match self {
            Json::Array(items) => {
                Some(items)
            },
            _ => None,
        }
    }

    /// The optional text under `key`: nothing where there is no such member
    /// or `null` under it. `None` where the member is neither a string nor
    /// `null`.
    pub fn optional_text(&self, key: &str) -> (r: Option<Option<String>>)
        ensures
            match r {
                Some(text) => optional_member_text(self@, key@) == Some(
                    optional_text(text),
                ),
                None => optional_member_text(self@, key@) is None,
            },
    {
        match self.get(key) {
            None => Some(None),
            Some(Json::Null) => Some(None),
            Some(Json::Text(text)) => Some(Some(text.clone())),
            Some(_) => None,
        }
    }

    /// The texts, where `self` is an array of strings.
    pub fn as_texts(&self) -> (r: Option<Vec<String>>)
        ensures
            match r {
                Some(list) => texts(self@) == Some(list.deep_view()),
                None => texts(self@) is None,
            },
    {
        let items = match self.as_array() {
            Some(items) => items,
            None => {
                return None;
            },
        };
        let ghost read = |item: JsonView| item.text();
        let mut list: Vec<String> = Vec::new();
        let mut i: usize = 0;
        while i < items.len()
            invariant
                i <= items.len(),
                list@.len() == i,
                self@ == JsonView::Array(items.deep_view()),
                read == |item: JsonView| item.text(),
                forall|k: int|
                    0 <= k < i ==> read(#[trigger] items.deep_view()[k]) == Some(list@[k]@),
            decreases items.len() - i,
        {
            match items[i].as_str() {
                Some(text) => {
                    list.push(text.to_owned());
                },
                None => {
                    assert(read(items.deep_view()[i as int]) is None);
                    return None;
                },
            }
            i += 1;
        }
        Some(list)
    }

    /// Whether `self` is `null`.
    pub fn is_null(&self) -> (r: bool)
        ensures
            r == (self@ is Null),
    {
        match self {
            Json::Null => true,
            _ => false,
        }
    }

    /// Reads one JSON document from `text`.
    pub fn parse(text: &str) -> (r: Option<Json>)
        ensures
            r matches Some(json) ==> parsed_json(text@) == Some(json@),
            r is None ==> parsed_json(text@) is None,
    {
        match read_value(text) {
            Some(value) => Some(tree_of(value)),
            None => None,
        }
    }
}

} // verus!
