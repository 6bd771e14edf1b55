//! JSON documents as the decoder sees them, and the calls into the JSON
//! parser that produce them.
//!
//! The parser is not verified. What it returns on a given document is named
//! by the spec functions [`object_members`], [`array_elements`] and
//! [`unsigned_value`]; the decoder is verified against those names.

use vstd::prelude::*;

verus! {

/// A JSON value that has not been decoded further.
///
/// `raw` is the text of the value as it stands in its document. `text` holds,
/// where the value is a string, the characters that the string denotes.
#[derive(Debug, Clone, PartialEq, Eq)]
pub struct JsonValue {
    pub raw: Vec<u8>,
    pub text: Option<String>,
}

/// A member of a JSON object: its key and its value.
#[derive(Debug, Clone, PartialEq, Eq)]
pub struct JsonMember {
    pub key: String,
    pub value: JsonValue,
}

/// What a [`JsonValue`] holds.
pub struct JsonValueView {
    pub raw: Seq<u8>,
    pub text: Option<Seq<char>>,
}

/// What a [`JsonMember`] holds.
pub struct JsonMemberView {
    pub key: Seq<char>,
    pub value: JsonValueView,
}

impl View for JsonValue {
    type V = JsonValueView;

    open spec fn view(&self) -> JsonValueView {
        JsonValueView {
            raw: self.raw@,
            text: match self.text {
                Some(text) => Some(text@),
                None => None,
            },
        }
    }
}

impl View for JsonMember {
    type V = JsonMemberView;

    open spec fn view(&self) -> JsonMemberView {
        JsonMemberView { key: self.key@, value: self.value@ }
    }
}

/// What a sequence of parsed members holds; `None` stands for a place at
/// which the parser reported an error.
pub open spec fn members_view(items: Seq<Option<JsonMember>>) -> Seq<Option<JsonMemberView>> {
    Seq::new(
        items.len(),
        |i: int|
            match items[i] {
                Some(member) => Some(member@),
                None => None,
            },
    )
}

/// What a sequence of parsed elements holds; `None` stands for a place at
/// which the parser reported an error.
pub open spec fn elements_view(items: Seq<Option<JsonValue>>) -> Seq<Option<JsonValueView>> {
    Seq::new(
        items.len(),
        |i: int|
            match items[i] {
                Some(value) => Some(value@),
                None => None,
            },
    )
}

/// The items that the parser's object iterator yields on the document
/// `json`, in order: each member it reads, and `None` where it reports an
/// error.
pub uninterp spec fn object_members(json: Seq<u8>) -> Seq<Option<JsonMemberView>>;

/// The items that the parser's array iterator yields on the document `json`,
/// in order: each element it reads, and `None` where it reports an error.
pub uninterp spec fn array_elements(json: Seq<u8>) -> Seq<Option<JsonValueView>>;

/// The number that the parser reads from the document `json` as an unsigned
/// 64-bit integer, if it reads one.
pub uninterp spec fn unsigned_value(json: Seq<u8>) -> Option<u64>;

/// Runs `sonic_rs::to_object_iter` over `json` to its end and hands out what
/// it yields: for each member the key, the text of the value as
/// `LazyValue::as_raw_str` gives it and the string it denotes as
/// `JsonValueTrait::as_str` gives it, and `None` in place of an error. The
/// contract only names that outcome.
#[verifier::external_body]
pub(crate) fn read_object(json: &[u8]) -> (items: Vec<Option<JsonMember>>)
    ensures
        members_view(items@) == object_members(json@),
{
    let mut items = Vec::new();
    for item in sonic_rs::to_object_iter(json) {
        items.push(item.ok().map(|(key, value)| {
            let raw = value.as_raw_str().as_bytes().to_vec();
            let text = sonic_rs::JsonValueTrait::as_str(&value).map(String::from);
            JsonMember { key: key.to_string(), value: JsonValue { raw, text } }
        }));
    }
    items
}

/// Runs `sonic_rs::to_array_iter` over `json` to its end and hands out what
/// it yields: for each element the text of the value as
/// `LazyValue::as_raw_str` gives it and the string it denotes as
/// `JsonValueTrait::as_str` gives it, and `None` in place of an error. The
/// contract only names that outcome.
#[verifier::external_body]
pub(crate) fn read_array(json: &[u8]) -> (items: Vec<Option<JsonValue>>)
    ensures
        elements_view(items@) == array_elements(json@),
{
    let mut items = Vec::new();
    for item in sonic_rs::to_array_iter(json) {
        items.push(item.ok().map(|value| {
            let raw = value.as_raw_str().as_bytes().to_vec();
            let text = sonic_rs::JsonValueTrait::as_str(&value).map(String::from);
            JsonValue { raw, text }
        }));
    }
    items
}

/// Calls `sonic_rs::from_slice::<u64>` on `json` and hands out the number
/// where it succeeds. The contract only names that outcome.
#[verifier::external_body]
pub(crate) fn read_unsigned(json: &[u8]) -> (value: Option<u64>)
    ensures
        value == unsigned_value(json@),
{
    sonic_rs::from_slice::<u64>(json).ok()
}

} // verus!
