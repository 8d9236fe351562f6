//! The endpoint's answer: a JSON document whose top-level array holds the
//! translated segments at index 0 and the detected language at index 2.
use vstd::prelude::*;

verus! {

/// A JSON value, holding the parts that decoding reads: strings and arrays.
pub enum Json {
    Null,
    Bool(bool),
    Number,
    Str(String),
    Array(Vec<Json>),
    Object,
}

/// Why a translation could not be had.
pub enum TranslateError {
    /// The request did not complete; the cause as text.
    Transport(String),
    /// The body is not a JSON document.
    InvalidJson,
    /// Index 2 of the answer is not a string.
    NoLanguage,
    /// Index 0 of the answer is not an array.
    InvalidFormat,
}

#[verifier::external_type_specification]
#[verifier::external_body]
pub struct ExJsonValue(serde_json::Value);

/// What serde_json makes of a text, as a `Json`; `None` where it is no JSON document.
pub uninterp spec fn parsed_json(text: Seq<char>) -> Option<Json>;

/// Relies on serde_json::from_str into `serde_json::Value`: the document that the
/// text holds, or an error, depending on the text alone.
#[verifier::external_body]
fn parse_json(text: &str) -> (r: Option<Json>)
    ensures
        r == parsed_json(text@),
{
    serde_json::from_str::<serde_json::Value>(text).ok().map(|v| json_of_value(&v))
}

/// Relies on the variants of serde_json::Value: each is carried over to the
/// `Json` variant of the same name, strings and arrays with their contents.
#[verifier::external_body]
fn json_of_value(v: &serde_json::Value) -> Json {
    match v {
        serde_json::Value::Null => Json::Null,
        serde_json::Value::Bool(b) => Json::Bool(*b),
        serde_json::Value::Number(_) => Json::Number,
        serde_json::Value::String(s) => Json::Str(s.clone()),
        serde_json::Value::Array(a) => Json::Array(a.iter().map(json_of_value).collect()),
        serde_json::Value::Object(_) => Json::Object,
    }
}

/// Element `i` of an array; `Null` for anything else or out of range, as JSON
/// indexing reads it.
pub open spec fn item(j: Json, i: int) -> Json {
    match j {
        Json::Array(a) => if 0 <= i < a@.len() { a@[i] } else { Json::Null },
        _ => Json::Null,
    }
}

/// The strings at index 0 of each element, in order, skipping elements that
/// have none there.
pub open spec fn segments_of(items: Seq<Json>) -> Seq<String>
    decreases items.len(),
{
    if items.len() == 0 {
        Seq::empty()
    } else {
        let prev = segments_of(items.drop_last());
        match item(items.last(), 0) {
            Json::Str(s) => prev.push(s),
            _ => prev,
        }
    }
}

/// The detected language and the segments of an answer, or why there are none.
pub open spec fn decoded(j: Json) -> Result<(String, Seq<String>), TranslateError> {
    match item(j, 2) {
        Json::Str(lang) => match item(j, 0) {
            Json::Array(a) => Ok((lang, segments_of(a@))),
            _ => Err(TranslateError::InvalidFormat),
        },
        _ => Err(TranslateError::NoLanguage),
    }
}

/// `r` is the executable form of the outcome `d`.
pub open spec fn outcome_matches(
    r: Result<(String, Vec<String>), TranslateError>,
    d: Result<(String, Seq<String>), TranslateError>,
) -> bool {
    match d {
        Ok((lang, segs)) => r matches Ok((l, s)) && l == lang && s@ == segs,
        Err(e) => r == Err::<(String, Vec<String>), TranslateError>(e),
    }
}

fn item_at(j: &Json, i: usize) -> (r: Option<&Json>)
    ensures
        match r {
            Some(x) => *x == item(*j, i as int),
            None => item(*j, i as int) == Json::Null,
        },
{
    match j {
        Json::Array(a) => if i < a.len() { Some(&a[i]) } else { None },
        _ => None,
    }
}

/// The string at index 0 of `j`, if there is one.
fn head_string(j: &Json) -> (r: Option<String>)
    ensures
        match item(*j, 0) {
            Json::Str(s) => r == Some(s),
            _ => r is None,
        },
{
    match item_at(j, 0) {
        Some(Json::Str(s)) => Some(s.clone()),
        _ => None,
    }
}

/// The segments of an array of per-segment arrays, in order.
pub fn collect_segments(items: &Vec<Json>) -> (r: Vec<String>)
    ensures
        r@ == segments_of(items@),
{
    let mut out: Vec<String> = Vec::new();
    let mut i: usize = 0;
    while i < items.len()
        invariant
            i <= items@.len(),
            out@ == segments_of(items@.take(i as int)),
        decreases items@.len() - i,
    {
        assert(items@.take(i as int + 1).drop_last() =~= items@.take(i as int));
        match head_string(&items[i]) {
            Some(s) => out.push(s),
            None => {},
        }
        i = i + 1;
    }
    assert(items@.take(i as int) =~= items@);
    out
}

/// Decodes a parsed answer into its detected language and its segments.
pub fn decode_json(j: &Json) -> (r: Result<(String, Vec<String>), TranslateError>)
    ensures
        outcome_matches(r, decoded(*j)),
{
    let lang = match item_at(j, 2) {
        Some(Json::Str(s)) => s.clone(),
        _ => return Err(TranslateError::NoLanguage),
    };
    match item_at(j, 0) {
        Some(Json::Array(a)) => Ok((lang, collect_segments(a))),
        _ => Err(TranslateError::InvalidFormat),
    }
}

/// Decodes the body of an answer: `InvalidJson` where it is no JSON document,
/// else as `decode_json` does.
pub fn decode_response(body: &str) -> (r: Result<(String, Vec<String>), TranslateError>)
    ensures
        match parsed_json(body@) {
            None => r == Err::<(String, Vec<String>), TranslateError>(TranslateError::InvalidJson),
            Some(j) => outcome_matches(r, decoded(j)),
        },
{
    match parse_json(body) {
        Some(j) => decode_json(&j),
        None => Err(TranslateError::InvalidJson),
    }
}

} // verus!
