//! The JSON boundary. Parsing and re-serialization are serde_json's work;
//! each call stands behind one trusted wrapper whose result is a plain
//! value, named by an uninterpreted spec function where its exact text
//! would take pages to state. Everything that decides on those values is
//! verified elsewhere.

use vstd::prelude::*;

verus! {

/// Whether `s` is one valid JSON document.
pub uninterp spec fn json_valid(s: Seq<char>) -> bool;

/// Relies on serde_json::from_str::<Value>: whether a text parses as JSON
/// depends on the text alone.
#[verifier::external_body]
pub(crate) fn parse_ok(s: &str) -> (r: bool)
    ensures
        r == json_valid(s@),
{
    serde_json::from_str::<serde_json::Value>(s).is_ok()
}

/// The pretty-printed (multi-line, indented) rendering of the JSON
/// document `s`, or `None` when `s` is not one.
pub uninterp spec fn pretty_json_of(s: Seq<char>) -> Option<Seq<char>>;

/// Relies on serde_json::from_str and serde_json::to_string_pretty: the
/// pretty rendering depends on the text alone, and an unparsable text has
/// none.
#[verifier::external_body]
pub(crate) fn to_pretty(s: &str) -> (r: Option<String>)
    ensures
        r.deep_view() == pretty_json_of(s@),
        !json_valid(s@) ==> r is None,
{
    match serde_json::from_str::<serde_json::Value>(s) {
        Ok(v) => serde_json::to_string_pretty(&v).ok(),
        Err(_) => None,
    }
}

/// The compact texts of the elements of the `transformations` array of
/// the JSON document `s`, in order; an absent array gives the empty
/// sequence, an unparsable document gives `None`.
pub uninterp spec fn transformation_list_of(s: Seq<char>) -> Option<Seq<Seq<char>>>;

/// Relies on serde_json::from_str, Value::get, Value::as_array and
/// serde_json::to_string: the element texts depend on the text alone.
#[verifier::external_body]
pub(crate) fn parse_transformation_list(s: &str) -> (r: Option<Vec<String>>)
    ensures
        r.deep_view() == transformation_list_of(s@),
        !json_valid(s@) ==> r is None,
{
    let v: serde_json::Value = match serde_json::from_str(s) {
        Ok(v) => v,
        Err(_) => return None,
    };
    let mut out: Vec<String> = Vec::new();
    if let Some(items) = v.get("transformations").and_then(|t| t.as_array()) {
        for item in items {
            match serde_json::to_string(item) {
                Ok(text) => out.push(text),
                Err(_) => return None,
            }
        }
    }
    Some(out)
}

/// The pretty text of `results[id]` in the evaluation document `s`, or
/// `None` when `s` does not parse, has no `results` object, or that
/// object has no key `id`.
pub uninterp spec fn eval_result_of(s: Seq<char>, id: Seq<char>) -> Option<Seq<char>>;

/// Relies on serde_json::from_str, Value::get, Value::as_object, Map::get
/// and serde_json::to_string_pretty: the looked-up text depends on the
/// arguments alone.
#[verifier::external_body]
pub(crate) fn eval_result_lookup(s: &str, id: &str) -> (r: Option<String>)
    ensures
        r.deep_view() == eval_result_of(s@, id@),
{
    let v: serde_json::Value = match serde_json::from_str(s) {
        Ok(v) => v,
        Err(_) => return None,
    };
    let value = v.get("results")?.as_object()?.get(id)?;
    serde_json::to_string_pretty(value).ok()
}

/// Whether the `pending` array of the evaluation document `s` holds an
/// entry whose `transformationId` field is `id`.
pub uninterp spec fn eval_pending_has(s: Seq<char>, id: Seq<char>) -> bool;

/// Relies on serde_json::from_str, Value::get, Value::as_array and
/// Value::as_str: membership depends on the arguments alone.
#[verifier::external_body]
pub(crate) fn eval_pending_lookup(s: &str, id: &str) -> (r: bool)
    ensures
        r == eval_pending_has(s@, id@),
{
    let v: serde_json::Value = match serde_json::from_str(s) {
        Ok(v) => v,
        Err(_) => return false,
    };
    match v.get("pending").and_then(|p| p.as_array()) {
        Some(items) => items.iter().any(
            |item| item.get("transformationId").and_then(|t| t.as_str()) == Some(id),
        ),
        None => false,
    }
}

/// The `failed` entry for `id` in the evaluation document `s`: `None`
/// when there is none, otherwise its optional `errorMessage` text.
pub uninterp spec fn eval_failed_entry(s: Seq<char>, id: Seq<char>) -> Option<Option<Seq<char>>>;

/// Relies on serde_json::from_str, Value::get, Value::as_array and
/// Value::as_str: the entry found depends on the arguments alone.
#[verifier::external_body]
pub(crate) fn eval_failed_lookup(s: &str, id: &str) -> (r: Option<Option<String>>)
    ensures
        r.deep_view() == eval_failed_entry(s@, id@),
{
    let v: serde_json::Value = match serde_json::from_str(s) {
        Ok(v) => v,
        Err(_) => return None,
    };
    for item in v.get("failed")?.as_array()? {
        if item.get("transformationId").and_then(|t| t.as_str()) == Some(id) {
            return Some(item.get("errorMessage").and_then(|m| m.as_str()).map(String::from));
        }
    }
    None
}

} // verus!
