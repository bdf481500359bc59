//! The boundary to `serde_json`.
//!
//! `serde_json` parses and prints; this module copies what the rest of the
//! crate reads of a parsed value into plain data, and names the results so
//! that contracts elsewhere can speak of them.

use vstd::prelude::*;

verus! {

/// What a JSON text holds, as far as a token record is read from it.
///
/// A member or item that is a JSON string is kept as `Some` of its text; any
/// other member or item is kept as `None`.
#[derive(Debug, Clone, PartialEq, Eq)]
pub enum Document {
    /// An object, with its members in the order in which `serde_json` walks them.
    Object(Vec<(String, Option<String>)>),
    /// An array, with its items in order.
    Array(Vec<Option<String>>),
    /// `null`, a boolean, a number or a string.
    Scalar,
}

/// The mathematical value of a [`Document`].
pub enum DocumentView {
    Object(Seq<(Seq<char>, Option<Seq<char>>)>),
    Array(Seq<Option<Seq<char>>>),
    Scalar,
}

impl View for Document {
    type V = DocumentView;

    open spec fn view(&self) -> DocumentView {
        match self {
            Document::Object(members) => DocumentView::Object(members.deep_view()),
            Document::Array(items) => DocumentView::Array(items.deep_view()),
            Document::Scalar => DocumentView::Scalar,
        }
    }
}

/// `serde_json::Error`, with which `serde_json` rejects a text. The crate
/// reads nothing from it: it tells a failed parse from a parsed value, and
/// that is all.
#[verifier::external_type_specification]
#[verifier::external_body]
pub struct ExJsonError(serde_json::Error);

/// The document that `serde_json::from_str` reads out of `text`, or `None`
/// where it rejects the text.
pub uninterp spec fn json_document(text: Seq<char>) -> Option<DocumentView>;

/// Parses `text` with `serde_json::from_str` into a `serde_json::Value` and
/// copies the value's top level into a [`Document`].
///
/// Trusted: the result is a function of the text alone, and the call fails
/// exactly where `json_document` is `None`.
#[verifier::external_body]
pub(crate) fn read_document(text: &str) -> (r: Result<Document, serde_json::Error>)
    ensures
        r matches Ok(doc) ==> json_document(text@) == Some(doc@),
        r is Err ==> json_document(text@) is None,
{
    Ok(match serde_json::from_str::<serde_json::Value>(text)? {
        serde_json::Value::Object(map) => Document::Object(
            map.iter().map(|(k, v)| (k.clone(), v.as_str().map(String::from))).collect(),
        ),
        serde_json::Value::Array(items) => Document::Array(
            items.iter().map(|v| v.as_str().map(String::from)).collect(),
        ),
        serde_json::Value::Null
        | serde_json::Value::Bool(_)
        | serde_json::Value::Number(_)
        | serde_json::Value::String(_) => Document::Scalar,
    })
}

/// The texts of the elements of the JSON array that `serde_json::from_slice`
/// reads out of `body`, each element printed compactly by `serde_json`:
/// `None` where it rejects the bytes, `Some(None)` where they hold a JSON
/// value that is not an array.
pub uninterp spec fn json_elements(body: Seq<u8>) -> Option<Option<Seq<Seq<char>>>>;

/// Parses `body` with `serde_json::from_slice` into a `serde_json::Value`
/// and, where the value is an array, prints each of its elements with the
/// value's `to_string`.
///
/// Trusted: the result is a function of the bytes alone, and the call fails
/// exactly where `json_elements` is `None`.
#[verifier::external_body]
pub(crate) fn read_elements(body: &[u8]) -> (r: Result<Option<Vec<String>>, serde_json::Error>)
    ensures
        r matches Ok(elements) ==> json_elements(body@) == Some(elements.deep_view()),
        r is Err ==> json_elements(body@) is None,
{
    Ok(match serde_json::from_slice::<serde_json::Value>(body)? {
        serde_json::Value::Array(items) => Some(items.iter().map(|item| item.to_string()).collect()),
        serde_json::Value::Null
        | serde_json::Value::Bool(_)
        | serde_json::Value::Number(_)
        | serde_json::Value::String(_)
        | serde_json::Value::Object(_) => None,
    })
}

} // verus!
