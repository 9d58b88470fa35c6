//! The structured output of external tools, read by `serde_json`.
//!
//! Parsing is trusted: what the parser makes of a text is given a name, and
//! the verified code of this crate is stated over that name. What is read
//! out of a parsed document is handed over as plain optional strings.

use vstd::prelude::*;

verus! {

/// `serde_json::Error`, carried through as it comes. Nothing is read from
/// it: a text that the parser refuses is a text without a listing.
#[verifier::external_type_specification]
#[verifier::external_body]
pub struct ExJsonError(serde_json::Error);

/// The string members of one array element under three chosen keys. A member
/// is absent where the element is no object, has no such key, or holds
/// something other than a string there.
pub type TextRow = (Option<String>, Option<String>, Option<String>);

/// The mathematical value of a [`TextRow`].
pub type TextRowModel = (Option<Seq<char>>, Option<Seq<char>>, Option<Seq<char>>);

/// What [`decode_rows`] reads from `text`: `None` where `text` is not one
/// JSON array, else one row per element, in order.
pub uninterp spec fn json_rows(
    text: Seq<char>,
    first: Seq<char>,
    second: Seq<char>,
    third: Seq<char>,
) -> Option<Seq<TextRowModel>>;

/// What [`decode_text_list`] reads from `text`: `None` where `text` is not
/// one JSON value; `Some(None)` where that value has no array member `key`;
/// else the elements of that array, each as its text if it is a string.
pub uninterp spec fn json_text_list(text: Seq<char>, key: Seq<char>) -> Option<
    Option<Seq<Option<Seq<char>>>>,
>;

/// `serde_json::from_str::<Vec<Value>>`, with each element reduced to its
/// string members under the three keys (`Value::get`, `Value::as_str`).
/// The contract claims only that the outcome is a function of the four
/// texts: it fails exactly when the name is `None`, and succeeds with
/// exactly the rows that the name holds.
#[verifier::external_body]
pub(crate) fn decode_rows(text: &str, first: &str, second: &str, third: &str) -> (r: Result<
    Vec<TextRow>,
    serde_json::Error,
>)
    ensures
        match r {
            Ok(rows) => json_rows(text@, first@, second@, third@) == Some(rows.deep_view()),
            Err(_) => json_rows(text@, first@, second@, third@) is None,
        },
{
    let items = serde_json::from_str::<Vec<serde_json::Value>>(text)?;
    Ok(items.iter().map(|v| (
        v.get(first).and_then(|x| x.as_str()).map(|s| s.to_string()),
        v.get(second).and_then(|x| x.as_str()).map(|s| s.to_string()),
        v.get(third).and_then(|x| x.as_str()).map(|s| s.to_string()),
    )).collect())
}

/// `serde_json::from_str::<Value>`, reduced to the array member `key` of the
/// document (`Value::get`, `Value::as_array`) with each element as its text
/// (`Value::as_str`). The contract claims only that the outcome is a
/// function of the two texts.
#[verifier::external_body]
pub(crate) fn decode_text_list(text: &str, key: &str) -> (r: Result<
    Option<Vec<Option<String>>>,
    serde_json::Error,
>)
    ensures
        match r {
            Ok(list) => json_text_list(text@, key@) == Some(list.deep_view()),
            Err(_) => json_text_list(text@, key@) is None,
        },
{
    let document = serde_json::from_str::<serde_json::Value>(text)?;
    Ok(document.get(key).and_then(|e| e.as_array()).map(|items| {
        items.iter().map(|x| x.as_str().map(|s| s.to_string())).collect()
    }))
}

} // verus!
