//! Reading control messages, which arrive as JSON text.

use vstd::prelude::*;

verus! {

/// The text under the key `type` of the JSON object that a text holds;
/// `None` where the text is no JSON document, the document is no object, the
/// object has no such key, or the key holds something other than a string.
pub uninterp spec fn json_type_field(text: Seq<char>) -> Option<Seq<char>>;

/// Parses a text with `serde_json::from_str` into a `serde_json::Value` and
/// hands out the string stored under the key `type`.
///
/// `Value`'s index by a key yields the member of an object, and null for a
/// missing key or a value that is no object; `Value::as_str` yields the text
/// of a string and nothing for any other value. The result depends on the
/// text alone.
#[verifier::external_body]
pub(crate) fn read_type_field(text: &str) -> (field: Option<String>)
    ensures
        match field {
            Some(kind) => json_type_field(text@) == Some(kind@),
            None => json_type_field(text@) is None,
        },
{
    match serde_json::from_str::<serde_json::Value>(text) {
        Ok(value) => value["type"].as_str().map(|kind| kind.to_string()),
        Err(_) => None,
    }
}

} // verus!
