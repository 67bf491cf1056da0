//! The wire format of a task envelope: a UTF-8 JSON document with at least a
//! string field `type` naming the task kind and a kind-dependent `payload`
//! document. Consumers ignore fields they do not understand, so decoding only
//! asks whether the text is a JSON document and what its `type` field holds.

use vstd::prelude::*;

verus! {

/// Whether `text` is a well-formed JSON document. Names the success of
/// `serde_json::from_str`, which depends on the text alone.
pub uninterp spec fn json_parses(text: Seq<char>) -> bool;

/// The string value of the top-level field `key` of the JSON document encoded
/// by `text`: `None` when the document is no object, lacks the field, or holds
/// it with a non-string value. Meaningful only when `json_parses(text)`.
/// Names what `serde_json`'s field lookup returns, a function of the text and
/// the key alone.
pub uninterp spec fn str_field_of(text: Seq<char>, key: Seq<char>) -> Option<Seq<char>>;

/// The outcome of looking a string field up in a raw text.
#[derive(Debug, Clone, PartialEq, Eq)]
pub enum FieldLookup {
    /// The text is not a JSON document.
    NoDocument,
    /// The document has no string field of that name.
    Missing,
    /// The field's string value.
    Found(String),
}

/// Relies on `serde_json::from_str::<Value>`, `Value::get` and
/// `Value::as_str`: parses `text` and returns the string field `key` of the
/// resulting document. All three depend on their arguments alone.
#[verifier::external_body]
fn extract_str_field(text: &str, key: &str) -> (r: FieldLookup)
    ensures
        (r is NoDocument) <==> !json_parses(text@),
        json_parses(text@) ==> ((r is Found) <==> (str_field_of(text@, key@) is Some)),
        r matches FieldLookup::Found(v) ==> str_field_of(text@, key@) == Some(v@),
{
    match serde_json::from_str::<serde_json::Value>(text) {
        Err(_) => FieldLookup::NoDocument,
        Ok(doc) => match doc.get(key).and_then(|v| v.as_str()) {
            None => FieldLookup::Missing,
            Some(s) => FieldLookup::Found(s.to_string()),
        },
    }
}

/// The task kind a wire text carries: the string field `type` of the document,
/// provided the text decodes at all.
pub open spec fn wire_kind(text: Seq<char>) -> Option<Seq<char>> {
    if !json_parses(text) {
        None
    } else {
        str_field_of(text, "type"@)
    }
}

/// How a raw payload decodes.
#[derive(Debug, Clone, PartialEq, Eq)]
pub enum Decoded {
    /// The bytes are not a JSON document: the message is malformed.
    NotJson,
    /// A JSON document without a string `type` field: equally malformed,
    /// since the kind is what makes a message dispatchable.
    NoKind,
    /// A dispatchable message of this kind.
    Kind(String),
}

/// Decodes a raw payload text: splits malformed texts from dispatchable ones
/// and extracts the task kind.
pub fn decode_kind(text: &str) -> (r: Decoded)
    ensures
        (r is NotJson) <==> !json_parses(text@),
        (r is NoKind) <==> (json_parses(text@) && str_field_of(text@, "type"@) is None),
        (r is Kind) <==> (wire_kind(text@) is Some),
        r matches Decoded::Kind(k) ==> wire_kind(text@) == Some(k@),
{
    match extract_str_field(text, "type") {
        FieldLookup::NoDocument => Decoded::NotJson,
        FieldLookup::Missing => Decoded::NoKind,
        FieldLookup::Found(k) => Decoded::Kind(k),
    }
}

} // verus!
