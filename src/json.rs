//! Read access to JSON documents received from upstream services.
use vstd::prelude::*;

verus! {

#[verifier::external_type_specification]
#[verifier::external_body]
pub struct ExJsonValue(serde_json::Value);

#[verifier::external_type_specification]
#[verifier::external_body]
pub struct ExJsonError(serde_json::Error);

/// Whether `serde_json::from_str` accepts `text` as a JSON value.
pub uninterp spec fn json_parses(text: Seq<char>) -> bool;

/// The string that `serde_json::Value::as_str` finds at JSON pointer `pointer`
/// of the document `text`; `None` when nothing is there or it is not a string.
pub uninterp spec fn json_str_at(text: Seq<char>, pointer: Seq<char>) -> Option<Seq<char>>;

/// The length of the array that `serde_json::Value::as_array` finds at JSON
/// pointer `pointer` of the document `text`; `None` when nothing is there or it
/// is not an array.
pub uninterp spec fn json_array_len_at(text: Seq<char>, pointer: Seq<char>) -> Option<nat>;

/// The view of an optional string.
pub open spec fn opt_view(o: Option<String>) -> Option<Seq<char>> {
    match o {
        Some(s) => Some(s@),
        None => None,
    }
}

/// A parsed JSON document together with the text it was parsed from.
/// `value` is always the parse of `text`: only `parse` builds a document.
pub struct JsonDocument {
    text: String,
    value: serde_json::Value,
}

impl JsonDocument {
    /// The text the document was parsed from.
    pub closed spec fn source(&self) -> Seq<char> {
        self.text@
    }

    /// Relies on `serde_json::from_str::<serde_json::Value>`: succeeds exactly
    /// when the text is one JSON value.
    #[verifier::external_body]
    pub(crate) fn parse(text: &str) -> (r: Result<JsonDocument, serde_json::Error>)
        ensures
            r is Ok <==> json_parses(text@),
            r matches Ok(d) ==> d.source() == text@,
    {
        serde_json::from_str::<serde_json::Value>(text).map(
            |value| JsonDocument { text: text.to_string(), value },
        )
    }

    /// Relies on `serde_json::Value::pointer` (RFC 6901 lookup) followed by
    /// `serde_json::Value::as_str`.
    #[verifier::external_body]
    pub(crate) fn str_at(&self, pointer: &str) -> (r: Option<String>)
        ensures
            opt_view(r) == json_str_at(self.source(), pointer@),
    {
        self.value.pointer(pointer).and_then(|v| v.as_str()).map(|s| s.to_string())
    }

    /// Relies on `serde_json::Value::pointer` (RFC 6901 lookup) followed by
    /// `serde_json::Value::as_array` and the array's length.
    #[verifier::external_body]
    pub(crate) fn array_len_at(&self, pointer: &str) -> (r: Option<usize>)
        ensures
            match r {
                Some(n) => json_array_len_at(self.source(), pointer@) == Some(n as nat),
                None => json_array_len_at(self.source(), pointer@) is None,
            },
    {
        self.value.pointer(pointer).and_then(|v| v.as_array()).map(|a| a.len())
    }
}

} // verus!
