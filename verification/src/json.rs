//! JSON values as the envd event decoding reads them, through `serde_json`.

use vstd::prelude::*;

verus! {

/// What a JSON value is, as far as the decoding of envd events reads it.
#[derive(Debug, Clone, PartialEq, Eq)]
pub enum JsonKind {
    Null,
    Bool(bool),
    /// A number, with what `as_u64` and `as_i64` give for it.
    Number { as_u64: Option<u64>, as_i64: Option<i64> },
    Str(String),
    Array,
    Object,
}

/// A JSON value that a pointer selected: its kind and its compact rendering
/// (the `Display` text of `serde_json::Value`).
#[derive(Debug, Clone, PartialEq, Eq)]
pub struct JsonLeaf {
    pub kind: JsonKind,
    pub text: String,
}

/// Model of [`JsonKind`].
pub enum JsonKindModel {
    Null,
    Bool(bool),
    Number { as_u64: Option<u64>, as_i64: Option<i64> },
    Str(Seq<char>),
    Array,
    Object,
}

/// Model of [`JsonLeaf`].
pub struct JsonLeafModel {
    pub kind: JsonKindModel,
    pub text: Seq<char>,
}

impl View for JsonKind {
    type V = JsonKindModel;

    open spec fn view(&self) -> JsonKindModel {
        match *self {
            JsonKind::Null => JsonKindModel::Null,
            JsonKind::Bool(b) => JsonKindModel::Bool(b),
            JsonKind::Number { as_u64, as_i64 } => JsonKindModel::Number { as_u64, as_i64 },
            JsonKind::Str(s) => JsonKindModel::Str(s@),
            JsonKind::Array => JsonKindModel::Array,
            JsonKind::Object => JsonKindModel::Object,
        }
    }
}

impl View for JsonLeaf {
    type V = JsonLeafModel;

    open spec fn view(&self) -> JsonLeafModel {
        JsonLeafModel { kind: self.kind@, text: self.text@ }
    }
}

/// The model of an optional leaf.
pub open spec fn leaf_view(l: Option<JsonLeaf>) -> Option<JsonLeafModel> {
    match l {
        Some(v) => Some(v@),
        None => None,
    }
}

/// The value that the JSON Pointer (RFC 6901) `pointer` selects in the JSON
/// document `document`, as `serde_json` parses it; `None` where `document`
/// is not JSON or where `pointer` selects nothing.
pub uninterp spec fn json_pointer_value(document: Seq<u8>, pointer: Seq<char>) -> Option<JsonLeafModel>;

/// Parses `document` with `serde_json::from_slice` into a `serde_json::Value`,
/// selects with `Value::pointer`, and reports the selected value's kind
/// (`Number::as_u64`, `Number::as_i64`, the string's contents) and its
/// rendering (`to_string`). The contract ties the result to the name
/// [`json_pointer_value`] and states nothing more of it.
#[verifier::external_body]
pub(crate) fn json_lookup(document: &[u8], pointer: &str) -> (r: Option<JsonLeaf>)
    ensures
        leaf_view(r) == json_pointer_value(document@, pointer@),
{
    let value: serde_json::Value = serde_json::from_slice(document).ok()?;
    let v = value.pointer(pointer)?;
    let kind = match v {
        serde_json::Value::Null => JsonKind::Null,
        serde_json::Value::Bool(b) => JsonKind::Bool(*b),
        serde_json::Value::Number(n) => JsonKind::Number { as_u64: n.as_u64(), as_i64: n.as_i64() },
        serde_json::Value::String(s) => JsonKind::Str(s.clone()),
        serde_json::Value::Array(_) => JsonKind::Array,
        serde_json::Value::Object(_) => JsonKind::Object,
    };
    Some(JsonLeaf { kind, text: v.to_string() })
}

/// The JSON string literal for `s` as `serde_json` writes it: quotes, with
/// the characters that JSON requires escaped.
pub uninterp spec fn json_string_text(s: Seq<char>) -> Seq<char>;

/// Calls `serde_json::to_string` on a `&str`. The contract ties the result to
/// the name [`json_string_text`]; serializing a string into a `String`
/// reports no error in `serde_json`.
#[verifier::external_body]
pub(crate) fn json_quote(s: &str) -> (r: String)
    ensures
        r@ == json_string_text(s@),
{
    serde_json::to_string(s).unwrap_or_default()
}

} // verus!
