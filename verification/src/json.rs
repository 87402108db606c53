//! Reading values out of JSON text received from Discord.

use vstd::prelude::*;
use serde_json::Value;

verus! {

/// The value found at a place of a JSON document, reduced to what the
/// protocol logic reads: scalars in full, containers by their kind only.
#[derive(Debug)]
pub enum JsonScalar {
    Null,
    Bool(bool),
    /// A number that fits a `u64` (a non-negative integer).
    UInt(u64),
    /// Any other number (negative or fractional).
    OtherNumber,
    Str(String),
    Array,
    Object,
}

/// The mathematical form of a `JsonScalar`.
pub enum JsonScalarView {
    Null,
    Bool(bool),
    UInt(u64),
    OtherNumber,
    Str(Seq<char>),
    Array,
    Object,
}

impl View for JsonScalar {
    type V = JsonScalarView;

    open spec fn view(&self) -> JsonScalarView {
        match self {
            JsonScalar::Null => JsonScalarView::Null,
            JsonScalar::Bool(b) => JsonScalarView::Bool(*b),
            JsonScalar::UInt(n) => JsonScalarView::UInt(*n),
            JsonScalar::OtherNumber => JsonScalarView::OtherNumber,
            JsonScalar::Str(s) => JsonScalarView::Str(s@),
            JsonScalar::Array => JsonScalarView::Array,
            JsonScalar::Object => JsonScalarView::Object,
        }
    }
}

/// The view of a lookup result: `None` when the text is not JSON,
/// `Some(None)` when nothing stands at the pointer.
pub open spec fn lookup_view(r: Option<Option<JsonScalar>>) -> Option<Option<JsonScalarView>> {
    match r {
        None => None,
        Some(None) => Some(None),
        Some(Some(v)) => Some(Some(v@)),
    }
}

/// What `serde_json` finds in the JSON text `text` at the JSON pointer
/// `pointer`: `None` when the text does not parse, `Some(None)` when the
/// pointer names nothing in it.
pub uninterp spec fn json_at(text: Seq<char>, pointer: Seq<char>) -> Option<Option<JsonScalarView>>;

/// Parses `text` with `serde_json::from_str::<serde_json::Value>`, then looks
/// up `pointer` with `serde_json::Value::pointer`, and reduces the value
/// found to a `JsonScalar` (numbers through `Number::as_u64`).
/// The contract claims that the result is a function of the text and the
/// pointer, named `json_at`, and that it is `None` exactly when the text does
/// not parse, whatever the pointer (the empty pointer names the whole
/// document, so its lookup fails only on a parse failure). What `json_at` is
/// beyond that is serde_json's.
#[verifier::external_body]
fn json_lookup(text: &str, pointer: &str) -> (r: Option<Option<JsonScalar>>)
    ensures
        lookup_view(r) == json_at(text@, pointer@),
        r is None <==> json_at(text@, Seq::empty()) is None,
{
    let value: Value = serde_json::from_str(text).ok()?;
    Some(value.pointer(pointer).map(|found| match found {
        Value::Null => JsonScalar::Null,
        Value::Bool(b) => JsonScalar::Bool(*b),
        Value::Number(n) => n.as_u64().map_or(JsonScalar::OtherNumber, JsonScalar::UInt),
        Value::String(s) => JsonScalar::Str(s.clone()),
        Value::Array(_) => JsonScalar::Array,
        Value::Object(_) => JsonScalar::Object,
    }))
}

/// The JSON text parses.
pub open spec fn json_valid(text: Seq<char>) -> bool {
    json_at(text, Seq::empty()) is Some
}

/// The unsigned integer at `pointer`, if the text parses and one stands there.
pub open spec fn u64_at(text: Seq<char>, pointer: Seq<char>) -> Option<u64> {
    match json_at(text, pointer) {
        Some(Some(JsonScalarView::UInt(n))) => Some(n),
        _ => None,
    }
}

/// The string at `pointer`, if the text parses and one stands there.
pub open spec fn str_at(text: Seq<char>, pointer: Seq<char>) -> Option<Seq<char>> {
    match json_at(text, pointer) {
        Some(Some(JsonScalarView::Str(s))) => Some(s),
        _ => None,
    }
}

/// The boolean at `pointer`, if the text parses and one stands there.
pub open spec fn bool_at(text: Seq<char>, pointer: Seq<char>) -> Option<bool> {
    match json_at(text, pointer) {
        Some(Some(JsonScalarView::Bool(b))) => Some(b),
        _ => None,
    }
}

/// Whether `text` is JSON text whose top-level value is an array.
pub open spec fn is_json_array(text: Seq<char>) -> bool {
    json_at(text, Seq::empty()) == Some(Some(JsonScalarView::Array))
}

/// The text parses as JSON.
pub fn parses(text: &str) -> (b: bool)
    ensures
        b == json_valid(text@),
{
    proof {
        reveal_strlit("");
        assert(""@ =~= Seq::<char>::empty());
    }
    json_lookup(text, "").is_some()
}

/// The top-level value of the text is a JSON array.
pub fn top_is_array(text: &str) -> (b: bool)
    ensures
        b == is_json_array(text@),
{
    proof {
        reveal_strlit("");
        assert(""@ =~= Seq::<char>::empty());
    }
    match json_lookup(text, "") {
        Some(Some(JsonScalar::Array)) => true,
        _ => false,
    }
}

/// The unsigned integer at `pointer` in `text`.
pub fn u64_at_pointer(text: &str, pointer: &str) -> (r: Option<u64>)
    ensures
        r == u64_at(text@, pointer@),
        !json_valid(text@) ==> r is None,
{
    match json_lookup(text, pointer) {
        Some(Some(JsonScalar::UInt(n))) => Some(n),
        _ => None,
    }
}

/// The string at `pointer` in `text`.
pub fn str_at_pointer(text: &str, pointer: &str) -> (r: Option<String>)
    ensures
        match r {
            Some(s) => str_at(text@, pointer@) == Some(s@),
            None => str_at(text@, pointer@) is None,
        },
        !json_valid(text@) ==> r is None,
{
    match json_lookup(text, pointer) {
        Some(Some(JsonScalar::Str(s))) => Some(s),
        _ => None,
    }
}

/// The boolean at `pointer` in `text`.
pub fn bool_at_pointer(text: &str, pointer: &str) -> (r: Option<bool>)
    ensures
        r == bool_at(text@, pointer@),
        !json_valid(text@) ==> r is None,
{
    match json_lookup(text, pointer) {
        Some(Some(JsonScalar::Bool(b))) => Some(b),
        _ => None,
    }
}

} // verus!
