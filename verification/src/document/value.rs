//! `serde_json::Value`, as far as this library has to do with it.
//!
//! Nothing here is proved. Each function is one step into `serde_json` or out
//! of it, and its contract says of that step what the source of `serde_json`
//! shows.

use crate::json::{JsonView, NumberView};
use serde_json::Value;
use vstd::prelude::*;

verus! {

/// `serde_json::Value`, the document type of `serde_json`. Nothing is known
/// of what is inside one but through [`value_view`].
#[verifier::external_type_specification]
#[verifier::external_body]
pub struct ExValue(Value);

/// The document that a `serde_json::Value` holds. A number that it holds as a
/// double counts as a decimal, with the text that `serde_json` writes for it.
pub uninterp spec fn value_view(value: Value) -> JsonView;

/// How deep a `serde_json::Value` is nested: not at all where there is no
/// value inside it, and else one level more than the deepest value inside it.
pub uninterp spec fn value_height(value: Value) -> nat;

/// The deepest nesting of a `serde_json::Value` that this library hands to
/// `serde_json::to_string`, which goes one call deeper for each level. It is
/// the depth to which `serde_json` reads.
pub const MAX_DEPTH: usize = 127;

/// What `serde_json::from_str` reads in a text: the document, or nothing where
/// the text is not one JSON document.
pub uninterp spec fn parsed(text: Seq<char>) -> Option<JsonView>;

/// What the `from_str` of `serde_json::Number` reads in a text: the number as
/// `serde_json` holds it, or nothing where the text is not a JSON number.
pub uninterp spec fn number_read(text: Seq<char>) -> Option<NumberView>;

/// What `serde_json::to_string` gives for a document: the text that it writes,
/// or nothing where the call fails.
pub uninterp spec fn written(doc: JsonView) -> Option<Seq<char>>;

/// Whether each of the values is nested less than `depth` levels deep.
pub open spec fn shallower(values: Seq<Value>, depth: nat) -> bool {
    forall|i: int| 0 <= i < values.len() ==> value_height(#[trigger] values[i]) < depth
}

/// Whether the value of each member is nested less than `depth` levels deep.
pub open spec fn shallower_members(members: Seq<(String, Value)>, depth: nat) -> bool {
    forall|i: int| 0 <= i < members.len() ==> value_height((#[trigger] members[i]).1) < depth
}

/// The documents that a sequence of values holds.
pub open spec fn values_view(values: Seq<Value>) -> Seq<JsonView> {
    values.map_values(|value: Value| value_view(value))
}

/// The map that a sequence of keys and values denotes, where no key occurs
/// twice.
pub open spec fn pairs_view(pairs: Seq<(Seq<char>, JsonView)>) -> Map<Seq<char>, JsonView>
    decreases pairs.len(),
{
    if pairs.len() == 0 {
        Map::empty()
    } else {
        pairs_view(pairs.drop_last()).insert(pairs.last().0, pairs.last().1)
    }
}

/// Whether no two of the pairs have the same key.
pub open spec fn distinct_pairs(pairs: Seq<(Seq<char>, JsonView)>) -> bool {
    forall|i: int, j: int| 0 <= i < j < pairs.len() ==> (#[trigger] pairs[i]).0 != (#[trigger] pairs[j]).0
}

/// The keys and documents of the members of an object of `serde_json`.
pub open spec fn borrowed_pairs(members: Seq<(&String, &Value)>) -> Seq<(Seq<char>, JsonView)> {
    members.map_values(|member: (&String, &Value)| (member.0@, value_view(*member.1)))
}

/// The keys and documents of members that are to become an object of
/// `serde_json`.
pub open spec fn owned_pairs(members: Seq<(String, Value)>) -> Seq<(Seq<char>, JsonView)> {
    members.map_values(|member: (String, Value)| (member.0@, value_view(member.1)))
}

/// What a `serde_json::Value` is made of: its variant, with what the variant
/// holds.
pub enum Parts<'a> {
    Null,
    Bool(bool),
    Number(&'a Value),
    String(&'a str),
    Array(&'a Vec<Value>),
    Object(Vec<(&'a String, &'a Value)>),
}

/// Calls `serde_json::from_str` for a `serde_json::Value`: whether a text is
/// read, and as what, depends on the text alone.
#[verifier::external_body]
pub(crate) fn parse_value(text: &str) -> (value: Option<Value>)
    ensures
        match value {
            Some(value) => parsed(text@) == Some(value_view(value)),
            None => parsed(text@).is_none(),
        },
{
    serde_json::from_str::<Value>(text).ok()
}

/// Tells the variants of a `serde_json::Value` apart and hands out what the
/// variant holds; the members of an object come from `serde_json::Map::iter`,
/// which gives each key once. What is inside a value is less deeply nested
/// than the value.
#[verifier::external_body]
pub(crate) fn parts_of<'a>(value: &'a Value) -> (parts: Parts<'a>)
    ensures
        match parts {
            Parts::Null => value_view(*value) == JsonView::Null,
            Parts::Bool(b) => value_view(*value) == JsonView::Bool(b),
            Parts::Number(number) => *number == *value && value_view(*value) is Number,
            Parts::String(s) => value_view(*value) == JsonView::String(s@),
            Parts::Array(items) => {
                &&& value_view(*value) == JsonView::Array(values_view(items@))
                &&& forall|i: int|
                    0 <= i < items@.len() ==> value_height(#[trigger] items@[i]) < value_height(
                        *value,
                    )
            },
            Parts::Object(members) => {
                &&& value_view(*value) == JsonView::Object(pairs_view(borrowed_pairs(members@)))
                &&& distinct_pairs(borrowed_pairs(members@))
                &&& forall|i: int|
                    0 <= i < members@.len() ==> value_height(*(#[trigger] members@[i]).1)
                        < value_height(*value)
            },
        },
{
    match value {
        Value::Null => Parts::Null,
        Value::Bool(b) => Parts::Bool(*b),
        Value::Number(_) => Parts::Number(value),
        Value::String(s) => Parts::String(s),
        Value::Array(items) => Parts::Array(items),
        Value::Object(members) => Parts::Object(members.iter().collect()),
    }
}

/// Calls `serde_json::Value::as_u64`, which gives the integer of a number
/// that is held as a `PosInt`, and of no other value.
#[verifier::external_body]
pub(crate) fn value_as_u64(value: &Value) -> (n: Option<u64>)
    ensures
        match n {
            Some(n) => value_view(*value) == JsonView::Number(NumberView::PosInt(n)),
            None => !(value_view(*value) matches JsonView::Number(NumberView::PosInt(_))),
        },
{
    value.as_u64()
}

/// Calls `serde_json::Value::as_i64`, which gives the integer of a number
/// that is held as a `NegInt`, and that of a `PosInt` that fits.
#[verifier::external_body]
pub(crate) fn value_as_i64(value: &Value) -> (n: Option<i64>)
    ensures
        value_view(*value) matches JsonView::Number(NumberView::NegInt(held)) ==> n == Some(held),
        n matches Some(n) ==> value_view(*value) matches JsonView::Number(number)
            && number.as_int() == Some(n as int),
{
    value.as_i64()
}

/// Calls `serde_json::Value::as_number` and the `to_string` of
/// `serde_json::Number`, which for a number held as a double is the text that
/// counts as its decimal.
#[verifier::external_body]
pub(crate) fn value_number_text(value: &Value) -> (text: Option<String>)
    ensures
        value_view(*value) matches JsonView::Number(NumberView::Decimal(decimal)) ==> text matches Some(
            text,
        ) && text@ == decimal,
{
    value.as_number().map(|number| number.to_string())
}

/// `serde_json::Value::Null`.
#[verifier::external_body]
pub(crate) fn null_value() -> (value: Value)
    ensures
        value_view(value) == JsonView::Null,
        value_height(value) == 0,
{
    Value::Null
}

/// `serde_json::Value::Bool`.
#[verifier::external_body]
pub(crate) fn bool_value(b: bool) -> (value: Value)
    ensures
        value_view(value) == JsonView::Bool(b),
        value_height(value) == 0,
{
    Value::Bool(b)
}

/// Calls `serde_json::Value::from` on a `u64`, which makes a number that is
/// held as a `PosInt`.
#[verifier::external_body]
pub(crate) fn u64_value(n: u64) -> (value: Value)
    ensures
        value_view(value) == JsonView::Number(NumberView::PosInt(n)),
        value_height(value) == 0,
{
    Value::from(n)
}

/// Calls `serde_json::Value::from` on an `i64`, which makes a number that is
/// held as a `NegInt` where it is negative, and as a `PosInt` where it is not.
#[verifier::external_body]
pub(crate) fn i64_value(n: i64) -> (value: Value)
    ensures
        value_view(value) == JsonView::Number(NumberView::of_int(n as int)),
        value_height(value) == 0,
{
    Value::from(n)
}

/// Calls the `from_str` of `serde_json::Number` and wraps what it reads in
/// `serde_json::Value::Number`: whether a text is read, and as what, depends on
/// the text alone.
#[verifier::external_body]
pub(crate) fn decimal_value(text: &str) -> (value: Option<Value>)
    ensures
        match value {
            Some(value) => number_read(text@) matches Some(number) && value_view(value)
                == JsonView::Number(number) && value_height(value) == 0,
            None => number_read(text@).is_none(),
        },
{
    text.parse().ok().map(Value::Number)
}

/// `serde_json::Value::String`.
#[verifier::external_body]
pub(crate) fn string_value(text: String) -> (value: Value)
    ensures
        value_view(value) == JsonView::String(text@),
        value_height(value) == 0,
{
    Value::String(text)
}

/// `serde_json::Value::Array`.
#[verifier::external_body]
pub(crate) fn array_value(items: Vec<Value>) -> (value: Value)
    ensures
        value_view(value) == JsonView::Array(values_view(items@)),
        forall|depth: nat| #[trigger] shallower(items@, depth) ==> value_height(value) <= depth,
{
    Value::Array(items)
}

/// Collects members into a `serde_json::Map` and wraps it in
/// `serde_json::Value::Object`. No key may occur twice: which of two members
/// with one key would stay is not said of the collecting.
#[verifier::external_body]
pub(crate) fn object_value(members: Vec<(String, Value)>) -> (value: Value)
    requires
        distinct_pairs(owned_pairs(members@)),
    ensures
        value_view(value) == JsonView::Object(pairs_view(owned_pairs(members@))),
        forall|depth: nat| #[trigger]
            shallower_members(members@, depth) ==> value_height(value) <= depth,
{
    Value::Object(members.into_iter().collect())
}

/// Calls `serde_json::to_string` on a `serde_json::Value`: whether a text is
/// written, and which, depends on the document alone. That is so where
/// `serde_json::Map` is ordered by key, as it is without the feature
/// `preserve_order`. Nothing is promised of whether the call succeeds. The
/// value must not be nested too deeply for the calls that `serde_json` nests.
#[verifier::external_body]
pub(crate) fn print_value(value: &Value) -> (text: Option<String>)
    requires
        value_height(*value) <= MAX_DEPTH,
    ensures
        match text {
            Some(text) => written(value_view(*value)) == Some(text@),
            None => written(value_view(*value)).is_none(),
        },
{
    serde_json::to_string(value).ok()
}

} // verus!
