//! Documents as text: reading and writing JSON through `serde_json`.
//!
//! The grammar of JSON is `serde_json`'s business. This module hands it the
//! text and takes a document back, and the other way round. What `serde_json`
//! reads in a text, and what it writes for a document, is given a name in
//! [`value`] and is not spelled out. The way between its documents and those
//! of this library is verified, in [`reading`] and [`writing`], and everything
//! that the protocol adds to JSON is decided by the codecs, on the document.

use crate::document::reading::json_of;
use crate::document::value::{parse_value, parsed, print_value, written, MAX_DEPTH};
use crate::document::writing::{
    held, lemma_held_by_value, lemma_within_by_value, value_of, within,
};
use crate::error::{DecodeError, DecodeErrorView, ErrorKind};
use crate::json::{unique_keys, Json, JsonView};
use crate::wire::{outcome, Wire};
use vstd::prelude::*;

pub mod reading;
pub mod writing;
pub mod value;

verus! {

/// Reads the JSON document that `text` holds, if it holds one.
pub fn read_text(text: &str) -> (doc: Option<Json>)
    ensures
        match doc {
            Some(doc) => parsed(text@) == Some(doc@),
            None => parsed(text@).is_none(),
        },
{
    match parse_value(text) {
        Some(value) => Some(json_of(&value)),
        None => None,
    }
}

/// The value that the text stands for: what `decode` makes of the document
/// that the text holds.
pub open spec fn from_str_spec<T: Wire>(text: Seq<char>) -> Result<T::V, DecodeErrorView> {
    match parsed(text) {
        Some(doc) => T::decode_spec(doc),
        None => Err(DecodeErrorView::at_root(ErrorKind::Syntax)),
    }
}

/// Reads a protocol value from JSON text.
pub fn from_str<T: Wire>(text: &str) -> (result: Result<T, DecodeError>)
    ensures
        outcome(result) == from_str_spec::<T>(text@),
{
    match read_text(text) {
        Some(doc) => T::decode(&doc),
        None => Err(DecodeError::at_root(ErrorKind::Syntax)),
    }
}

/// What `serde_json` holds of a document with the given value: what it holds
/// of any document with that value in which no key occurs twice.
pub open spec fn held_view(doc: JsonView) -> Option<JsonView> {
    held(choose|plain: Json| plain@ == doc && unique_keys(plain))
}

/// Whether a document with the given value is nested no more than `depth`
/// levels deep. A member that a later one overrides does not count.
pub open spec fn within_view(doc: JsonView, depth: nat) -> bool {
    within(choose|plain: Json| plain@ == doc && unique_keys(plain), depth)
}

/// What writing a document comes to.
///
/// There is no text for a document in which a decimal is not a JSON number,
/// nor for one that is nested more than [`MAX_DEPTH`] levels deep, which is
/// deeper than `serde_json` reads. Every other document is handed to
/// `serde_json::to_string` as `serde_json` holds it, and what that gives is the
/// outcome: the text that it writes, or nothing where it fails.
pub open spec fn text_of(doc: JsonView) -> Option<Seq<char>> {
    match held_view(doc) {
        Some(held) => if within_view(doc, MAX_DEPTH as nat) {
            written(held)
        } else {
            None
        },
        None => None,
    }
}

/// What `serde_json` holds of a value is what it holds of any document with
/// that value in which no key occurs twice.
pub proof fn lemma_held_view(doc: Json)
    requires
        unique_keys(doc),
    ensures
        held_view(doc@) == held(doc),
{
    let plain = choose|plain: Json| plain@ == doc@ && unique_keys(plain);
    lemma_held_by_value(doc, plain);
}

/// How deeply a value is nested is how deeply any document with that value is
/// nested in which no key occurs twice.
pub proof fn lemma_within_view(doc: Json, depth: nat)
    requires
        unique_keys(doc),
    ensures
        within_view(doc@, depth) == within(doc, depth),
{
    let plain = choose|plain: Json| plain@ == doc@ && unique_keys(plain);
    lemma_within_by_value(doc, plain, depth);
}

/// Writes `doc` as JSON text.
///
/// The outcome depends on the value of the document alone: a member that a
/// later one overrides is not written and makes no difference.
pub fn write_text(doc: &Json) -> (text: Option<String>)
    ensures
        match text {
            Some(text) => text_of(doc@) == Some(text@),
            None => text_of(doc@).is_none(),
        },
{
    let plain = doc.canonical();
    proof {
        lemma_held_view(plain);
        lemma_within_view(plain, MAX_DEPTH as nat);
    }
    match value_of(&plain, MAX_DEPTH) {
        Some(value) => print_value(&value),
        None => None,
    }
}

/// Writes a protocol value as JSON text: what writing its encoding comes to.
pub fn to_string<T: Wire>(value: &T) -> (text: Option<String>)
    ensures
        match text {
            Some(text) => text_of(T::encode_spec(value.deep_view())) == Some(text@),
            None => text_of(T::encode_spec(value.deep_view())).is_none(),
        },
{
    let doc = value.encode();
    write_text(&doc)
}

} // verus!
