//! From a `serde_json::Value` to a document of this library.

use crate::document::value::{
    borrowed_pairs, pairs_view, parts_of, value_as_i64, value_as_u64, value_height,
    value_number_text, value_view, values_view, Parts,
};
use crate::json::{
    items_view, lemma_items_view, lemma_members_view_push, members_view, Json, JsonView, Number,
    NumberView,
};
use serde_json::Value;
use vstd::prelude::*;

verus! {

/// The number that a `serde_json::Value` holds.
fn number_of(value: &Value) -> (number: Number)
    requires
        value_view(*value) is Number,
    ensures
        JsonView::Number(number@) == value_view(*value),
{
    match value_as_u64(value) {
        Some(n) => Number::PosInt(n),
        None => match value_as_i64(value) {
            Some(n) => Number::NegInt(n),
            None => match value_number_text(value) {
                Some(text) => Number::Decimal(text),
                None => {
                    // A number is held as a `PosInt`, a `NegInt` or a double.
                    assert(false);
                    Number::PosInt(0)
                },
            },
        },
    }
}

/// The document that a `serde_json::Value` holds.
pub(crate) fn json_of(value: &Value) -> (doc: Json)
    ensures
        doc@ == value_view(*value),
    decreases value_height(*value),
{
    match parts_of(value) {
        Parts::Null => Json::Null,
        Parts::Bool(b) => Json::Bool(b),
        Parts::Number(number) => Json::Number(number_of(number)),
        Parts::String(text) => Json::String(text.to_owned()),
        Parts::Array(items) => {
            let mut docs: Vec<Json> = Vec::new();
            let mut i: usize = 0;
            while i < items.len()
                invariant
                    i <= items.len(),
                    docs@.len() == i,
                    forall|k: int|
                        0 <= k < items@.len() ==> value_height(#[trigger] items@[k]) < value_height(
                            *value,
                        ),
                    forall|k: int| 0 <= k < i ==> (#[trigger] docs@[k])@ == value_view(items@[k]),
                decreases items.len() - i,
            {
                let doc = json_of(&items[i]);
                docs.push(doc);
                i += 1;
            }
            proof {
                lemma_items_view(docs@);
                assert(items_view(docs@) =~= values_view(items@));
            }
            Json::Array(docs)
        },
        Parts::Object(members) => {
            let mut docs: Vec<(String, Json)> = Vec::new();
            let mut i: usize = 0;
            proof {
                assert(borrowed_pairs(members@).take(0) =~= Seq::empty());
            }
            while i < members.len()
                invariant
                    i <= members.len(),
                    forall|k: int|
                        0 <= k < members@.len() ==> value_height(*(#[trigger] members@[k]).1)
                            < value_height(*value),
                    members_view(docs@) == pairs_view(borrowed_pairs(members@).take(i as int)),
                decreases members.len() - i,
            {
                let key = members[i].0.clone();
                let doc = json_of(members[i].1);
                proof {
                    let pairs = borrowed_pairs(members@);
                    lemma_members_view_push(docs@, key, doc);
                    assert(pairs.take(i + 1).drop_last() =~= pairs.take(i as int));
                    assert(pairs.take(i + 1).last() == (key@, doc@));
                }
                docs.push((key, doc));
                i += 1;
            }
            proof {
                let pairs = borrowed_pairs(members@);
                assert(pairs.take(members.len() as int) =~= pairs);
            }
            Json::Object(docs)
        },
    }
}

} // verus!
