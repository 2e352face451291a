//! From a document of this library to a `serde_json::Value`.

use crate::document::value::{
    array_value, bool_value, decimal_value, distinct_pairs, i64_value, null_value, number_read,
    object_value, owned_pairs, pairs_view, shallower, shallower_members, string_value, u64_value,
    value_height, value_view, values_view,
};
use crate::json::{
    distinct_keys, items_view, lemma_distinct_member, lemma_items_view, lemma_key_has_member,
    lemma_member_key, members_view, unique_keys, Json, JsonView, Number, NumberView,
};
use serde_json::Value;
use vstd::prelude::*;

verus! {

/// A number as `serde_json` holds it: an integer that is not negative as a
/// `PosInt`, a negative one as a `NegInt`, and a decimal as what the `from_str`
/// of `serde_json::Number` reads in its text, if that is a JSON number.
pub open spec fn held_number(number: NumberView) -> Option<NumberView> {
    match number {
        NumberView::PosInt(n) => Some(NumberView::PosInt(n)),
        NumberView::NegInt(n) => Some(NumberView::of_int(n as int)),
        NumberView::Decimal(text) => number_read(text),
    }
}

/// A document as `serde_json` holds it, or nothing where one of its decimals
/// is not a JSON number.
pub open spec fn held(doc: Json) -> Option<JsonView>
    decreases doc,
{
    match doc {
        Json::Null => Some(JsonView::Null),
        Json::Bool(b) => Some(JsonView::Bool(b)),
        Json::Number(number) => match held_number(number@) {
            Some(number) => Some(JsonView::Number(number)),
            None => None,
        },
        Json::String(text) => Some(JsonView::String(text@)),
        Json::Array(items) => match held_items(items@) {
            Some(items) => Some(JsonView::Array(items)),
            None => None,
        },
        Json::Object(members) => match held_members(members@) {
            Some(members) => Some(JsonView::Object(members)),
            None => None,
        },
    }
}

/// The documents of a sequence as `serde_json` holds them, or nothing where it
/// cannot hold one of them.
pub open spec fn held_items(items: Seq<Json>) -> Option<Seq<JsonView>>
    decreases items,
{
    if items.len() == 0 {
        Some(Seq::empty())
    } else {
        match (held_items(items.drop_last()), held(items.last())) {
            (Some(before), Some(last)) => Some(before.push(last)),
            _ => None,
        }
    }
}

/// The members of an object as `serde_json` holds them, or nothing where it
/// cannot hold one of them.
pub open spec fn held_members(members: Seq<(String, Json)>) -> Option<Map<Seq<char>, JsonView>>
    decreases members,
{
    if members.len() == 0 {
        Some(Map::empty())
    } else {
        match (held_members(members.drop_last()), held(members.last().1)) {
            (Some(before), Some(last)) => Some(before.insert(members.last().0@, last)),
            _ => None,
        }
    }
}

/// What `serde_json` cannot hold in part, it cannot hold in whole.
pub proof fn lemma_held_items_prefix(items: Seq<Json>, n: int)
    requires
        0 <= n <= items.len(),
        held_items(items.take(n)).is_none(),
    ensures
        held_items(items).is_none(),
    decreases items.len(),
{
    if n < items.len() {
        assert(items.drop_last().take(n) =~= items.take(n));
        lemma_held_items_prefix(items.drop_last(), n);
    } else {
        assert(items.take(n) =~= items);
    }
}

/// What `serde_json` cannot hold in part, it cannot hold in whole.
pub proof fn lemma_held_members_prefix(members: Seq<(String, Json)>, n: int)
    requires
        0 <= n <= members.len(),
        held_members(members.take(n)).is_none(),
    ensures
        held_members(members).is_none(),
    decreases members.len(),
{
    if n < members.len() {
        assert(members.drop_last().take(n) =~= members.take(n));
        lemma_held_members_prefix(members.drop_last(), n);
    } else {
        assert(members.take(n) =~= members);
    }
}

/// Whether a document is nested no more than `depth` levels deep: an array or
/// an object is one level deeper than what it holds.
pub open spec fn within(doc: Json, depth: nat) -> bool
    decreases doc,
{
    match doc {
        Json::Array(items) => depth > 0 && forall|i: int|
            0 <= i < items@.len() ==> within(#[trigger] items@[i], (depth - 1) as nat),
        Json::Object(members) => depth > 0 && forall|i: int|
            0 <= i < members@.len() ==> within((#[trigger] members@[i]).1, (depth - 1) as nat),
        _ => true,
    }
}

/// Each member of one object has its like in another object with the same
/// value, where no key occurs twice: a member with the same key that is nested
/// as deeply.
proof fn lemma_member_is_as_deep(a: Json, others: Seq<(String, Json)>, i: int, depth: nat)
    requires
        a is Object,
        unique_keys(a),
        distinct_keys(others),
        forall|j: int| 0 <= j < others.len() ==> unique_keys((#[trigger] others[j]).1),
        members_view(a->Object_0@) == members_view(others),
        0 <= i < a->Object_0@.len(),
    ensures
        exists|j: int|
            0 <= j < others.len() && (#[trigger] others[j]).0@ == a->Object_0@[i].0@ && within(
                others[j].1,
                depth,
            ) == within(a->Object_0@[i].1, depth),
    decreases a, 0int,
{
    let members = a->Object_0@;
    let key = members[i].0@;
    lemma_member_key(members, i);
    lemma_key_has_member(others, key);
    let j = choose|j: int| 0 <= j < others.len() && (#[trigger] others[j]).0@ == key;
    lemma_distinct_member(members, i);
    lemma_distinct_member(others, j);
    assert(unique_keys(members[i].1));
    assert(unique_keys(others[j].1));
    lemma_within_by_value(members[i].1, others[j].1, depth);
}

/// How deeply a document is nested depends on the value of the document alone,
/// where no key occurs twice.
pub proof fn lemma_within_by_value(a: Json, b: Json, depth: nat)
    requires
        a@ == b@,
        unique_keys(a),
        unique_keys(b),
    ensures
        within(a, depth) == within(b, depth),
    decreases a, 1int,
{
    match a {
        Json::Array(items) => {
            let others = b->Array_0@;
            lemma_items_view(items@);
            lemma_items_view(others);
            if depth > 0 {
                let below = (depth - 1) as nat;
                assert forall|i: int| 0 <= i < items@.len() implies within(
                    #[trigger] items@[i],
                    below,
                ) == within(others[i], below) by {
                    assert(items_view(others)[i] == items_view(items@)[i]);
                    assert(unique_keys(items@[i]));
                    assert(unique_keys(others[i]));
                    lemma_within_by_value(items@[i], others[i], below);
                }
                if within(a, depth) {
                    assert forall|i: int| 0 <= i < others.len() implies within(
                        #[trigger] others[i],
                        below,
                    ) by {
                        assert(within(items@[i], below));
                    }
                }
                if within(b, depth) {
                    assert forall|i: int| 0 <= i < items@.len() implies within(
                        #[trigger] items@[i],
                        below,
                    ) by {
                        assert(within(others[i], below));
                    }
                }
            }
        },
        Json::Object(members) => {
            let others = b->Object_0@;
            if depth > 0 {
                let below = (depth - 1) as nat;
                if within(a, depth) {
                    assert forall|j: int| 0 <= j < others.len() implies within(
                        (#[trigger] others[j]).1,
                        below,
                    ) by {
                        let key = others[j].0@;
                        lemma_member_key(others, j);
                        lemma_key_has_member(members@, key);
                        let i = choose|i: int|
                            0 <= i < members@.len() && (#[trigger] members@[i]).0@ == key;
                        lemma_member_is_as_deep(a, others, i, below);
                        let k = choose|k: int|
                            0 <= k < others.len() && (#[trigger] others[k]).0@ == members@[i].0@
                                && within(others[k].1, below) == within(members@[i].1, below);
                        assert(k == j);
                        assert(within(members@[i].1, below));
                    }
                }
                if within(b, depth) {
                    assert forall|i: int| 0 <= i < members@.len() implies within(
                        (#[trigger] members@[i]).1,
                        below,
                    ) by {
                        lemma_member_is_as_deep(a, others, i, below);
                        let j = choose|j: int|
                            0 <= j < others.len() && (#[trigger] others[j]).0@ == members@[i].0@
                                && within(others[j].1, below) == within(members@[i].1, below);
                        assert(within(others[j].1, below));
                    }
                }
            }
        },
        _ => {},
    }
}

/// The number of items or members that a document holds directly.
pub open spec fn width(doc: Json) -> nat {
    match doc {
        Json::Array(items) => items@.len(),
        Json::Object(members) => members@.len(),
        _ => 0,
    }
}

/// What `serde_json` holds of the first `n` items of two arrays is the same
/// where the items have the same values.
proof fn lemma_held_items_by_value(a: Json, others: Seq<Json>, n: int)
    requires
        a is Array,
        unique_keys(a),
        0 <= n <= a->Array_0@.len(),
        others.len() == a->Array_0@.len(),
        forall|i: int|
            0 <= i < others.len() ==> unique_keys(#[trigger] others[i]) && others[i]@
                == a->Array_0@[i]@,
    ensures
        held_items(a->Array_0@.take(n)) == held_items(others.take(n)),
    decreases a, n,
{
    let items = a->Array_0@;
    if n > 0 {
        assert(items.take(n).drop_last() =~= items.take(n - 1));
        assert(others.take(n).drop_last() =~= others.take(n - 1));
        assert(items.take(n).last() == items[n - 1]);
        assert(others.take(n).last() == others[n - 1]);
        lemma_held_items_by_value(a, others, n - 1);
        assert(unique_keys(others[n - 1]));
        lemma_held_by_value(items[n - 1], others[n - 1]);
    } else {
        assert(items.take(n) =~= others.take(n));
    }
}

/// What `serde_json` holds of members with distinct keys: nothing where it
/// cannot hold one of their values, and else under each of their keys what it
/// holds of the value.
proof fn lemma_held_members(members: Seq<(String, Json)>)
    requires
        distinct_keys(members),
    ensures
        held_members(members) is None <==> exists|i: int|
            0 <= i < members.len() && held((#[trigger] members[i]).1) is None,
        held_members(members) matches Some(map) ==> {
            &&& forall|key: Seq<char>| #[trigger]
                map.contains_key(key) <==> members_view(members).contains_key(key)
            &&& forall|i: int|
                0 <= i < members.len() ==> map[(#[trigger] members[i]).0@] == held(members[i].1)->0
        },
    decreases members.len(),
{
    if members.len() > 0 {
        let rest = members.drop_last();
        let last = members.last();
        assert(members[members.len() - 1] == last);
        assert forall|i: int, j: int| 0 <= i < j < rest.len() implies (#[trigger] rest[i]).0@ != (
        #[trigger] rest[j]).0@ by {
            assert(rest[i] == members[i]);
            assert(rest[j] == members[j]);
        }
        lemma_held_members(rest);
        assert(members_view(members) == members_view(rest).insert(last.0@, last.1@));
        assert forall|i: int| 0 <= i < rest.len() implies (#[trigger] rest[i]) == members[i] by {}
        if held_members(members) is None {
            if held_members(rest) is None {
                let i = choose|i: int| 0 <= i < rest.len() && held((#[trigger] rest[i]).1) is None;
                assert(held(members[i].1) is None);
            }
        } else {
            let map = held_members(members)->0;
            let before = held_members(rest)->0;
            assert(map == before.insert(last.0@, held(last.1)->0));
            assert forall|i: int| 0 <= i < members.len() implies held(
                (#[trigger] members[i]).1,
            ) is Some by {
                if i < rest.len() {
                    assert(rest[i] == members[i]);
                }
            }
            assert forall|i: int| 0 <= i < members.len() implies map[(#[trigger] members[i]).0@]
                == held(members[i].1)->0 by {
                if i < rest.len() {
                    assert(rest[i] == members[i]);
                    assert(members[i].0@ != last.0@);
                }
            }
        }
    }
}

/// Each member of one object has its like in another object with the same
/// value, where no key occurs twice: a member with the same key, of whose value
/// `serde_json` holds the same.
proof fn lemma_member_has_its_like(a: Json, others: Seq<(String, Json)>, i: int)
    requires
        a is Object,
        unique_keys(a),
        distinct_keys(others),
        forall|j: int| 0 <= j < others.len() ==> unique_keys((#[trigger] others[j]).1),
        members_view(a->Object_0@) == members_view(others),
        0 <= i < a->Object_0@.len(),
    ensures
        exists|j: int|
            0 <= j < others.len() && (#[trigger] others[j]).0@ == a->Object_0@[i].0@ && held(
                others[j].1,
            ) == held(a->Object_0@[i].1),
    decreases a, 0int,
{
    let members = a->Object_0@;
    let key = members[i].0@;
    lemma_member_key(members, i);
    lemma_key_has_member(others, key);
    let j = choose|j: int| 0 <= j < others.len() && (#[trigger] others[j]).0@ == key;
    lemma_distinct_member(members, i);
    lemma_distinct_member(others, j);
    assert(unique_keys(members[i].1));
    assert(unique_keys(others[j].1));
    lemma_held_by_value(members[i].1, others[j].1);
}

/// What `serde_json` holds of a document depends on the value of the document
/// alone, where no key occurs twice: the order of the members of an object
/// makes no difference.
pub proof fn lemma_held_by_value(a: Json, b: Json)
    requires
        a@ == b@,
        unique_keys(a),
        unique_keys(b),
    ensures
        held(a) == held(b),
    decreases a, width(a) + 1,
{
    match a {
        Json::Array(items) => {
            let others = b->Array_0@;
            lemma_items_view(items@);
            lemma_items_view(others);
            assert forall|i: int| 0 <= i < others.len() implies unique_keys(#[trigger] others[i])
                && others[i]@ == items@[i]@ by {
                assert(items_view(others)[i] == items_view(items@)[i]);
            }
            lemma_held_items_by_value(a, others, items@.len() as int);
            assert(items@.take(items@.len() as int) =~= items@);
            assert(others.take(items@.len() as int) =~= others);
        },
        Json::Object(members) => {
            let others = b->Object_0@;
            lemma_held_members(members@);
            lemma_held_members(others);
            assert forall|i: int| 0 <= i < members@.len() implies exists|j: int|
                0 <= j < others.len() && (#[trigger] others[j]).0@ == members@[i].0@ && held(
                    others[j].1,
                ) == held((#[trigger] members@[i]).1) by {
                lemma_member_has_its_like(a, others, i);
            }
            assert forall|j: int| 0 <= j < others.len() implies exists|i: int|
                0 <= i < members@.len() && (#[trigger] members@[i]).0@ == others[j].0@ && held(
                    members@[i].1,
                ) == held((#[trigger] others[j]).1) by {
                let key = others[j].0@;
                lemma_member_key(others, j);
                lemma_key_has_member(members@, key);
                let i = choose|i: int| 0 <= i < members@.len() && (#[trigger] members@[i]).0@ == key;
                lemma_member_has_its_like(a, others, i);
                let k = choose|k: int|
                    0 <= k < others.len() && (#[trigger] others[k]).0@ == members@[i].0@ && held(
                        others[k].1,
                    ) == held(members@[i].1);
                assert(k == j);
            }
            if held_members(members@) is Some && held_members(others) is Some {
                let one = held_members(members@)->0;
                let other = held_members(others)->0;
                assert forall|key: Seq<char>| #[trigger] one.contains_key(key) implies one[key]
                    == other[key] by {
                    lemma_key_has_member(members@, key);
                    let i = choose|i: int|
                        0 <= i < members@.len() && (#[trigger] members@[i]).0@ == key;
                    let j = choose|j: int|
                        0 <= j < others.len() && (#[trigger] others[j]).0@ == members@[i].0@
                            && held(others[j].1) == held(members@[i].1);
                    assert(one[members@[i].0@] == held(members@[i].1)->0);
                    assert(other[others[j].0@] == held(others[j].1)->0);
                }
                assert(one.dom() =~= other.dom());
                assert(one =~= other);
            }
        },
        _ => {},
    }
}

/// The `serde_json::Value` that holds a number.
fn number_value(number: &Number) -> (value: Option<Value>)
    ensures
        match value {
            Some(value) => held_number(number@) matches Some(held) && value_view(value)
                == JsonView::Number(held) && value_height(value) == 0,
            None => held_number(number@).is_none(),
        },
{
    match number {
        Number::PosInt(n) => Some(u64_value(*n)),
        Number::NegInt(n) => Some(i64_value(*n)),
        Number::Decimal(text) => decimal_value(text.as_str()),
    }
}

/// The `serde_json::Value` that holds a document in which no key occurs twice.
///
/// There is none where one of the decimals of the document is not a JSON
/// number, and none is made of a document that is nested more than `depth`
/// levels deep.
pub(crate) fn value_of(doc: &Json, depth: usize) -> (value: Option<Value>)
    requires
        unique_keys(*doc),
    ensures
        value matches Some(value) ==> held(*doc) == Some(value_view(value)) && value_height(value)
            <= depth,
        value is Some <==> held(*doc) is Some && within(*doc, depth as nat),
    decreases doc,
{
    if depth == 0 {
        return match doc {
            Json::Null => Some(null_value()),
            Json::Bool(b) => Some(bool_value(*b)),
            Json::Number(number) => number_value(number),
            Json::String(text) => Some(string_value(text.clone())),
            _ => None,
        };
    }
    match doc {
        Json::Null => Some(null_value()),
        Json::Bool(b) => Some(bool_value(*b)),
        Json::Number(number) => number_value(number),
        Json::String(text) => Some(string_value(text.clone())),
        Json::Array(items) => {
            let mut values: Vec<Value> = Vec::new();
            let mut i: usize = 0;
            proof {
                assert(items@.take(0) =~= Seq::empty());
                assert(values_view(values@) =~= Seq::empty());
            }
            while i < items.len()
                invariant
                    i <= items.len(),
                    *doc == Json::Array(*items),
                    unique_keys(*doc),
                    depth > 0,
                    held_items(items@.take(i as int)) == Some(values_view(values@)),
                    shallower(values@, depth as nat),
                    forall|k: int| 0 <= k < i ==> within(#[trigger] items@[k], (depth - 1) as nat),
                decreases items.len() - i,
            {
                assert(decreases_to!(doc => doc->Array_0@[i as int]));
                let ghost upto = items@.take(i + 1);
                proof {
                    assert(upto.drop_last() =~= items@.take(i as int));
                    assert(upto.last() == items@[i as int]);
                }
                let item = value_of(&items[i], depth - 1);
                proof {
                    if held(items@[i as int]) is None {
                        assert(held_items(upto).is_none());
                        lemma_held_items_prefix(items@, i + 1);
                    }
                }
                match item {
                    Some(value) => {
                        proof {
                            assert(values_view(values@.push(value)) =~= values_view(values@).push(
                                value_view(value),
                            ));
                        }
                        values.push(value);
                    },
                    None => {
                        return None;
                    },
                }
                i += 1;
            }
            proof {
                assert(items@.take(items.len() as int) =~= items@);
            }
            Some(array_value(values))
        },
        Json::Object(members) => {
            let mut values: Vec<(String, Value)> = Vec::new();
            let mut i: usize = 0;
            proof {
                assert(members@.take(0) =~= Seq::empty());
                assert(owned_pairs(values@) =~= Seq::empty());
            }
            while i < members.len()
                invariant
                    i <= members.len(),
                    *doc == Json::Object(*members),
                    unique_keys(*doc),
                    depth > 0,
                    values@.len() == i,
                    forall|k: int| 0 <= k < i ==> (#[trigger] values@[k]).0@ == members@[k].0@,
                    shallower_members(values@, depth as nat),
                    forall|k: int|
                        0 <= k < i ==> within((#[trigger] members@[k]).1, (depth - 1) as nat),
                    held_members(members@.take(i as int)) == Some(
                        pairs_view(owned_pairs(values@)),
                    ),
                decreases members.len() - i,
            {
                assert(decreases_to!(doc => doc->Object_0@[i as int].1));
                let ghost upto = members@.take(i + 1);
                proof {
                    assert(upto.drop_last() =~= members@.take(i as int));
                    assert(upto.last() == members@[i as int]);
                }
                let item = value_of(&members[i].1, depth - 1);
                proof {
                    if held(members@[i as int].1) is None {
                        assert(held_members(upto).is_none());
                        lemma_held_members_prefix(members@, i + 1);
                    }
                }
                match item {
                    Some(value) => {
                        let key = members[i].0.clone();
                        proof {
                            let pairs = owned_pairs(values@.push((key, value)));
                            assert(pairs.drop_last() =~= owned_pairs(values@));
                            assert(pairs.last() == (key@, value_view(value)));
                        }
                        values.push((key, value));
                    },
                    None => {
                        return None;
                    },
                }
                i += 1;
            }
            proof {
                assert(members@.take(members.len() as int) =~= members@);
                assert(distinct_keys(members@));
            }
            Some(object_value(values))
        },
    }
}

} // verus!
