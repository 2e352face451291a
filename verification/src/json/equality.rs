//! Equality of documents: two documents are equal where they have the same
//! value, whatever the order of the members of their objects.

use crate::json::{
    items_view, lemma_items_view, lemma_key_has_member, lemma_member_key, members_view, position,
    Json, Number,
};
use vstd::prelude::*;
use vstd::std_specs::cmp::PartialEqSpecImpl;

verus! {

impl Number {
    /// Whether two numbers are the same number, written the same way.
    pub fn same_value(&self, other: &Number) -> (same: bool)
        ensures
            same == (self@ == other@),
    {
        match (self, other) {
            (Number::PosInt(a), Number::PosInt(b)) => *a == *b,
            (Number::NegInt(a), Number::NegInt(b)) => *a == *b,
            (Number::Decimal(a), Number::Decimal(b)) => *a == *b,
            _ => false,
        }
    }
}

impl PartialEq for Number {
    fn eq(&self, other: &Number) -> (same: bool) {
        self.same_value(other)
    }
}

impl PartialEqSpecImpl for Number {
    open spec fn obeys_eq_spec() -> bool {
        true
    }

    open spec fn eq_spec(&self, other: &Number) -> bool {
        self@ == other@
    }
}

impl Json {
    /// Whether two documents have the same value. The order of the members of
    /// an object makes no difference, and neither does a member that a later
    /// one with the same key overrides.
    pub fn same_value(&self, other: &Json) -> (same: bool)
        ensures
            same == (self@ == other@),
        decreases self,
    {
        match (self, other) {
            (Json::Null, Json::Null) => true,
            (Json::Bool(a), Json::Bool(b)) => *a == *b,
            (Json::Number(a), Json::Number(b)) => a.same_value(b),
            (Json::String(a), Json::String(b)) => *a == *b,
            (Json::Array(a), Json::Array(b)) => {
                proof {
                    lemma_items_view(a@);
                    lemma_items_view(b@);
                }
                if a.len() != b.len() {
                    return false;
                }
                let mut i: usize = 0;
                while i < a.len()
                    invariant
                        i <= a.len(),
                        a.len() == b.len(),
                        *self == Json::Array(*a),
                        *other == Json::Array(*b),
                        forall|k: int| 0 <= k < i ==> (#[trigger] a@[k])@ == b@[k]@,
                    decreases a.len() - i,
                {
                    assert(decreases_to!(self => self->Array_0@[i as int]));
                    if !a[i].same_value(&b[i]) {
                        proof {
                            lemma_items_view(a@);
                            lemma_items_view(b@);
                            assert(items_view(a@)[i as int] != items_view(b@)[i as int]);
                        }
                        return false;
                    }
                    i += 1;
                }
                proof {
                    assert(items_view(a@) =~= items_view(b@));
                }
                true
            },
            (Json::Object(a), Json::Object(b)) => {
                let mut i: usize = 0;
                while i < a.len()
                    invariant
                        i <= a.len(),
                        *self == Json::Object(*a),
                        *other == Json::Object(*b),
                        forall|k: int|
                            0 <= k < i ==> members_view(b@).contains_key((#[trigger] a@[k]).0@)
                                && members_view(a@)[a@[k].0@] == members_view(b@)[a@[k].0@],
                    decreases a.len() - i,
                {
                    proof {
                        lemma_member_key(a@, i as int);
                    }
                    let key = a[i].0.as_str();
                    match (position(a, key), position(b, key)) {
                        (Some(p), Some(q)) => {
                            assert(decreases_to!(self => self->Object_0@[p as int].1));
                            if !a[p].1.same_value(&b[q].1) {
                                return false;
                            }
                        },
                        _ => {
                            return false;
                        },
                    }
                    i += 1;
                }
                let mut j: usize = 0;
                while j < b.len()
                    invariant
                        j <= b.len(),
                        *self == Json::Object(*a),
                        *other == Json::Object(*b),
                        forall|k: int|
                            0 <= k < j ==> members_view(a@).contains_key((#[trigger] b@[k]).0@),
                    decreases b.len() - j,
                {
                    proof {
                        lemma_member_key(b@, j as int);
                    }
                    if position(a, b[j].0.as_str()).is_none() {
                        return false;
                    }
                    j += 1;
                }
                proof {
                    let ma = members_view(a@);
                    let mb = members_view(b@);
                    assert forall|key: Seq<char>| #[trigger]
                        ma.contains_key(key) implies mb.contains_key(key) && ma[key] == mb[key] by {
                        lemma_key_has_member(a@, key);
                        let k = choose|k: int| 0 <= k < a@.len() && (#[trigger] a@[k]).0@ == key;
                        assert(mb.contains_key(a@[k].0@));
                    }
                    assert forall|key: Seq<char>| #[trigger]
                        mb.contains_key(key) implies ma.contains_key(key) by {
                        lemma_key_has_member(b@, key);
                        let k = choose|k: int| 0 <= k < b@.len() && (#[trigger] b@[k]).0@ == key;
                        assert(ma.contains_key(b@[k].0@));
                    }
                    assert(ma.dom() =~= mb.dom());
                    assert(ma =~= mb);
                }
                true
            },
            _ => false,
        }
    }
}

impl PartialEq for Json {
    fn eq(&self, other: &Json) -> (same: bool) {
        self.same_value(other)
    }
}

impl PartialEqSpecImpl for Json {
    open spec fn obeys_eq_spec() -> bool {
        true
    }

    open spec fn eq_spec(&self, other: &Json) -> bool {
        self@ == other@
    }
}

} // verus!
