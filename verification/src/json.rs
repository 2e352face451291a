//! A JSON document tree: the wire form that every protocol object is encoded to
//! and decoded from.

use crate::text::same_text;
use vstd::prelude::*;

pub mod equality;

verus! {

/// A JSON number.
///
/// Integers are held exactly. Any number written with a fraction or an exponent
/// is held as its decimal text, so that it travels through this library
/// unchanged.
#[derive(Debug)]
pub enum Number {
    /// A non-negative integer.
    PosInt(u64),
    /// A negative integer.
    NegInt(i64),
    /// A number with a fraction or an exponent, as its JSON text.
    Decimal(String),
}

/// The mathematical value of a [`Number`].
pub enum NumberView {
    PosInt(u64),
    NegInt(i64),
    Decimal(Seq<char>),
}

impl NumberView {
    /// The integer that this number denotes, if it is written as one.
    pub open spec fn as_int(self) -> Option<int> {
        match self {
            NumberView::PosInt(n) => Some(n as int),
            NumberView::NegInt(n) => Some(n as int),
            NumberView::Decimal(_) => None,
        }
    }

    /// The number that stands for the integer `n` on the wire.
    pub open spec fn of_int(n: int) -> NumberView
        recommends
            i64::MIN <= n <= u64::MAX,
    {
        if n >= 0 {
            NumberView::PosInt(n as u64)
        } else {
            NumberView::NegInt(n as i64)
        }
    }
}

impl View for Number {
    type V = NumberView;

    open spec fn view(&self) -> NumberView {
        match self {
            Number::PosInt(n) => NumberView::PosInt(*n),
            Number::NegInt(n) => NumberView::NegInt(*n),
            Number::Decimal(s) => NumberView::Decimal(s@),
        }
    }
}

impl DeepView for Number {
    type V = NumberView;

    open spec fn deep_view(&self) -> NumberView {
        self@
    }
}

/// A JSON document.
///
/// An object is held as its members in the order in which they were written.
/// Where a key occurs more than once, the last member with that key is the one
/// that counts.
#[derive(Debug)]
pub enum Json {
    Null,
    Bool(bool),
    Number(Number),
    String(String),
    Array(Vec<Json>),
    Object(Vec<(String, Json)>),
}

/// The mathematical value of a [`Json`] document: an object is a finite map
/// from keys to values.
pub enum JsonView {
    Null,
    Bool(bool),
    Number(NumberView),
    String(Seq<char>),
    Array(Seq<JsonView>),
    Object(Map<Seq<char>, JsonView>),
}

/// The values of a sequence of documents.
pub open spec fn items_view(items: Seq<Json>) -> Seq<JsonView>
    decreases items,
{
    if items.len() == 0 {
        Seq::empty()
    } else {
        items_view(items.drop_last()).push(items.last().view())
    }
}

/// The map that a sequence of object members denotes: later members override
/// earlier ones with the same key.
pub open spec fn members_view(members: Seq<(String, Json)>) -> Map<Seq<char>, JsonView>
    decreases members,
{
    if members.len() == 0 {
        Map::empty()
    } else {
        members_view(members.drop_last()).insert(members.last().0@, members.last().1.view())
    }
}

impl View for Json {
    type V = JsonView;

    open spec fn view(&self) -> JsonView
        decreases self,
    {
        match self {
            Json::Null => JsonView::Null,
            Json::Bool(b) => JsonView::Bool(*b),
            Json::Number(n) => JsonView::Number(n@),
            Json::String(s) => JsonView::String(s@),
            Json::Array(items) => JsonView::Array(items_view(items@)),
            Json::Object(members) => JsonView::Object(members_view(members@)),
        }
    }
}

impl DeepView for Json {
    type V = JsonView;

    open spec fn deep_view(&self) -> JsonView {
        self@
    }
}

impl Default for Number {
    /// Zero.
    fn default() -> (zero: Number)
        ensures
            zero@ == NumberView::PosInt(0),
    {
        Number::PosInt(0)
    }
}

/// The value of a sequence of documents holds the value of each, in order.
pub proof fn lemma_items_view(items: Seq<Json>)
    ensures
        items_view(items).len() == items.len(),
        forall|i: int| 0 <= i < items.len() ==> #[trigger] items_view(items)[i] == items[i]@,
    decreases items.len(),
{
    if items.len() > 0 {
        lemma_items_view(items.drop_last());
        assert(items_view(items) == items_view(items.drop_last()).push(items.last()@));
    }
}

/// Appending a document appends its value.
pub proof fn lemma_items_view_push(items: Seq<Json>, item: Json)
    ensures
        items_view(items.push(item)) == items_view(items).push(item@),
{
    assert(items.push(item).drop_last() =~= items);
}

/// Appending a member sets its key, whatever stood there before.
pub proof fn lemma_members_view_push(members: Seq<(String, Json)>, key: String, value: Json)
    ensures
        members_view(members.push((key, value))) == members_view(members).insert(key@, value@),
{
    assert(members.push((key, value)).drop_last() =~= members);
}

/// The last member with a given key decides what the object holds under it.
pub proof fn lemma_member_found(members: Seq<(String, Json)>, i: int, key: Seq<char>)
    requires
        0 <= i < members.len(),
        members[i].0@ == key,
        forall|k: int| i < k < members.len() ==> (#[trigger] members[k]).0@ != key,
    ensures
        members_view(members).contains_key(key),
        members_view(members)[key] == members[i].1@,
    decreases members.len(),
{
    let rest = members.drop_last();
    assert(members_view(members) == members_view(rest).insert(
        members.last().0@,
        members.last().1@,
    ));
    if i < members.len() - 1 {
        assert forall|k: int| i < k < rest.len() implies (#[trigger] rest[k]).0@ != key by {
            assert(rest[k] == members[k]);
        }
        lemma_member_found(rest, i, key);
    }
}

/// An object holds nothing under a key that none of its members has.
pub proof fn lemma_member_absent(members: Seq<(String, Json)>, key: Seq<char>)
    requires
        forall|k: int| 0 <= k < members.len() ==> (#[trigger] members[k]).0@ != key,
    ensures
        !members_view(members).contains_key(key),
    decreases members.len(),
{
    if members.len() > 0 {
        let rest = members.drop_last();
        assert(members_view(members) == members_view(rest).insert(
            members.last().0@,
            members.last().1@,
        ));
        assert forall|k: int| 0 <= k < rest.len() implies (#[trigger] rest[k]).0@ != key by {
            assert(rest[k] == members[k]);
        }
        lemma_member_absent(rest, key);
    }
}

impl Clone for Number {
    fn clone(&self) -> (copy: Number)
        ensures
            copy@ == self@,
    {
        match self {
            Number::PosInt(n) => Number::PosInt(*n),
            Number::NegInt(n) => Number::NegInt(*n),
            Number::Decimal(s) => Number::Decimal(s.clone()),
        }
    }
}

impl Number {
    /// The number that stands for `n` on the wire.
    pub fn from_i64(n: i64) -> (number: Number)
        ensures
            number@ == NumberView::of_int(n as int),
    {
        if n >= 0 {
            Number::PosInt(n as u64)
        } else {
            Number::NegInt(n)
        }
    }

    /// The integer that this number denotes, where it is written as one.
    pub fn as_integer(&self) -> (n: Option<i128>)
        ensures
            match n {
                Some(n) => self@.as_int() == Some(n as int),
                None => self@.as_int().is_none(),
            },
    {
        match self {
            Number::PosInt(n) => Some(*n as i128),
            Number::NegInt(n) => Some(*n as i128),
            Number::Decimal(_) => None,
        }
    }
}

impl Clone for Json {
    fn clone(&self) -> (copy: Json)
        ensures
            copy@ == self@,
        decreases self,
    {
        match self {
            Json::Null => Json::Null,
            Json::Bool(b) => Json::Bool(*b),
            Json::Number(n) => Json::Number(n.clone()),
            Json::String(s) => Json::String(s.clone()),
            Json::Array(items) => {
                let mut copies: Vec<Json> = Vec::new();
                let mut i: usize = 0;
                while i < items.len()
                    invariant
                        i <= items.len(),
                        *self == Json::Array(*items),
                        items_view(copies@) == items_view(items@.take(i as int)),
                    decreases items.len() - i,
                {
                    assert(decreases_to!(self => self->Array_0@[i as int]));
                    let item = items[i].clone();
                    proof {
                        lemma_items_view_push(copies@, item);
                        lemma_items_view_push(items@.take(i as int), items@[i as int]);
                        assert(items@.take(i as int).push(items@[i as int]) =~= items@.take(
                            i + 1 as int,
                        ));
                    }
                    copies.push(item);
                    i += 1;
                }
                assert(items@.take(items.len() as int) =~= items@);
                Json::Array(copies)
            },
            Json::Object(members) => {
                let mut copies: Vec<(String, Json)> = Vec::new();
                let mut i: usize = 0;
                while i < members.len()
                    invariant
                        i <= members.len(),
                        *self == Json::Object(*members),
                        members_view(copies@) == members_view(members@.take(i as int)),
                    decreases members.len() - i,
                {
                    let key = members[i].0.clone();
                    assert(decreases_to!(self => self->Object_0@[i as int].1));
                    let value = members[i].1.clone();
                    proof {
                        lemma_members_view_push(copies@, key, value);
                        lemma_members_view_push(
                            members@.take(i as int),
                            members@[i as int].0,
                            members@[i as int].1,
                        );
                        assert(members@.take(i as int).push(members@[i as int]) =~= members@.take(
                            i + 1 as int,
                        ));
                    }
                    copies.push((key, value));
                    i += 1;
                }
                assert(members@.take(members.len() as int) =~= members@);
                Json::Object(copies)
            },
        }
    }
}

/// The position of the member that counts for `key`: the last one with that
/// key, if there is one.
pub fn position(members: &Vec<(String, Json)>, key: &str) -> (found: Option<usize>)
    ensures
        match found {
            Some(i) => {
                &&& i < members@.len()
                &&& members@[i as int].0@ == key@
                &&& forall|k: int| i < k < members@.len() ==> (#[trigger] members@[k]).0@ != key@
                &&& members_view(members@).contains_key(key@)
                &&& members_view(members@)[key@] == members@[i as int].1@
            },
            None => {
                &&& forall|k: int| 0 <= k < members@.len() ==> (#[trigger] members@[k]).0@ != key@
                &&& !members_view(members@).contains_key(key@)
            },
        },
{
    let mut i: usize = members.len();
    while i > 0
        invariant
            i <= members.len(),
            forall|k: int| i <= k < members.len() ==> (#[trigger] members@[k]).0@ != key@,
        decreases i,
    {
        i -= 1;
        if same_text(members[i].0.as_str(), key) {
            proof {
                lemma_member_found(members@, i as int, key@);
            }
            return Some(i);
        }
    }
    proof {
        lemma_member_absent(members@, key@);
    }
    None
}

/// The value that an object's members hold under `key`, if any.
pub fn member<'a>(members: &'a Vec<(String, Json)>, key: &str) -> (found: Option<&'a Json>)
    ensures
        match found {
            Some(value) => members_view(members@).contains_key(key@) && members_view(
                members@,
            )[key@] == value@,
            None => !members_view(members@).contains_key(key@),
        },
{
    match position(members, key) {
        Some(i) => Some(&members[i].1),
        None => None,
    }
}

/// Whether no two of the members have the same key.
pub open spec fn distinct_keys(members: Seq<(String, Json)>) -> bool {
    forall|i: int, j: int|
        0 <= i < j < members.len() ==> (#[trigger] members[i]).0@ != (#[trigger] members[j]).0@
}

/// Whether no object in a document has two members with one key.
pub open spec fn unique_keys(doc: Json) -> bool
    decreases doc,
{
    match doc {
        Json::Array(items) => forall|i: int|
            0 <= i < items@.len() ==> unique_keys(#[trigger] items@[i]),
        Json::Object(members) => {
            &&& distinct_keys(members@)
            &&& forall|i: int| 0 <= i < members@.len() ==> unique_keys((#[trigger] members@[i]).1)
        },
        _ => true,
    }
}

/// An object has a member for each of its keys.
pub proof fn lemma_key_has_member(members: Seq<(String, Json)>, key: Seq<char>)
    requires
        members_view(members).contains_key(key),
    ensures
        exists|i: int| 0 <= i < members.len() && (#[trigger] members[i]).0@ == key,
    decreases members.len(),
{
    if members.len() > 0 {
        let rest = members.drop_last();
        assert(members_view(members) == members_view(rest).insert(
            members.last().0@,
            members.last().1@,
        ));
        if members.last().0@ == key {
            assert(members[members.len() - 1].0@ == key);
        } else {
            lemma_key_has_member(rest, key);
            let i = choose|i: int| 0 <= i < rest.len() && (#[trigger] rest[i]).0@ == key;
            assert(members[i] == rest[i]);
        }
    }
}

/// Where no key occurs twice, each member is what the object holds under its
/// key.
pub proof fn lemma_distinct_member(members: Seq<(String, Json)>, i: int)
    requires
        distinct_keys(members),
        0 <= i < members.len(),
    ensures
        members_view(members).contains_key(members[i].0@),
        members_view(members)[members[i].0@] == members[i].1@,
{
    lemma_member_found(members, i, members[i].0@);
}

/// Whether `one` is among the members.
pub open spec fn occurs(members: Seq<(String, Json)>, one: (String, Json)) -> bool {
    exists|i: int| 0 <= i < members.len() && #[trigger] members[i] == one
}

/// Where no key occurs twice, the order of the members makes no difference to
/// what the object holds.
pub proof fn lemma_members_in_any_order(a: Seq<(String, Json)>, b: Seq<(String, Json)>)
    requires
        distinct_keys(a),
        distinct_keys(b),
        forall|i: int| 0 <= i < a.len() ==> occurs(b, #[trigger] a[i]),
        forall|j: int| 0 <= j < b.len() ==> occurs(a, #[trigger] b[j]),
    ensures
        members_view(a) == members_view(b),
{
    let ma = members_view(a);
    let mb = members_view(b);
    assert forall|key: Seq<char>| #[trigger] ma.contains_key(key) implies mb.contains_key(key)
        && ma[key] == mb[key] by {
        lemma_key_has_member(a, key);
        let i = choose|i: int| 0 <= i < a.len() && (#[trigger] a[i]).0@ == key;
        assert(occurs(b, a[i]));
        let j = choose|j: int| 0 <= j < b.len() && #[trigger] b[j] == a[i];
        lemma_distinct_member(a, i);
        lemma_distinct_member(b, j);
    }
    assert forall|key: Seq<char>| #[trigger] mb.contains_key(key) implies ma.contains_key(key) by {
        lemma_key_has_member(b, key);
        let j = choose|j: int| 0 <= j < b.len() && (#[trigger] b[j]).0@ == key;
        assert(occurs(a, b[j]));
        let i = choose|i: int| 0 <= i < a.len() && #[trigger] a[i] == b[j];
        lemma_distinct_member(a, i);
    }
    assert(ma.dom() =~= mb.dom());
    assert(ma =~= mb);
}

/// A member in front of others counts only where none of them has its key.
pub proof fn lemma_members_view_prepend(first: (String, Json), rest: Seq<(String, Json)>)
    ensures
        members_view(seq![first] + rest) == if members_view(rest).contains_key(first.0@) {
            members_view(rest)
        } else {
            members_view(rest).insert(first.0@, first.1@)
        },
    decreases rest.len(),
{
    let all = seq![first] + rest;
    if rest.len() == 0 {
        assert(all.drop_last() =~= Seq::empty());
        assert(members_view(all) == members_view(all.drop_last()).insert(
            all.last().0@,
            all.last().1@,
        ));
    } else {
        let last = rest.last();
        assert(all.drop_last() =~= seq![first] + rest.drop_last());
        assert(all.last() == last);
        lemma_members_view_prepend(first, rest.drop_last());
        assert(members_view(all) == members_view(all.drop_last()).insert(last.0@, last.1@));
        assert(members_view(rest) == members_view(rest.drop_last()).insert(last.0@, last.1@));
        assert(members_view(all) =~= if members_view(rest).contains_key(first.0@) {
            members_view(rest)
        } else {
            members_view(rest).insert(first.0@, first.1@)
        });
    }
}

/// Every member has its key among the keys of the object.
pub proof fn lemma_member_key(members: Seq<(String, Json)>, i: int)
    requires
        0 <= i < members.len(),
    ensures
        members_view(members).contains_key(members[i].0@),
    decreases members.len(),
{
    assert(members_view(members) == members_view(members.drop_last()).insert(
        members.last().0@,
        members.last().1@,
    ));
    if i < members.len() - 1 {
        lemma_member_key(members.drop_last(), i);
    }
}

/// The same members, last one first.
fn turned_round(members: Vec<(String, Json)>) -> (turned: Vec<(String, Json)>)
    requires
        distinct_keys(members@),
    ensures
        turned@.len() == members@.len(),
        forall|k: int|
            0 <= k < turned@.len() ==> #[trigger] turned@[k] == members@[members@.len() - 1 - k],
        distinct_keys(turned@),
        members_view(turned@) == members_view(members@),
{
    let ghost backwards = members@;
    let mut members = members;
    let mut turned: Vec<(String, Json)> = Vec::new();
    while members.len() > 0
        invariant
            members@.len() + turned@.len() == backwards.len(),
            members@ == backwards.take(members@.len() as int),
            forall|k: int|
                0 <= k < turned@.len() ==> #[trigger] turned@[k] == backwards[backwards.len() - 1
                    - k],
        decreases members.len(),
    {
        let last = members.pop().unwrap();
        turned.push(last);
    }
    proof {
        let n = backwards.len() as int;
        assert(turned@.len() == n);
        assert forall|i: int| 0 <= i < backwards.len() implies occurs(
            turned@,
            #[trigger] backwards[i],
        ) by {
            assert(turned@[n - 1 - i] == backwards[i]);
        }
        assert forall|j: int| 0 <= j < turned@.len() implies occurs(
            backwards,
            #[trigger] turned@[j],
        ) by {
            assert(backwards[n - 1 - j] == turned@[j]);
        }
        assert forall|i: int, j: int| 0 <= i < j < n implies (#[trigger] turned@[i]).0@ != (
        #[trigger] turned@[j]).0@ by {
            assert(turned@[i] == backwards[n - 1 - i]);
            assert(turned@[j] == backwards[n - 1 - j]);
        }
        lemma_members_in_any_order(backwards, turned@);
    }
    turned
}

impl Json {
    /// The same document with every object cut down to the members that count:
    /// where a key occurs more than once, only the last member with it is kept.
    /// The members that are kept stay in their order.
    pub fn canonical(&self) -> (doc: Json)
        ensures
            doc@ == self@,
            unique_keys(doc),
        decreases self,
    {
        match self {
            Json::Null => Json::Null,
            Json::Bool(b) => Json::Bool(*b),
            Json::Number(n) => Json::Number(n.clone()),
            Json::String(s) => Json::String(s.clone()),
            Json::Array(items) => {
                let mut kept: Vec<Json> = Vec::new();
                let mut i: usize = 0;
                while i < items.len()
                    invariant
                        i <= items.len(),
                        *self == Json::Array(*items),
                        items_view(kept@) == items_view(items@.take(i as int)),
                        forall|k: int| 0 <= k < kept@.len() ==> unique_keys(#[trigger] kept@[k]),
                    decreases items.len() - i,
                {
                    assert(decreases_to!(self => self->Array_0@[i as int]));
                    let item = items[i].canonical();
                    proof {
                        lemma_items_view_push(kept@, item);
                        lemma_items_view_push(items@.take(i as int), items@[i as int]);
                        assert(items@.take(i as int).push(items@[i as int]) =~= items@.take(
                            i + 1 as int,
                        ));
                    }
                    kept.push(item);
                    i += 1;
                }
                assert(items@.take(items.len() as int) =~= items@);
                Json::Array(kept)
            },
            Json::Object(members) => {
                let mut kept: Vec<(String, Json)> = Vec::new();
                let mut i: usize = members.len();
                proof {
                    assert(members@.subrange(i as int, members.len() as int) =~= Seq::empty());
                }
                while i > 0
                    invariant
                        i <= members.len(),
                        *self == Json::Object(*members),
                        members_view(kept@) == members_view(
                            members@.subrange(i as int, members.len() as int),
                        ),
                        distinct_keys(kept@),
                        forall|k: int|
                            0 <= k < kept@.len() ==> unique_keys((#[trigger] kept@[k]).1),
                    decreases i,
                {
                    i -= 1;
                    let ghost rest = members@.subrange(i + 1, members.len() as int);
                    proof {
                        assert(members@.subrange(i as int, members.len() as int) =~= seq![
                            members@[i as int],
                        ] + rest);
                        lemma_members_view_prepend(members@[i as int], rest);
                    }
                    if member(&kept, members[i].0.as_str()).is_none() {
                        assert(decreases_to!(self => self->Object_0@[i as int].1));
                        let key = members[i].0.clone();
                        let value = members[i].1.canonical();
                        proof {
                            lemma_members_view_push(kept@, key, value);
                            assert forall|a: int| 0 <= a < kept@.len() implies (
                            #[trigger] kept@[a]).0@ != key@ by {
                                lemma_member_key(kept@, a);
                            }
                        }
                        kept.push((key, value));
                    }
                }
                assert(members@.subrange(0, members.len() as int) =~= members@);
                // What was kept stands last member first: turn it round.
                let ordered = turned_round(kept);
                Json::Object(ordered)
            },
        }
    }
}

} // verus!
