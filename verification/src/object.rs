//! Objects on the wire: how the fields of a protocol object become the
//! members of a JSON object, and how they are found again.
//!
//! A required field is always written. An optional field that is absent is
//! left out altogether; it is never written as `null`. On the way back a key
//! that no field claims is passed over, a missing optional field reads as
//! absent, and so does one that is written as `null`. The extension slot is the
//! exception: whatever stands under its key is carried as it is.

use crate::error::{DecodeError, DecodeErrorView, ErrorKind, Step, StepView};
use crate::json::{lemma_members_view_push, member, members_view, Json, JsonView};
use crate::wire::{outcome, wrong_type, Wire};
use vstd::prelude::*;

verus! {

/// The members of a JSON object, as the map from its keys to their values.
pub struct Members {
    pub map: Map<Seq<char>, JsonView>,
}

impl Members {
    /// No members.
    pub open spec fn empty() -> Members {
        Members { map: Map::empty() }
    }

    /// These members and `value` under `key`.
    #[verifier::opaque]
    pub open spec fn with(self, key: Seq<char>, value: JsonView) -> Members {
        Members { map: self.map.insert(key, value) }
    }

    /// These members and, where `value` is present, `value` under `key`.
    #[verifier::opaque]
    pub open spec fn with_opt(self, key: Seq<char>, value: Option<JsonView>) -> Members {
        match value {
            Some(value) => Members { map: self.map.insert(key, value) },
            None => self,
        }
    }

    /// The object that has these members.
    pub open spec fn json(self) -> JsonView {
        JsonView::Object(self.map)
    }

    /// How a lookup goes through the steps by which an object was put together:
    /// a member is found under its own key, and adding a member leaves every
    /// other key as it was.
    pub proof fn lemma_lookup()
        ensures
            forall|key: Seq<char>| (#[trigger] raw_field(Members::empty().map, key)).is_none(),
            forall|members: Members, key: Seq<char>, value: JsonView|
                #[trigger] raw_field(members.with(key, value).map, key) == Some(value),
            forall|members: Members, key: Seq<char>, value: JsonView, other: Seq<char>|
                other != key ==> #[trigger] raw_field(members.with(key, value).map, other)
                    == raw_field(members.map, other),
            forall|members: Members, key: Seq<char>, value: Option<JsonView>|
                #[trigger] raw_field(members.with_opt(key, value).map, key) == if value is Some {
                    value
                } else {
                    raw_field(members.map, key)
                },
            forall|members: Members, key: Seq<char>, value: Option<JsonView>, other: Seq<char>|
                other != key ==> #[trigger] raw_field(members.with_opt(key, value).map, other)
                    == raw_field(members.map, other),
    {
        reveal(Members::with);
        reveal(Members::with_opt);
    }
}

/// A protocol object: a value that travels as a JSON object, with a member for
/// each field that it holds.
pub trait Record: Wire {
    /// Whether one of the fields travels under `key`.
    spec fn claims(key: Seq<char>) -> bool;

    /// Nothing is written but under the key of a field.
    proof fn lemma_writes_claimed_keys(value: Self::V)
        ensures
            Self::encode_spec(value) matches JsonView::Object(members) && forall|key: Seq<char>| #[trigger]
                members.contains_key(key) ==> Self::claims(key),
    ;

    /// A member under a key that no field claims is passed over: it makes no
    /// difference to what is decoded.
    proof fn lemma_unclaimed_key_is_passed_over(
        members: Map<Seq<char>, JsonView>,
        key: Seq<char>,
        value: JsonView,
    )
        requires
            !Self::claims(key),
        ensures
            Self::decode_spec(JsonView::Object(members.insert(key, value))) == Self::decode_spec(
                JsonView::Object(members),
            ),
    ;
}

/// The mathematical value of a value that may be absent.
#[verifier::opaque]
pub open spec fn opt_view<T: DeepView>(value: Option<T>) -> Option<T::V> {
    match value {
        Some(value) => Some(value.deep_view()),
        None => None,
    }
}

/// The mathematical value of what the decode of an optional field returned.
pub open spec fn opt_outcome<T: DeepView>(result: Result<Option<T>, DecodeError>) -> Result<
    Option<T::V>,
    DecodeErrorView,
> {
    match result {
        Ok(value) => Ok(opt_view(value)),
        Err(error) => Err(error.deep_view()),
    }
}

/// The wire form of a value that may be absent.
pub open spec fn encode_opt<T: Wire>(value: Option<T::V>) -> Option<JsonView> {
    match value {
        Some(value) => Some(T::encode_spec(value)),
        None => None,
    }
}

/// What a decode found, seen from the object that holds it under `key`.
pub open spec fn in_field<V>(result: Result<V, DecodeErrorView>, key: Seq<char>) -> Result<
    V,
    DecodeErrorView,
> {
    match result {
        Ok(value) => Ok(value),
        Err(error) => Err(error.within(StepView::Field(key))),
    }
}

/// The required field `key` of an object with the given members.
#[verifier::opaque]
pub open spec fn field<T: Wire>(members: Map<Seq<char>, JsonView>, key: Seq<char>) -> Result<
    T::V,
    DecodeErrorView,
> {
    if members.contains_key(key) {
        in_field(T::decode_spec(members[key]), key)
    } else {
        in_field(Err(DecodeErrorView::at_root(ErrorKind::MissingField)), key)
    }
}

/// The optional field `key` of an object with the given members.
#[verifier::opaque]
pub open spec fn opt_field<T: Wire>(members: Map<Seq<char>, JsonView>, key: Seq<char>) -> Result<
    Option<T::V>,
    DecodeErrorView,
> {
    if members.contains_key(key) && !(members[key] is Null) {
        match T::decode_spec(members[key]) {
            Ok(value) => Ok(Some(value)),
            Err(error) => Err(error.within(StepView::Field(key))),
        }
    } else {
        Ok(None)
    }
}

/// The extension slot `key` of an object with the given members.
pub open spec fn raw_field(members: Map<Seq<char>, JsonView>, key: Seq<char>) -> Option<JsonView> {
    if members.contains_key(key) {
        Some(members[key])
    } else {
        None
    }
}

/// The members of `doc`, which must be an object.
pub open spec fn members_of(doc: JsonView) -> Result<Map<Seq<char>, JsonView>, DecodeErrorView> {
    match doc {
        JsonView::Object(members) => Ok(members),
        _ => wrong_type(),
    }
}

/// What reading an optional field comes to: a key that is missing, or that
/// holds `null`, reads as an absent field and never as a zero of its type.
/// Anything else under the key is decoded, and a fault in it is located under
/// the key.
pub proof fn lemma_opt_field<T: Wire>(members: Map<Seq<char>, JsonView>, key: Seq<char>)
    ensures
        !members.contains_key(key) ==> opt_field::<T>(members, key) == Ok::<
            Option<T::V>,
            DecodeErrorView,
        >(None),
        members.contains_key(key) && members[key] is Null ==> opt_field::<T>(members, key) == Ok::<
            Option<T::V>,
            DecodeErrorView,
        >(None),
        members.contains_key(key) && !(members[key] is Null) ==> opt_field::<T>(members, key)
            == match T::decode_spec(members[key]) {
            Ok(value) => Ok::<Option<T::V>, DecodeErrorView>(Some(value)),
            Err(error) => Err(error.within(StepView::Field(key))),
        },
{
    reveal(opt_field);
}

/// What reading a required field comes to: a missing key is a fault, and what
/// stands under the key is decoded, `null` included.
pub proof fn lemma_field<T: Wire>(members: Map<Seq<char>, JsonView>, key: Seq<char>)
    ensures
        !members.contains_key(key) ==> field::<T>(members, key) == Err::<T::V, DecodeErrorView>(
            DecodeErrorView::at_root(ErrorKind::MissingField).within(StepView::Field(key)),
        ),
        members.contains_key(key) ==> field::<T>(members, key) == in_field(
            T::decode_spec(members[key]),
            key,
        ),
{
    reveal(field);
}

/// A member under another key makes no difference to what a field reads.
pub proof fn lemma_other_key<T: Wire>(
    members: Map<Seq<char>, JsonView>,
    key: Seq<char>,
    other: Seq<char>,
    value: JsonView,
)
    requires
        other != key,
    ensures
        field::<T>(members.insert(other, value), key) == field::<T>(members, key),
        opt_field::<T>(members.insert(other, value), key) == opt_field::<T>(members, key),
{
    reveal(field);
    reveal(opt_field);
}

/// A member under another key makes no difference to what the extension slot
/// reads.
pub proof fn lemma_other_key_raw(
    members: Map<Seq<char>, JsonView>,
    key: Seq<char>,
    other: Seq<char>,
    value: JsonView,
)
    requires
        other != key,
    ensures
        raw_field(members.insert(other, value), key) == raw_field(members, key),
{
}

/// The mathematical value of an absent value is absent, and that of a present
/// one is the value of what it holds.
pub proof fn lemma_opt_view<T: DeepView>(value: Option<T>)
    ensures
        opt_view(value) == value.deep_view(),
        value is None <==> opt_view(value) is None,
        value matches Some(inner) ==> opt_view(value) == Some(inner.deep_view()),
{
    reveal(opt_view);
}

/// A required field that was written is read back.
pub proof fn lemma_field_round_trip<T: Wire>(
    members: Map<Seq<char>, JsonView>,
    key: Seq<char>,
    value: T::V,
)
    requires
        raw_field(members, key) == Some(T::encode_spec(value)),
    ensures
        field::<T>(members, key) == Ok::<T::V, DecodeErrorView>(value),
{
    reveal(field);
    T::lemma_round_trip(value);
}

/// An optional field is read back as it was written: present with its value,
/// or absent.
pub proof fn lemma_opt_field_round_trip<T: Wire>(
    members: Map<Seq<char>, JsonView>,
    key: Seq<char>,
    value: Option<T::V>,
)
    requires
        raw_field(members, key) == encode_opt::<T>(value),
    ensures
        opt_field::<T>(members, key) == Ok::<Option<T::V>, DecodeErrorView>(value),
{
    reveal(opt_field);
    if let Some(v) = value {
        T::lemma_round_trip(v);
    }
}

/// Collects the members of an object that is being encoded.
pub struct ObjectWriter {
    members: Vec<(String, Json)>,
}

impl View for ObjectWriter {
    type V = Members;

    closed spec fn view(&self) -> Members {
        Members { map: members_view(self.members@) }
    }
}

impl ObjectWriter {
    /// A writer that holds no members yet.
    pub fn new() -> (writer: ObjectWriter)
        ensures
            writer@ == Members::empty(),
    {
        ObjectWriter { members: Vec::new() }
    }

    /// Writes a required field.
    pub fn field<T: Wire>(&mut self, key: &str, value: &T)
        ensures
            final(self)@ == old(self)@.with(key@, T::encode_spec(value.deep_view())),
    {
        let name = key.to_owned();
        let doc = value.encode();
        proof {
            reveal(Members::with);
            lemma_members_view_push(self.members@, name, doc);
        }
        self.members.push((name, doc));
    }

    /// Writes an optional field: nothing at all where it is absent.
    pub fn opt_field<T: Wire>(&mut self, key: &str, value: &Option<T>)
        ensures
            final(self)@ == old(self)@.with_opt(key@, encode_opt::<T>(opt_view(*value))),
    {
        proof {
            reveal(Members::with);
            reveal(Members::with_opt);
            reveal(opt_view);
        }
        match value {
            Some(value) => self.field(key, value),
            None => {},
        }
    }

    /// Writes the extension slot: the document as it is, or nothing where
    /// there is none.
    pub fn raw_field(&mut self, key: &str, value: &Option<Json>)
        ensures
            final(self)@ == old(self)@.with_opt(key@, opt_view(*value)),
    {
        proof {
            reveal(opt_view);
        }
        match value {
            Some(value) => {
                let name = key.to_owned();
                let doc = value.clone();
                proof {
                    reveal(Members::with_opt);
                    lemma_members_view_push(self.members@, name, doc);
                }
                self.members.push((name, doc));
            },
            None => {
                proof {
                    reveal(Members::with_opt);
                }
            },
        }
    }

    /// The object that holds what was written.
    pub fn finish(self) -> (doc: Json)
        ensures
            doc@ == self@.json(),
    {
        Json::Object(self.members)
    }
}

/// The members of `doc`, which must be an object.
pub fn read_members(doc: &Json) -> (result: Result<&Vec<(String, Json)>, DecodeError>)
    ensures
        match result {
            Ok(members) => members_of(doc@) == Ok::<Map<Seq<char>, JsonView>, DecodeErrorView>(
                members_view(members@),
            ),
            Err(error) => members_of(doc@) == Err::<Map<Seq<char>, JsonView>, DecodeErrorView>(
                error.deep_view(),
            ),
        },
{
    match doc {
        Json::Object(members) => Ok(members),
        _ => Err(DecodeError::at_root(ErrorKind::WrongType)),
    }
}

/// Reads a required field.
pub fn read_field<T: Wire>(members: &Vec<(String, Json)>, key: &'static str) -> (result: Result<
    T,
    DecodeError,
>)
    ensures
        outcome(result) == field::<T>(members_view(members@), key@),
{
    proof {
        reveal(field);
    }
    match member(members, key) {
        Some(doc) => match T::decode(doc) {
            Ok(value) => Ok(value),
            Err(error) => Err(error.within(Step::Field(key))),
        },
        None => Err(DecodeError::at_root(ErrorKind::MissingField).within(Step::Field(key))),
    }
}

/// Reads an optional field.
pub fn read_opt_field<T: Wire>(members: &Vec<(String, Json)>, key: &'static str) -> (result:
    Result<Option<T>, DecodeError>)
    ensures
        opt_outcome(result) == opt_field::<T>(members_view(members@), key@),
{
    proof {
        reveal(opt_field);
        reveal(opt_view);
    }
    match member(members, key) {
        Some(Json::Null) => Ok(None),
        Some(doc) => match T::decode(doc) {
            Ok(value) => Ok(Some(value)),
            Err(error) => Err(error.within(Step::Field(key))),
        },
        None => Ok(None),
    }
}

/// Reads the extension slot.
pub fn read_raw_field(members: &Vec<(String, Json)>, key: &str) -> (doc: Option<Json>)
    ensures
        opt_view(doc) == raw_field(members_view(members@), key@),
{
    proof {
        reveal(opt_view);
    }
    match member(members, key) {
        Some(doc) => Some(doc.clone()),
        None => None,
    }
}

} // verus!
