//! The protocol's closed vocabularies: sets of named constants, each with a
//! wire integer and a display name.

use crate::error::{DecodeError, DecodeErrorView, ErrorKind};
use crate::json::{Json, JsonView, Number, NumberView};
use crate::wire::{integer_of, read_integer, Wire};
use vstd::prelude::*;

pub mod content_category;
pub mod context;
pub mod creative;
pub mod media;
pub mod native;
pub mod outcome;

verus! {

/// A closed vocabulary: an enumeration whose members travel as integers.
///
/// The set is closed: an integer that is the code of no member does not
/// decode.
pub trait Vocabulary: DeepView<V = Self> + Copy {
    /// The wire integer of a member.
    spec fn code_spec(self) -> int;

    /// The member whose wire integer is `code`, if there is one.
    spec fn from_code_spec(code: i32) -> Option<Self>;

    /// The wire integer of this member.
    fn code(&self) -> (code: i32)
        ensures
            code == self.code_spec(),
    ;

    /// The member whose wire integer is `code`, if there is one.
    fn from_code(code: i32) -> (member: Option<Self>)
        ensures
            member == Self::from_code_spec(code),
    ;

    /// A member is its own mathematical value.
    proof fn lemma_deep_view(self)
        ensures
            self.deep_view() == self,
    ;

    /// Every member has a 32-bit code and is found again by it.
    proof fn lemma_code_round_trip(self)
        ensures
            i32::MIN <= self.code_spec() <= i32::MAX,
            Self::from_code_spec(self.code_spec() as i32) == Some(self),
    ;

    /// What is found by a code has that code.
    proof fn lemma_from_code_sound(code: i32)
        ensures
            Self::from_code_spec(code) matches Some(member) ==> member.code_spec() == code,
    ;
}

impl<E: Vocabulary> Wire for E {
    open spec fn encode_spec(value: E) -> JsonView {
        JsonView::Number(NumberView::of_int(value.code_spec()))
    }

    open spec fn decode_spec(doc: JsonView) -> Result<E, DecodeErrorView> {
        match integer_of(doc) {
            Ok(code) => if i32::MIN <= code <= i32::MAX {
                match E::from_code_spec(code as i32) {
                    Some(member) => Ok(member),
                    None => Err(DecodeErrorView::at_root(ErrorKind::UnknownValue)),
                }
            } else {
                Err(DecodeErrorView::at_root(ErrorKind::UnknownValue))
            },
            Err(error) => Err(error),
        }
    }

    fn encode(&self) -> (doc: Json) {
        proof {
            self.lemma_deep_view();
        }
        Json::Number(Number::from_i64(self.code() as i64))
    }

    fn decode(doc: &Json) -> (result: Result<E, DecodeError>) {
        match read_integer(doc) {
            Ok(code) => {
                if code < -0x8000_0000 || code > 0x7fff_ffff {
                    return Err(DecodeError::at_root(ErrorKind::UnknownValue));
                }
                match E::from_code(code as i32) {
                    Some(member) => {
                        proof {
                            member.lemma_deep_view();
                        }
                        Ok(member)
                    },
                    None => Err(DecodeError::at_root(ErrorKind::UnknownValue)),
                }
            },
            Err(error) => Err(error),
        }
    }

    proof fn lemma_round_trip(value: E) {
        value.lemma_code_round_trip();
    }
}

/// A closed vocabulary refuses every integer that is the code of none of its
/// members: the decode fails, and no member is put in its place.
pub proof fn lemma_unknown_code_is_refused<E: Vocabulary>(number: NumberView, code: int)
    requires
        number.as_int() == Some(code),
        forall|member: E| member.code_spec() != code,
    ensures
        E::decode_spec(JsonView::Number(number)) == Err::<E, DecodeErrorView>(
            DecodeErrorView::at_root(ErrorKind::UnknownValue),
        ),
{
    if i32::MIN <= code <= i32::MAX {
        E::lemma_from_code_sound(code as i32);
    }
}

/// The integer that is the code of a member decodes to that member.
pub proof fn lemma_code_is_read<E: Vocabulary>(number: NumberView, member: E)
    requires
        number.as_int() == Some(member.code_spec()),
    ensures
        E::decode_spec(JsonView::Number(number)) == Ok::<E, DecodeErrorView>(member),
{
    member.lemma_code_round_trip();
}

} // verus!
