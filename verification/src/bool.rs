//! The protocol's boolean, which travels as an integer.

use crate::error::{DecodeError, DecodeErrorView, ErrorKind};
use crate::json::{Json, JsonView, Number, NumberView};
use crate::wire::{integer_of, read_integer, Wire};
use vstd::prelude::*;

verus! {

/// A yes-or-no flag whose wire form is an integer: `0` for no, `1` for yes.
///
/// Senders are loose about it, so every integer but `0` reads as yes. The type
/// is kept apart from `bool` so that a field can tell "no" from "not said": an
/// absent flag is `None`, never `False`.
#[derive(Clone, Copy, Debug, PartialEq, Eq, Structural)]
pub enum Bool {
    True,
    False,
}

impl Bool {
    /// The flag that the wire integer `n` stands for.
    pub open spec fn of_int(n: int) -> Bool {
        if n == 0 {
            Bool::False
        } else {
            Bool::True
        }
    }

    /// The wire integer of this flag.
    pub open spec fn wire_int(self) -> int {
        match self {
            Bool::True => 1,
            Bool::False => 0,
        }
    }

    /// Reads a flag from its wire integer: `0` is no, anything else is yes.
    pub fn from_wire(n: i128) -> (flag: Bool)
        ensures
            flag == Bool::of_int(n as int),
            n == 0 ==> flag == Bool::False,
            n != 0 ==> flag == Bool::True,
    {
        if n == 0 {
            Bool::False
        } else {
            Bool::True
        }
    }

    /// The wire integer of this flag: `1` for yes, `0` for no.
    pub fn to_wire(&self) -> (n: u8)
        ensures
            n == self.wire_int(),
            *self == Bool::True ==> n == 1,
            *self == Bool::False ==> n == 0,
    {
        match self {
            Bool::True => 1,
            Bool::False => 0,
        }
    }

    /// The flag as a `bool`.
    pub fn is_true(&self) -> (yes: bool)
        ensures
            yes == (*self == Bool::True),
    {
        match self {
            Bool::True => true,
            Bool::False => false,
        }
    }

    /// Reading back the wire integer of a flag gives the flag.
    pub proof fn lemma_wire_round_trip(self)
        ensures
            Bool::of_int(self.wire_int()) == self,
    {
    }
}

/// The decode never fails on an integer: `0` reads as no, and every other
/// integer, of whatever size or sign, reads as yes.
pub proof fn lemma_every_integer_is_read(number: NumberView, n: int)
    requires
        number.as_int() == Some(n),
    ensures
        Bool::decode_spec(JsonView::Number(number)) == Ok::<Bool, DecodeErrorView>(Bool::of_int(n)),
        n == 0 ==> Bool::decode_spec(JsonView::Number(number)) == Ok::<Bool, DecodeErrorView>(
            Bool::False,
        ),
        n != 0 ==> Bool::decode_spec(JsonView::Number(number)) == Ok::<Bool, DecodeErrorView>(
            Bool::True,
        ),
{
}

/// A flag is written as `0` or `1`.
pub proof fn lemma_written_as_zero_or_one(flag: Bool)
    ensures
        Bool::encode_spec(flag) == JsonView::Number(
            NumberView::PosInt(
                if flag == Bool::True {
                    1
                } else {
                    0
                },
            ),
        ),
{
}

impl DeepView for Bool {
    type V = Bool;

    open spec fn deep_view(&self) -> Bool {
        *self
    }
}

impl Wire for Bool {
    open spec fn encode_spec(value: Bool) -> JsonView {
        JsonView::Number(NumberView::of_int(value.wire_int()))
    }

    open spec fn decode_spec(doc: JsonView) -> Result<Bool, DecodeErrorView> {
        match integer_of(doc) {
            Ok(n) => Ok(Bool::of_int(n)),
            Err(error) => Err(error),
        }
    }

    fn encode(&self) -> (doc: Json) {
        Json::Number(Number::PosInt(self.to_wire() as u64))
    }

    fn decode(doc: &Json) -> (result: Result<Bool, DecodeError>) {
        match read_integer(doc) {
            Ok(n) => Ok(Bool::from_wire(n)),
            Err(error) => Err(error),
        }
    }

    proof fn lemma_round_trip(value: Bool) {
    }
}

} // verus!
