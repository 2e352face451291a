//! The wire codec: how a value is written as a JSON document and read back.
//!
//! Every protocol type implements [`Wire`]. Its two specification functions say
//! what `encode` produces and what `decode` accepts, and its law says that
//! decoding undoes encoding.

use crate::error::{DecodeError, DecodeErrorView, ErrorKind, Step, StepView};
use crate::json::{
    lemma_items_view, lemma_items_view_push, items_view, Json, JsonView, Number, NumberView,
};
use vstd::prelude::*;

verus! {

/// A type with a JSON wire form.
pub trait Wire: DeepView + Sized {
    /// The document that stands for `value` on the wire.
    spec fn encode_spec(value: Self::V) -> JsonView;

    /// The value that `doc` stands for, or the first fault found in it.
    spec fn decode_spec(doc: JsonView) -> Result<Self::V, DecodeErrorView>;

    /// Writes `self` as a document.
    fn encode(&self) -> (doc: Json)
        ensures
            doc@ == Self::encode_spec(self.deep_view()),
    ;

    /// Reads a value from `doc`.
    fn decode(doc: &Json) -> (result: Result<Self, DecodeError>)
        ensures
            outcome(result) == Self::decode_spec(doc@),
    ;

    /// Decoding what was encoded gives the value back. No value is written as
    /// `null`, which on the wire is read as an absent field.
    proof fn lemma_round_trip(value: Self::V)
        ensures
            Self::decode_spec(Self::encode_spec(value)) == Ok::<Self::V, DecodeErrorView>(value),
            !(Self::encode_spec(value) is Null),
    ;
}

/// The mathematical value of what a decode returned.
pub open spec fn outcome<T: DeepView>(result: Result<T, DecodeError>) -> Result<
    T::V,
    DecodeErrorView,
> {
    match result {
        Ok(value) => Ok(value.deep_view()),
        Err(error) => Err(error.deep_view()),
    }
}

/// Encodes a value and decodes the document again. The decode succeeds, and
/// what comes back has the value that went in.
pub fn through_the_wire<T: Wire>(value: &T) -> (result: Result<T, DecodeError>)
    ensures
        result matches Ok(copy) && copy.deep_view() == value.deep_view(),
{
    let doc = value.encode();
    proof {
        T::lemma_round_trip(value.deep_view());
    }
    T::decode(&doc)
}

/// The fault of a document that has another JSON type than the one called for.
pub open spec fn wrong_type<V>() -> Result<V, DecodeErrorView> {
    Err(DecodeErrorView::at_root(ErrorKind::WrongType))
}

impl Wire for String {
    open spec fn encode_spec(value: Seq<char>) -> JsonView {
        JsonView::String(value)
    }

    open spec fn decode_spec(doc: JsonView) -> Result<Seq<char>, DecodeErrorView> {
        match doc {
            JsonView::String(text) => Ok(text),
            _ => wrong_type(),
        }
    }

    fn encode(&self) -> (doc: Json) {
        Json::String(self.clone())
    }

    fn decode(doc: &Json) -> (result: Result<String, DecodeError>) {
        match doc {
            Json::String(text) => Ok(text.clone()),
            _ => Err(DecodeError::at_root(ErrorKind::WrongType)),
        }
    }

    proof fn lemma_round_trip(value: Seq<char>) {
    }
}

impl Wire for Number {
    open spec fn encode_spec(value: NumberView) -> JsonView {
        JsonView::Number(value)
    }

    open spec fn decode_spec(doc: JsonView) -> Result<NumberView, DecodeErrorView> {
        match doc {
            JsonView::Number(number) => Ok(number),
            _ => wrong_type(),
        }
    }

    fn encode(&self) -> (doc: Json) {
        Json::Number(self.clone())
    }

    fn decode(doc: &Json) -> (result: Result<Number, DecodeError>) {
        match doc {
            Json::Number(number) => Ok(number.clone()),
            _ => Err(DecodeError::at_root(ErrorKind::WrongType)),
        }
    }

    proof fn lemma_round_trip(value: NumberView) {
    }
}

/// The integer that a document denotes: a JSON number written without fraction
/// or exponent.
pub open spec fn integer_of(doc: JsonView) -> Result<int, DecodeErrorView> {
    match doc {
        JsonView::Number(number) => match number.as_int() {
            Some(n) => Ok(n),
            None => wrong_type(),
        },
        _ => wrong_type(),
    }
}

/// Reads the integer that `doc` denotes.
pub fn read_integer(doc: &Json) -> (result: Result<i128, DecodeError>)
    ensures
        match result {
            Ok(n) => integer_of(doc@) == Ok::<int, DecodeErrorView>(n as int),
            Err(error) => integer_of(doc@) == Err::<int, DecodeErrorView>(error.deep_view()),
        },
{
    match doc {
        Json::Number(number) => match number.as_integer() {
            Some(n) => Ok(n),
            None => Err(DecodeError::at_root(ErrorKind::WrongType)),
        },
        _ => Err(DecodeError::at_root(ErrorKind::WrongType)),
    }
}

impl Wire for i32 {
    open spec fn encode_spec(value: i32) -> JsonView {
        JsonView::Number(NumberView::of_int(value as int))
    }

    open spec fn decode_spec(doc: JsonView) -> Result<i32, DecodeErrorView> {
        match integer_of(doc) {
            Ok(n) => if i32::MIN <= n <= i32::MAX {
                Ok(n as i32)
            } else {
                Err(DecodeErrorView::at_root(ErrorKind::OutOfRange))
            },
            Err(error) => Err(error),
        }
    }

    fn encode(&self) -> (doc: Json) {
        Json::Number(Number::from_i64(*self as i64))
    }

    fn decode(doc: &Json) -> (result: Result<i32, DecodeError>) {
        match read_integer(doc) {
            Ok(n) => if -0x8000_0000 <= n && n <= 0x7fff_ffff {
                Ok(n as i32)
            } else {
                Err(DecodeError::at_root(ErrorKind::OutOfRange))
            },
            Err(error) => Err(error),
        }
    }

    proof fn lemma_round_trip(value: i32) {
    }
}

/// The values that a sequence of documents stands for, or the fault of the
/// first document that is at fault, with its position.
pub open spec fn decode_items<T: Wire>(docs: Seq<JsonView>) -> Result<Seq<T::V>, DecodeErrorView>
    decreases docs.len(),
{
    if docs.len() == 0 {
        Ok(Seq::empty())
    } else {
        match decode_items::<T>(docs.drop_last()) {
            Err(error) => Err(error),
            Ok(values) => match T::decode_spec(docs.last()) {
                Err(error) => Err(error.within(StepView::Index((docs.len() - 1) as nat))),
                Ok(value) => Ok(values.push(value)),
            },
        }
    }
}

/// Decoding the encodings of a sequence of values gives the values back.
pub proof fn lemma_items_round_trip<T: Wire>(values: Seq<T::V>)
    ensures
        decode_items::<T>(values.map_values(|v: T::V| T::encode_spec(v))) == Ok::<
            Seq<T::V>,
            DecodeErrorView,
        >(values),
    decreases values.len(),
{
    let docs = values.map_values(|v: T::V| T::encode_spec(v));
    if values.len() == 0 {
        assert(values =~= Seq::empty());
    } else {
        lemma_items_round_trip::<T>(values.drop_last());
        T::lemma_round_trip(values.last());
        assert(docs.drop_last() =~= values.drop_last().map_values(|v: T::V| T::encode_spec(v)));
        assert(values.drop_last().push(values.last()) =~= values);
    }
}

impl<T: Wire> Wire for Vec<T> {
    open spec fn encode_spec(value: Seq<T::V>) -> JsonView {
        JsonView::Array(value.map_values(|v: T::V| T::encode_spec(v)))
    }

    open spec fn decode_spec(doc: JsonView) -> Result<Seq<T::V>, DecodeErrorView> {
        match doc {
            JsonView::Array(docs) => decode_items::<T>(docs),
            _ => wrong_type(),
        }
    }

    fn encode(&self) -> (doc: Json) {
        let mut docs: Vec<Json> = Vec::new();
        let mut i: usize = 0;
        while i < self.len()
            invariant
                i <= self.len(),
                docs.len() == i,
                forall|k: int|
                    0 <= k < i ==> (#[trigger] docs@[k])@ == T::encode_spec(self@[k].deep_view()),
            decreases self.len() - i,
        {
            let item = self[i].encode();
            docs.push(item);
            i += 1;
        }
        proof {
            lemma_items_view(docs@);
            assert(items_view(docs@) =~= self.deep_view().map_values(
                |v: T::V| T::encode_spec(v),
            ));
        }
        Json::Array(docs)
    }

    fn decode(doc: &Json) -> (result: Result<Vec<T>, DecodeError>) {
        match doc {
            Json::Array(docs) => {
                let mut values: Vec<T> = Vec::new();
                let mut i: usize = 0;
                proof {
                    assert(docs@.take(0) =~= Seq::empty());
                    assert(values.deep_view() =~= Seq::empty());
                }
                while i < docs.len()
                    invariant
                        i <= docs.len(),
                        doc@ == JsonView::Array(items_view(docs@)),
                        decode_items::<T>(items_view(docs@.take(i as int))) == Ok::<
                            Seq<T::V>,
                            DecodeErrorView,
                        >(values.deep_view()),
                    decreases docs.len() - i,
                {
                    let ghost before = docs@.take(i as int);
                    let ghost upto = docs@.take(i + 1);
                    proof {
                        lemma_items_view(docs@);
                        lemma_items_view(upto);
                        lemma_items_view_push(before, docs@[i as int]);
                        assert(upto =~= before.push(docs@[i as int]));
                        assert(items_view(upto).drop_last() =~= items_view(before));
                        assert(items_view(docs@).take(i + 1) =~= items_view(upto));
                        lemma_decode_items_prefix::<T>(items_view(docs@), i + 1);
                    }
                    match T::decode(&docs[i]) {
                        Ok(value) => {
                            let ghost old_values = values.deep_view();
                            values.push(value);
                            assert(values.deep_view() =~= old_values.push(value.deep_view()));
                        },
                        Err(error) => {
                            assert(decode_items::<T>(items_view(upto)) is Err);
                            return Err(error.within(Step::Index(i)));
                        },
                    }
                    i += 1;
                }
                assert(docs@.take(docs.len() as int) =~= docs@);
                Ok(values)
            },
            _ => Err(DecodeError::at_root(ErrorKind::WrongType)),
        }
    }

    proof fn lemma_round_trip(value: Seq<T::V>) {
        lemma_items_round_trip::<T>(value);
    }
}

/// A fault in a prefix of a sequence of documents is the fault of the whole.
pub proof fn lemma_decode_items_prefix<T: Wire>(docs: Seq<JsonView>, n: int)
    requires
        0 <= n <= docs.len(),
    ensures
        decode_items::<T>(docs.take(n)) matches Err(error) ==> decode_items::<T>(docs) == Err::<
            Seq<T::V>,
            DecodeErrorView,
        >(error),
    decreases docs.len(),
{
    if n < docs.len() {
        assert(docs.drop_last().take(n) =~= docs.take(n));
        lemma_decode_items_prefix::<T>(docs.drop_last(), n);
    } else {
        assert(docs.take(n) =~= docs);
    }
}

} // verus!
