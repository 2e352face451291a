//! How the winning price of an auction is determined.

use crate::error::{DecodeError, DecodeErrorView, ErrorKind};
use crate::json::{Json, JsonView, Number, NumberView};
use crate::wire::{integer_of, read_integer, Wire};
use vstd::prelude::*;

verus! {

/// The type of an auction.
///
/// Two wire integers have a name: `1` and `2`. Every other one belongs to the
/// exchanges, which by convention use values above 500, and is carried as it
/// is: the set is open, and no unsigned 32-bit integer is turned away.
#[derive(Clone, Copy, Debug, PartialEq, Eq, Hash, PartialOrd, Ord, Structural)]
pub enum AuctionType {
    /// The winner pays its own bid. Wire integer `1`.
    FirstPrice,
    /// The winner pays just above the second highest bid. Wire integer `2`.
    SecondPrice,
    /// An auction type that an exchange defines, by its wire integer.
    ExchangeSpecific(u32),
}

impl AuctionType {
    /// The auction type that the wire integer `n` stands for.
    pub open spec fn of_wire(n: u32) -> AuctionType {
        if n == 1 {
            AuctionType::FirstPrice
        } else if n == 2 {
            AuctionType::SecondPrice
        } else {
            AuctionType::ExchangeSpecific(n)
        }
    }

    /// The wire integer of an auction type.
    pub open spec fn wire_int(self) -> u32 {
        match self {
            AuctionType::FirstPrice => 1,
            AuctionType::SecondPrice => 2,
            AuctionType::ExchangeSpecific(n) => n,
        }
    }

    /// Reads an auction type from its wire integer. No integer is refused.
    pub fn from_wire(n: u32) -> (auction: AuctionType)
        ensures
            auction == AuctionType::of_wire(n),
            n == 1 ==> auction == AuctionType::FirstPrice,
            n == 2 ==> auction == AuctionType::SecondPrice,
            n != 1 && n != 2 ==> auction == AuctionType::ExchangeSpecific(n),
    {
        if n == 1 {
            AuctionType::FirstPrice
        } else if n == 2 {
            AuctionType::SecondPrice
        } else {
            AuctionType::ExchangeSpecific(n)
        }
    }

    /// The wire integer of this auction type.
    pub fn to_wire(&self) -> (n: u32)
        ensures
            n == self.wire_int(),
    {
        match self {
            AuctionType::FirstPrice => 1,
            AuctionType::SecondPrice => 2,
            AuctionType::ExchangeSpecific(n) => *n,
        }
    }

    /// Every wire integer comes back unchanged when it is read and written
    /// again.
    pub proof fn lemma_wire_is_kept(n: u32)
        ensures
            AuctionType::of_wire(n).wire_int() == n,
    {
    }

    /// An auction type that was written is read back as the type with the same
    /// wire integer: itself, unless it is an exchange-specific `1` or `2`, which
    /// reads back under its name.
    pub proof fn lemma_wire_round_trip(self)
        ensures
            AuctionType::of_wire(self.wire_int()).wire_int() == self.wire_int(),
            self.is_canonical() ==> AuctionType::of_wire(self.wire_int()) == self,
    {
    }

    /// Whether this is the value under which its wire integer is read: all but
    /// `ExchangeSpecific(1)` and `ExchangeSpecific(2)`.
    pub open spec fn is_canonical(self) -> bool {
        match self {
            AuctionType::ExchangeSpecific(n) => n != 1 && n != 2,
            _ => true,
        }
    }
}

/// No unsigned 32-bit integer is refused, and each is read as the auction type
/// with that wire integer: `1` and `2` under their names, every other one as
/// the exchange's own.
pub proof fn lemma_every_integer_is_read(number: NumberView, n: u32)
    requires
        number.as_int() == Some(n as int),
    ensures
        AuctionType::decode_spec(JsonView::Number(number)) == Ok::<u32, DecodeErrorView>(n),
        AuctionType::of_wire(n).wire_int() == n,
        n != 1 && n != 2 ==> AuctionType::of_wire(n) == AuctionType::ExchangeSpecific(n),
{
}

/// An auction type is written as its wire integer, so that reading an integer
/// and writing it again gives the same integer.
pub proof fn lemma_written_as_wire_integer(n: u32)
    ensures
        AuctionType::encode_spec(AuctionType::of_wire(n).wire_int()) == JsonView::Number(
            NumberView::PosInt(n as u64),
        ),
{
}

impl DeepView for AuctionType {
    type V = u32;

    /// An auction type is known by its wire integer: `ExchangeSpecific(1)` and
    /// `FirstPrice` are the same type of auction.
    open spec fn deep_view(&self) -> u32 {
        self.wire_int()
    }
}

impl Wire for AuctionType {
    open spec fn encode_spec(value: u32) -> JsonView {
        JsonView::Number(NumberView::PosInt(value as u64))
    }

    open spec fn decode_spec(doc: JsonView) -> Result<u32, DecodeErrorView> {
        match integer_of(doc) {
            Ok(n) => if 0 <= n <= u32::MAX {
                Ok(n as u32)
            } else {
                Err(DecodeErrorView::at_root(ErrorKind::OutOfRange))
            },
            Err(error) => Err(error),
        }
    }

    fn encode(&self) -> (doc: Json) {
        Json::Number(Number::PosInt(self.to_wire() as u64))
    }

    fn decode(doc: &Json) -> (result: Result<AuctionType, DecodeError>) {
        match read_integer(doc) {
            Ok(n) => if 0 <= n && n <= 0xffff_ffff {
                Ok(AuctionType::from_wire(n as u32))
            } else {
                Err(DecodeError::at_root(ErrorKind::OutOfRange))
            },
            Err(error) => Err(error),
        }
    }

    proof fn lemma_round_trip(value: u32) {
    }
}

} // verus!
