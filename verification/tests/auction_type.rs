use openrtb::auction_type::AuctionType;
use openrtb::error::ErrorKind;
use openrtb::json::{Json, Number};
use openrtb::wire::Wire;

#[test]
fn one_and_two_have_names() {
    assert_eq!(AuctionType::from_wire(1), AuctionType::FirstPrice);
    assert_eq!(AuctionType::from_wire(2), AuctionType::SecondPrice);
    assert_eq!(AuctionType::FirstPrice.to_wire(), 1);
    assert_eq!(AuctionType::SecondPrice.to_wire(), 2);
}

#[test]
fn every_other_integer_is_exchange_specific() {
    for n in [0u32, 3, 4, 500, 501, 512, 65_536, u32::MAX] {
        assert_eq!(AuctionType::from_wire(n), AuctionType::ExchangeSpecific(n));
        assert_eq!(AuctionType::from_wire(n).to_wire(), n);
    }
}

#[test]
fn wire_integers_round_trip() {
    for n in 0u32..2000 {
        assert_eq!(AuctionType::from_wire(n).to_wire(), n);
    }
}

#[test]
fn exchange_specific_one_reads_back_as_first_price() {
    let doc = AuctionType::ExchangeSpecific(1).encode();
    assert_eq!(doc, Json::Number(Number::PosInt(1)));
    assert_eq!(AuctionType::decode(&doc), Ok(AuctionType::FirstPrice));
}

#[test]
fn auction_type_encodes_as_a_non_negative_integer() {
    assert_eq!(AuctionType::FirstPrice.encode(), Json::Number(Number::PosInt(1)));
    assert_eq!(AuctionType::SecondPrice.encode(), Json::Number(Number::PosInt(2)));
    assert_eq!(AuctionType::ExchangeSpecific(512).encode(), Json::Number(Number::PosInt(512)));
}

#[test]
fn auction_type_decodes_from_any_unsigned_32_bit_integer() {
    assert_eq!(AuctionType::decode(&Json::Number(Number::PosInt(1))), Ok(AuctionType::FirstPrice));
    assert_eq!(AuctionType::decode(&Json::Number(Number::PosInt(2))), Ok(AuctionType::SecondPrice));
    assert_eq!(
        AuctionType::decode(&Json::Number(Number::PosInt(4_294_967_295))),
        Ok(AuctionType::ExchangeSpecific(u32::MAX))
    );
    assert_eq!(
        AuctionType::decode(&Json::Number(Number::PosInt(0))),
        Ok(AuctionType::ExchangeSpecific(0))
    );
}

#[test]
fn auction_type_refuses_what_is_no_unsigned_32_bit_integer() {
    let too_large = AuctionType::decode(&Json::Number(Number::PosInt(4_294_967_296))).unwrap_err();
    assert_eq!(too_large.kind, ErrorKind::OutOfRange);
    let negative = AuctionType::decode(&Json::Number(Number::NegInt(-1))).unwrap_err();
    assert_eq!(negative.kind, ErrorKind::OutOfRange);
    let decimal = AuctionType::decode(&Json::Number(Number::Decimal("1.5".to_string()))).unwrap_err();
    assert_eq!(decimal.kind, ErrorKind::WrongType);
    let text = AuctionType::decode(&Json::String("1".to_string())).unwrap_err();
    assert_eq!(text.kind, ErrorKind::WrongType);
    assert!(text.path.is_empty());
}
