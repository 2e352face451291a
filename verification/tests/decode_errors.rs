use openrtb::bid_request::imp::Banner;
use openrtb::bid_request::{BidRequest, Device, Imp};
use openrtb::bid_response::seat_bid::Bid;
use openrtb::bid_response::BidResponse;
use openrtb::document::from_str;
use openrtb::error::{DecodeError, ErrorKind, Step};
use openrtb::json::{Json, Number};
use openrtb::native_request::asset::Data;
use openrtb::native_response::NativeResponse;
use openrtb::vocabulary::content_category::ContentCategory;
use openrtb::vocabulary::context::DeviceType;
use openrtb::vocabulary::media::StartDelay;
use openrtb::wire::Wire;

fn failure<T: Wire>(text: &str) -> DecodeError {
    match from_str::<T>(text) {
        Ok(_) => panic!("decoded: {}", text),
        Err(error) => error,
    }
}

#[test]
fn text_that_is_not_json_is_a_syntax_error() {
    let error = failure::<BidRequest>(r#"{"id":"req-1","imp":[{"id":"1"}]"#);
    assert_eq!(error, DecodeError { kind: ErrorKind::Syntax, path: vec![] });
    assert_eq!(failure::<BidRequest>("").kind, ErrorKind::Syntax);
}

#[test]
fn a_document_that_is_no_object_has_the_wrong_type() {
    for text in ["[]", "1", "\"x\"", "null", "true"] {
        let error = failure::<BidRequest>(text);
        assert_eq!(error, DecodeError { kind: ErrorKind::WrongType, path: vec![] });
    }
}

#[test]
fn a_missing_required_field_is_named() {
    let error = failure::<BidRequest>(r#"{"imp":[{"id":"1"}]}"#);
    assert_eq!(error, DecodeError { kind: ErrorKind::MissingField, path: vec![Step::Field("id")] });
    let error = failure::<BidRequest>(r#"{"id":"r"}"#);
    assert_eq!(error, DecodeError { kind: ErrorKind::MissingField, path: vec![Step::Field("imp")] });
    let error = failure::<Bid>(r#"{"id":"1","impid":"2"}"#);
    assert_eq!(error, DecodeError { kind: ErrorKind::MissingField, path: vec![Step::Field("price")] });
    let error = failure::<NativeResponse>(r#"{"assets":[]}"#);
    assert_eq!(error, DecodeError { kind: ErrorKind::MissingField, path: vec![Step::Field("link")] });
    let error = failure::<Data>(r#"{"len":3}"#);
    assert_eq!(error, DecodeError { kind: ErrorKind::MissingField, path: vec![Step::Field("type")] });
}

#[test]
fn a_required_field_written_as_null_has_the_wrong_type() {
    let error = failure::<BidRequest>(r#"{"id":null,"imp":[]}"#);
    assert_eq!(error, DecodeError { kind: ErrorKind::WrongType, path: vec![Step::Field("id")] });
}

#[test]
fn a_field_of_the_wrong_json_type_is_located() {
    let error = failure::<BidRequest>(r#"{"id":7,"imp":[]}"#);
    assert_eq!(error, DecodeError { kind: ErrorKind::WrongType, path: vec![Step::Field("id")] });
    let error = failure::<BidRequest>(r#"{"id":"r","imp":{}}"#);
    assert_eq!(error, DecodeError { kind: ErrorKind::WrongType, path: vec![Step::Field("imp")] });
    let error = failure::<BidRequest>(r#"{"id":"r","imp":[{"id":"1"},{"id":"2","banner":{"w":"300"}}]}"#);
    assert_eq!(
        error,
        DecodeError {
            kind: ErrorKind::WrongType,
            path: vec![Step::Field("imp"), Step::Index(1), Step::Field("banner"), Step::Field("w")],
        }
    );
    let error = failure::<Imp>(r#"{"id":"1","instl":true}"#);
    assert_eq!(error, DecodeError { kind: ErrorKind::WrongType, path: vec![Step::Field("instl")] });
    let error = failure::<Imp>(r#"{"id":"1","bidfloor":"0.5"}"#);
    assert_eq!(error, DecodeError { kind: ErrorKind::WrongType, path: vec![Step::Field("bidfloor")] });
    let error = failure::<Imp>(r#"{"id":"1","exp":1.5}"#);
    assert_eq!(error, DecodeError { kind: ErrorKind::WrongType, path: vec![Step::Field("exp")] });
    let error = failure::<BidRequest>(r#"{"id":"r","imp":[],"wseat":["a",2]}"#);
    assert_eq!(
        error,
        DecodeError { kind: ErrorKind::WrongType, path: vec![Step::Field("wseat"), Step::Index(1)] }
    );
}

#[test]
fn an_integer_outside_a_closed_vocabulary_is_an_unknown_value() {
    let error = failure::<Device>(r#"{"devicetype":0}"#);
    assert_eq!(error, DecodeError { kind: ErrorKind::UnknownValue, path: vec![Step::Field("devicetype")] });
    let error = failure::<Device>(r#"{"devicetype":8}"#);
    assert_eq!(error.kind, ErrorKind::UnknownValue);
    let error = failure::<Device>(r#"{"devicetype":-1}"#);
    assert_eq!(error.kind, ErrorKind::UnknownValue);
    let error = failure::<Device>(r#"{"devicetype":18446744073709551615}"#);
    assert_eq!(error.kind, ErrorKind::UnknownValue);
    let error = failure::<BidResponse>(r#"{"id":"r","nbr":11}"#);
    assert_eq!(error, DecodeError { kind: ErrorKind::UnknownValue, path: vec![Step::Field("nbr")] });
    let error = failure::<Banner>(r#"{"battr":[1,2,18]}"#);
    assert_eq!(
        error,
        DecodeError { kind: ErrorKind::UnknownValue, path: vec![Step::Field("battr"), Step::Index(2)] }
    );
    let error = failure::<Banner>(r#"{"pos":8}"#);
    assert_eq!(error.kind, ErrorKind::UnknownValue);
}

#[test]
fn closed_vocabularies_refuse_unknown_integers_on_their_own() {
    for n in [-1i64, 393, 1000, i64::MAX, i64::MIN] {
        let error = ContentCategory::decode(&Json::Number(Number::from_i64(n))).unwrap_err();
        assert_eq!(error, DecodeError { kind: ErrorKind::UnknownValue, path: vec![] });
    }
    assert_eq!(ContentCategory::decode(&Json::Number(Number::PosInt(392))), Ok(ContentCategory::Iab26_4));
    assert_eq!(DeviceType::decode(&Json::Number(Number::PosInt(7))), Ok(DeviceType::SetTopBox));
    assert_eq!(DeviceType::decode(&Json::Number(Number::NegInt(7))), Ok(DeviceType::SetTopBox));
    assert_eq!(StartDelay::decode(&Json::Number(Number::NegInt(-2))), Ok(StartDelay::GenericPostRoll));
    assert_eq!(StartDelay::decode(&Json::Number(Number::NegInt(-3))).unwrap_err().kind, ErrorKind::UnknownValue);
    assert_eq!(StartDelay::decode(&Json::Number(Number::PosInt(1))).unwrap_err().kind, ErrorKind::UnknownValue);
    assert_eq!(DeviceType::decode(&Json::String("1".to_string())).unwrap_err().kind, ErrorKind::WrongType);
    assert_eq!(
        DeviceType::decode(&Json::Number(Number::Decimal("1.0".to_string()))).unwrap_err().kind,
        ErrorKind::WrongType
    );
}

#[test]
fn an_integer_too_wide_for_its_field_is_out_of_range() {
    let error = failure::<BidRequest>(r#"{"id":"r","imp":[],"tmax":2147483648}"#);
    assert_eq!(error, DecodeError { kind: ErrorKind::OutOfRange, path: vec![Step::Field("tmax")] });
    let error = failure::<BidRequest>(r#"{"id":"r","imp":[],"tmax":-2147483649}"#);
    assert_eq!(error.kind, ErrorKind::OutOfRange);
    let request: BidRequest = from_str(r#"{"id":"r","imp":[],"tmax":2147483647}"#).unwrap();
    assert_eq!(request.tmax, Some(i32::MAX));
    let request: BidRequest = from_str(r#"{"id":"r","imp":[],"tmax":-2147483648}"#).unwrap();
    assert_eq!(request.tmax, Some(i32::MIN));
    let error = failure::<BidRequest>(r#"{"id":"r","imp":[],"at":4294967296}"#);
    assert_eq!(error, DecodeError { kind: ErrorKind::OutOfRange, path: vec![Step::Field("at")] });
    let error = failure::<BidRequest>(r#"{"id":"r","imp":[],"at":-1}"#);
    assert_eq!(error.kind, ErrorKind::OutOfRange);
}

#[test]
fn the_first_fault_in_field_order_is_reported() {
    let error = failure::<Imp>(r#"{"exp":"x","tagid":5,"id":"1"}"#);
    assert_eq!(error, DecodeError { kind: ErrorKind::WrongType, path: vec![Step::Field("tagid")] });
}

#[test]
fn errors_see_themselves_from_further_out() {
    let error = DecodeError::at_root(ErrorKind::UnknownValue)
        .within(Step::Field("pos"))
        .within(Step::Index(3))
        .within(Step::Field("imp"));
    assert_eq!(error.kind, ErrorKind::UnknownValue);
    assert_eq!(error.path, vec![Step::Field("imp"), Step::Index(3), Step::Field("pos")]);
}
