use openrtb::bool::Bool;
use openrtb::error::ErrorKind;
use openrtb::json::{Json, Number};
use openrtb::wire::Wire;

#[test]
fn zero_reads_as_false() {
    assert_eq!(Bool::from_wire(0), Bool::False);
}

#[test]
fn every_other_integer_reads_as_true() {
    assert_eq!(Bool::from_wire(1), Bool::True);
    assert_eq!(Bool::from_wire(5), Bool::True);
    assert_eq!(Bool::from_wire(255), Bool::True);
    assert_eq!(Bool::from_wire(256), Bool::True);
    assert_eq!(Bool::from_wire(-1), Bool::True);
    assert_eq!(Bool::from_wire(i128::MAX), Bool::True);
    assert_eq!(Bool::from_wire(i128::MIN), Bool::True);
}

#[test]
fn flags_are_written_as_zero_and_one() {
    assert_eq!(Bool::False.to_wire(), 0);
    assert_eq!(Bool::True.to_wire(), 1);
    assert_eq!(Bool::False.encode(), Json::Number(Number::PosInt(0)));
    assert_eq!(Bool::True.encode(), Json::Number(Number::PosInt(1)));
}

#[test]
fn flag_round_trips_through_its_wire_integer() {
    for flag in [Bool::True, Bool::False] {
        assert_eq!(Bool::from_wire(flag.to_wire() as i128), flag);
        assert_eq!(Bool::decode(&flag.encode()), Ok(flag));
    }
}

#[test]
fn flag_as_bool() {
    assert!(Bool::True.is_true());
    assert!(!Bool::False.is_true());
}

#[test]
fn flag_decodes_from_any_integer() {
    assert_eq!(Bool::decode(&Json::Number(Number::PosInt(0))), Ok(Bool::False));
    assert_eq!(Bool::decode(&Json::Number(Number::NegInt(0))), Ok(Bool::False));
    assert_eq!(Bool::decode(&Json::Number(Number::PosInt(1))), Ok(Bool::True));
    assert_eq!(Bool::decode(&Json::Number(Number::PosInt(5))), Ok(Bool::True));
    assert_eq!(Bool::decode(&Json::Number(Number::PosInt(u64::MAX))), Ok(Bool::True));
    assert_eq!(Bool::decode(&Json::Number(Number::NegInt(-7))), Ok(Bool::True));
    assert_eq!(Bool::decode(&Json::Number(Number::NegInt(i64::MIN))), Ok(Bool::True));
}

#[test]
fn flag_refuses_what_is_no_integer() {
    for doc in [
        Json::Null,
        Json::Bool(true),
        Json::String("1".to_string()),
        Json::Number(Number::Decimal("1.0".to_string())),
        Json::Array(vec![]),
        Json::Object(vec![]),
    ] {
        let error = Bool::decode(&doc).unwrap_err();
        assert_eq!(error.kind, ErrorKind::WrongType);
        assert!(error.path.is_empty());
    }
}
