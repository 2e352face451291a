use openrtb::document::{read_text, write_text};
use openrtb::json::{Json, Number};

#[test]
fn read_takes_a_document_apart() {
    assert_eq!(read_text("null"), Some(Json::Null));
    assert_eq!(read_text("true"), Some(Json::Bool(true)));
    assert_eq!(read_text("false"), Some(Json::Bool(false)));
    assert_eq!(read_text("\"a\\nb\""), Some(Json::String("a\nb".to_string())));
    assert_eq!(read_text("[]"), Some(Json::Array(vec![])));
    assert_eq!(read_text("{}"), Some(Json::Object(vec![])));
    assert_eq!(
        read_text(" [1, -2, \"x\", [null]] "),
        Some(Json::Array(vec![
            Json::Number(Number::PosInt(1)),
            Json::Number(Number::NegInt(-2)),
            Json::String("x".to_string()),
            Json::Array(vec![Json::Null]),
        ]))
    );
    assert_eq!(
        read_text(r#"{"a":{"b":[true]}}"#),
        Some(Json::Object(vec![(
            "a".to_string(),
            Json::Object(vec![("b".to_string(), Json::Array(vec![Json::Bool(true)]))])
        )]))
    );
}

#[test]
fn read_tells_the_kinds_of_number_apart() {
    assert_eq!(read_text("0"), Some(Json::Number(Number::PosInt(0))));
    assert_eq!(read_text("18446744073709551615"), Some(Json::Number(Number::PosInt(u64::MAX))));
    assert_eq!(read_text("-1"), Some(Json::Number(Number::NegInt(-1))));
    assert_eq!(read_text("-9223372036854775808"), Some(Json::Number(Number::NegInt(i64::MIN))));
    assert_eq!(read_text("1.5"), Some(Json::Number(Number::Decimal("1.5".to_string()))));
    assert_eq!(read_text("0.25"), Some(Json::Number(Number::Decimal("0.25".to_string()))));
    assert_eq!(read_text("1.0"), Some(Json::Number(Number::Decimal("1.0".to_string()))));
    assert_eq!(read_text("-2.5e3"), Some(Json::Number(Number::Decimal("-2500.0".to_string()))));
}

#[test]
fn read_refuses_what_is_not_one_document() {
    for text in ["", " ", "{", "[1,]", "{\"a\"}", "nul", "1 2", "{\"a\":1,}", "'a'", "01", "1e999"] {
        assert_eq!(read_text(text), None);
    }
}

#[test]
fn read_keeps_the_last_of_two_members_with_one_key() {
    assert_eq!(
        read_text(r#"{"a":1,"a":2}"#),
        Some(Json::Object(vec![("a".to_string(), Json::Number(Number::PosInt(2)))]))
    );
}

#[test]
fn write_puts_a_document_into_text() {
    assert_eq!(write_text(&Json::Null), Some("null".to_string()));
    assert_eq!(write_text(&Json::Bool(true)), Some("true".to_string()));
    assert_eq!(write_text(&Json::Number(Number::PosInt(7))), Some("7".to_string()));
    assert_eq!(write_text(&Json::Number(Number::NegInt(-7))), Some("-7".to_string()));
    assert_eq!(write_text(&Json::Number(Number::Decimal("1.5".to_string()))), Some("1.5".to_string()));
    assert_eq!(write_text(&Json::String("a\"b".to_string())), Some("\"a\\\"b\"".to_string()));
    assert_eq!(
        write_text(&Json::Array(vec![Json::Null, Json::Number(Number::PosInt(1))])),
        Some("[null,1]".to_string())
    );
    assert_eq!(
        write_text(&Json::Object(vec![
            ("id".to_string(), Json::String("x".to_string())),
            ("at".to_string(), Json::Number(Number::PosInt(2))),
        ])),
        Some(r#"{"at":2,"id":"x"}"#.to_string())
    );
}

#[test]
fn write_keeps_the_last_of_two_members_with_one_key() {
    let doc = Json::Object(vec![
        ("a".to_string(), Json::Number(Number::PosInt(1))),
        ("a".to_string(), Json::Number(Number::PosInt(2))),
    ]);
    assert_eq!(write_text(&doc), Some(r#"{"a":2}"#.to_string()));
}

#[test]
fn write_has_no_text_for_a_decimal_that_is_no_number() {
    assert_eq!(write_text(&Json::Number(Number::Decimal("abc".to_string()))), None);
    assert_eq!(write_text(&Json::Number(Number::Decimal("".to_string()))), None);
    assert_eq!(write_text(&Json::Number(Number::Decimal("1.5x".to_string()))), None);
    assert_eq!(
        write_text(&Json::Array(vec![Json::Null, Json::Number(Number::Decimal("NaN".to_string()))])),
        None
    );
    let nested = Json::Object(vec![(
        "a".to_string(),
        Json::Array(vec![Json::Number(Number::Decimal("--1".to_string()))]),
    )]);
    assert_eq!(write_text(&nested), None);
}

#[test]
fn what_was_written_reads_back() {
    let doc = Json::Object(vec![
        ("a".to_string(), Json::Array(vec![Json::Number(Number::NegInt(-3)), Json::Null])),
        ("b".to_string(), Json::Number(Number::Decimal("0.125".to_string()))),
        ("c".to_string(), Json::String("é \u{1F600} \\ \"".to_string())),
    ]);
    let text = write_text(&doc).unwrap();
    assert_eq!(read_text(&text), Some(doc));
}

#[test]
fn an_overridden_member_does_not_count_when_writing() {
    let doc = Json::Object(vec![
        ("a".to_string(), Json::Number(Number::Decimal("not a number".to_string()))),
        ("a".to_string(), Json::Number(Number::PosInt(1))),
    ]);
    assert_eq!(write_text(&doc), Some(r#"{"a":1}"#.to_string()));
}

fn nested(levels: usize) -> Json {
    let mut doc = Json::Array(vec![]);
    for _ in 1..levels {
        doc = Json::Array(vec![doc]);
    }
    doc
}

#[test]
fn nesting_is_read_and_written_to_the_same_depth() {
    let deepest = "[".repeat(127) + &"]".repeat(127);
    let too_deep = "[".repeat(128) + &"]".repeat(128);
    assert_eq!(read_text(&deepest), Some(nested(127)));
    assert_eq!(read_text(&too_deep), None);
    assert_eq!(write_text(&nested(127)), Some(deepest));
    assert_eq!(write_text(&nested(128)), None);
    assert_eq!(write_text(&nested(1000)), None);
    let object = Json::Object(vec![("a".to_string(), nested(126))]);
    assert!(write_text(&object).is_some());
    let object = Json::Object(vec![("a".to_string(), nested(127))]);
    assert_eq!(write_text(&object), None);
}

#[test]
fn an_integer_is_written_the_same_however_it_is_held() {
    assert_eq!(write_text(&Json::Number(Number::NegInt(5))), Some("5".to_string()));
    assert_eq!(write_text(&Json::Number(Number::NegInt(0))), Some("0".to_string()));
    assert_eq!(write_text(&Json::Number(Number::Decimal("5".to_string()))), Some("5".to_string()));
    assert_eq!(write_text(&Json::Number(Number::Decimal("1.50".to_string()))), Some("1.5".to_string()));
    assert_eq!(write_text(&Json::Number(Number::Decimal("1e2".to_string()))), Some("100.0".to_string()));
    assert_eq!(write_text(&Json::Number(Number::PosInt(u64::MAX))), Some("18446744073709551615".to_string()));
    assert_eq!(write_text(&Json::Number(Number::NegInt(i64::MIN))), Some("-9223372036854775808".to_string()));
    assert_eq!(write_text(&Json::Bool(false)), Some("false".to_string()));
}
