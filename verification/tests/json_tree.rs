use openrtb::json::{member, Json, Number};
use openrtb::text::same_text;

#[test]
fn member_finds_the_value_under_a_key() {
    let members = vec![
        ("a".to_string(), Json::Bool(true)),
        ("b".to_string(), Json::Null),
    ];
    assert_eq!(member(&members, "a"), Some(&Json::Bool(true)));
    assert_eq!(member(&members, "b"), Some(&Json::Null));
    assert_eq!(member(&members, "c"), None);
    assert_eq!(member(&members, ""), None);
    assert_eq!(member(&members, "A"), None);
}

#[test]
fn member_of_no_members_is_none() {
    let members: Vec<(String, Json)> = vec![];
    assert_eq!(member(&members, "a"), None);
}

#[test]
fn the_last_member_with_a_key_counts() {
    let members = vec![
        ("a".to_string(), Json::Bool(true)),
        ("b".to_string(), Json::Null),
        ("a".to_string(), Json::Bool(false)),
    ];
    assert_eq!(member(&members, "a"), Some(&Json::Bool(false)));
}

#[test]
fn same_text_compares_by_characters() {
    assert!(same_text("", ""));
    assert!(same_text("id", "id"));
    assert!(!same_text("id", "ip"));
    assert!(!same_text("id", "idd"));
    assert!(!same_text("id", ""));
    assert!(same_text("é€😀", "é€😀"));
    assert!(!same_text("é", "e"));
}

#[test]
fn number_as_integer() {
    assert_eq!(Number::PosInt(0).as_integer(), Some(0));
    assert_eq!(Number::PosInt(u64::MAX).as_integer(), Some(18_446_744_073_709_551_615));
    assert_eq!(Number::NegInt(-5).as_integer(), Some(-5));
    assert_eq!(Number::NegInt(i64::MIN).as_integer(), Some(-9_223_372_036_854_775_808));
    assert_eq!(Number::Decimal("2.5".to_string()).as_integer(), None);
}

#[test]
fn number_from_i64_picks_the_sign() {
    assert_eq!(Number::from_i64(0), Number::PosInt(0));
    assert_eq!(Number::from_i64(7), Number::PosInt(7));
    assert_eq!(Number::from_i64(i64::MAX), Number::PosInt(9_223_372_036_854_775_807));
    assert_eq!(Number::from_i64(-1), Number::NegInt(-1));
    assert_eq!(Number::from_i64(i64::MIN), Number::NegInt(i64::MIN));
}

#[test]
fn number_default_is_zero() {
    assert_eq!(Number::default(), Number::PosInt(0));
}

#[test]
fn a_clone_is_equal() {
    let doc = Json::Object(vec![
        ("n".to_string(), Json::Number(Number::Decimal("1.5".to_string()))),
        (
            "list".to_string(),
            Json::Array(vec![Json::Null, Json::Bool(false), Json::String("x".to_string())]),
        ),
        ("o".to_string(), Json::Object(vec![("k".to_string(), Json::Number(Number::NegInt(-3)))])),
    ]);
    assert_eq!(doc.clone(), doc);
    assert_eq!(Number::Decimal("1.5".to_string()).clone(), Number::Decimal("1.5".to_string()));
}

#[test]
fn canonical_keeps_the_members_that_count() {
    let doc = Json::Object(vec![
        ("a".to_string(), Json::Number(Number::PosInt(1))),
        ("b".to_string(), Json::Array(vec![Json::Object(vec![
            ("x".to_string(), Json::Null),
            ("x".to_string(), Json::Bool(true)),
        ])])),
        ("a".to_string(), Json::Number(Number::PosInt(2))),
    ]);
    let canonical = doc.canonical();
    let members = match &canonical {
        Json::Object(members) => members,
        _ => panic!("not an object"),
    };
    assert_eq!(members.len(), 2);
    assert_eq!(members[0].0, "b");
    assert_eq!(members[1].0, "a");
    assert_eq!(member(members, "a"), Some(&Json::Number(Number::PosInt(2))));
    assert_eq!(
        member(members, "b"),
        Some(&Json::Array(vec![Json::Object(vec![("x".to_string(), Json::Bool(true))])]))
    );
}

#[test]
fn canonical_leaves_scalars_alone() {
    for doc in [
        Json::Null,
        Json::Bool(false),
        Json::Number(Number::NegInt(-1)),
        Json::String("s".to_string()),
        Json::Array(vec![]),
        Json::Object(vec![]),
    ] {
        assert_eq!(doc.canonical(), doc);
    }
}

#[test]
fn documents_are_equal_whatever_the_order_of_their_members() {
    let one = Json::Object(vec![
        ("a".to_string(), Json::Number(Number::PosInt(1))),
        ("b".to_string(), Json::Array(vec![Json::Null, Json::Bool(true)])),
    ]);
    let other = Json::Object(vec![
        ("b".to_string(), Json::Array(vec![Json::Null, Json::Bool(true)])),
        ("a".to_string(), Json::Number(Number::PosInt(1))),
    ]);
    assert!(one == other);
    assert!(one.same_value(&other));
    assert!(other.same_value(&one));
}

#[test]
fn an_overridden_member_makes_no_difference_to_equality() {
    let one = Json::Object(vec![
        ("a".to_string(), Json::Number(Number::PosInt(1))),
        ("a".to_string(), Json::Number(Number::PosInt(2))),
    ]);
    let other = Json::Object(vec![("a".to_string(), Json::Number(Number::PosInt(2)))]);
    let third = Json::Object(vec![("a".to_string(), Json::Number(Number::PosInt(1)))]);
    assert!(one == other);
    assert!(one != third);
}

#[test]
fn documents_with_different_values_are_not_equal() {
    let base = Json::Object(vec![("a".to_string(), Json::Array(vec![Json::Number(Number::PosInt(1))]))]);
    let longer = Json::Object(vec![
        ("a".to_string(), Json::Array(vec![Json::Number(Number::PosInt(1))])),
        ("b".to_string(), Json::Null),
    ]);
    let other_item = Json::Object(vec![("a".to_string(), Json::Array(vec![Json::Number(Number::PosInt(2))]))]);
    let other_key = Json::Object(vec![("c".to_string(), Json::Array(vec![Json::Number(Number::PosInt(1))]))]);
    assert!(base != longer);
    assert!(longer != base);
    assert!(base != other_item);
    assert!(base != other_key);
    assert!(Json::Array(vec![Json::Null]) != Json::Array(vec![]));
    assert!(Json::Array(vec![Json::Null, Json::Bool(true)]) != Json::Array(vec![Json::Bool(true), Json::Null]));
    assert!(Json::Null != Json::Bool(false));
    assert!(Json::String("1".to_string()) != Json::Number(Number::PosInt(1)));
    assert!(Json::Object(vec![]) != Json::Array(vec![]));
}

#[test]
fn numbers_are_equal_where_they_are_written_the_same_way() {
    assert!(Number::PosInt(5) == Number::PosInt(5));
    assert!(Number::PosInt(5) != Number::PosInt(6));
    assert!(Number::PosInt(5) != Number::NegInt(5));
    assert!(Number::NegInt(-5) == Number::NegInt(-5));
    assert!(Number::Decimal("1.5".to_string()) == Number::Decimal("1.5".to_string()));
    assert!(Number::Decimal("1.5".to_string()) != Number::Decimal("1.50".to_string()));
    assert!(Number::Decimal("5".to_string()) != Number::PosInt(5));
}

#[test]
fn position_is_that_of_the_last_member_with_the_key() {
    let members = vec![
        ("a".to_string(), Json::Null),
        ("b".to_string(), Json::Null),
        ("a".to_string(), Json::Null),
    ];
    assert_eq!(openrtb::json::position(&members, "a"), Some(2));
    assert_eq!(openrtb::json::position(&members, "b"), Some(1));
    assert_eq!(openrtb::json::position(&members, "c"), None);
}
