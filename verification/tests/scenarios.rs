use openrtb::auction_type::AuctionType;
use openrtb::bid_request::{BidRequest, Imp};
use openrtb::bid_response::BidResponse;
use openrtb::bool::Bool;
use openrtb::document::{from_str, read_text, to_string};
use openrtb::json::{member, Json, Number};
use openrtb::vocabulary::outcome::NoBidReason;
use openrtb::wire::Wire;

fn members_of(doc: &Json) -> &Vec<(String, Json)> {
    match doc {
        Json::Object(members) => members,
        _ => panic!("not an object"),
    }
}

#[test]
fn minimal_bid_request_decodes() {
    let request: BidRequest = from_str(r#"{"id":"req-1","imp":[{"id":"1"}],"at":2}"#).unwrap();
    assert_eq!(request.id, "req-1");
    assert_eq!(request.imp.len(), 1);
    assert_eq!(request.imp[0].id, "1");
    assert_eq!(request.at, Some(AuctionType::SecondPrice));
    let mut expected = BidRequest::default();
    expected.id = "req-1".to_string();
    let mut imp = Imp::default();
    imp.id = "1".to_string();
    expected.imp = vec![imp];
    expected.at = Some(AuctionType::SecondPrice);
    assert!(request == expected);
}

#[test]
fn minimal_bid_request_encodes_to_the_same_structure() {
    let text = r#"{"id":"req-1","imp":[{"id":"1"}],"at":2}"#;
    let request: BidRequest = from_str(text).unwrap();
    let doc = request.encode();
    assert!(BidRequest::decode(&doc).unwrap() == BidRequest::decode(&read_text(text).unwrap()).unwrap());
    let members = members_of(&doc);
    assert_eq!(members.len(), 3);
    assert_eq!(member(members, "id"), Some(&Json::String("req-1".to_string())));
    assert_eq!(member(members, "at"), Some(&Json::Number(Number::PosInt(2))));
    let imps = match member(members, "imp") {
        Some(Json::Array(imps)) => imps,
        _ => panic!("imp is not an array"),
    };
    assert_eq!(imps.len(), 1);
    assert_eq!(members_of(&imps[0]).len(), 1);
    assert_eq!(member(members, "site"), None);
    assert_eq!(member(members, "ext"), None);
    let again: BidRequest = from_str(&to_string(&request).unwrap()).unwrap();
    assert!(again == request);
}

#[test]
fn exchange_specific_auction_type_is_carried() {
    let request: BidRequest = from_str(r#"{"id":"req-2","imp":[{"id":"1"}],"at":512}"#).unwrap();
    assert_eq!(request.at, Some(AuctionType::ExchangeSpecific(512)));
    let doc = request.encode();
    assert_eq!(member(members_of(&doc), "at"), Some(&Json::Number(Number::PosInt(512))));
    let text = to_string(&request).unwrap();
    assert!(text.contains(r#""at":512"#));
}

#[test]
fn loose_boolean_decodes_to_true_and_encodes_as_one() {
    let imp: Imp = from_str(r#"{"id":"1","instl":5}"#).unwrap();
    assert_eq!(imp.instl, Some(Bool::True));
    let doc = imp.encode();
    assert_eq!(member(members_of(&doc), "instl"), Some(&Json::Number(Number::PosInt(1))));
    let text = to_string(&imp).unwrap();
    assert!(text.contains(r#""instl":1"#));
}

#[test]
fn no_bid_response_decodes_and_omits_seatbid() {
    let response: BidResponse = from_str(r#"{"id":"req-1","nbr":2}"#).unwrap();
    assert_eq!(response.id, "req-1");
    assert!(response.seatbid.is_none());
    assert_eq!(response.nbr, Some(NoBidReason::InvalidRequest));
    let doc = response.encode();
    assert_eq!(member(members_of(&doc), "seatbid"), None);
    assert_eq!(member(members_of(&doc), "nbr"), Some(&Json::Number(Number::PosInt(2))));
    let text = to_string(&response).unwrap();
    assert!(!text.contains("seatbid"));
    assert_eq!(text, r#"{"id":"req-1","nbr":2}"#);
}
