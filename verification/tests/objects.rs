use openrtb::auction_type::AuctionType;
use openrtb::bid_request::data::Segment;
use openrtb::bid_request::imp::banner::Format;
use openrtb::bid_request::imp::pmp::Deal;
use openrtb::bid_request::imp::{Banner, Metric, Native, Pmp, Video};
use openrtb::bid_request::{
    App, BidRequest, Content, Data, Device, Geo, Imp, Producer, Publisher, Regs, Site, Source, User,
};
use openrtb::bid_response::seat_bid::Bid;
use openrtb::bid_response::{BidResponse, SeatBid};
use openrtb::bool::Bool;
use openrtb::document::{from_str, read_text, to_string};
use openrtb::json::{member, Json, Number};
use openrtb::native_request::{Asset, EventTrackers, NativeRequest};
use openrtb::native_response::{EventTracker, Link, NativeResponse};
use openrtb::vocabulary::context::{ConnectionType, DeviceType, LocationType};
use openrtb::vocabulary::creative::{AdPosition, ApiFramework, CreativeAttribute};
use openrtb::vocabulary::media::{Protocol, VideoLinearity};
use openrtb::vocabulary::native::{
    ContextType, DataAssetType, EventTrackingMethod, EventType, ImageAssetType, PlacementType,
};
use openrtb::vocabulary::outcome::NoBidReason;
use openrtb::wire::Wire;

fn keys_of(doc: &Json) -> Vec<String> {
    match doc {
        Json::Object(members) => members.iter().map(|(key, _)| key.clone()).collect(),
        _ => panic!("not an object"),
    }
}

fn sample_request() -> BidRequest {
    BidRequest {
        id: "80ce30c53c16e6ede735f123ef6e32361bfc7b22".to_string(),
        imp: vec![Imp {
            id: "1".to_string(),
            banner: Some(Banner {
                w: Some(300),
                h: Some(250),
                format: Some(vec![Format { w: Some(300), h: Some(250), ..Format::default() }]),
                pos: Some(AdPosition::AboveTheFold),
                battr: Some(vec![CreativeAttribute::UserInteractive, CreativeAttribute::Pop]),
                api: Some(vec![ApiFramework::Mraid2]),
                topframe: Some(Bool::False),
                ..Banner::default()
            }),
            video: Some(Video {
                mimes: Some(vec!["video/mp4".to_string()]),
                minduration: Some(5),
                maxduration: Some(30),
                startdelay: Some(0),
                protocols: Some(vec![Protocol::Vast20, Protocol::Vast30]),
                linearity: Some(VideoLinearity::Linear),
                skip: Some(Bool::True),
                ..Video::default()
            }),
            instl: Some(Bool::False),
            bidfloor: Some(Number::Decimal("0.03".to_string())),
            bidfloorcur: Some("USD".to_string()),
            secure: Some(Bool::True),
            pmp: Some(Pmp {
                private_auction: Some(Bool::True),
                deals: Some(vec![Deal {
                    id: "deal-1".to_string(),
                    bidfloor: Some(Number::PosInt(2)),
                    at: Some(AuctionType::FirstPrice),
                    wseat: Some(vec!["seat-7".to_string()]),
                    ..Deal::default()
                }]),
                ext: None,
            }),
            metric: Some(vec![Metric {
                type_: Some("viewability".to_string()),
                value: Some(Number::Decimal("0.85".to_string())),
                vendor: Some("EXCHANGE".to_string()),
                ext: None,
            }]),
            exp: Some(-1),
            ..Imp::default()
        }],
        site: Some(Site {
            id: Some("102855".to_string()),
            cat: Some(vec!["IAB3-1".to_string()]),
            domain: Some("www.foobar.com".to_string()),
            page: Some("http://www.foobar.com/1234.html".to_string()),
            ref_: Some("http://referrer.example/".to_string()),
            publisher: Some(Publisher {
                id: Some("8953".to_string()),
                name: Some("foobar.com".to_string()),
                ..Publisher::default()
            }),
            content: Some(Content {
                episode: Some(3),
                producer: Some(Producer { name: Some("studio".to_string()), ..Producer::default() }),
                livestream: Some(Bool::False),
                data: Some(vec![Data {
                    id: Some("d1".to_string()),
                    segment: Some(vec![Segment {
                        id: Some("s1".to_string()),
                        value: Some("male".to_string()),
                        ..Segment::default()
                    }]),
                    ..Data::default()
                }]),
                ..Content::default()
            }),
            mobile: Some(Bool::False),
            ..Site::default()
        }),
        device: Some(Device {
            ua: Some("Mozilla/5.0".to_string()),
            geo: Some(Geo {
                lat: Some(Number::Decimal("37.789".to_string())),
                lon: Some(Number::Decimal("-122.394".to_string())),
                country: Some("USA".to_string()),
                type_: Some(LocationType::GpsLocation),
                utcoffset: Some(-480),
                ..Geo::default()
            }),
            dnt: Some(Bool::False),
            devicetype: Some(DeviceType::HighendPhone),
            connectiontype: Some(ConnectionType::Wifi),
            pxratio: Some(Number::PosInt(2)),
            ..Device::default()
        }),
        user: Some(User { id: Some("55816b39711f9b5acf3b90e313ed29e51665623f".to_string()), yob: Some(1984), ..User::default() }),
        regs: Some(Regs { coppa: Some(Bool::False), ext: None }),
        source: Some(Source { fd: Some(Bool::True), tid: Some("t-1".to_string()), ..Source::default() }),
        at: Some(AuctionType::ExchangeSpecific(501)),
        tmax: Some(120),
        wseat: Some(vec![]),
        cur: Some(vec!["USD".to_string(), "EUR".to_string()]),
        test: Some(Bool::False),
        ext: Some(Json::Object(vec![
            ("flag".to_string(), Json::Null),
            ("vendor".to_string(), Json::Array(vec![Json::Number(Number::PosInt(1)), Json::Bool(true)])),
        ])),
        ..BidRequest::default()
    }
}

#[test]
fn bid_request_round_trips_through_its_document() {
    let request = sample_request();
    let doc = request.encode();
    assert!(BidRequest::decode(&doc).unwrap() == request);
}

#[test]
fn bid_request_round_trips_through_text() {
    let request = sample_request();
    let text = to_string(&request).unwrap();
    let back: BidRequest = from_str(&text).unwrap();
    assert!(back == request);
}

#[test]
fn default_objects_round_trip() {
    assert!(BidRequest::decode(&BidRequest::default().encode()).unwrap() == BidRequest::default());
    assert!(BidResponse::decode(&BidResponse::default().encode()).unwrap() == BidResponse::default());
    assert!(Device::decode(&Device::default().encode()).unwrap() == Device::default());
    assert!(Bid::decode(&Bid::default().encode()).unwrap() == Bid::default());
    assert!(NativeRequest::decode(&NativeRequest::default().encode()).unwrap() == NativeRequest::default());
    assert!(NativeResponse::decode(&NativeResponse::default().encode()).unwrap() == NativeResponse::default());
    assert!(App::decode(&App::default().encode()).unwrap() == App::default());
}

#[test]
fn fields_are_written_in_their_order_under_their_own_keys() {
    let doc = sample_request().encode();
    assert_eq!(
        keys_of(&doc),
        ["id", "imp", "device", "regs", "user", "at", "tmax", "wseat", "cur", "test", "source", "site", "ext"]
    );
    let geo = Geo { type_: Some(LocationType::Ip), ..Geo::default() };
    assert_eq!(keys_of(&geo.encode()), ["type"]);
    let site = Site { ref_: Some("r".to_string()), ..Site::default() };
    assert_eq!(keys_of(&site.encode()), ["ref"]);
}

#[test]
fn absent_optional_fields_leave_no_key() {
    let imp = Imp { id: "1".to_string(), ..Imp::default() };
    assert_eq!(keys_of(&imp.encode()), ["id"]);
    assert_eq!(to_string(&imp).unwrap(), r#"{"id":"1"}"#);
    assert_eq!(keys_of(&Device::default().encode()), Vec::<String>::new());
    assert_eq!(to_string(&Device::default()).unwrap(), "{}");
    let text = to_string(&sample_request()).unwrap();
    assert!(!text.contains("\"regs\":null"));
    assert!(!text.contains("\"badv\""));
    assert!(!text.contains("\"app\""));
    assert!(!text.contains("\"bcat\""));
}

#[test]
fn present_fields_have_their_key_even_when_zero_or_false_or_empty() {
    let imp = Imp {
        id: String::new(),
        instl: Some(Bool::False),
        bidfloor: Some(Number::PosInt(0)),
        bidfloorcur: Some(String::new()),
        iframebuster: Some(vec![]),
        exp: Some(0),
        ..Imp::default()
    };
    let doc = imp.encode();
    assert_eq!(keys_of(&doc), ["id", "instl", "bidfloor", "bidfloorcur", "iframebuster", "exp"]);
    let members = match &doc {
        Json::Object(members) => members,
        _ => panic!("not an object"),
    };
    assert_eq!(member(members, "instl"), Some(&Json::Number(Number::PosInt(0))));
    assert_eq!(member(members, "bidfloor"), Some(&Json::Number(Number::PosInt(0))));
    assert_eq!(member(members, "bidfloorcur"), Some(&Json::String(String::new())));
    assert_eq!(member(members, "iframebuster"), Some(&Json::Array(vec![])));
    assert_eq!(member(members, "exp"), Some(&Json::Number(Number::PosInt(0))));
    assert!(Imp::decode(&doc).unwrap() == imp);
}

#[test]
fn absent_and_false_and_true_are_three_states() {
    let absent: Regs = from_str("{}").unwrap();
    let no: Regs = from_str(r#"{"coppa":0}"#).unwrap();
    let yes: Regs = from_str(r#"{"coppa":1}"#).unwrap();
    assert_eq!(absent.coppa, None);
    assert_eq!(no.coppa, Some(Bool::False));
    assert_eq!(yes.coppa, Some(Bool::True));
    assert_eq!(to_string(&absent).unwrap(), "{}");
    assert_eq!(to_string(&no).unwrap(), r#"{"coppa":0}"#);
    assert_eq!(to_string(&yes).unwrap(), r#"{"coppa":1}"#);
}

#[test]
fn unknown_keys_are_passed_over() {
    let imp: Imp = from_str(r#"{"id":"1","future":{"a":[1,2]},"tagid":"t","x":null}"#).unwrap();
    assert!(imp == Imp { id: "1".to_string(), tagid: Some("t".to_string()), ..Imp::default() });
}

#[test]
fn an_optional_field_written_as_null_reads_as_absent() {
    let imp: Imp = from_str(r#"{"id":"1","tagid":null,"instl":null,"banner":null,"metric":null}"#).unwrap();
    assert!(imp == Imp { id: "1".to_string(), ..Imp::default() });
}

#[test]
fn the_extension_slot_is_carried_as_it_is() {
    let regs: Regs = from_str(r#"{"ext":{"gdpr":1,"us_privacy":"1YNN","deep":[{"k":null}]}}"#).unwrap();
    assert_eq!(regs.ext, read_text(r#"{"gdpr":1,"us_privacy":"1YNN","deep":[{"k":null}]}"#));
    assert_eq!(to_string(&regs).unwrap(), r#"{"ext":{"deep":[{"k":null}],"gdpr":1,"us_privacy":"1YNN"}}"#);
    let null_ext: Regs = from_str(r#"{"ext":null}"#).unwrap();
    assert_eq!(null_ext.ext, Some(Json::Null));
    assert_eq!(to_string(&null_ext).unwrap(), r#"{"ext":null}"#);
    let number_ext: Regs = from_str(r#"{"ext":7}"#).unwrap();
    assert_eq!(number_ext.ext, Some(Json::Number(Number::PosInt(7))));
}

#[test]
fn bid_response_with_bids_round_trips() {
    let response = BidResponse {
        id: "1234567890".to_string(),
        seatbid: Some(vec![SeatBid {
            bid: vec![Bid {
                id: "1".to_string(),
                impid: "102".to_string(),
                price: Number::Decimal("9.43".to_string()),
                nurl: Some("http://adserver.com/winnotice?impid=102".to_string()),
                adomain: Some(vec!["advertiserdomain.com".to_string()]),
                cid: Some("campaign111".to_string()),
                crid: Some("creative112".to_string()),
                attr: Some(vec![CreativeAttribute::AudioAutoPlay, CreativeAttribute::Annoying]),
                api: Some(ApiFramework::Omid1),
                protocol: Some(Protocol::Vast40Wrapper),
                w: Some(300),
                h: Some(250),
                adm_native: Some(NativeResponse {
                    ver: Some("1.2".to_string()),
                    link: Link { url: "http://landing.example/".to_string(), ..Link::default() },
                    eventtrackers: Some(vec![EventTracker {
                        event: Some(EventType::Impression),
                        method: EventTrackingMethod::Img,
                        url: Some("http://track.example/p.gif".to_string()),
                        ext: None,
                    }]),
                    ..NativeResponse::default()
                }),
                ..Bid::default()
            }],
            seat: Some("512".to_string()),
            group: Some(Bool::False),
            ext: None,
        }]),
        bidid: Some("abc1123".to_string()),
        cur: Some("USD".to_string()),
        ..BidResponse::default()
    };
    assert!(BidResponse::decode(&response.encode()).unwrap() == response);
    let text = to_string(&response).unwrap();
    assert!(text.contains(r#""price":9.43"#));
    assert!(from_str::<BidResponse>(&text).unwrap() == response);
}

#[test]
fn no_bid_reasons_decode() {
    let response: BidResponse = from_str(r#"{"id":"r","nbr":0}"#).unwrap();
    assert_eq!(response.nbr, Some(NoBidReason::UnknownError));
    let response: BidResponse = from_str(r#"{"id":"r","nbr":10}"#).unwrap();
    assert_eq!(response.nbr, Some(NoBidReason::DailyDomainCap));
}

#[test]
fn native_request_round_trips() {
    let request = NativeRequest {
        ver: Some("1.2".to_string()),
        context: Some(ContextType::Social),
        plcmttype: Some(PlacementType::InFeed),
        assets: vec![
            Asset {
                id: 1,
                required: Some(Bool::True),
                title: Some(openrtb::native_request::asset::Title { len: 90, ext: None }),
                ..Asset::default()
            },
            Asset {
                id: 2,
                img: Some(openrtb::native_request::asset::Image {
                    type_: Some(ImageAssetType::Main),
                    wmin: Some(200),
                    ..openrtb::native_request::asset::Image::default()
                }),
                ..Asset::default()
            },
            Asset {
                id: 3,
                data: Some(openrtb::native_request::asset::Data {
                    type_: DataAssetType::Sponsored,
                    len: Some(25),
                    ext: None,
                }),
                ..Asset::default()
            },
        ],
        eventtrackers: Some(vec![EventTrackers {
            event: EventType::ViewableMrc50,
            methods: vec![EventTrackingMethod::Img, EventTrackingMethod::Js],
        }]),
        ..NativeRequest::default()
    };
    assert!(NativeRequest::decode(&request.encode()).unwrap() == request);
    let native = Native { request_native: Some(request), ..Native::default() };
    let text = to_string(&native).unwrap();
    assert!(from_str::<Native>(&text).unwrap() == native);
}

#[test]
fn native_response_decodes_from_text() {
    let text = r#"{"ver":"1.2","assets":[{"id":1,"required":1,"title":{"text":"Learn about this"}},{"id":2,"img":{"type":3,"url":"http://cdn.example/i.png","w":1200,"h":627}},{"id":3,"data":{"type":1,"value":"My Brand"}},{"id":4,"video":{"vasttag":"<VAST/>"}}],"link":{"url":"http://i.am.a/URL","clicktrackers":["http://a.com/a"]}}"#;
    let response: NativeResponse = from_str(text).unwrap();
    assert_eq!(response.assets.len(), 4);
    assert_eq!(response.assets[0].required, Some(Bool::True));
    assert_eq!(response.assets[0].title.as_ref().unwrap().text, "Learn about this");
    assert_eq!(response.assets[1].img.as_ref().unwrap().type_, Some(ImageAssetType::Main));
    assert_eq!(response.assets[1].img.as_ref().unwrap().w, Some(1200));
    assert_eq!(response.assets[2].data.as_ref().unwrap().type_, Some(DataAssetType::Sponsored));
    assert_eq!(response.assets[3].video.as_ref().unwrap().vasttag, "<VAST/>");
    assert_eq!(response.link.url, "http://i.am.a/URL");
    assert_eq!(response.link.clicktrackers, Some(vec!["http://a.com/a".to_string()]));
    assert!(NativeResponse::decode(&response.encode()).unwrap() == response);
}

#[test]
fn lists_of_vocabulary_members_travel_as_arrays_of_integers() {
    let banner = Banner {
        battr: Some(vec![CreativeAttribute::Flash, CreativeAttribute::AudioAutoPlay]),
        ..Banner::default()
    };
    assert_eq!(to_string(&banner).unwrap(), r#"{"battr":[17,1]}"#);
    let back: Banner = from_str(r#"{"battr":[17,1]}"#).unwrap();
    assert!(back == banner);
}

#[test]
fn numbers_in_price_fields_are_kept_as_written() {
    let bid: Bid = from_str(r#"{"id":"1","impid":"2","price":3}"#).unwrap();
    assert_eq!(bid.price, Number::PosInt(3));
    assert_eq!(to_string(&bid).unwrap(), r#"{"id":"1","impid":"2","price":3}"#);
    let bid: Bid = from_str(r#"{"id":"1","impid":"2","price":0.5}"#).unwrap();
    assert_eq!(bid.price, Number::Decimal("0.5".to_string()));
    assert_eq!(to_string(&bid).unwrap(), r#"{"id":"1","impid":"2","price":0.5}"#);
}

#[test]
fn a_value_comes_back_through_the_wire() {
    let request = sample_request();
    assert!(openrtb::wire::through_the_wire(&request).unwrap() == request);
    let number = Number::Decimal("0.5".to_string());
    assert!(openrtb::wire::through_the_wire(&number).unwrap() == number);
    assert_eq!(openrtb::wire::through_the_wire(&vec![1i32, -2, i32::MAX, i32::MIN]), Ok(vec![1, -2, i32::MAX, i32::MIN]));
    assert_eq!(openrtb::wire::through_the_wire(&"text".to_string()), Ok("text".to_string()));
    assert_eq!(openrtb::wire::through_the_wire(&DeviceType::Tablet), Ok(DeviceType::Tablet));
}

#[test]
fn a_default_object_has_every_optional_field_absent() {
    let request = BidRequest::default();
    assert_eq!(request.id, "");
    assert!(request.imp.is_empty());
    assert!(request.device.is_none() && request.at.is_none() && request.ext.is_none());
    assert_eq!(to_string(&request).unwrap(), r#"{"id":"","imp":[]}"#);
    let bid = Bid::default();
    assert_eq!(bid.price, Number::PosInt(0));
    assert_eq!(to_string(&bid).unwrap(), r#"{"id":"","impid":"","price":0}"#);
    let response = NativeResponse::default();
    assert_eq!(to_string(&response).unwrap(), r#"{"assets":[],"link":{"url":""}}"#);
    let title = openrtb::native_request::asset::Title::default();
    assert_eq!(title.len, 0);
}

#[test]
fn integers_travel_as_json_integers() {
    assert_eq!(7i32.encode(), Json::Number(Number::PosInt(7)));
    assert_eq!(0i32.encode(), Json::Number(Number::PosInt(0)));
    assert_eq!((-7i32).encode(), Json::Number(Number::NegInt(-7)));
    assert_eq!(i32::decode(&Json::Number(Number::NegInt(-7))), Ok(-7));
    assert_eq!(i32::decode(&Json::Number(Number::NegInt(7))), Ok(7));
    assert_eq!(i32::decode(&Json::Number(Number::PosInt(2_147_483_647))), Ok(i32::MAX));
    assert_eq!("x".to_string().encode(), Json::String("x".to_string()));
    assert_eq!(
        vec!["a".to_string(), "b".to_string()].encode(),
        Json::Array(vec![Json::String("a".to_string()), Json::String("b".to_string())])
    );
    assert_eq!(DeviceType::Tablet.encode(), Json::Number(Number::PosInt(5)));
    assert_eq!(
        openrtb::vocabulary::media::StartDelay::GenericMidRoll.encode(),
        Json::Number(Number::NegInt(-1))
    );
}
