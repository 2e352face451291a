//! The bid response.

use crate::bid_response::seat_bid::{Bid, BidView};
use crate::bool::Bool;
use crate::error::{DecodeError, DecodeErrorView};
use crate::json::{Json, JsonView};
use crate::object::{
    encode_opt, field, lemma_field_round_trip, lemma_opt_field_round_trip, lemma_other_key,
    lemma_other_key_raw, Members, ObjectWriter, opt_field, opt_view, raw_field, read_field,
    read_members, read_opt_field, read_raw_field, Record,
};
use crate::text::lemma_head;
use crate::vocabulary::outcome::NoBidReason;
use crate::wire::{Wire, wrong_type};
use vstd::prelude::*;

pub mod seat_bid;

verus! {

/// A bid response: the reply to one bid request.
///
/// A response with no `seatbid` is a no-bid; `nbr` can then say why.
#[derive(Clone, Debug, PartialEq)]
pub struct BidResponse {
    /// ID of the bid request to which this is a response.
    pub id: String,
    /// Array of seatbid objects; 1+ required if a bid is to be made.
    pub seatbid: Option<Vec<SeatBid>>,
    /// Bidder generated response ID to assist with logging/tracking.
    pub bidid: Option<String>,
    /// Bid currency using ISO-4217 alpha codes. This field will be required starting in Q4
    /// 2022.
    pub cur: Option<String>,
    /// Optional feature to allow a bidder to set data in the exchange's cookie. The string
    /// must be in base85 cookie safe characters and be in any format.
    pub customdata: Option<String>,
    /// Reason for not bidding.
    pub nbr: Option<NoBidReason>,
    /// Vendor extensions, carried as they are.
    pub ext: Option<Json>,
}

/// The mathematical value of a [`BidResponse`].
pub struct BidResponseView {
    pub id: Seq<char>,
    pub seatbid: Option<Seq<SeatBidView>>,
    pub bidid: Option<Seq<char>>,
    pub cur: Option<Seq<char>>,
    pub customdata: Option<Seq<char>>,
    pub nbr: Option<NoBidReason>,
    pub ext: Option<JsonView>,
}

impl DeepView for BidResponse {
    type V = BidResponseView;

    open spec fn deep_view(&self) -> BidResponseView {
        BidResponseView {
            id: self.id.deep_view(),
            seatbid: opt_view(self.seatbid),
            bidid: opt_view(self.bidid),
            cur: opt_view(self.cur),
            customdata: opt_view(self.customdata),
            nbr: opt_view(self.nbr),
            ext: opt_view(self.ext),
        }
    }
}

impl BidResponseView {
    /// The value in which every optional field is absent and every required
    /// field is empty or zero.
    pub open spec fn empty() -> BidResponseView {
        BidResponseView {
            id: Seq::empty(),
            seatbid: None,
            bidid: None,
            cur: None,
            customdata: None,
            nbr: None,
            ext: None,
        }
    }
}

impl Default for BidResponse {
    fn default() -> (value: BidResponse)
        ensures
            value.deep_view() == BidResponseView::empty(),
    {
        let value = BidResponse {
            id: String::new(),
            seatbid: None,
            bidid: None,
            cur: None,
            customdata: None,
            nbr: None,
            ext: None,
        };
        proof {
            reveal(opt_view);
        }
        value
    }
}

impl Wire for BidResponse {
    open spec fn encode_spec(value: BidResponseView) -> JsonView {
        Members::empty()
            .with("id"@, String::encode_spec(value.id))
            .with_opt("seatbid"@, encode_opt::<Vec<SeatBid>>(value.seatbid))
            .with_opt("bidid"@, encode_opt::<String>(value.bidid))
            .with_opt("cur"@, encode_opt::<String>(value.cur))
            .with_opt("customdata"@, encode_opt::<String>(value.customdata))
            .with_opt("nbr"@, encode_opt::<NoBidReason>(value.nbr))
            .with_opt("ext"@, value.ext)
            .json()
    }

    open spec fn decode_spec(doc: JsonView) -> Result<BidResponseView, DecodeErrorView> {
        match doc {
            JsonView::Object(members) => {
                let id = field::<String>(members, "id"@);
                let seatbid = opt_field::<Vec<SeatBid>>(members, "seatbid"@);
                let bidid = opt_field::<String>(members, "bidid"@);
                let cur = opt_field::<String>(members, "cur"@);
                let customdata = opt_field::<String>(members, "customdata"@);
                let nbr = opt_field::<NoBidReason>(members, "nbr"@);
                let ext = raw_field(members, "ext"@);
                if id is Err {
                    Err(id->Err_0)
                } else if seatbid is Err {
                    Err(seatbid->Err_0)
                } else if bidid is Err {
                    Err(bidid->Err_0)
                } else if cur is Err {
                    Err(cur->Err_0)
                } else if customdata is Err {
                    Err(customdata->Err_0)
                } else if nbr is Err {
                    Err(nbr->Err_0)
                } else {
                    Ok(
                        BidResponseView {
                            id: id->Ok_0,
                            seatbid: seatbid->Ok_0,
                            bidid: bidid->Ok_0,
                            cur: cur->Ok_0,
                            customdata: customdata->Ok_0,
                            nbr: nbr->Ok_0,
                            ext,
                        },
                    )
                }
            },
            _ => wrong_type(),
        }
    }

    fn encode(&self) -> (doc: Json) {
        let mut object = ObjectWriter::new();
        object.field("id", &self.id);
        object.opt_field("seatbid", &self.seatbid);
        object.opt_field("bidid", &self.bidid);
        object.opt_field("cur", &self.cur);
        object.opt_field("customdata", &self.customdata);
        object.opt_field("nbr", &self.nbr);
        object.raw_field("ext", &self.ext);
        object.finish()
    }

    fn decode(doc: &Json) -> (result: Result<BidResponse, DecodeError>) {
        let members = read_members(doc)?;
        let id = read_field::<String>(members, "id")?;
        let seatbid = read_opt_field::<Vec<SeatBid>>(members, "seatbid")?;
        let bidid = read_opt_field::<String>(members, "bidid")?;
        let cur = read_opt_field::<String>(members, "cur")?;
        let customdata = read_opt_field::<String>(members, "customdata")?;
        let nbr = read_opt_field::<NoBidReason>(members, "nbr")?;
        let ext = read_raw_field(members, "ext");
        Ok(
            BidResponse {
                id,
                seatbid,
                bidid,
                cur,
                customdata,
                nbr,
                ext,
            },
        )
    }

    proof fn lemma_round_trip(value: BidResponseView) {
        BidResponse::lemma_written_fields(value);
        let members = BidResponse::encode_spec(value)->Object_0;
        lemma_field_round_trip::<String>(members, "id"@, value.id);
        lemma_opt_field_round_trip::<Vec<SeatBid>>(members, "seatbid"@, value.seatbid);
        lemma_opt_field_round_trip::<String>(members, "bidid"@, value.bidid);
        lemma_opt_field_round_trip::<String>(members, "cur"@, value.cur);
        lemma_opt_field_round_trip::<String>(members, "customdata"@, value.customdata);
        lemma_opt_field_round_trip::<NoBidReason>(members, "nbr"@, value.nbr);
    }
}

impl BidResponse {
    /// What stands under each key on the wire: the wire form of the field of
    /// that name, whatever it holds, and nothing at all where the field is
    /// absent.
    pub proof fn lemma_written_fields(value: BidResponseView)
        ensures
            BidResponse::encode_spec(value) matches JsonView::Object(members) && {
                &&& raw_field(members, "id"@) == Some(String::encode_spec(value.id))
                &&& raw_field(members, "seatbid"@) == encode_opt::<Vec<SeatBid>>(value.seatbid)
                &&& raw_field(members, "bidid"@) == encode_opt::<String>(value.bidid)
                &&& raw_field(members, "cur"@) == encode_opt::<String>(value.cur)
                &&& raw_field(members, "customdata"@) == encode_opt::<String>(value.customdata)
                &&& raw_field(members, "nbr"@) == encode_opt::<NoBidReason>(value.nbr)
                &&& raw_field(members, "ext"@) == value.ext
            },
    {
        Members::lemma_lookup();
        reveal_strlit("id");
        reveal_strlit("seatbid");
        reveal_strlit("bidid");
        reveal_strlit("cur");
        reveal_strlit("customdata");
        reveal_strlit("nbr");
        reveal_strlit("ext");
        lemma_head("id"@);
        lemma_head("seatbid"@);
        lemma_head("bidid"@);
        lemma_head("cur"@);
        lemma_head("customdata"@);
        lemma_head("nbr"@);
        lemma_head("ext"@);
    }

    /// An optional field that is absent leaves no key on the wire, and a field
    /// that is present has its key, also where it holds zero, false or nothing.
    pub proof fn lemma_written_keys(value: BidResponseView)
        ensures
            BidResponse::encode_spec(value) matches JsonView::Object(members) && {
                &&& members.contains_key("id"@)
                &&& members.contains_key("seatbid"@) <==> value.seatbid is Some
                &&& members.contains_key("bidid"@) <==> value.bidid is Some
                &&& members.contains_key("cur"@) <==> value.cur is Some
                &&& members.contains_key("customdata"@) <==> value.customdata is Some
                &&& members.contains_key("nbr"@) <==> value.nbr is Some
                &&& members.contains_key("ext"@) <==> value.ext is Some
            },
    {
        BidResponse::lemma_written_fields(value);
    }
}

impl Record for BidResponse {
    open spec fn claims(key: Seq<char>) -> bool {
        ||| key == "id"@
        ||| key == "seatbid"@
        ||| key == "bidid"@
        ||| key == "cur"@
        ||| key == "customdata"@
        ||| key == "nbr"@
        ||| key == "ext"@
    }

    proof fn lemma_writes_claimed_keys(value: BidResponseView) {
        Members::lemma_lookup();
        let members = BidResponse::encode_spec(value)->Object_0;
        assert forall|key: Seq<char>| #[trigger] members.contains_key(key) implies BidResponse::claims(
            key,
        ) by {
            assert(raw_field(members, key) is Some);
        }
    }

    proof fn lemma_unclaimed_key_is_passed_over(
        members: Map<Seq<char>, JsonView>,
        key: Seq<char>,
        value: JsonView,
    ) {
        lemma_other_key::<String>(members, "id"@, key, value);
        lemma_other_key::<Vec<SeatBid>>(members, "seatbid"@, key, value);
        lemma_other_key::<String>(members, "bidid"@, key, value);
        lemma_other_key::<String>(members, "cur"@, key, value);
        lemma_other_key::<String>(members, "customdata"@, key, value);
        lemma_other_key::<NoBidReason>(members, "nbr"@, key, value);
        lemma_other_key_raw(members, "ext"@, key, value);
    }
}

/// The bids made on behalf of one buyer seat.
#[derive(Clone, Debug, PartialEq)]
pub struct SeatBid {
    /// Array of 1+ Bid objects (Section 4.2.3) each related to an impression. Multiple bids
    /// can relate to the same impression.
    pub bid: Vec<Bid>,
    /// ID of the buyer seat (e.g., advertiser, agency) on whose behalf this bid is made.
    /// This ID will be used to breakdown spend and invalid traffic metrics in IVT
    /// transparency reporting, given that it is no longer than 64 bytes.
    pub seat: Option<String>,
    /// false = impressions can be won individually; true = impressions must be won or lost
    /// as a group.
    pub group: Option<Bool>,
    /// Vendor extensions, carried as they are.
    pub ext: Option<Json>,
}

/// The mathematical value of a [`SeatBid`].
pub struct SeatBidView {
    pub bid: Seq<BidView>,
    pub seat: Option<Seq<char>>,
    pub group: Option<Bool>,
    pub ext: Option<JsonView>,
}

impl DeepView for SeatBid {
    type V = SeatBidView;

    open spec fn deep_view(&self) -> SeatBidView {
        SeatBidView {
            bid: self.bid.deep_view(),
            seat: opt_view(self.seat),
            group: opt_view(self.group),
            ext: opt_view(self.ext),
        }
    }
}

impl SeatBidView {
    /// The value in which every optional field is absent and every required
    /// field is empty or zero.
    pub open spec fn empty() -> SeatBidView {
        SeatBidView {
            bid: Seq::empty(),
            seat: None,
            group: None,
            ext: None,
        }
    }
}

impl Default for SeatBid {
    fn default() -> (value: SeatBid)
        ensures
            value.deep_view() == SeatBidView::empty(),
    {
        let value = SeatBid {
            bid: Vec::new(),
            seat: None,
            group: None,
            ext: None,
        };
        proof {
            reveal(opt_view);
            assert(value.bid.deep_view() =~= Seq::empty());
        }
        value
    }
}

impl Wire for SeatBid {
    open spec fn encode_spec(value: SeatBidView) -> JsonView {
        Members::empty()
            .with("bid"@, Vec::<Bid>::encode_spec(value.bid))
            .with_opt("seat"@, encode_opt::<String>(value.seat))
            .with_opt("group"@, encode_opt::<Bool>(value.group))
            .with_opt("ext"@, value.ext)
            .json()
    }

    open spec fn decode_spec(doc: JsonView) -> Result<SeatBidView, DecodeErrorView> {
        match doc {
            JsonView::Object(members) => {
                let bid = field::<Vec<Bid>>(members, "bid"@);
                let seat = opt_field::<String>(members, "seat"@);
                let group = opt_field::<Bool>(members, "group"@);
                let ext = raw_field(members, "ext"@);
                if bid is Err {
                    Err(bid->Err_0)
                } else if seat is Err {
                    Err(seat->Err_0)
                } else if group is Err {
                    Err(group->Err_0)
                } else {
                    Ok(
                        SeatBidView {
                            bid: bid->Ok_0,
                            seat: seat->Ok_0,
                            group: group->Ok_0,
                            ext,
                        },
                    )
                }
            },
            _ => wrong_type(),
        }
    }

    fn encode(&self) -> (doc: Json) {
        let mut object = ObjectWriter::new();
        object.field("bid", &self.bid);
        object.opt_field("seat", &self.seat);
        object.opt_field("group", &self.group);
        object.raw_field("ext", &self.ext);
        object.finish()
    }

    fn decode(doc: &Json) -> (result: Result<SeatBid, DecodeError>) {
        let members = read_members(doc)?;
        let bid = read_field::<Vec<Bid>>(members, "bid")?;
        let seat = read_opt_field::<String>(members, "seat")?;
        let group = read_opt_field::<Bool>(members, "group")?;
        let ext = read_raw_field(members, "ext");
        Ok(
            SeatBid {
                bid,
                seat,
                group,
                ext,
            },
        )
    }

    proof fn lemma_round_trip(value: SeatBidView) {
        SeatBid::lemma_written_fields(value);
        let members = SeatBid::encode_spec(value)->Object_0;
        lemma_field_round_trip::<Vec<Bid>>(members, "bid"@, value.bid);
        lemma_opt_field_round_trip::<String>(members, "seat"@, value.seat);
        lemma_opt_field_round_trip::<Bool>(members, "group"@, value.group);
    }
}

impl SeatBid {
    /// What stands under each key on the wire: the wire form of the field of
    /// that name, whatever it holds, and nothing at all where the field is
    /// absent.
    pub proof fn lemma_written_fields(value: SeatBidView)
        ensures
            SeatBid::encode_spec(value) matches JsonView::Object(members) && {
                &&& raw_field(members, "bid"@) == Some(Vec::<Bid>::encode_spec(value.bid))
                &&& raw_field(members, "seat"@) == encode_opt::<String>(value.seat)
                &&& raw_field(members, "group"@) == encode_opt::<Bool>(value.group)
                &&& raw_field(members, "ext"@) == value.ext
            },
    {
        Members::lemma_lookup();
        reveal_strlit("bid");
        reveal_strlit("seat");
        reveal_strlit("group");
        reveal_strlit("ext");
        lemma_head("bid"@);
        lemma_head("seat"@);
        lemma_head("group"@);
        lemma_head("ext"@);
    }

    /// An optional field that is absent leaves no key on the wire, and a field
    /// that is present has its key, also where it holds zero, false or nothing.
    pub proof fn lemma_written_keys(value: SeatBidView)
        ensures
            SeatBid::encode_spec(value) matches JsonView::Object(members) && {
                &&& members.contains_key("bid"@)
                &&& members.contains_key("seat"@) <==> value.seat is Some
                &&& members.contains_key("group"@) <==> value.group is Some
                &&& members.contains_key("ext"@) <==> value.ext is Some
            },
    {
        SeatBid::lemma_written_fields(value);
    }
}

impl Record for SeatBid {
    open spec fn claims(key: Seq<char>) -> bool {
        ||| key == "bid"@
        ||| key == "seat"@
        ||| key == "group"@
        ||| key == "ext"@
    }

    proof fn lemma_writes_claimed_keys(value: SeatBidView) {
        Members::lemma_lookup();
        let members = SeatBid::encode_spec(value)->Object_0;
        assert forall|key: Seq<char>| #[trigger] members.contains_key(key) implies SeatBid::claims(
            key,
        ) by {
            assert(raw_field(members, key) is Some);
        }
    }

    proof fn lemma_unclaimed_key_is_passed_over(
        members: Map<Seq<char>, JsonView>,
        key: Seq<char>,
        value: JsonView,
    ) {
        lemma_other_key::<Vec<Bid>>(members, "bid"@, key, value);
        lemma_other_key::<String>(members, "seat"@, key, value);
        lemma_other_key::<Bool>(members, "group"@, key, value);
        lemma_other_key_raw(members, "ext"@, key, value);
    }
}

} // verus!
