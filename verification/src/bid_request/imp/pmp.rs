//! Private marketplace deals.

use crate::auction_type::AuctionType;
use crate::bool::Bool;
use crate::error::{DecodeError, DecodeErrorView};
use crate::json::{Json, JsonView, Number, NumberView};
use crate::object::{
    encode_opt, field, lemma_field_round_trip, lemma_opt_field_round_trip, lemma_other_key,
    lemma_other_key_raw, Members, ObjectWriter, opt_field, opt_view, raw_field, read_field,
    read_members, read_opt_field, read_raw_field, Record,
};
use crate::text::lemma_head;
use crate::wire::{Wire, wrong_type};
use vstd::prelude::*;

verus! {

/// The private marketplace: direct deals between buyers and sellers that may
/// pertain to an impression.
#[derive(Clone, Debug, PartialEq)]
pub struct Pmp {
    /// Indicator of auction eligibility to seats named in the Direct Deals object, where
    /// false = all bids are accepted, true = bids are restricted to the deals specified and
    /// the terms thereof.
    pub private_auction: Option<Bool>,
    /// Array of Deal (Section 3.2.18) objects that convey the specific deals applicable to
    /// this impression.
    pub deals: Option<Vec<Deal>>,
    /// Vendor extensions, carried as they are.
    pub ext: Option<Json>,
}

/// The mathematical value of a [`Pmp`].
pub struct PmpView {
    pub private_auction: Option<Bool>,
    pub deals: Option<Seq<DealView>>,
    pub ext: Option<JsonView>,
}

impl DeepView for Pmp {
    type V = PmpView;

    open spec fn deep_view(&self) -> PmpView {
        PmpView {
            private_auction: opt_view(self.private_auction),
            deals: opt_view(self.deals),
            ext: opt_view(self.ext),
        }
    }
}

impl PmpView {
    /// The value in which every optional field is absent and every required
    /// field is empty or zero.
    pub open spec fn empty() -> PmpView {
        PmpView {
            private_auction: None,
            deals: None,
            ext: None,
        }
    }
}

impl Default for Pmp {
    fn default() -> (value: Pmp)
        ensures
            value.deep_view() == PmpView::empty(),
    {
        let value = Pmp {
            private_auction: None,
            deals: None,
            ext: None,
        };
        proof {
            reveal(opt_view);
        }
        value
    }
}

impl Wire for Pmp {
    open spec fn encode_spec(value: PmpView) -> JsonView {
        Members::empty()
            .with_opt("private_auction"@, encode_opt::<Bool>(value.private_auction))
            .with_opt("deals"@, encode_opt::<Vec<Deal>>(value.deals))
            .with_opt("ext"@, value.ext)
            .json()
    }

    open spec fn decode_spec(doc: JsonView) -> Result<PmpView, DecodeErrorView> {
        match doc {
            JsonView::Object(members) => {
                let private_auction = opt_field::<Bool>(members, "private_auction"@);
                let deals = opt_field::<Vec<Deal>>(members, "deals"@);
                let ext = raw_field(members, "ext"@);
                if private_auction is Err {
                    Err(private_auction->Err_0)
                } else if deals is Err {
                    Err(deals->Err_0)
                } else {
                    Ok(
                        PmpView {
                            private_auction: private_auction->Ok_0,
                            deals: deals->Ok_0,
                            ext,
                        },
                    )
                }
            },
            _ => wrong_type(),
        }
    }

    fn encode(&self) -> (doc: Json) {
        let mut object = ObjectWriter::new();
        object.opt_field("private_auction", &self.private_auction);
        object.opt_field("deals", &self.deals);
        object.raw_field("ext", &self.ext);
        object.finish()
    }

    fn decode(doc: &Json) -> (result: Result<Pmp, DecodeError>) {
        let members = read_members(doc)?;
        let private_auction = read_opt_field::<Bool>(members, "private_auction")?;
        let deals = read_opt_field::<Vec<Deal>>(members, "deals")?;
        let ext = read_raw_field(members, "ext");
        Ok(
            Pmp {
                private_auction,
                deals,
                ext,
            },
        )
    }

    proof fn lemma_round_trip(value: PmpView) {
        Pmp::lemma_written_fields(value);
        let members = Pmp::encode_spec(value)->Object_0;
        lemma_opt_field_round_trip::<Bool>(members, "private_auction"@, value.private_auction);
        lemma_opt_field_round_trip::<Vec<Deal>>(members, "deals"@, value.deals);
    }
}

impl Pmp {
    /// What stands under each key on the wire: the wire form of the field of
    /// that name, whatever it holds, and nothing at all where the field is
    /// absent.
    pub proof fn lemma_written_fields(value: PmpView)
        ensures
            Pmp::encode_spec(value) matches JsonView::Object(members) && {
                &&& raw_field(members, "private_auction"@)
                    == encode_opt::<Bool>(value.private_auction)
                &&& raw_field(members, "deals"@) == encode_opt::<Vec<Deal>>(value.deals)
                &&& raw_field(members, "ext"@) == value.ext
            },
    {
        Members::lemma_lookup();
        reveal_strlit("private_auction");
        reveal_strlit("deals");
        reveal_strlit("ext");
        lemma_head("private_auction"@);
        lemma_head("deals"@);
        lemma_head("ext"@);
    }

    /// An optional field that is absent leaves no key on the wire, and a field
    /// that is present has its key, also where it holds zero, false or nothing.
    pub proof fn lemma_written_keys(value: PmpView)
        ensures
            Pmp::encode_spec(value) matches JsonView::Object(members) && {
                &&& members.contains_key("private_auction"@) <==> value.private_auction is Some
                &&& members.contains_key("deals"@) <==> value.deals is Some
                &&& members.contains_key("ext"@) <==> value.ext is Some
            },
    {
        Pmp::lemma_written_fields(value);
    }
}

impl Record for Pmp {
    open spec fn claims(key: Seq<char>) -> bool {
        ||| key == "private_auction"@
        ||| key == "deals"@
        ||| key == "ext"@
    }

    proof fn lemma_writes_claimed_keys(value: PmpView) {
        Members::lemma_lookup();
        let members = Pmp::encode_spec(value)->Object_0;
        assert forall|key: Seq<char>| #[trigger] members.contains_key(key) implies Pmp::claims(
            key,
        ) by {
            assert(raw_field(members, key) is Some);
        }
    }

    proof fn lemma_unclaimed_key_is_passed_over(
        members: Map<Seq<char>, JsonView>,
        key: Seq<char>,
        value: JsonView,
    ) {
        lemma_other_key::<Bool>(members, "private_auction"@, key, value);
        lemma_other_key::<Vec<Deal>>(members, "deals"@, key, value);
        lemma_other_key_raw(members, "ext"@, key, value);
    }
}

/// A deal that a buyer and a seller struck beforehand.
#[derive(Clone, Debug, PartialEq)]
pub struct Deal {
    /// A unique identifier for the direct deal.
    pub id: String,
    /// Minimum bid for this impression expressed in CPM.
    pub bidfloor: Option<Number>,
    /// Currency specified using ISO-4217 alpha codes. This may be different from bid
    /// currency returned by bidder if this is allowed by the exchange.
    pub bidfloorcur: Option<String>,
    /// Allowlist of buyer seats (e.g., advertisers, agencies) that can bid on this deal.
    /// IDs of seats and knowledge of the buyer's customers to which they refer must be
    /// coordinated between bidders and the exchange a priori.
    pub wseat: Option<Vec<String>>,
    /// Array of advertiser domains (e.g., advertiser.com) allowed to bid on this deal.
    /// Omission implies no advertiser restrictions.
    pub wadomain: Option<Vec<String>>,
    /// Optional override of the overall auction type of the bid request, where 1 = First
    /// Price, 2 = Second Price Plus, 3 = the value passed in bidfloor is the agreed upon
    /// deal price.
    pub at: Option<AuctionType>,
    /// Vendor extensions, carried as they are.
    pub ext: Option<Json>,
}

/// The mathematical value of a [`Deal`].
pub struct DealView {
    pub id: Seq<char>,
    pub bidfloor: Option<NumberView>,
    pub bidfloorcur: Option<Seq<char>>,
    pub wseat: Option<Seq<Seq<char>>>,
    pub wadomain: Option<Seq<Seq<char>>>,
    pub at: Option<u32>,
    pub ext: Option<JsonView>,
}

impl DeepView for Deal {
    type V = DealView;

    open spec fn deep_view(&self) -> DealView {
        DealView {
            id: self.id.deep_view(),
            bidfloor: opt_view(self.bidfloor),
            bidfloorcur: opt_view(self.bidfloorcur),
            wseat: opt_view(self.wseat),
            wadomain: opt_view(self.wadomain),
            at: opt_view(self.at),
            ext: opt_view(self.ext),
        }
    }
}

impl DealView {
    /// The value in which every optional field is absent and every required
    /// field is empty or zero.
    pub open spec fn empty() -> DealView {
        DealView {
            id: Seq::empty(),
            bidfloor: None,
            bidfloorcur: None,
            wseat: None,
            wadomain: None,
            at: None,
            ext: None,
        }
    }
}

impl Default for Deal {
    fn default() -> (value: Deal)
        ensures
            value.deep_view() == DealView::empty(),
    {
        let value = Deal {
            id: String::new(),
            bidfloor: None,
            bidfloorcur: None,
            wseat: None,
            wadomain: None,
            at: None,
            ext: None,
        };
        proof {
            reveal(opt_view);
        }
        value
    }
}

impl Wire for Deal {
    open spec fn encode_spec(value: DealView) -> JsonView {
        Members::empty()
            .with("id"@, String::encode_spec(value.id))
            .with_opt("bidfloor"@, encode_opt::<Number>(value.bidfloor))
            .with_opt("bidfloorcur"@, encode_opt::<String>(value.bidfloorcur))
            .with_opt("wseat"@, encode_opt::<Vec<String>>(value.wseat))
            .with_opt("wadomain"@, encode_opt::<Vec<String>>(value.wadomain))
            .with_opt("at"@, encode_opt::<AuctionType>(value.at))
            .with_opt("ext"@, value.ext)
            .json()
    }

    open spec fn decode_spec(doc: JsonView) -> Result<DealView, DecodeErrorView> {
        match doc {
            JsonView::Object(members) => {
                let id = field::<String>(members, "id"@);
                let bidfloor = opt_field::<Number>(members, "bidfloor"@);
                let bidfloorcur = opt_field::<String>(members, "bidfloorcur"@);
                let wseat = opt_field::<Vec<String>>(members, "wseat"@);
                let wadomain = opt_field::<Vec<String>>(members, "wadomain"@);
                let at = opt_field::<AuctionType>(members, "at"@);
                let ext = raw_field(members, "ext"@);
                if id is Err {
                    Err(id->Err_0)
                } else if bidfloor is Err {
                    Err(bidfloor->Err_0)
                } else if bidfloorcur is Err {
                    Err(bidfloorcur->Err_0)
                } else if wseat is Err {
                    Err(wseat->Err_0)
                } else if wadomain is Err {
                    Err(wadomain->Err_0)
                } else if at is Err {
                    Err(at->Err_0)
                } else {
                    Ok(
                        DealView {
                            id: id->Ok_0,
                            bidfloor: bidfloor->Ok_0,
                            bidfloorcur: bidfloorcur->Ok_0,
                            wseat: wseat->Ok_0,
                            wadomain: wadomain->Ok_0,
                            at: at->Ok_0,
                            ext,
                        },
                    )
                }
            },
            _ => wrong_type(),
        }
    }

    fn encode(&self) -> (doc: Json) {
        let mut object = ObjectWriter::new();
        object.field("id", &self.id);
        object.opt_field("bidfloor", &self.bidfloor);
        object.opt_field("bidfloorcur", &self.bidfloorcur);
        object.opt_field("wseat", &self.wseat);
        object.opt_field("wadomain", &self.wadomain);
        object.opt_field("at", &self.at);
        object.raw_field("ext", &self.ext);
        object.finish()
    }

    fn decode(doc: &Json) -> (result: Result<Deal, DecodeError>) {
        let members = read_members(doc)?;
        let id = read_field::<String>(members, "id")?;
        let bidfloor = read_opt_field::<Number>(members, "bidfloor")?;
        let bidfloorcur = read_opt_field::<String>(members, "bidfloorcur")?;
        let wseat = read_opt_field::<Vec<String>>(members, "wseat")?;
        let wadomain = read_opt_field::<Vec<String>>(members, "wadomain")?;
        let at = read_opt_field::<AuctionType>(members, "at")?;
        let ext = read_raw_field(members, "ext");
        Ok(
            Deal {
                id,
                bidfloor,
                bidfloorcur,
                wseat,
                wadomain,
                at,
                ext,
            },
        )
    }

    proof fn lemma_round_trip(value: DealView) {
        Deal::lemma_written_fields(value);
        let members = Deal::encode_spec(value)->Object_0;
        lemma_field_round_trip::<String>(members, "id"@, value.id);
        lemma_opt_field_round_trip::<Number>(members, "bidfloor"@, value.bidfloor);
        lemma_opt_field_round_trip::<String>(members, "bidfloorcur"@, value.bidfloorcur);
        lemma_opt_field_round_trip::<Vec<String>>(members, "wseat"@, value.wseat);
        lemma_opt_field_round_trip::<Vec<String>>(members, "wadomain"@, value.wadomain);
        lemma_opt_field_round_trip::<AuctionType>(members, "at"@, value.at);
    }
}

impl Deal {
    /// What stands under each key on the wire: the wire form of the field of
    /// that name, whatever it holds, and nothing at all where the field is
    /// absent.
    pub proof fn lemma_written_fields(value: DealView)
        ensures
            Deal::encode_spec(value) matches JsonView::Object(members) && {
                &&& raw_field(members, "id"@) == Some(String::encode_spec(value.id))
                &&& raw_field(members, "bidfloor"@) == encode_opt::<Number>(value.bidfloor)
                &&& raw_field(members, "bidfloorcur"@) == encode_opt::<String>(value.bidfloorcur)
                &&& raw_field(members, "wseat"@) == encode_opt::<Vec<String>>(value.wseat)
                &&& raw_field(members, "wadomain"@) == encode_opt::<Vec<String>>(value.wadomain)
                &&& raw_field(members, "at"@) == encode_opt::<AuctionType>(value.at)
                &&& raw_field(members, "ext"@) == value.ext
            },
    {
        Members::lemma_lookup();
        reveal_strlit("id");
        reveal_strlit("bidfloor");
        reveal_strlit("bidfloorcur");
        reveal_strlit("wseat");
        reveal_strlit("wadomain");
        reveal_strlit("at");
        reveal_strlit("ext");
        lemma_head("id"@);
        lemma_head("bidfloor"@);
        lemma_head("bidfloorcur"@);
        lemma_head("wseat"@);
        lemma_head("wadomain"@);
        lemma_head("at"@);
        lemma_head("ext"@);
    }

    /// An optional field that is absent leaves no key on the wire, and a field
    /// that is present has its key, also where it holds zero, false or nothing.
    pub proof fn lemma_written_keys(value: DealView)
        ensures
            Deal::encode_spec(value) matches JsonView::Object(members) && {
                &&& members.contains_key("id"@)
                &&& members.contains_key("bidfloor"@) <==> value.bidfloor is Some
                &&& members.contains_key("bidfloorcur"@) <==> value.bidfloorcur is Some
                &&& members.contains_key("wseat"@) <==> value.wseat is Some
                &&& members.contains_key("wadomain"@) <==> value.wadomain is Some
                &&& members.contains_key("at"@) <==> value.at is Some
                &&& members.contains_key("ext"@) <==> value.ext is Some
            },
    {
        Deal::lemma_written_fields(value);
    }
}

impl Record for Deal {
    open spec fn claims(key: Seq<char>) -> bool {
        ||| key == "id"@
        ||| key == "bidfloor"@
        ||| key == "bidfloorcur"@
        ||| key == "wseat"@
        ||| key == "wadomain"@
        ||| key == "at"@
        ||| key == "ext"@
    }

    proof fn lemma_writes_claimed_keys(value: DealView) {
        Members::lemma_lookup();
        let members = Deal::encode_spec(value)->Object_0;
        assert forall|key: Seq<char>| #[trigger] members.contains_key(key) implies Deal::claims(
            key,
        ) by {
            assert(raw_field(members, key) is Some);
        }
    }

    proof fn lemma_unclaimed_key_is_passed_over(
        members: Map<Seq<char>, JsonView>,
        key: Seq<char>,
        value: JsonView,
    ) {
        lemma_other_key::<String>(members, "id"@, key, value);
        lemma_other_key::<Number>(members, "bidfloor"@, key, value);
        lemma_other_key::<String>(members, "bidfloorcur"@, key, value);
        lemma_other_key::<Vec<String>>(members, "wseat"@, key, value);
        lemma_other_key::<Vec<String>>(members, "wadomain"@, key, value);
        lemma_other_key::<AuctionType>(members, "at"@, key, value);
        lemma_other_key_raw(members, "ext"@, key, value);
    }
}

} // verus!
