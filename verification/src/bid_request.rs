//! The bid request and the objects that describe its context.

use crate::auction_type::AuctionType;
use crate::bool::Bool;
use crate::error::{DecodeError, DecodeErrorView};
use crate::json::{Json, JsonView};
use crate::object::{
    encode_opt, field, lemma_field_round_trip, lemma_opt_field_round_trip, lemma_other_key,
    lemma_other_key_raw, Members, ObjectWriter, opt_field, opt_view, raw_field, read_field,
    read_members, read_opt_field, read_raw_field, Record,
};
use crate::text::lemma_head;
use crate::wire::{Wire, wrong_type};
use vstd::prelude::*;

pub mod data;
pub mod imp;

mod content;
mod device;
mod inventory;
mod user;

pub use content::{Content, ContentView, Producer, ProducerView};
pub use data::{Data, DataView};
pub use device::{Device, DeviceView, Geo, GeoView};
pub use imp::{Imp, ImpView};
pub use inventory::{App, AppView, Publisher, PublisherView, Site, SiteView};
pub use user::{User, UserView};

verus! {

/// A bid request: one auction, with the impressions on offer and the rules that
/// hold for all of them.
///
/// Of `site` and `app` at most one should be present, according to whether the
/// media is a website or an application. This type does not enforce that.
#[derive(Clone, Debug, PartialEq)]
pub struct BidRequest {
    /// Unique ID of the bid request, provided by the exchange.
    pub id: String,
    /// Array of Imp objects (Section 3.2.2) representing the impressions offered. At least
    /// 1 Imp object is required.
    pub imp: Vec<Imp>,
    /// Details via a Device object (Section 3.2.11) about the user's device to which the
    /// impression will be delivered.
    pub device: Option<Device>,
    /// A Regs object (Section 3.2.16) that specifies any industry, legal, or governmental
    /// regulations in force for this request.
    pub regs: Option<Regs>,
    /// Details via a User object (Section 3.2.13) about the human user of the device; the
    /// advertising audience.
    pub user: Option<User>,
    /// Auction type, where 1 = First Price, 2 = Second Price Plus. Exchange-specific
    /// auction types can be defined using values > 500.
    pub at: Option<AuctionType>,
    /// Maximum time in milliseconds to submit a bid to avoid timeout. This value is
    /// commonly communicated offline.
    pub tmax: Option<i32>,
    /// Allowlist of buyer seats (e.g., advertisers, agencies) that can bid on this
    /// impression. IDs of seats and knowledge of the buyer's customers to which they refer
    /// must be coordinated between bidders and the exchange a priori.
    pub wseat: Option<Vec<String>>,
    /// Flag to indicate if Exchange can verify that the impressions offered represent all
    /// of the impressions available in context (e.g., all on the web page, all video spots
    /// such as pre/mid/post roll) to support road-blocking. false = no or unknown, true =
    /// yes, the impressions offered represent all that are available.
    pub allimps: Option<Bool>,
    /// Array of allowed currencies for bids on this bid request using ISO-4217 alpha codes.
    /// Recommended only if the exchange accepts multiple currencies.
    pub cur: Option<Vec<String>>,
    /// Blocked advertiser categories using the IAB content categories. Refer to enum
    /// ContentCategory.
    pub bcat: Option<Vec<String>>,
    /// Block list of advertisers by their domains (e.g., "ford.com").
    pub badv: Option<Vec<String>>,
    /// Block list of applications by their platform-specific exchange independent
    /// application identifiers. On Android, these should be bundle or package names (e.g.,
    /// com.foo.mygame).
    pub bapp: Option<Vec<String>>,
    /// Indicator of test mode in which auctions are not billable, where false = live mode,
    /// true = test mode.
    pub test: Option<Bool>,
    /// Block list of buyer seats (e.g., advertisers, agencies) restricted from bidding on
    /// this impression.
    pub bseat: Option<Vec<String>>,
    /// Allowlist of languages for creatives using ISO-639-1-alpha-2. Omission implies no
    /// specific restrictions, but buyers would be advised to consider language attribute in
    /// the Device and/or Content objects if available.
    pub wlang: Option<Vec<String>>,
    /// A Source object (Section 3.2.2) that provides data about the inventory source and
    /// which entity makes the final decision.
    pub source: Option<Source>,
    /// Details via a Site object (Section 3.2.6) about the publisher's website. Only
    /// applicable and recommended for websites.
    pub site: Option<Site>,
    /// Details via an App object (Section 3.2.7) about the publisher's app (non-browser
    /// applications). Only applicable and recommended for apps.
    pub app: Option<App>,
    /// Vendor extensions, carried as they are.
    pub ext: Option<Json>,
}

/// The mathematical value of a [`BidRequest`].
pub struct BidRequestView {
    pub id: Seq<char>,
    pub imp: Seq<ImpView>,
    pub device: Option<DeviceView>,
    pub regs: Option<RegsView>,
    pub user: Option<UserView>,
    pub at: Option<u32>,
    pub tmax: Option<i32>,
    pub wseat: Option<Seq<Seq<char>>>,
    pub allimps: Option<Bool>,
    pub cur: Option<Seq<Seq<char>>>,
    pub bcat: Option<Seq<Seq<char>>>,
    pub badv: Option<Seq<Seq<char>>>,
    pub bapp: Option<Seq<Seq<char>>>,
    pub test: Option<Bool>,
    pub bseat: Option<Seq<Seq<char>>>,
    pub wlang: Option<Seq<Seq<char>>>,
    pub source: Option<SourceView>,
    pub site: Option<SiteView>,
    pub app: Option<AppView>,
    pub ext: Option<JsonView>,
}

impl DeepView for BidRequest {
    type V = BidRequestView;

    open spec fn deep_view(&self) -> BidRequestView {
        BidRequestView {
            id: self.id.deep_view(),
            imp: self.imp.deep_view(),
            device: opt_view(self.device),
            regs: opt_view(self.regs),
            user: opt_view(self.user),
            at: opt_view(self.at),
            tmax: opt_view(self.tmax),
            wseat: opt_view(self.wseat),
            allimps: opt_view(self.allimps),
            cur: opt_view(self.cur),
            bcat: opt_view(self.bcat),
            badv: opt_view(self.badv),
            bapp: opt_view(self.bapp),
            test: opt_view(self.test),
            bseat: opt_view(self.bseat),
            wlang: opt_view(self.wlang),
            source: opt_view(self.source),
            site: opt_view(self.site),
            app: opt_view(self.app),
            ext: opt_view(self.ext),
        }
    }
}

impl BidRequestView {
    /// The value in which every optional field is absent and every required
    /// field is empty or zero.
    pub open spec fn empty() -> BidRequestView {
        BidRequestView {
            id: Seq::empty(),
            imp: Seq::empty(),
            device: None,
            regs: None,
            user: None,
            at: None,
            tmax: None,
            wseat: None,
            allimps: None,
            cur: None,
            bcat: None,
            badv: None,
            bapp: None,
            test: None,
            bseat: None,
            wlang: None,
            source: None,
            site: None,
            app: None,
            ext: None,
        }
    }
}

impl Default for BidRequest {
    fn default() -> (value: BidRequest)
        ensures
            value.deep_view() == BidRequestView::empty(),
    {
        let value = BidRequest {
            id: String::new(),
            imp: Vec::new(),
            device: None,
            regs: None,
            user: None,
            at: None,
            tmax: None,
            wseat: None,
            allimps: None,
            cur: None,
            bcat: None,
            badv: None,
            bapp: None,
            test: None,
            bseat: None,
            wlang: None,
            source: None,
            site: None,
            app: None,
            ext: None,
        };
        proof {
            reveal(opt_view);
            assert(value.imp.deep_view() =~= Seq::empty());
        }
        value
    }
}

impl Wire for BidRequest {
    open spec fn encode_spec(value: BidRequestView) -> JsonView {
        Members::empty()
            .with("id"@, String::encode_spec(value.id))
            .with("imp"@, Vec::<Imp>::encode_spec(value.imp))
            .with_opt("device"@, encode_opt::<Device>(value.device))
            .with_opt("regs"@, encode_opt::<Regs>(value.regs))
            .with_opt("user"@, encode_opt::<User>(value.user))
            .with_opt("at"@, encode_opt::<AuctionType>(value.at))
            .with_opt("tmax"@, encode_opt::<i32>(value.tmax))
            .with_opt("wseat"@, encode_opt::<Vec<String>>(value.wseat))
            .with_opt("allimps"@, encode_opt::<Bool>(value.allimps))
            .with_opt("cur"@, encode_opt::<Vec<String>>(value.cur))
            .with_opt("bcat"@, encode_opt::<Vec<String>>(value.bcat))
            .with_opt("badv"@, encode_opt::<Vec<String>>(value.badv))
            .with_opt("bapp"@, encode_opt::<Vec<String>>(value.bapp))
            .with_opt("test"@, encode_opt::<Bool>(value.test))
            .with_opt("bseat"@, encode_opt::<Vec<String>>(value.bseat))
            .with_opt("wlang"@, encode_opt::<Vec<String>>(value.wlang))
            .with_opt("source"@, encode_opt::<Source>(value.source))
            .with_opt("site"@, encode_opt::<Site>(value.site))
            .with_opt("app"@, encode_opt::<App>(value.app))
            .with_opt("ext"@, value.ext)
            .json()
    }

    open spec fn decode_spec(doc: JsonView) -> Result<BidRequestView, DecodeErrorView> {
        match doc {
            JsonView::Object(members) => {
                let id = field::<String>(members, "id"@);
                let imp = field::<Vec<Imp>>(members, "imp"@);
                let device = opt_field::<Device>(members, "device"@);
                let regs = opt_field::<Regs>(members, "regs"@);
                let user = opt_field::<User>(members, "user"@);
                let at = opt_field::<AuctionType>(members, "at"@);
                let tmax = opt_field::<i32>(members, "tmax"@);
                let wseat = opt_field::<Vec<String>>(members, "wseat"@);
                let allimps = opt_field::<Bool>(members, "allimps"@);
                let cur = opt_field::<Vec<String>>(members, "cur"@);
                let bcat = opt_field::<Vec<String>>(members, "bcat"@);
                let badv = opt_field::<Vec<String>>(members, "badv"@);
                let bapp = opt_field::<Vec<String>>(members, "bapp"@);
                let test = opt_field::<Bool>(members, "test"@);
                let bseat = opt_field::<Vec<String>>(members, "bseat"@);
                let wlang = opt_field::<Vec<String>>(members, "wlang"@);
                let source = opt_field::<Source>(members, "source"@);
                let site = opt_field::<Site>(members, "site"@);
                let app = opt_field::<App>(members, "app"@);
                let ext = raw_field(members, "ext"@);
                if id is Err {
                    Err(id->Err_0)
                } else if imp is Err {
                    Err(imp->Err_0)
                } else if device is Err {
                    Err(device->Err_0)
                } else if regs is Err {
                    Err(regs->Err_0)
                } else if user is Err {
                    Err(user->Err_0)
                } else if at is Err {
                    Err(at->Err_0)
                } else if tmax is Err {
                    Err(tmax->Err_0)
                } else if wseat is Err {
                    Err(wseat->Err_0)
                } else if allimps is Err {
                    Err(allimps->Err_0)
                } else if cur is Err {
                    Err(cur->Err_0)
                } else if bcat is Err {
                    Err(bcat->Err_0)
                } else if badv is Err {
                    Err(badv->Err_0)
                } else if bapp is Err {
                    Err(bapp->Err_0)
                } else if test is Err {
                    Err(test->Err_0)
                } else if bseat is Err {
                    Err(bseat->Err_0)
                } else if wlang is Err {
                    Err(wlang->Err_0)
                } else if source is Err {
                    Err(source->Err_0)
                } else if site is Err {
                    Err(site->Err_0)
                } else if app is Err {
                    Err(app->Err_0)
                } else {
                    Ok(
                        BidRequestView {
                            id: id->Ok_0,
                            imp: imp->Ok_0,
                            device: device->Ok_0,
                            regs: regs->Ok_0,
                            user: user->Ok_0,
                            at: at->Ok_0,
                            tmax: tmax->Ok_0,
                            wseat: wseat->Ok_0,
                            allimps: allimps->Ok_0,
                            cur: cur->Ok_0,
                            bcat: bcat->Ok_0,
                            badv: badv->Ok_0,
                            bapp: bapp->Ok_0,
                            test: test->Ok_0,
                            bseat: bseat->Ok_0,
                            wlang: wlang->Ok_0,
                            source: source->Ok_0,
                            site: site->Ok_0,
                            app: app->Ok_0,
                            ext,
                        },
                    )
                }
            },
            _ => wrong_type(),
        }
    }

    fn encode(&self) -> (doc: Json) {
        let mut object = ObjectWriter::new();
        object.field("id", &self.id);
        object.field("imp", &self.imp);
        object.opt_field("device", &self.device);
        object.opt_field("regs", &self.regs);
        object.opt_field("user", &self.user);
        object.opt_field("at", &self.at);
        object.opt_field("tmax", &self.tmax);
        object.opt_field("wseat", &self.wseat);
        object.opt_field("allimps", &self.allimps);
        object.opt_field("cur", &self.cur);
        object.opt_field("bcat", &self.bcat);
        object.opt_field("badv", &self.badv);
        object.opt_field("bapp", &self.bapp);
        object.opt_field("test", &self.test);
        object.opt_field("bseat", &self.bseat);
        object.opt_field("wlang", &self.wlang);
        object.opt_field("source", &self.source);
        object.opt_field("site", &self.site);
        object.opt_field("app", &self.app);
        object.raw_field("ext", &self.ext);
        object.finish()
    }

    fn decode(doc: &Json) -> (result: Result<BidRequest, DecodeError>) {
        let members = read_members(doc)?;
        let id = read_field::<String>(members, "id")?;
        let imp = read_field::<Vec<Imp>>(members, "imp")?;
        let device = read_opt_field::<Device>(members, "device")?;
        let regs = read_opt_field::<Regs>(members, "regs")?;
        let user = read_opt_field::<User>(members, "user")?;
        let at = read_opt_field::<AuctionType>(members, "at")?;
        let tmax = read_opt_field::<i32>(members, "tmax")?;
        let wseat = read_opt_field::<Vec<String>>(members, "wseat")?;
        let allimps = read_opt_field::<Bool>(members, "allimps")?;
        let cur = read_opt_field::<Vec<String>>(members, "cur")?;
        let bcat = read_opt_field::<Vec<String>>(members, "bcat")?;
        let badv = read_opt_field::<Vec<String>>(members, "badv")?;
        let bapp = read_opt_field::<Vec<String>>(members, "bapp")?;
        let test = read_opt_field::<Bool>(members, "test")?;
        let bseat = read_opt_field::<Vec<String>>(members, "bseat")?;
        let wlang = read_opt_field::<Vec<String>>(members, "wlang")?;
        let source = read_opt_field::<Source>(members, "source")?;
        let site = read_opt_field::<Site>(members, "site")?;
        let app = read_opt_field::<App>(members, "app")?;
        let ext = read_raw_field(members, "ext");
        Ok(
            BidRequest {
                id,
                imp,
                device,
                regs,
                user,
                at,
                tmax,
                wseat,
                allimps,
                cur,
                bcat,
                badv,
                bapp,
                test,
                bseat,
                wlang,
                source,
                site,
                app,
                ext,
            },
        )
    }

    proof fn lemma_round_trip(value: BidRequestView) {
        BidRequest::lemma_written_fields(value);
        let members = BidRequest::encode_spec(value)->Object_0;
        lemma_field_round_trip::<String>(members, "id"@, value.id);
        lemma_field_round_trip::<Vec<Imp>>(members, "imp"@, value.imp);
        lemma_opt_field_round_trip::<Device>(members, "device"@, value.device);
        lemma_opt_field_round_trip::<Regs>(members, "regs"@, value.regs);
        lemma_opt_field_round_trip::<User>(members, "user"@, value.user);
        lemma_opt_field_round_trip::<AuctionType>(members, "at"@, value.at);
        lemma_opt_field_round_trip::<i32>(members, "tmax"@, value.tmax);
        lemma_opt_field_round_trip::<Vec<String>>(members, "wseat"@, value.wseat);
        lemma_opt_field_round_trip::<Bool>(members, "allimps"@, value.allimps);
        lemma_opt_field_round_trip::<Vec<String>>(members, "cur"@, value.cur);
        lemma_opt_field_round_trip::<Vec<String>>(members, "bcat"@, value.bcat);
        lemma_opt_field_round_trip::<Vec<String>>(members, "badv"@, value.badv);
        lemma_opt_field_round_trip::<Vec<String>>(members, "bapp"@, value.bapp);
        lemma_opt_field_round_trip::<Bool>(members, "test"@, value.test);
        lemma_opt_field_round_trip::<Vec<String>>(members, "bseat"@, value.bseat);
        lemma_opt_field_round_trip::<Vec<String>>(members, "wlang"@, value.wlang);
        lemma_opt_field_round_trip::<Source>(members, "source"@, value.source);
        lemma_opt_field_round_trip::<Site>(members, "site"@, value.site);
        lemma_opt_field_round_trip::<App>(members, "app"@, value.app);
    }
}

impl BidRequest {
    /// What stands under each key on the wire: the wire form of the field of
    /// that name, whatever it holds, and nothing at all where the field is
    /// absent.
    pub proof fn lemma_written_fields(value: BidRequestView)
        ensures
            BidRequest::encode_spec(value) matches JsonView::Object(members) && {
                &&& raw_field(members, "id"@) == Some(String::encode_spec(value.id))
                &&& raw_field(members, "imp"@) == Some(Vec::<Imp>::encode_spec(value.imp))
                &&& raw_field(members, "device"@) == encode_opt::<Device>(value.device)
                &&& raw_field(members, "regs"@) == encode_opt::<Regs>(value.regs)
                &&& raw_field(members, "user"@) == encode_opt::<User>(value.user)
                &&& raw_field(members, "at"@) == encode_opt::<AuctionType>(value.at)
                &&& raw_field(members, "tmax"@) == encode_opt::<i32>(value.tmax)
                &&& raw_field(members, "wseat"@) == encode_opt::<Vec<String>>(value.wseat)
                &&& raw_field(members, "allimps"@) == encode_opt::<Bool>(value.allimps)
                &&& raw_field(members, "cur"@) == encode_opt::<Vec<String>>(value.cur)
                &&& raw_field(members, "bcat"@) == encode_opt::<Vec<String>>(value.bcat)
                &&& raw_field(members, "badv"@) == encode_opt::<Vec<String>>(value.badv)
                &&& raw_field(members, "bapp"@) == encode_opt::<Vec<String>>(value.bapp)
                &&& raw_field(members, "test"@) == encode_opt::<Bool>(value.test)
                &&& raw_field(members, "bseat"@) == encode_opt::<Vec<String>>(value.bseat)
                &&& raw_field(members, "wlang"@) == encode_opt::<Vec<String>>(value.wlang)
                &&& raw_field(members, "source"@) == encode_opt::<Source>(value.source)
                &&& raw_field(members, "site"@) == encode_opt::<Site>(value.site)
                &&& raw_field(members, "app"@) == encode_opt::<App>(value.app)
                &&& raw_field(members, "ext"@) == value.ext
            },
    {
        Members::lemma_lookup();
        reveal_strlit("id");
        reveal_strlit("imp");
        reveal_strlit("device");
        reveal_strlit("regs");
        reveal_strlit("user");
        reveal_strlit("at");
        reveal_strlit("tmax");
        reveal_strlit("wseat");
        reveal_strlit("allimps");
        reveal_strlit("cur");
        reveal_strlit("bcat");
        reveal_strlit("badv");
        reveal_strlit("bapp");
        reveal_strlit("test");
        reveal_strlit("bseat");
        reveal_strlit("wlang");
        reveal_strlit("source");
        reveal_strlit("site");
        reveal_strlit("app");
        reveal_strlit("ext");
        lemma_head("id"@);
        lemma_head("imp"@);
        lemma_head("device"@);
        lemma_head("regs"@);
        lemma_head("user"@);
        lemma_head("at"@);
        lemma_head("tmax"@);
        lemma_head("wseat"@);
        lemma_head("allimps"@);
        lemma_head("cur"@);
        lemma_head("bcat"@);
        lemma_head("badv"@);
        lemma_head("bapp"@);
        lemma_head("test"@);
        lemma_head("bseat"@);
        lemma_head("wlang"@);
        lemma_head("source"@);
        lemma_head("site"@);
        lemma_head("app"@);
        lemma_head("ext"@);
    }

    /// An optional field that is absent leaves no key on the wire, and a field
    /// that is present has its key, also where it holds zero, false or nothing.
    pub proof fn lemma_written_keys(value: BidRequestView)
        ensures
            BidRequest::encode_spec(value) matches JsonView::Object(members) && {
                &&& members.contains_key("id"@)
                &&& members.contains_key("imp"@)
                &&& members.contains_key("device"@) <==> value.device is Some
                &&& members.contains_key("regs"@) <==> value.regs is Some
                &&& members.contains_key("user"@) <==> value.user is Some
                &&& members.contains_key("at"@) <==> value.at is Some
                &&& members.contains_key("tmax"@) <==> value.tmax is Some
                &&& members.contains_key("wseat"@) <==> value.wseat is Some
                &&& members.contains_key("allimps"@) <==> value.allimps is Some
                &&& members.contains_key("cur"@) <==> value.cur is Some
                &&& members.contains_key("bcat"@) <==> value.bcat is Some
                &&& members.contains_key("badv"@) <==> value.badv is Some
                &&& members.contains_key("bapp"@) <==> value.bapp is Some
                &&& members.contains_key("test"@) <==> value.test is Some
                &&& members.contains_key("bseat"@) <==> value.bseat is Some
                &&& members.contains_key("wlang"@) <==> value.wlang is Some
                &&& members.contains_key("source"@) <==> value.source is Some
                &&& members.contains_key("site"@) <==> value.site is Some
                &&& members.contains_key("app"@) <==> value.app is Some
                &&& members.contains_key("ext"@) <==> value.ext is Some
            },
    {
        BidRequest::lemma_written_fields(value);
    }
}

impl Record for BidRequest {
    open spec fn claims(key: Seq<char>) -> bool {
        ||| key == "id"@
        ||| key == "imp"@
        ||| key == "device"@
        ||| key == "regs"@
        ||| key == "user"@
        ||| key == "at"@
        ||| key == "tmax"@
        ||| key == "wseat"@
        ||| key == "allimps"@
        ||| key == "cur"@
        ||| key == "bcat"@
        ||| key == "badv"@
        ||| key == "bapp"@
        ||| key == "test"@
        ||| key == "bseat"@
        ||| key == "wlang"@
        ||| key == "source"@
        ||| key == "site"@
        ||| key == "app"@
        ||| key == "ext"@
    }

    proof fn lemma_writes_claimed_keys(value: BidRequestView) {
        Members::lemma_lookup();
        let members = BidRequest::encode_spec(value)->Object_0;
        assert forall|key: Seq<char>| #[trigger] members.contains_key(key) implies BidRequest::claims(
            key,
        ) by {
            assert(raw_field(members, key) is Some);
        }
    }

    proof fn lemma_unclaimed_key_is_passed_over(
        members: Map<Seq<char>, JsonView>,
        key: Seq<char>,
        value: JsonView,
    ) {
        lemma_other_key::<String>(members, "id"@, key, value);
        lemma_other_key::<Vec<Imp>>(members, "imp"@, key, value);
        lemma_other_key::<Device>(members, "device"@, key, value);
        lemma_other_key::<Regs>(members, "regs"@, key, value);
        lemma_other_key::<User>(members, "user"@, key, value);
        lemma_other_key::<AuctionType>(members, "at"@, key, value);
        lemma_other_key::<i32>(members, "tmax"@, key, value);
        lemma_other_key::<Vec<String>>(members, "wseat"@, key, value);
        lemma_other_key::<Bool>(members, "allimps"@, key, value);
        lemma_other_key::<Vec<String>>(members, "cur"@, key, value);
        lemma_other_key::<Vec<String>>(members, "bcat"@, key, value);
        lemma_other_key::<Vec<String>>(members, "badv"@, key, value);
        lemma_other_key::<Vec<String>>(members, "bapp"@, key, value);
        lemma_other_key::<Bool>(members, "test"@, key, value);
        lemma_other_key::<Vec<String>>(members, "bseat"@, key, value);
        lemma_other_key::<Vec<String>>(members, "wlang"@, key, value);
        lemma_other_key::<Source>(members, "source"@, key, value);
        lemma_other_key::<Site>(members, "site"@, key, value);
        lemma_other_key::<App>(members, "app"@, key, value);
        lemma_other_key_raw(members, "ext"@, key, value);
    }
}

/// The entity upstream of the exchange from which the request comes, and who
/// makes the final decision on the sale.
#[derive(Clone, Debug, PartialEq)]
pub struct Source {
    /// Entity responsible for the final impression sale decision, where false = exchange,
    /// true = upstream source.
    pub fd: Option<Bool>,
    /// Transaction ID that must be common across all participants in this bid request
    /// (e.g., potentially multiple exchanges).
    pub tid: Option<String>,
    /// Payment ID chain string containing embedded syntax described in the TAG Payment ID
    /// Protocol v1.0.
    pub pchain: Option<String>,
    /// Vendor extensions, carried as they are.
    pub ext: Option<Json>,
}

/// The mathematical value of a [`Source`].
pub struct SourceView {
    pub fd: Option<Bool>,
    pub tid: Option<Seq<char>>,
    pub pchain: Option<Seq<char>>,
    pub ext: Option<JsonView>,
}

impl DeepView for Source {
    type V = SourceView;

    open spec fn deep_view(&self) -> SourceView {
        SourceView {
            fd: opt_view(self.fd),
            tid: opt_view(self.tid),
            pchain: opt_view(self.pchain),
            ext: opt_view(self.ext),
        }
    }
}

impl SourceView {
    /// The value in which every optional field is absent and every required
    /// field is empty or zero.
    pub open spec fn empty() -> SourceView {
        SourceView {
            fd: None,
            tid: None,
            pchain: None,
            ext: None,
        }
    }
}

impl Default for Source {
    fn default() -> (value: Source)
        ensures
            value.deep_view() == SourceView::empty(),
    {
        let value = Source {
            fd: None,
            tid: None,
            pchain: None,
            ext: None,
        };
        proof {
            reveal(opt_view);
        }
        value
    }
}

impl Wire for Source {
    open spec fn encode_spec(value: SourceView) -> JsonView {
        Members::empty()
            .with_opt("fd"@, encode_opt::<Bool>(value.fd))
            .with_opt("tid"@, encode_opt::<String>(value.tid))
            .with_opt("pchain"@, encode_opt::<String>(value.pchain))
            .with_opt("ext"@, value.ext)
            .json()
    }

    open spec fn decode_spec(doc: JsonView) -> Result<SourceView, DecodeErrorView> {
        match doc {
            JsonView::Object(members) => {
                let fd = opt_field::<Bool>(members, "fd"@);
                let tid = opt_field::<String>(members, "tid"@);
                let pchain = opt_field::<String>(members, "pchain"@);
                let ext = raw_field(members, "ext"@);
                if fd is Err {
                    Err(fd->Err_0)
                } else if tid is Err {
                    Err(tid->Err_0)
                } else if pchain is Err {
                    Err(pchain->Err_0)
                } else {
                    Ok(
                        SourceView {
                            fd: fd->Ok_0,
                            tid: tid->Ok_0,
                            pchain: pchain->Ok_0,
                            ext,
                        },
                    )
                }
            },
            _ => wrong_type(),
        }
    }

    fn encode(&self) -> (doc: Json) {
        let mut object = ObjectWriter::new();
        object.opt_field("fd", &self.fd);
        object.opt_field("tid", &self.tid);
        object.opt_field("pchain", &self.pchain);
        object.raw_field("ext", &self.ext);
        object.finish()
    }

    fn decode(doc: &Json) -> (result: Result<Source, DecodeError>) {
        let members = read_members(doc)?;
        let fd = read_opt_field::<Bool>(members, "fd")?;
        let tid = read_opt_field::<String>(members, "tid")?;
        let pchain = read_opt_field::<String>(members, "pchain")?;
        let ext = read_raw_field(members, "ext");
        Ok(
            Source {
                fd,
                tid,
                pchain,
                ext,
            },
        )
    }

    proof fn lemma_round_trip(value: SourceView) {
        Source::lemma_written_fields(value);
        let members = Source::encode_spec(value)->Object_0;
        lemma_opt_field_round_trip::<Bool>(members, "fd"@, value.fd);
        lemma_opt_field_round_trip::<String>(members, "tid"@, value.tid);
        lemma_opt_field_round_trip::<String>(members, "pchain"@, value.pchain);
    }
}

impl Source {
    /// What stands under each key on the wire: the wire form of the field of
    /// that name, whatever it holds, and nothing at all where the field is
    /// absent.
    pub proof fn lemma_written_fields(value: SourceView)
        ensures
            Source::encode_spec(value) matches JsonView::Object(members) && {
                &&& raw_field(members, "fd"@) == encode_opt::<Bool>(value.fd)
                &&& raw_field(members, "tid"@) == encode_opt::<String>(value.tid)
                &&& raw_field(members, "pchain"@) == encode_opt::<String>(value.pchain)
                &&& raw_field(members, "ext"@) == value.ext
            },
    {
        Members::lemma_lookup();
        reveal_strlit("fd");
        reveal_strlit("tid");
        reveal_strlit("pchain");
        reveal_strlit("ext");
        lemma_head("fd"@);
        lemma_head("tid"@);
        lemma_head("pchain"@);
        lemma_head("ext"@);
    }

    /// An optional field that is absent leaves no key on the wire, and a field
    /// that is present has its key, also where it holds zero, false or nothing.
    pub proof fn lemma_written_keys(value: SourceView)
        ensures
            Source::encode_spec(value) matches JsonView::Object(members) && {
                &&& members.contains_key("fd"@) <==> value.fd is Some
                &&& members.contains_key("tid"@) <==> value.tid is Some
                &&& members.contains_key("pchain"@) <==> value.pchain is Some
                &&& members.contains_key("ext"@) <==> value.ext is Some
            },
    {
        Source::lemma_written_fields(value);
    }
}

impl Record for Source {
    open spec fn claims(key: Seq<char>) -> bool {
        ||| key == "fd"@
        ||| key == "tid"@
        ||| key == "pchain"@
        ||| key == "ext"@
    }

    proof fn lemma_writes_claimed_keys(value: SourceView) {
        Members::lemma_lookup();
        let members = Source::encode_spec(value)->Object_0;
        assert forall|key: Seq<char>| #[trigger] members.contains_key(key) implies Source::claims(
            key,
        ) by {
            assert(raw_field(members, key) is Some);
        }
    }

    proof fn lemma_unclaimed_key_is_passed_over(
        members: Map<Seq<char>, JsonView>,
        key: Seq<char>,
        value: JsonView,
    ) {
        lemma_other_key::<Bool>(members, "fd"@, key, value);
        lemma_other_key::<String>(members, "tid"@, key, value);
        lemma_other_key::<String>(members, "pchain"@, key, value);
        lemma_other_key_raw(members, "ext"@, key, value);
    }
}

/// Legal, governmental or industry regulations in force for a request.
#[derive(Clone, Debug, PartialEq)]
pub struct Regs {
    /// Flag indicating if this request is subject to the COPPA regulations established by
    /// the USA FTC.
    pub coppa: Option<Bool>,
    /// Vendor extensions, carried as they are.
    pub ext: Option<Json>,
}

/// The mathematical value of a [`Regs`].
pub struct RegsView {
    pub coppa: Option<Bool>,
    pub ext: Option<JsonView>,
}

impl DeepView for Regs {
    type V = RegsView;

    open spec fn deep_view(&self) -> RegsView {
        RegsView {
            coppa: opt_view(self.coppa),
            ext: opt_view(self.ext),
        }
    }
}

impl RegsView {
    /// The value in which every optional field is absent and every required
    /// field is empty or zero.
    pub open spec fn empty() -> RegsView {
        RegsView {
            coppa: None,
            ext: None,
        }
    }
}

impl Default for Regs {
    fn default() -> (value: Regs)
        ensures
            value.deep_view() == RegsView::empty(),
    {
        let value = Regs {
            coppa: None,
            ext: None,
        };
        proof {
            reveal(opt_view);
        }
        value
    }
}

impl Wire for Regs {
    open spec fn encode_spec(value: RegsView) -> JsonView {
        Members::empty()
            .with_opt("coppa"@, encode_opt::<Bool>(value.coppa))
            .with_opt("ext"@, value.ext)
            .json()
    }

    open spec fn decode_spec(doc: JsonView) -> Result<RegsView, DecodeErrorView> {
        match doc {
            JsonView::Object(members) => {
                let coppa = opt_field::<Bool>(members, "coppa"@);
                let ext = raw_field(members, "ext"@);
                if coppa is Err {
                    Err(coppa->Err_0)
                } else {
                    Ok(
                        RegsView {
                            coppa: coppa->Ok_0,
                            ext,
                        },
                    )
                }
            },
            _ => wrong_type(),
        }
    }

    fn encode(&self) -> (doc: Json) {
        let mut object = ObjectWriter::new();
        object.opt_field("coppa", &self.coppa);
        object.raw_field("ext", &self.ext);
        object.finish()
    }

    fn decode(doc: &Json) -> (result: Result<Regs, DecodeError>) {
        let members = read_members(doc)?;
        let coppa = read_opt_field::<Bool>(members, "coppa")?;
        let ext = read_raw_field(members, "ext");
        Ok(
            Regs {
                coppa,
                ext,
            },
        )
    }

    proof fn lemma_round_trip(value: RegsView) {
        Regs::lemma_written_fields(value);
        let members = Regs::encode_spec(value)->Object_0;
        lemma_opt_field_round_trip::<Bool>(members, "coppa"@, value.coppa);
    }
}

impl Regs {
    /// What stands under each key on the wire: the wire form of the field of
    /// that name, whatever it holds, and nothing at all where the field is
    /// absent.
    pub proof fn lemma_written_fields(value: RegsView)
        ensures
            Regs::encode_spec(value) matches JsonView::Object(members) && {
                &&& raw_field(members, "coppa"@) == encode_opt::<Bool>(value.coppa)
                &&& raw_field(members, "ext"@) == value.ext
            },
    {
        Members::lemma_lookup();
        reveal_strlit("coppa");
        reveal_strlit("ext");
        lemma_head("coppa"@);
        lemma_head("ext"@);
    }

    /// An optional field that is absent leaves no key on the wire, and a field
    /// that is present has its key, also where it holds zero, false or nothing.
    pub proof fn lemma_written_keys(value: RegsView)
        ensures
            Regs::encode_spec(value) matches JsonView::Object(members) && {
                &&& members.contains_key("coppa"@) <==> value.coppa is Some
                &&& members.contains_key("ext"@) <==> value.ext is Some
            },
    {
        Regs::lemma_written_fields(value);
    }
}

impl Record for Regs {
    open spec fn claims(key: Seq<char>) -> bool {
        ||| key == "coppa"@
        ||| key == "ext"@
    }

    proof fn lemma_writes_claimed_keys(value: RegsView) {
        Members::lemma_lookup();
        let members = Regs::encode_spec(value)->Object_0;
        assert forall|key: Seq<char>| #[trigger] members.contains_key(key) implies Regs::claims(
            key,
        ) by {
            assert(raw_field(members, key) is Some);
        }
    }

    proof fn lemma_unclaimed_key_is_passed_over(
        members: Map<Seq<char>, JsonView>,
        key: Seq<char>,
        value: JsonView,
    ) {
        lemma_other_key::<Bool>(members, "coppa"@, key, value);
        lemma_other_key_raw(members, "ext"@, key, value);
    }
}

} // verus!
