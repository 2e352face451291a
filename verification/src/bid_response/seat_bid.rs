//! A single bid.

use crate::error::{DecodeError, DecodeErrorView};
use crate::json::{Json, JsonView, Number, NumberView};
use crate::native_response::{NativeResponse, NativeResponseView};
use crate::object::{
    encode_opt, field, lemma_field_round_trip, lemma_opt_field_round_trip, lemma_other_key,
    lemma_other_key_raw, Members, ObjectWriter, opt_field, opt_view, raw_field, read_field,
    read_members, read_opt_field, read_raw_field, Record,
};
use crate::text::lemma_head;
use crate::vocabulary::context::QagMediaRating;
use crate::vocabulary::creative::{ApiFramework, CreativeAttribute};
use crate::vocabulary::media::Protocol;
use crate::wire::{Wire, wrong_type};
use vstd::prelude::*;

verus! {

/// An offer to buy one impression of the request at a price.
#[derive(Clone, Debug, PartialEq)]
pub struct Bid {
    /// Bidder generated bid ID to assist with logging/tracking.
    pub id: String,
    /// ID of the Imp object in the related bid request.
    pub impid: String,
    /// Bid price expressed as CPM, although the actual transaction is for a unit impression
    /// only.
    pub price: Number,
    /// Win notice URL called by the exchange if the bid wins; optional means of serving ad
    /// markup.
    pub nurl: Option<String>,
    /// Billing notice URL called by the exchange when a winning bid becomes billable based
    /// on exchange-specific business policy (e.g., typically delivered, viewed, etc.).
    /// Substitution macros (Section 4.4) may be included.
    pub burl: Option<String>,
    /// Loss notice URL called by the exchange when a bid is known to have been lost.
    /// Substitution macros (Section 4.4) may be included.
    pub lurl: Option<String>,
    /// ID of a preloaded ad to serve if the bid wins.
    pub adid: Option<String>,
    /// Advertiser domain for block list checking (e.g., "ford.com"). This can be an array
    /// of for the case of rotating creatives.
    pub adomain: Option<Vec<String>>,
    /// A platform-specific application identifier intended to be unique to the app and
    /// independent of the exchange. On Android, this should be a bundle or package name
    /// (e.g., com.foo.mygame).
    pub bundle: Option<String>,
    /// URL without cache-busting to an image that is representative of the content of the
    /// campaign for ad quality/safety checking.
    pub iurl: Option<String>,
    /// Campaign ID to assist with ad quality checking; the collection of creatives for
    /// which iurl should be representative.
    pub cid: Option<String>,
    /// Creative ID to assist with ad quality checking.
    pub crid: Option<String>,
    /// Tactic ID to enable buyers to label bids for reporting to the exchange the tactic
    /// through which their bid was submitted. The specific usage and meaning of the tactic
    /// ID should be communicated between buyer and exchanges a priori.
    pub tactic: Option<String>,
    /// IAB content categories of the creative.
    pub cat: Option<Vec<String>>,
    /// Set of attributes describing the creative.
    pub attr: Option<Vec<CreativeAttribute>>,
    /// API required by the markup if applicable.
    pub api: Option<ApiFramework>,
    /// Video response protocol of the markup if applicable.
    pub protocol: Option<Protocol>,
    /// Creative media rating per QAG guidelines.
    pub qagmediarating: Option<QagMediaRating>,
    /// Language of the creative using ISO-639-1-alpha-2. The nonstandard code "xx" may also
    /// be used if the creative has no linguistic content (e.g., a banner with just a
    /// company logo).
    pub language: Option<String>,
    /// Reference to the deal.id from the bid request if this bid pertains to a private
    /// marketplace direct deal.
    pub dealid: Option<String>,
    /// Width of the creative in device independent pixels (DIPS).
    pub w: Option<i32>,
    /// Height of the creative in device independent pixels (DIPS).
    pub h: Option<i32>,
    /// Relative width of the creative when expressing size as a ratio. Required for Flex
    /// Ads.
    pub wratio: Option<i32>,
    /// Relative height of the creative when expressing size as a ratio. Required for Flex
    /// Ads.
    pub hratio: Option<i32>,
    /// Advisory as to the number of seconds the bidder is willing to wait between the
    /// auction and the actual impression.
    pub exp: Option<i32>,
    /// Optional means of conveying ad markup in case the bid wins; supersedes the win
    /// notice if markup is included in both.
    pub adm: Option<String>,
    /// Native ad markup as an object. For native ad bids, of `adm` and `adm_native` exactly
    /// one should be used.
    pub adm_native: Option<NativeResponse>,
    /// Vendor extensions, carried as they are.
    pub ext: Option<Json>,
}

/// The mathematical value of a [`Bid`].
pub struct BidView {
    pub id: Seq<char>,
    pub impid: Seq<char>,
    pub price: NumberView,
    pub nurl: Option<Seq<char>>,
    pub burl: Option<Seq<char>>,
    pub lurl: Option<Seq<char>>,
    pub adid: Option<Seq<char>>,
    pub adomain: Option<Seq<Seq<char>>>,
    pub bundle: Option<Seq<char>>,
    pub iurl: Option<Seq<char>>,
    pub cid: Option<Seq<char>>,
    pub crid: Option<Seq<char>>,
    pub tactic: Option<Seq<char>>,
    pub cat: Option<Seq<Seq<char>>>,
    pub attr: Option<Seq<CreativeAttribute>>,
    pub api: Option<ApiFramework>,
    pub protocol: Option<Protocol>,
    pub qagmediarating: Option<QagMediaRating>,
    pub language: Option<Seq<char>>,
    pub dealid: Option<Seq<char>>,
    pub w: Option<i32>,
    pub h: Option<i32>,
    pub wratio: Option<i32>,
    pub hratio: Option<i32>,
    pub exp: Option<i32>,
    pub adm: Option<Seq<char>>,
    pub adm_native: Option<NativeResponseView>,
    pub ext: Option<JsonView>,
}

impl DeepView for Bid {
    type V = BidView;

    open spec fn deep_view(&self) -> BidView {
        BidView {
            id: self.id.deep_view(),
            impid: self.impid.deep_view(),
            price: self.price.deep_view(),
            nurl: opt_view(self.nurl),
            burl: opt_view(self.burl),
            lurl: opt_view(self.lurl),
            adid: opt_view(self.adid),
            adomain: opt_view(self.adomain),
            bundle: opt_view(self.bundle),
            iurl: opt_view(self.iurl),
            cid: opt_view(self.cid),
            crid: opt_view(self.crid),
            tactic: opt_view(self.tactic),
            cat: opt_view(self.cat),
            attr: opt_view(self.attr),
            api: opt_view(self.api),
            protocol: opt_view(self.protocol),
            qagmediarating: opt_view(self.qagmediarating),
            language: opt_view(self.language),
            dealid: opt_view(self.dealid),
            w: opt_view(self.w),
            h: opt_view(self.h),
            wratio: opt_view(self.wratio),
            hratio: opt_view(self.hratio),
            exp: opt_view(self.exp),
            adm: opt_view(self.adm),
            adm_native: opt_view(self.adm_native),
            ext: opt_view(self.ext),
        }
    }
}

impl BidView {
    /// The value in which every optional field is absent and every required
    /// field is empty or zero.
    pub open spec fn empty() -> BidView {
        BidView {
            id: Seq::empty(),
            impid: Seq::empty(),
            price: NumberView::PosInt(0),
            nurl: None,
            burl: None,
            lurl: None,
            adid: None,
            adomain: None,
            bundle: None,
            iurl: None,
            cid: None,
            crid: None,
            tactic: None,
            cat: None,
            attr: None,
            api: None,
            protocol: None,
            qagmediarating: None,
            language: None,
            dealid: None,
            w: None,
            h: None,
            wratio: None,
            hratio: None,
            exp: None,
            adm: None,
            adm_native: None,
            ext: None,
        }
    }
}

impl Default for Bid {
    fn default() -> (value: Bid)
        ensures
            value.deep_view() == BidView::empty(),
    {
        let value = Bid {
            id: String::new(),
            impid: String::new(),
            price: Number::default(),
            nurl: None,
            burl: None,
            lurl: None,
            adid: None,
            adomain: None,
            bundle: None,
            iurl: None,
            cid: None,
            crid: None,
            tactic: None,
            cat: None,
            attr: None,
            api: None,
            protocol: None,
            qagmediarating: None,
            language: None,
            dealid: None,
            w: None,
            h: None,
            wratio: None,
            hratio: None,
            exp: None,
            adm: None,
            adm_native: None,
            ext: None,
        };
        proof {
            reveal(opt_view);
        }
        value
    }
}

impl Wire for Bid {
    open spec fn encode_spec(value: BidView) -> JsonView {
        Members::empty()
            .with("id"@, String::encode_spec(value.id))
            .with("impid"@, String::encode_spec(value.impid))
            .with("price"@, Number::encode_spec(value.price))
            .with_opt("nurl"@, encode_opt::<String>(value.nurl))
            .with_opt("burl"@, encode_opt::<String>(value.burl))
            .with_opt("lurl"@, encode_opt::<String>(value.lurl))
            .with_opt("adid"@, encode_opt::<String>(value.adid))
            .with_opt("adomain"@, encode_opt::<Vec<String>>(value.adomain))
            .with_opt("bundle"@, encode_opt::<String>(value.bundle))
            .with_opt("iurl"@, encode_opt::<String>(value.iurl))
            .with_opt("cid"@, encode_opt::<String>(value.cid))
            .with_opt("crid"@, encode_opt::<String>(value.crid))
            .with_opt("tactic"@, encode_opt::<String>(value.tactic))
            .with_opt("cat"@, encode_opt::<Vec<String>>(value.cat))
            .with_opt("attr"@, encode_opt::<Vec<CreativeAttribute>>(value.attr))
            .with_opt("api"@, encode_opt::<ApiFramework>(value.api))
            .with_opt("protocol"@, encode_opt::<Protocol>(value.protocol))
            .with_opt("qagmediarating"@, encode_opt::<QagMediaRating>(value.qagmediarating))
            .with_opt("language"@, encode_opt::<String>(value.language))
            .with_opt("dealid"@, encode_opt::<String>(value.dealid))
            .with_opt("w"@, encode_opt::<i32>(value.w))
            .with_opt("h"@, encode_opt::<i32>(value.h))
            .with_opt("wratio"@, encode_opt::<i32>(value.wratio))
            .with_opt("hratio"@, encode_opt::<i32>(value.hratio))
            .with_opt("exp"@, encode_opt::<i32>(value.exp))
            .with_opt("adm"@, encode_opt::<String>(value.adm))
            .with_opt("adm_native"@, encode_opt::<NativeResponse>(value.adm_native))
            .with_opt("ext"@, value.ext)
            .json()
    }

    open spec fn decode_spec(doc: JsonView) -> Result<BidView, DecodeErrorView> {
        match doc {
            JsonView::Object(members) => {
                let id = field::<String>(members, "id"@);
                let impid = field::<String>(members, "impid"@);
                let price = field::<Number>(members, "price"@);
                let nurl = opt_field::<String>(members, "nurl"@);
                let burl = opt_field::<String>(members, "burl"@);
                let lurl = opt_field::<String>(members, "lurl"@);
                let adid = opt_field::<String>(members, "adid"@);
                let adomain = opt_field::<Vec<String>>(members, "adomain"@);
                let bundle = opt_field::<String>(members, "bundle"@);
                let iurl = opt_field::<String>(members, "iurl"@);
                let cid = opt_field::<String>(members, "cid"@);
                let crid = opt_field::<String>(members, "crid"@);
                let tactic = opt_field::<String>(members, "tactic"@);
                let cat = opt_field::<Vec<String>>(members, "cat"@);
                let attr = opt_field::<Vec<CreativeAttribute>>(members, "attr"@);
                let api = opt_field::<ApiFramework>(members, "api"@);
                let protocol = opt_field::<Protocol>(members, "protocol"@);
                let qagmediarating = opt_field::<QagMediaRating>(members, "qagmediarating"@);
                let language = opt_field::<String>(members, "language"@);
                let dealid = opt_field::<String>(members, "dealid"@);
                let w = opt_field::<i32>(members, "w"@);
                let h = opt_field::<i32>(members, "h"@);
                let wratio = opt_field::<i32>(members, "wratio"@);
                let hratio = opt_field::<i32>(members, "hratio"@);
                let exp = opt_field::<i32>(members, "exp"@);
                let adm = opt_field::<String>(members, "adm"@);
                let adm_native = opt_field::<NativeResponse>(members, "adm_native"@);
                let ext = raw_field(members, "ext"@);
                if id is Err {
                    Err(id->Err_0)
                } else if impid is Err {
                    Err(impid->Err_0)
                } else if price is Err {
                    Err(price->Err_0)
                } else if nurl is Err {
                    Err(nurl->Err_0)
                } else if burl is Err {
                    Err(burl->Err_0)
                } else if lurl is Err {
                    Err(lurl->Err_0)
                } else if adid is Err {
                    Err(adid->Err_0)
                } else if adomain is Err {
                    Err(adomain->Err_0)
                } else if bundle is Err {
                    Err(bundle->Err_0)
                } else if iurl is Err {
                    Err(iurl->Err_0)
                } else if cid is Err {
                    Err(cid->Err_0)
                } else if crid is Err {
                    Err(crid->Err_0)
                } else if tactic is Err {
                    Err(tactic->Err_0)
                } else if cat is Err {
                    Err(cat->Err_0)
                } else if attr is Err {
                    Err(attr->Err_0)
                } else if api is Err {
                    Err(api->Err_0)
                } else if protocol is Err {
                    Err(protocol->Err_0)
                } else if qagmediarating is Err {
                    Err(qagmediarating->Err_0)
                } else if language is Err {
                    Err(language->Err_0)
                } else if dealid is Err {
                    Err(dealid->Err_0)
                } else if w is Err {
                    Err(w->Err_0)
                } else if h is Err {
                    Err(h->Err_0)
                } else if wratio is Err {
                    Err(wratio->Err_0)
                } else if hratio is Err {
                    Err(hratio->Err_0)
                } else if exp is Err {
                    Err(exp->Err_0)
                } else if adm is Err {
                    Err(adm->Err_0)
                } else if adm_native is Err {
                    Err(adm_native->Err_0)
                } else {
                    Ok(
                        BidView {
                            id: id->Ok_0,
                            impid: impid->Ok_0,
                            price: price->Ok_0,
                            nurl: nurl->Ok_0,
                            burl: burl->Ok_0,
                            lurl: lurl->Ok_0,
                            adid: adid->Ok_0,
                            adomain: adomain->Ok_0,
                            bundle: bundle->Ok_0,
                            iurl: iurl->Ok_0,
                            cid: cid->Ok_0,
                            crid: crid->Ok_0,
                            tactic: tactic->Ok_0,
                            cat: cat->Ok_0,
                            attr: attr->Ok_0,
                            api: api->Ok_0,
                            protocol: protocol->Ok_0,
                            qagmediarating: qagmediarating->Ok_0,
                            language: language->Ok_0,
                            dealid: dealid->Ok_0,
                            w: w->Ok_0,
                            h: h->Ok_0,
                            wratio: wratio->Ok_0,
                            hratio: hratio->Ok_0,
                            exp: exp->Ok_0,
                            adm: adm->Ok_0,
                            adm_native: adm_native->Ok_0,
                            ext,
                        },
                    )
                }
            },
            _ => wrong_type(),
        }
    }

    fn encode(&self) -> (doc: Json) {
        let mut object = ObjectWriter::new();
        object.field("id", &self.id);
        object.field("impid", &self.impid);
        object.field("price", &self.price);
        object.opt_field("nurl", &self.nurl);
        object.opt_field("burl", &self.burl);
        object.opt_field("lurl", &self.lurl);
        object.opt_field("adid", &self.adid);
        object.opt_field("adomain", &self.adomain);
        object.opt_field("bundle", &self.bundle);
        object.opt_field("iurl", &self.iurl);
        object.opt_field("cid", &self.cid);
        object.opt_field("crid", &self.crid);
        object.opt_field("tactic", &self.tactic);
        object.opt_field("cat", &self.cat);
        object.opt_field("attr", &self.attr);
        object.opt_field("api", &self.api);
        object.opt_field("protocol", &self.protocol);
        object.opt_field("qagmediarating", &self.qagmediarating);
        object.opt_field("language", &self.language);
        object.opt_field("dealid", &self.dealid);
        object.opt_field("w", &self.w);
        object.opt_field("h", &self.h);
        object.opt_field("wratio", &self.wratio);
        object.opt_field("hratio", &self.hratio);
        object.opt_field("exp", &self.exp);
        object.opt_field("adm", &self.adm);
        object.opt_field("adm_native", &self.adm_native);
        object.raw_field("ext", &self.ext);
        object.finish()
    }

    fn decode(doc: &Json) -> (result: Result<Bid, DecodeError>) {
        let members = read_members(doc)?;
        let id = read_field::<String>(members, "id")?;
        let impid = read_field::<String>(members, "impid")?;
        let price = read_field::<Number>(members, "price")?;
        let nurl = read_opt_field::<String>(members, "nurl")?;
        let burl = read_opt_field::<String>(members, "burl")?;
        let lurl = read_opt_field::<String>(members, "lurl")?;
        let adid = read_opt_field::<String>(members, "adid")?;
        let adomain = read_opt_field::<Vec<String>>(members, "adomain")?;
        let bundle = read_opt_field::<String>(members, "bundle")?;
        let iurl = read_opt_field::<String>(members, "iurl")?;
        let cid = read_opt_field::<String>(members, "cid")?;
        let crid = read_opt_field::<String>(members, "crid")?;
        let tactic = read_opt_field::<String>(members, "tactic")?;
        let cat = read_opt_field::<Vec<String>>(members, "cat")?;
        let attr = read_opt_field::<Vec<CreativeAttribute>>(members, "attr")?;
        let api = read_opt_field::<ApiFramework>(members, "api")?;
        let protocol = read_opt_field::<Protocol>(members, "protocol")?;
        let qagmediarating = read_opt_field::<QagMediaRating>(members, "qagmediarating")?;
        let language = read_opt_field::<String>(members, "language")?;
        let dealid = read_opt_field::<String>(members, "dealid")?;
        let w = read_opt_field::<i32>(members, "w")?;
        let h = read_opt_field::<i32>(members, "h")?;
        let wratio = read_opt_field::<i32>(members, "wratio")?;
        let hratio = read_opt_field::<i32>(members, "hratio")?;
        let exp = read_opt_field::<i32>(members, "exp")?;
        let adm = read_opt_field::<String>(members, "adm")?;
        let adm_native = read_opt_field::<NativeResponse>(members, "adm_native")?;
        let ext = read_raw_field(members, "ext");
        Ok(
            Bid {
                id,
                impid,
                price,
                nurl,
                burl,
                lurl,
                adid,
                adomain,
                bundle,
                iurl,
                cid,
                crid,
                tactic,
                cat,
                attr,
                api,
                protocol,
                qagmediarating,
                language,
                dealid,
                w,
                h,
                wratio,
                hratio,
                exp,
                adm,
                adm_native,
                ext,
            },
        )
    }

    proof fn lemma_round_trip(value: BidView) {
        Bid::lemma_written_fields(value);
        let members = Bid::encode_spec(value)->Object_0;
        lemma_field_round_trip::<String>(members, "id"@, value.id);
        lemma_field_round_trip::<String>(members, "impid"@, value.impid);
        lemma_field_round_trip::<Number>(members, "price"@, value.price);
        lemma_opt_field_round_trip::<String>(members, "nurl"@, value.nurl);
        lemma_opt_field_round_trip::<String>(members, "burl"@, value.burl);
        lemma_opt_field_round_trip::<String>(members, "lurl"@, value.lurl);
        lemma_opt_field_round_trip::<String>(members, "adid"@, value.adid);
        lemma_opt_field_round_trip::<Vec<String>>(members, "adomain"@, value.adomain);
        lemma_opt_field_round_trip::<String>(members, "bundle"@, value.bundle);
        lemma_opt_field_round_trip::<String>(members, "iurl"@, value.iurl);
        lemma_opt_field_round_trip::<String>(members, "cid"@, value.cid);
        lemma_opt_field_round_trip::<String>(members, "crid"@, value.crid);
        lemma_opt_field_round_trip::<String>(members, "tactic"@, value.tactic);
        lemma_opt_field_round_trip::<Vec<String>>(members, "cat"@, value.cat);
        lemma_opt_field_round_trip::<Vec<CreativeAttribute>>(members, "attr"@, value.attr);
        lemma_opt_field_round_trip::<ApiFramework>(members, "api"@, value.api);
        lemma_opt_field_round_trip::<Protocol>(members, "protocol"@, value.protocol);
        lemma_opt_field_round_trip::<QagMediaRating>(
            members,
            "qagmediarating"@,
            value.qagmediarating,
        );
        lemma_opt_field_round_trip::<String>(members, "language"@, value.language);
        lemma_opt_field_round_trip::<String>(members, "dealid"@, value.dealid);
        lemma_opt_field_round_trip::<i32>(members, "w"@, value.w);
        lemma_opt_field_round_trip::<i32>(members, "h"@, value.h);
        lemma_opt_field_round_trip::<i32>(members, "wratio"@, value.wratio);
        lemma_opt_field_round_trip::<i32>(members, "hratio"@, value.hratio);
        lemma_opt_field_round_trip::<i32>(members, "exp"@, value.exp);
        lemma_opt_field_round_trip::<String>(members, "adm"@, value.adm);
        lemma_opt_field_round_trip::<NativeResponse>(members, "adm_native"@, value.adm_native);
    }
}

impl Bid {
    /// What stands under each key on the wire: the wire form of the field of
    /// that name, whatever it holds, and nothing at all where the field is
    /// absent.
    pub proof fn lemma_written_fields(value: BidView)
        ensures
            Bid::encode_spec(value) matches JsonView::Object(members) && {
                &&& raw_field(members, "id"@) == Some(String::encode_spec(value.id))
                &&& raw_field(members, "impid"@) == Some(String::encode_spec(value.impid))
                &&& raw_field(members, "price"@) == Some(Number::encode_spec(value.price))
                &&& raw_field(members, "nurl"@) == encode_opt::<String>(value.nurl)
                &&& raw_field(members, "burl"@) == encode_opt::<String>(value.burl)
                &&& raw_field(members, "lurl"@) == encode_opt::<String>(value.lurl)
                &&& raw_field(members, "adid"@) == encode_opt::<String>(value.adid)
                &&& raw_field(members, "adomain"@) == encode_opt::<Vec<String>>(value.adomain)
                &&& raw_field(members, "bundle"@) == encode_opt::<String>(value.bundle)
                &&& raw_field(members, "iurl"@) == encode_opt::<String>(value.iurl)
                &&& raw_field(members, "cid"@) == encode_opt::<String>(value.cid)
                &&& raw_field(members, "crid"@) == encode_opt::<String>(value.crid)
                &&& raw_field(members, "tactic"@) == encode_opt::<String>(value.tactic)
                &&& raw_field(members, "cat"@) == encode_opt::<Vec<String>>(value.cat)
                &&& raw_field(members, "attr"@) == encode_opt::<Vec<CreativeAttribute>>(value.attr)
                &&& raw_field(members, "api"@) == encode_opt::<ApiFramework>(value.api)
                &&& raw_field(members, "protocol"@) == encode_opt::<Protocol>(value.protocol)
                &&& raw_field(members, "qagmediarating"@)
                    == encode_opt::<QagMediaRating>(value.qagmediarating)
                &&& raw_field(members, "language"@) == encode_opt::<String>(value.language)
                &&& raw_field(members, "dealid"@) == encode_opt::<String>(value.dealid)
                &&& raw_field(members, "w"@) == encode_opt::<i32>(value.w)
                &&& raw_field(members, "h"@) == encode_opt::<i32>(value.h)
                &&& raw_field(members, "wratio"@) == encode_opt::<i32>(value.wratio)
                &&& raw_field(members, "hratio"@) == encode_opt::<i32>(value.hratio)
                &&& raw_field(members, "exp"@) == encode_opt::<i32>(value.exp)
                &&& raw_field(members, "adm"@) == encode_opt::<String>(value.adm)
                &&& raw_field(members, "adm_native"@)
                    == encode_opt::<NativeResponse>(value.adm_native)
                &&& raw_field(members, "ext"@) == value.ext
            },
    {
        Members::lemma_lookup();
        reveal_strlit("id");
        reveal_strlit("impid");
        reveal_strlit("price");
        reveal_strlit("nurl");
        reveal_strlit("burl");
        reveal_strlit("lurl");
        reveal_strlit("adid");
        reveal_strlit("adomain");
        reveal_strlit("bundle");
        reveal_strlit("iurl");
        reveal_strlit("cid");
        reveal_strlit("crid");
        reveal_strlit("tactic");
        reveal_strlit("cat");
        reveal_strlit("attr");
        reveal_strlit("api");
        reveal_strlit("protocol");
        reveal_strlit("qagmediarating");
        reveal_strlit("language");
        reveal_strlit("dealid");
        reveal_strlit("w");
        reveal_strlit("h");
        reveal_strlit("wratio");
        reveal_strlit("hratio");
        reveal_strlit("exp");
        reveal_strlit("adm");
        reveal_strlit("adm_native");
        reveal_strlit("ext");
        lemma_head("id"@);
        lemma_head("impid"@);
        lemma_head("price"@);
        lemma_head("nurl"@);
        lemma_head("burl"@);
        lemma_head("lurl"@);
        lemma_head("adid"@);
        lemma_head("adomain"@);
        lemma_head("bundle"@);
        lemma_head("iurl"@);
        lemma_head("cid"@);
        lemma_head("crid"@);
        lemma_head("tactic"@);
        lemma_head("cat"@);
        lemma_head("attr"@);
        lemma_head("api"@);
        lemma_head("protocol"@);
        lemma_head("qagmediarating"@);
        lemma_head("language"@);
        lemma_head("dealid"@);
        lemma_head("w"@);
        lemma_head("h"@);
        lemma_head("wratio"@);
        lemma_head("hratio"@);
        lemma_head("exp"@);
        lemma_head("adm"@);
        lemma_head("adm_native"@);
        lemma_head("ext"@);
    }

    /// An optional field that is absent leaves no key on the wire, and a field
    /// that is present has its key, also where it holds zero, false or nothing.
    pub proof fn lemma_written_keys(value: BidView)
        ensures
            Bid::encode_spec(value) matches JsonView::Object(members) && {
                &&& members.contains_key("id"@)
                &&& members.contains_key("impid"@)
                &&& members.contains_key("price"@)
                &&& members.contains_key("nurl"@) <==> value.nurl is Some
                &&& members.contains_key("burl"@) <==> value.burl is Some
                &&& members.contains_key("lurl"@) <==> value.lurl is Some
                &&& members.contains_key("adid"@) <==> value.adid is Some
                &&& members.contains_key("adomain"@) <==> value.adomain is Some
                &&& members.contains_key("bundle"@) <==> value.bundle is Some
                &&& members.contains_key("iurl"@) <==> value.iurl is Some
                &&& members.contains_key("cid"@) <==> value.cid is Some
                &&& members.contains_key("crid"@) <==> value.crid is Some
                &&& members.contains_key("tactic"@) <==> value.tactic is Some
                &&& members.contains_key("cat"@) <==> value.cat is Some
                &&& members.contains_key("attr"@) <==> value.attr is Some
                &&& members.contains_key("api"@) <==> value.api is Some
                &&& members.contains_key("protocol"@) <==> value.protocol is Some
                &&& members.contains_key("qagmediarating"@) <==> value.qagmediarating is Some
                &&& members.contains_key("language"@) <==> value.language is Some
                &&& members.contains_key("dealid"@) <==> value.dealid is Some
                &&& members.contains_key("w"@) <==> value.w is Some
                &&& members.contains_key("h"@) <==> value.h is Some
                &&& members.contains_key("wratio"@) <==> value.wratio is Some
                &&& members.contains_key("hratio"@) <==> value.hratio is Some
                &&& members.contains_key("exp"@) <==> value.exp is Some
                &&& members.contains_key("adm"@) <==> value.adm is Some
                &&& members.contains_key("adm_native"@) <==> value.adm_native is Some
                &&& members.contains_key("ext"@) <==> value.ext is Some
            },
    {
        Bid::lemma_written_fields(value);
    }
}

impl Record for Bid {
    open spec fn claims(key: Seq<char>) -> bool {
        ||| key == "id"@
        ||| key == "impid"@
        ||| key == "price"@
        ||| key == "nurl"@
        ||| key == "burl"@
        ||| key == "lurl"@
        ||| key == "adid"@
        ||| key == "adomain"@
        ||| key == "bundle"@
        ||| key == "iurl"@
        ||| key == "cid"@
        ||| key == "crid"@
        ||| key == "tactic"@
        ||| key == "cat"@
        ||| key == "attr"@
        ||| key == "api"@
        ||| key == "protocol"@
        ||| key == "qagmediarating"@
        ||| key == "language"@
        ||| key == "dealid"@
        ||| key == "w"@
        ||| key == "h"@
        ||| key == "wratio"@
        ||| key == "hratio"@
        ||| key == "exp"@
        ||| key == "adm"@
        ||| key == "adm_native"@
        ||| key == "ext"@
    }

    proof fn lemma_writes_claimed_keys(value: BidView) {
        Members::lemma_lookup();
        let members = Bid::encode_spec(value)->Object_0;
        assert forall|key: Seq<char>| #[trigger] members.contains_key(key) implies Bid::claims(
            key,
        ) by {
            assert(raw_field(members, key) is Some);
        }
    }

    proof fn lemma_unclaimed_key_is_passed_over(
        members: Map<Seq<char>, JsonView>,
        key: Seq<char>,
        value: JsonView,
    ) {
        lemma_other_key::<String>(members, "id"@, key, value);
        lemma_other_key::<String>(members, "impid"@, key, value);
        lemma_other_key::<Number>(members, "price"@, key, value);
        lemma_other_key::<String>(members, "nurl"@, key, value);
        lemma_other_key::<String>(members, "burl"@, key, value);
        lemma_other_key::<String>(members, "lurl"@, key, value);
        lemma_other_key::<String>(members, "adid"@, key, value);
        lemma_other_key::<Vec<String>>(members, "adomain"@, key, value);
        lemma_other_key::<String>(members, "bundle"@, key, value);
        lemma_other_key::<String>(members, "iurl"@, key, value);
        lemma_other_key::<String>(members, "cid"@, key, value);
        lemma_other_key::<String>(members, "crid"@, key, value);
        lemma_other_key::<String>(members, "tactic"@, key, value);
        lemma_other_key::<Vec<String>>(members, "cat"@, key, value);
        lemma_other_key::<Vec<CreativeAttribute>>(members, "attr"@, key, value);
        lemma_other_key::<ApiFramework>(members, "api"@, key, value);
        lemma_other_key::<Protocol>(members, "protocol"@, key, value);
        lemma_other_key::<QagMediaRating>(members, "qagmediarating"@, key, value);
        lemma_other_key::<String>(members, "language"@, key, value);
        lemma_other_key::<String>(members, "dealid"@, key, value);
        lemma_other_key::<i32>(members, "w"@, key, value);
        lemma_other_key::<i32>(members, "h"@, key, value);
        lemma_other_key::<i32>(members, "wratio"@, key, value);
        lemma_other_key::<i32>(members, "hratio"@, key, value);
        lemma_other_key::<i32>(members, "exp"@, key, value);
        lemma_other_key::<String>(members, "adm"@, key, value);
        lemma_other_key::<NativeResponse>(members, "adm_native"@, key, value);
        lemma_other_key_raw(members, "ext"@, key, value);
    }
}

} // verus!
