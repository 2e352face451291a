//! The impression on offer and the forms in which it can be filled.

use crate::bool::Bool;
use crate::error::{DecodeError, DecodeErrorView};
use crate::json::{Json, JsonView, Number, NumberView};
use crate::native_request::{NativeRequest, NativeRequestView};
use crate::object::{
    encode_opt, field, lemma_field_round_trip, lemma_opt_field_round_trip, lemma_other_key,
    lemma_other_key_raw, Members, ObjectWriter, opt_field, opt_view, raw_field, read_field,
    read_members, read_opt_field, read_raw_field, Record,
};
use crate::text::lemma_head;
use crate::vocabulary::creative::{ApiFramework, CreativeAttribute};
use crate::wire::{Wire, wrong_type};
use vstd::prelude::*;

pub mod banner;
pub mod pmp;

mod audio;
mod video;

pub use audio::{Audio, AudioView};
pub use banner::{Banner, BannerView};
pub use pmp::{Pmp, PmpView};
pub use video::{Video, VideoView};

verus! {

/// An ad placement or impression that is being auctioned.
///
/// The presence of `banner`, `video`, `audio` or `native` says in which forms the
/// impression is offered. Several may be present; a bid must conform to one of
/// them.
#[derive(Clone, Debug, PartialEq)]
pub struct Imp {
    /// A unique identifier for this impression within the context of the bid request
    /// (typically, value starts with 1, and increments up to n for n impressions).
    pub id: String,
    /// A Banner object (Section 3.2.3); required if this impression is offered as a banner
    /// ad opportunity.
    pub banner: Option<Banner>,
    /// A Video object (Section 3.2.4); required if this impression is offered as a video ad
    /// opportunity.
    pub video: Option<Video>,
    /// An Audio object; required if this impression is offered as an audio ad opportunity.
    pub audio: Option<Audio>,
    /// Name of ad mediation partner, SDK technology, or player responsible for rendering ad
    /// (typically video or mobile). Used by some ad servers to customize ad code by
    /// partner.
    pub displaymanager: Option<String>,
    /// Version of ad mediation partner, SDK technology, or player responsible for rendering
    /// ad (typically video or mobile). Used by some ad servers to customize ad code by
    /// partner.
    pub displaymanagerver: Option<String>,
    /// true = the ad is interstitial or full screen, false = not interstitial.
    pub instl: Option<Bool>,
    /// Identifier for specific ad placement or ad tag that was used to initiate the
    /// auction. This can be useful for debugging of any issues, or for optimization by the
    /// buyer.
    pub tagid: Option<String>,
    /// Minimum bid for this impression expressed in CPM.
    pub bidfloor: Option<Number>,
    /// Currency specified using ISO-4217 alpha codes. This may be different from bid
    /// currency returned by bidder if this is allowed by the exchange.
    pub bidfloorcur: Option<String>,
    /// Indicates the type of browser opened upon clicking the creative in an app, where
    /// false = embedded, true = native.
    pub clickbrowser: Option<Bool>,
    /// Flag to indicate if the impression requires secure HTTPS URL creative assets and
    /// markup. If omitted, the secure state is unknown, but non-secure HTTP support can be
    /// assumed.
    pub secure: Option<Bool>,
    /// Array of exchange-specific names of supported iframe busters.
    pub iframebuster: Option<Vec<String>>,
    /// A Pmp object (Section 3.2.17) containing any private marketplace deals in effect for
    /// this impression.
    pub pmp: Option<Pmp>,
    /// A Native object (Section 3.2.5); required if this impression is offered as a native
    /// ad opportunity.
    pub native: Option<Native>,
    /// Advisory as to the number of seconds that may elapse between the auction and the
    /// actual impression.
    pub exp: Option<i32>,
    /// An array of Metric object (Section 3.2.5).
    pub metric: Option<Vec<Metric>>,
    /// Vendor extensions, carried as they are.
    pub ext: Option<Json>,
}

/// The mathematical value of an [`Imp`].
pub struct ImpView {
    pub id: Seq<char>,
    pub banner: Option<BannerView>,
    pub video: Option<VideoView>,
    pub audio: Option<AudioView>,
    pub displaymanager: Option<Seq<char>>,
    pub displaymanagerver: Option<Seq<char>>,
    pub instl: Option<Bool>,
    pub tagid: Option<Seq<char>>,
    pub bidfloor: Option<NumberView>,
    pub bidfloorcur: Option<Seq<char>>,
    pub clickbrowser: Option<Bool>,
    pub secure: Option<Bool>,
    pub iframebuster: Option<Seq<Seq<char>>>,
    pub pmp: Option<PmpView>,
    pub native: Option<NativeView>,
    pub exp: Option<i32>,
    pub metric: Option<Seq<MetricView>>,
    pub ext: Option<JsonView>,
}

impl DeepView for Imp {
    type V = ImpView;

    open spec fn deep_view(&self) -> ImpView {
        ImpView {
            id: self.id.deep_view(),
            banner: opt_view(self.banner),
            video: opt_view(self.video),
            audio: opt_view(self.audio),
            displaymanager: opt_view(self.displaymanager),
            displaymanagerver: opt_view(self.displaymanagerver),
            instl: opt_view(self.instl),
            tagid: opt_view(self.tagid),
            bidfloor: opt_view(self.bidfloor),
            bidfloorcur: opt_view(self.bidfloorcur),
            clickbrowser: opt_view(self.clickbrowser),
            secure: opt_view(self.secure),
            iframebuster: opt_view(self.iframebuster),
            pmp: opt_view(self.pmp),
            native: opt_view(self.native),
            exp: opt_view(self.exp),
            metric: opt_view(self.metric),
            ext: opt_view(self.ext),
        }
    }
}

impl ImpView {
    /// The value in which every optional field is absent and every required
    /// field is empty or zero.
    pub open spec fn empty() -> ImpView {
        ImpView {
            id: Seq::empty(),
            banner: None,
            video: None,
            audio: None,
            displaymanager: None,
            displaymanagerver: None,
            instl: None,
            tagid: None,
            bidfloor: None,
            bidfloorcur: None,
            clickbrowser: None,
            secure: None,
            iframebuster: None,
            pmp: None,
            native: None,
            exp: None,
            metric: None,
            ext: None,
        }
    }
}

impl Default for Imp {
    fn default() -> (value: Imp)
        ensures
            value.deep_view() == ImpView::empty(),
    {
        let value = Imp {
            id: String::new(),
            banner: None,
            video: None,
            audio: None,
            displaymanager: None,
            displaymanagerver: None,
            instl: None,
            tagid: None,
            bidfloor: None,
            bidfloorcur: None,
            clickbrowser: None,
            secure: None,
            iframebuster: None,
            pmp: None,
            native: None,
            exp: None,
            metric: None,
            ext: None,
        };
        proof {
            reveal(opt_view);
        }
        value
    }
}

impl Wire for Imp {
    open spec fn encode_spec(value: ImpView) -> JsonView {
        Members::empty()
            .with("id"@, String::encode_spec(value.id))
            .with_opt("banner"@, encode_opt::<Banner>(value.banner))
            .with_opt("video"@, encode_opt::<Video>(value.video))
            .with_opt("audio"@, encode_opt::<Audio>(value.audio))
            .with_opt("displaymanager"@, encode_opt::<String>(value.displaymanager))
            .with_opt("displaymanagerver"@, encode_opt::<String>(value.displaymanagerver))
            .with_opt("instl"@, encode_opt::<Bool>(value.instl))
            .with_opt("tagid"@, encode_opt::<String>(value.tagid))
            .with_opt("bidfloor"@, encode_opt::<Number>(value.bidfloor))
            .with_opt("bidfloorcur"@, encode_opt::<String>(value.bidfloorcur))
            .with_opt("clickbrowser"@, encode_opt::<Bool>(value.clickbrowser))
            .with_opt("secure"@, encode_opt::<Bool>(value.secure))
            .with_opt("iframebuster"@, encode_opt::<Vec<String>>(value.iframebuster))
            .with_opt("pmp"@, encode_opt::<Pmp>(value.pmp))
            .with_opt("native"@, encode_opt::<Native>(value.native))
            .with_opt("exp"@, encode_opt::<i32>(value.exp))
            .with_opt("metric"@, encode_opt::<Vec<Metric>>(value.metric))
            .with_opt("ext"@, value.ext)
            .json()
    }

    open spec fn decode_spec(doc: JsonView) -> Result<ImpView, DecodeErrorView> {
        match doc {
            JsonView::Object(members) => {
                let id = field::<String>(members, "id"@);
                let banner = opt_field::<Banner>(members, "banner"@);
                let video = opt_field::<Video>(members, "video"@);
                let audio = opt_field::<Audio>(members, "audio"@);
                let displaymanager = opt_field::<String>(members, "displaymanager"@);
                let displaymanagerver = opt_field::<String>(members, "displaymanagerver"@);
                let instl = opt_field::<Bool>(members, "instl"@);
                let tagid = opt_field::<String>(members, "tagid"@);
                let bidfloor = opt_field::<Number>(members, "bidfloor"@);
                let bidfloorcur = opt_field::<String>(members, "bidfloorcur"@);
                let clickbrowser = opt_field::<Bool>(members, "clickbrowser"@);
                let secure = opt_field::<Bool>(members, "secure"@);
                let iframebuster = opt_field::<Vec<String>>(members, "iframebuster"@);
                let pmp = opt_field::<Pmp>(members, "pmp"@);
                let native = opt_field::<Native>(members, "native"@);
                let exp = opt_field::<i32>(members, "exp"@);
                let metric = opt_field::<Vec<Metric>>(members, "metric"@);
                let ext = raw_field(members, "ext"@);
                if id is Err {
                    Err(id->Err_0)
                } else if banner is Err {
                    Err(banner->Err_0)
                } else if video is Err {
                    Err(video->Err_0)
                } else if audio is Err {
                    Err(audio->Err_0)
                } else if displaymanager is Err {
                    Err(displaymanager->Err_0)
                } else if displaymanagerver is Err {
                    Err(displaymanagerver->Err_0)
                } else if instl is Err {
                    Err(instl->Err_0)
                } else if tagid is Err {
                    Err(tagid->Err_0)
                } else if bidfloor is Err {
                    Err(bidfloor->Err_0)
                } else if bidfloorcur is Err {
                    Err(bidfloorcur->Err_0)
                } else if clickbrowser is Err {
                    Err(clickbrowser->Err_0)
                } else if secure is Err {
                    Err(secure->Err_0)
                } else if iframebuster is Err {
                    Err(iframebuster->Err_0)
                } else if pmp is Err {
                    Err(pmp->Err_0)
                } else if native is Err {
                    Err(native->Err_0)
                } else if exp is Err {
                    Err(exp->Err_0)
                } else if metric is Err {
                    Err(metric->Err_0)
                } else {
                    Ok(
                        ImpView {
                            id: id->Ok_0,
                            banner: banner->Ok_0,
                            video: video->Ok_0,
                            audio: audio->Ok_0,
                            displaymanager: displaymanager->Ok_0,
                            displaymanagerver: displaymanagerver->Ok_0,
                            instl: instl->Ok_0,
                            tagid: tagid->Ok_0,
                            bidfloor: bidfloor->Ok_0,
                            bidfloorcur: bidfloorcur->Ok_0,
                            clickbrowser: clickbrowser->Ok_0,
                            secure: secure->Ok_0,
                            iframebuster: iframebuster->Ok_0,
                            pmp: pmp->Ok_0,
                            native: native->Ok_0,
                            exp: exp->Ok_0,
                            metric: metric->Ok_0,
                            ext,
                        },
                    )
                }
            },
            _ => wrong_type(),
        }
    }

    fn encode(&self) -> (doc: Json) {
        let mut object = ObjectWriter::new();
        object.field("id", &self.id);
        object.opt_field("banner", &self.banner);
        object.opt_field("video", &self.video);
        object.opt_field("audio", &self.audio);
        object.opt_field("displaymanager", &self.displaymanager);
        object.opt_field("displaymanagerver", &self.displaymanagerver);
        object.opt_field("instl", &self.instl);
        object.opt_field("tagid", &self.tagid);
        object.opt_field("bidfloor", &self.bidfloor);
        object.opt_field("bidfloorcur", &self.bidfloorcur);
        object.opt_field("clickbrowser", &self.clickbrowser);
        object.opt_field("secure", &self.secure);
        object.opt_field("iframebuster", &self.iframebuster);
        object.opt_field("pmp", &self.pmp);
        object.opt_field("native", &self.native);
        object.opt_field("exp", &self.exp);
        object.opt_field("metric", &self.metric);
        object.raw_field("ext", &self.ext);
        object.finish()
    }

    fn decode(doc: &Json) -> (result: Result<Imp, DecodeError>) {
        let members = read_members(doc)?;
        let id = read_field::<String>(members, "id")?;
        let banner = read_opt_field::<Banner>(members, "banner")?;
        let video = read_opt_field::<Video>(members, "video")?;
        let audio = read_opt_field::<Audio>(members, "audio")?;
        let displaymanager = read_opt_field::<String>(members, "displaymanager")?;
        let displaymanagerver = read_opt_field::<String>(members, "displaymanagerver")?;
        let instl = read_opt_field::<Bool>(members, "instl")?;
        let tagid = read_opt_field::<String>(members, "tagid")?;
        let bidfloor = read_opt_field::<Number>(members, "bidfloor")?;
        let bidfloorcur = read_opt_field::<String>(members, "bidfloorcur")?;
        let clickbrowser = read_opt_field::<Bool>(members, "clickbrowser")?;
        let secure = read_opt_field::<Bool>(members, "secure")?;
        let iframebuster = read_opt_field::<Vec<String>>(members, "iframebuster")?;
        let pmp = read_opt_field::<Pmp>(members, "pmp")?;
        let native = read_opt_field::<Native>(members, "native")?;
        let exp = read_opt_field::<i32>(members, "exp")?;
        let metric = read_opt_field::<Vec<Metric>>(members, "metric")?;
        let ext = read_raw_field(members, "ext");
        Ok(
            Imp {
                id,
                banner,
                video,
                audio,
                displaymanager,
                displaymanagerver,
                instl,
                tagid,
                bidfloor,
                bidfloorcur,
                clickbrowser,
                secure,
                iframebuster,
                pmp,
                native,
                exp,
                metric,
                ext,
            },
        )
    }

    proof fn lemma_round_trip(value: ImpView) {
        Imp::lemma_written_fields(value);
        let members = Imp::encode_spec(value)->Object_0;
        lemma_field_round_trip::<String>(members, "id"@, value.id);
        lemma_opt_field_round_trip::<Banner>(members, "banner"@, value.banner);
        lemma_opt_field_round_trip::<Video>(members, "video"@, value.video);
        lemma_opt_field_round_trip::<Audio>(members, "audio"@, value.audio);
        lemma_opt_field_round_trip::<String>(members, "displaymanager"@, value.displaymanager);
        lemma_opt_field_round_trip::<String>(
            members,
            "displaymanagerver"@,
            value.displaymanagerver,
        );
        lemma_opt_field_round_trip::<Bool>(members, "instl"@, value.instl);
        lemma_opt_field_round_trip::<String>(members, "tagid"@, value.tagid);
        lemma_opt_field_round_trip::<Number>(members, "bidfloor"@, value.bidfloor);
        lemma_opt_field_round_trip::<String>(members, "bidfloorcur"@, value.bidfloorcur);
        lemma_opt_field_round_trip::<Bool>(members, "clickbrowser"@, value.clickbrowser);
        lemma_opt_field_round_trip::<Bool>(members, "secure"@, value.secure);
        lemma_opt_field_round_trip::<Vec<String>>(members, "iframebuster"@, value.iframebuster);
        lemma_opt_field_round_trip::<Pmp>(members, "pmp"@, value.pmp);
        lemma_opt_field_round_trip::<Native>(members, "native"@, value.native);
        lemma_opt_field_round_trip::<i32>(members, "exp"@, value.exp);
        lemma_opt_field_round_trip::<Vec<Metric>>(members, "metric"@, value.metric);
    }
}

impl Imp {
    /// What stands under each key on the wire: the wire form of the field of
    /// that name, whatever it holds, and nothing at all where the field is
    /// absent.
    pub proof fn lemma_written_fields(value: ImpView)
        ensures
            Imp::encode_spec(value) matches JsonView::Object(members) && {
                &&& raw_field(members, "id"@) == Some(String::encode_spec(value.id))
                &&& raw_field(members, "banner"@) == encode_opt::<Banner>(value.banner)
                &&& raw_field(members, "video"@) == encode_opt::<Video>(value.video)
                &&& raw_field(members, "audio"@) == encode_opt::<Audio>(value.audio)
                &&& raw_field(members, "displaymanager"@)
                    == encode_opt::<String>(value.displaymanager)
                &&& raw_field(members, "displaymanagerver"@)
                    == encode_opt::<String>(value.displaymanagerver)
                &&& raw_field(members, "instl"@) == encode_opt::<Bool>(value.instl)
                &&& raw_field(members, "tagid"@) == encode_opt::<String>(value.tagid)
                &&& raw_field(members, "bidfloor"@) == encode_opt::<Number>(value.bidfloor)
                &&& raw_field(members, "bidfloorcur"@) == encode_opt::<String>(value.bidfloorcur)
                &&& raw_field(members, "clickbrowser"@) == encode_opt::<Bool>(value.clickbrowser)
                &&& raw_field(members, "secure"@) == encode_opt::<Bool>(value.secure)
                &&& raw_field(members, "iframebuster"@)
                    == encode_opt::<Vec<String>>(value.iframebuster)
                &&& raw_field(members, "pmp"@) == encode_opt::<Pmp>(value.pmp)
                &&& raw_field(members, "native"@) == encode_opt::<Native>(value.native)
                &&& raw_field(members, "exp"@) == encode_opt::<i32>(value.exp)
                &&& raw_field(members, "metric"@) == encode_opt::<Vec<Metric>>(value.metric)
                &&& raw_field(members, "ext"@) == value.ext
            },
    {
        Members::lemma_lookup();
        reveal_strlit("id");
        reveal_strlit("banner");
        reveal_strlit("video");
        reveal_strlit("audio");
        reveal_strlit("displaymanager");
        reveal_strlit("displaymanagerver");
        reveal_strlit("instl");
        reveal_strlit("tagid");
        reveal_strlit("bidfloor");
        reveal_strlit("bidfloorcur");
        reveal_strlit("clickbrowser");
        reveal_strlit("secure");
        reveal_strlit("iframebuster");
        reveal_strlit("pmp");
        reveal_strlit("native");
        reveal_strlit("exp");
        reveal_strlit("metric");
        reveal_strlit("ext");
        lemma_head("id"@);
        lemma_head("banner"@);
        lemma_head("video"@);
        lemma_head("audio"@);
        lemma_head("displaymanager"@);
        lemma_head("displaymanagerver"@);
        lemma_head("instl"@);
        lemma_head("tagid"@);
        lemma_head("bidfloor"@);
        lemma_head("bidfloorcur"@);
        lemma_head("clickbrowser"@);
        lemma_head("secure"@);
        lemma_head("iframebuster"@);
        lemma_head("pmp"@);
        lemma_head("native"@);
        lemma_head("exp"@);
        lemma_head("metric"@);
        lemma_head("ext"@);
    }

    /// An optional field that is absent leaves no key on the wire, and a field
    /// that is present has its key, also where it holds zero, false or nothing.
    pub proof fn lemma_written_keys(value: ImpView)
        ensures
            Imp::encode_spec(value) matches JsonView::Object(members) && {
                &&& members.contains_key("id"@)
                &&& members.contains_key("banner"@) <==> value.banner is Some
                &&& members.contains_key("video"@) <==> value.video is Some
                &&& members.contains_key("audio"@) <==> value.audio is Some
                &&& members.contains_key("displaymanager"@) <==> value.displaymanager is Some
                &&& members.contains_key("displaymanagerver"@) <==> value.displaymanagerver is Some
                &&& members.contains_key("instl"@) <==> value.instl is Some
                &&& members.contains_key("tagid"@) <==> value.tagid is Some
                &&& members.contains_key("bidfloor"@) <==> value.bidfloor is Some
                &&& members.contains_key("bidfloorcur"@) <==> value.bidfloorcur is Some
                &&& members.contains_key("clickbrowser"@) <==> value.clickbrowser is Some
                &&& members.contains_key("secure"@) <==> value.secure is Some
                &&& members.contains_key("iframebuster"@) <==> value.iframebuster is Some
                &&& members.contains_key("pmp"@) <==> value.pmp is Some
                &&& members.contains_key("native"@) <==> value.native is Some
                &&& members.contains_key("exp"@) <==> value.exp is Some
                &&& members.contains_key("metric"@) <==> value.metric is Some
                &&& members.contains_key("ext"@) <==> value.ext is Some
            },
    {
        Imp::lemma_written_fields(value);
    }
}

impl Record for Imp {
    open spec fn claims(key: Seq<char>) -> bool {
        ||| key == "id"@
        ||| key == "banner"@
        ||| key == "video"@
        ||| key == "audio"@
        ||| key == "displaymanager"@
        ||| key == "displaymanagerver"@
        ||| key == "instl"@
        ||| key == "tagid"@
        ||| key == "bidfloor"@
        ||| key == "bidfloorcur"@
        ||| key == "clickbrowser"@
        ||| key == "secure"@
        ||| key == "iframebuster"@
        ||| key == "pmp"@
        ||| key == "native"@
        ||| key == "exp"@
        ||| key == "metric"@
        ||| key == "ext"@
    }

    proof fn lemma_writes_claimed_keys(value: ImpView) {
        Members::lemma_lookup();
        let members = Imp::encode_spec(value)->Object_0;
        assert forall|key: Seq<char>| #[trigger] members.contains_key(key) implies Imp::claims(
            key,
        ) by {
            assert(raw_field(members, key) is Some);
        }
    }

    proof fn lemma_unclaimed_key_is_passed_over(
        members: Map<Seq<char>, JsonView>,
        key: Seq<char>,
        value: JsonView,
    ) {
        lemma_other_key::<String>(members, "id"@, key, value);
        lemma_other_key::<Banner>(members, "banner"@, key, value);
        lemma_other_key::<Video>(members, "video"@, key, value);
        lemma_other_key::<Audio>(members, "audio"@, key, value);
        lemma_other_key::<String>(members, "displaymanager"@, key, value);
        lemma_other_key::<String>(members, "displaymanagerver"@, key, value);
        lemma_other_key::<Bool>(members, "instl"@, key, value);
        lemma_other_key::<String>(members, "tagid"@, key, value);
        lemma_other_key::<Number>(members, "bidfloor"@, key, value);
        lemma_other_key::<String>(members, "bidfloorcur"@, key, value);
        lemma_other_key::<Bool>(members, "clickbrowser"@, key, value);
        lemma_other_key::<Bool>(members, "secure"@, key, value);
        lemma_other_key::<Vec<String>>(members, "iframebuster"@, key, value);
        lemma_other_key::<Pmp>(members, "pmp"@, key, value);
        lemma_other_key::<Native>(members, "native"@, key, value);
        lemma_other_key::<i32>(members, "exp"@, key, value);
        lemma_other_key::<Vec<Metric>>(members, "metric"@, key, value);
        lemma_other_key_raw(members, "ext"@, key, value);
    }
}

/// A measurement about an impression, such as its recent viewability or
/// click-through rate.
#[derive(Clone, Debug, PartialEq)]
pub struct Metric {
    /// Type of metric being presented using exchange curated string names which should be
    /// published to bidders a priori.
    pub type_: Option<String>,
    /// Number representing the value of the metric. Probabilities must be in the range 0.0
    /// - 1.0.
    pub value: Option<Number>,
    /// Source of the value using exchange curated string names which should be published to
    /// bidders a priori. If the exchange itself is the source versus a third party,
    /// "EXCHANGE" is recommended.
    pub vendor: Option<String>,
    /// Vendor extensions, carried as they are.
    pub ext: Option<Json>,
}

/// The mathematical value of a [`Metric`].
pub struct MetricView {
    pub type_: Option<Seq<char>>,
    pub value: Option<NumberView>,
    pub vendor: Option<Seq<char>>,
    pub ext: Option<JsonView>,
}

impl DeepView for Metric {
    type V = MetricView;

    open spec fn deep_view(&self) -> MetricView {
        MetricView {
            type_: opt_view(self.type_),
            value: opt_view(self.value),
            vendor: opt_view(self.vendor),
            ext: opt_view(self.ext),
        }
    }
}

impl MetricView {
    /// The value in which every optional field is absent and every required
    /// field is empty or zero.
    pub open spec fn empty() -> MetricView {
        MetricView {
            type_: None,
            value: None,
            vendor: None,
            ext: None,
        }
    }
}

impl Default for Metric {
    fn default() -> (value: Metric)
        ensures
            value.deep_view() == MetricView::empty(),
    {
        let value = Metric {
            type_: None,
            value: None,
            vendor: None,
            ext: None,
        };
        proof {
            reveal(opt_view);
        }
        value
    }
}

impl Wire for Metric {
    open spec fn encode_spec(value: MetricView) -> JsonView {
        Members::empty()
            .with_opt("type"@, encode_opt::<String>(value.type_))
            .with_opt("value"@, encode_opt::<Number>(value.value))
            .with_opt("vendor"@, encode_opt::<String>(value.vendor))
            .with_opt("ext"@, value.ext)
            .json()
    }

    open spec fn decode_spec(doc: JsonView) -> Result<MetricView, DecodeErrorView> {
        match doc {
            JsonView::Object(members) => {
                let type_ = opt_field::<String>(members, "type"@);
                let value = opt_field::<Number>(members, "value"@);
                let vendor = opt_field::<String>(members, "vendor"@);
                let ext = raw_field(members, "ext"@);
                if type_ is Err {
                    Err(type_->Err_0)
                } else if value is Err {
                    Err(value->Err_0)
                } else if vendor is Err {
                    Err(vendor->Err_0)
                } else {
                    Ok(
                        MetricView {
                            type_: type_->Ok_0,
                            value: value->Ok_0,
                            vendor: vendor->Ok_0,
                            ext,
                        },
                    )
                }
            },
            _ => wrong_type(),
        }
    }

    fn encode(&self) -> (doc: Json) {
        let mut object = ObjectWriter::new();
        object.opt_field("type", &self.type_);
        object.opt_field("value", &self.value);
        object.opt_field("vendor", &self.vendor);
        object.raw_field("ext", &self.ext);
        object.finish()
    }

    fn decode(doc: &Json) -> (result: Result<Metric, DecodeError>) {
        let members = read_members(doc)?;
        let type_ = read_opt_field::<String>(members, "type")?;
        let value = read_opt_field::<Number>(members, "value")?;
        let vendor = read_opt_field::<String>(members, "vendor")?;
        let ext = read_raw_field(members, "ext");
        Ok(
            Metric {
                type_,
                value,
                vendor,
                ext,
            },
        )
    }

    proof fn lemma_round_trip(value: MetricView) {
        Metric::lemma_written_fields(value);
        let members = Metric::encode_spec(value)->Object_0;
        lemma_opt_field_round_trip::<String>(members, "type"@, value.type_);
        lemma_opt_field_round_trip::<Number>(members, "value"@, value.value);
        lemma_opt_field_round_trip::<String>(members, "vendor"@, value.vendor);
    }
}

impl Metric {
    /// What stands under each key on the wire: the wire form of the field of
    /// that name, whatever it holds, and nothing at all where the field is
    /// absent.
    pub proof fn lemma_written_fields(value: MetricView)
        ensures
            Metric::encode_spec(value) matches JsonView::Object(members) && {
                &&& raw_field(members, "type"@) == encode_opt::<String>(value.type_)
                &&& raw_field(members, "value"@) == encode_opt::<Number>(value.value)
                &&& raw_field(members, "vendor"@) == encode_opt::<String>(value.vendor)
                &&& raw_field(members, "ext"@) == value.ext
            },
    {
        Members::lemma_lookup();
        reveal_strlit("type");
        reveal_strlit("value");
        reveal_strlit("vendor");
        reveal_strlit("ext");
        lemma_head("type"@);
        lemma_head("value"@);
        lemma_head("vendor"@);
        lemma_head("ext"@);
    }

    /// An optional field that is absent leaves no key on the wire, and a field
    /// that is present has its key, also where it holds zero, false or nothing.
    pub proof fn lemma_written_keys(value: MetricView)
        ensures
            Metric::encode_spec(value) matches JsonView::Object(members) && {
                &&& members.contains_key("type"@) <==> value.type_ is Some
                &&& members.contains_key("value"@) <==> value.value is Some
                &&& members.contains_key("vendor"@) <==> value.vendor is Some
                &&& members.contains_key("ext"@) <==> value.ext is Some
            },
    {
        Metric::lemma_written_fields(value);
    }
}

impl Record for Metric {
    open spec fn claims(key: Seq<char>) -> bool {
        ||| key == "type"@
        ||| key == "value"@
        ||| key == "vendor"@
        ||| key == "ext"@
    }

    proof fn lemma_writes_claimed_keys(value: MetricView) {
        Members::lemma_lookup();
        let members = Metric::encode_spec(value)->Object_0;
        assert forall|key: Seq<char>| #[trigger] members.contains_key(key) implies Metric::claims(
            key,
        ) by {
            assert(raw_field(members, key) is Some);
        }
    }

    proof fn lemma_unclaimed_key_is_passed_over(
        members: Map<Seq<char>, JsonView>,
        key: Seq<char>,
        value: JsonView,
    ) {
        lemma_other_key::<String>(members, "type"@, key, value);
        lemma_other_key::<Number>(members, "value"@, key, value);
        lemma_other_key::<String>(members, "vendor"@, key, value);
        lemma_other_key_raw(members, "ext"@, key, value);
    }
}

/// A native impression: an ad that is meant to blend into the content around it.
#[derive(Clone, Debug, PartialEq)]
pub struct Native {
    /// Request payload of the Native Ads standard, as a string. Of `request` and
    /// `request_native` exactly one should be used.
    pub request: Option<String>,
    /// Request payload of the Native Ads standard, as an object. Of `request` and
    /// `request_native` exactly one should be used.
    pub request_native: Option<NativeRequest>,
    /// Version of the Native Ad standard to which request complies.
    pub ver: Option<String>,
    /// List of supported API frameworks for this impression. If an API is not explicitly
    /// listed, it is assumed not to be supported.
    pub api: Option<Vec<ApiFramework>>,
    /// Blocked creative attributes.
    pub battr: Option<Vec<CreativeAttribute>>,
    /// Vendor extensions, carried as they are.
    pub ext: Option<Json>,
}

/// The mathematical value of a [`Native`].
pub struct NativeView {
    pub request: Option<Seq<char>>,
    pub request_native: Option<NativeRequestView>,
    pub ver: Option<Seq<char>>,
    pub api: Option<Seq<ApiFramework>>,
    pub battr: Option<Seq<CreativeAttribute>>,
    pub ext: Option<JsonView>,
}

impl DeepView for Native {
    type V = NativeView;

    open spec fn deep_view(&self) -> NativeView {
        NativeView {
            request: opt_view(self.request),
            request_native: opt_view(self.request_native),
            ver: opt_view(self.ver),
            api: opt_view(self.api),
            battr: opt_view(self.battr),
            ext: opt_view(self.ext),
        }
    }
}

impl NativeView {
    /// The value in which every optional field is absent and every required
    /// field is empty or zero.
    pub open spec fn empty() -> NativeView {
        NativeView {
            request: None,
            request_native: None,
            ver: None,
            api: None,
            battr: None,
            ext: None,
        }
    }
}

impl Default for Native {
    fn default() -> (value: Native)
        ensures
            value.deep_view() == NativeView::empty(),
    {
        let value = Native {
            request: None,
            request_native: None,
            ver: None,
            api: None,
            battr: None,
            ext: None,
        };
        proof {
            reveal(opt_view);
        }
        value
    }
}

impl Wire for Native {
    open spec fn encode_spec(value: NativeView) -> JsonView {
        Members::empty()
            .with_opt("request"@, encode_opt::<String>(value.request))
            .with_opt("request_native"@, encode_opt::<NativeRequest>(value.request_native))
            .with_opt("ver"@, encode_opt::<String>(value.ver))
            .with_opt("api"@, encode_opt::<Vec<ApiFramework>>(value.api))
            .with_opt("battr"@, encode_opt::<Vec<CreativeAttribute>>(value.battr))
            .with_opt("ext"@, value.ext)
            .json()
    }

    open spec fn decode_spec(doc: JsonView) -> Result<NativeView, DecodeErrorView> {
        match doc {
            JsonView::Object(members) => {
                let request = opt_field::<String>(members, "request"@);
                let request_native = opt_field::<NativeRequest>(members, "request_native"@);
                let ver = opt_field::<String>(members, "ver"@);
                let api = opt_field::<Vec<ApiFramework>>(members, "api"@);
                let battr = opt_field::<Vec<CreativeAttribute>>(members, "battr"@);
                let ext = raw_field(members, "ext"@);
                if request is Err {
                    Err(request->Err_0)
                } else if request_native is Err {
                    Err(request_native->Err_0)
                } else if ver is Err {
                    Err(ver->Err_0)
                } else if api is Err {
                    Err(api->Err_0)
                } else if battr is Err {
                    Err(battr->Err_0)
                } else {
                    Ok(
                        NativeView {
                            request: request->Ok_0,
                            request_native: request_native->Ok_0,
                            ver: ver->Ok_0,
                            api: api->Ok_0,
                            battr: battr->Ok_0,
                            ext,
                        },
                    )
                }
            },
            _ => wrong_type(),
        }
    }

    fn encode(&self) -> (doc: Json) {
        let mut object = ObjectWriter::new();
        object.opt_field("request", &self.request);
        object.opt_field("request_native", &self.request_native);
        object.opt_field("ver", &self.ver);
        object.opt_field("api", &self.api);
        object.opt_field("battr", &self.battr);
        object.raw_field("ext", &self.ext);
        object.finish()
    }

    fn decode(doc: &Json) -> (result: Result<Native, DecodeError>) {
        let members = read_members(doc)?;
        let request = read_opt_field::<String>(members, "request")?;
        let request_native = read_opt_field::<NativeRequest>(members, "request_native")?;
        let ver = read_opt_field::<String>(members, "ver")?;
        let api = read_opt_field::<Vec<ApiFramework>>(members, "api")?;
        let battr = read_opt_field::<Vec<CreativeAttribute>>(members, "battr")?;
        let ext = read_raw_field(members, "ext");
        Ok(
            Native {
                request,
                request_native,
                ver,
                api,
                battr,
                ext,
            },
        )
    }

    proof fn lemma_round_trip(value: NativeView) {
        Native::lemma_written_fields(value);
        let members = Native::encode_spec(value)->Object_0;
        lemma_opt_field_round_trip::<String>(members, "request"@, value.request);
        lemma_opt_field_round_trip::<NativeRequest>(
            members,
            "request_native"@,
            value.request_native,
        );
        lemma_opt_field_round_trip::<String>(members, "ver"@, value.ver);
        lemma_opt_field_round_trip::<Vec<ApiFramework>>(members, "api"@, value.api);
        lemma_opt_field_round_trip::<Vec<CreativeAttribute>>(members, "battr"@, value.battr);
    }
}

impl Native {
    /// What stands under each key on the wire: the wire form of the field of
    /// that name, whatever it holds, and nothing at all where the field is
    /// absent.
    pub proof fn lemma_written_fields(value: NativeView)
        ensures
            Native::encode_spec(value) matches JsonView::Object(members) && {
                &&& raw_field(members, "request"@) == encode_opt::<String>(value.request)
                &&& raw_field(members, "request_native"@)
                    == encode_opt::<NativeRequest>(value.request_native)
                &&& raw_field(members, "ver"@) == encode_opt::<String>(value.ver)
                &&& raw_field(members, "api"@) == encode_opt::<Vec<ApiFramework>>(value.api)
                &&& raw_field(members, "battr"@)
                    == encode_opt::<Vec<CreativeAttribute>>(value.battr)
                &&& raw_field(members, "ext"@) == value.ext
            },
    {
        Members::lemma_lookup();
        reveal_strlit("request");
        reveal_strlit("request_native");
        reveal_strlit("ver");
        reveal_strlit("api");
        reveal_strlit("battr");
        reveal_strlit("ext");
        lemma_head("request"@);
        lemma_head("request_native"@);
        lemma_head("ver"@);
        lemma_head("api"@);
        lemma_head("battr"@);
        lemma_head("ext"@);
    }

    /// An optional field that is absent leaves no key on the wire, and a field
    /// that is present has its key, also where it holds zero, false or nothing.
    pub proof fn lemma_written_keys(value: NativeView)
        ensures
            Native::encode_spec(value) matches JsonView::Object(members) && {
                &&& members.contains_key("request"@) <==> value.request is Some
                &&& members.contains_key("request_native"@) <==> value.request_native is Some
                &&& members.contains_key("ver"@) <==> value.ver is Some
                &&& members.contains_key("api"@) <==> value.api is Some
                &&& members.contains_key("battr"@) <==> value.battr is Some
                &&& members.contains_key("ext"@) <==> value.ext is Some
            },
    {
        Native::lemma_written_fields(value);
    }
}

impl Record for Native {
    open spec fn claims(key: Seq<char>) -> bool {
        ||| key == "request"@
        ||| key == "request_native"@
        ||| key == "ver"@
        ||| key == "api"@
        ||| key == "battr"@
        ||| key == "ext"@
    }

    proof fn lemma_writes_claimed_keys(value: NativeView) {
        Members::lemma_lookup();
        let members = Native::encode_spec(value)->Object_0;
        assert forall|key: Seq<char>| #[trigger] members.contains_key(key) implies Native::claims(
            key,
        ) by {
            assert(raw_field(members, key) is Some);
        }
    }

    proof fn lemma_unclaimed_key_is_passed_over(
        members: Map<Seq<char>, JsonView>,
        key: Seq<char>,
        value: JsonView,
    ) {
        lemma_other_key::<String>(members, "request"@, key, value);
        lemma_other_key::<NativeRequest>(members, "request_native"@, key, value);
        lemma_other_key::<String>(members, "ver"@, key, value);
        lemma_other_key::<Vec<ApiFramework>>(members, "api"@, key, value);
        lemma_other_key::<Vec<CreativeAttribute>>(members, "battr"@, key, value);
        lemma_other_key_raw(members, "ext"@, key, value);
    }
}

} // verus!
