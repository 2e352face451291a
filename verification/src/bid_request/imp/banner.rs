//! Banner impressions.

use crate::bool::Bool;
use crate::error::{DecodeError, DecodeErrorView};
use crate::json::{Json, JsonView};
use crate::object::{
    encode_opt, lemma_opt_field_round_trip, lemma_other_key, lemma_other_key_raw, Members,
    ObjectWriter, opt_field, opt_view, raw_field, read_members, read_opt_field, read_raw_field,
    Record,
};
use crate::text::lemma_head;
use crate::vocabulary::creative::{
    AdPosition, ApiFramework, BannerAdType, CreativeAttribute, ExpandableDirection,
};
use crate::wire::{Wire, wrong_type};
use vstd::prelude::*;

verus! {

/// A banner impression, the most general kind: a static image, an expandable
/// unit or in-banner video. Banners also serve as the companion ads of a video.
#[derive(Clone, Debug, PartialEq)]
pub struct Banner {
    /// Width in device independent pixels (DIPS). If no format objects are specified, this
    /// is an exact width requirement.
    pub w: Option<i32>,
    /// Height in device independent pixels (DIPS). If no format objects are specified, this
    /// is an exact height requirement.
    pub h: Option<i32>,
    /// Array of format objects representing the banner sizes permitted. If none are
    /// specified, then use of the h and w attributes is highly recommended.
    pub format: Option<Vec<Format>>,
    /// Unique identifier for this banner object. Recommended when Banner objects are used
    /// with a Video object (Section 3.2.4) to represent an array of companion ads.
    pub id: Option<String>,
    /// Ad position on screen.
    pub pos: Option<AdPosition>,
    /// Blocked banner ad types.
    pub btype: Option<Vec<BannerAdType>>,
    /// Blocked creative attributes.
    pub battr: Option<Vec<CreativeAttribute>>,
    /// Allowlist of content MIME types supported. Popular MIME types include, but are not
    /// limited to "image/jpg", "image/gif" and "application/x-shockwave-flash".
    pub mimes: Option<Vec<String>>,
    /// Specify if the banner is delivered in the top frame (true) or in an iframe (false).
    pub topframe: Option<Bool>,
    /// Directions in which the banner may expand.
    pub expdir: Option<Vec<ExpandableDirection>>,
    /// List of supported API frameworks for this impression. If an API is not explicitly
    /// listed, it is assumed not to be supported.
    pub api: Option<Vec<ApiFramework>>,
    /// Relevant only for Banner objects used with a Video object (Section 3.2.7) in an
    /// array of companion ads. Indicates the companion banner rendering mode relative to
    /// the associated video, where false = concurrent, true = end-card.
    pub vcm: Option<Bool>,
    /// Deprecated in OpenRTB 2.4+. Prefer the field `format`.
    pub wmax: Option<i32>,
    /// Deprecated in OpenRTB 2.4+. Prefer the field `format`.
    pub hmax: Option<i32>,
    /// Deprecated in OpenRTB 2.4+. Prefer the field `format`.
    pub wmin: Option<i32>,
    /// Deprecated in OpenRTB 2.4+. Prefer the field `format`.
    pub hmin: Option<i32>,
    /// Vendor extensions, carried as they are.
    pub ext: Option<Json>,
}

/// The mathematical value of a [`Banner`].
pub struct BannerView {
    pub w: Option<i32>,
    pub h: Option<i32>,
    pub format: Option<Seq<FormatView>>,
    pub id: Option<Seq<char>>,
    pub pos: Option<AdPosition>,
    pub btype: Option<Seq<BannerAdType>>,
    pub battr: Option<Seq<CreativeAttribute>>,
    pub mimes: Option<Seq<Seq<char>>>,
    pub topframe: Option<Bool>,
    pub expdir: Option<Seq<ExpandableDirection>>,
    pub api: Option<Seq<ApiFramework>>,
    pub vcm: Option<Bool>,
    pub wmax: Option<i32>,
    pub hmax: Option<i32>,
    pub wmin: Option<i32>,
    pub hmin: Option<i32>,
    pub ext: Option<JsonView>,
}

impl DeepView for Banner {
    type V = BannerView;

    open spec fn deep_view(&self) -> BannerView {
        BannerView {
            w: opt_view(self.w),
            h: opt_view(self.h),
            format: opt_view(self.format),
            id: opt_view(self.id),
            pos: opt_view(self.pos),
            btype: opt_view(self.btype),
            battr: opt_view(self.battr),
            mimes: opt_view(self.mimes),
            topframe: opt_view(self.topframe),
            expdir: opt_view(self.expdir),
            api: opt_view(self.api),
            vcm: opt_view(self.vcm),
            wmax: opt_view(self.wmax),
            hmax: opt_view(self.hmax),
            wmin: opt_view(self.wmin),
            hmin: opt_view(self.hmin),
            ext: opt_view(self.ext),
        }
    }
}

impl BannerView {
    /// The value in which every optional field is absent and every required
    /// field is empty or zero.
    pub open spec fn empty() -> BannerView {
        BannerView {
            w: None,
            h: None,
            format: None,
            id: None,
            pos: None,
            btype: None,
            battr: None,
            mimes: None,
            topframe: None,
            expdir: None,
            api: None,
            vcm: None,
            wmax: None,
            hmax: None,
            wmin: None,
            hmin: None,
            ext: None,
        }
    }
}

impl Default for Banner {
    fn default() -> (value: Banner)
        ensures
            value.deep_view() == BannerView::empty(),
    {
        let value = Banner {
            w: None,
            h: None,
            format: None,
            id: None,
            pos: None,
            btype: None,
            battr: None,
            mimes: None,
            topframe: None,
            expdir: None,
            api: None,
            vcm: None,
            wmax: None,
            hmax: None,
            wmin: None,
            hmin: None,
            ext: None,
        };
        proof {
            reveal(opt_view);
        }
        value
    }
}

impl Wire for Banner {
    open spec fn encode_spec(value: BannerView) -> JsonView {
        Members::empty()
            .with_opt("w"@, encode_opt::<i32>(value.w))
            .with_opt("h"@, encode_opt::<i32>(value.h))
            .with_opt("format"@, encode_opt::<Vec<Format>>(value.format))
            .with_opt("id"@, encode_opt::<String>(value.id))
            .with_opt("pos"@, encode_opt::<AdPosition>(value.pos))
            .with_opt("btype"@, encode_opt::<Vec<BannerAdType>>(value.btype))
            .with_opt("battr"@, encode_opt::<Vec<CreativeAttribute>>(value.battr))
            .with_opt("mimes"@, encode_opt::<Vec<String>>(value.mimes))
            .with_opt("topframe"@, encode_opt::<Bool>(value.topframe))
            .with_opt("expdir"@, encode_opt::<Vec<ExpandableDirection>>(value.expdir))
            .with_opt("api"@, encode_opt::<Vec<ApiFramework>>(value.api))
            .with_opt("vcm"@, encode_opt::<Bool>(value.vcm))
            .with_opt("wmax"@, encode_opt::<i32>(value.wmax))
            .with_opt("hmax"@, encode_opt::<i32>(value.hmax))
            .with_opt("wmin"@, encode_opt::<i32>(value.wmin))
            .with_opt("hmin"@, encode_opt::<i32>(value.hmin))
            .with_opt("ext"@, value.ext)
            .json()
    }

    open spec fn decode_spec(doc: JsonView) -> Result<BannerView, DecodeErrorView> {
        match doc {
            JsonView::Object(members) => {
                let w = opt_field::<i32>(members, "w"@);
                let h = opt_field::<i32>(members, "h"@);
                let format = opt_field::<Vec<Format>>(members, "format"@);
                let id = opt_field::<String>(members, "id"@);
                let pos = opt_field::<AdPosition>(members, "pos"@);
                let btype = opt_field::<Vec<BannerAdType>>(members, "btype"@);
                let battr = opt_field::<Vec<CreativeAttribute>>(members, "battr"@);
                let mimes = opt_field::<Vec<String>>(members, "mimes"@);
                let topframe = opt_field::<Bool>(members, "topframe"@);
                let expdir = opt_field::<Vec<ExpandableDirection>>(members, "expdir"@);
                let api = opt_field::<Vec<ApiFramework>>(members, "api"@);
                let vcm = opt_field::<Bool>(members, "vcm"@);
                let wmax = opt_field::<i32>(members, "wmax"@);
                let hmax = opt_field::<i32>(members, "hmax"@);
                let wmin = opt_field::<i32>(members, "wmin"@);
                let hmin = opt_field::<i32>(members, "hmin"@);
                let ext = raw_field(members, "ext"@);
                if w is Err {
                    Err(w->Err_0)
                } else if h is Err {
                    Err(h->Err_0)
                } else if format is Err {
                    Err(format->Err_0)
                } else if id is Err {
                    Err(id->Err_0)
                } else if pos is Err {
                    Err(pos->Err_0)
                } else if btype is Err {
                    Err(btype->Err_0)
                } else if battr is Err {
                    Err(battr->Err_0)
                } else if mimes is Err {
                    Err(mimes->Err_0)
                } else if topframe is Err {
                    Err(topframe->Err_0)
                } else if expdir is Err {
                    Err(expdir->Err_0)
                } else if api is Err {
                    Err(api->Err_0)
                } else if vcm is Err {
                    Err(vcm->Err_0)
                } else if wmax is Err {
                    Err(wmax->Err_0)
                } else if hmax is Err {
                    Err(hmax->Err_0)
                } else if wmin is Err {
                    Err(wmin->Err_0)
                } else if hmin is Err {
                    Err(hmin->Err_0)
                } else {
                    Ok(
                        BannerView {
                            w: w->Ok_0,
                            h: h->Ok_0,
                            format: format->Ok_0,
                            id: id->Ok_0,
                            pos: pos->Ok_0,
                            btype: btype->Ok_0,
                            battr: battr->Ok_0,
                            mimes: mimes->Ok_0,
                            topframe: topframe->Ok_0,
                            expdir: expdir->Ok_0,
                            api: api->Ok_0,
                            vcm: vcm->Ok_0,
                            wmax: wmax->Ok_0,
                            hmax: hmax->Ok_0,
                            wmin: wmin->Ok_0,
                            hmin: hmin->Ok_0,
                            ext,
                        },
                    )
                }
            },
            _ => wrong_type(),
        }
    }

    fn encode(&self) -> (doc: Json) {
        let mut object = ObjectWriter::new();
        object.opt_field("w", &self.w);
        object.opt_field("h", &self.h);
        object.opt_field("format", &self.format);
        object.opt_field("id", &self.id);
        object.opt_field("pos", &self.pos);
        object.opt_field("btype", &self.btype);
        object.opt_field("battr", &self.battr);
        object.opt_field("mimes", &self.mimes);
        object.opt_field("topframe", &self.topframe);
        object.opt_field("expdir", &self.expdir);
        object.opt_field("api", &self.api);
        object.opt_field("vcm", &self.vcm);
        object.opt_field("wmax", &self.wmax);
        object.opt_field("hmax", &self.hmax);
        object.opt_field("wmin", &self.wmin);
        object.opt_field("hmin", &self.hmin);
        object.raw_field("ext", &self.ext);
        object.finish()
    }

    fn decode(doc: &Json) -> (result: Result<Banner, DecodeError>) {
        let members = read_members(doc)?;
        let w = read_opt_field::<i32>(members, "w")?;
        let h = read_opt_field::<i32>(members, "h")?;
        let format = read_opt_field::<Vec<Format>>(members, "format")?;
        let id = read_opt_field::<String>(members, "id")?;
        let pos = read_opt_field::<AdPosition>(members, "pos")?;
        let btype = read_opt_field::<Vec<BannerAdType>>(members, "btype")?;
        let battr = read_opt_field::<Vec<CreativeAttribute>>(members, "battr")?;
        let mimes = read_opt_field::<Vec<String>>(members, "mimes")?;
        let topframe = read_opt_field::<Bool>(members, "topframe")?;
        let expdir = read_opt_field::<Vec<ExpandableDirection>>(members, "expdir")?;
        let api = read_opt_field::<Vec<ApiFramework>>(members, "api")?;
        let vcm = read_opt_field::<Bool>(members, "vcm")?;
        let wmax = read_opt_field::<i32>(members, "wmax")?;
        let hmax = read_opt_field::<i32>(members, "hmax")?;
        let wmin = read_opt_field::<i32>(members, "wmin")?;
        let hmin = read_opt_field::<i32>(members, "hmin")?;
        let ext = read_raw_field(members, "ext");
        Ok(
            Banner {
                w,
                h,
                format,
                id,
                pos,
                btype,
                battr,
                mimes,
                topframe,
                expdir,
                api,
                vcm,
                wmax,
                hmax,
                wmin,
                hmin,
                ext,
            },
        )
    }

    proof fn lemma_round_trip(value: BannerView) {
        Banner::lemma_written_fields(value);
        let members = Banner::encode_spec(value)->Object_0;
        lemma_opt_field_round_trip::<i32>(members, "w"@, value.w);
        lemma_opt_field_round_trip::<i32>(members, "h"@, value.h);
        lemma_opt_field_round_trip::<Vec<Format>>(members, "format"@, value.format);
        lemma_opt_field_round_trip::<String>(members, "id"@, value.id);
        lemma_opt_field_round_trip::<AdPosition>(members, "pos"@, value.pos);
        lemma_opt_field_round_trip::<Vec<BannerAdType>>(members, "btype"@, value.btype);
        lemma_opt_field_round_trip::<Vec<CreativeAttribute>>(members, "battr"@, value.battr);
        lemma_opt_field_round_trip::<Vec<String>>(members, "mimes"@, value.mimes);
        lemma_opt_field_round_trip::<Bool>(members, "topframe"@, value.topframe);
        lemma_opt_field_round_trip::<Vec<ExpandableDirection>>(members, "expdir"@, value.expdir);
        lemma_opt_field_round_trip::<Vec<ApiFramework>>(members, "api"@, value.api);
        lemma_opt_field_round_trip::<Bool>(members, "vcm"@, value.vcm);
        lemma_opt_field_round_trip::<i32>(members, "wmax"@, value.wmax);
        lemma_opt_field_round_trip::<i32>(members, "hmax"@, value.hmax);
        lemma_opt_field_round_trip::<i32>(members, "wmin"@, value.wmin);
        lemma_opt_field_round_trip::<i32>(members, "hmin"@, value.hmin);
    }
}

impl Banner {
    /// What stands under each key on the wire: the wire form of the field of
    /// that name, whatever it holds, and nothing at all where the field is
    /// absent.
    pub proof fn lemma_written_fields(value: BannerView)
        ensures
            Banner::encode_spec(value) matches JsonView::Object(members) && {
                &&& raw_field(members, "w"@) == encode_opt::<i32>(value.w)
                &&& raw_field(members, "h"@) == encode_opt::<i32>(value.h)
                &&& raw_field(members, "format"@) == encode_opt::<Vec<Format>>(value.format)
                &&& raw_field(members, "id"@) == encode_opt::<String>(value.id)
                &&& raw_field(members, "pos"@) == encode_opt::<AdPosition>(value.pos)
                &&& raw_field(members, "btype"@) == encode_opt::<Vec<BannerAdType>>(value.btype)
                &&& raw_field(members, "battr"@)
                    == encode_opt::<Vec<CreativeAttribute>>(value.battr)
                &&& raw_field(members, "mimes"@) == encode_opt::<Vec<String>>(value.mimes)
                &&& raw_field(members, "topframe"@) == encode_opt::<Bool>(value.topframe)
                &&& raw_field(members, "expdir"@)
                    == encode_opt::<Vec<ExpandableDirection>>(value.expdir)
                &&& raw_field(members, "api"@) == encode_opt::<Vec<ApiFramework>>(value.api)
                &&& raw_field(members, "vcm"@) == encode_opt::<Bool>(value.vcm)
                &&& raw_field(members, "wmax"@) == encode_opt::<i32>(value.wmax)
                &&& raw_field(members, "hmax"@) == encode_opt::<i32>(value.hmax)
                &&& raw_field(members, "wmin"@) == encode_opt::<i32>(value.wmin)
                &&& raw_field(members, "hmin"@) == encode_opt::<i32>(value.hmin)
                &&& raw_field(members, "ext"@) == value.ext
            },
    {
        Members::lemma_lookup();
        reveal_strlit("w");
        reveal_strlit("h");
        reveal_strlit("format");
        reveal_strlit("id");
        reveal_strlit("pos");
        reveal_strlit("btype");
        reveal_strlit("battr");
        reveal_strlit("mimes");
        reveal_strlit("topframe");
        reveal_strlit("expdir");
        reveal_strlit("api");
        reveal_strlit("vcm");
        reveal_strlit("wmax");
        reveal_strlit("hmax");
        reveal_strlit("wmin");
        reveal_strlit("hmin");
        reveal_strlit("ext");
        lemma_head("w"@);
        lemma_head("h"@);
        lemma_head("format"@);
        lemma_head("id"@);
        lemma_head("pos"@);
        lemma_head("btype"@);
        lemma_head("battr"@);
        lemma_head("mimes"@);
        lemma_head("topframe"@);
        lemma_head("expdir"@);
        lemma_head("api"@);
        lemma_head("vcm"@);
        lemma_head("wmax"@);
        lemma_head("hmax"@);
        lemma_head("wmin"@);
        lemma_head("hmin"@);
        lemma_head("ext"@);
    }

    /// An optional field that is absent leaves no key on the wire, and a field
    /// that is present has its key, also where it holds zero, false or nothing.
    pub proof fn lemma_written_keys(value: BannerView)
        ensures
            Banner::encode_spec(value) matches JsonView::Object(members) && {
                &&& members.contains_key("w"@) <==> value.w is Some
                &&& members.contains_key("h"@) <==> value.h is Some
                &&& members.contains_key("format"@) <==> value.format is Some
                &&& members.contains_key("id"@) <==> value.id is Some
                &&& members.contains_key("pos"@) <==> value.pos is Some
                &&& members.contains_key("btype"@) <==> value.btype is Some
                &&& members.contains_key("battr"@) <==> value.battr is Some
                &&& members.contains_key("mimes"@) <==> value.mimes is Some
                &&& members.contains_key("topframe"@) <==> value.topframe is Some
                &&& members.contains_key("expdir"@) <==> value.expdir is Some
                &&& members.contains_key("api"@) <==> value.api is Some
                &&& members.contains_key("vcm"@) <==> value.vcm is Some
                &&& members.contains_key("wmax"@) <==> value.wmax is Some
                &&& members.contains_key("hmax"@) <==> value.hmax is Some
                &&& members.contains_key("wmin"@) <==> value.wmin is Some
                &&& members.contains_key("hmin"@) <==> value.hmin is Some
                &&& members.contains_key("ext"@) <==> value.ext is Some
            },
    {
        Banner::lemma_written_fields(value);
    }
}

impl Record for Banner {
    open spec fn claims(key: Seq<char>) -> bool {
        ||| key == "w"@
        ||| key == "h"@
        ||| key == "format"@
        ||| key == "id"@
        ||| key == "pos"@
        ||| key == "btype"@
        ||| key == "battr"@
        ||| key == "mimes"@
        ||| key == "topframe"@
        ||| key == "expdir"@
        ||| key == "api"@
        ||| key == "vcm"@
        ||| key == "wmax"@
        ||| key == "hmax"@
        ||| key == "wmin"@
        ||| key == "hmin"@
        ||| key == "ext"@
    }

    proof fn lemma_writes_claimed_keys(value: BannerView) {
        Members::lemma_lookup();
        let members = Banner::encode_spec(value)->Object_0;
        assert forall|key: Seq<char>| #[trigger] members.contains_key(key) implies Banner::claims(
            key,
        ) by {
            assert(raw_field(members, key) is Some);
        }
    }

    proof fn lemma_unclaimed_key_is_passed_over(
        members: Map<Seq<char>, JsonView>,
        key: Seq<char>,
        value: JsonView,
    ) {
        lemma_other_key::<i32>(members, "w"@, key, value);
        lemma_other_key::<i32>(members, "h"@, key, value);
        lemma_other_key::<Vec<Format>>(members, "format"@, key, value);
        lemma_other_key::<String>(members, "id"@, key, value);
        lemma_other_key::<AdPosition>(members, "pos"@, key, value);
        lemma_other_key::<Vec<BannerAdType>>(members, "btype"@, key, value);
        lemma_other_key::<Vec<CreativeAttribute>>(members, "battr"@, key, value);
        lemma_other_key::<Vec<String>>(members, "mimes"@, key, value);
        lemma_other_key::<Bool>(members, "topframe"@, key, value);
        lemma_other_key::<Vec<ExpandableDirection>>(members, "expdir"@, key, value);
        lemma_other_key::<Vec<ApiFramework>>(members, "api"@, key, value);
        lemma_other_key::<Bool>(members, "vcm"@, key, value);
        lemma_other_key::<i32>(members, "wmax"@, key, value);
        lemma_other_key::<i32>(members, "hmax"@, key, value);
        lemma_other_key::<i32>(members, "wmin"@, key, value);
        lemma_other_key::<i32>(members, "hmin"@, key, value);
        lemma_other_key_raw(members, "ext"@, key, value);
    }
}

/// A size that is allowed for a banner impression.
#[derive(Clone, Debug, PartialEq)]
pub struct Format {
    /// Width in device independent pixels (DIPS).
    pub w: Option<i32>,
    /// Height in device independent pixels (DIPS).
    pub h: Option<i32>,
    /// Relative width when expressing size as a ratio.
    pub wratio: Option<i32>,
    /// Relative height when expressing size as a ratio.
    pub hratio: Option<i32>,
    /// The minimum width in device independent pixels (DIPS) at which the ad will be
    /// displayed when the size is expressed as a ratio.
    pub wmin: Option<i32>,
    /// Vendor extensions, carried as they are.
    pub ext: Option<Json>,
}

/// The mathematical value of a [`Format`].
pub struct FormatView {
    pub w: Option<i32>,
    pub h: Option<i32>,
    pub wratio: Option<i32>,
    pub hratio: Option<i32>,
    pub wmin: Option<i32>,
    pub ext: Option<JsonView>,
}

impl DeepView for Format {
    type V = FormatView;

    open spec fn deep_view(&self) -> FormatView {
        FormatView {
            w: opt_view(self.w),
            h: opt_view(self.h),
            wratio: opt_view(self.wratio),
            hratio: opt_view(self.hratio),
            wmin: opt_view(self.wmin),
            ext: opt_view(self.ext),
        }
    }
}

impl FormatView {
    /// The value in which every optional field is absent and every required
    /// field is empty or zero.
    pub open spec fn empty() -> FormatView {
        FormatView {
            w: None,
            h: None,
            wratio: None,
            hratio: None,
            wmin: None,
            ext: None,
        }
    }
}

impl Default for Format {
    fn default() -> (value: Format)
        ensures
            value.deep_view() == FormatView::empty(),
    {
        let value = Format {
            w: None,
            h: None,
            wratio: None,
            hratio: None,
            wmin: None,
            ext: None,
        };
        proof {
            reveal(opt_view);
        }
        value
    }
}

impl Wire for Format {
    open spec fn encode_spec(value: FormatView) -> JsonView {
        Members::empty()
            .with_opt("w"@, encode_opt::<i32>(value.w))
            .with_opt("h"@, encode_opt::<i32>(value.h))
            .with_opt("wratio"@, encode_opt::<i32>(value.wratio))
            .with_opt("hratio"@, encode_opt::<i32>(value.hratio))
            .with_opt("wmin"@, encode_opt::<i32>(value.wmin))
            .with_opt("ext"@, value.ext)
            .json()
    }

    open spec fn decode_spec(doc: JsonView) -> Result<FormatView, DecodeErrorView> {
        match doc {
            JsonView::Object(members) => {
                let w = opt_field::<i32>(members, "w"@);
                let h = opt_field::<i32>(members, "h"@);
                let wratio = opt_field::<i32>(members, "wratio"@);
                let hratio = opt_field::<i32>(members, "hratio"@);
                let wmin = opt_field::<i32>(members, "wmin"@);
                let ext = raw_field(members, "ext"@);
                if w is Err {
                    Err(w->Err_0)
                } else if h is Err {
                    Err(h->Err_0)
                } else if wratio is Err {
                    Err(wratio->Err_0)
                } else if hratio is Err {
                    Err(hratio->Err_0)
                } else if wmin is Err {
                    Err(wmin->Err_0)
                } else {
                    Ok(
                        FormatView {
                            w: w->Ok_0,
                            h: h->Ok_0,
                            wratio: wratio->Ok_0,
                            hratio: hratio->Ok_0,
                            wmin: wmin->Ok_0,
                            ext,
                        },
                    )
                }
            },
            _ => wrong_type(),
        }
    }

    fn encode(&self) -> (doc: Json) {
        let mut object = ObjectWriter::new();
        object.opt_field("w", &self.w);
        object.opt_field("h", &self.h);
        object.opt_field("wratio", &self.wratio);
        object.opt_field("hratio", &self.hratio);
        object.opt_field("wmin", &self.wmin);
        object.raw_field("ext", &self.ext);
        object.finish()
    }

    fn decode(doc: &Json) -> (result: Result<Format, DecodeError>) {
        let members = read_members(doc)?;
        let w = read_opt_field::<i32>(members, "w")?;
        let h = read_opt_field::<i32>(members, "h")?;
        let wratio = read_opt_field::<i32>(members, "wratio")?;
        let hratio = read_opt_field::<i32>(members, "hratio")?;
        let wmin = read_opt_field::<i32>(members, "wmin")?;
        let ext = read_raw_field(members, "ext");
        Ok(
            Format {
                w,
                h,
                wratio,
                hratio,
                wmin,
                ext,
            },
        )
    }

    proof fn lemma_round_trip(value: FormatView) {
        Format::lemma_written_fields(value);
        let members = Format::encode_spec(value)->Object_0;
        lemma_opt_field_round_trip::<i32>(members, "w"@, value.w);
        lemma_opt_field_round_trip::<i32>(members, "h"@, value.h);
        lemma_opt_field_round_trip::<i32>(members, "wratio"@, value.wratio);
        lemma_opt_field_round_trip::<i32>(members, "hratio"@, value.hratio);
        lemma_opt_field_round_trip::<i32>(members, "wmin"@, value.wmin);
    }
}

impl Format {
    /// What stands under each key on the wire: the wire form of the field of
    /// that name, whatever it holds, and nothing at all where the field is
    /// absent.
    pub proof fn lemma_written_fields(value: FormatView)
        ensures
            Format::encode_spec(value) matches JsonView::Object(members) && {
                &&& raw_field(members, "w"@) == encode_opt::<i32>(value.w)
                &&& raw_field(members, "h"@) == encode_opt::<i32>(value.h)
                &&& raw_field(members, "wratio"@) == encode_opt::<i32>(value.wratio)
                &&& raw_field(members, "hratio"@) == encode_opt::<i32>(value.hratio)
                &&& raw_field(members, "wmin"@) == encode_opt::<i32>(value.wmin)
                &&& raw_field(members, "ext"@) == value.ext
            },
    {
        Members::lemma_lookup();
        reveal_strlit("w");
        reveal_strlit("h");
        reveal_strlit("wratio");
        reveal_strlit("hratio");
        reveal_strlit("wmin");
        reveal_strlit("ext");
        lemma_head("w"@);
        lemma_head("h"@);
        lemma_head("wratio"@);
        lemma_head("hratio"@);
        lemma_head("wmin"@);
        lemma_head("ext"@);
    }

    /// An optional field that is absent leaves no key on the wire, and a field
    /// that is present has its key, also where it holds zero, false or nothing.
    pub proof fn lemma_written_keys(value: FormatView)
        ensures
            Format::encode_spec(value) matches JsonView::Object(members) && {
                &&& members.contains_key("w"@) <==> value.w is Some
                &&& members.contains_key("h"@) <==> value.h is Some
                &&& members.contains_key("wratio"@) <==> value.wratio is Some
                &&& members.contains_key("hratio"@) <==> value.hratio is Some
                &&& members.contains_key("wmin"@) <==> value.wmin is Some
                &&& members.contains_key("ext"@) <==> value.ext is Some
            },
    {
        Format::lemma_written_fields(value);
    }
}

impl Record for Format {
    open spec fn claims(key: Seq<char>) -> bool {
        ||| key == "w"@
        ||| key == "h"@
        ||| key == "wratio"@
        ||| key == "hratio"@
        ||| key == "wmin"@
        ||| key == "ext"@
    }

    proof fn lemma_writes_claimed_keys(value: FormatView) {
        Members::lemma_lookup();
        let members = Format::encode_spec(value)->Object_0;
        assert forall|key: Seq<char>| #[trigger] members.contains_key(key) implies Format::claims(
            key,
        ) by {
            assert(raw_field(members, key) is Some);
        }
    }

    proof fn lemma_unclaimed_key_is_passed_over(
        members: Map<Seq<char>, JsonView>,
        key: Seq<char>,
        value: JsonView,
    ) {
        lemma_other_key::<i32>(members, "w"@, key, value);
        lemma_other_key::<i32>(members, "h"@, key, value);
        lemma_other_key::<i32>(members, "wratio"@, key, value);
        lemma_other_key::<i32>(members, "hratio"@, key, value);
        lemma_other_key::<i32>(members, "wmin"@, key, value);
        lemma_other_key_raw(members, "ext"@, key, value);
    }
}

} // verus!
