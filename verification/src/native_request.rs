//! The request of the Native Ads extension.

use crate::bid_request::imp::{Video, VideoView};
use crate::bool::Bool;
use crate::error::{DecodeError, DecodeErrorView};
use crate::json::{Json, JsonView};
use crate::native_request::asset::{Data, DataView, Image, ImageView, Title, TitleView};
use crate::object::{
    encode_opt, field, lemma_field_round_trip, lemma_opt_field_round_trip, lemma_other_key,
    lemma_other_key_raw, Members, ObjectWriter, opt_field, opt_view, raw_field, read_field,
    read_members, read_opt_field, read_raw_field, Record,
};
use crate::text::lemma_head;
use crate::vocabulary::native::{
    AdUnitId, ContextSubtype, ContextType, EventTrackingMethod, EventType, LayoutId,
    PlacementType,
};
use crate::wire::{Wire, wrong_type};
use vstd::prelude::*;

pub mod asset;

verus! {

/// The native ad opportunity that is offered: what the ad unit is to consist of.
#[derive(Clone, Debug, PartialEq)]
pub struct NativeRequest {
    /// Version of the Native Markup version in use.
    pub ver: Option<String>,
    /// The context in which the ad appears.
    pub context: Option<ContextType>,
    /// A more detailed context in which the ad appears.
    pub contextsubtype: Option<ContextSubtype>,
    /// The design/format/layout of the ad unit being offered.
    pub plcmttype: Option<PlacementType>,
    /// The number of identical placements in this Layout.
    pub plcmtcnt: Option<i32>,
    /// 0 for the first ad, 1 for the second ad, and so on.
    pub seq: Option<i32>,
    /// Any bid must comply with the array of elements expressed by the Exchange. REQUIRED
    /// by the OpenRTB Native standard: at least 1 element.
    pub assets: Vec<Asset>,
    /// Whether the supply source / impression supports returning an assetsurl instead of an
    /// asset object. false or the absence of the field indicates no such support.
    pub aurlsupport: Option<Bool>,
    /// Whether the supply source / impression supports returning a DCO URL instead of an
    /// asset object. false or the absence of the field indicates no such support. Beta
    /// feature.
    pub durlsupport: Option<Bool>,
    /// Specifies what type of event tracking is supported.
    pub eventtrackers: Option<Vec<EventTrackers>>,
    /// Set to true when the native ad supports buyer-specific privacy notice. Set to false
    /// (or field absent) when the native ad doesn't support custom privacy links or if
    /// support is unknown.
    pub privacy: Option<Bool>,
    /// Deprecated in OpenRTB Native 1.1, removed in 1.2+. Use field `plcmttype`.
    pub layout: Option<LayoutId>,
    /// Deprecated in OpenRTB Native 1.1, removed in 1.2+. Use fields `context` and
    /// `contextsubtype`.
    pub adunit: Option<AdUnitId>,
    /// Vendor extensions, carried as they are.
    pub ext: Option<Json>,
}

/// The mathematical value of a [`NativeRequest`].
pub struct NativeRequestView {
    pub ver: Option<Seq<char>>,
    pub context: Option<ContextType>,
    pub contextsubtype: Option<ContextSubtype>,
    pub plcmttype: Option<PlacementType>,
    pub plcmtcnt: Option<i32>,
    pub seq: Option<i32>,
    pub assets: Seq<AssetView>,
    pub aurlsupport: Option<Bool>,
    pub durlsupport: Option<Bool>,
    pub eventtrackers: Option<Seq<EventTrackersView>>,
    pub privacy: Option<Bool>,
    pub layout: Option<LayoutId>,
    pub adunit: Option<AdUnitId>,
    pub ext: Option<JsonView>,
}

impl DeepView for NativeRequest {
    type V = NativeRequestView;

    open spec fn deep_view(&self) -> NativeRequestView {
        NativeRequestView {
            ver: opt_view(self.ver),
            context: opt_view(self.context),
            contextsubtype: opt_view(self.contextsubtype),
            plcmttype: opt_view(self.plcmttype),
            plcmtcnt: opt_view(self.plcmtcnt),
            seq: opt_view(self.seq),
            assets: self.assets.deep_view(),
            aurlsupport: opt_view(self.aurlsupport),
            durlsupport: opt_view(self.durlsupport),
            eventtrackers: opt_view(self.eventtrackers),
            privacy: opt_view(self.privacy),
            layout: opt_view(self.layout),
            adunit: opt_view(self.adunit),
            ext: opt_view(self.ext),
        }
    }
}

impl NativeRequestView {
    /// The value in which every optional field is absent and every required
    /// field is empty or zero.
    pub open spec fn empty() -> NativeRequestView {
        NativeRequestView {
            ver: None,
            context: None,
            contextsubtype: None,
            plcmttype: None,
            plcmtcnt: None,
            seq: None,
            assets: Seq::empty(),
            aurlsupport: None,
            durlsupport: None,
            eventtrackers: None,
            privacy: None,
            layout: None,
            adunit: None,
            ext: None,
        }
    }
}

impl Default for NativeRequest {
    fn default() -> (value: NativeRequest)
        ensures
            value.deep_view() == NativeRequestView::empty(),
    {
        let value = NativeRequest {
            ver: None,
            context: None,
            contextsubtype: None,
            plcmttype: None,
            plcmtcnt: None,
            seq: None,
            assets: Vec::new(),
            aurlsupport: None,
            durlsupport: None,
            eventtrackers: None,
            privacy: None,
            layout: None,
            adunit: None,
            ext: None,
        };
        proof {
            reveal(opt_view);
            assert(value.assets.deep_view() =~= Seq::empty());
        }
        value
    }
}

impl Wire for NativeRequest {
    open spec fn encode_spec(value: NativeRequestView) -> JsonView {
        Members::empty()
            .with_opt("ver"@, encode_opt::<String>(value.ver))
            .with_opt("context"@, encode_opt::<ContextType>(value.context))
            .with_opt("contextsubtype"@, encode_opt::<ContextSubtype>(value.contextsubtype))
            .with_opt("plcmttype"@, encode_opt::<PlacementType>(value.plcmttype))
            .with_opt("plcmtcnt"@, encode_opt::<i32>(value.plcmtcnt))
            .with_opt("seq"@, encode_opt::<i32>(value.seq))
            .with("assets"@, Vec::<Asset>::encode_spec(value.assets))
            .with_opt("aurlsupport"@, encode_opt::<Bool>(value.aurlsupport))
            .with_opt("durlsupport"@, encode_opt::<Bool>(value.durlsupport))
            .with_opt("eventtrackers"@, encode_opt::<Vec<EventTrackers>>(value.eventtrackers))
            .with_opt("privacy"@, encode_opt::<Bool>(value.privacy))
            .with_opt("layout"@, encode_opt::<LayoutId>(value.layout))
            .with_opt("adunit"@, encode_opt::<AdUnitId>(value.adunit))
            .with_opt("ext"@, value.ext)
            .json()
    }

    open spec fn decode_spec(doc: JsonView) -> Result<NativeRequestView, DecodeErrorView> {
        match doc {
            JsonView::Object(members) => {
                let ver = opt_field::<String>(members, "ver"@);
                let context = opt_field::<ContextType>(members, "context"@);
                let contextsubtype = opt_field::<ContextSubtype>(members, "contextsubtype"@);
                let plcmttype = opt_field::<PlacementType>(members, "plcmttype"@);
                let plcmtcnt = opt_field::<i32>(members, "plcmtcnt"@);
                let seq = opt_field::<i32>(members, "seq"@);
                let assets = field::<Vec<Asset>>(members, "assets"@);
                let aurlsupport = opt_field::<Bool>(members, "aurlsupport"@);
                let durlsupport = opt_field::<Bool>(members, "durlsupport"@);
                let eventtrackers = opt_field::<Vec<EventTrackers>>(members, "eventtrackers"@);
                let privacy = opt_field::<Bool>(members, "privacy"@);
                let layout = opt_field::<LayoutId>(members, "layout"@);
                let adunit = opt_field::<AdUnitId>(members, "adunit"@);
                let ext = raw_field(members, "ext"@);
                if ver is Err {
                    Err(ver->Err_0)
                } else if context is Err {
                    Err(context->Err_0)
                } else if contextsubtype is Err {
                    Err(contextsubtype->Err_0)
                } else if plcmttype is Err {
                    Err(plcmttype->Err_0)
                } else if plcmtcnt is Err {
                    Err(plcmtcnt->Err_0)
                } else if seq is Err {
                    Err(seq->Err_0)
                } else if assets is Err {
                    Err(assets->Err_0)
                } else if aurlsupport is Err {
                    Err(aurlsupport->Err_0)
                } else if durlsupport is Err {
                    Err(durlsupport->Err_0)
                } else if eventtrackers is Err {
                    Err(eventtrackers->Err_0)
                } else if privacy is Err {
                    Err(privacy->Err_0)
                } else if layout is Err {
                    Err(layout->Err_0)
                } else if adunit is Err {
                    Err(adunit->Err_0)
                } else {
                    Ok(
                        NativeRequestView {
                            ver: ver->Ok_0,
                            context: context->Ok_0,
                            contextsubtype: contextsubtype->Ok_0,
                            plcmttype: plcmttype->Ok_0,
                            plcmtcnt: plcmtcnt->Ok_0,
                            seq: seq->Ok_0,
                            assets: assets->Ok_0,
                            aurlsupport: aurlsupport->Ok_0,
                            durlsupport: durlsupport->Ok_0,
                            eventtrackers: eventtrackers->Ok_0,
                            privacy: privacy->Ok_0,
                            layout: layout->Ok_0,
                            adunit: adunit->Ok_0,
                            ext,
                        },
                    )
                }
            },
            _ => wrong_type(),
        }
    }

    fn encode(&self) -> (doc: Json) {
        let mut object = ObjectWriter::new();
        object.opt_field("ver", &self.ver);
        object.opt_field("context", &self.context);
        object.opt_field("contextsubtype", &self.contextsubtype);
        object.opt_field("plcmttype", &self.plcmttype);
        object.opt_field("plcmtcnt", &self.plcmtcnt);
        object.opt_field("seq", &self.seq);
        object.field("assets", &self.assets);
        object.opt_field("aurlsupport", &self.aurlsupport);
        object.opt_field("durlsupport", &self.durlsupport);
        object.opt_field("eventtrackers", &self.eventtrackers);
        object.opt_field("privacy", &self.privacy);
        object.opt_field("layout", &self.layout);
        object.opt_field("adunit", &self.adunit);
        object.raw_field("ext", &self.ext);
        object.finish()
    }

    fn decode(doc: &Json) -> (result: Result<NativeRequest, DecodeError>) {
        let members = read_members(doc)?;
        let ver = read_opt_field::<String>(members, "ver")?;
        let context = read_opt_field::<ContextType>(members, "context")?;
        let contextsubtype = read_opt_field::<ContextSubtype>(members, "contextsubtype")?;
        let plcmttype = read_opt_field::<PlacementType>(members, "plcmttype")?;
        let plcmtcnt = read_opt_field::<i32>(members, "plcmtcnt")?;
        let seq = read_opt_field::<i32>(members, "seq")?;
        let assets = read_field::<Vec<Asset>>(members, "assets")?;
        let aurlsupport = read_opt_field::<Bool>(members, "aurlsupport")?;
        let durlsupport = read_opt_field::<Bool>(members, "durlsupport")?;
        let eventtrackers = read_opt_field::<Vec<EventTrackers>>(members, "eventtrackers")?;
        let privacy = read_opt_field::<Bool>(members, "privacy")?;
        let layout = read_opt_field::<LayoutId>(members, "layout")?;
        let adunit = read_opt_field::<AdUnitId>(members, "adunit")?;
        let ext = read_raw_field(members, "ext");
        Ok(
            NativeRequest {
                ver,
                context,
                contextsubtype,
                plcmttype,
                plcmtcnt,
                seq,
                assets,
                aurlsupport,
                durlsupport,
                eventtrackers,
                privacy,
                layout,
                adunit,
                ext,
            },
        )
    }

    proof fn lemma_round_trip(value: NativeRequestView) {
        NativeRequest::lemma_written_fields(value);
        let members = NativeRequest::encode_spec(value)->Object_0;
        lemma_opt_field_round_trip::<String>(members, "ver"@, value.ver);
        lemma_opt_field_round_trip::<ContextType>(members, "context"@, value.context);
        lemma_opt_field_round_trip::<ContextSubtype>(
            members,
            "contextsubtype"@,
            value.contextsubtype,
        );
        lemma_opt_field_round_trip::<PlacementType>(members, "plcmttype"@, value.plcmttype);
        lemma_opt_field_round_trip::<i32>(members, "plcmtcnt"@, value.plcmtcnt);
        lemma_opt_field_round_trip::<i32>(members, "seq"@, value.seq);
        lemma_field_round_trip::<Vec<Asset>>(members, "assets"@, value.assets);
        lemma_opt_field_round_trip::<Bool>(members, "aurlsupport"@, value.aurlsupport);
        lemma_opt_field_round_trip::<Bool>(members, "durlsupport"@, value.durlsupport);
        lemma_opt_field_round_trip::<Vec<EventTrackers>>(
            members,
            "eventtrackers"@,
            value.eventtrackers,
        );
        lemma_opt_field_round_trip::<Bool>(members, "privacy"@, value.privacy);
        lemma_opt_field_round_trip::<LayoutId>(members, "layout"@, value.layout);
        lemma_opt_field_round_trip::<AdUnitId>(members, "adunit"@, value.adunit);
    }
}

impl NativeRequest {
    /// What stands under each key on the wire: the wire form of the field of
    /// that name, whatever it holds, and nothing at all where the field is
    /// absent.
    pub proof fn lemma_written_fields(value: NativeRequestView)
        ensures
            NativeRequest::encode_spec(value) matches JsonView::Object(members) && {
                &&& raw_field(members, "ver"@) == encode_opt::<String>(value.ver)
                &&& raw_field(members, "context"@) == encode_opt::<ContextType>(value.context)
                &&& raw_field(members, "contextsubtype"@)
                    == encode_opt::<ContextSubtype>(value.contextsubtype)
                &&& raw_field(members, "plcmttype"@) == encode_opt::<PlacementType>(value.plcmttype)
                &&& raw_field(members, "plcmtcnt"@) == encode_opt::<i32>(value.plcmtcnt)
                &&& raw_field(members, "seq"@) == encode_opt::<i32>(value.seq)
                &&& raw_field(members, "assets"@) == Some(Vec::<Asset>::encode_spec(value.assets))
                &&& raw_field(members, "aurlsupport"@) == encode_opt::<Bool>(value.aurlsupport)
                &&& raw_field(members, "durlsupport"@) == encode_opt::<Bool>(value.durlsupport)
                &&& raw_field(members, "eventtrackers"@)
                    == encode_opt::<Vec<EventTrackers>>(value.eventtrackers)
                &&& raw_field(members, "privacy"@) == encode_opt::<Bool>(value.privacy)
                &&& raw_field(members, "layout"@) == encode_opt::<LayoutId>(value.layout)
                &&& raw_field(members, "adunit"@) == encode_opt::<AdUnitId>(value.adunit)
                &&& raw_field(members, "ext"@) == value.ext
            },
    {
        Members::lemma_lookup();
        reveal_strlit("ver");
        reveal_strlit("context");
        reveal_strlit("contextsubtype");
        reveal_strlit("plcmttype");
        reveal_strlit("plcmtcnt");
        reveal_strlit("seq");
        reveal_strlit("assets");
        reveal_strlit("aurlsupport");
        reveal_strlit("durlsupport");
        reveal_strlit("eventtrackers");
        reveal_strlit("privacy");
        reveal_strlit("layout");
        reveal_strlit("adunit");
        reveal_strlit("ext");
        lemma_head("ver"@);
        lemma_head("context"@);
        lemma_head("contextsubtype"@);
        lemma_head("plcmttype"@);
        lemma_head("plcmtcnt"@);
        lemma_head("seq"@);
        lemma_head("assets"@);
        lemma_head("aurlsupport"@);
        lemma_head("durlsupport"@);
        lemma_head("eventtrackers"@);
        lemma_head("privacy"@);
        lemma_head("layout"@);
        lemma_head("adunit"@);
        lemma_head("ext"@);
    }

    /// An optional field that is absent leaves no key on the wire, and a field
    /// that is present has its key, also where it holds zero, false or nothing.
    pub proof fn lemma_written_keys(value: NativeRequestView)
        ensures
            NativeRequest::encode_spec(value) matches JsonView::Object(members) && {
                &&& members.contains_key("ver"@) <==> value.ver is Some
                &&& members.contains_key("context"@) <==> value.context is Some
                &&& members.contains_key("contextsubtype"@) <==> value.contextsubtype is Some
                &&& members.contains_key("plcmttype"@) <==> value.plcmttype is Some
                &&& members.contains_key("plcmtcnt"@) <==> value.plcmtcnt is Some
                &&& members.contains_key("seq"@) <==> value.seq is Some
                &&& members.contains_key("assets"@)
                &&& members.contains_key("aurlsupport"@) <==> value.aurlsupport is Some
                &&& members.contains_key("durlsupport"@) <==> value.durlsupport is Some
                &&& members.contains_key("eventtrackers"@) <==> value.eventtrackers is Some
                &&& members.contains_key("privacy"@) <==> value.privacy is Some
                &&& members.contains_key("layout"@) <==> value.layout is Some
                &&& members.contains_key("adunit"@) <==> value.adunit is Some
                &&& members.contains_key("ext"@) <==> value.ext is Some
            },
    {
        NativeRequest::lemma_written_fields(value);
    }
}

impl Record for NativeRequest {
    open spec fn claims(key: Seq<char>) -> bool {
        ||| key == "ver"@
        ||| key == "context"@
        ||| key == "contextsubtype"@
        ||| key == "plcmttype"@
        ||| key == "plcmtcnt"@
        ||| key == "seq"@
        ||| key == "assets"@
        ||| key == "aurlsupport"@
        ||| key == "durlsupport"@
        ||| key == "eventtrackers"@
        ||| key == "privacy"@
        ||| key == "layout"@
        ||| key == "adunit"@
        ||| key == "ext"@
    }

    proof fn lemma_writes_claimed_keys(value: NativeRequestView) {
        Members::lemma_lookup();
        let members = NativeRequest::encode_spec(value)->Object_0;
        assert forall|key: Seq<char>| #[trigger] members.contains_key(key) implies NativeRequest::claims(
            key,
        ) by {
            assert(raw_field(members, key) is Some);
        }
    }

    proof fn lemma_unclaimed_key_is_passed_over(
        members: Map<Seq<char>, JsonView>,
        key: Seq<char>,
        value: JsonView,
    ) {
        lemma_other_key::<String>(members, "ver"@, key, value);
        lemma_other_key::<ContextType>(members, "context"@, key, value);
        lemma_other_key::<ContextSubtype>(members, "contextsubtype"@, key, value);
        lemma_other_key::<PlacementType>(members, "plcmttype"@, key, value);
        lemma_other_key::<i32>(members, "plcmtcnt"@, key, value);
        lemma_other_key::<i32>(members, "seq"@, key, value);
        lemma_other_key::<Vec<Asset>>(members, "assets"@, key, value);
        lemma_other_key::<Bool>(members, "aurlsupport"@, key, value);
        lemma_other_key::<Bool>(members, "durlsupport"@, key, value);
        lemma_other_key::<Vec<EventTrackers>>(members, "eventtrackers"@, key, value);
        lemma_other_key::<Bool>(members, "privacy"@, key, value);
        lemma_other_key::<LayoutId>(members, "layout"@, key, value);
        lemma_other_key::<AdUnitId>(members, "adunit"@, key, value);
        lemma_other_key_raw(members, "ext"@, key, value);
    }
}

/// One asset that a native request asks for. Of `title`, `img`, `video` and
/// `data` only one should be present.
#[derive(Clone, Debug, PartialEq)]
pub struct Asset {
    /// Unique asset ID, assigned by exchange. Typically a counter for the array.
    pub id: i32,
    /// Set to true if asset is required (exchange will not accept a bid without it).
    pub required: Option<Bool>,
    /// Title object for title assets.
    pub title: Option<Title>,
    /// Image object for image assets.
    pub img: Option<Image>,
    /// Video object for video assets. Note that in-stream video ads are not part of Native.
    pub video: Option<Video>,
    /// Data object for brand name, description, ratings, prices etc.
    pub data: Option<Data>,
    /// Vendor extensions, carried as they are.
    pub ext: Option<Json>,
}

/// The mathematical value of an [`Asset`].
pub struct AssetView {
    pub id: i32,
    pub required: Option<Bool>,
    pub title: Option<TitleView>,
    pub img: Option<ImageView>,
    pub video: Option<VideoView>,
    pub data: Option<DataView>,
    pub ext: Option<JsonView>,
}

impl DeepView for Asset {
    type V = AssetView;

    open spec fn deep_view(&self) -> AssetView {
        AssetView {
            id: self.id.deep_view(),
            required: opt_view(self.required),
            title: opt_view(self.title),
            img: opt_view(self.img),
            video: opt_view(self.video),
            data: opt_view(self.data),
            ext: opt_view(self.ext),
        }
    }
}

impl AssetView {
    /// The value in which every optional field is absent and every required
    /// field is empty or zero.
    pub open spec fn empty() -> AssetView {
        AssetView {
            id: 0,
            required: None,
            title: None,
            img: None,
            video: None,
            data: None,
            ext: None,
        }
    }
}

impl Default for Asset {
    fn default() -> (value: Asset)
        ensures
            value.deep_view() == AssetView::empty(),
    {
        let value = Asset {
            id: 0,
            required: None,
            title: None,
            img: None,
            video: None,
            data: None,
            ext: None,
        };
        proof {
            reveal(opt_view);
        }
        value
    }
}

impl Wire for Asset {
    open spec fn encode_spec(value: AssetView) -> JsonView {
        Members::empty()
            .with("id"@, i32::encode_spec(value.id))
            .with_opt("required"@, encode_opt::<Bool>(value.required))
            .with_opt("title"@, encode_opt::<Title>(value.title))
            .with_opt("img"@, encode_opt::<Image>(value.img))
            .with_opt("video"@, encode_opt::<Video>(value.video))
            .with_opt("data"@, encode_opt::<Data>(value.data))
            .with_opt("ext"@, value.ext)
            .json()
    }

    open spec fn decode_spec(doc: JsonView) -> Result<AssetView, DecodeErrorView> {
        match doc {
            JsonView::Object(members) => {
                let id = field::<i32>(members, "id"@);
                let required = opt_field::<Bool>(members, "required"@);
                let title = opt_field::<Title>(members, "title"@);
                let img = opt_field::<Image>(members, "img"@);
                let video = opt_field::<Video>(members, "video"@);
                let data = opt_field::<Data>(members, "data"@);
                let ext = raw_field(members, "ext"@);
                if id is Err {
                    Err(id->Err_0)
                } else if required is Err {
                    Err(required->Err_0)
                } else if title is Err {
                    Err(title->Err_0)
                } else if img is Err {
                    Err(img->Err_0)
                } else if video is Err {
                    Err(video->Err_0)
                } else if data is Err {
                    Err(data->Err_0)
                } else {
                    Ok(
                        AssetView {
                            id: id->Ok_0,
                            required: required->Ok_0,
                            title: title->Ok_0,
                            img: img->Ok_0,
                            video: video->Ok_0,
                            data: data->Ok_0,
                            ext,
                        },
                    )
                }
            },
            _ => wrong_type(),
        }
    }

    fn encode(&self) -> (doc: Json) {
        let mut object = ObjectWriter::new();
        object.field("id", &self.id);
        object.opt_field("required", &self.required);
        object.opt_field("title", &self.title);
        object.opt_field("img", &self.img);
        object.opt_field("video", &self.video);
        object.opt_field("data", &self.data);
        object.raw_field("ext", &self.ext);
        object.finish()
    }

    fn decode(doc: &Json) -> (result: Result<Asset, DecodeError>) {
        let members = read_members(doc)?;
        let id = read_field::<i32>(members, "id")?;
        let required = read_opt_field::<Bool>(members, "required")?;
        let title = read_opt_field::<Title>(members, "title")?;
        let img = read_opt_field::<Image>(members, "img")?;
        let video = read_opt_field::<Video>(members, "video")?;
        let data = read_opt_field::<Data>(members, "data")?;
        let ext = read_raw_field(members, "ext");
        Ok(
            Asset {
                id,
                required,
                title,
                img,
                video,
                data,
                ext,
            },
        )
    }

    proof fn lemma_round_trip(value: AssetView) {
        Asset::lemma_written_fields(value);
        let members = Asset::encode_spec(value)->Object_0;
        lemma_field_round_trip::<i32>(members, "id"@, value.id);
        lemma_opt_field_round_trip::<Bool>(members, "required"@, value.required);
        lemma_opt_field_round_trip::<Title>(members, "title"@, value.title);
        lemma_opt_field_round_trip::<Image>(members, "img"@, value.img);
        lemma_opt_field_round_trip::<Video>(members, "video"@, value.video);
        lemma_opt_field_round_trip::<Data>(members, "data"@, value.data);
    }
}

impl Asset {
    /// What stands under each key on the wire: the wire form of the field of
    /// that name, whatever it holds, and nothing at all where the field is
    /// absent.
    pub proof fn lemma_written_fields(value: AssetView)
        ensures
            Asset::encode_spec(value) matches JsonView::Object(members) && {
                &&& raw_field(members, "id"@) == Some(i32::encode_spec(value.id))
                &&& raw_field(members, "required"@) == encode_opt::<Bool>(value.required)
                &&& raw_field(members, "title"@) == encode_opt::<Title>(value.title)
                &&& raw_field(members, "img"@) == encode_opt::<Image>(value.img)
                &&& raw_field(members, "video"@) == encode_opt::<Video>(value.video)
                &&& raw_field(members, "data"@) == encode_opt::<Data>(value.data)
                &&& raw_field(members, "ext"@) == value.ext
            },
    {
        Members::lemma_lookup();
        reveal_strlit("id");
        reveal_strlit("required");
        reveal_strlit("title");
        reveal_strlit("img");
        reveal_strlit("video");
        reveal_strlit("data");
        reveal_strlit("ext");
        lemma_head("id"@);
        lemma_head("required"@);
        lemma_head("title"@);
        lemma_head("img"@);
        lemma_head("video"@);
        lemma_head("data"@);
        lemma_head("ext"@);
    }

    /// An optional field that is absent leaves no key on the wire, and a field
    /// that is present has its key, also where it holds zero, false or nothing.
    pub proof fn lemma_written_keys(value: AssetView)
        ensures
            Asset::encode_spec(value) matches JsonView::Object(members) && {
                &&& members.contains_key("id"@)
                &&& members.contains_key("required"@) <==> value.required is Some
                &&& members.contains_key("title"@) <==> value.title is Some
                &&& members.contains_key("img"@) <==> value.img is Some
                &&& members.contains_key("video"@) <==> value.video is Some
                &&& members.contains_key("data"@) <==> value.data is Some
                &&& members.contains_key("ext"@) <==> value.ext is Some
            },
    {
        Asset::lemma_written_fields(value);
    }
}

impl Record for Asset {
    open spec fn claims(key: Seq<char>) -> bool {
        ||| key == "id"@
        ||| key == "required"@
        ||| key == "title"@
        ||| key == "img"@
        ||| key == "video"@
        ||| key == "data"@
        ||| key == "ext"@
    }

    proof fn lemma_writes_claimed_keys(value: AssetView) {
        Members::lemma_lookup();
        let members = Asset::encode_spec(value)->Object_0;
        assert forall|key: Seq<char>| #[trigger] members.contains_key(key) implies Asset::claims(
            key,
        ) by {
            assert(raw_field(members, key) is Some);
        }
    }

    proof fn lemma_unclaimed_key_is_passed_over(
        members: Map<Seq<char>, JsonView>,
        key: Seq<char>,
        value: JsonView,
    ) {
        lemma_other_key::<i32>(members, "id"@, key, value);
        lemma_other_key::<Bool>(members, "required"@, key, value);
        lemma_other_key::<Title>(members, "title"@, key, value);
        lemma_other_key::<Image>(members, "img"@, key, value);
        lemma_other_key::<Video>(members, "video"@, key, value);
        lemma_other_key::<Data>(members, "data"@, key, value);
        lemma_other_key_raw(members, "ext"@, key, value);
    }
}

/// An event that the bidder may ask to have tracked, and the tracking methods on
/// offer for it.
#[derive(Clone, Debug, PartialEq)]
pub struct EventTrackers {
    /// Type of event available for tracking.
    pub event: EventType,
    /// Array of types of tracking available for the given event.
    pub methods: Vec<EventTrackingMethod>,
}

/// The mathematical value of an [`EventTrackers`].
pub struct EventTrackersView {
    pub event: EventType,
    pub methods: Seq<EventTrackingMethod>,
}

impl DeepView for EventTrackers {
    type V = EventTrackersView;

    open spec fn deep_view(&self) -> EventTrackersView {
        EventTrackersView {
            event: self.event.deep_view(),
            methods: self.methods.deep_view(),
        }
    }
}

impl Wire for EventTrackers {
    open spec fn encode_spec(value: EventTrackersView) -> JsonView {
        Members::empty()
            .with("event"@, EventType::encode_spec(value.event))
            .with("methods"@, Vec::<EventTrackingMethod>::encode_spec(value.methods))
            .json()
    }

    open spec fn decode_spec(doc: JsonView) -> Result<EventTrackersView, DecodeErrorView> {
        match doc {
            JsonView::Object(members) => {
                let event = field::<EventType>(members, "event"@);
                let methods = field::<Vec<EventTrackingMethod>>(members, "methods"@);
                if event is Err {
                    Err(event->Err_0)
                } else if methods is Err {
                    Err(methods->Err_0)
                } else {
                    Ok(
                        EventTrackersView {
                            event: event->Ok_0,
                            methods: methods->Ok_0,
                        },
                    )
                }
            },
            _ => wrong_type(),
        }
    }

    fn encode(&self) -> (doc: Json) {
        let mut object = ObjectWriter::new();
        object.field("event", &self.event);
        object.field("methods", &self.methods);
        object.finish()
    }

    fn decode(doc: &Json) -> (result: Result<EventTrackers, DecodeError>) {
        let members = read_members(doc)?;
        let event = read_field::<EventType>(members, "event")?;
        let methods = read_field::<Vec<EventTrackingMethod>>(members, "methods")?;
        Ok(
            EventTrackers {
                event,
                methods,
            },
        )
    }

    proof fn lemma_round_trip(value: EventTrackersView) {
        EventTrackers::lemma_written_fields(value);
        let members = EventTrackers::encode_spec(value)->Object_0;
        lemma_field_round_trip::<EventType>(members, "event"@, value.event);
        lemma_field_round_trip::<Vec<EventTrackingMethod>>(members, "methods"@, value.methods);
    }
}

impl EventTrackers {
    /// What stands under each key on the wire: the wire form of the field of
    /// that name, whatever it holds, and nothing at all where the field is
    /// absent.
    pub proof fn lemma_written_fields(value: EventTrackersView)
        ensures
            EventTrackers::encode_spec(value) matches JsonView::Object(members) && {
                &&& raw_field(members, "event"@) == Some(EventType::encode_spec(value.event))
                &&& raw_field(members, "methods"@)
                    == Some(Vec::<EventTrackingMethod>::encode_spec(value.methods))
            },
    {
        Members::lemma_lookup();
        reveal_strlit("event");
        reveal_strlit("methods");
        lemma_head("event"@);
        lemma_head("methods"@);
    }

    /// An optional field that is absent leaves no key on the wire, and a field
    /// that is present has its key, also where it holds zero, false or nothing.
    pub proof fn lemma_written_keys(value: EventTrackersView)
        ensures
            EventTrackers::encode_spec(value) matches JsonView::Object(members) && {
                &&& members.contains_key("event"@)
                &&& members.contains_key("methods"@)
            },
    {
        EventTrackers::lemma_written_fields(value);
    }
}

impl Record for EventTrackers {
    open spec fn claims(key: Seq<char>) -> bool {
        ||| key == "event"@
        ||| key == "methods"@
    }

    proof fn lemma_writes_claimed_keys(value: EventTrackersView) {
        Members::lemma_lookup();
        let members = EventTrackers::encode_spec(value)->Object_0;
        assert forall|key: Seq<char>| #[trigger] members.contains_key(key) implies EventTrackers::claims(
            key,
        ) by {
            assert(raw_field(members, key) is Some);
        }
    }

    proof fn lemma_unclaimed_key_is_passed_over(
        members: Map<Seq<char>, JsonView>,
        key: Seq<char>,
        value: JsonView,
    ) {
        lemma_other_key::<EventType>(members, "event"@, key, value);
        lemma_other_key::<Vec<EventTrackingMethod>>(members, "methods"@, key, value);
    }
}

} // verus!
