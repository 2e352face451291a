//! The response of the Native Ads extension.

use crate::bool::Bool;
use crate::error::{DecodeError, DecodeErrorView};
use crate::json::{Json, JsonView};
use crate::native_response::asset::{
    Data, DataView, Image, ImageView, Title, TitleView, Video, VideoView,
};
use crate::object::{
    encode_opt, field, lemma_field_round_trip, lemma_opt_field_round_trip, lemma_other_key,
    lemma_other_key_raw, Members, ObjectWriter, opt_field, opt_view, raw_field, read_field,
    read_members, read_opt_field, read_raw_field, Record,
};
use crate::text::lemma_head;
use crate::vocabulary::native::{EventTrackingMethod, EventType};
use crate::wire::{Wire, wrong_type};
use vstd::prelude::*;

pub mod asset;

verus! {

/// A native ad: the assets that fill the request, and where a click leads.
#[derive(Clone, Debug, PartialEq)]
pub struct NativeResponse {
    /// Version of the Native Markup version in use.
    pub ver: Option<String>,
    /// List of native ad's assets. RECOMMENDED in 1.0, 1.1, or in 1.2 as a fallback if
    /// assetsurl is provided.
    pub assets: Vec<Asset>,
    /// URL of alternate source for the assets object. The expected response is a JSON
    /// object mirroring the asset object in the bid response, subject to certain
    /// requirements as specified in the individual objects.
    pub assetsurl: Option<String>,
    /// URL where a dynamic creative standard may be found for populating this ad, per the
    /// Dynamic Content Ads standard.
    pub dcourl: Option<String>,
    /// Destination Link. This is default link object for the ad.
    pub link: Link,
    /// Deprecated in OpenRTB Native 1.2+. Prefer object `EventTracker`.
    pub imptrackers: Option<Vec<String>>,
    /// Deprecated in OpenRTB Native 1.2+. Prefer object `EventTracker`.
    pub jstracker: Option<String>,
    /// Array of response event trackers to run with the ad, in response to the declared
    /// supported methods in the NativeRequest. Replaces imptrackers and jstrackers.
    pub eventtrackers: Option<Vec<EventTracker>>,
    /// If support was indicated in the request, URL of a page informing the user about the
    /// buyer's targeting activity.
    pub privacy: Option<String>,
    /// Vendor extensions, carried as they are.
    pub ext: Option<Json>,
}

/// The mathematical value of a [`NativeResponse`].
pub struct NativeResponseView {
    pub ver: Option<Seq<char>>,
    pub assets: Seq<AssetView>,
    pub assetsurl: Option<Seq<char>>,
    pub dcourl: Option<Seq<char>>,
    pub link: LinkView,
    pub imptrackers: Option<Seq<Seq<char>>>,
    pub jstracker: Option<Seq<char>>,
    pub eventtrackers: Option<Seq<EventTrackerView>>,
    pub privacy: Option<Seq<char>>,
    pub ext: Option<JsonView>,
}

impl DeepView for NativeResponse {
    type V = NativeResponseView;

    open spec fn deep_view(&self) -> NativeResponseView {
        NativeResponseView {
            ver: opt_view(self.ver),
            assets: self.assets.deep_view(),
            assetsurl: opt_view(self.assetsurl),
            dcourl: opt_view(self.dcourl),
            link: self.link.deep_view(),
            imptrackers: opt_view(self.imptrackers),
            jstracker: opt_view(self.jstracker),
            eventtrackers: opt_view(self.eventtrackers),
            privacy: opt_view(self.privacy),
            ext: opt_view(self.ext),
        }
    }
}

impl NativeResponseView {
    /// The value in which every optional field is absent and every required
    /// field is empty or zero.
    pub open spec fn empty() -> NativeResponseView {
        NativeResponseView {
            ver: None,
            assets: Seq::empty(),
            assetsurl: None,
            dcourl: None,
            link: LinkView::empty(),
            imptrackers: None,
            jstracker: None,
            eventtrackers: None,
            privacy: None,
            ext: None,
        }
    }
}

impl Default for NativeResponse {
    fn default() -> (value: NativeResponse)
        ensures
            value.deep_view() == NativeResponseView::empty(),
    {
        let value = NativeResponse {
            ver: None,
            assets: Vec::new(),
            assetsurl: None,
            dcourl: None,
            link: Link::default(),
            imptrackers: None,
            jstracker: None,
            eventtrackers: None,
            privacy: None,
            ext: None,
        };
        proof {
            reveal(opt_view);
            assert(value.assets.deep_view() =~= Seq::empty());
        }
        value
    }
}

impl Wire for NativeResponse {
    open spec fn encode_spec(value: NativeResponseView) -> JsonView {
        Members::empty()
            .with_opt("ver"@, encode_opt::<String>(value.ver))
            .with("assets"@, Vec::<Asset>::encode_spec(value.assets))
            .with_opt("assetsurl"@, encode_opt::<String>(value.assetsurl))
            .with_opt("dcourl"@, encode_opt::<String>(value.dcourl))
            .with("link"@, Link::encode_spec(value.link))
            .with_opt("imptrackers"@, encode_opt::<Vec<String>>(value.imptrackers))
            .with_opt("jstracker"@, encode_opt::<String>(value.jstracker))
            .with_opt("eventtrackers"@, encode_opt::<Vec<EventTracker>>(value.eventtrackers))
            .with_opt("privacy"@, encode_opt::<String>(value.privacy))
            .with_opt("ext"@, value.ext)
            .json()
    }

    open spec fn decode_spec(doc: JsonView) -> Result<NativeResponseView, DecodeErrorView> {
        match doc {
            JsonView::Object(members) => {
                let ver = opt_field::<String>(members, "ver"@);
                let assets = field::<Vec<Asset>>(members, "assets"@);
                let assetsurl = opt_field::<String>(members, "assetsurl"@);
                let dcourl = opt_field::<String>(members, "dcourl"@);
                let link = field::<Link>(members, "link"@);
                let imptrackers = opt_field::<Vec<String>>(members, "imptrackers"@);
                let jstracker = opt_field::<String>(members, "jstracker"@);
                let eventtrackers = opt_field::<Vec<EventTracker>>(members, "eventtrackers"@);
                let privacy = opt_field::<String>(members, "privacy"@);
                let ext = raw_field(members, "ext"@);
                if ver is Err {
                    Err(ver->Err_0)
                } else if assets is Err {
                    Err(assets->Err_0)
                } else if assetsurl is Err {
                    Err(assetsurl->Err_0)
                } else if dcourl is Err {
                    Err(dcourl->Err_0)
                } else if link is Err {
                    Err(link->Err_0)
                } else if imptrackers is Err {
                    Err(imptrackers->Err_0)
                } else if jstracker is Err {
                    Err(jstracker->Err_0)
                } else if eventtrackers is Err {
                    Err(eventtrackers->Err_0)
                } else if privacy is Err {
                    Err(privacy->Err_0)
                } else {
                    Ok(
                        NativeResponseView {
                            ver: ver->Ok_0,
                            assets: assets->Ok_0,
                            assetsurl: assetsurl->Ok_0,
                            dcourl: dcourl->Ok_0,
                            link: link->Ok_0,
                            imptrackers: imptrackers->Ok_0,
                            jstracker: jstracker->Ok_0,
                            eventtrackers: eventtrackers->Ok_0,
                            privacy: privacy->Ok_0,
                            ext,
                        },
                    )
                }
            },
            _ => wrong_type(),
        }
    }

    fn encode(&self) -> (doc: Json) {
        let mut object = ObjectWriter::new();
        object.opt_field("ver", &self.ver);
        object.field("assets", &self.assets);
        object.opt_field("assetsurl", &self.assetsurl);
        object.opt_field("dcourl", &self.dcourl);
        object.field("link", &self.link);
        object.opt_field("imptrackers", &self.imptrackers);
        object.opt_field("jstracker", &self.jstracker);
        object.opt_field("eventtrackers", &self.eventtrackers);
        object.opt_field("privacy", &self.privacy);
        object.raw_field("ext", &self.ext);
        object.finish()
    }

    fn decode(doc: &Json) -> (result: Result<NativeResponse, DecodeError>) {
        let members = read_members(doc)?;
        let ver = read_opt_field::<String>(members, "ver")?;
        let assets = read_field::<Vec<Asset>>(members, "assets")?;
        let assetsurl = read_opt_field::<String>(members, "assetsurl")?;
        let dcourl = read_opt_field::<String>(members, "dcourl")?;
        let link = read_field::<Link>(members, "link")?;
        let imptrackers = read_opt_field::<Vec<String>>(members, "imptrackers")?;
        let jstracker = read_opt_field::<String>(members, "jstracker")?;
        let eventtrackers = read_opt_field::<Vec<EventTracker>>(members, "eventtrackers")?;
        let privacy = read_opt_field::<String>(members, "privacy")?;
        let ext = read_raw_field(members, "ext");
        Ok(
            NativeResponse {
                ver,
                assets,
                assetsurl,
                dcourl,
                link,
                imptrackers,
                jstracker,
                eventtrackers,
                privacy,
                ext,
            },
        )
    }

    proof fn lemma_round_trip(value: NativeResponseView) {
        NativeResponse::lemma_written_fields(value);
        let members = NativeResponse::encode_spec(value)->Object_0;
        lemma_opt_field_round_trip::<String>(members, "ver"@, value.ver);
        lemma_field_round_trip::<Vec<Asset>>(members, "assets"@, value.assets);
        lemma_opt_field_round_trip::<String>(members, "assetsurl"@, value.assetsurl);
        lemma_opt_field_round_trip::<String>(members, "dcourl"@, value.dcourl);
        lemma_field_round_trip::<Link>(members, "link"@, value.link);
        lemma_opt_field_round_trip::<Vec<String>>(members, "imptrackers"@, value.imptrackers);
        lemma_opt_field_round_trip::<String>(members, "jstracker"@, value.jstracker);
        lemma_opt_field_round_trip::<Vec<EventTracker>>(
            members,
            "eventtrackers"@,
            value.eventtrackers,
        );
        lemma_opt_field_round_trip::<String>(members, "privacy"@, value.privacy);
    }
}

impl NativeResponse {
    /// What stands under each key on the wire: the wire form of the field of
    /// that name, whatever it holds, and nothing at all where the field is
    /// absent.
    pub proof fn lemma_written_fields(value: NativeResponseView)
        ensures
            NativeResponse::encode_spec(value) matches JsonView::Object(members) && {
                &&& raw_field(members, "ver"@) == encode_opt::<String>(value.ver)
                &&& raw_field(members, "assets"@) == Some(Vec::<Asset>::encode_spec(value.assets))
                &&& raw_field(members, "assetsurl"@) == encode_opt::<String>(value.assetsurl)
                &&& raw_field(members, "dcourl"@) == encode_opt::<String>(value.dcourl)
                &&& raw_field(members, "link"@) == Some(Link::encode_spec(value.link))
                &&& raw_field(members, "imptrackers"@)
                    == encode_opt::<Vec<String>>(value.imptrackers)
                &&& raw_field(members, "jstracker"@) == encode_opt::<String>(value.jstracker)
                &&& raw_field(members, "eventtrackers"@)
                    == encode_opt::<Vec<EventTracker>>(value.eventtrackers)
                &&& raw_field(members, "privacy"@) == encode_opt::<String>(value.privacy)
                &&& raw_field(members, "ext"@) == value.ext
            },
    {
        Members::lemma_lookup();
        reveal_strlit("ver");
        reveal_strlit("assets");
        reveal_strlit("assetsurl");
        reveal_strlit("dcourl");
        reveal_strlit("link");
        reveal_strlit("imptrackers");
        reveal_strlit("jstracker");
        reveal_strlit("eventtrackers");
        reveal_strlit("privacy");
        reveal_strlit("ext");
        lemma_head("ver"@);
        lemma_head("assets"@);
        lemma_head("assetsurl"@);
        lemma_head("dcourl"@);
        lemma_head("link"@);
        lemma_head("imptrackers"@);
        lemma_head("jstracker"@);
        lemma_head("eventtrackers"@);
        lemma_head("privacy"@);
        lemma_head("ext"@);
    }

    /// An optional field that is absent leaves no key on the wire, and a field
    /// that is present has its key, also where it holds zero, false or nothing.
    pub proof fn lemma_written_keys(value: NativeResponseView)
        ensures
            NativeResponse::encode_spec(value) matches JsonView::Object(members) && {
                &&& members.contains_key("ver"@) <==> value.ver is Some
                &&& members.contains_key("assets"@)
                &&& members.contains_key("assetsurl"@) <==> value.assetsurl is Some
                &&& members.contains_key("dcourl"@) <==> value.dcourl is Some
                &&& members.contains_key("link"@)
                &&& members.contains_key("imptrackers"@) <==> value.imptrackers is Some
                &&& members.contains_key("jstracker"@) <==> value.jstracker is Some
                &&& members.contains_key("eventtrackers"@) <==> value.eventtrackers is Some
                &&& members.contains_key("privacy"@) <==> value.privacy is Some
                &&& members.contains_key("ext"@) <==> value.ext is Some
            },
    {
        NativeResponse::lemma_written_fields(value);
    }
}

impl Record for NativeResponse {
    open spec fn claims(key: Seq<char>) -> bool {
        ||| key == "ver"@
        ||| key == "assets"@
        ||| key == "assetsurl"@
        ||| key == "dcourl"@
        ||| key == "link"@
        ||| key == "imptrackers"@
        ||| key == "jstracker"@
        ||| key == "eventtrackers"@
        ||| key == "privacy"@
        ||| key == "ext"@
    }

    proof fn lemma_writes_claimed_keys(value: NativeResponseView) {
        Members::lemma_lookup();
        let members = NativeResponse::encode_spec(value)->Object_0;
        assert forall|key: Seq<char>| #[trigger] members.contains_key(key) implies NativeResponse::claims(
            key,
        ) by {
            assert(raw_field(members, key) is Some);
        }
    }

    proof fn lemma_unclaimed_key_is_passed_over(
        members: Map<Seq<char>, JsonView>,
        key: Seq<char>,
        value: JsonView,
    ) {
        lemma_other_key::<String>(members, "ver"@, key, value);
        lemma_other_key::<Vec<Asset>>(members, "assets"@, key, value);
        lemma_other_key::<String>(members, "assetsurl"@, key, value);
        lemma_other_key::<String>(members, "dcourl"@, key, value);
        lemma_other_key::<Link>(members, "link"@, key, value);
        lemma_other_key::<Vec<String>>(members, "imptrackers"@, key, value);
        lemma_other_key::<String>(members, "jstracker"@, key, value);
        lemma_other_key::<Vec<EventTracker>>(members, "eventtrackers"@, key, value);
        lemma_other_key::<String>(members, "privacy"@, key, value);
        lemma_other_key_raw(members, "ext"@, key, value);
    }
}

/// The destination of a click on a native ad or on one of its assets.
#[derive(Clone, Debug, PartialEq)]
pub struct Link {
    /// Landing URL of the clickable link.
    pub url: String,
    /// List of third-party tracker URLs to be fired on click of the URL.
    pub clicktrackers: Option<Vec<String>>,
    /// Fallback URL for deeplink. To be used if the URL given in url is not supported by
    /// the device.
    pub fallback: Option<String>,
    /// Vendor extensions, carried as they are.
    pub ext: Option<Json>,
}

/// The mathematical value of a [`Link`].
pub struct LinkView {
    pub url: Seq<char>,
    pub clicktrackers: Option<Seq<Seq<char>>>,
    pub fallback: Option<Seq<char>>,
    pub ext: Option<JsonView>,
}

impl DeepView for Link {
    type V = LinkView;

    open spec fn deep_view(&self) -> LinkView {
        LinkView {
            url: self.url.deep_view(),
            clicktrackers: opt_view(self.clicktrackers),
            fallback: opt_view(self.fallback),
            ext: opt_view(self.ext),
        }
    }
}

impl LinkView {
    /// The value in which every optional field is absent and every required
    /// field is empty or zero.
    pub open spec fn empty() -> LinkView {
        LinkView {
            url: Seq::empty(),
            clicktrackers: None,
            fallback: None,
            ext: None,
        }
    }
}

impl Default for Link {
    fn default() -> (value: Link)
        ensures
            value.deep_view() == LinkView::empty(),
    {
        let value = Link {
            url: String::new(),
            clicktrackers: None,
            fallback: None,
            ext: None,
        };
        proof {
            reveal(opt_view);
        }
        value
    }
}

impl Wire for Link {
    open spec fn encode_spec(value: LinkView) -> JsonView {
        Members::empty()
            .with("url"@, String::encode_spec(value.url))
            .with_opt("clicktrackers"@, encode_opt::<Vec<String>>(value.clicktrackers))
            .with_opt("fallback"@, encode_opt::<String>(value.fallback))
            .with_opt("ext"@, value.ext)
            .json()
    }

    open spec fn decode_spec(doc: JsonView) -> Result<LinkView, DecodeErrorView> {
        match doc {
            JsonView::Object(members) => {
                let url = field::<String>(members, "url"@);
                let clicktrackers = opt_field::<Vec<String>>(members, "clicktrackers"@);
                let fallback = opt_field::<String>(members, "fallback"@);
                let ext = raw_field(members, "ext"@);
                if url is Err {
                    Err(url->Err_0)
                } else if clicktrackers is Err {
                    Err(clicktrackers->Err_0)
                } else if fallback is Err {
                    Err(fallback->Err_0)
                } else {
                    Ok(
                        LinkView {
                            url: url->Ok_0,
                            clicktrackers: clicktrackers->Ok_0,
                            fallback: fallback->Ok_0,
                            ext,
                        },
                    )
                }
            },
            _ => wrong_type(),
        }
    }

    fn encode(&self) -> (doc: Json) {
        let mut object = ObjectWriter::new();
        object.field("url", &self.url);
        object.opt_field("clicktrackers", &self.clicktrackers);
        object.opt_field("fallback", &self.fallback);
        object.raw_field("ext", &self.ext);
        object.finish()
    }

    fn decode(doc: &Json) -> (result: Result<Link, DecodeError>) {
        let members = read_members(doc)?;
        let url = read_field::<String>(members, "url")?;
        let clicktrackers = read_opt_field::<Vec<String>>(members, "clicktrackers")?;
        let fallback = read_opt_field::<String>(members, "fallback")?;
        let ext = read_raw_field(members, "ext");
        Ok(
            Link {
                url,
                clicktrackers,
                fallback,
                ext,
            },
        )
    }

    proof fn lemma_round_trip(value: LinkView) {
        Link::lemma_written_fields(value);
        let members = Link::encode_spec(value)->Object_0;
        lemma_field_round_trip::<String>(members, "url"@, value.url);
        lemma_opt_field_round_trip::<Vec<String>>(members, "clicktrackers"@, value.clicktrackers);
        lemma_opt_field_round_trip::<String>(members, "fallback"@, value.fallback);
    }
}

impl Link {
    /// What stands under each key on the wire: the wire form of the field of
    /// that name, whatever it holds, and nothing at all where the field is
    /// absent.
    pub proof fn lemma_written_fields(value: LinkView)
        ensures
            Link::encode_spec(value) matches JsonView::Object(members) && {
                &&& raw_field(members, "url"@) == Some(String::encode_spec(value.url))
                &&& raw_field(members, "clicktrackers"@)
                    == encode_opt::<Vec<String>>(value.clicktrackers)
                &&& raw_field(members, "fallback"@) == encode_opt::<String>(value.fallback)
                &&& raw_field(members, "ext"@) == value.ext
            },
    {
        Members::lemma_lookup();
        reveal_strlit("url");
        reveal_strlit("clicktrackers");
        reveal_strlit("fallback");
        reveal_strlit("ext");
        lemma_head("url"@);
        lemma_head("clicktrackers"@);
        lemma_head("fallback"@);
        lemma_head("ext"@);
    }

    /// An optional field that is absent leaves no key on the wire, and a field
    /// that is present has its key, also where it holds zero, false or nothing.
    pub proof fn lemma_written_keys(value: LinkView)
        ensures
            Link::encode_spec(value) matches JsonView::Object(members) && {
                &&& members.contains_key("url"@)
                &&& members.contains_key("clicktrackers"@) <==> value.clicktrackers is Some
                &&& members.contains_key("fallback"@) <==> value.fallback is Some
                &&& members.contains_key("ext"@) <==> value.ext is Some
            },
    {
        Link::lemma_written_fields(value);
    }
}

impl Record for Link {
    open spec fn claims(key: Seq<char>) -> bool {
        ||| key == "url"@
        ||| key == "clicktrackers"@
        ||| key == "fallback"@
        ||| key == "ext"@
    }

    proof fn lemma_writes_claimed_keys(value: LinkView) {
        Members::lemma_lookup();
        let members = Link::encode_spec(value)->Object_0;
        assert forall|key: Seq<char>| #[trigger] members.contains_key(key) implies Link::claims(
            key,
        ) by {
            assert(raw_field(members, key) is Some);
        }
    }

    proof fn lemma_unclaimed_key_is_passed_over(
        members: Map<Seq<char>, JsonView>,
        key: Seq<char>,
        value: JsonView,
    ) {
        lemma_other_key::<String>(members, "url"@, key, value);
        lemma_other_key::<Vec<String>>(members, "clicktrackers"@, key, value);
        lemma_other_key::<String>(members, "fallback"@, key, value);
        lemma_other_key_raw(members, "ext"@, key, value);
    }
}

/// One asset of a native ad. It answers the asset of the request that has the
/// same `id`.
#[derive(Clone, Debug, PartialEq)]
pub struct Asset {
    /// Unique asset ID, assigned by exchange, must match one of the asset IDs in request.
    /// REQUIRED in 1.0, or in 1.2 if embedded asset is being used.
    pub id: i32,
    /// Set to true if asset is required. (bidder requires it to be displayed).
    pub required: Option<Bool>,
    /// Link object for call to actions. This link object applies if the asset item is
    /// activated (clicked).
    pub link: Option<Link>,
    /// Title object for title assets.
    pub title: Option<Title>,
    /// Image object for image assets.
    pub img: Option<Image>,
    /// Video object for video assets. Note that in-stream video ads are not part of Native.
    pub video: Option<Video>,
    /// Data object for ratings, prices etc.
    pub data: Option<Data>,
    /// Vendor extensions, carried as they are.
    pub ext: Option<Json>,
}

/// The mathematical value of an [`Asset`].
pub struct AssetView {
    pub id: i32,
    pub required: Option<Bool>,
    pub link: Option<LinkView>,
    pub title: Option<TitleView>,
    pub img: Option<ImageView>,
    pub video: Option<VideoView>,
    pub data: Option<DataView>,
    pub ext: Option<JsonView>,
}

impl DeepView for Asset {
    type V = AssetView;

    open spec fn deep_view(&self) -> AssetView {
        AssetView {
            id: self.id.deep_view(),
            required: opt_view(self.required),
            link: opt_view(self.link),
            title: opt_view(self.title),
            img: opt_view(self.img),
            video: opt_view(self.video),
            data: opt_view(self.data),
            ext: opt_view(self.ext),
        }
    }
}

impl AssetView {
    /// The value in which every optional field is absent and every required
    /// field is empty or zero.
    pub open spec fn empty() -> AssetView {
        AssetView {
            id: 0,
            required: None,
            link: None,
            title: None,
            img: None,
            video: None,
            data: None,
            ext: None,
        }
    }
}

impl Default for Asset {
    fn default() -> (value: Asset)
        ensures
            value.deep_view() == AssetView::empty(),
    {
        let value = Asset {
            id: 0,
            required: None,
            link: None,
            title: None,
            img: None,
            video: None,
            data: None,
            ext: None,
        };
        proof {
            reveal(opt_view);
        }
        value
    }
}

impl Wire for Asset {
    open spec fn encode_spec(value: AssetView) -> JsonView {
        Members::empty()
            .with("id"@, i32::encode_spec(value.id))
            .with_opt("required"@, encode_opt::<Bool>(value.required))
            .with_opt("link"@, encode_opt::<Link>(value.link))
            .with_opt("title"@, encode_opt::<Title>(value.title))
            .with_opt("img"@, encode_opt::<Image>(value.img))
            .with_opt("video"@, encode_opt::<Video>(value.video))
            .with_opt("data"@, encode_opt::<Data>(value.data))
            .with_opt("ext"@, value.ext)
            .json()
    }

    open spec fn decode_spec(doc: JsonView) -> Result<AssetView, DecodeErrorView> {
        match doc {
            JsonView::Object(members) => {
                let id = field::<i32>(members, "id"@);
                let required = opt_field::<Bool>(members, "required"@);
                let link = opt_field::<Link>(members, "link"@);
                let title = opt_field::<Title>(members, "title"@);
                let img = opt_field::<Image>(members, "img"@);
                let video = opt_field::<Video>(members, "video"@);
                let data = opt_field::<Data>(members, "data"@);
                let ext = raw_field(members, "ext"@);
                if id is Err {
                    Err(id->Err_0)
                } else if required is Err {
                    Err(required->Err_0)
                } else if link is Err {
                    Err(link->Err_0)
                } else if title is Err {
                    Err(title->Err_0)
                } else if img is Err {
                    Err(img->Err_0)
                } else if video is Err {
                    Err(video->Err_0)
                } else if data is Err {
                    Err(data->Err_0)
                } else {
                    Ok(
                        AssetView {
                            id: id->Ok_0,
                            required: required->Ok_0,
                            link: link->Ok_0,
                            title: title->Ok_0,
                            img: img->Ok_0,
                            video: video->Ok_0,
                            data: data->Ok_0,
                            ext,
                        },
                    )
                }
            },
            _ => wrong_type(),
        }
    }

    fn encode(&self) -> (doc: Json) {
        let mut object = ObjectWriter::new();
        object.field("id", &self.id);
        object.opt_field("required", &self.required);
        object.opt_field("link", &self.link);
        object.opt_field("title", &self.title);
        object.opt_field("img", &self.img);
        object.opt_field("video", &self.video);
        object.opt_field("data", &self.data);
        object.raw_field("ext", &self.ext);
        object.finish()
    }

    fn decode(doc: &Json) -> (result: Result<Asset, DecodeError>) {
        let members = read_members(doc)?;
        let id = read_field::<i32>(members, "id")?;
        let required = read_opt_field::<Bool>(members, "required")?;
        let link = read_opt_field::<Link>(members, "link")?;
        let title = read_opt_field::<Title>(members, "title")?;
        let img = read_opt_field::<Image>(members, "img")?;
        let video = read_opt_field::<Video>(members, "video")?;
        let data = read_opt_field::<Data>(members, "data")?;
        let ext = read_raw_field(members, "ext");
        Ok(
            Asset {
                id,
                required,
                link,
                title,
                img,
                video,
                data,
                ext,
            },
        )
    }

    proof fn lemma_round_trip(value: AssetView) {
        Asset::lemma_written_fields(value);
        let members = Asset::encode_spec(value)->Object_0;
        lemma_field_round_trip::<i32>(members, "id"@, value.id);
        lemma_opt_field_round_trip::<Bool>(members, "required"@, value.required);
        lemma_opt_field_round_trip::<Link>(members, "link"@, value.link);
        lemma_opt_field_round_trip::<Title>(members, "title"@, value.title);
        lemma_opt_field_round_trip::<Image>(members, "img"@, value.img);
        lemma_opt_field_round_trip::<Video>(members, "video"@, value.video);
        lemma_opt_field_round_trip::<Data>(members, "data"@, value.data);
    }
}

impl Asset {
    /// What stands under each key on the wire: the wire form of the field of
    /// that name, whatever it holds, and nothing at all where the field is
    /// absent.
    pub proof fn lemma_written_fields(value: AssetView)
        ensures
            Asset::encode_spec(value) matches JsonView::Object(members) && {
                &&& raw_field(members, "id"@) == Some(i32::encode_spec(value.id))
                &&& raw_field(members, "required"@) == encode_opt::<Bool>(value.required)
                &&& raw_field(members, "link"@) == encode_opt::<Link>(value.link)
                &&& raw_field(members, "title"@) == encode_opt::<Title>(value.title)
                &&& raw_field(members, "img"@) == encode_opt::<Image>(value.img)
                &&& raw_field(members, "video"@) == encode_opt::<Video>(value.video)
                &&& raw_field(members, "data"@) == encode_opt::<Data>(value.data)
                &&& raw_field(members, "ext"@) == value.ext
            },
    {
        Members::lemma_lookup();
        reveal_strlit("id");
        reveal_strlit("required");
        reveal_strlit("link");
        reveal_strlit("title");
        reveal_strlit("img");
        reveal_strlit("video");
        reveal_strlit("data");
        reveal_strlit("ext");
        lemma_head("id"@);
        lemma_head("required"@);
        lemma_head("link"@);
        lemma_head("title"@);
        lemma_head("img"@);
        lemma_head("video"@);
        lemma_head("data"@);
        lemma_head("ext"@);
    }

    /// An optional field that is absent leaves no key on the wire, and a field
    /// that is present has its key, also where it holds zero, false or nothing.
    pub proof fn lemma_written_keys(value: AssetView)
        ensures
            Asset::encode_spec(value) matches JsonView::Object(members) && {
                &&& members.contains_key("id"@)
                &&& members.contains_key("required"@) <==> value.required is Some
                &&& members.contains_key("link"@) <==> value.link is Some
                &&& members.contains_key("title"@) <==> value.title is Some
                &&& members.contains_key("img"@) <==> value.img is Some
                &&& members.contains_key("video"@) <==> value.video is Some
                &&& members.contains_key("data"@) <==> value.data is Some
                &&& members.contains_key("ext"@) <==> value.ext is Some
            },
    {
        Asset::lemma_written_fields(value);
    }
}

impl Record for Asset {
    open spec fn claims(key: Seq<char>) -> bool {
        ||| key == "id"@
        ||| key == "required"@
        ||| key == "link"@
        ||| key == "title"@
        ||| key == "img"@
        ||| key == "video"@
        ||| key == "data"@
        ||| key == "ext"@
    }

    proof fn lemma_writes_claimed_keys(value: AssetView) {
        Members::lemma_lookup();
        let members = Asset::encode_spec(value)->Object_0;
        assert forall|key: Seq<char>| #[trigger] members.contains_key(key) implies Asset::claims(
            key,
        ) by {
            assert(raw_field(members, key) is Some);
        }
    }

    proof fn lemma_unclaimed_key_is_passed_over(
        members: Map<Seq<char>, JsonView>,
        key: Seq<char>,
        value: JsonView,
    ) {
        lemma_other_key::<i32>(members, "id"@, key, value);
        lemma_other_key::<Bool>(members, "required"@, key, value);
        lemma_other_key::<Link>(members, "link"@, key, value);
        lemma_other_key::<Title>(members, "title"@, key, value);
        lemma_other_key::<Image>(members, "img"@, key, value);
        lemma_other_key::<Video>(members, "video"@, key, value);
        lemma_other_key::<Data>(members, "data"@, key, value);
        lemma_other_key_raw(members, "ext"@, key, value);
    }
}

/// An event that the bidder wants tracked, and how.
#[derive(Clone, Debug, PartialEq)]
pub struct EventTracker {
    /// Type of event to track. REQUIRED if embedded asset is being used.
    pub event: Option<EventType>,
    /// Type of tracking requested. REQUIRED if embedded asset is being used.
    pub method: EventTrackingMethod,
    /// The URL of the image or js. REQUIRED for image or js, optional for custom.
    pub url: Option<String>,
    /// Vendor extensions, carried as they are.
    pub ext: Option<Json>,
}

/// The mathematical value of an [`EventTracker`].
pub struct EventTrackerView {
    pub event: Option<EventType>,
    pub method: EventTrackingMethod,
    pub url: Option<Seq<char>>,
    pub ext: Option<JsonView>,
}

impl DeepView for EventTracker {
    type V = EventTrackerView;

    open spec fn deep_view(&self) -> EventTrackerView {
        EventTrackerView {
            event: opt_view(self.event),
            method: self.method.deep_view(),
            url: opt_view(self.url),
            ext: opt_view(self.ext),
        }
    }
}

impl Wire for EventTracker {
    open spec fn encode_spec(value: EventTrackerView) -> JsonView {
        Members::empty()
            .with_opt("event"@, encode_opt::<EventType>(value.event))
            .with("method"@, EventTrackingMethod::encode_spec(value.method))
            .with_opt("url"@, encode_opt::<String>(value.url))
            .with_opt("ext"@, value.ext)
            .json()
    }

    open spec fn decode_spec(doc: JsonView) -> Result<EventTrackerView, DecodeErrorView> {
        match doc {
            JsonView::Object(members) => {
                let event = opt_field::<EventType>(members, "event"@);
                let method = field::<EventTrackingMethod>(members, "method"@);
                let url = opt_field::<String>(members, "url"@);
                let ext = raw_field(members, "ext"@);
                if event is Err {
                    Err(event->Err_0)
                } else if method is Err {
                    Err(method->Err_0)
                } else if url is Err {
                    Err(url->Err_0)
                } else {
                    Ok(
                        EventTrackerView {
                            event: event->Ok_0,
                            method: method->Ok_0,
                            url: url->Ok_0,
                            ext,
                        },
                    )
                }
            },
            _ => wrong_type(),
        }
    }

    fn encode(&self) -> (doc: Json) {
        let mut object = ObjectWriter::new();
        object.opt_field("event", &self.event);
        object.field("method", &self.method);
        object.opt_field("url", &self.url);
        object.raw_field("ext", &self.ext);
        object.finish()
    }

    fn decode(doc: &Json) -> (result: Result<EventTracker, DecodeError>) {
        let members = read_members(doc)?;
        let event = read_opt_field::<EventType>(members, "event")?;
        let method = read_field::<EventTrackingMethod>(members, "method")?;
        let url = read_opt_field::<String>(members, "url")?;
        let ext = read_raw_field(members, "ext");
        Ok(
            EventTracker {
                event,
                method,
                url,
                ext,
            },
        )
    }

    proof fn lemma_round_trip(value: EventTrackerView) {
        EventTracker::lemma_written_fields(value);
        let members = EventTracker::encode_spec(value)->Object_0;
        lemma_opt_field_round_trip::<EventType>(members, "event"@, value.event);
        lemma_field_round_trip::<EventTrackingMethod>(members, "method"@, value.method);
        lemma_opt_field_round_trip::<String>(members, "url"@, value.url);
    }
}

impl EventTracker {
    /// What stands under each key on the wire: the wire form of the field of
    /// that name, whatever it holds, and nothing at all where the field is
    /// absent.
    pub proof fn lemma_written_fields(value: EventTrackerView)
        ensures
            EventTracker::encode_spec(value) matches JsonView::Object(members) && {
                &&& raw_field(members, "event"@) == encode_opt::<EventType>(value.event)
                &&& raw_field(members, "method"@)
                    == Some(EventTrackingMethod::encode_spec(value.method))
                &&& raw_field(members, "url"@) == encode_opt::<String>(value.url)
                &&& raw_field(members, "ext"@) == value.ext
            },
    {
        Members::lemma_lookup();
        reveal_strlit("event");
        reveal_strlit("method");
        reveal_strlit("url");
        reveal_strlit("ext");
        lemma_head("event"@);
        lemma_head("method"@);
        lemma_head("url"@);
        lemma_head("ext"@);
    }

    /// An optional field that is absent leaves no key on the wire, and a field
    /// that is present has its key, also where it holds zero, false or nothing.
    pub proof fn lemma_written_keys(value: EventTrackerView)
        ensures
            EventTracker::encode_spec(value) matches JsonView::Object(members) && {
                &&& members.contains_key("event"@) <==> value.event is Some
                &&& members.contains_key("method"@)
                &&& members.contains_key("url"@) <==> value.url is Some
                &&& members.contains_key("ext"@) <==> value.ext is Some
            },
    {
        EventTracker::lemma_written_fields(value);
    }
}

impl Record for EventTracker {
    open spec fn claims(key: Seq<char>) -> bool {
        ||| key == "event"@
        ||| key == "method"@
        ||| key == "url"@
        ||| key == "ext"@
    }

    proof fn lemma_writes_claimed_keys(value: EventTrackerView) {
        Members::lemma_lookup();
        let members = EventTracker::encode_spec(value)->Object_0;
        assert forall|key: Seq<char>| #[trigger] members.contains_key(key) implies EventTracker::claims(
            key,
        ) by {
            assert(raw_field(members, key) is Some);
        }
    }

    proof fn lemma_unclaimed_key_is_passed_over(
        members: Map<Seq<char>, JsonView>,
        key: Seq<char>,
        value: JsonView,
    ) {
        lemma_other_key::<EventType>(members, "event"@, key, value);
        lemma_other_key::<EventTrackingMethod>(members, "method"@, key, value);
        lemma_other_key::<String>(members, "url"@, key, value);
        lemma_other_key_raw(members, "ext"@, key, value);
    }
}

} // verus!
