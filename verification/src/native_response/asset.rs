//! The kinds of asset that a native response can carry.

use crate::error::{DecodeError, DecodeErrorView};
use crate::json::{Json, JsonView};
use crate::object::{
    encode_opt, field, lemma_field_round_trip, lemma_opt_field_round_trip, lemma_other_key,
    lemma_other_key_raw, Members, ObjectWriter, opt_field, opt_view, raw_field, read_field,
    read_members, read_opt_field, read_raw_field, Record,
};
use crate::text::lemma_head;
use crate::vocabulary::native::{DataAssetType, ImageAssetType};
use crate::wire::{Wire, wrong_type};
use vstd::prelude::*;

verus! {

/// A title asset, with its text filled in.
#[derive(Clone, Debug, PartialEq)]
pub struct Title {
    /// The text associated with the text element.
    pub text: String,
    /// The length of the title being provided. REQUIRED if using assetsurl/dcourl
    /// representation.
    pub len: Option<i32>,
    /// Vendor extensions, carried as they are.
    pub ext: Option<Json>,
}

/// The mathematical value of a [`Title`].
pub struct TitleView {
    pub text: Seq<char>,
    pub len: Option<i32>,
    pub ext: Option<JsonView>,
}

impl DeepView for Title {
    type V = TitleView;

    open spec fn deep_view(&self) -> TitleView {
        TitleView {
            text: self.text.deep_view(),
            len: opt_view(self.len),
            ext: opt_view(self.ext),
        }
    }
}

impl TitleView {
    /// The value in which every optional field is absent and every required
    /// field is empty or zero.
    pub open spec fn empty() -> TitleView {
        TitleView {
            text: Seq::empty(),
            len: None,
            ext: None,
        }
    }
}

impl Default for Title {
    fn default() -> (value: Title)
        ensures
            value.deep_view() == TitleView::empty(),
    {
        let value = Title {
            text: String::new(),
            len: None,
            ext: None,
        };
        proof {
            reveal(opt_view);
        }
        value
    }
}

impl Wire for Title {
    open spec fn encode_spec(value: TitleView) -> JsonView {
        Members::empty()
            .with("text"@, String::encode_spec(value.text))
            .with_opt("len"@, encode_opt::<i32>(value.len))
            .with_opt("ext"@, value.ext)
            .json()
    }

    open spec fn decode_spec(doc: JsonView) -> Result<TitleView, DecodeErrorView> {
        match doc {
            JsonView::Object(members) => {
                let text = field::<String>(members, "text"@);
                let len = opt_field::<i32>(members, "len"@);
                let ext = raw_field(members, "ext"@);
                if text is Err {
                    Err(text->Err_0)
                } else if len is Err {
                    Err(len->Err_0)
                } else {
                    Ok(
                        TitleView {
                            text: text->Ok_0,
                            len: len->Ok_0,
                            ext,
                        },
                    )
                }
            },
            _ => wrong_type(),
        }
    }

    fn encode(&self) -> (doc: Json) {
        let mut object = ObjectWriter::new();
        object.field("text", &self.text);
        object.opt_field("len", &self.len);
        object.raw_field("ext", &self.ext);
        object.finish()
    }

    fn decode(doc: &Json) -> (result: Result<Title, DecodeError>) {
        let members = read_members(doc)?;
        let text = read_field::<String>(members, "text")?;
        let len = read_opt_field::<i32>(members, "len")?;
        let ext = read_raw_field(members, "ext");
        Ok(
            Title {
                text,
                len,
                ext,
            },
        )
    }

    proof fn lemma_round_trip(value: TitleView) {
        Title::lemma_written_fields(value);
        let members = Title::encode_spec(value)->Object_0;
        lemma_field_round_trip::<String>(members, "text"@, value.text);
        lemma_opt_field_round_trip::<i32>(members, "len"@, value.len);
    }
}

impl Title {
    /// What stands under each key on the wire: the wire form of the field of
    /// that name, whatever it holds, and nothing at all where the field is
    /// absent.
    pub proof fn lemma_written_fields(value: TitleView)
        ensures
            Title::encode_spec(value) matches JsonView::Object(members) && {
                &&& raw_field(members, "text"@) == Some(String::encode_spec(value.text))
                &&& raw_field(members, "len"@) == encode_opt::<i32>(value.len)
                &&& raw_field(members, "ext"@) == value.ext
            },
    {
        Members::lemma_lookup();
        reveal_strlit("text");
        reveal_strlit("len");
        reveal_strlit("ext");
        lemma_head("text"@);
        lemma_head("len"@);
        lemma_head("ext"@);
    }

    /// An optional field that is absent leaves no key on the wire, and a field
    /// that is present has its key, also where it holds zero, false or nothing.
    pub proof fn lemma_written_keys(value: TitleView)
        ensures
            Title::encode_spec(value) matches JsonView::Object(members) && {
                &&& members.contains_key("text"@)
                &&& members.contains_key("len"@) <==> value.len is Some
                &&& members.contains_key("ext"@) <==> value.ext is Some
            },
    {
        Title::lemma_written_fields(value);
    }
}

impl Record for Title {
    open spec fn claims(key: Seq<char>) -> bool {
        ||| key == "text"@
        ||| key == "len"@
        ||| key == "ext"@
    }

    proof fn lemma_writes_claimed_keys(value: TitleView) {
        Members::lemma_lookup();
        let members = Title::encode_spec(value)->Object_0;
        assert forall|key: Seq<char>| #[trigger] members.contains_key(key) implies Title::claims(
            key,
        ) by {
            assert(raw_field(members, key) is Some);
        }
    }

    proof fn lemma_unclaimed_key_is_passed_over(
        members: Map<Seq<char>, JsonView>,
        key: Seq<char>,
        value: JsonView,
    ) {
        lemma_other_key::<String>(members, "text"@, key, value);
        lemma_other_key::<i32>(members, "len"@, key, value);
        lemma_other_key_raw(members, "ext"@, key, value);
    }
}

/// An image asset, with its URL filled in.
#[derive(Clone, Debug, PartialEq)]
pub struct Image {
    /// The type of image element being submitted from the ImageType enum. REQUIRED for
    /// assetsurl or dcourl responses, not required to embedded asset responses.
    pub type_: Option<ImageAssetType>,
    /// URL of the image asset.
    pub url: String,
    /// Width of the image in pixels. RECOMMENDED in 1.0, 1.1, or in 1.2 for embedded asset
    /// responses.
    pub w: Option<i32>,
    /// Height of the image in pixels. RECOMMENDED in 1.0, 1.1, or in 1.2 for embedded asset
    /// responses.
    pub h: Option<i32>,
    /// Vendor extensions, carried as they are.
    pub ext: Option<Json>,
}

/// The mathematical value of an [`Image`].
pub struct ImageView {
    pub type_: Option<ImageAssetType>,
    pub url: Seq<char>,
    pub w: Option<i32>,
    pub h: Option<i32>,
    pub ext: Option<JsonView>,
}

impl DeepView for Image {
    type V = ImageView;

    open spec fn deep_view(&self) -> ImageView {
        ImageView {
            type_: opt_view(self.type_),
            url: self.url.deep_view(),
            w: opt_view(self.w),
            h: opt_view(self.h),
            ext: opt_view(self.ext),
        }
    }
}

impl ImageView {
    /// The value in which every optional field is absent and every required
    /// field is empty or zero.
    pub open spec fn empty() -> ImageView {
        ImageView {
            type_: None,
            url: Seq::empty(),
            w: None,
            h: None,
            ext: None,
        }
    }
}

impl Default for Image {
    fn default() -> (value: Image)
        ensures
            value.deep_view() == ImageView::empty(),
    {
        let value = Image {
            type_: None,
            url: String::new(),
            w: None,
            h: None,
            ext: None,
        };
        proof {
            reveal(opt_view);
        }
        value
    }
}

impl Wire for Image {
    open spec fn encode_spec(value: ImageView) -> JsonView {
        Members::empty()
            .with_opt("type"@, encode_opt::<ImageAssetType>(value.type_))
            .with("url"@, String::encode_spec(value.url))
            .with_opt("w"@, encode_opt::<i32>(value.w))
            .with_opt("h"@, encode_opt::<i32>(value.h))
            .with_opt("ext"@, value.ext)
            .json()
    }

    open spec fn decode_spec(doc: JsonView) -> Result<ImageView, DecodeErrorView> {
        match doc {
            JsonView::Object(members) => {
                let type_ = opt_field::<ImageAssetType>(members, "type"@);
                let url = field::<String>(members, "url"@);
                let w = opt_field::<i32>(members, "w"@);
                let h = opt_field::<i32>(members, "h"@);
                let ext = raw_field(members, "ext"@);
                if type_ is Err {
                    Err(type_->Err_0)
                } else if url is Err {
                    Err(url->Err_0)
                } else if w is Err {
                    Err(w->Err_0)
                } else if h is Err {
                    Err(h->Err_0)
                } else {
                    Ok(
                        ImageView {
                            type_: type_->Ok_0,
                            url: url->Ok_0,
                            w: w->Ok_0,
                            h: h->Ok_0,
                            ext,
                        },
                    )
                }
            },
            _ => wrong_type(),
        }
    }

    fn encode(&self) -> (doc: Json) {
        let mut object = ObjectWriter::new();
        object.opt_field("type", &self.type_);
        object.field("url", &self.url);
        object.opt_field("w", &self.w);
        object.opt_field("h", &self.h);
        object.raw_field("ext", &self.ext);
        object.finish()
    }

    fn decode(doc: &Json) -> (result: Result<Image, DecodeError>) {
        let members = read_members(doc)?;
        let type_ = read_opt_field::<ImageAssetType>(members, "type")?;
        let url = read_field::<String>(members, "url")?;
        let w = read_opt_field::<i32>(members, "w")?;
        let h = read_opt_field::<i32>(members, "h")?;
        let ext = read_raw_field(members, "ext");
        Ok(
            Image {
                type_,
                url,
                w,
                h,
                ext,
            },
        )
    }

    proof fn lemma_round_trip(value: ImageView) {
        Image::lemma_written_fields(value);
        let members = Image::encode_spec(value)->Object_0;
        lemma_opt_field_round_trip::<ImageAssetType>(members, "type"@, value.type_);
        lemma_field_round_trip::<String>(members, "url"@, value.url);
        lemma_opt_field_round_trip::<i32>(members, "w"@, value.w);
        lemma_opt_field_round_trip::<i32>(members, "h"@, value.h);
    }
}

impl Image {
    /// What stands under each key on the wire: the wire form of the field of
    /// that name, whatever it holds, and nothing at all where the field is
    /// absent.
    pub proof fn lemma_written_fields(value: ImageView)
        ensures
            Image::encode_spec(value) matches JsonView::Object(members) && {
                &&& raw_field(members, "type"@) == encode_opt::<ImageAssetType>(value.type_)
                &&& raw_field(members, "url"@) == Some(String::encode_spec(value.url))
                &&& raw_field(members, "w"@) == encode_opt::<i32>(value.w)
                &&& raw_field(members, "h"@) == encode_opt::<i32>(value.h)
                &&& raw_field(members, "ext"@) == value.ext
            },
    {
        Members::lemma_lookup();
        reveal_strlit("type");
        reveal_strlit("url");
        reveal_strlit("w");
        reveal_strlit("h");
        reveal_strlit("ext");
        lemma_head("type"@);
        lemma_head("url"@);
        lemma_head("w"@);
        lemma_head("h"@);
        lemma_head("ext"@);
    }

    /// An optional field that is absent leaves no key on the wire, and a field
    /// that is present has its key, also where it holds zero, false or nothing.
    pub proof fn lemma_written_keys(value: ImageView)
        ensures
            Image::encode_spec(value) matches JsonView::Object(members) && {
                &&& members.contains_key("type"@) <==> value.type_ is Some
                &&& members.contains_key("url"@)
                &&& members.contains_key("w"@) <==> value.w is Some
                &&& members.contains_key("h"@) <==> value.h is Some
                &&& members.contains_key("ext"@) <==> value.ext is Some
            },
    {
        Image::lemma_written_fields(value);
    }
}

impl Record for Image {
    open spec fn claims(key: Seq<char>) -> bool {
        ||| key == "type"@
        ||| key == "url"@
        ||| key == "w"@
        ||| key == "h"@
        ||| key == "ext"@
    }

    proof fn lemma_writes_claimed_keys(value: ImageView) {
        Members::lemma_lookup();
        let members = Image::encode_spec(value)->Object_0;
        assert forall|key: Seq<char>| #[trigger] members.contains_key(key) implies Image::claims(
            key,
        ) by {
            assert(raw_field(members, key) is Some);
        }
    }

    proof fn lemma_unclaimed_key_is_passed_over(
        members: Map<Seq<char>, JsonView>,
        key: Seq<char>,
        value: JsonView,
    ) {
        lemma_other_key::<ImageAssetType>(members, "type"@, key, value);
        lemma_other_key::<String>(members, "url"@, key, value);
        lemma_other_key::<i32>(members, "w"@, key, value);
        lemma_other_key::<i32>(members, "h"@, key, value);
        lemma_other_key_raw(members, "ext"@, key, value);
    }
}

/// A data asset, with its value filled in.
#[derive(Clone, Debug, PartialEq)]
pub struct Data {
    /// The type of data element being submitted from the DataAssetTypes enum. REQUIRED in
    /// 1.2 for assetsurl or dcourl responses.
    pub type_: Option<DataAssetType>,
    /// The length of the data element being submitted. Where applicable, must comply with
    /// the recommended maximum lengths in the DataAssetType enum.
    pub len: Option<i32>,
    /// Deprecated in OpenRTB Native 1.2+. No replacement.
    pub label: Option<String>,
    /// The formatted string of data to be displayed. Can contain a formatted value such as
    /// "5 stars" or "$10" or "3.4 stars out of 5".
    pub value: String,
    /// Vendor extensions, carried as they are.
    pub ext: Option<Json>,
}

/// The mathematical value of a [`Data`].
pub struct DataView {
    pub type_: Option<DataAssetType>,
    pub len: Option<i32>,
    pub label: Option<Seq<char>>,
    pub value: Seq<char>,
    pub ext: Option<JsonView>,
}

impl DeepView for Data {
    type V = DataView;

    open spec fn deep_view(&self) -> DataView {
        DataView {
            type_: opt_view(self.type_),
            len: opt_view(self.len),
            label: opt_view(self.label),
            value: self.value.deep_view(),
            ext: opt_view(self.ext),
        }
    }
}

impl DataView {
    /// The value in which every optional field is absent and every required
    /// field is empty or zero.
    pub open spec fn empty() -> DataView {
        DataView {
            type_: None,
            len: None,
            label: None,
            value: Seq::empty(),
            ext: None,
        }
    }
}

impl Default for Data {
    fn default() -> (value: Data)
        ensures
            value.deep_view() == DataView::empty(),
    {
        let value = Data {
            type_: None,
            len: None,
            label: None,
            value: String::new(),
            ext: None,
        };
        proof {
            reveal(opt_view);
        }
        value
    }
}

impl Wire for Data {
    open spec fn encode_spec(value: DataView) -> JsonView {
        Members::empty()
            .with_opt("type"@, encode_opt::<DataAssetType>(value.type_))
            .with_opt("len"@, encode_opt::<i32>(value.len))
            .with_opt("label"@, encode_opt::<String>(value.label))
            .with("value"@, String::encode_spec(value.value))
            .with_opt("ext"@, value.ext)
            .json()
    }

    open spec fn decode_spec(doc: JsonView) -> Result<DataView, DecodeErrorView> {
        match doc {
            JsonView::Object(members) => {
                let type_ = opt_field::<DataAssetType>(members, "type"@);
                let len = opt_field::<i32>(members, "len"@);
                let label = opt_field::<String>(members, "label"@);
                let value = field::<String>(members, "value"@);
                let ext = raw_field(members, "ext"@);
                if type_ is Err {
                    Err(type_->Err_0)
                } else if len is Err {
                    Err(len->Err_0)
                } else if label is Err {
                    Err(label->Err_0)
                } else if value is Err {
                    Err(value->Err_0)
                } else {
                    Ok(
                        DataView {
                            type_: type_->Ok_0,
                            len: len->Ok_0,
                            label: label->Ok_0,
                            value: value->Ok_0,
                            ext,
                        },
                    )
                }
            },
            _ => wrong_type(),
        }
    }

    fn encode(&self) -> (doc: Json) {
        let mut object = ObjectWriter::new();
        object.opt_field("type", &self.type_);
        object.opt_field("len", &self.len);
        object.opt_field("label", &self.label);
        object.field("value", &self.value);
        object.raw_field("ext", &self.ext);
        object.finish()
    }

    fn decode(doc: &Json) -> (result: Result<Data, DecodeError>) {
        let members = read_members(doc)?;
        let type_ = read_opt_field::<DataAssetType>(members, "type")?;
        let len = read_opt_field::<i32>(members, "len")?;
        let label = read_opt_field::<String>(members, "label")?;
        let value = read_field::<String>(members, "value")?;
        let ext = read_raw_field(members, "ext");
        Ok(
            Data {
                type_,
                len,
                label,
                value,
                ext,
            },
        )
    }

    proof fn lemma_round_trip(value: DataView) {
        Data::lemma_written_fields(value);
        let members = Data::encode_spec(value)->Object_0;
        lemma_opt_field_round_trip::<DataAssetType>(members, "type"@, value.type_);
        lemma_opt_field_round_trip::<i32>(members, "len"@, value.len);
        lemma_opt_field_round_trip::<String>(members, "label"@, value.label);
        lemma_field_round_trip::<String>(members, "value"@, value.value);
    }
}

impl Data {
    /// What stands under each key on the wire: the wire form of the field of
    /// that name, whatever it holds, and nothing at all where the field is
    /// absent.
    pub proof fn lemma_written_fields(value: DataView)
        ensures
            Data::encode_spec(value) matches JsonView::Object(members) && {
                &&& raw_field(members, "type"@) == encode_opt::<DataAssetType>(value.type_)
                &&& raw_field(members, "len"@) == encode_opt::<i32>(value.len)
                &&& raw_field(members, "label"@) == encode_opt::<String>(value.label)
                &&& raw_field(members, "value"@) == Some(String::encode_spec(value.value))
                &&& raw_field(members, "ext"@) == value.ext
            },
    {
        Members::lemma_lookup();
        reveal_strlit("type");
        reveal_strlit("len");
        reveal_strlit("label");
        reveal_strlit("value");
        reveal_strlit("ext");
        lemma_head("type"@);
        lemma_head("len"@);
        lemma_head("label"@);
        lemma_head("value"@);
        lemma_head("ext"@);
    }

    /// An optional field that is absent leaves no key on the wire, and a field
    /// that is present has its key, also where it holds zero, false or nothing.
    pub proof fn lemma_written_keys(value: DataView)
        ensures
            Data::encode_spec(value) matches JsonView::Object(members) && {
                &&& members.contains_key("type"@) <==> value.type_ is Some
                &&& members.contains_key("len"@) <==> value.len is Some
                &&& members.contains_key("label"@) <==> value.label is Some
                &&& members.contains_key("value"@)
                &&& members.contains_key("ext"@) <==> value.ext is Some
            },
    {
        Data::lemma_written_fields(value);
    }
}

impl Record for Data {
    open spec fn claims(key: Seq<char>) -> bool {
        ||| key == "type"@
        ||| key == "len"@
        ||| key == "label"@
        ||| key == "value"@
        ||| key == "ext"@
    }

    proof fn lemma_writes_claimed_keys(value: DataView) {
        Members::lemma_lookup();
        let members = Data::encode_spec(value)->Object_0;
        assert forall|key: Seq<char>| #[trigger] members.contains_key(key) implies Data::claims(
            key,
        ) by {
            assert(raw_field(members, key) is Some);
        }
    }

    proof fn lemma_unclaimed_key_is_passed_over(
        members: Map<Seq<char>, JsonView>,
        key: Seq<char>,
        value: JsonView,
    ) {
        lemma_other_key::<DataAssetType>(members, "type"@, key, value);
        lemma_other_key::<i32>(members, "len"@, key, value);
        lemma_other_key::<String>(members, "label"@, key, value);
        lemma_other_key::<String>(members, "value"@, key, value);
        lemma_other_key_raw(members, "ext"@, key, value);
    }
}

/// A video asset, as a VAST tag.
#[derive(Clone, Debug, PartialEq)]
pub struct Video {
    /// VAST xml.
    pub vasttag: String,
    /// Vendor extensions, carried as they are.
    pub ext: Option<Json>,
}

/// The mathematical value of a [`Video`].
pub struct VideoView {
    pub vasttag: Seq<char>,
    pub ext: Option<JsonView>,
}

impl DeepView for Video {
    type V = VideoView;

    open spec fn deep_view(&self) -> VideoView {
        VideoView {
            vasttag: self.vasttag.deep_view(),
            ext: opt_view(self.ext),
        }
    }
}

impl VideoView {
    /// The value in which every optional field is absent and every required
    /// field is empty or zero.
    pub open spec fn empty() -> VideoView {
        VideoView {
            vasttag: Seq::empty(),
            ext: None,
        }
    }
}

impl Default for Video {
    fn default() -> (value: Video)
        ensures
            value.deep_view() == VideoView::empty(),
    {
        let value = Video {
            vasttag: String::new(),
            ext: None,
        };
        proof {
            reveal(opt_view);
        }
        value
    }
}

impl Wire for Video {
    open spec fn encode_spec(value: VideoView) -> JsonView {
        Members::empty()
            .with("vasttag"@, String::encode_spec(value.vasttag))
            .with_opt("ext"@, value.ext)
            .json()
    }

    open spec fn decode_spec(doc: JsonView) -> Result<VideoView, DecodeErrorView> {
        match doc {
            JsonView::Object(members) => {
                let vasttag = field::<String>(members, "vasttag"@);
                let ext = raw_field(members, "ext"@);
                if vasttag is Err {
                    Err(vasttag->Err_0)
                } else {
                    Ok(
                        VideoView {
                            vasttag: vasttag->Ok_0,
                            ext,
                        },
                    )
                }
            },
            _ => wrong_type(),
        }
    }

    fn encode(&self) -> (doc: Json) {
        let mut object = ObjectWriter::new();
        object.field("vasttag", &self.vasttag);
        object.raw_field("ext", &self.ext);
        object.finish()
    }

    fn decode(doc: &Json) -> (result: Result<Video, DecodeError>) {
        let members = read_members(doc)?;
        let vasttag = read_field::<String>(members, "vasttag")?;
        let ext = read_raw_field(members, "ext");
        Ok(
            Video {
                vasttag,
                ext,
            },
        )
    }

    proof fn lemma_round_trip(value: VideoView) {
        Video::lemma_written_fields(value);
        let members = Video::encode_spec(value)->Object_0;
        lemma_field_round_trip::<String>(members, "vasttag"@, value.vasttag);
    }
}

impl Video {
    /// What stands under each key on the wire: the wire form of the field of
    /// that name, whatever it holds, and nothing at all where the field is
    /// absent.
    pub proof fn lemma_written_fields(value: VideoView)
        ensures
            Video::encode_spec(value) matches JsonView::Object(members) && {
                &&& raw_field(members, "vasttag"@) == Some(String::encode_spec(value.vasttag))
                &&& raw_field(members, "ext"@) == value.ext
            },
    {
        Members::lemma_lookup();
        reveal_strlit("vasttag");
        reveal_strlit("ext");
        lemma_head("vasttag"@);
        lemma_head("ext"@);
    }

    /// An optional field that is absent leaves no key on the wire, and a field
    /// that is present has its key, also where it holds zero, false or nothing.
    pub proof fn lemma_written_keys(value: VideoView)
        ensures
            Video::encode_spec(value) matches JsonView::Object(members) && {
                &&& members.contains_key("vasttag"@)
                &&& members.contains_key("ext"@) <==> value.ext is Some
            },
    {
        Video::lemma_written_fields(value);
    }
}

impl Record for Video {
    open spec fn claims(key: Seq<char>) -> bool {
        ||| key == "vasttag"@
        ||| key == "ext"@
    }

    proof fn lemma_writes_claimed_keys(value: VideoView) {
        Members::lemma_lookup();
        let members = Video::encode_spec(value)->Object_0;
        assert forall|key: Seq<char>| #[trigger] members.contains_key(key) implies Video::claims(
            key,
        ) by {
            assert(raw_field(members, key) is Some);
        }
    }

    proof fn lemma_unclaimed_key_is_passed_over(
        members: Map<Seq<char>, JsonView>,
        key: Seq<char>,
        value: JsonView,
    ) {
        lemma_other_key::<String>(members, "vasttag"@, key, value);
        lemma_other_key_raw(members, "ext"@, key, value);
    }
}

} // verus!
