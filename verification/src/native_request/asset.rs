//! The kinds of asset that a native request can ask for.

use crate::error::{DecodeError, DecodeErrorView};
use crate::json::{Json, JsonView};
use crate::object::{
    encode_opt, field, lemma_field_round_trip, lemma_opt_field_round_trip, lemma_other_key,
    lemma_other_key_raw, Members, ObjectWriter, opt_field, opt_view, raw_field, read_field,
    read_members, read_opt_field, read_raw_field, Record,
};
use crate::text::lemma_head;
use crate::vocabulary::native::{DataAssetType, ImageAssetType};
use crate::wire::{Wire, wrong_type};
use vstd::prelude::*;

verus! {

/// A title asset that is asked for.
#[derive(Clone, Debug, PartialEq)]
pub struct Title {
    /// Maximum length of the text in the title element. RECOMMENDED that the value be
    /// either of: 25, 90, 140.
    pub len: i32,
    /// Vendor extensions, carried as they are.
    pub ext: Option<Json>,
}

/// The mathematical value of a [`Title`].
pub struct TitleView {
    pub len: i32,
    pub ext: Option<JsonView>,
}

impl DeepView for Title {
    type V = TitleView;

    open spec fn deep_view(&self) -> TitleView {
        TitleView {
            len: self.len.deep_view(),
            ext: opt_view(self.ext),
        }
    }
}

impl TitleView {
    /// The value in which every optional field is absent and every required
    /// field is empty or zero.
    pub open spec fn empty() -> TitleView {
        TitleView {
            len: 0,
            ext: None,
        }
    }
}

impl Default for Title {
    fn default() -> (value: Title)
        ensures
            value.deep_view() == TitleView::empty(),
    {
        let value = Title {
            len: 0,
            ext: None,
        };
        proof {
            reveal(opt_view);
        }
        value
    }
}

impl Wire for Title {
    open spec fn encode_spec(value: TitleView) -> JsonView {
        Members::empty()
            .with("len"@, i32::encode_spec(value.len))
            .with_opt("ext"@, value.ext)
            .json()
    }

    open spec fn decode_spec(doc: JsonView) -> Result<TitleView, DecodeErrorView> {
        match doc {
            JsonView::Object(members) => {
                let len = field::<i32>(members, "len"@);
                let ext = raw_field(members, "ext"@);
                if len is Err {
                    Err(len->Err_0)
                } else {
                    Ok(
                        TitleView {
                            len: len->Ok_0,
                            ext,
                        },
                    )
                }
            },
            _ => wrong_type(),
        }
    }

    fn encode(&self) -> (doc: Json) {
        let mut object = ObjectWriter::new();
        object.field("len", &self.len);
        object.raw_field("ext", &self.ext);
        object.finish()
    }

    fn decode(doc: &Json) -> (result: Result<Title, DecodeError>) {
        let members = read_members(doc)?;
        let len = read_field::<i32>(members, "len")?;
        let ext = read_raw_field(members, "ext");
        Ok(
            Title {
                len,
                ext,
            },
        )
    }

    proof fn lemma_round_trip(value: TitleView) {
        Title::lemma_written_fields(value);
        let members = Title::encode_spec(value)->Object_0;
        lemma_field_round_trip::<i32>(members, "len"@, value.len);
    }
}

impl Title {
    /// What stands under each key on the wire: the wire form of the field of
    /// that name, whatever it holds, and nothing at all where the field is
    /// absent.
    pub proof fn lemma_written_fields(value: TitleView)
        ensures
            Title::encode_spec(value) matches JsonView::Object(members) && {
                &&& raw_field(members, "len"@) == Some(i32::encode_spec(value.len))
                &&& raw_field(members, "ext"@) == value.ext
            },
    {
        Members::lemma_lookup();
        reveal_strlit("len");
        reveal_strlit("ext");
        lemma_head("len"@);
        lemma_head("ext"@);
    }

    /// An optional field that is absent leaves no key on the wire, and a field
    /// that is present has its key, also where it holds zero, false or nothing.
    pub proof fn lemma_written_keys(value: TitleView)
        ensures
            Title::encode_spec(value) matches JsonView::Object(members) && {
                &&& members.contains_key("len"@)
                &&& members.contains_key("ext"@) <==> value.ext is Some
            },
    {
        Title::lemma_written_fields(value);
    }
}

impl Record for Title {
    open spec fn claims(key: Seq<char>) -> bool {
        ||| key == "len"@
        ||| key == "ext"@
    }

    proof fn lemma_writes_claimed_keys(value: TitleView) {
        Members::lemma_lookup();
        let members = Title::encode_spec(value)->Object_0;
        assert forall|key: Seq<char>| #[trigger] members.contains_key(key) implies Title::claims(
            key,
        ) by {
            assert(raw_field(members, key) is Some);
        }
    }

    proof fn lemma_unclaimed_key_is_passed_over(
        members: Map<Seq<char>, JsonView>,
        key: Seq<char>,
        value: JsonView,
    ) {
        lemma_other_key::<i32>(members, "len"@, key, value);
        lemma_other_key_raw(members, "ext"@, key, value);
    }
}

/// An image asset that is asked for.
#[derive(Clone, Debug, PartialEq)]
pub struct Image {
    /// Type ID of the image element supported by the publisher. The publisher can display
    /// this information in an appropriate format.
    pub type_: Option<ImageAssetType>,
    /// Width of the image in pixels.
    pub w: Option<i32>,
    /// Height of the image in pixels.
    pub h: Option<i32>,
    /// The minimum requested width of the image in pixels. This option should be used for
    /// any rescaling of images by the client.
    pub wmin: Option<i32>,
    /// The minimum requested height of the image in pixels. This option should be used for
    /// any rescaling of images by the client.
    pub hmin: Option<i32>,
    /// Allowlist of content MIME types supported. Popular MIME types include, but are not
    /// limited to "image/jpg" and "image/gif".
    pub mimes: Option<Vec<String>>,
    /// Vendor extensions, carried as they are.
    pub ext: Option<Json>,
}

/// The mathematical value of an [`Image`].
pub struct ImageView {
    pub type_: Option<ImageAssetType>,
    pub w: Option<i32>,
    pub h: Option<i32>,
    pub wmin: Option<i32>,
    pub hmin: Option<i32>,
    pub mimes: Option<Seq<Seq<char>>>,
    pub ext: Option<JsonView>,
}

impl DeepView for Image {
    type V = ImageView;

    open spec fn deep_view(&self) -> ImageView {
        ImageView {
            type_: opt_view(self.type_),
            w: opt_view(self.w),
            h: opt_view(self.h),
            wmin: opt_view(self.wmin),
            hmin: opt_view(self.hmin),
            mimes: opt_view(self.mimes),
            ext: opt_view(self.ext),
        }
    }
}

impl ImageView {
    /// The value in which every optional field is absent and every required
    /// field is empty or zero.
    pub open spec fn empty() -> ImageView {
        ImageView {
            type_: None,
            w: None,
            h: None,
            wmin: None,
            hmin: None,
            mimes: None,
            ext: None,
        }
    }
}

impl Default for Image {
    fn default() -> (value: Image)
        ensures
            value.deep_view() == ImageView::empty(),
    {
        let value = Image {
            type_: None,
            w: None,
            h: None,
            wmin: None,
            hmin: None,
            mimes: None,
            ext: None,
        };
        proof {
            reveal(opt_view);
        }
        value
    }
}

impl Wire for Image {
    open spec fn encode_spec(value: ImageView) -> JsonView {
        Members::empty()
            .with_opt("type"@, encode_opt::<ImageAssetType>(value.type_))
            .with_opt("w"@, encode_opt::<i32>(value.w))
            .with_opt("h"@, encode_opt::<i32>(value.h))
            .with_opt("wmin"@, encode_opt::<i32>(value.wmin))
            .with_opt("hmin"@, encode_opt::<i32>(value.hmin))
            .with_opt("mimes"@, encode_opt::<Vec<String>>(value.mimes))
            .with_opt("ext"@, value.ext)
            .json()
    }

    open spec fn decode_spec(doc: JsonView) -> Result<ImageView, DecodeErrorView> {
        match doc {
            JsonView::Object(members) => {
                let type_ = opt_field::<ImageAssetType>(members, "type"@);
                let w = opt_field::<i32>(members, "w"@);
                let h = opt_field::<i32>(members, "h"@);
                let wmin = opt_field::<i32>(members, "wmin"@);
                let hmin = opt_field::<i32>(members, "hmin"@);
                let mimes = opt_field::<Vec<String>>(members, "mimes"@);
                let ext = raw_field(members, "ext"@);
                if type_ is Err {
                    Err(type_->Err_0)
                } else if w is Err {
                    Err(w->Err_0)
                } else if h is Err {
                    Err(h->Err_0)
                } else if wmin is Err {
                    Err(wmin->Err_0)
                } else if hmin is Err {
                    Err(hmin->Err_0)
                } else if mimes is Err {
                    Err(mimes->Err_0)
                } else {
                    Ok(
                        ImageView {
                            type_: type_->Ok_0,
                            w: w->Ok_0,
                            h: h->Ok_0,
                            wmin: wmin->Ok_0,
                            hmin: hmin->Ok_0,
                            mimes: mimes->Ok_0,
                            ext,
                        },
                    )
                }
            },
            _ => wrong_type(),
        }
    }

    fn encode(&self) -> (doc: Json) {
        let mut object = ObjectWriter::new();
        object.opt_field("type", &self.type_);
        object.opt_field("w", &self.w);
        object.opt_field("h", &self.h);
        object.opt_field("wmin", &self.wmin);
        object.opt_field("hmin", &self.hmin);
        object.opt_field("mimes", &self.mimes);
        object.raw_field("ext", &self.ext);
        object.finish()
    }

    fn decode(doc: &Json) -> (result: Result<Image, DecodeError>) {
        let members = read_members(doc)?;
        let type_ = read_opt_field::<ImageAssetType>(members, "type")?;
        let w = read_opt_field::<i32>(members, "w")?;
        let h = read_opt_field::<i32>(members, "h")?;
        let wmin = read_opt_field::<i32>(members, "wmin")?;
        let hmin = read_opt_field::<i32>(members, "hmin")?;
        let mimes = read_opt_field::<Vec<String>>(members, "mimes")?;
        let ext = read_raw_field(members, "ext");
        Ok(
            Image {
                type_,
                w,
                h,
                wmin,
                hmin,
                mimes,
                ext,
            },
        )
    }

    proof fn lemma_round_trip(value: ImageView) {
        Image::lemma_written_fields(value);
        let members = Image::encode_spec(value)->Object_0;
        lemma_opt_field_round_trip::<ImageAssetType>(members, "type"@, value.type_);
        lemma_opt_field_round_trip::<i32>(members, "w"@, value.w);
        lemma_opt_field_round_trip::<i32>(members, "h"@, value.h);
        lemma_opt_field_round_trip::<i32>(members, "wmin"@, value.wmin);
        lemma_opt_field_round_trip::<i32>(members, "hmin"@, value.hmin);
        lemma_opt_field_round_trip::<Vec<String>>(members, "mimes"@, value.mimes);
    }
}

impl Image {
    /// What stands under each key on the wire: the wire form of the field of
    /// that name, whatever it holds, and nothing at all where the field is
    /// absent.
    pub proof fn lemma_written_fields(value: ImageView)
        ensures
            Image::encode_spec(value) matches JsonView::Object(members) && {
                &&& raw_field(members, "type"@) == encode_opt::<ImageAssetType>(value.type_)
                &&& raw_field(members, "w"@) == encode_opt::<i32>(value.w)
                &&& raw_field(members, "h"@) == encode_opt::<i32>(value.h)
                &&& raw_field(members, "wmin"@) == encode_opt::<i32>(value.wmin)
                &&& raw_field(members, "hmin"@) == encode_opt::<i32>(value.hmin)
                &&& raw_field(members, "mimes"@) == encode_opt::<Vec<String>>(value.mimes)
                &&& raw_field(members, "ext"@) == value.ext
            },
    {
        Members::lemma_lookup();
        reveal_strlit("type");
        reveal_strlit("w");
        reveal_strlit("h");
        reveal_strlit("wmin");
        reveal_strlit("hmin");
        reveal_strlit("mimes");
        reveal_strlit("ext");
        lemma_head("type"@);
        lemma_head("w"@);
        lemma_head("h"@);
        lemma_head("wmin"@);
        lemma_head("hmin"@);
        lemma_head("mimes"@);
        lemma_head("ext"@);
    }

    /// An optional field that is absent leaves no key on the wire, and a field
    /// that is present has its key, also where it holds zero, false or nothing.
    pub proof fn lemma_written_keys(value: ImageView)
        ensures
            Image::encode_spec(value) matches JsonView::Object(members) && {
                &&& members.contains_key("type"@) <==> value.type_ is Some
                &&& members.contains_key("w"@) <==> value.w is Some
                &&& members.contains_key("h"@) <==> value.h is Some
                &&& members.contains_key("wmin"@) <==> value.wmin is Some
                &&& members.contains_key("hmin"@) <==> value.hmin is Some
                &&& members.contains_key("mimes"@) <==> value.mimes is Some
                &&& members.contains_key("ext"@) <==> value.ext is Some
            },
    {
        Image::lemma_written_fields(value);
    }
}

impl Record for Image {
    open spec fn claims(key: Seq<char>) -> bool {
        ||| key == "type"@
        ||| key == "w"@
        ||| key == "h"@
        ||| key == "wmin"@
        ||| key == "hmin"@
        ||| key == "mimes"@
        ||| key == "ext"@
    }

    proof fn lemma_writes_claimed_keys(value: ImageView) {
        Members::lemma_lookup();
        let members = Image::encode_spec(value)->Object_0;
        assert forall|key: Seq<char>| #[trigger] members.contains_key(key) implies Image::claims(
            key,
        ) by {
            assert(raw_field(members, key) is Some);
        }
    }

    proof fn lemma_unclaimed_key_is_passed_over(
        members: Map<Seq<char>, JsonView>,
        key: Seq<char>,
        value: JsonView,
    ) {
        lemma_other_key::<ImageAssetType>(members, "type"@, key, value);
        lemma_other_key::<i32>(members, "w"@, key, value);
        lemma_other_key::<i32>(members, "h"@, key, value);
        lemma_other_key::<i32>(members, "wmin"@, key, value);
        lemma_other_key::<i32>(members, "hmin"@, key, value);
        lemma_other_key::<Vec<String>>(members, "mimes"@, key, value);
        lemma_other_key_raw(members, "ext"@, key, value);
    }
}

/// A data asset that is asked for: a rating, a price, a description and the
/// like.
#[derive(Clone, Debug, PartialEq)]
pub struct Data {
    /// Type ID of the element supported by the publisher. The publisher can display this
    /// information in an appropriate format.
    pub type_: DataAssetType,
    /// Maximum length of the text in the element's response. Longer strings may be
    /// truncated and ellipsized by Ad Exchange or the publisher during rendering.
    pub len: Option<i32>,
    /// Vendor extensions, carried as they are.
    pub ext: Option<Json>,
}

/// The mathematical value of a [`Data`].
pub struct DataView {
    pub type_: DataAssetType,
    pub len: Option<i32>,
    pub ext: Option<JsonView>,
}

impl DeepView for Data {
    type V = DataView;

    open spec fn deep_view(&self) -> DataView {
        DataView {
            type_: self.type_.deep_view(),
            len: opt_view(self.len),
            ext: opt_view(self.ext),
        }
    }
}

impl Wire for Data {
    open spec fn encode_spec(value: DataView) -> JsonView {
        Members::empty()
            .with("type"@, DataAssetType::encode_spec(value.type_))
            .with_opt("len"@, encode_opt::<i32>(value.len))
            .with_opt("ext"@, value.ext)
            .json()
    }

    open spec fn decode_spec(doc: JsonView) -> Result<DataView, DecodeErrorView> {
        match doc {
            JsonView::Object(members) => {
                let type_ = field::<DataAssetType>(members, "type"@);
                let len = opt_field::<i32>(members, "len"@);
                let ext = raw_field(members, "ext"@);
                if type_ is Err {
                    Err(type_->Err_0)
                } else if len is Err {
                    Err(len->Err_0)
                } else {
                    Ok(
                        DataView {
                            type_: type_->Ok_0,
                            len: len->Ok_0,
                            ext,
                        },
                    )
                }
            },
            _ => wrong_type(),
        }
    }

    fn encode(&self) -> (doc: Json) {
        let mut object = ObjectWriter::new();
        object.field("type", &self.type_);
        object.opt_field("len", &self.len);
        object.raw_field("ext", &self.ext);
        object.finish()
    }

    fn decode(doc: &Json) -> (result: Result<Data, DecodeError>) {
        let members = read_members(doc)?;
        let type_ = read_field::<DataAssetType>(members, "type")?;
        let len = read_opt_field::<i32>(members, "len")?;
        let ext = read_raw_field(members, "ext");
        Ok(
            Data {
                type_,
                len,
                ext,
            },
        )
    }

    proof fn lemma_round_trip(value: DataView) {
        Data::lemma_written_fields(value);
        let members = Data::encode_spec(value)->Object_0;
        lemma_field_round_trip::<DataAssetType>(members, "type"@, value.type_);
        lemma_opt_field_round_trip::<i32>(members, "len"@, value.len);
    }
}

impl Data {
    /// What stands under each key on the wire: the wire form of the field of
    /// that name, whatever it holds, and nothing at all where the field is
    /// absent.
    pub proof fn lemma_written_fields(value: DataView)
        ensures
            Data::encode_spec(value) matches JsonView::Object(members) && {
                &&& raw_field(members, "type"@) == Some(DataAssetType::encode_spec(value.type_))
                &&& raw_field(members, "len"@) == encode_opt::<i32>(value.len)
                &&& raw_field(members, "ext"@) == value.ext
            },
    {
        Members::lemma_lookup();
        reveal_strlit("type");
        reveal_strlit("len");
        reveal_strlit("ext");
        lemma_head("type"@);
        lemma_head("len"@);
        lemma_head("ext"@);
    }

    /// An optional field that is absent leaves no key on the wire, and a field
    /// that is present has its key, also where it holds zero, false or nothing.
    pub proof fn lemma_written_keys(value: DataView)
        ensures
            Data::encode_spec(value) matches JsonView::Object(members) && {
                &&& members.contains_key("type"@)
                &&& members.contains_key("len"@) <==> value.len is Some
                &&& members.contains_key("ext"@) <==> value.ext is Some
            },
    {
        Data::lemma_written_fields(value);
    }
}

impl Record for Data {
    open spec fn claims(key: Seq<char>) -> bool {
        ||| key == "type"@
        ||| key == "len"@
        ||| key == "ext"@
    }

    proof fn lemma_writes_claimed_keys(value: DataView) {
        Members::lemma_lookup();
        let members = Data::encode_spec(value)->Object_0;
        assert forall|key: Seq<char>| #[trigger] members.contains_key(key) implies Data::claims(
            key,
        ) by {
            assert(raw_field(members, key) is Some);
        }
    }

    proof fn lemma_unclaimed_key_is_passed_over(
        members: Map<Seq<char>, JsonView>,
        key: Seq<char>,
        value: JsonView,
    ) {
        lemma_other_key::<DataAssetType>(members, "type"@, key, value);
        lemma_other_key::<i32>(members, "len"@, key, value);
        lemma_other_key_raw(members, "ext"@, key, value);
    }
}

} // verus!
