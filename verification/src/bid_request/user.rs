//! The human audience of an impression.

use crate::bid_request::{Data, DataView, Geo, GeoView};
use crate::error::{DecodeError, DecodeErrorView};
use crate::json::{Json, JsonView};
use crate::object::{
    encode_opt, lemma_opt_field_round_trip, lemma_other_key, lemma_other_key_raw, Members,
    ObjectWriter, opt_field, opt_view, raw_field, read_members, read_opt_field, read_raw_field,
    Record,
};
use crate::text::lemma_head;
use crate::wire::{Wire, wrong_type};
use vstd::prelude::*;

verus! {

/// What is known or derived about the human user of the device.
#[derive(Clone, Debug, PartialEq)]
pub struct User {
    /// Exchange-specific ID for the user. At least one of id or buyeruid is recommended.
    pub id: Option<String>,
    /// Buyer-specific ID for the user as mapped by the exchange for the buyer. At least one
    /// of buyeruid or id is recommended.
    pub buyeruid: Option<String>,
    /// Year of birth as a 4-digit integer.
    pub yob: Option<i32>,
    /// Gender as "M" male, "F" female, "O" Other. (Null indicates unknown).
    pub gender: Option<String>,
    /// Comma separated list of keywords, interests, or intent.
    pub keywords: Option<String>,
    /// Optional feature to pass bidder data set in the exchange's cookie. The string must
    /// be in base85 cookie safe characters and be in any format.
    pub customdata: Option<String>,
    /// Location of the user's home base defined by a Geo object (Section 3.2.12). This is
    /// not necessarily their current location.
    pub geo: Option<Geo>,
    /// Additional user data. Each Data object (Section 3.2.14) represents a different data
    /// source.
    pub data: Option<Vec<Data>>,
    /// Vendor extensions, carried as they are.
    pub ext: Option<Json>,
}

/// The mathematical value of an [`User`].
pub struct UserView {
    pub id: Option<Seq<char>>,
    pub buyeruid: Option<Seq<char>>,
    pub yob: Option<i32>,
    pub gender: Option<Seq<char>>,
    pub keywords: Option<Seq<char>>,
    pub customdata: Option<Seq<char>>,
    pub geo: Option<GeoView>,
    pub data: Option<Seq<DataView>>,
    pub ext: Option<JsonView>,
}

impl DeepView for User {
    type V = UserView;

    open spec fn deep_view(&self) -> UserView {
        UserView {
            id: opt_view(self.id),
            buyeruid: opt_view(self.buyeruid),
            yob: opt_view(self.yob),
            gender: opt_view(self.gender),
            keywords: opt_view(self.keywords),
            customdata: opt_view(self.customdata),
            geo: opt_view(self.geo),
            data: opt_view(self.data),
            ext: opt_view(self.ext),
        }
    }
}

impl UserView {
    /// The value in which every optional field is absent and every required
    /// field is empty or zero.
    pub open spec fn empty() -> UserView {
        UserView {
            id: None,
            buyeruid: None,
            yob: None,
            gender: None,
            keywords: None,
            customdata: None,
            geo: None,
            data: None,
            ext: None,
        }
    }
}

impl Default for User {
    fn default() -> (value: User)
        ensures
            value.deep_view() == UserView::empty(),
    {
        let value = User {
            id: None,
            buyeruid: None,
            yob: None,
            gender: None,
            keywords: None,
            customdata: None,
            geo: None,
            data: None,
            ext: None,
        };
        proof {
            reveal(opt_view);
        }
        value
    }
}

impl Wire for User {
    open spec fn encode_spec(value: UserView) -> JsonView {
        Members::empty()
            .with_opt("id"@, encode_opt::<String>(value.id))
            .with_opt("buyeruid"@, encode_opt::<String>(value.buyeruid))
            .with_opt("yob"@, encode_opt::<i32>(value.yob))
            .with_opt("gender"@, encode_opt::<String>(value.gender))
            .with_opt("keywords"@, encode_opt::<String>(value.keywords))
            .with_opt("customdata"@, encode_opt::<String>(value.customdata))
            .with_opt("geo"@, encode_opt::<Geo>(value.geo))
            .with_opt("data"@, encode_opt::<Vec<Data>>(value.data))
            .with_opt("ext"@, value.ext)
            .json()
    }

    open spec fn decode_spec(doc: JsonView) -> Result<UserView, DecodeErrorView> {
        match doc {
            JsonView::Object(members) => {
                let id = opt_field::<String>(members, "id"@);
                let buyeruid = opt_field::<String>(members, "buyeruid"@);
                let yob = opt_field::<i32>(members, "yob"@);
                let gender = opt_field::<String>(members, "gender"@);
                let keywords = opt_field::<String>(members, "keywords"@);
                let customdata = opt_field::<String>(members, "customdata"@);
                let geo = opt_field::<Geo>(members, "geo"@);
                let data = opt_field::<Vec<Data>>(members, "data"@);
                let ext = raw_field(members, "ext"@);
                if id is Err {
                    Err(id->Err_0)
                } else if buyeruid is Err {
                    Err(buyeruid->Err_0)
                } else if yob is Err {
                    Err(yob->Err_0)
                } else if gender is Err {
                    Err(gender->Err_0)
                } else if keywords is Err {
                    Err(keywords->Err_0)
                } else if customdata is Err {
                    Err(customdata->Err_0)
                } else if geo is Err {
                    Err(geo->Err_0)
                } else if data is Err {
                    Err(data->Err_0)
                } else {
                    Ok(
                        UserView {
                            id: id->Ok_0,
                            buyeruid: buyeruid->Ok_0,
                            yob: yob->Ok_0,
                            gender: gender->Ok_0,
                            keywords: keywords->Ok_0,
                            customdata: customdata->Ok_0,
                            geo: geo->Ok_0,
                            data: data->Ok_0,
                            ext,
                        },
                    )
                }
            },
            _ => wrong_type(),
        }
    }

    fn encode(&self) -> (doc: Json) {
        let mut object = ObjectWriter::new();
        object.opt_field("id", &self.id);
        object.opt_field("buyeruid", &self.buyeruid);
        object.opt_field("yob", &self.yob);
        object.opt_field("gender", &self.gender);
        object.opt_field("keywords", &self.keywords);
        object.opt_field("customdata", &self.customdata);
        object.opt_field("geo", &self.geo);
        object.opt_field("data", &self.data);
        object.raw_field("ext", &self.ext);
        object.finish()
    }

    fn decode(doc: &Json) -> (result: Result<User, DecodeError>) {
        let members = read_members(doc)?;
        let id = read_opt_field::<String>(members, "id")?;
        let buyeruid = read_opt_field::<String>(members, "buyeruid")?;
        let yob = read_opt_field::<i32>(members, "yob")?;
        let gender = read_opt_field::<String>(members, "gender")?;
        let keywords = read_opt_field::<String>(members, "keywords")?;
        let customdata = read_opt_field::<String>(members, "customdata")?;
        let geo = read_opt_field::<Geo>(members, "geo")?;
        let data = read_opt_field::<Vec<Data>>(members, "data")?;
        let ext = read_raw_field(members, "ext");
        Ok(
            User {
                id,
                buyeruid,
                yob,
                gender,
                keywords,
                customdata,
                geo,
                data,
                ext,
            },
        )
    }

    proof fn lemma_round_trip(value: UserView) {
        User::lemma_written_fields(value);
        let members = User::encode_spec(value)->Object_0;
        lemma_opt_field_round_trip::<String>(members, "id"@, value.id);
        lemma_opt_field_round_trip::<String>(members, "buyeruid"@, value.buyeruid);
        lemma_opt_field_round_trip::<i32>(members, "yob"@, value.yob);
        lemma_opt_field_round_trip::<String>(members, "gender"@, value.gender);
        lemma_opt_field_round_trip::<String>(members, "keywords"@, value.keywords);
        lemma_opt_field_round_trip::<String>(members, "customdata"@, value.customdata);
        lemma_opt_field_round_trip::<Geo>(members, "geo"@, value.geo);
        lemma_opt_field_round_trip::<Vec<Data>>(members, "data"@, value.data);
    }
}

impl User {
    /// What stands under each key on the wire: the wire form of the field of
    /// that name, whatever it holds, and nothing at all where the field is
    /// absent.
    pub proof fn lemma_written_fields(value: UserView)
        ensures
            User::encode_spec(value) matches JsonView::Object(members) && {
                &&& raw_field(members, "id"@) == encode_opt::<String>(value.id)
                &&& raw_field(members, "buyeruid"@) == encode_opt::<String>(value.buyeruid)
                &&& raw_field(members, "yob"@) == encode_opt::<i32>(value.yob)
                &&& raw_field(members, "gender"@) == encode_opt::<String>(value.gender)
                &&& raw_field(members, "keywords"@) == encode_opt::<String>(value.keywords)
                &&& raw_field(members, "customdata"@) == encode_opt::<String>(value.customdata)
                &&& raw_field(members, "geo"@) == encode_opt::<Geo>(value.geo)
                &&& raw_field(members, "data"@) == encode_opt::<Vec<Data>>(value.data)
                &&& raw_field(members, "ext"@) == value.ext
            },
    {
        Members::lemma_lookup();
        reveal_strlit("id");
        reveal_strlit("buyeruid");
        reveal_strlit("yob");
        reveal_strlit("gender");
        reveal_strlit("keywords");
        reveal_strlit("customdata");
        reveal_strlit("geo");
        reveal_strlit("data");
        reveal_strlit("ext");
        lemma_head("id"@);
        lemma_head("buyeruid"@);
        lemma_head("yob"@);
        lemma_head("gender"@);
        lemma_head("keywords"@);
        lemma_head("customdata"@);
        lemma_head("geo"@);
        lemma_head("data"@);
        lemma_head("ext"@);
    }

    /// An optional field that is absent leaves no key on the wire, and a field
    /// that is present has its key, also where it holds zero, false or nothing.
    pub proof fn lemma_written_keys(value: UserView)
        ensures
            User::encode_spec(value) matches JsonView::Object(members) && {
                &&& members.contains_key("id"@) <==> value.id is Some
                &&& members.contains_key("buyeruid"@) <==> value.buyeruid is Some
                &&& members.contains_key("yob"@) <==> value.yob is Some
                &&& members.contains_key("gender"@) <==> value.gender is Some
                &&& members.contains_key("keywords"@) <==> value.keywords is Some
                &&& members.contains_key("customdata"@) <==> value.customdata is Some
                &&& members.contains_key("geo"@) <==> value.geo is Some
                &&& members.contains_key("data"@) <==> value.data is Some
                &&& members.contains_key("ext"@) <==> value.ext is Some
            },
    {
        User::lemma_written_fields(value);
    }
}

impl Record for User {
    open spec fn claims(key: Seq<char>) -> bool {
        ||| key == "id"@
        ||| key == "buyeruid"@
        ||| key == "yob"@
        ||| key == "gender"@
        ||| key == "keywords"@
        ||| key == "customdata"@
        ||| key == "geo"@
        ||| key == "data"@
        ||| key == "ext"@
    }

    proof fn lemma_writes_claimed_keys(value: UserView) {
        Members::lemma_lookup();
        let members = User::encode_spec(value)->Object_0;
        assert forall|key: Seq<char>| #[trigger] members.contains_key(key) implies User::claims(
            key,
        ) by {
            assert(raw_field(members, key) is Some);
        }
    }

    proof fn lemma_unclaimed_key_is_passed_over(
        members: Map<Seq<char>, JsonView>,
        key: Seq<char>,
        value: JsonView,
    ) {
        lemma_other_key::<String>(members, "id"@, key, value);
        lemma_other_key::<String>(members, "buyeruid"@, key, value);
        lemma_other_key::<i32>(members, "yob"@, key, value);
        lemma_other_key::<String>(members, "gender"@, key, value);
        lemma_other_key::<String>(members, "keywords"@, key, value);
        lemma_other_key::<String>(members, "customdata"@, key, value);
        lemma_other_key::<Geo>(members, "geo"@, key, value);
        lemma_other_key::<Vec<Data>>(members, "data"@, key, value);
        lemma_other_key_raw(members, "ext"@, key, value);
    }
}

} // verus!
