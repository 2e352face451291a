//! Additional data about a user or about content, from a named provider.

use crate::error::{DecodeError, DecodeErrorView};
use crate::json::{Json, JsonView};
use crate::object::{
    encode_opt, lemma_opt_field_round_trip, lemma_other_key, lemma_other_key_raw, Members,
    ObjectWriter, opt_field, opt_view, raw_field, read_members, read_opt_field, read_raw_field,
    Record,
};
use crate::text::lemma_head;
use crate::wire::{Wire, wrong_type};
use vstd::prelude::*;

verus! {

/// Additional data about a user or about content, from one provider.
#[derive(Clone, Debug, PartialEq)]
pub struct Data {
    /// Exchange-specific ID for the data provider.
    pub id: Option<String>,
    /// Exchange-specific name for the data provider.
    pub name: Option<String>,
    /// Array of Segment (Section 3.2.15) objects that contain the actual data values.
    pub segment: Option<Vec<Segment>>,
    /// Vendor extensions, carried as they are.
    pub ext: Option<Json>,
}

/// The mathematical value of a [`Data`].
pub struct DataView {
    pub id: Option<Seq<char>>,
    pub name: Option<Seq<char>>,
    pub segment: Option<Seq<SegmentView>>,
    pub ext: Option<JsonView>,
}

impl DeepView for Data {
    type V = DataView;

    open spec fn deep_view(&self) -> DataView {
        DataView {
            id: opt_view(self.id),
            name: opt_view(self.name),
            segment: opt_view(self.segment),
            ext: opt_view(self.ext),
        }
    }
}

impl DataView {
    /// The value in which every optional field is absent and every required
    /// field is empty or zero.
    pub open spec fn empty() -> DataView {
        DataView {
            id: None,
            name: None,
            segment: None,
            ext: None,
        }
    }
}

impl Default for Data {
    fn default() -> (value: Data)
        ensures
            value.deep_view() == DataView::empty(),
    {
        let value = Data {
            id: None,
            name: None,
            segment: None,
            ext: None,
        };
        proof {
            reveal(opt_view);
        }
        value
    }
}

impl Wire for Data {
    open spec fn encode_spec(value: DataView) -> JsonView {
        Members::empty()
            .with_opt("id"@, encode_opt::<String>(value.id))
            .with_opt("name"@, encode_opt::<String>(value.name))
            .with_opt("segment"@, encode_opt::<Vec<Segment>>(value.segment))
            .with_opt("ext"@, value.ext)
            .json()
    }

    open spec fn decode_spec(doc: JsonView) -> Result<DataView, DecodeErrorView> {
        match doc {
            JsonView::Object(members) => {
                let id = opt_field::<String>(members, "id"@);
                let name = opt_field::<String>(members, "name"@);
                let segment = opt_field::<Vec<Segment>>(members, "segment"@);
                let ext = raw_field(members, "ext"@);
                if id is Err {
                    Err(id->Err_0)
                } else if name is Err {
                    Err(name->Err_0)
                } else if segment is Err {
                    Err(segment->Err_0)
                } else {
                    Ok(
                        DataView {
                            id: id->Ok_0,
                            name: name->Ok_0,
                            segment: segment->Ok_0,
                            ext,
                        },
                    )
                }
            },
            _ => wrong_type(),
        }
    }

    fn encode(&self) -> (doc: Json) {
        let mut object = ObjectWriter::new();
        object.opt_field("id", &self.id);
        object.opt_field("name", &self.name);
        object.opt_field("segment", &self.segment);
        object.raw_field("ext", &self.ext);
        object.finish()
    }

    fn decode(doc: &Json) -> (result: Result<Data, DecodeError>) {
        let members = read_members(doc)?;
        let id = read_opt_field::<String>(members, "id")?;
        let name = read_opt_field::<String>(members, "name")?;
        let segment = read_opt_field::<Vec<Segment>>(members, "segment")?;
        let ext = read_raw_field(members, "ext");
        Ok(
            Data {
                id,
                name,
                segment,
                ext,
            },
        )
    }

    proof fn lemma_round_trip(value: DataView) {
        Data::lemma_written_fields(value);
        let members = Data::encode_spec(value)->Object_0;
        lemma_opt_field_round_trip::<String>(members, "id"@, value.id);
        lemma_opt_field_round_trip::<String>(members, "name"@, value.name);
        lemma_opt_field_round_trip::<Vec<Segment>>(members, "segment"@, value.segment);
    }
}

impl Data {
    /// What stands under each key on the wire: the wire form of the field of
    /// that name, whatever it holds, and nothing at all where the field is
    /// absent.
    pub proof fn lemma_written_fields(value: DataView)
        ensures
            Data::encode_spec(value) matches JsonView::Object(members) && {
                &&& raw_field(members, "id"@) == encode_opt::<String>(value.id)
                &&& raw_field(members, "name"@) == encode_opt::<String>(value.name)
                &&& raw_field(members, "segment"@) == encode_opt::<Vec<Segment>>(value.segment)
                &&& raw_field(members, "ext"@) == value.ext
            },
    {
        Members::lemma_lookup();
        reveal_strlit("id");
        reveal_strlit("name");
        reveal_strlit("segment");
        reveal_strlit("ext");
        lemma_head("id"@);
        lemma_head("name"@);
        lemma_head("segment"@);
        lemma_head("ext"@);
    }

    /// An optional field that is absent leaves no key on the wire, and a field
    /// that is present has its key, also where it holds zero, false or nothing.
    pub proof fn lemma_written_keys(value: DataView)
        ensures
            Data::encode_spec(value) matches JsonView::Object(members) && {
                &&& members.contains_key("id"@) <==> value.id is Some
                &&& members.contains_key("name"@) <==> value.name is Some
                &&& members.contains_key("segment"@) <==> value.segment is Some
                &&& members.contains_key("ext"@) <==> value.ext is Some
            },
    {
        Data::lemma_written_fields(value);
    }
}

impl Record for Data {
    open spec fn claims(key: Seq<char>) -> bool {
        ||| key == "id"@
        ||| key == "name"@
        ||| key == "segment"@
        ||| key == "ext"@
    }

    proof fn lemma_writes_claimed_keys(value: DataView) {
        Members::lemma_lookup();
        let members = Data::encode_spec(value)->Object_0;
        assert forall|key: Seq<char>| #[trigger] members.contains_key(key) implies Data::claims(
            key,
        ) by {
            assert(raw_field(members, key) is Some);
        }
    }

    proof fn lemma_unclaimed_key_is_passed_over(
        members: Map<Seq<char>, JsonView>,
        key: Seq<char>,
        value: JsonView,
    ) {
        lemma_other_key::<String>(members, "id"@, key, value);
        lemma_other_key::<String>(members, "name"@, key, value);
        lemma_other_key::<Vec<Segment>>(members, "segment"@, key, value);
        lemma_other_key_raw(members, "ext"@, key, value);
    }
}

/// One unit of data about a user: in essence a key and a value.
#[derive(Clone, Debug, PartialEq)]
pub struct Segment {
    /// ID of the data segment specific to the data provider.
    pub id: Option<String>,
    /// Name of the data segment specific to the data provider.
    pub name: Option<String>,
    /// String representation of the data segment value.
    pub value: Option<String>,
    /// Vendor extensions, carried as they are.
    pub ext: Option<Json>,
}

/// The mathematical value of a [`Segment`].
pub struct SegmentView {
    pub id: Option<Seq<char>>,
    pub name: Option<Seq<char>>,
    pub value: Option<Seq<char>>,
    pub ext: Option<JsonView>,
}

impl DeepView for Segment {
    type V = SegmentView;

    open spec fn deep_view(&self) -> SegmentView {
        SegmentView {
            id: opt_view(self.id),
            name: opt_view(self.name),
            value: opt_view(self.value),
            ext: opt_view(self.ext),
        }
    }
}

impl SegmentView {
    /// The value in which every optional field is absent and every required
    /// field is empty or zero.
    pub open spec fn empty() -> SegmentView {
        SegmentView {
            id: None,
            name: None,
            value: None,
            ext: None,
        }
    }
}

impl Default for Segment {
    fn default() -> (value: Segment)
        ensures
            value.deep_view() == SegmentView::empty(),
    {
        let value = Segment {
            id: None,
            name: None,
            value: None,
            ext: None,
        };
        proof {
            reveal(opt_view);
        }
        value
    }
}

impl Wire for Segment {
    open spec fn encode_spec(value: SegmentView) -> JsonView {
        Members::empty()
            .with_opt("id"@, encode_opt::<String>(value.id))
            .with_opt("name"@, encode_opt::<String>(value.name))
            .with_opt("value"@, encode_opt::<String>(value.value))
            .with_opt("ext"@, value.ext)
            .json()
    }

    open spec fn decode_spec(doc: JsonView) -> Result<SegmentView, DecodeErrorView> {
        match doc {
            JsonView::Object(members) => {
                let id = opt_field::<String>(members, "id"@);
                let name = opt_field::<String>(members, "name"@);
                let value = opt_field::<String>(members, "value"@);
                let ext = raw_field(members, "ext"@);
                if id is Err {
                    Err(id->Err_0)
                } else if name is Err {
                    Err(name->Err_0)
                } else if value is Err {
                    Err(value->Err_0)
                } else {
                    Ok(
                        SegmentView {
                            id: id->Ok_0,
                            name: name->Ok_0,
                            value: value->Ok_0,
                            ext,
                        },
                    )
                }
            },
            _ => wrong_type(),
        }
    }

    fn encode(&self) -> (doc: Json) {
        let mut object = ObjectWriter::new();
        object.opt_field("id", &self.id);
        object.opt_field("name", &self.name);
        object.opt_field("value", &self.value);
        object.raw_field("ext", &self.ext);
        object.finish()
    }

    fn decode(doc: &Json) -> (result: Result<Segment, DecodeError>) {
        let members = read_members(doc)?;
        let id = read_opt_field::<String>(members, "id")?;
        let name = read_opt_field::<String>(members, "name")?;
        let value = read_opt_field::<String>(members, "value")?;
        let ext = read_raw_field(members, "ext");
        Ok(
            Segment {
                id,
                name,
                value,
                ext,
            },
        )
    }

    proof fn lemma_round_trip(value: SegmentView) {
        Segment::lemma_written_fields(value);
        let members = Segment::encode_spec(value)->Object_0;
        lemma_opt_field_round_trip::<String>(members, "id"@, value.id);
        lemma_opt_field_round_trip::<String>(members, "name"@, value.name);
        lemma_opt_field_round_trip::<String>(members, "value"@, value.value);
    }
}

impl Segment {
    /// What stands under each key on the wire: the wire form of the field of
    /// that name, whatever it holds, and nothing at all where the field is
    /// absent.
    pub proof fn lemma_written_fields(value: SegmentView)
        ensures
            Segment::encode_spec(value) matches JsonView::Object(members) && {
                &&& raw_field(members, "id"@) == encode_opt::<String>(value.id)
                &&& raw_field(members, "name"@) == encode_opt::<String>(value.name)
                &&& raw_field(members, "value"@) == encode_opt::<String>(value.value)
                &&& raw_field(members, "ext"@) == value.ext
            },
    {
        Members::lemma_lookup();
        reveal_strlit("id");
        reveal_strlit("name");
        reveal_strlit("value");
        reveal_strlit("ext");
        lemma_head("id"@);
        lemma_head("name"@);
        lemma_head("value"@);
        lemma_head("ext"@);
    }

    /// An optional field that is absent leaves no key on the wire, and a field
    /// that is present has its key, also where it holds zero, false or nothing.
    pub proof fn lemma_written_keys(value: SegmentView)
        ensures
            Segment::encode_spec(value) matches JsonView::Object(members) && {
                &&& members.contains_key("id"@) <==> value.id is Some
                &&& members.contains_key("name"@) <==> value.name is Some
                &&& members.contains_key("value"@) <==> value.value is Some
                &&& members.contains_key("ext"@) <==> value.ext is Some
            },
    {
        Segment::lemma_written_fields(value);
    }
}

impl Record for Segment {
    open spec fn claims(key: Seq<char>) -> bool {
        ||| key == "id"@
        ||| key == "name"@
        ||| key == "value"@
        ||| key == "ext"@
    }

    proof fn lemma_writes_claimed_keys(value: SegmentView) {
        Members::lemma_lookup();
        let members = Segment::encode_spec(value)->Object_0;
        assert forall|key: Seq<char>| #[trigger] members.contains_key(key) implies Segment::claims(
            key,
        ) by {
            assert(raw_field(members, key) is Some);
        }
    }

    proof fn lemma_unclaimed_key_is_passed_over(
        members: Map<Seq<char>, JsonView>,
        key: Seq<char>,
        value: JsonView,
    ) {
        lemma_other_key::<String>(members, "id"@, key, value);
        lemma_other_key::<String>(members, "name"@, key, value);
        lemma_other_key::<String>(members, "value"@, key, value);
        lemma_other_key_raw(members, "ext"@, key, value);
    }
}

} // verus!
