//! Audio impressions.

use crate::bid_request::imp::{Banner, BannerView};
use crate::bool::Bool;
use crate::error::{DecodeError, DecodeErrorView};
use crate::json::{Json, JsonView};
use crate::object::{
    encode_opt, lemma_opt_field_round_trip, lemma_other_key, lemma_other_key_raw, Members,
    ObjectWriter, opt_field, opt_view, raw_field, read_members, read_opt_field, read_raw_field,
    Record,
};
use crate::text::lemma_head;
use crate::vocabulary::creative::{ApiFramework, CreativeAttribute};
use crate::vocabulary::media::{
    CompanionType, ContentDeliveryMethod, FeedType, Protocol, VolumeNormalizationMode,
};
use crate::wire::{Wire, wrong_type};
use vstd::prelude::*;

verus! {

/// An audio impression.
#[derive(Clone, Debug, PartialEq)]
pub struct Audio {
    /// Content MIME types supported (e.g., "audio/mp4"). REQUIRED by the OpenRTB standard:
    /// at least 1 element.
    pub mimes: Option<Vec<String>>,
    /// Minimum audio ad duration in seconds.
    pub minduration: Option<i32>,
    /// Maximum audio ad duration in seconds.
    pub maxduration: Option<i32>,
    /// Array of supported audio protocols.
    pub protocols: Option<Vec<Protocol>>,
    /// Indicates the start delay in seconds for pre-roll, mid-roll, or post-roll ad
    /// placements. Refer to enum StartDelay for generic values.
    pub startdelay: Option<i32>,
    /// If multiple ad impressions are offered in the same bid request, the sequence number
    /// will allow for the coordinated delivery of multiple creatives.
    pub sequence: Option<i32>,
    /// Blocked creative attributes.
    pub battr: Option<Vec<CreativeAttribute>>,
    /// Maximum extended video ad duration, if extension is allowed. If blank or 0,
    /// extension is not allowed.
    pub maxextended: Option<i32>,
    /// Minimum bit rate in Kbps.
    pub minbitrate: Option<i32>,
    /// Maximum bit rate in Kbps.
    pub maxbitrate: Option<i32>,
    /// Supported delivery methods (e.g., streaming, progressive). If none specified, assume
    /// all are supported.
    pub delivery: Option<Vec<ContentDeliveryMethod>>,
    /// Array of Banner objects if companion ads are available.
    pub companionad: Option<Vec<Banner>>,
    /// List of supported API frameworks for this impression. If an API is not explicitly
    /// listed, it is assumed not to be supported.
    pub api: Option<Vec<ApiFramework>>,
    /// Supported DAAST companion ad types. Recommended if companion Banner objects are
    /// included via the companionad array.
    pub companiontype: Option<Vec<CompanionType>>,
    /// The maximum number of ads that can be played in an ad pod.
    pub maxseq: Option<i32>,
    /// Type of audio feed.
    pub feed: Option<FeedType>,
    /// Indicates if the ad is stitched with audio content or delivered independently.
    pub stitched: Option<Bool>,
    /// Volume normalization mode.
    pub nvol: Option<VolumeNormalizationMode>,
    /// Vendor extensions, carried as they are.
    pub ext: Option<Json>,
}

/// The mathematical value of an [`Audio`].
pub struct AudioView {
    pub mimes: Option<Seq<Seq<char>>>,
    pub minduration: Option<i32>,
    pub maxduration: Option<i32>,
    pub protocols: Option<Seq<Protocol>>,
    pub startdelay: Option<i32>,
    pub sequence: Option<i32>,
    pub battr: Option<Seq<CreativeAttribute>>,
    pub maxextended: Option<i32>,
    pub minbitrate: Option<i32>,
    pub maxbitrate: Option<i32>,
    pub delivery: Option<Seq<ContentDeliveryMethod>>,
    pub companionad: Option<Seq<BannerView>>,
    pub api: Option<Seq<ApiFramework>>,
    pub companiontype: Option<Seq<CompanionType>>,
    pub maxseq: Option<i32>,
    pub feed: Option<FeedType>,
    pub stitched: Option<Bool>,
    pub nvol: Option<VolumeNormalizationMode>,
    pub ext: Option<JsonView>,
}

impl DeepView for Audio {
    type V = AudioView;

    open spec fn deep_view(&self) -> AudioView {
        AudioView {
            mimes: opt_view(self.mimes),
            minduration: opt_view(self.minduration),
            maxduration: opt_view(self.maxduration),
            protocols: opt_view(self.protocols),
            startdelay: opt_view(self.startdelay),
            sequence: opt_view(self.sequence),
            battr: opt_view(self.battr),
            maxextended: opt_view(self.maxextended),
            minbitrate: opt_view(self.minbitrate),
            maxbitrate: opt_view(self.maxbitrate),
            delivery: opt_view(self.delivery),
            companionad: opt_view(self.companionad),
            api: opt_view(self.api),
            companiontype: opt_view(self.companiontype),
            maxseq: opt_view(self.maxseq),
            feed: opt_view(self.feed),
            stitched: opt_view(self.stitched),
            nvol: opt_view(self.nvol),
            ext: opt_view(self.ext),
        }
    }
}

impl AudioView {
    /// The value in which every optional field is absent and every required
    /// field is empty or zero.
    pub open spec fn empty() -> AudioView {
        AudioView {
            mimes: None,
            minduration: None,
            maxduration: None,
            protocols: None,
            startdelay: None,
            sequence: None,
            battr: None,
            maxextended: None,
            minbitrate: None,
            maxbitrate: None,
            delivery: None,
            companionad: None,
            api: None,
            companiontype: None,
            maxseq: None,
            feed: None,
            stitched: None,
            nvol: None,
            ext: None,
        }
    }
}

impl Default for Audio {
    fn default() -> (value: Audio)
        ensures
            value.deep_view() == AudioView::empty(),
    {
        let value = Audio {
            mimes: None,
            minduration: None,
            maxduration: None,
            protocols: None,
            startdelay: None,
            sequence: None,
            battr: None,
            maxextended: None,
            minbitrate: None,
            maxbitrate: None,
            delivery: None,
            companionad: None,
            api: None,
            companiontype: None,
            maxseq: None,
            feed: None,
            stitched: None,
            nvol: None,
            ext: None,
        };
        proof {
            reveal(opt_view);
        }
        value
    }
}

impl Wire for Audio {
    open spec fn encode_spec(value: AudioView) -> JsonView {
        Members::empty()
            .with_opt("mimes"@, encode_opt::<Vec<String>>(value.mimes))
            .with_opt("minduration"@, encode_opt::<i32>(value.minduration))
            .with_opt("maxduration"@, encode_opt::<i32>(value.maxduration))
            .with_opt("protocols"@, encode_opt::<Vec<Protocol>>(value.protocols))
            .with_opt("startdelay"@, encode_opt::<i32>(value.startdelay))
            .with_opt("sequence"@, encode_opt::<i32>(value.sequence))
            .with_opt("battr"@, encode_opt::<Vec<CreativeAttribute>>(value.battr))
            .with_opt("maxextended"@, encode_opt::<i32>(value.maxextended))
            .with_opt("minbitrate"@, encode_opt::<i32>(value.minbitrate))
            .with_opt("maxbitrate"@, encode_opt::<i32>(value.maxbitrate))
            .with_opt("delivery"@, encode_opt::<Vec<ContentDeliveryMethod>>(value.delivery))
            .with_opt("companionad"@, encode_opt::<Vec<Banner>>(value.companionad))
            .with_opt("api"@, encode_opt::<Vec<ApiFramework>>(value.api))
            .with_opt("companiontype"@, encode_opt::<Vec<CompanionType>>(value.companiontype))
            .with_opt("maxseq"@, encode_opt::<i32>(value.maxseq))
            .with_opt("feed"@, encode_opt::<FeedType>(value.feed))
            .with_opt("stitched"@, encode_opt::<Bool>(value.stitched))
            .with_opt("nvol"@, encode_opt::<VolumeNormalizationMode>(value.nvol))
            .with_opt("ext"@, value.ext)
            .json()
    }

    open spec fn decode_spec(doc: JsonView) -> Result<AudioView, DecodeErrorView> {
        match doc {
            JsonView::Object(members) => {
                let mimes = opt_field::<Vec<String>>(members, "mimes"@);
                let minduration = opt_field::<i32>(members, "minduration"@);
                let maxduration = opt_field::<i32>(members, "maxduration"@);
                let protocols = opt_field::<Vec<Protocol>>(members, "protocols"@);
                let startdelay = opt_field::<i32>(members, "startdelay"@);
                let sequence = opt_field::<i32>(members, "sequence"@);
                let battr = opt_field::<Vec<CreativeAttribute>>(members, "battr"@);
                let maxextended = opt_field::<i32>(members, "maxextended"@);
                let minbitrate = opt_field::<i32>(members, "minbitrate"@);
                let maxbitrate = opt_field::<i32>(members, "maxbitrate"@);
                let delivery = opt_field::<Vec<ContentDeliveryMethod>>(members, "delivery"@);
                let companionad = opt_field::<Vec<Banner>>(members, "companionad"@);
                let api = opt_field::<Vec<ApiFramework>>(members, "api"@);
                let companiontype = opt_field::<Vec<CompanionType>>(members, "companiontype"@);
                let maxseq = opt_field::<i32>(members, "maxseq"@);
                let feed = opt_field::<FeedType>(members, "feed"@);
                let stitched = opt_field::<Bool>(members, "stitched"@);
                let nvol = opt_field::<VolumeNormalizationMode>(members, "nvol"@);
                let ext = raw_field(members, "ext"@);
                if mimes is Err {
                    Err(mimes->Err_0)
                } else if minduration is Err {
                    Err(minduration->Err_0)
                } else if maxduration is Err {
                    Err(maxduration->Err_0)
                } else if protocols is Err {
                    Err(protocols->Err_0)
                } else if startdelay is Err {
                    Err(startdelay->Err_0)
                } else if sequence is Err {
                    Err(sequence->Err_0)
                } else if battr is Err {
                    Err(battr->Err_0)
                } else if maxextended is Err {
                    Err(maxextended->Err_0)
                } else if minbitrate is Err {
                    Err(minbitrate->Err_0)
                } else if maxbitrate is Err {
                    Err(maxbitrate->Err_0)
                } else if delivery is Err {
                    Err(delivery->Err_0)
                } else if companionad is Err {
                    Err(companionad->Err_0)
                } else if api is Err {
                    Err(api->Err_0)
                } else if companiontype is Err {
                    Err(companiontype->Err_0)
                } else if maxseq is Err {
                    Err(maxseq->Err_0)
                } else if feed is Err {
                    Err(feed->Err_0)
                } else if stitched is Err {
                    Err(stitched->Err_0)
                } else if nvol is Err {
                    Err(nvol->Err_0)
                } else {
                    Ok(
                        AudioView {
                            mimes: mimes->Ok_0,
                            minduration: minduration->Ok_0,
                            maxduration: maxduration->Ok_0,
                            protocols: protocols->Ok_0,
                            startdelay: startdelay->Ok_0,
                            sequence: sequence->Ok_0,
                            battr: battr->Ok_0,
                            maxextended: maxextended->Ok_0,
                            minbitrate: minbitrate->Ok_0,
                            maxbitrate: maxbitrate->Ok_0,
                            delivery: delivery->Ok_0,
                            companionad: companionad->Ok_0,
                            api: api->Ok_0,
                            companiontype: companiontype->Ok_0,
                            maxseq: maxseq->Ok_0,
                            feed: feed->Ok_0,
                            stitched: stitched->Ok_0,
                            nvol: nvol->Ok_0,
                            ext,
                        },
                    )
                }
            },
            _ => wrong_type(),
        }
    }

    fn encode(&self) -> (doc: Json) {
        let mut object = ObjectWriter::new();
        object.opt_field("mimes", &self.mimes);
        object.opt_field("minduration", &self.minduration);
        object.opt_field("maxduration", &self.maxduration);
        object.opt_field("protocols", &self.protocols);
        object.opt_field("startdelay", &self.startdelay);
        object.opt_field("sequence", &self.sequence);
        object.opt_field("battr", &self.battr);
        object.opt_field("maxextended", &self.maxextended);
        object.opt_field("minbitrate", &self.minbitrate);
        object.opt_field("maxbitrate", &self.maxbitrate);
        object.opt_field("delivery", &self.delivery);
        object.opt_field("companionad", &self.companionad);
        object.opt_field("api", &self.api);
        object.opt_field("companiontype", &self.companiontype);
        object.opt_field("maxseq", &self.maxseq);
        object.opt_field("feed", &self.feed);
        object.opt_field("stitched", &self.stitched);
        object.opt_field("nvol", &self.nvol);
        object.raw_field("ext", &self.ext);
        object.finish()
    }

    fn decode(doc: &Json) -> (result: Result<Audio, DecodeError>) {
        let members = read_members(doc)?;
        let mimes = read_opt_field::<Vec<String>>(members, "mimes")?;
        let minduration = read_opt_field::<i32>(members, "minduration")?;
        let maxduration = read_opt_field::<i32>(members, "maxduration")?;
        let protocols = read_opt_field::<Vec<Protocol>>(members, "protocols")?;
        let startdelay = read_opt_field::<i32>(members, "startdelay")?;
        let sequence = read_opt_field::<i32>(members, "sequence")?;
        let battr = read_opt_field::<Vec<CreativeAttribute>>(members, "battr")?;
        let maxextended = read_opt_field::<i32>(members, "maxextended")?;
        let minbitrate = read_opt_field::<i32>(members, "minbitrate")?;
        let maxbitrate = read_opt_field::<i32>(members, "maxbitrate")?;
        let delivery = read_opt_field::<Vec<ContentDeliveryMethod>>(members, "delivery")?;
        let companionad = read_opt_field::<Vec<Banner>>(members, "companionad")?;
        let api = read_opt_field::<Vec<ApiFramework>>(members, "api")?;
        let companiontype = read_opt_field::<Vec<CompanionType>>(members, "companiontype")?;
        let maxseq = read_opt_field::<i32>(members, "maxseq")?;
        let feed = read_opt_field::<FeedType>(members, "feed")?;
        let stitched = read_opt_field::<Bool>(members, "stitched")?;
        let nvol = read_opt_field::<VolumeNormalizationMode>(members, "nvol")?;
        let ext = read_raw_field(members, "ext");
        Ok(
            Audio {
                mimes,
                minduration,
                maxduration,
                protocols,
                startdelay,
                sequence,
                battr,
                maxextended,
                minbitrate,
                maxbitrate,
                delivery,
                companionad,
                api,
                companiontype,
                maxseq,
                feed,
                stitched,
                nvol,
                ext,
            },
        )
    }

    proof fn lemma_round_trip(value: AudioView) {
        Audio::lemma_written_fields(value);
        let members = Audio::encode_spec(value)->Object_0;
        lemma_opt_field_round_trip::<Vec<String>>(members, "mimes"@, value.mimes);
        lemma_opt_field_round_trip::<i32>(members, "minduration"@, value.minduration);
        lemma_opt_field_round_trip::<i32>(members, "maxduration"@, value.maxduration);
        lemma_opt_field_round_trip::<Vec<Protocol>>(members, "protocols"@, value.protocols);
        lemma_opt_field_round_trip::<i32>(members, "startdelay"@, value.startdelay);
        lemma_opt_field_round_trip::<i32>(members, "sequence"@, value.sequence);
        lemma_opt_field_round_trip::<Vec<CreativeAttribute>>(members, "battr"@, value.battr);
        lemma_opt_field_round_trip::<i32>(members, "maxextended"@, value.maxextended);
        lemma_opt_field_round_trip::<i32>(members, "minbitrate"@, value.minbitrate);
        lemma_opt_field_round_trip::<i32>(members, "maxbitrate"@, value.maxbitrate);
        lemma_opt_field_round_trip::<Vec<ContentDeliveryMethod>>(
            members,
            "delivery"@,
            value.delivery,
        );
        lemma_opt_field_round_trip::<Vec<Banner>>(members, "companionad"@, value.companionad);
        lemma_opt_field_round_trip::<Vec<ApiFramework>>(members, "api"@, value.api);
        lemma_opt_field_round_trip::<Vec<CompanionType>>(
            members,
            "companiontype"@,
            value.companiontype,
        );
        lemma_opt_field_round_trip::<i32>(members, "maxseq"@, value.maxseq);
        lemma_opt_field_round_trip::<FeedType>(members, "feed"@, value.feed);
        lemma_opt_field_round_trip::<Bool>(members, "stitched"@, value.stitched);
        lemma_opt_field_round_trip::<VolumeNormalizationMode>(members, "nvol"@, value.nvol);
    }
}

impl Audio {
    /// What stands under each key on the wire: the wire form of the field of
    /// that name, whatever it holds, and nothing at all where the field is
    /// absent.
    pub proof fn lemma_written_fields(value: AudioView)
        ensures
            Audio::encode_spec(value) matches JsonView::Object(members) && {
                &&& raw_field(members, "mimes"@) == encode_opt::<Vec<String>>(value.mimes)
                &&& raw_field(members, "minduration"@) == encode_opt::<i32>(value.minduration)
                &&& raw_field(members, "maxduration"@) == encode_opt::<i32>(value.maxduration)
                &&& raw_field(members, "protocols"@) == encode_opt::<Vec<Protocol>>(value.protocols)
                &&& raw_field(members, "startdelay"@) == encode_opt::<i32>(value.startdelay)
                &&& raw_field(members, "sequence"@) == encode_opt::<i32>(value.sequence)
                &&& raw_field(members, "battr"@)
                    == encode_opt::<Vec<CreativeAttribute>>(value.battr)
                &&& raw_field(members, "maxextended"@) == encode_opt::<i32>(value.maxextended)
                &&& raw_field(members, "minbitrate"@) == encode_opt::<i32>(value.minbitrate)
                &&& raw_field(members, "maxbitrate"@) == encode_opt::<i32>(value.maxbitrate)
                &&& raw_field(members, "delivery"@)
                    == encode_opt::<Vec<ContentDeliveryMethod>>(value.delivery)
                &&& raw_field(members, "companionad"@)
                    == encode_opt::<Vec<Banner>>(value.companionad)
                &&& raw_field(members, "api"@) == encode_opt::<Vec<ApiFramework>>(value.api)
                &&& raw_field(members, "companiontype"@)
                    == encode_opt::<Vec<CompanionType>>(value.companiontype)
                &&& raw_field(members, "maxseq"@) == encode_opt::<i32>(value.maxseq)
                &&& raw_field(members, "feed"@) == encode_opt::<FeedType>(value.feed)
                &&& raw_field(members, "stitched"@) == encode_opt::<Bool>(value.stitched)
                &&& raw_field(members, "nvol"@) == encode_opt::<VolumeNormalizationMode>(value.nvol)
                &&& raw_field(members, "ext"@) == value.ext
            },
    {
        Members::lemma_lookup();
        reveal_strlit("mimes");
        reveal_strlit("minduration");
        reveal_strlit("maxduration");
        reveal_strlit("protocols");
        reveal_strlit("startdelay");
        reveal_strlit("sequence");
        reveal_strlit("battr");
        reveal_strlit("maxextended");
        reveal_strlit("minbitrate");
        reveal_strlit("maxbitrate");
        reveal_strlit("delivery");
        reveal_strlit("companionad");
        reveal_strlit("api");
        reveal_strlit("companiontype");
        reveal_strlit("maxseq");
        reveal_strlit("feed");
        reveal_strlit("stitched");
        reveal_strlit("nvol");
        reveal_strlit("ext");
        lemma_head("mimes"@);
        lemma_head("minduration"@);
        lemma_head("maxduration"@);
        lemma_head("protocols"@);
        lemma_head("startdelay"@);
        lemma_head("sequence"@);
        lemma_head("battr"@);
        lemma_head("maxextended"@);
        lemma_head("minbitrate"@);
        lemma_head("maxbitrate"@);
        lemma_head("delivery"@);
        lemma_head("companionad"@);
        lemma_head("api"@);
        lemma_head("companiontype"@);
        lemma_head("maxseq"@);
        lemma_head("feed"@);
        lemma_head("stitched"@);
        lemma_head("nvol"@);
        lemma_head("ext"@);
    }

    /// An optional field that is absent leaves no key on the wire, and a field
    /// that is present has its key, also where it holds zero, false or nothing.
    pub proof fn lemma_written_keys(value: AudioView)
        ensures
            Audio::encode_spec(value) matches JsonView::Object(members) && {
                &&& members.contains_key("mimes"@) <==> value.mimes is Some
                &&& members.contains_key("minduration"@) <==> value.minduration is Some
                &&& members.contains_key("maxduration"@) <==> value.maxduration is Some
                &&& members.contains_key("protocols"@) <==> value.protocols is Some
                &&& members.contains_key("startdelay"@) <==> value.startdelay is Some
                &&& members.contains_key("sequence"@) <==> value.sequence is Some
                &&& members.contains_key("battr"@) <==> value.battr is Some
                &&& members.contains_key("maxextended"@) <==> value.maxextended is Some
                &&& members.contains_key("minbitrate"@) <==> value.minbitrate is Some
                &&& members.contains_key("maxbitrate"@) <==> value.maxbitrate is Some
                &&& members.contains_key("delivery"@) <==> value.delivery is Some
                &&& members.contains_key("companionad"@) <==> value.companionad is Some
                &&& members.contains_key("api"@) <==> value.api is Some
                &&& members.contains_key("companiontype"@) <==> value.companiontype is Some
                &&& members.contains_key("maxseq"@) <==> value.maxseq is Some
                &&& members.contains_key("feed"@) <==> value.feed is Some
                &&& members.contains_key("stitched"@) <==> value.stitched is Some
                &&& members.contains_key("nvol"@) <==> value.nvol is Some
                &&& members.contains_key("ext"@) <==> value.ext is Some
            },
    {
        Audio::lemma_written_fields(value);
    }
}

impl Record for Audio {
    open spec fn claims(key: Seq<char>) -> bool {
        ||| key == "mimes"@
        ||| key == "minduration"@
        ||| key == "maxduration"@
        ||| key == "protocols"@
        ||| key == "startdelay"@
        ||| key == "sequence"@
        ||| key == "battr"@
        ||| key == "maxextended"@
        ||| key == "minbitrate"@
        ||| key == "maxbitrate"@
        ||| key == "delivery"@
        ||| key == "companionad"@
        ||| key == "api"@
        ||| key == "companiontype"@
        ||| key == "maxseq"@
        ||| key == "feed"@
        ||| key == "stitched"@
        ||| key == "nvol"@
        ||| key == "ext"@
    }

    proof fn lemma_writes_claimed_keys(value: AudioView) {
        Members::lemma_lookup();
        let members = Audio::encode_spec(value)->Object_0;
        assert forall|key: Seq<char>| #[trigger] members.contains_key(key) implies Audio::claims(
            key,
        ) by {
            assert(raw_field(members, key) is Some);
        }
    }

    proof fn lemma_unclaimed_key_is_passed_over(
        members: Map<Seq<char>, JsonView>,
        key: Seq<char>,
        value: JsonView,
    ) {
        lemma_other_key::<Vec<String>>(members, "mimes"@, key, value);
        lemma_other_key::<i32>(members, "minduration"@, key, value);
        lemma_other_key::<i32>(members, "maxduration"@, key, value);
        lemma_other_key::<Vec<Protocol>>(members, "protocols"@, key, value);
        lemma_other_key::<i32>(members, "startdelay"@, key, value);
        lemma_other_key::<i32>(members, "sequence"@, key, value);
        lemma_other_key::<Vec<CreativeAttribute>>(members, "battr"@, key, value);
        lemma_other_key::<i32>(members, "maxextended"@, key, value);
        lemma_other_key::<i32>(members, "minbitrate"@, key, value);
        lemma_other_key::<i32>(members, "maxbitrate"@, key, value);
        lemma_other_key::<Vec<ContentDeliveryMethod>>(members, "delivery"@, key, value);
        lemma_other_key::<Vec<Banner>>(members, "companionad"@, key, value);
        lemma_other_key::<Vec<ApiFramework>>(members, "api"@, key, value);
        lemma_other_key::<Vec<CompanionType>>(members, "companiontype"@, key, value);
        lemma_other_key::<i32>(members, "maxseq"@, key, value);
        lemma_other_key::<FeedType>(members, "feed"@, key, value);
        lemma_other_key::<Bool>(members, "stitched"@, key, value);
        lemma_other_key::<VolumeNormalizationMode>(members, "nvol"@, key, value);
        lemma_other_key_raw(members, "ext"@, key, value);
    }
}

} // verus!
