//! Video impressions.

use crate::bid_request::imp::{Banner, BannerView};
use crate::bool::Bool;
use crate::error::{DecodeError, DecodeErrorView};
use crate::json::{Json, JsonView};
use crate::object::{
    encode_opt, lemma_opt_field_round_trip, lemma_other_key, lemma_other_key_raw, Members,
    ObjectWriter, opt_field, opt_view, raw_field, read_members, read_opt_field, read_raw_field,
    Record,
};
use crate::text::lemma_head;
use crate::vocabulary::creative::{AdPosition, ApiFramework, CreativeAttribute};
use crate::vocabulary::media::{
    CompanionType, ContentDeliveryMethod, PlaybackCessationMode, PlaybackMethod, Protocol,
    VideoLinearity, VideoPlacementType,
};
use crate::wire::{Wire, wrong_type};
use vstd::prelude::*;

verus! {

/// An in-stream video impression.
#[derive(Clone, Debug, PartialEq)]
pub struct Video {
    /// Allowlist of content MIME types supported. Popular MIME types include, but are not
    /// limited to "image/jpg", "image/gif" and "application/x-shockwave-flash".
    pub mimes: Option<Vec<String>>,
    /// Minimum video ad duration in seconds.
    pub minduration: Option<i32>,
    /// Maximum video ad duration in seconds.
    pub maxduration: Option<i32>,
    /// Indicates the start delay in seconds for pre-roll, mid-roll, or post-roll ad
    /// placements. Refer to enum StartDelay for generic values.
    pub startdelay: Option<i32>,
    /// Array of supported video bid response protocols. At least one supported protocol
    /// must be specified.
    pub protocols: Option<Vec<Protocol>>,
    /// Width of the video player in device independent pixels (DIPS).
    pub w: Option<i32>,
    /// Height of the video player in device independent pixels (DIPS).
    pub h: Option<i32>,
    /// Placement type for the impression.
    pub placement: Option<VideoPlacementType>,
    /// Indicates if the impression must be linear, nonlinear, etc. If none specified,
    /// assume all are allowed.
    pub linearity: Option<VideoLinearity>,
    /// Indicates if the player will allow the video to be skipped. If a bidder sends
    /// markup/creative that is itself skippable, the Bid object should include the attr
    /// array with an element of 16 indicating skippable video.
    pub skip: Option<Bool>,
    /// Videos of total duration greater than this number of seconds can be skippable; only
    /// applicable if the ad is skippable.
    pub skipmin: Option<i32>,
    /// Number of seconds a video must play before skipping is enabled; only applicable if
    /// the ad is skippable.
    pub skipafter: Option<i32>,
    /// If multiple ad impressions are offered in the same bid request, the sequence number
    /// will allow for the coordinated delivery of multiple creatives.
    pub sequence: Option<i32>,
    /// Blocked creative attributes.
    pub battr: Option<Vec<CreativeAttribute>>,
    /// Maximum extended video ad duration, if extension is allowed. If blank or 0,
    /// extension is not allowed.
    pub maxextended: Option<i32>,
    /// Minimum bit rate in Kbps.
    pub minbitrate: Option<i32>,
    /// Maximum bit rate in Kbps.
    pub maxbitrate: Option<i32>,
    /// Indicates if letter-boxing of 4:3 content into a 16:9 window is allowed.
    pub boxingallowed: Option<Bool>,
    /// Playback methods that may be in use. If none are specified, any method may be used.
    pub playbackmethod: Option<Vec<PlaybackMethod>>,
    /// The event that causes playback to end.
    pub playbackend: Option<PlaybackCessationMode>,
    /// Supported delivery methods (e.g., streaming, progressive). If none specified, assume
    /// all are supported.
    pub delivery: Option<Vec<ContentDeliveryMethod>>,
    /// Ad position on screen.
    pub pos: Option<AdPosition>,
    /// Array of Banner objects (Section 3.2.3) if companion ads are available.
    pub companionad: Option<Vec<Banner>>,
    /// List of supported API frameworks for this impression. If an API is not explicitly
    /// listed, it is assumed not to be supported.
    pub api: Option<Vec<ApiFramework>>,
    /// Supported VAST companion ad types. Recommended if companion Banner objects are
    /// included via the companionad array.
    pub companiontype: Option<Vec<CompanionType>>,
    /// Deprecated in OpenRTB 2.3+. Prefer the field `protocols`.
    pub protocol: Option<Protocol>,
    /// Vendor extensions, carried as they are.
    pub ext: Option<Json>,
}

/// The mathematical value of a [`Video`].
pub struct VideoView {
    pub mimes: Option<Seq<Seq<char>>>,
    pub minduration: Option<i32>,
    pub maxduration: Option<i32>,
    pub startdelay: Option<i32>,
    pub protocols: Option<Seq<Protocol>>,
    pub w: Option<i32>,
    pub h: Option<i32>,
    pub placement: Option<VideoPlacementType>,
    pub linearity: Option<VideoLinearity>,
    pub skip: Option<Bool>,
    pub skipmin: Option<i32>,
    pub skipafter: Option<i32>,
    pub sequence: Option<i32>,
    pub battr: Option<Seq<CreativeAttribute>>,
    pub maxextended: Option<i32>,
    pub minbitrate: Option<i32>,
    pub maxbitrate: Option<i32>,
    pub boxingallowed: Option<Bool>,
    pub playbackmethod: Option<Seq<PlaybackMethod>>,
    pub playbackend: Option<PlaybackCessationMode>,
    pub delivery: Option<Seq<ContentDeliveryMethod>>,
    pub pos: Option<AdPosition>,
    pub companionad: Option<Seq<BannerView>>,
    pub api: Option<Seq<ApiFramework>>,
    pub companiontype: Option<Seq<CompanionType>>,
    pub protocol: Option<Protocol>,
    pub ext: Option<JsonView>,
}

impl DeepView for Video {
    type V = VideoView;

    open spec fn deep_view(&self) -> VideoView {
        VideoView {
            mimes: opt_view(self.mimes),
            minduration: opt_view(self.minduration),
            maxduration: opt_view(self.maxduration),
            startdelay: opt_view(self.startdelay),
            protocols: opt_view(self.protocols),
            w: opt_view(self.w),
            h: opt_view(self.h),
            placement: opt_view(self.placement),
            linearity: opt_view(self.linearity),
            skip: opt_view(self.skip),
            skipmin: opt_view(self.skipmin),
            skipafter: opt_view(self.skipafter),
            sequence: opt_view(self.sequence),
            battr: opt_view(self.battr),
            maxextended: opt_view(self.maxextended),
            minbitrate: opt_view(self.minbitrate),
            maxbitrate: opt_view(self.maxbitrate),
            boxingallowed: opt_view(self.boxingallowed),
            playbackmethod: opt_view(self.playbackmethod),
            playbackend: opt_view(self.playbackend),
            delivery: opt_view(self.delivery),
            pos: opt_view(self.pos),
            companionad: opt_view(self.companionad),
            api: opt_view(self.api),
            companiontype: opt_view(self.companiontype),
            protocol: opt_view(self.protocol),
            ext: opt_view(self.ext),
        }
    }
}

impl VideoView {
    /// The value in which every optional field is absent and every required
    /// field is empty or zero.
    pub open spec fn empty() -> VideoView {
        VideoView {
            mimes: None,
            minduration: None,
            maxduration: None,
            startdelay: None,
            protocols: None,
            w: None,
            h: None,
            placement: None,
            linearity: None,
            skip: None,
            skipmin: None,
            skipafter: None,
            sequence: None,
            battr: None,
            maxextended: None,
            minbitrate: None,
            maxbitrate: None,
            boxingallowed: None,
            playbackmethod: None,
            playbackend: None,
            delivery: None,
            pos: None,
            companionad: None,
            api: None,
            companiontype: None,
            protocol: None,
            ext: None,
        }
    }
}

impl Default for Video {
    fn default() -> (value: Video)
        ensures
            value.deep_view() == VideoView::empty(),
    {
        let value = Video {
            mimes: None,
            minduration: None,
            maxduration: None,
            startdelay: None,
            protocols: None,
            w: None,
            h: None,
            placement: None,
            linearity: None,
            skip: None,
            skipmin: None,
            skipafter: None,
            sequence: None,
            battr: None,
            maxextended: None,
            minbitrate: None,
            maxbitrate: None,
            boxingallowed: None,
            playbackmethod: None,
            playbackend: None,
            delivery: None,
            pos: None,
            companionad: None,
            api: None,
            companiontype: None,
            protocol: None,
            ext: None,
        };
        proof {
            reveal(opt_view);
        }
        value
    }
}

impl Wire for Video {
    open spec fn encode_spec(value: VideoView) -> JsonView {
        Members::empty()
            .with_opt("mimes"@, encode_opt::<Vec<String>>(value.mimes))
            .with_opt("minduration"@, encode_opt::<i32>(value.minduration))
            .with_opt("maxduration"@, encode_opt::<i32>(value.maxduration))
            .with_opt("startdelay"@, encode_opt::<i32>(value.startdelay))
            .with_opt("protocols"@, encode_opt::<Vec<Protocol>>(value.protocols))
            .with_opt("w"@, encode_opt::<i32>(value.w))
            .with_opt("h"@, encode_opt::<i32>(value.h))
            .with_opt("placement"@, encode_opt::<VideoPlacementType>(value.placement))
            .with_opt("linearity"@, encode_opt::<VideoLinearity>(value.linearity))
            .with_opt("skip"@, encode_opt::<Bool>(value.skip))
            .with_opt("skipmin"@, encode_opt::<i32>(value.skipmin))
            .with_opt("skipafter"@, encode_opt::<i32>(value.skipafter))
            .with_opt("sequence"@, encode_opt::<i32>(value.sequence))
            .with_opt("battr"@, encode_opt::<Vec<CreativeAttribute>>(value.battr))
            .with_opt("maxextended"@, encode_opt::<i32>(value.maxextended))
            .with_opt("minbitrate"@, encode_opt::<i32>(value.minbitrate))
            .with_opt("maxbitrate"@, encode_opt::<i32>(value.maxbitrate))
            .with_opt("boxingallowed"@, encode_opt::<Bool>(value.boxingallowed))
            .with_opt("playbackmethod"@, encode_opt::<Vec<PlaybackMethod>>(value.playbackmethod))
            .with_opt("playbackend"@, encode_opt::<PlaybackCessationMode>(value.playbackend))
            .with_opt("delivery"@, encode_opt::<Vec<ContentDeliveryMethod>>(value.delivery))
            .with_opt("pos"@, encode_opt::<AdPosition>(value.pos))
            .with_opt("companionad"@, encode_opt::<Vec<Banner>>(value.companionad))
            .with_opt("api"@, encode_opt::<Vec<ApiFramework>>(value.api))
            .with_opt("companiontype"@, encode_opt::<Vec<CompanionType>>(value.companiontype))
            .with_opt("protocol"@, encode_opt::<Protocol>(value.protocol))
            .with_opt("ext"@, value.ext)
            .json()
    }

    open spec fn decode_spec(doc: JsonView) -> Result<VideoView, DecodeErrorView> {
        match doc {
            JsonView::Object(members) => {
                let mimes = opt_field::<Vec<String>>(members, "mimes"@);
                let minduration = opt_field::<i32>(members, "minduration"@);
                let maxduration = opt_field::<i32>(members, "maxduration"@);
                let startdelay = opt_field::<i32>(members, "startdelay"@);
                let protocols = opt_field::<Vec<Protocol>>(members, "protocols"@);
                let w = opt_field::<i32>(members, "w"@);
                let h = opt_field::<i32>(members, "h"@);
                let placement = opt_field::<VideoPlacementType>(members, "placement"@);
                let linearity = opt_field::<VideoLinearity>(members, "linearity"@);
                let skip = opt_field::<Bool>(members, "skip"@);
                let skipmin = opt_field::<i32>(members, "skipmin"@);
                let skipafter = opt_field::<i32>(members, "skipafter"@);
                let sequence = opt_field::<i32>(members, "sequence"@);
                let battr = opt_field::<Vec<CreativeAttribute>>(members, "battr"@);
                let maxextended = opt_field::<i32>(members, "maxextended"@);
                let minbitrate = opt_field::<i32>(members, "minbitrate"@);
                let maxbitrate = opt_field::<i32>(members, "maxbitrate"@);
                let boxingallowed = opt_field::<Bool>(members, "boxingallowed"@);
                let playbackmethod = opt_field::<Vec<PlaybackMethod>>(members, "playbackmethod"@);
                let playbackend = opt_field::<PlaybackCessationMode>(members, "playbackend"@);
                let delivery = opt_field::<Vec<ContentDeliveryMethod>>(members, "delivery"@);
                let pos = opt_field::<AdPosition>(members, "pos"@);
                let companionad = opt_field::<Vec<Banner>>(members, "companionad"@);
                let api = opt_field::<Vec<ApiFramework>>(members, "api"@);
                let companiontype = opt_field::<Vec<CompanionType>>(members, "companiontype"@);
                let protocol = opt_field::<Protocol>(members, "protocol"@);
                let ext = raw_field(members, "ext"@);
                if mimes is Err {
                    Err(mimes->Err_0)
                } else if minduration is Err {
                    Err(minduration->Err_0)
                } else if maxduration is Err {
                    Err(maxduration->Err_0)
                } else if startdelay is Err {
                    Err(startdelay->Err_0)
                } else if protocols is Err {
                    Err(protocols->Err_0)
                } else if w is Err {
                    Err(w->Err_0)
                } else if h is Err {
                    Err(h->Err_0)
                } else if placement is Err {
                    Err(placement->Err_0)
                } else if linearity is Err {
                    Err(linearity->Err_0)
                } else if skip is Err {
                    Err(skip->Err_0)
                } else if skipmin is Err {
                    Err(skipmin->Err_0)
                } else if skipafter is Err {
                    Err(skipafter->Err_0)
                } else if sequence is Err {
                    Err(sequence->Err_0)
                } else if battr is Err {
                    Err(battr->Err_0)
                } else if maxextended is Err {
                    Err(maxextended->Err_0)
                } else if minbitrate is Err {
                    Err(minbitrate->Err_0)
                } else if maxbitrate is Err {
                    Err(maxbitrate->Err_0)
                } else if boxingallowed is Err {
                    Err(boxingallowed->Err_0)
                } else if playbackmethod is Err {
                    Err(playbackmethod->Err_0)
                } else if playbackend is Err {
                    Err(playbackend->Err_0)
                } else if delivery is Err {
                    Err(delivery->Err_0)
                } else if pos is Err {
                    Err(pos->Err_0)
                } else if companionad is Err {
                    Err(companionad->Err_0)
                } else if api is Err {
                    Err(api->Err_0)
                } else if companiontype is Err {
                    Err(companiontype->Err_0)
                } else if protocol is Err {
                    Err(protocol->Err_0)
                } else {
                    Ok(
                        VideoView {
                            mimes: mimes->Ok_0,
                            minduration: minduration->Ok_0,
                            maxduration: maxduration->Ok_0,
                            startdelay: startdelay->Ok_0,
                            protocols: protocols->Ok_0,
                            w: w->Ok_0,
                            h: h->Ok_0,
                            placement: placement->Ok_0,
                            linearity: linearity->Ok_0,
                            skip: skip->Ok_0,
                            skipmin: skipmin->Ok_0,
                            skipafter: skipafter->Ok_0,
                            sequence: sequence->Ok_0,
                            battr: battr->Ok_0,
                            maxextended: maxextended->Ok_0,
                            minbitrate: minbitrate->Ok_0,
                            maxbitrate: maxbitrate->Ok_0,
                            boxingallowed: boxingallowed->Ok_0,
                            playbackmethod: playbackmethod->Ok_0,
                            playbackend: playbackend->Ok_0,
                            delivery: delivery->Ok_0,
                            pos: pos->Ok_0,
                            companionad: companionad->Ok_0,
                            api: api->Ok_0,
                            companiontype: companiontype->Ok_0,
                            protocol: protocol->Ok_0,
                            ext,
                        },
                    )
                }
            },
            _ => wrong_type(),
        }
    }

    fn encode(&self) -> (doc: Json) {
        let mut object = ObjectWriter::new();
        object.opt_field("mimes", &self.mimes);
        object.opt_field("minduration", &self.minduration);
        object.opt_field("maxduration", &self.maxduration);
        object.opt_field("startdelay", &self.startdelay);
        object.opt_field("protocols", &self.protocols);
        object.opt_field("w", &self.w);
        object.opt_field("h", &self.h);
        object.opt_field("placement", &self.placement);
        object.opt_field("linearity", &self.linearity);
        object.opt_field("skip", &self.skip);
        object.opt_field("skipmin", &self.skipmin);
        object.opt_field("skipafter", &self.skipafter);
        object.opt_field("sequence", &self.sequence);
        object.opt_field("battr", &self.battr);
        object.opt_field("maxextended", &self.maxextended);
        object.opt_field("minbitrate", &self.minbitrate);
        object.opt_field("maxbitrate", &self.maxbitrate);
        object.opt_field("boxingallowed", &self.boxingallowed);
        object.opt_field("playbackmethod", &self.playbackmethod);
        object.opt_field("playbackend", &self.playbackend);
        object.opt_field("delivery", &self.delivery);
        object.opt_field("pos", &self.pos);
        object.opt_field("companionad", &self.companionad);
        object.opt_field("api", &self.api);
        object.opt_field("companiontype", &self.companiontype);
        object.opt_field("protocol", &self.protocol);
        object.raw_field("ext", &self.ext);
        object.finish()
    }

    fn decode(doc: &Json) -> (result: Result<Video, DecodeError>) {
        let members = read_members(doc)?;
        let mimes = read_opt_field::<Vec<String>>(members, "mimes")?;
        let minduration = read_opt_field::<i32>(members, "minduration")?;
        let maxduration = read_opt_field::<i32>(members, "maxduration")?;
        let startdelay = read_opt_field::<i32>(members, "startdelay")?;
        let protocols = read_opt_field::<Vec<Protocol>>(members, "protocols")?;
        let w = read_opt_field::<i32>(members, "w")?;
        let h = read_opt_field::<i32>(members, "h")?;
        let placement = read_opt_field::<VideoPlacementType>(members, "placement")?;
        let linearity = read_opt_field::<VideoLinearity>(members, "linearity")?;
        let skip = read_opt_field::<Bool>(members, "skip")?;
        let skipmin = read_opt_field::<i32>(members, "skipmin")?;
        let skipafter = read_opt_field::<i32>(members, "skipafter")?;
        let sequence = read_opt_field::<i32>(members, "sequence")?;
        let battr = read_opt_field::<Vec<CreativeAttribute>>(members, "battr")?;
        let maxextended = read_opt_field::<i32>(members, "maxextended")?;
        let minbitrate = read_opt_field::<i32>(members, "minbitrate")?;
        let maxbitrate = read_opt_field::<i32>(members, "maxbitrate")?;
        let boxingallowed = read_opt_field::<Bool>(members, "boxingallowed")?;
        let playbackmethod = read_opt_field::<Vec<PlaybackMethod>>(members, "playbackmethod")?;
        let playbackend = read_opt_field::<PlaybackCessationMode>(members, "playbackend")?;
        let delivery = read_opt_field::<Vec<ContentDeliveryMethod>>(members, "delivery")?;
        let pos = read_opt_field::<AdPosition>(members, "pos")?;
        let companionad = read_opt_field::<Vec<Banner>>(members, "companionad")?;
        let api = read_opt_field::<Vec<ApiFramework>>(members, "api")?;
        let companiontype = read_opt_field::<Vec<CompanionType>>(members, "companiontype")?;
        let protocol = read_opt_field::<Protocol>(members, "protocol")?;
        let ext = read_raw_field(members, "ext");
        Ok(
            Video {
                mimes,
                minduration,
                maxduration,
                startdelay,
                protocols,
                w,
                h,
                placement,
                linearity,
                skip,
                skipmin,
                skipafter,
                sequence,
                battr,
                maxextended,
                minbitrate,
                maxbitrate,
                boxingallowed,
                playbackmethod,
                playbackend,
                delivery,
                pos,
                companionad,
                api,
                companiontype,
                protocol,
                ext,
            },
        )
    }

    proof fn lemma_round_trip(value: VideoView) {
        Video::lemma_written_fields(value);
        let members = Video::encode_spec(value)->Object_0;
        lemma_opt_field_round_trip::<Vec<String>>(members, "mimes"@, value.mimes);
        lemma_opt_field_round_trip::<i32>(members, "minduration"@, value.minduration);
        lemma_opt_field_round_trip::<i32>(members, "maxduration"@, value.maxduration);
        lemma_opt_field_round_trip::<i32>(members, "startdelay"@, value.startdelay);
        lemma_opt_field_round_trip::<Vec<Protocol>>(members, "protocols"@, value.protocols);
        lemma_opt_field_round_trip::<i32>(members, "w"@, value.w);
        lemma_opt_field_round_trip::<i32>(members, "h"@, value.h);
        lemma_opt_field_round_trip::<VideoPlacementType>(members, "placement"@, value.placement);
        lemma_opt_field_round_trip::<VideoLinearity>(members, "linearity"@, value.linearity);
        lemma_opt_field_round_trip::<Bool>(members, "skip"@, value.skip);
        lemma_opt_field_round_trip::<i32>(members, "skipmin"@, value.skipmin);
        lemma_opt_field_round_trip::<i32>(members, "skipafter"@, value.skipafter);
        lemma_opt_field_round_trip::<i32>(members, "sequence"@, value.sequence);
        lemma_opt_field_round_trip::<Vec<CreativeAttribute>>(members, "battr"@, value.battr);
        lemma_opt_field_round_trip::<i32>(members, "maxextended"@, value.maxextended);
        lemma_opt_field_round_trip::<i32>(members, "minbitrate"@, value.minbitrate);
        lemma_opt_field_round_trip::<i32>(members, "maxbitrate"@, value.maxbitrate);
        lemma_opt_field_round_trip::<Bool>(members, "boxingallowed"@, value.boxingallowed);
        lemma_opt_field_round_trip::<Vec<PlaybackMethod>>(
            members,
            "playbackmethod"@,
            value.playbackmethod,
        );
        lemma_opt_field_round_trip::<PlaybackCessationMode>(
            members,
            "playbackend"@,
            value.playbackend,
        );
        lemma_opt_field_round_trip::<Vec<ContentDeliveryMethod>>(
            members,
            "delivery"@,
            value.delivery,
        );
        lemma_opt_field_round_trip::<AdPosition>(members, "pos"@, value.pos);
        lemma_opt_field_round_trip::<Vec<Banner>>(members, "companionad"@, value.companionad);
        lemma_opt_field_round_trip::<Vec<ApiFramework>>(members, "api"@, value.api);
        lemma_opt_field_round_trip::<Vec<CompanionType>>(
            members,
            "companiontype"@,
            value.companiontype,
        );
        lemma_opt_field_round_trip::<Protocol>(members, "protocol"@, value.protocol);
    }
}

impl Video {
    /// What stands under each key on the wire: the wire form of the field of
    /// that name, whatever it holds, and nothing at all where the field is
    /// absent.
    pub proof fn lemma_written_fields(value: VideoView)
        ensures
            Video::encode_spec(value) matches JsonView::Object(members) && {
                &&& raw_field(members, "mimes"@) == encode_opt::<Vec<String>>(value.mimes)
                &&& raw_field(members, "minduration"@) == encode_opt::<i32>(value.minduration)
                &&& raw_field(members, "maxduration"@) == encode_opt::<i32>(value.maxduration)
                &&& raw_field(members, "startdelay"@) == encode_opt::<i32>(value.startdelay)
                &&& raw_field(members, "protocols"@) == encode_opt::<Vec<Protocol>>(value.protocols)
                &&& raw_field(members, "w"@) == encode_opt::<i32>(value.w)
                &&& raw_field(members, "h"@) == encode_opt::<i32>(value.h)
                &&& raw_field(members, "placement"@)
                    == encode_opt::<VideoPlacementType>(value.placement)
                &&& raw_field(members, "linearity"@)
                    == encode_opt::<VideoLinearity>(value.linearity)
                &&& raw_field(members, "skip"@) == encode_opt::<Bool>(value.skip)
                &&& raw_field(members, "skipmin"@) == encode_opt::<i32>(value.skipmin)
                &&& raw_field(members, "skipafter"@) == encode_opt::<i32>(value.skipafter)
                &&& raw_field(members, "sequence"@) == encode_opt::<i32>(value.sequence)
                &&& raw_field(members, "battr"@)
                    == encode_opt::<Vec<CreativeAttribute>>(value.battr)
                &&& raw_field(members, "maxextended"@) == encode_opt::<i32>(value.maxextended)
                &&& raw_field(members, "minbitrate"@) == encode_opt::<i32>(value.minbitrate)
                &&& raw_field(members, "maxbitrate"@) == encode_opt::<i32>(value.maxbitrate)
                &&& raw_field(members, "boxingallowed"@) == encode_opt::<Bool>(value.boxingallowed)
                &&& raw_field(members, "playbackmethod"@)
                    == encode_opt::<Vec<PlaybackMethod>>(value.playbackmethod)
                &&& raw_field(members, "playbackend"@)
                    == encode_opt::<PlaybackCessationMode>(value.playbackend)
                &&& raw_field(members, "delivery"@)
                    == encode_opt::<Vec<ContentDeliveryMethod>>(value.delivery)
                &&& raw_field(members, "pos"@) == encode_opt::<AdPosition>(value.pos)
                &&& raw_field(members, "companionad"@)
                    == encode_opt::<Vec<Banner>>(value.companionad)
                &&& raw_field(members, "api"@) == encode_opt::<Vec<ApiFramework>>(value.api)
                &&& raw_field(members, "companiontype"@)
                    == encode_opt::<Vec<CompanionType>>(value.companiontype)
                &&& raw_field(members, "protocol"@) == encode_opt::<Protocol>(value.protocol)
                &&& raw_field(members, "ext"@) == value.ext
            },
    {
        Members::lemma_lookup();
        reveal_strlit("mimes");
        reveal_strlit("minduration");
        reveal_strlit("maxduration");
        reveal_strlit("startdelay");
        reveal_strlit("protocols");
        reveal_strlit("w");
        reveal_strlit("h");
        reveal_strlit("placement");
        reveal_strlit("linearity");
        reveal_strlit("skip");
        reveal_strlit("skipmin");
        reveal_strlit("skipafter");
        reveal_strlit("sequence");
        reveal_strlit("battr");
        reveal_strlit("maxextended");
        reveal_strlit("minbitrate");
        reveal_strlit("maxbitrate");
        reveal_strlit("boxingallowed");
        reveal_strlit("playbackmethod");
        reveal_strlit("playbackend");
        reveal_strlit("delivery");
        reveal_strlit("pos");
        reveal_strlit("companionad");
        reveal_strlit("api");
        reveal_strlit("companiontype");
        reveal_strlit("protocol");
        reveal_strlit("ext");
        lemma_head("mimes"@);
        lemma_head("minduration"@);
        lemma_head("maxduration"@);
        lemma_head("startdelay"@);
        lemma_head("protocols"@);
        lemma_head("w"@);
        lemma_head("h"@);
        lemma_head("placement"@);
        lemma_head("linearity"@);
        lemma_head("skip"@);
        lemma_head("skipmin"@);
        lemma_head("skipafter"@);
        lemma_head("sequence"@);
        lemma_head("battr"@);
        lemma_head("maxextended"@);
        lemma_head("minbitrate"@);
        lemma_head("maxbitrate"@);
        lemma_head("boxingallowed"@);
        lemma_head("playbackmethod"@);
        lemma_head("playbackend"@);
        lemma_head("delivery"@);
        lemma_head("pos"@);
        lemma_head("companionad"@);
        lemma_head("api"@);
        lemma_head("companiontype"@);
        lemma_head("protocol"@);
        lemma_head("ext"@);
    }

    /// An optional field that is absent leaves no key on the wire, and a field
    /// that is present has its key, also where it holds zero, false or nothing.
    pub proof fn lemma_written_keys(value: VideoView)
        ensures
            Video::encode_spec(value) matches JsonView::Object(members) && {
                &&& members.contains_key("mimes"@) <==> value.mimes is Some
                &&& members.contains_key("minduration"@) <==> value.minduration is Some
                &&& members.contains_key("maxduration"@) <==> value.maxduration is Some
                &&& members.contains_key("startdelay"@) <==> value.startdelay is Some
                &&& members.contains_key("protocols"@) <==> value.protocols is Some
                &&& members.contains_key("w"@) <==> value.w is Some
                &&& members.contains_key("h"@) <==> value.h is Some
                &&& members.contains_key("placement"@) <==> value.placement is Some
                &&& members.contains_key("linearity"@) <==> value.linearity is Some
                &&& members.contains_key("skip"@) <==> value.skip is Some
                &&& members.contains_key("skipmin"@) <==> value.skipmin is Some
                &&& members.contains_key("skipafter"@) <==> value.skipafter is Some
                &&& members.contains_key("sequence"@) <==> value.sequence is Some
                &&& members.contains_key("battr"@) <==> value.battr is Some
                &&& members.contains_key("maxextended"@) <==> value.maxextended is Some
                &&& members.contains_key("minbitrate"@) <==> value.minbitrate is Some
                &&& members.contains_key("maxbitrate"@) <==> value.maxbitrate is Some
                &&& members.contains_key("boxingallowed"@) <==> value.boxingallowed is Some
                &&& members.contains_key("playbackmethod"@) <==> value.playbackmethod is Some
                &&& members.contains_key("playbackend"@) <==> value.playbackend is Some
                &&& members.contains_key("delivery"@) <==> value.delivery is Some
                &&& members.contains_key("pos"@) <==> value.pos is Some
                &&& members.contains_key("companionad"@) <==> value.companionad is Some
                &&& members.contains_key("api"@) <==> value.api is Some
                &&& members.contains_key("companiontype"@) <==> value.companiontype is Some
                &&& members.contains_key("protocol"@) <==> value.protocol is Some
                &&& members.contains_key("ext"@) <==> value.ext is Some
            },
    {
        Video::lemma_written_fields(value);
    }
}

impl Record for Video {
    open spec fn claims(key: Seq<char>) -> bool {
        ||| key == "mimes"@
        ||| key == "minduration"@
        ||| key == "maxduration"@
        ||| key == "startdelay"@
        ||| key == "protocols"@
        ||| key == "w"@
        ||| key == "h"@
        ||| key == "placement"@
        ||| key == "linearity"@
        ||| key == "skip"@
        ||| key == "skipmin"@
        ||| key == "skipafter"@
        ||| key == "sequence"@
        ||| key == "battr"@
        ||| key == "maxextended"@
        ||| key == "minbitrate"@
        ||| key == "maxbitrate"@
        ||| key == "boxingallowed"@
        ||| key == "playbackmethod"@
        ||| key == "playbackend"@
        ||| key == "delivery"@
        ||| key == "pos"@
        ||| key == "companionad"@
        ||| key == "api"@
        ||| key == "companiontype"@
        ||| key == "protocol"@
        ||| key == "ext"@
    }

    proof fn lemma_writes_claimed_keys(value: VideoView) {
        Members::lemma_lookup();
        let members = Video::encode_spec(value)->Object_0;
        assert forall|key: Seq<char>| #[trigger] members.contains_key(key) implies Video::claims(
            key,
        ) by {
            assert(raw_field(members, key) is Some);
        }
    }

    proof fn lemma_unclaimed_key_is_passed_over(
        members: Map<Seq<char>, JsonView>,
        key: Seq<char>,
        value: JsonView,
    ) {
        lemma_other_key::<Vec<String>>(members, "mimes"@, key, value);
        lemma_other_key::<i32>(members, "minduration"@, key, value);
        lemma_other_key::<i32>(members, "maxduration"@, key, value);
        lemma_other_key::<i32>(members, "startdelay"@, key, value);
        lemma_other_key::<Vec<Protocol>>(members, "protocols"@, key, value);
        lemma_other_key::<i32>(members, "w"@, key, value);
        lemma_other_key::<i32>(members, "h"@, key, value);
        lemma_other_key::<VideoPlacementType>(members, "placement"@, key, value);
        lemma_other_key::<VideoLinearity>(members, "linearity"@, key, value);
        lemma_other_key::<Bool>(members, "skip"@, key, value);
        lemma_other_key::<i32>(members, "skipmin"@, key, value);
        lemma_other_key::<i32>(members, "skipafter"@, key, value);
        lemma_other_key::<i32>(members, "sequence"@, key, value);
        lemma_other_key::<Vec<CreativeAttribute>>(members, "battr"@, key, value);
        lemma_other_key::<i32>(members, "maxextended"@, key, value);
        lemma_other_key::<i32>(members, "minbitrate"@, key, value);
        lemma_other_key::<i32>(members, "maxbitrate"@, key, value);
        lemma_other_key::<Bool>(members, "boxingallowed"@, key, value);
        lemma_other_key::<Vec<PlaybackMethod>>(members, "playbackmethod"@, key, value);
        lemma_other_key::<PlaybackCessationMode>(members, "playbackend"@, key, value);
        lemma_other_key::<Vec<ContentDeliveryMethod>>(members, "delivery"@, key, value);
        lemma_other_key::<AdPosition>(members, "pos"@, key, value);
        lemma_other_key::<Vec<Banner>>(members, "companionad"@, key, value);
        lemma_other_key::<Vec<ApiFramework>>(members, "api"@, key, value);
        lemma_other_key::<Vec<CompanionType>>(members, "companiontype"@, key, value);
        lemma_other_key::<Protocol>(members, "protocol"@, key, value);
        lemma_other_key_raw(members, "ext"@, key, value);
    }
}

} // verus!
