//! Data types and JSON wire codecs for the OpenRTB real-time bidding protocol
//! and its Native Ads extension.
//!
//! The protocol is a schema: bid requests, bid responses and the objects they
//! are made of, together with the closed vocabularies of integer codes that
//! their fields draw on. This library holds that schema as plain data types,
//! and for each type the codec that takes it to and from the wire.
//!
//! - [`wire`] has the codec trait, [`wire::Wire`], with its law: decoding what
//!   was encoded gives the value back.
//! - [`json`] is the document tree that stands between a value and its text,
//!   and [`document`] reads and writes that text through `serde_json`.
//! - [`object`] says how the fields of an object become the members of a JSON
//!   object: an absent optional field leaves no key, unknown keys are passed
//!   over, and the extension slot is carried as it is.
//! - [`bool`] and [`auction_type`] hold the two fields whose wire form is
//!   looser than their type: the flag that travels as an integer, and the
//!   auction type that is open to exchange-specific integers.
//! - [`vocabulary`] has the closed vocabularies, each with its wire integers
//!   and its display names.
//! - [`bid_request`], [`bid_response`], [`native_request`] and
//!   [`native_response`] hold the objects of the protocol.
//! - [`error`] is what a failed decode reports.
//!
//! Every function here is verified against its contract, but for those in
//! [`document::value`], each of which is one step into `serde_json` or out of
//! it.

pub mod auction_type;
pub mod bid_request;
pub mod bid_response;
pub mod bool;
pub mod document;
pub mod error;
pub mod json;
pub mod native_request;
pub mod native_response;
pub mod object;
pub mod text;
pub mod vocabulary;
pub mod wire;

pub use auction_type::AuctionType;
pub use bid_request::{BidRequest, BidRequestView};
pub use bid_response::{BidResponse, BidResponseView};
pub use native_request::{NativeRequest, NativeRequestView};
pub use native_response::{NativeResponse, NativeResponseView};
pub use vocabulary::content_category::ContentCategory;
pub use vocabulary::context::{
    ConnectionType, ContentContext, DeviceType, LocationService, LocationType, ProductionQuality,
    QagMediaRating,
};
pub use vocabulary::creative::{
    AdPosition, ApiFramework, BannerAdType, CreativeAttribute, ExpandableDirection,
};
pub use vocabulary::media::{
    CompanionType, ContentDeliveryMethod, FeedType, PlaybackCessationMode, PlaybackMethod, Protocol,
    StartDelay, VideoLinearity, VideoPlacementType, VolumeNormalizationMode,
};
pub use vocabulary::native::{
    AdUnitId, ContextSubtype, ContextType, DataAssetType, EventTrackingMethod, EventType,
    ImageAssetType, LayoutId, PlacementType,
};
pub use vocabulary::outcome::{LossReason, NoBidReason};
