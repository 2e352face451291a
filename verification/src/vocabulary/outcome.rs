//! Vocabularies by which the two sides of an auction report its outcome.

use crate::vocabulary::Vocabulary;
use vstd::prelude::*;

verus! {

/// Why a bidder offered no bid.
#[derive(Clone, Copy, Debug, PartialEq, Eq, Hash, PartialOrd, Ord, Structural)]
pub enum NoBidReason {
    UnknownError,
    TechnicalError,
    InvalidRequest,
    KnownWebSpider,
    SuspectedNonhumanTraffic,
    CloudDatacenterProxyip,
    UnsupportedDevice,
    BlockedPublisher,
    UnmatchedUser,
    DailyReaderCap,
    DailyDomainCap,
}

impl NoBidReason {
    /// The display name of each member, as the protocol publishes it.
    pub open spec fn name_spec(self) -> Seq<char> {
        match self {
            NoBidReason::UnknownError => "UNKNOWN_ERROR"@,
            NoBidReason::TechnicalError => "TECHNICAL_ERROR"@,
            NoBidReason::InvalidRequest => "INVALID_REQUEST"@,
            NoBidReason::KnownWebSpider => "KNOWN_WEB_SPIDER"@,
            NoBidReason::SuspectedNonhumanTraffic => "SUSPECTED_NONHUMAN_TRAFFIC"@,
            NoBidReason::CloudDatacenterProxyip => "CLOUD_DATACENTER_PROXYIP"@,
            NoBidReason::UnsupportedDevice => "UNSUPPORTED_DEVICE"@,
            NoBidReason::BlockedPublisher => "BLOCKED_PUBLISHER"@,
            NoBidReason::UnmatchedUser => "UNMATCHED_USER"@,
            NoBidReason::DailyReaderCap => "DAILY_READER_CAP"@,
            NoBidReason::DailyDomainCap => "DAILY_DOMAIN_CAP"@,
        }
    }

    /// The display name of this member. It is meant for logs and diagnostics and
    /// never travels on the wire.
    pub fn as_str_name(&self) -> (name: &'static str)
        ensures
            name@ == self.name_spec(),
    {
        match self {
            NoBidReason::UnknownError => "UNKNOWN_ERROR",
            NoBidReason::TechnicalError => "TECHNICAL_ERROR",
            NoBidReason::InvalidRequest => "INVALID_REQUEST",
            NoBidReason::KnownWebSpider => "KNOWN_WEB_SPIDER",
            NoBidReason::SuspectedNonhumanTraffic => "SUSPECTED_NONHUMAN_TRAFFIC",
            NoBidReason::CloudDatacenterProxyip => "CLOUD_DATACENTER_PROXYIP",
            NoBidReason::UnsupportedDevice => "UNSUPPORTED_DEVICE",
            NoBidReason::BlockedPublisher => "BLOCKED_PUBLISHER",
            NoBidReason::UnmatchedUser => "UNMATCHED_USER",
            NoBidReason::DailyReaderCap => "DAILY_READER_CAP",
            NoBidReason::DailyDomainCap => "DAILY_DOMAIN_CAP",
        }
    }
}

impl DeepView for NoBidReason {
    type V = NoBidReason;

    open spec fn deep_view(&self) -> NoBidReason {
        *self
    }
}

impl Vocabulary for NoBidReason {
    open spec fn code_spec(self) -> int {
        match self {
            NoBidReason::UnknownError => 0,
            NoBidReason::TechnicalError => 1,
            NoBidReason::InvalidRequest => 2,
            NoBidReason::KnownWebSpider => 3,
            NoBidReason::SuspectedNonhumanTraffic => 4,
            NoBidReason::CloudDatacenterProxyip => 5,
            NoBidReason::UnsupportedDevice => 6,
            NoBidReason::BlockedPublisher => 7,
            NoBidReason::UnmatchedUser => 8,
            NoBidReason::DailyReaderCap => 9,
            NoBidReason::DailyDomainCap => 10,
        }
    }

    open spec fn from_code_spec(code: i32) -> Option<NoBidReason> {
        match code {
            0 => Some(NoBidReason::UnknownError),
            1 => Some(NoBidReason::TechnicalError),
            2 => Some(NoBidReason::InvalidRequest),
            3 => Some(NoBidReason::KnownWebSpider),
            4 => Some(NoBidReason::SuspectedNonhumanTraffic),
            5 => Some(NoBidReason::CloudDatacenterProxyip),
            6 => Some(NoBidReason::UnsupportedDevice),
            7 => Some(NoBidReason::BlockedPublisher),
            8 => Some(NoBidReason::UnmatchedUser),
            9 => Some(NoBidReason::DailyReaderCap),
            10 => Some(NoBidReason::DailyDomainCap),
            _ => None,
        }
    }

    fn code(&self) -> (code: i32) {
        match self {
            NoBidReason::UnknownError => 0,
            NoBidReason::TechnicalError => 1,
            NoBidReason::InvalidRequest => 2,
            NoBidReason::KnownWebSpider => 3,
            NoBidReason::SuspectedNonhumanTraffic => 4,
            NoBidReason::CloudDatacenterProxyip => 5,
            NoBidReason::UnsupportedDevice => 6,
            NoBidReason::BlockedPublisher => 7,
            NoBidReason::UnmatchedUser => 8,
            NoBidReason::DailyReaderCap => 9,
            NoBidReason::DailyDomainCap => 10,
        }
    }

    fn from_code(code: i32) -> (member: Option<NoBidReason>) {
        match code {
            0 => Some(NoBidReason::UnknownError),
            1 => Some(NoBidReason::TechnicalError),
            2 => Some(NoBidReason::InvalidRequest),
            3 => Some(NoBidReason::KnownWebSpider),
            4 => Some(NoBidReason::SuspectedNonhumanTraffic),
            5 => Some(NoBidReason::CloudDatacenterProxyip),
            6 => Some(NoBidReason::UnsupportedDevice),
            7 => Some(NoBidReason::BlockedPublisher),
            8 => Some(NoBidReason::UnmatchedUser),
            9 => Some(NoBidReason::DailyReaderCap),
            10 => Some(NoBidReason::DailyDomainCap),
            _ => None,
        }
    }

    proof fn lemma_deep_view(self) {
    }

    proof fn lemma_code_round_trip(self) {
    }

    proof fn lemma_from_code_sound(code: i32) {
    }
}

/// Why a bid did not win its impression.
#[derive(Clone, Copy, Debug, PartialEq, Eq, Hash, PartialOrd, Ord, Structural)]
pub enum LossReason {
    BidWon,
    InternalError,
    ImpExpired,
    InvalidBid,
    InvalidDealId,
    InvalidAuctionId,
    InvalidAdomain,
    MissingMarkup,
    MissingCreativeId,
    MissingPrice,
    MissingMinCreativeApprovalData,
    BidBelowFloor,
    BidBelowDealFloor,
    LostHigherBid,
    LostPmpDeal,
    SeatBlocked,
    CreativeReasonUnknown,
    CreativePending,
    CreativeDisapproved,
    CreativeSize,
    CreativeFormat,
    CreativeAdvertiserExclusion,
    CreativeAppExclusion,
    CreativeNotSecure,
    CreativeLanguageExclusion,
    CreativeCategoryExclusion,
    CreativeAttributeExclusion,
    CreativeAdtypeExclusion,
    CreativeAnimationLong,
    CreativeNotAllowedPmp,
}

impl LossReason {
    /// The display name of each member, as the protocol publishes it.
    pub open spec fn name_spec(self) -> Seq<char> {
        match self {
            LossReason::BidWon => "BID_WON"@,
            LossReason::InternalError => "INTERNAL_ERROR"@,
            LossReason::ImpExpired => "IMP_EXPIRED"@,
            LossReason::InvalidBid => "INVALID_BID"@,
            LossReason::InvalidDealId => "INVALID_DEAL_ID"@,
            LossReason::InvalidAuctionId => "INVALID_AUCTION_ID"@,
            LossReason::InvalidAdomain => "INVALID_ADOMAIN"@,
            LossReason::MissingMarkup => "MISSING_MARKUP"@,
            LossReason::MissingCreativeId => "MISSING_CREATIVE_ID"@,
            LossReason::MissingPrice => "MISSING_PRICE"@,
            LossReason::MissingMinCreativeApprovalData => "MISSING_MIN_CREATIVE_APPROVAL_DATA"@,
            LossReason::BidBelowFloor => "BID_BELOW_FLOOR"@,
            LossReason::BidBelowDealFloor => "BID_BELOW_DEAL_FLOOR"@,
            LossReason::LostHigherBid => "LOST_HIGHER_BID"@,
            LossReason::LostPmpDeal => "LOST_PMP_DEAL"@,
            LossReason::SeatBlocked => "SEAT_BLOCKED"@,
            LossReason::CreativeReasonUnknown => "CREATIVE_REASON_UNKNOWN"@,
            LossReason::CreativePending => "CREATIVE_PENDING"@,
            LossReason::CreativeDisapproved => "CREATIVE_DISAPPROVED"@,
            LossReason::CreativeSize => "CREATIVE_SIZE"@,
            LossReason::CreativeFormat => "CREATIVE_FORMAT"@,
            LossReason::CreativeAdvertiserExclusion => "CREATIVE_ADVERTISER_EXCLUSION"@,
            LossReason::CreativeAppExclusion => "CREATIVE_APP_EXCLUSION"@,
            LossReason::CreativeNotSecure => "CREATIVE_NOT_SECURE"@,
            LossReason::CreativeLanguageExclusion => "CREATIVE_LANGUAGE_EXCLUSION"@,
            LossReason::CreativeCategoryExclusion => "CREATIVE_CATEGORY_EXCLUSION"@,
            LossReason::CreativeAttributeExclusion => "CREATIVE_ATTRIBUTE_EXCLUSION"@,
            LossReason::CreativeAdtypeExclusion => "CREATIVE_ADTYPE_EXCLUSION"@,
            LossReason::CreativeAnimationLong => "CREATIVE_ANIMATION_LONG"@,
            LossReason::CreativeNotAllowedPmp => "CREATIVE_NOT_ALLOWED_PMP"@,
        }
    }

    /// The display name of this member. It is meant for logs and diagnostics and
    /// never travels on the wire.
    pub fn as_str_name(&self) -> (name: &'static str)
        ensures
            name@ == self.name_spec(),
    {
        match self {
            LossReason::BidWon => "BID_WON",
            LossReason::InternalError => "INTERNAL_ERROR",
            LossReason::ImpExpired => "IMP_EXPIRED",
            LossReason::InvalidBid => "INVALID_BID",
            LossReason::InvalidDealId => "INVALID_DEAL_ID",
            LossReason::InvalidAuctionId => "INVALID_AUCTION_ID",
            LossReason::InvalidAdomain => "INVALID_ADOMAIN",
            LossReason::MissingMarkup => "MISSING_MARKUP",
            LossReason::MissingCreativeId => "MISSING_CREATIVE_ID",
            LossReason::MissingPrice => "MISSING_PRICE",
            LossReason::MissingMinCreativeApprovalData => "MISSING_MIN_CREATIVE_APPROVAL_DATA",
            LossReason::BidBelowFloor => "BID_BELOW_FLOOR",
            LossReason::BidBelowDealFloor => "BID_BELOW_DEAL_FLOOR",
            LossReason::LostHigherBid => "LOST_HIGHER_BID",
            LossReason::LostPmpDeal => "LOST_PMP_DEAL",
            LossReason::SeatBlocked => "SEAT_BLOCKED",
            LossReason::CreativeReasonUnknown => "CREATIVE_REASON_UNKNOWN",
            LossReason::CreativePending => "CREATIVE_PENDING",
            LossReason::CreativeDisapproved => "CREATIVE_DISAPPROVED",
            LossReason::CreativeSize => "CREATIVE_SIZE",
            LossReason::CreativeFormat => "CREATIVE_FORMAT",
            LossReason::CreativeAdvertiserExclusion => "CREATIVE_ADVERTISER_EXCLUSION",
            LossReason::CreativeAppExclusion => "CREATIVE_APP_EXCLUSION",
            LossReason::CreativeNotSecure => "CREATIVE_NOT_SECURE",
            LossReason::CreativeLanguageExclusion => "CREATIVE_LANGUAGE_EXCLUSION",
            LossReason::CreativeCategoryExclusion => "CREATIVE_CATEGORY_EXCLUSION",
            LossReason::CreativeAttributeExclusion => "CREATIVE_ATTRIBUTE_EXCLUSION",
            LossReason::CreativeAdtypeExclusion => "CREATIVE_ADTYPE_EXCLUSION",
            LossReason::CreativeAnimationLong => "CREATIVE_ANIMATION_LONG",
            LossReason::CreativeNotAllowedPmp => "CREATIVE_NOT_ALLOWED_PMP",
        }
    }
}

impl DeepView for LossReason {
    type V = LossReason;

    open spec fn deep_view(&self) -> LossReason {
        *self
    }
}

impl Vocabulary for LossReason {
    open spec fn code_spec(self) -> int {
        match self {
            LossReason::BidWon => 0,
            LossReason::InternalError => 1,
            LossReason::ImpExpired => 2,
            LossReason::InvalidBid => 3,
            LossReason::InvalidDealId => 4,
            LossReason::InvalidAuctionId => 5,
            LossReason::InvalidAdomain => 6,
            LossReason::MissingMarkup => 7,
            LossReason::MissingCreativeId => 8,
            LossReason::MissingPrice => 9,
            LossReason::MissingMinCreativeApprovalData => 10,
            LossReason::BidBelowFloor => 100,
            LossReason::BidBelowDealFloor => 101,
            LossReason::LostHigherBid => 102,
            LossReason::LostPmpDeal => 103,
            LossReason::SeatBlocked => 104,
            LossReason::CreativeReasonUnknown => 200,
            LossReason::CreativePending => 201,
            LossReason::CreativeDisapproved => 202,
            LossReason::CreativeSize => 203,
            LossReason::CreativeFormat => 204,
            LossReason::CreativeAdvertiserExclusion => 205,
            LossReason::CreativeAppExclusion => 206,
            LossReason::CreativeNotSecure => 207,
            LossReason::CreativeLanguageExclusion => 208,
            LossReason::CreativeCategoryExclusion => 209,
            LossReason::CreativeAttributeExclusion => 210,
            LossReason::CreativeAdtypeExclusion => 211,
            LossReason::CreativeAnimationLong => 212,
            LossReason::CreativeNotAllowedPmp => 213,
        }
    }

    open spec fn from_code_spec(code: i32) -> Option<LossReason> {
        match code {
            0 => Some(LossReason::BidWon),
            1 => Some(LossReason::InternalError),
            2 => Some(LossReason::ImpExpired),
            3 => Some(LossReason::InvalidBid),
            4 => Some(LossReason::InvalidDealId),
            5 => Some(LossReason::InvalidAuctionId),
            6 => Some(LossReason::InvalidAdomain),
            7 => Some(LossReason::MissingMarkup),
            8 => Some(LossReason::MissingCreativeId),
            9 => Some(LossReason::MissingPrice),
            10 => Some(LossReason::MissingMinCreativeApprovalData),
            100 => Some(LossReason::BidBelowFloor),
            101 => Some(LossReason::BidBelowDealFloor),
            102 => Some(LossReason::LostHigherBid),
            103 => Some(LossReason::LostPmpDeal),
            104 => Some(LossReason::SeatBlocked),
            200 => Some(LossReason::CreativeReasonUnknown),
            201 => Some(LossReason::CreativePending),
            202 => Some(LossReason::CreativeDisapproved),
            203 => Some(LossReason::CreativeSize),
            204 => Some(LossReason::CreativeFormat),
            205 => Some(LossReason::CreativeAdvertiserExclusion),
            206 => Some(LossReason::CreativeAppExclusion),
            207 => Some(LossReason::CreativeNotSecure),
            208 => Some(LossReason::CreativeLanguageExclusion),
            209 => Some(LossReason::CreativeCategoryExclusion),
            210 => Some(LossReason::CreativeAttributeExclusion),
            211 => Some(LossReason::CreativeAdtypeExclusion),
            212 => Some(LossReason::CreativeAnimationLong),
            213 => Some(LossReason::CreativeNotAllowedPmp),
            _ => None,
        }
    }

    fn code(&self) -> (code: i32) {
        match self {
            LossReason::BidWon => 0,
            LossReason::InternalError => 1,
            LossReason::ImpExpired => 2,
            LossReason::InvalidBid => 3,
            LossReason::InvalidDealId => 4,
            LossReason::InvalidAuctionId => 5,
            LossReason::InvalidAdomain => 6,
            LossReason::MissingMarkup => 7,
            LossReason::MissingCreativeId => 8,
            LossReason::MissingPrice => 9,
            LossReason::MissingMinCreativeApprovalData => 10,
            LossReason::BidBelowFloor => 100,
            LossReason::BidBelowDealFloor => 101,
            LossReason::LostHigherBid => 102,
            LossReason::LostPmpDeal => 103,
            LossReason::SeatBlocked => 104,
            LossReason::CreativeReasonUnknown => 200,
            LossReason::CreativePending => 201,
            LossReason::CreativeDisapproved => 202,
            LossReason::CreativeSize => 203,
            LossReason::CreativeFormat => 204,
            LossReason::CreativeAdvertiserExclusion => 205,
            LossReason::CreativeAppExclusion => 206,
            LossReason::CreativeNotSecure => 207,
            LossReason::CreativeLanguageExclusion => 208,
            LossReason::CreativeCategoryExclusion => 209,
            LossReason::CreativeAttributeExclusion => 210,
            LossReason::CreativeAdtypeExclusion => 211,
            LossReason::CreativeAnimationLong => 212,
            LossReason::CreativeNotAllowedPmp => 213,
        }
    }

    fn from_code(code: i32) -> (member: Option<LossReason>) {
        match code {
            0 => Some(LossReason::BidWon),
            1 => Some(LossReason::InternalError),
            2 => Some(LossReason::ImpExpired),
            3 => Some(LossReason::InvalidBid),
            4 => Some(LossReason::InvalidDealId),
            5 => Some(LossReason::InvalidAuctionId),
            6 => Some(LossReason::InvalidAdomain),
            7 => Some(LossReason::MissingMarkup),
            8 => Some(LossReason::MissingCreativeId),
            9 => Some(LossReason::MissingPrice),
            10 => Some(LossReason::MissingMinCreativeApprovalData),
            100 => Some(LossReason::BidBelowFloor),
            101 => Some(LossReason::BidBelowDealFloor),
            102 => Some(LossReason::LostHigherBid),
            103 => Some(LossReason::LostPmpDeal),
            104 => Some(LossReason::SeatBlocked),
            200 => Some(LossReason::CreativeReasonUnknown),
            201 => Some(LossReason::CreativePending),
            202 => Some(LossReason::CreativeDisapproved),
            203 => Some(LossReason::CreativeSize),
            204 => Some(LossReason::CreativeFormat),
            205 => Some(LossReason::CreativeAdvertiserExclusion),
            206 => Some(LossReason::CreativeAppExclusion),
            207 => Some(LossReason::CreativeNotSecure),
            208 => Some(LossReason::CreativeLanguageExclusion),
            209 => Some(LossReason::CreativeCategoryExclusion),
            210 => Some(LossReason::CreativeAttributeExclusion),
            211 => Some(LossReason::CreativeAdtypeExclusion),
            212 => Some(LossReason::CreativeAnimationLong),
            213 => Some(LossReason::CreativeNotAllowedPmp),
            _ => None,
        }
    }

    proof fn lemma_deep_view(self) {
    }

    proof fn lemma_code_round_trip(self) {
    }

    proof fn lemma_from_code_sound(code: i32) {
    }
}

} // verus!
