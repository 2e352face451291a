use openrtb::vocabulary::context::{ConnectionType, ContentContext, DeviceType, LocationService, LocationType, ProductionQuality, QagMediaRating};
use openrtb::vocabulary::creative::{AdPosition, ApiFramework, BannerAdType, CreativeAttribute, ExpandableDirection};
use openrtb::vocabulary::media::{CompanionType, ContentDeliveryMethod, FeedType, PlaybackCessationMode, PlaybackMethod, Protocol, StartDelay, VideoLinearity, VideoPlacementType, VolumeNormalizationMode};
use openrtb::vocabulary::native::{AdUnitId, ContextSubtype, ContextType, DataAssetType, EventTrackingMethod, EventType, ImageAssetType, LayoutId, PlacementType};
use openrtb::vocabulary::outcome::{LossReason, NoBidReason};
use openrtb::vocabulary::Vocabulary;

#[test]
fn banner_ad_type_table() {
    let table = [
        (BannerAdType::XhtmlTextAd, 1, "XHTML_TEXT_AD"),
        (BannerAdType::XhtmlBannerAd, 2, "XHTML_BANNER_AD"),
        (BannerAdType::JavascriptAd, 3, "JAVASCRIPT_AD"),
        (BannerAdType::Iframe, 4, "IFRAME"),
    ];
    for (member, code, name) in table {
        assert_eq!(member.code(), code);
        assert_eq!(BannerAdType::from_code(code), Some(member));
        assert_eq!(member.as_str_name(), name);
    }
    let known = table.map(|(_, code, _)| code);
    for code in -2..=7 {
        assert_eq!(BannerAdType::from_code(code).is_some(), known.contains(&code));
    }
    assert_eq!(BannerAdType::from_code(i32::MAX), None);
    assert_eq!(BannerAdType::from_code(i32::MIN), None);
}

#[test]
fn creative_attribute_table() {
    let table = [
        (CreativeAttribute::AudioAutoPlay, 1, "AUDIO_AUTO_PLAY"),
        (CreativeAttribute::AudioUserInitiated, 2, "AUDIO_USER_INITIATED"),
        (CreativeAttribute::ExpandableAutomatic, 3, "EXPANDABLE_AUTOMATIC"),
        (CreativeAttribute::ExpandableClickInitiated, 4, "EXPANDABLE_CLICK_INITIATED"),
        (CreativeAttribute::ExpandableRolloverInitiated, 5, "EXPANDABLE_ROLLOVER_INITIATED"),
        (CreativeAttribute::VideoInBannerAutoPlay, 6, "VIDEO_IN_BANNER_AUTO_PLAY"),
        (CreativeAttribute::VideoInBannerUserInitiated, 7, "VIDEO_IN_BANNER_USER_INITIATED"),
        (CreativeAttribute::Pop, 8, "POP"),
        (CreativeAttribute::ProvocativeOrSuggestive, 9, "PROVOCATIVE_OR_SUGGESTIVE"),
        (CreativeAttribute::Annoying, 10, "ANNOYING"),
        (CreativeAttribute::Surveys, 11, "SURVEYS"),
        (CreativeAttribute::TextOnly, 12, "TEXT_ONLY"),
        (CreativeAttribute::UserInteractive, 13, "USER_INTERACTIVE"),
        (CreativeAttribute::WindowsDialogOrAlertStyle, 14, "WINDOWS_DIALOG_OR_ALERT_STYLE"),
        (CreativeAttribute::HasAudioOnOffButton, 15, "HAS_AUDIO_ON_OFF_BUTTON"),
        (CreativeAttribute::AdCanBeSkipped, 16, "AD_CAN_BE_SKIPPED"),
        (CreativeAttribute::Flash, 17, "FLASH"),
    ];
    for (member, code, name) in table {
        assert_eq!(member.code(), code);
        assert_eq!(CreativeAttribute::from_code(code), Some(member));
        assert_eq!(member.as_str_name(), name);
    }
    let known = table.map(|(_, code, _)| code);
    for code in -2..=20 {
        assert_eq!(CreativeAttribute::from_code(code).is_some(), known.contains(&code));
    }
    assert_eq!(CreativeAttribute::from_code(i32::MAX), None);
    assert_eq!(CreativeAttribute::from_code(i32::MIN), None);
}

#[test]
fn api_framework_table() {
    let table = [
        (ApiFramework::Vpaid1, 1, "VPAID_1"),
        (ApiFramework::Vpaid2, 2, "VPAID_2"),
        (ApiFramework::Mraid1, 3, "MRAID_1"),
        (ApiFramework::Ormma, 4, "ORMMA"),
        (ApiFramework::Mraid2, 5, "MRAID_2"),
        (ApiFramework::Mraid3, 6, "MRAID_3"),
        (ApiFramework::Omid1, 7, "OMID_1"),
    ];
    for (member, code, name) in table {
        assert_eq!(member.code(), code);
        assert_eq!(ApiFramework::from_code(code), Some(member));
        assert_eq!(member.as_str_name(), name);
    }
    let known = table.map(|(_, code, _)| code);
    for code in -2..=10 {
        assert_eq!(ApiFramework::from_code(code).is_some(), known.contains(&code));
    }
    assert_eq!(ApiFramework::from_code(i32::MAX), None);
    assert_eq!(ApiFramework::from_code(i32::MIN), None);
}

#[test]
fn ad_position_table() {
    let table = [
        (AdPosition::Unknown, 0, "UNKNOWN"),
        (AdPosition::AboveTheFold, 1, "ABOVE_THE_FOLD"),
        (AdPosition::LikelyBelowTheFold, 2, "LIKELY_BELOW_THE_FOLD"),
        (AdPosition::BelowTheFold, 3, "BELOW_THE_FOLD"),
        (AdPosition::Header, 4, "HEADER"),
        (AdPosition::Footer, 5, "FOOTER"),
        (AdPosition::Sidebar, 6, "SIDEBAR"),
        (AdPosition::Fullscreen, 7, "AD_POSITION_FULLSCREEN"),
    ];
    for (member, code, name) in table {
        assert_eq!(member.code(), code);
        assert_eq!(AdPosition::from_code(code), Some(member));
        assert_eq!(member.as_str_name(), name);
    }
    let known = table.map(|(_, code, _)| code);
    for code in -3..=10 {
        assert_eq!(AdPosition::from_code(code).is_some(), known.contains(&code));
    }
    assert_eq!(AdPosition::from_code(i32::MAX), None);
    assert_eq!(AdPosition::from_code(i32::MIN), None);
}

#[test]
fn expandable_direction_table() {
    let table = [
        (ExpandableDirection::Left, 1, "LEFT"),
        (ExpandableDirection::Right, 2, "RIGHT"),
        (ExpandableDirection::Up, 3, "UP"),
        (ExpandableDirection::Down, 4, "DOWN"),
        (ExpandableDirection::ExpandableFullscreen, 5, "EXPANDABLE_FULLSCREEN"),
    ];
    for (member, code, name) in table {
        assert_eq!(member.code(), code);
        assert_eq!(ExpandableDirection::from_code(code), Some(member));
        assert_eq!(member.as_str_name(), name);
    }
    let known = table.map(|(_, code, _)| code);
    for code in -2..=8 {
        assert_eq!(ExpandableDirection::from_code(code).is_some(), known.contains(&code));
    }
    assert_eq!(ExpandableDirection::from_code(i32::MAX), None);
    assert_eq!(ExpandableDirection::from_code(i32::MIN), None);
}

#[test]
fn video_linearity_table() {
    let table = [
        (VideoLinearity::Linear, 1, "LINEAR"),
        (VideoLinearity::NonLinear, 2, "NON_LINEAR"),
    ];
    for (member, code, name) in table {
        assert_eq!(member.code(), code);
        assert_eq!(VideoLinearity::from_code(code), Some(member));
        assert_eq!(member.as_str_name(), name);
    }
    let known = table.map(|(_, code, _)| code);
    for code in -2..=5 {
        assert_eq!(VideoLinearity::from_code(code).is_some(), known.contains(&code));
    }
    assert_eq!(VideoLinearity::from_code(i32::MAX), None);
    assert_eq!(VideoLinearity::from_code(i32::MIN), None);
}

#[test]
fn protocol_table() {
    let table = [
        (Protocol::Vast10, 1, "VAST_1_0"),
        (Protocol::Vast20, 2, "VAST_2_0"),
        (Protocol::Vast30, 3, "VAST_3_0"),
        (Protocol::Vast10Wrapper, 4, "VAST_1_0_WRAPPER"),
        (Protocol::Vast20Wrapper, 5, "VAST_2_0_WRAPPER"),
        (Protocol::Vast30Wrapper, 6, "VAST_3_0_WRAPPER"),
        (Protocol::Vast40, 7, "VAST_4_0"),
        (Protocol::Vast40Wrapper, 8, "VAST_4_0_WRAPPER"),
        (Protocol::Daast10, 9, "DAAST_1_0"),
        (Protocol::Daast10Wrapper, 10, "DAAST_1_0_WRAPPER"),
    ];
    for (member, code, name) in table {
        assert_eq!(member.code(), code);
        assert_eq!(Protocol::from_code(code), Some(member));
        assert_eq!(member.as_str_name(), name);
    }
    let known = table.map(|(_, code, _)| code);
    for code in -2..=13 {
        assert_eq!(Protocol::from_code(code).is_some(), known.contains(&code));
    }
    assert_eq!(Protocol::from_code(i32::MAX), None);
    assert_eq!(Protocol::from_code(i32::MIN), None);
}

#[test]
fn playback_method_table() {
    let table = [
        (PlaybackMethod::AutoPlaySoundOn, 1, "AUTO_PLAY_SOUND_ON"),
        (PlaybackMethod::AutoPlaySoundOff, 2, "AUTO_PLAY_SOUND_OFF"),
        (PlaybackMethod::ClickToPlay, 3, "CLICK_TO_PLAY"),
        (PlaybackMethod::MouseOver, 4, "MOUSE_OVER"),
        (PlaybackMethod::EnterSoundOn, 5, "ENTER_SOUND_ON"),
        (PlaybackMethod::EnterSoundOff, 6, "ENTER_SOUND_OFF"),
    ];
    for (member, code, name) in table {
        assert_eq!(member.code(), code);
        assert_eq!(PlaybackMethod::from_code(code), Some(member));
        assert_eq!(member.as_str_name(), name);
    }
    let known = table.map(|(_, code, _)| code);
    for code in -2..=9 {
        assert_eq!(PlaybackMethod::from_code(code).is_some(), known.contains(&code));
    }
    assert_eq!(PlaybackMethod::from_code(i32::MAX), None);
    assert_eq!(PlaybackMethod::from_code(i32::MIN), None);
}

#[test]
fn start_delay_table() {
    let table = [
        (StartDelay::GenericPostRoll, -2, "GENERIC_POST_ROLL"),
        (StartDelay::GenericMidRoll, -1, "GENERIC_MID_ROLL"),
        (StartDelay::PreRoll, 0, "PRE_ROLL"),
    ];
    for (member, code, name) in table {
        assert_eq!(member.code(), code);
        assert_eq!(StartDelay::from_code(code), Some(member));
        assert_eq!(member.as_str_name(), name);
    }
    let known = table.map(|(_, code, _)| code);
    for code in -5..=3 {
        assert_eq!(StartDelay::from_code(code).is_some(), known.contains(&code));
    }
    assert_eq!(StartDelay::from_code(i32::MAX), None);
    assert_eq!(StartDelay::from_code(i32::MIN), None);
}

#[test]
fn video_placement_type_table() {
    let table = [
        (VideoPlacementType::UndefinedVideoPlacement, 0, "UNDEFINED_VIDEO_PLACEMENT"),
        (VideoPlacementType::InStreamPlacement, 1, "IN_STREAM_PLACEMENT"),
        (VideoPlacementType::InBannerPlacement, 2, "IN_BANNER_PLACEMENT"),
        (VideoPlacementType::InArticlePlacement, 3, "IN_ARTICLE_PLACEMENT"),
        (VideoPlacementType::InFeedPlacement, 4, "IN_FEED_PLACEMENT"),
        (VideoPlacementType::FloatingPlacement, 5, "FLOATING_PLACEMENT"),
    ];
    for (member, code, name) in table {
        assert_eq!(member.code(), code);
        assert_eq!(VideoPlacementType::from_code(code), Some(member));
        assert_eq!(member.as_str_name(), name);
    }
    let known = table.map(|(_, code, _)| code);
    for code in -3..=8 {
        assert_eq!(VideoPlacementType::from_code(code).is_some(), known.contains(&code));
    }
    assert_eq!(VideoPlacementType::from_code(i32::MAX), None);
    assert_eq!(VideoPlacementType::from_code(i32::MIN), None);
}

#[test]
fn playback_cessation_mode_table() {
    let table = [
        (PlaybackCessationMode::CompletionOrUser, 1, "COMPLETION_OR_USER"),
        (PlaybackCessationMode::LeavingOrUser, 2, "LEAVING_OR_USER"),
        (PlaybackCessationMode::LeavingContinuesOrUser, 3, "LEAVING_CONTINUES_OR_USER"),
    ];
    for (member, code, name) in table {
        assert_eq!(member.code(), code);
        assert_eq!(PlaybackCessationMode::from_code(code), Some(member));
        assert_eq!(member.as_str_name(), name);
    }
    let known = table.map(|(_, code, _)| code);
    for code in -2..=6 {
        assert_eq!(PlaybackCessationMode::from_code(code).is_some(), known.contains(&code));
    }
    assert_eq!(PlaybackCessationMode::from_code(i32::MAX), None);
    assert_eq!(PlaybackCessationMode::from_code(i32::MIN), None);
}

#[test]
fn content_delivery_method_table() {
    let table = [
        (ContentDeliveryMethod::Streaming, 1, "STREAMING"),
        (ContentDeliveryMethod::Progressive, 2, "PROGRESSIVE"),
    ];
    for (member, code, name) in table {
        assert_eq!(member.code(), code);
        assert_eq!(ContentDeliveryMethod::from_code(code), Some(member));
        assert_eq!(member.as_str_name(), name);
    }
    let known = table.map(|(_, code, _)| code);
    for code in -2..=5 {
        assert_eq!(ContentDeliveryMethod::from_code(code).is_some(), known.contains(&code));
    }
    assert_eq!(ContentDeliveryMethod::from_code(i32::MAX), None);
    assert_eq!(ContentDeliveryMethod::from_code(i32::MIN), None);
}

#[test]
fn companion_type_table() {
    let table = [
        (CompanionType::Static, 1, "STATIC"),
        (CompanionType::Html, 2, "HTML"),
        (CompanionType::CompanionIframe, 3, "COMPANION_IFRAME"),
    ];
    for (member, code, name) in table {
        assert_eq!(member.code(), code);
        assert_eq!(CompanionType::from_code(code), Some(member));
        assert_eq!(member.as_str_name(), name);
    }
    let known = table.map(|(_, code, _)| code);
    for code in -2..=6 {
        assert_eq!(CompanionType::from_code(code).is_some(), known.contains(&code));
    }
    assert_eq!(CompanionType::from_code(i32::MAX), None);
    assert_eq!(CompanionType::from_code(i32::MIN), None);
}

#[test]
fn feed_type_table() {
    let table = [
        (FeedType::MusicService, 1, "MUSIC_SERVICE"),
        (FeedType::Broadcast, 2, "BROADCAST"),
        (FeedType::Podcast, 3, "PODCAST"),
    ];
    for (member, code, name) in table {
        assert_eq!(member.code(), code);
        assert_eq!(FeedType::from_code(code), Some(member));
        assert_eq!(member.as_str_name(), name);
    }
    let known = table.map(|(_, code, _)| code);
    for code in -2..=6 {
        assert_eq!(FeedType::from_code(code).is_some(), known.contains(&code));
    }
    assert_eq!(FeedType::from_code(i32::MAX), None);
    assert_eq!(FeedType::from_code(i32::MIN), None);
}

#[test]
fn volume_normalization_mode_table() {
    let table = [
        (VolumeNormalizationMode::NoNormalization, 0, "NONE"),
        (VolumeNormalizationMode::AverageVolume, 1, "AVERAGE_VOLUME"),
        (VolumeNormalizationMode::PeakVolume, 2, "PEAK_VOLUME"),
        (VolumeNormalizationMode::Loudness, 3, "LOUDNESS"),
        (VolumeNormalizationMode::CustomVolume, 4, "CUSTOM_VOLUME"),
    ];
    for (member, code, name) in table {
        assert_eq!(member.code(), code);
        assert_eq!(VolumeNormalizationMode::from_code(code), Some(member));
        assert_eq!(member.as_str_name(), name);
    }
    let known = table.map(|(_, code, _)| code);
    for code in -3..=7 {
        assert_eq!(VolumeNormalizationMode::from_code(code).is_some(), known.contains(&code));
    }
    assert_eq!(VolumeNormalizationMode::from_code(i32::MAX), None);
    assert_eq!(VolumeNormalizationMode::from_code(i32::MIN), None);
}

#[test]
fn content_context_table() {
    let table = [
        (ContentContext::Video, 1, "VIDEO"),
        (ContentContext::Game, 2, "GAME"),
        (ContentContext::Music, 3, "MUSIC"),
        (ContentContext::Application, 4, "APPLICATION"),
        (ContentContext::Text, 5, "TEXT"),
        (ContentContext::Other, 6, "OTHER"),
        (ContentContext::ContextUnknown, 7, "CONTEXT_UNKNOWN"),
    ];
    for (member, code, name) in table {
        assert_eq!(member.code(), code);
        assert_eq!(ContentContext::from_code(code), Some(member));
        assert_eq!(member.as_str_name(), name);
    }
    let known = table.map(|(_, code, _)| code);
    for code in -2..=10 {
        assert_eq!(ContentContext::from_code(code).is_some(), known.contains(&code));
    }
    assert_eq!(ContentContext::from_code(i32::MAX), None);
    assert_eq!(ContentContext::from_code(i32::MIN), None);
}

#[test]
fn production_quality_table() {
    let table = [
        (ProductionQuality::QualityUnknown, 0, "QUALITY_UNKNOWN"),
        (ProductionQuality::Professional, 1, "PROFESSIONAL"),
        (ProductionQuality::Prosumer, 2, "PROSUMER"),
        (ProductionQuality::UserGenerated, 3, "USER_GENERATED"),
    ];
    for (member, code, name) in table {
        assert_eq!(member.code(), code);
        assert_eq!(ProductionQuality::from_code(code), Some(member));
        assert_eq!(member.as_str_name(), name);
    }
    let known = table.map(|(_, code, _)| code);
    for code in -3..=6 {
        assert_eq!(ProductionQuality::from_code(code).is_some(), known.contains(&code));
    }
    assert_eq!(ProductionQuality::from_code(i32::MAX), None);
    assert_eq!(ProductionQuality::from_code(i32::MIN), None);
}

#[test]
fn qag_media_rating_table() {
    let table = [
        (QagMediaRating::AllAudiences, 1, "ALL_AUDIENCES"),
        (QagMediaRating::EveryoneOver12, 2, "EVERYONE_OVER_12"),
        (QagMediaRating::Mature, 3, "MATURE"),
    ];
    for (member, code, name) in table {
        assert_eq!(member.code(), code);
        assert_eq!(QagMediaRating::from_code(code), Some(member));
        assert_eq!(member.as_str_name(), name);
    }
    let known = table.map(|(_, code, _)| code);
    for code in -2..=6 {
        assert_eq!(QagMediaRating::from_code(code).is_some(), known.contains(&code));
    }
    assert_eq!(QagMediaRating::from_code(i32::MAX), None);
    assert_eq!(QagMediaRating::from_code(i32::MIN), None);
}

#[test]
fn connection_type_table() {
    let table = [
        (ConnectionType::ConnectionUnknown, 0, "CONNECTION_UNKNOWN"),
        (ConnectionType::Ethernet, 1, "ETHERNET"),
        (ConnectionType::Wifi, 2, "WIFI"),
        (ConnectionType::CellUnknown, 3, "CELL_UNKNOWN"),
        (ConnectionType::Cell2g, 4, "CELL_2G"),
        (ConnectionType::Cell3g, 5, "CELL_3G"),
        (ConnectionType::Cell4g, 6, "CELL_4G"),
    ];
    for (member, code, name) in table {
        assert_eq!(member.code(), code);
        assert_eq!(ConnectionType::from_code(code), Some(member));
        assert_eq!(member.as_str_name(), name);
    }
    let known = table.map(|(_, code, _)| code);
    for code in -3..=9 {
        assert_eq!(ConnectionType::from_code(code).is_some(), known.contains(&code));
    }
    assert_eq!(ConnectionType::from_code(i32::MAX), None);
    assert_eq!(ConnectionType::from_code(i32::MIN), None);
}

#[test]
fn location_type_table() {
    let table = [
        (LocationType::GpsLocation, 1, "GPS_LOCATION"),
        (LocationType::Ip, 2, "IP"),
        (LocationType::UserProvided, 3, "USER_PROVIDED"),
    ];
    for (member, code, name) in table {
        assert_eq!(member.code(), code);
        assert_eq!(LocationType::from_code(code), Some(member));
        assert_eq!(member.as_str_name(), name);
    }
    let known = table.map(|(_, code, _)| code);
    for code in -2..=6 {
        assert_eq!(LocationType::from_code(code).is_some(), known.contains(&code));
    }
    assert_eq!(LocationType::from_code(i32::MAX), None);
    assert_eq!(LocationType::from_code(i32::MIN), None);
}

#[test]
fn location_service_table() {
    let table = [
        (LocationService::Ip2location, 1, "IP2LOCATION"),
        (LocationService::Neustar, 2, "NEUSTAR"),
        (LocationService::Maxmind, 3, "MAXMIND"),
        (LocationService::Netacuity, 4, "NETACUITY"),
    ];
    for (member, code, name) in table {
        assert_eq!(member.code(), code);
        assert_eq!(LocationService::from_code(code), Some(member));
        assert_eq!(member.as_str_name(), name);
    }
    let known = table.map(|(_, code, _)| code);
    for code in -2..=7 {
        assert_eq!(LocationService::from_code(code).is_some(), known.contains(&code));
    }
    assert_eq!(LocationService::from_code(i32::MAX), None);
    assert_eq!(LocationService::from_code(i32::MIN), None);
}

#[test]
fn device_type_table() {
    let table = [
        (DeviceType::Mobile, 1, "MOBILE"),
        (DeviceType::PersonalComputer, 2, "PERSONAL_COMPUTER"),
        (DeviceType::ConnectedTv, 3, "CONNECTED_TV"),
        (DeviceType::HighendPhone, 4, "HIGHEND_PHONE"),
        (DeviceType::Tablet, 5, "TABLET"),
        (DeviceType::ConnectedDevice, 6, "CONNECTED_DEVICE"),
        (DeviceType::SetTopBox, 7, "SET_TOP_BOX"),
    ];
    for (member, code, name) in table {
        assert_eq!(member.code(), code);
        assert_eq!(DeviceType::from_code(code), Some(member));
        assert_eq!(member.as_str_name(), name);
    }
    let known = table.map(|(_, code, _)| code);
    for code in -2..=10 {
        assert_eq!(DeviceType::from_code(code).is_some(), known.contains(&code));
    }
    assert_eq!(DeviceType::from_code(i32::MAX), None);
    assert_eq!(DeviceType::from_code(i32::MIN), None);
}

#[test]
fn no_bid_reason_table() {
    let table = [
        (NoBidReason::UnknownError, 0, "UNKNOWN_ERROR"),
        (NoBidReason::TechnicalError, 1, "TECHNICAL_ERROR"),
        (NoBidReason::InvalidRequest, 2, "INVALID_REQUEST"),
        (NoBidReason::KnownWebSpider, 3, "KNOWN_WEB_SPIDER"),
        (NoBidReason::SuspectedNonhumanTraffic, 4, "SUSPECTED_NONHUMAN_TRAFFIC"),
        (NoBidReason::CloudDatacenterProxyip, 5, "CLOUD_DATACENTER_PROXYIP"),
        (NoBidReason::UnsupportedDevice, 6, "UNSUPPORTED_DEVICE"),
        (NoBidReason::BlockedPublisher, 7, "BLOCKED_PUBLISHER"),
        (NoBidReason::UnmatchedUser, 8, "UNMATCHED_USER"),
        (NoBidReason::DailyReaderCap, 9, "DAILY_READER_CAP"),
        (NoBidReason::DailyDomainCap, 10, "DAILY_DOMAIN_CAP"),
    ];
    for (member, code, name) in table {
        assert_eq!(member.code(), code);
        assert_eq!(NoBidReason::from_code(code), Some(member));
        assert_eq!(member.as_str_name(), name);
    }
    let known = table.map(|(_, code, _)| code);
    for code in -3..=13 {
        assert_eq!(NoBidReason::from_code(code).is_some(), known.contains(&code));
    }
    assert_eq!(NoBidReason::from_code(i32::MAX), None);
    assert_eq!(NoBidReason::from_code(i32::MIN), None);
}

#[test]
fn loss_reason_table() {
    let table = [
        (LossReason::BidWon, 0, "BID_WON"),
        (LossReason::InternalError, 1, "INTERNAL_ERROR"),
        (LossReason::ImpExpired, 2, "IMP_EXPIRED"),
        (LossReason::InvalidBid, 3, "INVALID_BID"),
        (LossReason::InvalidDealId, 4, "INVALID_DEAL_ID"),
        (LossReason::InvalidAuctionId, 5, "INVALID_AUCTION_ID"),
        (LossReason::InvalidAdomain, 6, "INVALID_ADOMAIN"),
        (LossReason::MissingMarkup, 7, "MISSING_MARKUP"),
        (LossReason::MissingCreativeId, 8, "MISSING_CREATIVE_ID"),
        (LossReason::MissingPrice, 9, "MISSING_PRICE"),
        (LossReason::MissingMinCreativeApprovalData, 10, "MISSING_MIN_CREATIVE_APPROVAL_DATA"),
        (LossReason::BidBelowFloor, 100, "BID_BELOW_FLOOR"),
        (LossReason::BidBelowDealFloor, 101, "BID_BELOW_DEAL_FLOOR"),
        (LossReason::LostHigherBid, 102, "LOST_HIGHER_BID"),
        (LossReason::LostPmpDeal, 103, "LOST_PMP_DEAL"),
        (LossReason::SeatBlocked, 104, "SEAT_BLOCKED"),
        (LossReason::CreativeReasonUnknown, 200, "CREATIVE_REASON_UNKNOWN"),
        (LossReason::CreativePending, 201, "CREATIVE_PENDING"),
        (LossReason::CreativeDisapproved, 202, "CREATIVE_DISAPPROVED"),
        (LossReason::CreativeSize, 203, "CREATIVE_SIZE"),
        (LossReason::CreativeFormat, 204, "CREATIVE_FORMAT"),
        (LossReason::CreativeAdvertiserExclusion, 205, "CREATIVE_ADVERTISER_EXCLUSION"),
        (LossReason::CreativeAppExclusion, 206, "CREATIVE_APP_EXCLUSION"),
        (LossReason::CreativeNotSecure, 207, "CREATIVE_NOT_SECURE"),
        (LossReason::CreativeLanguageExclusion, 208, "CREATIVE_LANGUAGE_EXCLUSION"),
        (LossReason::CreativeCategoryExclusion, 209, "CREATIVE_CATEGORY_EXCLUSION"),
        (LossReason::CreativeAttributeExclusion, 210, "CREATIVE_ATTRIBUTE_EXCLUSION"),
        (LossReason::CreativeAdtypeExclusion, 211, "CREATIVE_ADTYPE_EXCLUSION"),
        (LossReason::CreativeAnimationLong, 212, "CREATIVE_ANIMATION_LONG"),
        (LossReason::CreativeNotAllowedPmp, 213, "CREATIVE_NOT_ALLOWED_PMP"),
    ];
    for (member, code, name) in table {
        assert_eq!(member.code(), code);
        assert_eq!(LossReason::from_code(code), Some(member));
        assert_eq!(member.as_str_name(), name);
    }
    let known = table.map(|(_, code, _)| code);
    for code in -3..=216 {
        assert_eq!(LossReason::from_code(code).is_some(), known.contains(&code));
    }
    assert_eq!(LossReason::from_code(i32::MAX), None);
    assert_eq!(LossReason::from_code(i32::MIN), None);
}

#[test]
fn layout_id_table() {
    let table = [
        (LayoutId::ContentWall, 1, "CONTENT_WALL"),
        (LayoutId::AppWall, 2, "APP_WALL"),
        (LayoutId::NewsFeed, 3, "NEWS_FEED"),
        (LayoutId::ChatList, 4, "CHAT_LIST"),
        (LayoutId::Carousel, 5, "CAROUSEL"),
        (LayoutId::ContentStream, 6, "CONTENT_STREAM"),
        (LayoutId::Grid, 7, "GRID"),
    ];
    for (member, code, name) in table {
        assert_eq!(member.code(), code);
        assert_eq!(LayoutId::from_code(code), Some(member));
        assert_eq!(member.as_str_name(), name);
    }
    let known = table.map(|(_, code, _)| code);
    for code in -2..=10 {
        assert_eq!(LayoutId::from_code(code).is_some(), known.contains(&code));
    }
    assert_eq!(LayoutId::from_code(i32::MAX), None);
    assert_eq!(LayoutId::from_code(i32::MIN), None);
}

#[test]
fn ad_unit_id_table() {
    let table = [
        (AdUnitId::PaidSearchUnit, 1, "PAID_SEARCH_UNIT"),
        (AdUnitId::RecommendationWidget, 2, "RECOMMENDATION_WIDGET"),
        (AdUnitId::PromotedListing, 3, "PROMOTED_LISTING"),
        (AdUnitId::IabInAdNative, 4, "IAB_IN_AD_NATIVE"),
        (AdUnitId::AdunitidCustom, 5, "ADUNITID_CUSTOM"),
    ];
    for (member, code, name) in table {
        assert_eq!(member.code(), code);
        assert_eq!(AdUnitId::from_code(code), Some(member));
        assert_eq!(member.as_str_name(), name);
    }
    let known = table.map(|(_, code, _)| code);
    for code in -2..=8 {
        assert_eq!(AdUnitId::from_code(code).is_some(), known.contains(&code));
    }
    assert_eq!(AdUnitId::from_code(i32::MAX), None);
    assert_eq!(AdUnitId::from_code(i32::MIN), None);
}

#[test]
fn context_type_table() {
    let table = [
        (ContextType::Content, 1, "CONTENT"),
        (ContextType::Social, 2, "SOCIAL"),
        (ContextType::Product, 3, "PRODUCT"),
    ];
    for (member, code, name) in table {
        assert_eq!(member.code(), code);
        assert_eq!(ContextType::from_code(code), Some(member));
        assert_eq!(member.as_str_name(), name);
    }
    let known = table.map(|(_, code, _)| code);
    for code in -2..=6 {
        assert_eq!(ContextType::from_code(code).is_some(), known.contains(&code));
    }
    assert_eq!(ContextType::from_code(i32::MAX), None);
    assert_eq!(ContextType::from_code(i32::MIN), None);
}

#[test]
fn context_subtype_table() {
    let table = [
        (ContextSubtype::ContentGeneralOrMixed, 10, "CONTENT_GENERAL_OR_MIXED"),
        (ContextSubtype::ContentArticle, 11, "CONTENT_ARTICLE"),
        (ContextSubtype::ContentVideo, 12, "CONTENT_VIDEO"),
        (ContextSubtype::ContentAudio, 13, "CONTENT_AUDIO"),
        (ContextSubtype::ContentImage, 14, "CONTENT_IMAGE"),
        (ContextSubtype::ContentUserGenerated, 15, "CONTENT_USER_GENERATED"),
        (ContextSubtype::SocialGeneral, 20, "SOCIAL_GENERAL"),
        (ContextSubtype::SocialEmail, 21, "SOCIAL_EMAIL"),
        (ContextSubtype::SocialChatIm, 22, "SOCIAL_CHAT_IM"),
        (ContextSubtype::ProductSelling, 30, "PRODUCT_SELLING"),
        (ContextSubtype::ProductMarketplace, 31, "PRODUCT_MARKETPLACE"),
        (ContextSubtype::ProductReview, 32, "PRODUCT_REVIEW"),
    ];
    for (member, code, name) in table {
        assert_eq!(member.code(), code);
        assert_eq!(ContextSubtype::from_code(code), Some(member));
        assert_eq!(member.as_str_name(), name);
    }
    let known = table.map(|(_, code, _)| code);
    for code in 7..=35 {
        assert_eq!(ContextSubtype::from_code(code).is_some(), known.contains(&code));
    }
    assert_eq!(ContextSubtype::from_code(i32::MAX), None);
    assert_eq!(ContextSubtype::from_code(i32::MIN), None);
}

#[test]
fn placement_type_table() {
    let table = [
        (PlacementType::InFeed, 1, "IN_FEED"),
        (PlacementType::AtomicUnit, 2, "ATOMIC_UNIT"),
        (PlacementType::Outside, 3, "OUTSIDE"),
        (PlacementType::Recommendation, 4, "RECOMMENDATION"),
    ];
    for (member, code, name) in table {
        assert_eq!(member.code(), code);
        assert_eq!(PlacementType::from_code(code), Some(member));
        assert_eq!(member.as_str_name(), name);
    }
    let known = table.map(|(_, code, _)| code);
    for code in -2..=7 {
        assert_eq!(PlacementType::from_code(code).is_some(), known.contains(&code));
    }
    assert_eq!(PlacementType::from_code(i32::MAX), None);
    assert_eq!(PlacementType::from_code(i32::MIN), None);
}

#[test]
fn data_asset_type_table() {
    let table = [
        (DataAssetType::Sponsored, 1, "SPONSORED"),
        (DataAssetType::Desc, 2, "DESC"),
        (DataAssetType::Rating, 3, "RATING"),
        (DataAssetType::Likes, 4, "LIKES"),
        (DataAssetType::Downloads, 5, "DOWNLOADS"),
        (DataAssetType::Price, 6, "PRICE"),
        (DataAssetType::Saleprice, 7, "SALEPRICE"),
        (DataAssetType::Phone, 8, "PHONE"),
        (DataAssetType::Address, 9, "ADDRESS"),
        (DataAssetType::Desc2, 10, "DESC2"),
        (DataAssetType::Displayurl, 11, "DISPLAYURL"),
        (DataAssetType::Ctatext, 12, "CTATEXT"),
    ];
    for (member, code, name) in table {
        assert_eq!(member.code(), code);
        assert_eq!(DataAssetType::from_code(code), Some(member));
        assert_eq!(member.as_str_name(), name);
    }
    let known = table.map(|(_, code, _)| code);
    for code in -2..=15 {
        assert_eq!(DataAssetType::from_code(code).is_some(), known.contains(&code));
    }
    assert_eq!(DataAssetType::from_code(i32::MAX), None);
    assert_eq!(DataAssetType::from_code(i32::MIN), None);
}

#[test]
fn image_asset_type_table() {
    let table = [
        (ImageAssetType::Icon, 1, "ICON"),
        (ImageAssetType::Logo, 2, "LOGO"),
        (ImageAssetType::Main, 3, "MAIN"),
    ];
    for (member, code, name) in table {
        assert_eq!(member.code(), code);
        assert_eq!(ImageAssetType::from_code(code), Some(member));
        assert_eq!(member.as_str_name(), name);
    }
    let known = table.map(|(_, code, _)| code);
    for code in -2..=6 {
        assert_eq!(ImageAssetType::from_code(code).is_some(), known.contains(&code));
    }
    assert_eq!(ImageAssetType::from_code(i32::MAX), None);
    assert_eq!(ImageAssetType::from_code(i32::MIN), None);
}

#[test]
fn event_type_table() {
    let table = [
        (EventType::Impression, 1, "IMPRESSION"),
        (EventType::ViewableMrc50, 2, "VIEWABLE_MRC_50"),
        (EventType::ViewableMrc100, 3, "VIEWABLE_MRC_100"),
        (EventType::ViewableVideo50, 4, "VIEWABLE_VIDEO_50"),
    ];
    for (member, code, name) in table {
        assert_eq!(member.code(), code);
        assert_eq!(EventType::from_code(code), Some(member));
        assert_eq!(member.as_str_name(), name);
    }
    let known = table.map(|(_, code, _)| code);
    for code in -2..=7 {
        assert_eq!(EventType::from_code(code).is_some(), known.contains(&code));
    }
    assert_eq!(EventType::from_code(i32::MAX), None);
    assert_eq!(EventType::from_code(i32::MIN), None);
}

#[test]
fn event_tracking_method_table() {
    let table = [
        (EventTrackingMethod::Img, 1, "IMG"),
        (EventTrackingMethod::Js, 2, "JS"),
    ];
    for (member, code, name) in table {
        assert_eq!(member.code(), code);
        assert_eq!(EventTrackingMethod::from_code(code), Some(member));
        assert_eq!(member.as_str_name(), name);
    }
    let known = table.map(|(_, code, _)| code);
    for code in -2..=5 {
        assert_eq!(EventTrackingMethod::from_code(code).is_some(), known.contains(&code));
    }
    assert_eq!(EventTrackingMethod::from_code(i32::MAX), None);
    assert_eq!(EventTrackingMethod::from_code(i32::MIN), None);
}
