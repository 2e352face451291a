//! Vocabularies that describe creatives and the banners that show them.

use crate::vocabulary::Vocabulary;
use vstd::prelude::*;

verus! {

/// The kinds of banner ad that an exchange accepts unless the publisher restricts
/// them.
#[derive(Clone, Copy, Debug, PartialEq, Eq, Hash, PartialOrd, Ord, Structural)]
pub enum BannerAdType {
    /// "Usually mobile".
    XhtmlTextAd,
    /// "Usually mobile".
    XhtmlBannerAd,
    /// Javascript must be valid XHTML (ie, script tags included).
    JavascriptAd,
    /// Iframe.
    Iframe,
}

impl BannerAdType {
    /// The display name of each member, as the protocol publishes it.
    pub open spec fn name_spec(self) -> Seq<char> {
        match self {
            BannerAdType::XhtmlTextAd => "XHTML_TEXT_AD"@,
            BannerAdType::XhtmlBannerAd => "XHTML_BANNER_AD"@,
            BannerAdType::JavascriptAd => "JAVASCRIPT_AD"@,
            BannerAdType::Iframe => "IFRAME"@,
        }
    }

    /// The display name of this member. It is meant for logs and diagnostics and
    /// never travels on the wire.
    pub fn as_str_name(&self) -> (name: &'static str)
        ensures
            name@ == self.name_spec(),
    {
        match self {
            BannerAdType::XhtmlTextAd => "XHTML_TEXT_AD",
            BannerAdType::XhtmlBannerAd => "XHTML_BANNER_AD",
            BannerAdType::JavascriptAd => "JAVASCRIPT_AD",
            BannerAdType::Iframe => "IFRAME",
        }
    }
}

impl DeepView for BannerAdType {
    type V = BannerAdType;

    open spec fn deep_view(&self) -> BannerAdType {
        *self
    }
}

impl Vocabulary for BannerAdType {
    open spec fn code_spec(self) -> int {
        match self {
            BannerAdType::XhtmlTextAd => 1,
            BannerAdType::XhtmlBannerAd => 2,
            BannerAdType::JavascriptAd => 3,
            BannerAdType::Iframe => 4,
        }
    }

    open spec fn from_code_spec(code: i32) -> Option<BannerAdType> {
        match code {
            1 => Some(BannerAdType::XhtmlTextAd),
            2 => Some(BannerAdType::XhtmlBannerAd),
            3 => Some(BannerAdType::JavascriptAd),
            4 => Some(BannerAdType::Iframe),
            _ => None,
        }
    }

    fn code(&self) -> (code: i32) {
        match self {
            BannerAdType::XhtmlTextAd => 1,
            BannerAdType::XhtmlBannerAd => 2,
            BannerAdType::JavascriptAd => 3,
            BannerAdType::Iframe => 4,
        }
    }

    fn from_code(code: i32) -> (member: Option<BannerAdType>) {
        match code {
            1 => Some(BannerAdType::XhtmlTextAd),
            2 => Some(BannerAdType::XhtmlBannerAd),
            3 => Some(BannerAdType::JavascriptAd),
            4 => Some(BannerAdType::Iframe),
            _ => None,
        }
    }

    proof fn lemma_deep_view(self) {
    }

    proof fn lemma_code_round_trip(self) {
    }

    proof fn lemma_from_code_sound(code: i32) {
    }
}

/// Attributes that describe a creative, or that a publisher blocks.
#[derive(Clone, Copy, Debug, PartialEq, Eq, Hash, PartialOrd, Ord, Structural)]
pub enum CreativeAttribute {
    AudioAutoPlay,
    AudioUserInitiated,
    ExpandableAutomatic,
    ExpandableClickInitiated,
    ExpandableRolloverInitiated,
    VideoInBannerAutoPlay,
    VideoInBannerUserInitiated,
    /// Pop (e.g., Over, Under, or upon Exit).
    Pop,
    ProvocativeOrSuggestive,
    /// Defined as "Shaky, Flashing, Flickering, Extreme Animation, Smileys".
    Annoying,
    Surveys,
    TextOnly,
    /// Eg, embedded games.
    UserInteractive,
    WindowsDialogOrAlertStyle,
    HasAudioOnOffButton,
    AdCanBeSkipped,
    Flash,
}

impl CreativeAttribute {
    /// The display name of each member, as the protocol publishes it.
    pub open spec fn name_spec(self) -> Seq<char> {
        match self {
            CreativeAttribute::AudioAutoPlay => "AUDIO_AUTO_PLAY"@,
            CreativeAttribute::AudioUserInitiated => "AUDIO_USER_INITIATED"@,
            CreativeAttribute::ExpandableAutomatic => "EXPANDABLE_AUTOMATIC"@,
            CreativeAttribute::ExpandableClickInitiated => "EXPANDABLE_CLICK_INITIATED"@,
            CreativeAttribute::ExpandableRolloverInitiated => "EXPANDABLE_ROLLOVER_INITIATED"@,
            CreativeAttribute::VideoInBannerAutoPlay => "VIDEO_IN_BANNER_AUTO_PLAY"@,
            CreativeAttribute::VideoInBannerUserInitiated => "VIDEO_IN_BANNER_USER_INITIATED"@,
            CreativeAttribute::Pop => "POP"@,
            CreativeAttribute::ProvocativeOrSuggestive => "PROVOCATIVE_OR_SUGGESTIVE"@,
            CreativeAttribute::Annoying => "ANNOYING"@,
            CreativeAttribute::Surveys => "SURVEYS"@,
            CreativeAttribute::TextOnly => "TEXT_ONLY"@,
            CreativeAttribute::UserInteractive => "USER_INTERACTIVE"@,
            CreativeAttribute::WindowsDialogOrAlertStyle => "WINDOWS_DIALOG_OR_ALERT_STYLE"@,
            CreativeAttribute::HasAudioOnOffButton => "HAS_AUDIO_ON_OFF_BUTTON"@,
            CreativeAttribute::AdCanBeSkipped => "AD_CAN_BE_SKIPPED"@,
            CreativeAttribute::Flash => "FLASH"@,
        }
    }

    /// The display name of this member. It is meant for logs and diagnostics and
    /// never travels on the wire.
    pub fn as_str_name(&self) -> (name: &'static str)
        ensures
            name@ == self.name_spec(),
    {
        match self {
            CreativeAttribute::AudioAutoPlay => "AUDIO_AUTO_PLAY",
            CreativeAttribute::AudioUserInitiated => "AUDIO_USER_INITIATED",
            CreativeAttribute::ExpandableAutomatic => "EXPANDABLE_AUTOMATIC",
            CreativeAttribute::ExpandableClickInitiated => "EXPANDABLE_CLICK_INITIATED",
            CreativeAttribute::ExpandableRolloverInitiated => "EXPANDABLE_ROLLOVER_INITIATED",
            CreativeAttribute::VideoInBannerAutoPlay => "VIDEO_IN_BANNER_AUTO_PLAY",
            CreativeAttribute::VideoInBannerUserInitiated => "VIDEO_IN_BANNER_USER_INITIATED",
            CreativeAttribute::Pop => "POP",
            CreativeAttribute::ProvocativeOrSuggestive => "PROVOCATIVE_OR_SUGGESTIVE",
            CreativeAttribute::Annoying => "ANNOYING",
            CreativeAttribute::Surveys => "SURVEYS",
            CreativeAttribute::TextOnly => "TEXT_ONLY",
            CreativeAttribute::UserInteractive => "USER_INTERACTIVE",
            CreativeAttribute::WindowsDialogOrAlertStyle => "WINDOWS_DIALOG_OR_ALERT_STYLE",
            CreativeAttribute::HasAudioOnOffButton => "HAS_AUDIO_ON_OFF_BUTTON",
            CreativeAttribute::AdCanBeSkipped => "AD_CAN_BE_SKIPPED",
            CreativeAttribute::Flash => "FLASH",
        }
    }
}

impl DeepView for CreativeAttribute {
    type V = CreativeAttribute;

    open spec fn deep_view(&self) -> CreativeAttribute {
        *self
    }
}

impl Vocabulary for CreativeAttribute {
    open spec fn code_spec(self) -> int {
        match self {
            CreativeAttribute::AudioAutoPlay => 1,
            CreativeAttribute::AudioUserInitiated => 2,
            CreativeAttribute::ExpandableAutomatic => 3,
            CreativeAttribute::ExpandableClickInitiated => 4,
            CreativeAttribute::ExpandableRolloverInitiated => 5,
            CreativeAttribute::VideoInBannerAutoPlay => 6,
            CreativeAttribute::VideoInBannerUserInitiated => 7,
            CreativeAttribute::Pop => 8,
            CreativeAttribute::ProvocativeOrSuggestive => 9,
            CreativeAttribute::Annoying => 10,
            CreativeAttribute::Surveys => 11,
            CreativeAttribute::TextOnly => 12,
            CreativeAttribute::UserInteractive => 13,
            CreativeAttribute::WindowsDialogOrAlertStyle => 14,
            CreativeAttribute::HasAudioOnOffButton => 15,
            CreativeAttribute::AdCanBeSkipped => 16,
            CreativeAttribute::Flash => 17,
        }
    }

    open spec fn from_code_spec(code: i32) -> Option<CreativeAttribute> {
        match code {
            1 => Some(CreativeAttribute::AudioAutoPlay),
            2 => Some(CreativeAttribute::AudioUserInitiated),
            3 => Some(CreativeAttribute::ExpandableAutomatic),
            4 => Some(CreativeAttribute::ExpandableClickInitiated),
            5 => Some(CreativeAttribute::ExpandableRolloverInitiated),
            6 => Some(CreativeAttribute::VideoInBannerAutoPlay),
            7 => Some(CreativeAttribute::VideoInBannerUserInitiated),
            8 => Some(CreativeAttribute::Pop),
            9 => Some(CreativeAttribute::ProvocativeOrSuggestive),
            10 => Some(CreativeAttribute::Annoying),
            11 => Some(CreativeAttribute::Surveys),
            12 => Some(CreativeAttribute::TextOnly),
            13 => Some(CreativeAttribute::UserInteractive),
            14 => Some(CreativeAttribute::WindowsDialogOrAlertStyle),
            15 => Some(CreativeAttribute::HasAudioOnOffButton),
            16 => Some(CreativeAttribute::AdCanBeSkipped),
            17 => Some(CreativeAttribute::Flash),
            _ => None,
        }
    }

    fn code(&self) -> (code: i32) {
        match self {
            CreativeAttribute::AudioAutoPlay => 1,
            CreativeAttribute::AudioUserInitiated => 2,
            CreativeAttribute::ExpandableAutomatic => 3,
            CreativeAttribute::ExpandableClickInitiated => 4,
            CreativeAttribute::ExpandableRolloverInitiated => 5,
            CreativeAttribute::VideoInBannerAutoPlay => 6,
            CreativeAttribute::VideoInBannerUserInitiated => 7,
            CreativeAttribute::Pop => 8,
            CreativeAttribute::ProvocativeOrSuggestive => 9,
            CreativeAttribute::Annoying => 10,
            CreativeAttribute::Surveys => 11,
            CreativeAttribute::TextOnly => 12,
            CreativeAttribute::UserInteractive => 13,
            CreativeAttribute::WindowsDialogOrAlertStyle => 14,
            CreativeAttribute::HasAudioOnOffButton => 15,
            CreativeAttribute::AdCanBeSkipped => 16,
            CreativeAttribute::Flash => 17,
        }
    }

    fn from_code(code: i32) -> (member: Option<CreativeAttribute>) {
        match code {
            1 => Some(CreativeAttribute::AudioAutoPlay),
            2 => Some(CreativeAttribute::AudioUserInitiated),
            3 => Some(CreativeAttribute::ExpandableAutomatic),
            4 => Some(CreativeAttribute::ExpandableClickInitiated),
            5 => Some(CreativeAttribute::ExpandableRolloverInitiated),
            6 => Some(CreativeAttribute::VideoInBannerAutoPlay),
            7 => Some(CreativeAttribute::VideoInBannerUserInitiated),
            8 => Some(CreativeAttribute::Pop),
            9 => Some(CreativeAttribute::ProvocativeOrSuggestive),
            10 => Some(CreativeAttribute::Annoying),
            11 => Some(CreativeAttribute::Surveys),
            12 => Some(CreativeAttribute::TextOnly),
            13 => Some(CreativeAttribute::UserInteractive),
            14 => Some(CreativeAttribute::WindowsDialogOrAlertStyle),
            15 => Some(CreativeAttribute::HasAudioOnOffButton),
            16 => Some(CreativeAttribute::AdCanBeSkipped),
            17 => Some(CreativeAttribute::Flash),
            _ => None,
        }
    }

    proof fn lemma_deep_view(self) {
    }

    proof fn lemma_code_round_trip(self) {
    }

    proof fn lemma_from_code_sound(code: i32) {
    }
}

/// API frameworks that a placement supports.
///
/// `Mraid1` is a subset of `Mraid2`. Up to OpenRTB 2.1 the value 3 was plain
/// "MRAID"; it can only be read safely as MRAID-1.
#[derive(Clone, Copy, Debug, PartialEq, Eq, Hash, PartialOrd, Ord, Structural)]
pub enum ApiFramework {
    Vpaid1,
    Vpaid2,
    Mraid1,
    Ormma,
    Mraid2,
    Mraid3,
    Omid1,
}

impl ApiFramework {
    /// The display name of each member, as the protocol publishes it.
    pub open spec fn name_spec(self) -> Seq<char> {
        match self {
            ApiFramework::Vpaid1 => "VPAID_1"@,
            ApiFramework::Vpaid2 => "VPAID_2"@,
            ApiFramework::Mraid1 => "MRAID_1"@,
            ApiFramework::Ormma => "ORMMA"@,
            ApiFramework::Mraid2 => "MRAID_2"@,
            ApiFramework::Mraid3 => "MRAID_3"@,
            ApiFramework::Omid1 => "OMID_1"@,
        }
    }

    /// The display name of this member. It is meant for logs and diagnostics and
    /// never travels on the wire.
    pub fn as_str_name(&self) -> (name: &'static str)
        ensures
            name@ == self.name_spec(),
    {
        match self {
            ApiFramework::Vpaid1 => "VPAID_1",
            ApiFramework::Vpaid2 => "VPAID_2",
            ApiFramework::Mraid1 => "MRAID_1",
            ApiFramework::Ormma => "ORMMA",
            ApiFramework::Mraid2 => "MRAID_2",
            ApiFramework::Mraid3 => "MRAID_3",
            ApiFramework::Omid1 => "OMID_1",
        }
    }
}

impl DeepView for ApiFramework {
    type V = ApiFramework;

    open spec fn deep_view(&self) -> ApiFramework {
        *self
    }
}

impl Vocabulary for ApiFramework {
    open spec fn code_spec(self) -> int {
        match self {
            ApiFramework::Vpaid1 => 1,
            ApiFramework::Vpaid2 => 2,
            ApiFramework::Mraid1 => 3,
            ApiFramework::Ormma => 4,
            ApiFramework::Mraid2 => 5,
            ApiFramework::Mraid3 => 6,
            ApiFramework::Omid1 => 7,
        }
    }

    open spec fn from_code_spec(code: i32) -> Option<ApiFramework> {
        match code {
            1 => Some(ApiFramework::Vpaid1),
            2 => Some(ApiFramework::Vpaid2),
            3 => Some(ApiFramework::Mraid1),
            4 => Some(ApiFramework::Ormma),
            5 => Some(ApiFramework::Mraid2),
            6 => Some(ApiFramework::Mraid3),
            7 => Some(ApiFramework::Omid1),
            _ => None,
        }
    }

    fn code(&self) -> (code: i32) {
        match self {
            ApiFramework::Vpaid1 => 1,
            ApiFramework::Vpaid2 => 2,
            ApiFramework::Mraid1 => 3,
            ApiFramework::Ormma => 4,
            ApiFramework::Mraid2 => 5,
            ApiFramework::Mraid3 => 6,
            ApiFramework::Omid1 => 7,
        }
    }

    fn from_code(code: i32) -> (member: Option<ApiFramework>) {
        match code {
            1 => Some(ApiFramework::Vpaid1),
            2 => Some(ApiFramework::Vpaid2),
            3 => Some(ApiFramework::Mraid1),
            4 => Some(ApiFramework::Ormma),
            5 => Some(ApiFramework::Mraid2),
            6 => Some(ApiFramework::Mraid3),
            7 => Some(ApiFramework::Omid1),
            _ => None,
        }
    }

    proof fn lemma_deep_view(self) {
    }

    proof fn lemma_code_round_trip(self) {
    }

    proof fn lemma_from_code_sound(code: i32) {
    }
}

/// The position of an ad on the screen, as a measure of its visibility.
#[derive(Clone, Copy, Debug, PartialEq, Eq, Hash, PartialOrd, Ord, Structural)]
pub enum AdPosition {
    Unknown,
    AboveTheFold,
    /// May or may not be visible at once, depending on the screen. Deprecated in OpenRTB
    /// 2.1.
    LikelyBelowTheFold,
    BelowTheFold,
    Header,
    Footer,
    Sidebar,
    Fullscreen,
}

impl AdPosition {
    /// The display name of each member, as the protocol publishes it.
    pub open spec fn name_spec(self) -> Seq<char> {
        match self {
            AdPosition::Unknown => "UNKNOWN"@,
            AdPosition::AboveTheFold => "ABOVE_THE_FOLD"@,
            AdPosition::LikelyBelowTheFold => "LIKELY_BELOW_THE_FOLD"@,
            AdPosition::BelowTheFold => "BELOW_THE_FOLD"@,
            AdPosition::Header => "HEADER"@,
            AdPosition::Footer => "FOOTER"@,
            AdPosition::Sidebar => "SIDEBAR"@,
            AdPosition::Fullscreen => "AD_POSITION_FULLSCREEN"@,
        }
    }

    /// The display name of this member. It is meant for logs and diagnostics and
    /// never travels on the wire.
    pub fn as_str_name(&self) -> (name: &'static str)
        ensures
            name@ == self.name_spec(),
    {
        match self {
            AdPosition::Unknown => "UNKNOWN",
            AdPosition::AboveTheFold => "ABOVE_THE_FOLD",
            AdPosition::LikelyBelowTheFold => "LIKELY_BELOW_THE_FOLD",
            AdPosition::BelowTheFold => "BELOW_THE_FOLD",
            AdPosition::Header => "HEADER",
            AdPosition::Footer => "FOOTER",
            AdPosition::Sidebar => "SIDEBAR",
            AdPosition::Fullscreen => "AD_POSITION_FULLSCREEN",
        }
    }
}

impl DeepView for AdPosition {
    type V = AdPosition;

    open spec fn deep_view(&self) -> AdPosition {
        *self
    }
}

impl Vocabulary for AdPosition {
    open spec fn code_spec(self) -> int {
        match self {
            AdPosition::Unknown => 0,
            AdPosition::AboveTheFold => 1,
            AdPosition::LikelyBelowTheFold => 2,
            AdPosition::BelowTheFold => 3,
            AdPosition::Header => 4,
            AdPosition::Footer => 5,
            AdPosition::Sidebar => 6,
            AdPosition::Fullscreen => 7,
        }
    }

    open spec fn from_code_spec(code: i32) -> Option<AdPosition> {
        match code {
            0 => Some(AdPosition::Unknown),
            1 => Some(AdPosition::AboveTheFold),
            2 => Some(AdPosition::LikelyBelowTheFold),
            3 => Some(AdPosition::BelowTheFold),
            4 => Some(AdPosition::Header),
            5 => Some(AdPosition::Footer),
            6 => Some(AdPosition::Sidebar),
            7 => Some(AdPosition::Fullscreen),
            _ => None,
        }
    }

    fn code(&self) -> (code: i32) {
        match self {
            AdPosition::Unknown => 0,
            AdPosition::AboveTheFold => 1,
            AdPosition::LikelyBelowTheFold => 2,
            AdPosition::BelowTheFold => 3,
            AdPosition::Header => 4,
            AdPosition::Footer => 5,
            AdPosition::Sidebar => 6,
            AdPosition::Fullscreen => 7,
        }
    }

    fn from_code(code: i32) -> (member: Option<AdPosition>) {
        match code {
            0 => Some(AdPosition::Unknown),
            1 => Some(AdPosition::AboveTheFold),
            2 => Some(AdPosition::LikelyBelowTheFold),
            3 => Some(AdPosition::BelowTheFold),
            4 => Some(AdPosition::Header),
            5 => Some(AdPosition::Footer),
            6 => Some(AdPosition::Sidebar),
            7 => Some(AdPosition::Fullscreen),
            _ => None,
        }
    }

    proof fn lemma_deep_view(self) {
    }

    proof fn lemma_code_round_trip(self) {
    }

    proof fn lemma_from_code_sound(code: i32) {
    }
}

/// The directions in which an expandable ad may expand.
#[derive(Clone, Copy, Debug, PartialEq, Eq, Hash, PartialOrd, Ord, Structural)]
pub enum ExpandableDirection {
    Left,
    Right,
    Up,
    Down,
    ExpandableFullscreen,
}

impl ExpandableDirection {
    /// The display name of each member, as the protocol publishes it.
    pub open spec fn name_spec(self) -> Seq<char> {
        match self {
            ExpandableDirection::Left => "LEFT"@,
            ExpandableDirection::Right => "RIGHT"@,
            ExpandableDirection::Up => "UP"@,
            ExpandableDirection::Down => "DOWN"@,
            ExpandableDirection::ExpandableFullscreen => "EXPANDABLE_FULLSCREEN"@,
        }
    }

    /// The display name of this member. It is meant for logs and diagnostics and
    /// never travels on the wire.
    pub fn as_str_name(&self) -> (name: &'static str)
        ensures
            name@ == self.name_spec(),
    {
        match self {
            ExpandableDirection::Left => "LEFT",
            ExpandableDirection::Right => "RIGHT",
            ExpandableDirection::Up => "UP",
            ExpandableDirection::Down => "DOWN",
            ExpandableDirection::ExpandableFullscreen => "EXPANDABLE_FULLSCREEN",
        }
    }
}

impl DeepView for ExpandableDirection {
    type V = ExpandableDirection;

    open spec fn deep_view(&self) -> ExpandableDirection {
        *self
    }
}

impl Vocabulary for ExpandableDirection {
    open spec fn code_spec(self) -> int {
        match self {
            ExpandableDirection::Left => 1,
            ExpandableDirection::Right => 2,
            ExpandableDirection::Up => 3,
            ExpandableDirection::Down => 4,
            ExpandableDirection::ExpandableFullscreen => 5,
        }
    }

    open spec fn from_code_spec(code: i32) -> Option<ExpandableDirection> {
        match code {
            1 => Some(ExpandableDirection::Left),
            2 => Some(ExpandableDirection::Right),
            3 => Some(ExpandableDirection::Up),
            4 => Some(ExpandableDirection::Down),
            5 => Some(ExpandableDirection::ExpandableFullscreen),
            _ => None,
        }
    }

    fn code(&self) -> (code: i32) {
        match self {
            ExpandableDirection::Left => 1,
            ExpandableDirection::Right => 2,
            ExpandableDirection::Up => 3,
            ExpandableDirection::Down => 4,
            ExpandableDirection::ExpandableFullscreen => 5,
        }
    }

    fn from_code(code: i32) -> (member: Option<ExpandableDirection>) {
        match code {
            1 => Some(ExpandableDirection::Left),
            2 => Some(ExpandableDirection::Right),
            3 => Some(ExpandableDirection::Up),
            4 => Some(ExpandableDirection::Down),
            5 => Some(ExpandableDirection::ExpandableFullscreen),
            _ => None,
        }
    }

    proof fn lemma_deep_view(self) {
    }

    proof fn lemma_code_round_trip(self) {
    }

    proof fn lemma_from_code_sound(code: i32) {
    }
}

} // verus!
