//! Vocabularies of video and audio impressions.

use crate::vocabulary::Vocabulary;
use vstd::prelude::*;

verus! {

/// Whether a video ad plays in the stream, where the user has to watch it, or
/// over the content.
#[derive(Clone, Copy, Debug, PartialEq, Eq, Hash, PartialOrd, Ord, Structural)]
pub enum VideoLinearity {
    /// Linear/In-stream.
    Linear,
    /// Non-linear/Overlay.
    NonLinear,
}

impl VideoLinearity {
    /// The display name of each member, as the protocol publishes it.
    pub open spec fn name_spec(self) -> Seq<char> {
        match self {
            VideoLinearity::Linear => "LINEAR"@,
            VideoLinearity::NonLinear => "NON_LINEAR"@,
        }
    }

    /// The display name of this member. It is meant for logs and diagnostics and
    /// never travels on the wire.
    pub fn as_str_name(&self) -> (name: &'static str)
        ensures
            name@ == self.name_spec(),
    {
        match self {
            VideoLinearity::Linear => "LINEAR",
            VideoLinearity::NonLinear => "NON_LINEAR",
        }
    }
}

impl DeepView for VideoLinearity {
    type V = VideoLinearity;

    open spec fn deep_view(&self) -> VideoLinearity {
        *self
    }
}

impl Vocabulary for VideoLinearity {
    open spec fn code_spec(self) -> int {
        match self {
            VideoLinearity::Linear => 1,
            VideoLinearity::NonLinear => 2,
        }
    }

    open spec fn from_code_spec(code: i32) -> Option<VideoLinearity> {
        match code {
            1 => Some(VideoLinearity::Linear),
            2 => Some(VideoLinearity::NonLinear),
            _ => None,
        }
    }

    fn code(&self) -> (code: i32) {
        match self {
            VideoLinearity::Linear => 1,
            VideoLinearity::NonLinear => 2,
        }
    }

    fn from_code(code: i32) -> (member: Option<VideoLinearity>) {
        match code {
            1 => Some(VideoLinearity::Linear),
            2 => Some(VideoLinearity::NonLinear),
            _ => None,
        }
    }

    proof fn lemma_deep_view(self) {
    }

    proof fn lemma_code_round_trip(self) {
    }

    proof fn lemma_from_code_sound(code: i32) {
    }
}

/// The video and audio response protocols that an exchange may support.
#[derive(Clone, Copy, Debug, PartialEq, Eq, Hash, PartialOrd, Ord, Structural)]
pub enum Protocol {
    Vast10,
    Vast20,
    Vast30,
    Vast10Wrapper,
    Vast20Wrapper,
    Vast30Wrapper,
    Vast40,
    Vast40Wrapper,
    Daast10,
    Daast10Wrapper,
}

impl Protocol {
    /// The display name of each member, as the protocol publishes it.
    pub open spec fn name_spec(self) -> Seq<char> {
        match self {
            Protocol::Vast10 => "VAST_1_0"@,
            Protocol::Vast20 => "VAST_2_0"@,
            Protocol::Vast30 => "VAST_3_0"@,
            Protocol::Vast10Wrapper => "VAST_1_0_WRAPPER"@,
            Protocol::Vast20Wrapper => "VAST_2_0_WRAPPER"@,
            Protocol::Vast30Wrapper => "VAST_3_0_WRAPPER"@,
            Protocol::Vast40 => "VAST_4_0"@,
            Protocol::Vast40Wrapper => "VAST_4_0_WRAPPER"@,
            Protocol::Daast10 => "DAAST_1_0"@,
            Protocol::Daast10Wrapper => "DAAST_1_0_WRAPPER"@,
        }
    }

    /// The display name of this member. It is meant for logs and diagnostics and
    /// never travels on the wire.
    pub fn as_str_name(&self) -> (name: &'static str)
        ensures
            name@ == self.name_spec(),
    {
        match self {
            Protocol::Vast10 => "VAST_1_0",
            Protocol::Vast20 => "VAST_2_0",
            Protocol::Vast30 => "VAST_3_0",
            Protocol::Vast10Wrapper => "VAST_1_0_WRAPPER",
            Protocol::Vast20Wrapper => "VAST_2_0_WRAPPER",
            Protocol::Vast30Wrapper => "VAST_3_0_WRAPPER",
            Protocol::Vast40 => "VAST_4_0",
            Protocol::Vast40Wrapper => "VAST_4_0_WRAPPER",
            Protocol::Daast10 => "DAAST_1_0",
            Protocol::Daast10Wrapper => "DAAST_1_0_WRAPPER",
        }
    }
}

impl DeepView for Protocol {
    type V = Protocol;

    open spec fn deep_view(&self) -> Protocol {
        *self
    }
}

impl Vocabulary for Protocol {
    open spec fn code_spec(self) -> int {
        match self {
            Protocol::Vast10 => 1,
            Protocol::Vast20 => 2,
            Protocol::Vast30 => 3,
            Protocol::Vast10Wrapper => 4,
            Protocol::Vast20Wrapper => 5,
            Protocol::Vast30Wrapper => 6,
            Protocol::Vast40 => 7,
            Protocol::Vast40Wrapper => 8,
            Protocol::Daast10 => 9,
            Protocol::Daast10Wrapper => 10,
        }
    }

    open spec fn from_code_spec(code: i32) -> Option<Protocol> {
        match code {
            1 => Some(Protocol::Vast10),
            2 => Some(Protocol::Vast20),
            3 => Some(Protocol::Vast30),
            4 => Some(Protocol::Vast10Wrapper),
            5 => Some(Protocol::Vast20Wrapper),
            6 => Some(Protocol::Vast30Wrapper),
            7 => Some(Protocol::Vast40),
            8 => Some(Protocol::Vast40Wrapper),
            9 => Some(Protocol::Daast10),
            10 => Some(Protocol::Daast10Wrapper),
            _ => None,
        }
    }

    fn code(&self) -> (code: i32) {
        match self {
            Protocol::Vast10 => 1,
            Protocol::Vast20 => 2,
            Protocol::Vast30 => 3,
            Protocol::Vast10Wrapper => 4,
            Protocol::Vast20Wrapper => 5,
            Protocol::Vast30Wrapper => 6,
            Protocol::Vast40 => 7,
            Protocol::Vast40Wrapper => 8,
            Protocol::Daast10 => 9,
            Protocol::Daast10Wrapper => 10,
        }
    }

    fn from_code(code: i32) -> (member: Option<Protocol>) {
        match code {
            1 => Some(Protocol::Vast10),
            2 => Some(Protocol::Vast20),
            3 => Some(Protocol::Vast30),
            4 => Some(Protocol::Vast10Wrapper),
            5 => Some(Protocol::Vast20Wrapper),
            6 => Some(Protocol::Vast30Wrapper),
            7 => Some(Protocol::Vast40),
            8 => Some(Protocol::Vast40Wrapper),
            9 => Some(Protocol::Daast10),
            10 => Some(Protocol::Daast10Wrapper),
            _ => None,
        }
    }

    proof fn lemma_deep_view(self) {
    }

    proof fn lemma_code_round_trip(self) {
    }

    proof fn lemma_from_code_sound(code: i32) {
    }
}

/// How the playback of a video ad is started.
#[derive(Clone, Copy, Debug, PartialEq, Eq, Hash, PartialOrd, Ord, Structural)]
pub enum PlaybackMethod {
    /// Initiates on Page Load with Sound On.
    AutoPlaySoundOn,
    /// Initiates on Page Load with Sound Off by Default.
    AutoPlaySoundOff,
    /// Initiates on Click with Sound On.
    ClickToPlay,
    /// Initiates on Mouse-Over with Sound On.
    MouseOver,
    /// Initiates on Entering Viewport with Sound On.
    EnterSoundOn,
    /// Initiates on Entering Viewport with Sound Off by Default.
    EnterSoundOff,
}

impl PlaybackMethod {
    /// The display name of each member, as the protocol publishes it.
    pub open spec fn name_spec(self) -> Seq<char> {
        match self {
            PlaybackMethod::AutoPlaySoundOn => "AUTO_PLAY_SOUND_ON"@,
            PlaybackMethod::AutoPlaySoundOff => "AUTO_PLAY_SOUND_OFF"@,
            PlaybackMethod::ClickToPlay => "CLICK_TO_PLAY"@,
            PlaybackMethod::MouseOver => "MOUSE_OVER"@,
            PlaybackMethod::EnterSoundOn => "ENTER_SOUND_ON"@,
            PlaybackMethod::EnterSoundOff => "ENTER_SOUND_OFF"@,
        }
    }

    /// The display name of this member. It is meant for logs and diagnostics and
    /// never travels on the wire.
    pub fn as_str_name(&self) -> (name: &'static str)
        ensures
            name@ == self.name_spec(),
    {
        match self {
            PlaybackMethod::AutoPlaySoundOn => "AUTO_PLAY_SOUND_ON",
            PlaybackMethod::AutoPlaySoundOff => "AUTO_PLAY_SOUND_OFF",
            PlaybackMethod::ClickToPlay => "CLICK_TO_PLAY",
            PlaybackMethod::MouseOver => "MOUSE_OVER",
            PlaybackMethod::EnterSoundOn => "ENTER_SOUND_ON",
            PlaybackMethod::EnterSoundOff => "ENTER_SOUND_OFF",
        }
    }
}

impl DeepView for PlaybackMethod {
    type V = PlaybackMethod;

    open spec fn deep_view(&self) -> PlaybackMethod {
        *self
    }
}

impl Vocabulary for PlaybackMethod {
    open spec fn code_spec(self) -> int {
        match self {
            PlaybackMethod::AutoPlaySoundOn => 1,
            PlaybackMethod::AutoPlaySoundOff => 2,
            PlaybackMethod::ClickToPlay => 3,
            PlaybackMethod::MouseOver => 4,
            PlaybackMethod::EnterSoundOn => 5,
            PlaybackMethod::EnterSoundOff => 6,
        }
    }

    open spec fn from_code_spec(code: i32) -> Option<PlaybackMethod> {
        match code {
            1 => Some(PlaybackMethod::AutoPlaySoundOn),
            2 => Some(PlaybackMethod::AutoPlaySoundOff),
            3 => Some(PlaybackMethod::ClickToPlay),
            4 => Some(PlaybackMethod::MouseOver),
            5 => Some(PlaybackMethod::EnterSoundOn),
            6 => Some(PlaybackMethod::EnterSoundOff),
            _ => None,
        }
    }

    fn code(&self) -> (code: i32) {
        match self {
            PlaybackMethod::AutoPlaySoundOn => 1,
            PlaybackMethod::AutoPlaySoundOff => 2,
            PlaybackMethod::ClickToPlay => 3,
            PlaybackMethod::MouseOver => 4,
            PlaybackMethod::EnterSoundOn => 5,
            PlaybackMethod::EnterSoundOff => 6,
        }
    }

    fn from_code(code: i32) -> (member: Option<PlaybackMethod>) {
        match code {
            1 => Some(PlaybackMethod::AutoPlaySoundOn),
            2 => Some(PlaybackMethod::AutoPlaySoundOff),
            3 => Some(PlaybackMethod::ClickToPlay),
            4 => Some(PlaybackMethod::MouseOver),
            5 => Some(PlaybackMethod::EnterSoundOn),
            6 => Some(PlaybackMethod::EnterSoundOff),
            _ => None,
        }
    }

    proof fn lemma_deep_view(self) {
    }

    proof fn lemma_code_round_trip(self) {
    }

    proof fn lemma_from_code_sound(code: i32) {
    }
}

/// Where in the content a video or audio ad starts.
///
/// A start delay greater than zero is a number of seconds into a mid-roll and is
/// no member of this vocabulary.
#[derive(Clone, Copy, Debug, PartialEq, Eq, Hash, PartialOrd, Ord, Structural)]
pub enum StartDelay {
    GenericPostRoll,
    GenericMidRoll,
    PreRoll,
}

impl StartDelay {
    /// The display name of each member, as the protocol publishes it.
    pub open spec fn name_spec(self) -> Seq<char> {
        match self {
            StartDelay::GenericPostRoll => "GENERIC_POST_ROLL"@,
            StartDelay::GenericMidRoll => "GENERIC_MID_ROLL"@,
            StartDelay::PreRoll => "PRE_ROLL"@,
        }
    }

    /// The display name of this member. It is meant for logs and diagnostics and
    /// never travels on the wire.
    pub fn as_str_name(&self) -> (name: &'static str)
        ensures
            name@ == self.name_spec(),
    {
        match self {
            StartDelay::GenericPostRoll => "GENERIC_POST_ROLL",
            StartDelay::GenericMidRoll => "GENERIC_MID_ROLL",
            StartDelay::PreRoll => "PRE_ROLL",
        }
    }
}

impl DeepView for StartDelay {
    type V = StartDelay;

    open spec fn deep_view(&self) -> StartDelay {
        *self
    }
}

impl Vocabulary for StartDelay {
    open spec fn code_spec(self) -> int {
        match self {
            StartDelay::GenericPostRoll => -2,
            StartDelay::GenericMidRoll => -1,
            StartDelay::PreRoll => 0,
        }
    }

    open spec fn from_code_spec(code: i32) -> Option<StartDelay> {
        match code {
            -2 => Some(StartDelay::GenericPostRoll),
            -1 => Some(StartDelay::GenericMidRoll),
            0 => Some(StartDelay::PreRoll),
            _ => None,
        }
    }

    fn code(&self) -> (code: i32) {
        match self {
            StartDelay::GenericPostRoll => -2,
            StartDelay::GenericMidRoll => -1,
            StartDelay::PreRoll => 0,
        }
    }

    fn from_code(code: i32) -> (member: Option<StartDelay>) {
        match code {
            -2 => Some(StartDelay::GenericPostRoll),
            -1 => Some(StartDelay::GenericMidRoll),
            0 => Some(StartDelay::PreRoll),
            _ => None,
        }
    }

    proof fn lemma_deep_view(self) {
    }

    proof fn lemma_code_round_trip(self) {
    }

    proof fn lemma_from_code_sound(code: i32) {
    }
}

/// The kinds of video placement, after the IAB Digital Video Guidelines.
#[derive(Clone, Copy, Debug, PartialEq, Eq, Hash, PartialOrd, Ord, Structural)]
pub enum VideoPlacementType {
    /// The video placement is not defined. Default value.
    UndefinedVideoPlacement,
    /// Played before, during or after the streaming video content that the consumer has
    /// requested. E.G.: Pre-roll, Mid-roll, Post-roll.
    InStreamPlacement,
    /// Exists within a web banner that leverages the banner space to deliver a video
    /// experience as opposed to another static or rich media format.
    InBannerPlacement,
    /// Loads and plays dynamically between paragraphs of editorial content; existing as a
    /// standalone branded message.
    InArticlePlacement,
    /// In-Feed - Found in content, social, or product feeds.
    InFeedPlacement,
    /// Interstitial/Slider/Floating. Covers the entire or a portion of screen area, but is
    /// always on screen while displayed (i.e. cannot be scrolled out of view).
    FloatingPlacement,
}

impl VideoPlacementType {
    /// The display name of each member, as the protocol publishes it.
    pub open spec fn name_spec(self) -> Seq<char> {
        match self {
            VideoPlacementType::UndefinedVideoPlacement => "UNDEFINED_VIDEO_PLACEMENT"@,
            VideoPlacementType::InStreamPlacement => "IN_STREAM_PLACEMENT"@,
            VideoPlacementType::InBannerPlacement => "IN_BANNER_PLACEMENT"@,
            VideoPlacementType::InArticlePlacement => "IN_ARTICLE_PLACEMENT"@,
            VideoPlacementType::InFeedPlacement => "IN_FEED_PLACEMENT"@,
            VideoPlacementType::FloatingPlacement => "FLOATING_PLACEMENT"@,
        }
    }

    /// The display name of this member. It is meant for logs and diagnostics and
    /// never travels on the wire.
    pub fn as_str_name(&self) -> (name: &'static str)
        ensures
            name@ == self.name_spec(),
    {
        match self {
            VideoPlacementType::UndefinedVideoPlacement => "UNDEFINED_VIDEO_PLACEMENT",
            VideoPlacementType::InStreamPlacement => "IN_STREAM_PLACEMENT",
            VideoPlacementType::InBannerPlacement => "IN_BANNER_PLACEMENT",
            VideoPlacementType::InArticlePlacement => "IN_ARTICLE_PLACEMENT",
            VideoPlacementType::InFeedPlacement => "IN_FEED_PLACEMENT",
            VideoPlacementType::FloatingPlacement => "FLOATING_PLACEMENT",
        }
    }
}

impl DeepView for VideoPlacementType {
    type V = VideoPlacementType;

    open spec fn deep_view(&self) -> VideoPlacementType {
        *self
    }
}

impl Vocabulary for VideoPlacementType {
    open spec fn code_spec(self) -> int {
        match self {
            VideoPlacementType::UndefinedVideoPlacement => 0,
            VideoPlacementType::InStreamPlacement => 1,
            VideoPlacementType::InBannerPlacement => 2,
            VideoPlacementType::InArticlePlacement => 3,
            VideoPlacementType::InFeedPlacement => 4,
            VideoPlacementType::FloatingPlacement => 5,
        }
    }

    open spec fn from_code_spec(code: i32) -> Option<VideoPlacementType> {
        match code {
            0 => Some(VideoPlacementType::UndefinedVideoPlacement),
            1 => Some(VideoPlacementType::InStreamPlacement),
            2 => Some(VideoPlacementType::InBannerPlacement),
            3 => Some(VideoPlacementType::InArticlePlacement),
            4 => Some(VideoPlacementType::InFeedPlacement),
            5 => Some(VideoPlacementType::FloatingPlacement),
            _ => None,
        }
    }

    fn code(&self) -> (code: i32) {
        match self {
            VideoPlacementType::UndefinedVideoPlacement => 0,
            VideoPlacementType::InStreamPlacement => 1,
            VideoPlacementType::InBannerPlacement => 2,
            VideoPlacementType::InArticlePlacement => 3,
            VideoPlacementType::InFeedPlacement => 4,
            VideoPlacementType::FloatingPlacement => 5,
        }
    }

    fn from_code(code: i32) -> (member: Option<VideoPlacementType>) {
        match code {
            0 => Some(VideoPlacementType::UndefinedVideoPlacement),
            1 => Some(VideoPlacementType::InStreamPlacement),
            2 => Some(VideoPlacementType::InBannerPlacement),
            3 => Some(VideoPlacementType::InArticlePlacement),
            4 => Some(VideoPlacementType::InFeedPlacement),
            5 => Some(VideoPlacementType::FloatingPlacement),
            _ => None,
        }
    }

    proof fn lemma_deep_view(self) {
    }

    proof fn lemma_code_round_trip(self) {
    }

    proof fn lemma_from_code_sound(code: i32) {
    }
}

/// When the playback of a video ad ends.
#[derive(Clone, Copy, Debug, PartialEq, Eq, Hash, PartialOrd, Ord, Structural)]
pub enum PlaybackCessationMode {
    /// On Video Completion or when Terminated by User.
    CompletionOrUser,
    /// On Leaving Viewport or when Terminated by User.
    LeavingOrUser,
    /// On Leaving Viewport Continues as a Floating/Slider Unit until Video Completion or
    /// when Terminated by User.
    LeavingContinuesOrUser,
}

impl PlaybackCessationMode {
    /// The display name of each member, as the protocol publishes it.
    pub open spec fn name_spec(self) -> Seq<char> {
        match self {
            PlaybackCessationMode::CompletionOrUser => "COMPLETION_OR_USER"@,
            PlaybackCessationMode::LeavingOrUser => "LEAVING_OR_USER"@,
            PlaybackCessationMode::LeavingContinuesOrUser => "LEAVING_CONTINUES_OR_USER"@,
        }
    }

    /// The display name of this member. It is meant for logs and diagnostics and
    /// never travels on the wire.
    pub fn as_str_name(&self) -> (name: &'static str)
        ensures
            name@ == self.name_spec(),
    {
        match self {
            PlaybackCessationMode::CompletionOrUser => "COMPLETION_OR_USER",
            PlaybackCessationMode::LeavingOrUser => "LEAVING_OR_USER",
            PlaybackCessationMode::LeavingContinuesOrUser => "LEAVING_CONTINUES_OR_USER",
        }
    }
}

impl DeepView for PlaybackCessationMode {
    type V = PlaybackCessationMode;

    open spec fn deep_view(&self) -> PlaybackCessationMode {
        *self
    }
}

impl Vocabulary for PlaybackCessationMode {
    open spec fn code_spec(self) -> int {
        match self {
            PlaybackCessationMode::CompletionOrUser => 1,
            PlaybackCessationMode::LeavingOrUser => 2,
            PlaybackCessationMode::LeavingContinuesOrUser => 3,
        }
    }

    open spec fn from_code_spec(code: i32) -> Option<PlaybackCessationMode> {
        match code {
            1 => Some(PlaybackCessationMode::CompletionOrUser),
            2 => Some(PlaybackCessationMode::LeavingOrUser),
            3 => Some(PlaybackCessationMode::LeavingContinuesOrUser),
            _ => None,
        }
    }

    fn code(&self) -> (code: i32) {
        match self {
            PlaybackCessationMode::CompletionOrUser => 1,
            PlaybackCessationMode::LeavingOrUser => 2,
            PlaybackCessationMode::LeavingContinuesOrUser => 3,
        }
    }

    fn from_code(code: i32) -> (member: Option<PlaybackCessationMode>) {
        match code {
            1 => Some(PlaybackCessationMode::CompletionOrUser),
            2 => Some(PlaybackCessationMode::LeavingOrUser),
            3 => Some(PlaybackCessationMode::LeavingContinuesOrUser),
            _ => None,
        }
    }

    proof fn lemma_deep_view(self) {
    }

    proof fn lemma_code_round_trip(self) {
    }

    proof fn lemma_from_code_sound(code: i32) {
    }
}

/// How video or audio content is delivered.
#[derive(Clone, Copy, Debug, PartialEq, Eq, Hash, PartialOrd, Ord, Structural)]
pub enum ContentDeliveryMethod {
    Streaming,
    Progressive,
}

impl ContentDeliveryMethod {
    /// The display name of each member, as the protocol publishes it.
    pub open spec fn name_spec(self) -> Seq<char> {
        match self {
            ContentDeliveryMethod::Streaming => "STREAMING"@,
            ContentDeliveryMethod::Progressive => "PROGRESSIVE"@,
        }
    }

    /// The display name of this member. It is meant for logs and diagnostics and
    /// never travels on the wire.
    pub fn as_str_name(&self) -> (name: &'static str)
        ensures
            name@ == self.name_spec(),
    {
        match self {
            ContentDeliveryMethod::Streaming => "STREAMING",
            ContentDeliveryMethod::Progressive => "PROGRESSIVE",
        }
    }
}

impl DeepView for ContentDeliveryMethod {
    type V = ContentDeliveryMethod;

    open spec fn deep_view(&self) -> ContentDeliveryMethod {
        *self
    }
}

impl Vocabulary for ContentDeliveryMethod {
    open spec fn code_spec(self) -> int {
        match self {
            ContentDeliveryMethod::Streaming => 1,
            ContentDeliveryMethod::Progressive => 2,
        }
    }

    open spec fn from_code_spec(code: i32) -> Option<ContentDeliveryMethod> {
        match code {
            1 => Some(ContentDeliveryMethod::Streaming),
            2 => Some(ContentDeliveryMethod::Progressive),
            _ => None,
        }
    }

    fn code(&self) -> (code: i32) {
        match self {
            ContentDeliveryMethod::Streaming => 1,
            ContentDeliveryMethod::Progressive => 2,
        }
    }

    fn from_code(code: i32) -> (member: Option<ContentDeliveryMethod>) {
        match code {
            1 => Some(ContentDeliveryMethod::Streaming),
            2 => Some(ContentDeliveryMethod::Progressive),
            _ => None,
        }
    }

    proof fn lemma_deep_view(self) {
    }

    proof fn lemma_code_round_trip(self) {
    }

    proof fn lemma_from_code_sound(code: i32) {
    }
}

/// The kinds of companion ad that may accompany a video or audio ad.
#[derive(Clone, Copy, Debug, PartialEq, Eq, Hash, PartialOrd, Ord, Structural)]
pub enum CompanionType {
    Static,
    Html,
    CompanionIframe,
}

impl CompanionType {
    /// The display name of each member, as the protocol publishes it.
    pub open spec fn name_spec(self) -> Seq<char> {
        match self {
            CompanionType::Static => "STATIC"@,
            CompanionType::Html => "HTML"@,
            CompanionType::CompanionIframe => "COMPANION_IFRAME"@,
        }
    }

    /// The display name of this member. It is meant for logs and diagnostics and
    /// never travels on the wire.
    pub fn as_str_name(&self) -> (name: &'static str)
        ensures
            name@ == self.name_spec(),
    {
        match self {
            CompanionType::Static => "STATIC",
            CompanionType::Html => "HTML",
            CompanionType::CompanionIframe => "COMPANION_IFRAME",
        }
    }
}

impl DeepView for CompanionType {
    type V = CompanionType;

    open spec fn deep_view(&self) -> CompanionType {
        *self
    }
}

impl Vocabulary for CompanionType {
    open spec fn code_spec(self) -> int {
        match self {
            CompanionType::Static => 1,
            CompanionType::Html => 2,
            CompanionType::CompanionIframe => 3,
        }
    }

    open spec fn from_code_spec(code: i32) -> Option<CompanionType> {
        match code {
            1 => Some(CompanionType::Static),
            2 => Some(CompanionType::Html),
            3 => Some(CompanionType::CompanionIframe),
            _ => None,
        }
    }

    fn code(&self) -> (code: i32) {
        match self {
            CompanionType::Static => 1,
            CompanionType::Html => 2,
            CompanionType::CompanionIframe => 3,
        }
    }

    fn from_code(code: i32) -> (member: Option<CompanionType>) {
        match code {
            1 => Some(CompanionType::Static),
            2 => Some(CompanionType::Html),
            3 => Some(CompanionType::CompanionIframe),
            _ => None,
        }
    }

    proof fn lemma_deep_view(self) {
    }

    proof fn lemma_code_round_trip(self) {
    }

    proof fn lemma_from_code_sound(code: i32) {
    }
}

/// The kinds of audio feed.
#[derive(Clone, Copy, Debug, PartialEq, Eq, Hash, PartialOrd, Ord, Structural)]
pub enum FeedType {
    MusicService,
    Broadcast,
    Podcast,
}

impl FeedType {
    /// The display name of each member, as the protocol publishes it.
    pub open spec fn name_spec(self) -> Seq<char> {
        match self {
            FeedType::MusicService => "MUSIC_SERVICE"@,
            FeedType::Broadcast => "BROADCAST"@,
            FeedType::Podcast => "PODCAST"@,
        }
    }

    /// The display name of this member. It is meant for logs and diagnostics and
    /// never travels on the wire.
    pub fn as_str_name(&self) -> (name: &'static str)
        ensures
            name@ == self.name_spec(),
    {
        match self {
            FeedType::MusicService => "MUSIC_SERVICE",
            FeedType::Broadcast => "BROADCAST",
            FeedType::Podcast => "PODCAST",
        }
    }
}

impl DeepView for FeedType {
    type V = FeedType;

    open spec fn deep_view(&self) -> FeedType {
        *self
    }
}

impl Vocabulary for FeedType {
    open spec fn code_spec(self) -> int {
        match self {
            FeedType::MusicService => 1,
            FeedType::Broadcast => 2,
            FeedType::Podcast => 3,
        }
    }

    open spec fn from_code_spec(code: i32) -> Option<FeedType> {
        match code {
            1 => Some(FeedType::MusicService),
            2 => Some(FeedType::Broadcast),
            3 => Some(FeedType::Podcast),
            _ => None,
        }
    }

    fn code(&self) -> (code: i32) {
        match self {
            FeedType::MusicService => 1,
            FeedType::Broadcast => 2,
            FeedType::Podcast => 3,
        }
    }

    fn from_code(code: i32) -> (member: Option<FeedType>) {
        match code {
            1 => Some(FeedType::MusicService),
            2 => Some(FeedType::Broadcast),
            3 => Some(FeedType::Podcast),
            _ => None,
        }
    }

    proof fn lemma_deep_view(self) {
    }

    proof fn lemma_code_round_trip(self) {
    }

    proof fn lemma_from_code_sound(code: i32) {
    }
}

/// How the volume of audio content is normalised.
#[derive(Clone, Copy, Debug, PartialEq, Eq, Hash, PartialOrd, Ord, Structural)]
pub enum VolumeNormalizationMode {
    /// The volume is not normalised.
    NoNormalization,
    AverageVolume,
    PeakVolume,
    Loudness,
    CustomVolume,
}

impl VolumeNormalizationMode {
    /// The display name of each member, as the protocol publishes it.
    pub open spec fn name_spec(self) -> Seq<char> {
        match self {
            VolumeNormalizationMode::NoNormalization => "NONE"@,
            VolumeNormalizationMode::AverageVolume => "AVERAGE_VOLUME"@,
            VolumeNormalizationMode::PeakVolume => "PEAK_VOLUME"@,
            VolumeNormalizationMode::Loudness => "LOUDNESS"@,
            VolumeNormalizationMode::CustomVolume => "CUSTOM_VOLUME"@,
        }
    }

    /// The display name of this member. It is meant for logs and diagnostics and
    /// never travels on the wire.
    pub fn as_str_name(&self) -> (name: &'static str)
        ensures
            name@ == self.name_spec(),
    {
        match self {
            VolumeNormalizationMode::NoNormalization => "NONE",
            VolumeNormalizationMode::AverageVolume => "AVERAGE_VOLUME",
            VolumeNormalizationMode::PeakVolume => "PEAK_VOLUME",
            VolumeNormalizationMode::Loudness => "LOUDNESS",
            VolumeNormalizationMode::CustomVolume => "CUSTOM_VOLUME",
        }
    }
}

impl DeepView for VolumeNormalizationMode {
    type V = VolumeNormalizationMode;

    open spec fn deep_view(&self) -> VolumeNormalizationMode {
        *self
    }
}

impl Vocabulary for VolumeNormalizationMode {
    open spec fn code_spec(self) -> int {
        match self {
            VolumeNormalizationMode::NoNormalization => 0,
            VolumeNormalizationMode::AverageVolume => 1,
            VolumeNormalizationMode::PeakVolume => 2,
            VolumeNormalizationMode::Loudness => 3,
            VolumeNormalizationMode::CustomVolume => 4,
        }
    }

    open spec fn from_code_spec(code: i32) -> Option<VolumeNormalizationMode> {
        match code {
            0 => Some(VolumeNormalizationMode::NoNormalization),
            1 => Some(VolumeNormalizationMode::AverageVolume),
            2 => Some(VolumeNormalizationMode::PeakVolume),
            3 => Some(VolumeNormalizationMode::Loudness),
            4 => Some(VolumeNormalizationMode::CustomVolume),
            _ => None,
        }
    }

    fn code(&self) -> (code: i32) {
        match self {
            VolumeNormalizationMode::NoNormalization => 0,
            VolumeNormalizationMode::AverageVolume => 1,
            VolumeNormalizationMode::PeakVolume => 2,
            VolumeNormalizationMode::Loudness => 3,
            VolumeNormalizationMode::CustomVolume => 4,
        }
    }

    fn from_code(code: i32) -> (member: Option<VolumeNormalizationMode>) {
        match code {
            0 => Some(VolumeNormalizationMode::NoNormalization),
            1 => Some(VolumeNormalizationMode::AverageVolume),
            2 => Some(VolumeNormalizationMode::PeakVolume),
            3 => Some(VolumeNormalizationMode::Loudness),
            4 => Some(VolumeNormalizationMode::CustomVolume),
            _ => None,
        }
    }

    proof fn lemma_deep_view(self) {
    }

    proof fn lemma_code_round_trip(self) {
    }

    proof fn lemma_from_code_sound(code: i32) {
    }
}

} // verus!
