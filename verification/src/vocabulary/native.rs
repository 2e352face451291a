//! Vocabularies of the Native Ads extension.

use crate::vocabulary::Vocabulary;
use vstd::prelude::*;

verus! {

/// The layout of a native ad unit. Deprecated in OpenRTB Native 1.1 and removed
/// in 1.2.
#[derive(Clone, Copy, Debug, PartialEq, Eq, Hash, PartialOrd, Ord, Structural)]
pub enum LayoutId {
    ContentWall,
    AppWall,
    NewsFeed,
    ChatList,
    Carousel,
    ContentStream,
    Grid,
}

impl LayoutId {
    /// The display name of each member, as the protocol publishes it.
    pub open spec fn name_spec(self) -> Seq<char> {
        match self {
            LayoutId::ContentWall => "CONTENT_WALL"@,
            LayoutId::AppWall => "APP_WALL"@,
            LayoutId::NewsFeed => "NEWS_FEED"@,
            LayoutId::ChatList => "CHAT_LIST"@,
            LayoutId::Carousel => "CAROUSEL"@,
            LayoutId::ContentStream => "CONTENT_STREAM"@,
            LayoutId::Grid => "GRID"@,
        }
    }

    /// The display name of this member. It is meant for logs and diagnostics and
    /// never travels on the wire.
    pub fn as_str_name(&self) -> (name: &'static str)
        ensures
            name@ == self.name_spec(),
    {
        match self {
            LayoutId::ContentWall => "CONTENT_WALL",
            LayoutId::AppWall => "APP_WALL",
            LayoutId::NewsFeed => "NEWS_FEED",
            LayoutId::ChatList => "CHAT_LIST",
            LayoutId::Carousel => "CAROUSEL",
            LayoutId::ContentStream => "CONTENT_STREAM",
            LayoutId::Grid => "GRID",
        }
    }
}

impl DeepView for LayoutId {
    type V = LayoutId;

    open spec fn deep_view(&self) -> LayoutId {
        *self
    }
}

impl Vocabulary for LayoutId {
    open spec fn code_spec(self) -> int {
        match self {
            LayoutId::ContentWall => 1,
            LayoutId::AppWall => 2,
            LayoutId::NewsFeed => 3,
            LayoutId::ChatList => 4,
            LayoutId::Carousel => 5,
            LayoutId::ContentStream => 6,
            LayoutId::Grid => 7,
        }
    }

    open spec fn from_code_spec(code: i32) -> Option<LayoutId> {
        match code {
            1 => Some(LayoutId::ContentWall),
            2 => Some(LayoutId::AppWall),
            3 => Some(LayoutId::NewsFeed),
            4 => Some(LayoutId::ChatList),
            5 => Some(LayoutId::Carousel),
            6 => Some(LayoutId::ContentStream),
            7 => Some(LayoutId::Grid),
            _ => None,
        }
    }

    fn code(&self) -> (code: i32) {
        match self {
            LayoutId::ContentWall => 1,
            LayoutId::AppWall => 2,
            LayoutId::NewsFeed => 3,
            LayoutId::ChatList => 4,
            LayoutId::Carousel => 5,
            LayoutId::ContentStream => 6,
            LayoutId::Grid => 7,
        }
    }

    fn from_code(code: i32) -> (member: Option<LayoutId>) {
        match code {
            1 => Some(LayoutId::ContentWall),
            2 => Some(LayoutId::AppWall),
            3 => Some(LayoutId::NewsFeed),
            4 => Some(LayoutId::ChatList),
            5 => Some(LayoutId::Carousel),
            6 => Some(LayoutId::ContentStream),
            7 => Some(LayoutId::Grid),
            _ => None,
        }
    }

    proof fn lemma_deep_view(self) {
    }

    proof fn lemma_code_round_trip(self) {
    }

    proof fn lemma_from_code_sound(code: i32) {
    }
}

/// The kind of native ad unit. Deprecated in OpenRTB Native 1.1 and removed in
/// 1.2.
#[derive(Clone, Copy, Debug, PartialEq, Eq, Hash, PartialOrd, Ord, Structural)]
pub enum AdUnitId {
    PaidSearchUnit,
    RecommendationWidget,
    PromotedListing,
    IabInAdNative,
    AdunitidCustom,
}

impl AdUnitId {
    /// The display name of each member, as the protocol publishes it.
    pub open spec fn name_spec(self) -> Seq<char> {
        match self {
            AdUnitId::PaidSearchUnit => "PAID_SEARCH_UNIT"@,
            AdUnitId::RecommendationWidget => "RECOMMENDATION_WIDGET"@,
            AdUnitId::PromotedListing => "PROMOTED_LISTING"@,
            AdUnitId::IabInAdNative => "IAB_IN_AD_NATIVE"@,
            AdUnitId::AdunitidCustom => "ADUNITID_CUSTOM"@,
        }
    }

    /// The display name of this member. It is meant for logs and diagnostics and
    /// never travels on the wire.
    pub fn as_str_name(&self) -> (name: &'static str)
        ensures
            name@ == self.name_spec(),
    {
        match self {
            AdUnitId::PaidSearchUnit => "PAID_SEARCH_UNIT",
            AdUnitId::RecommendationWidget => "RECOMMENDATION_WIDGET",
            AdUnitId::PromotedListing => "PROMOTED_LISTING",
            AdUnitId::IabInAdNative => "IAB_IN_AD_NATIVE",
            AdUnitId::AdunitidCustom => "ADUNITID_CUSTOM",
        }
    }
}

impl DeepView for AdUnitId {
    type V = AdUnitId;

    open spec fn deep_view(&self) -> AdUnitId {
        *self
    }
}

impl Vocabulary for AdUnitId {
    open spec fn code_spec(self) -> int {
        match self {
            AdUnitId::PaidSearchUnit => 1,
            AdUnitId::RecommendationWidget => 2,
            AdUnitId::PromotedListing => 3,
            AdUnitId::IabInAdNative => 4,
            AdUnitId::AdunitidCustom => 5,
        }
    }

    open spec fn from_code_spec(code: i32) -> Option<AdUnitId> {
        match code {
            1 => Some(AdUnitId::PaidSearchUnit),
            2 => Some(AdUnitId::RecommendationWidget),
            3 => Some(AdUnitId::PromotedListing),
            4 => Some(AdUnitId::IabInAdNative),
            5 => Some(AdUnitId::AdunitidCustom),
            _ => None,
        }
    }

    fn code(&self) -> (code: i32) {
        match self {
            AdUnitId::PaidSearchUnit => 1,
            AdUnitId::RecommendationWidget => 2,
            AdUnitId::PromotedListing => 3,
            AdUnitId::IabInAdNative => 4,
            AdUnitId::AdunitidCustom => 5,
        }
    }

    fn from_code(code: i32) -> (member: Option<AdUnitId>) {
        match code {
            1 => Some(AdUnitId::PaidSearchUnit),
            2 => Some(AdUnitId::RecommendationWidget),
            3 => Some(AdUnitId::PromotedListing),
            4 => Some(AdUnitId::IabInAdNative),
            5 => Some(AdUnitId::AdunitidCustom),
            _ => None,
        }
    }

    proof fn lemma_deep_view(self) {
    }

    proof fn lemma_code_round_trip(self) {
    }

    proof fn lemma_from_code_sound(code: i32) {
    }
}

/// The context in which a native ad appears: the kind of content that surrounds
/// it.
#[derive(Clone, Copy, Debug, PartialEq, Eq, Hash, PartialOrd, Ord, Structural)]
pub enum ContextType {
    /// Content-centric context such as newsfeed, article, image gallery, video gallery, or
    /// similar.
    Content,
    /// Social-centric context such as social network feed, email, chat, or similar.
    Social,
    /// Product context such as product listings, details, recommendations, reviews, or
    /// similar.
    Product,
}

impl ContextType {
    /// The display name of each member, as the protocol publishes it.
    pub open spec fn name_spec(self) -> Seq<char> {
        match self {
            ContextType::Content => "CONTENT"@,
            ContextType::Social => "SOCIAL"@,
            ContextType::Product => "PRODUCT"@,
        }
    }

    /// The display name of this member. It is meant for logs and diagnostics and
    /// never travels on the wire.
    pub fn as_str_name(&self) -> (name: &'static str)
        ensures
            name@ == self.name_spec(),
    {
        match self {
            ContextType::Content => "CONTENT",
            ContextType::Social => "SOCIAL",
            ContextType::Product => "PRODUCT",
        }
    }
}

impl DeepView for ContextType {
    type V = ContextType;

    open spec fn deep_view(&self) -> ContextType {
        *self
    }
}

impl Vocabulary for ContextType {
    open spec fn code_spec(self) -> int {
        match self {
            ContextType::Content => 1,
            ContextType::Social => 2,
            ContextType::Product => 3,
        }
    }

    open spec fn from_code_spec(code: i32) -> Option<ContextType> {
        match code {
            1 => Some(ContextType::Content),
            2 => Some(ContextType::Social),
            3 => Some(ContextType::Product),
            _ => None,
        }
    }

    fn code(&self) -> (code: i32) {
        match self {
            ContextType::Content => 1,
            ContextType::Social => 2,
            ContextType::Product => 3,
        }
    }

    fn from_code(code: i32) -> (member: Option<ContextType>) {
        match code {
            1 => Some(ContextType::Content),
            2 => Some(ContextType::Social),
            3 => Some(ContextType::Product),
            _ => None,
        }
    }

    proof fn lemma_deep_view(self) {
    }

    proof fn lemma_code_round_trip(self) {
    }

    proof fn lemma_from_code_sound(code: i32) {
    }
}

/// A finer context in which a native ad appears. A subtype belongs to the
/// context type with which its code begins.
#[derive(Clone, Copy, Debug, PartialEq, Eq, Hash, PartialOrd, Ord, Structural)]
pub enum ContextSubtype {
    ContentGeneralOrMixed,
    ContentArticle,
    ContentVideo,
    ContentAudio,
    ContentImage,
    ContentUserGenerated,
    SocialGeneral,
    SocialEmail,
    SocialChatIm,
    ProductSelling,
    ProductMarketplace,
    ProductReview,
}

impl ContextSubtype {
    /// The display name of each member, as the protocol publishes it.
    pub open spec fn name_spec(self) -> Seq<char> {
        match self {
            ContextSubtype::ContentGeneralOrMixed => "CONTENT_GENERAL_OR_MIXED"@,
            ContextSubtype::ContentArticle => "CONTENT_ARTICLE"@,
            ContextSubtype::ContentVideo => "CONTENT_VIDEO"@,
            ContextSubtype::ContentAudio => "CONTENT_AUDIO"@,
            ContextSubtype::ContentImage => "CONTENT_IMAGE"@,
            ContextSubtype::ContentUserGenerated => "CONTENT_USER_GENERATED"@,
            ContextSubtype::SocialGeneral => "SOCIAL_GENERAL"@,
            ContextSubtype::SocialEmail => "SOCIAL_EMAIL"@,
            ContextSubtype::SocialChatIm => "SOCIAL_CHAT_IM"@,
            ContextSubtype::ProductSelling => "PRODUCT_SELLING"@,
            ContextSubtype::ProductMarketplace => "PRODUCT_MARKETPLACE"@,
            ContextSubtype::ProductReview => "PRODUCT_REVIEW"@,
        }
    }

    /// The display name of this member. It is meant for logs and diagnostics and
    /// never travels on the wire.
    pub fn as_str_name(&self) -> (name: &'static str)
        ensures
            name@ == self.name_spec(),
    {
        match self {
            ContextSubtype::ContentGeneralOrMixed => "CONTENT_GENERAL_OR_MIXED",
            ContextSubtype::ContentArticle => "CONTENT_ARTICLE",
            ContextSubtype::ContentVideo => "CONTENT_VIDEO",
            ContextSubtype::ContentAudio => "CONTENT_AUDIO",
            ContextSubtype::ContentImage => "CONTENT_IMAGE",
            ContextSubtype::ContentUserGenerated => "CONTENT_USER_GENERATED",
            ContextSubtype::SocialGeneral => "SOCIAL_GENERAL",
            ContextSubtype::SocialEmail => "SOCIAL_EMAIL",
            ContextSubtype::SocialChatIm => "SOCIAL_CHAT_IM",
            ContextSubtype::ProductSelling => "PRODUCT_SELLING",
            ContextSubtype::ProductMarketplace => "PRODUCT_MARKETPLACE",
            ContextSubtype::ProductReview => "PRODUCT_REVIEW",
        }
    }
}

impl DeepView for ContextSubtype {
    type V = ContextSubtype;

    open spec fn deep_view(&self) -> ContextSubtype {
        *self
    }
}

impl Vocabulary for ContextSubtype {
    open spec fn code_spec(self) -> int {
        match self {
            ContextSubtype::ContentGeneralOrMixed => 10,
            ContextSubtype::ContentArticle => 11,
            ContextSubtype::ContentVideo => 12,
            ContextSubtype::ContentAudio => 13,
            ContextSubtype::ContentImage => 14,
            ContextSubtype::ContentUserGenerated => 15,
            ContextSubtype::SocialGeneral => 20,
            ContextSubtype::SocialEmail => 21,
            ContextSubtype::SocialChatIm => 22,
            ContextSubtype::ProductSelling => 30,
            ContextSubtype::ProductMarketplace => 31,
            ContextSubtype::ProductReview => 32,
        }
    }

    open spec fn from_code_spec(code: i32) -> Option<ContextSubtype> {
        match code {
            10 => Some(ContextSubtype::ContentGeneralOrMixed),
            11 => Some(ContextSubtype::ContentArticle),
            12 => Some(ContextSubtype::ContentVideo),
            13 => Some(ContextSubtype::ContentAudio),
            14 => Some(ContextSubtype::ContentImage),
            15 => Some(ContextSubtype::ContentUserGenerated),
            20 => Some(ContextSubtype::SocialGeneral),
            21 => Some(ContextSubtype::SocialEmail),
            22 => Some(ContextSubtype::SocialChatIm),
            30 => Some(ContextSubtype::ProductSelling),
            31 => Some(ContextSubtype::ProductMarketplace),
            32 => Some(ContextSubtype::ProductReview),
            _ => None,
        }
    }

    fn code(&self) -> (code: i32) {
        match self {
            ContextSubtype::ContentGeneralOrMixed => 10,
            ContextSubtype::ContentArticle => 11,
            ContextSubtype::ContentVideo => 12,
            ContextSubtype::ContentAudio => 13,
            ContextSubtype::ContentImage => 14,
            ContextSubtype::ContentUserGenerated => 15,
            ContextSubtype::SocialGeneral => 20,
            ContextSubtype::SocialEmail => 21,
            ContextSubtype::SocialChatIm => 22,
            ContextSubtype::ProductSelling => 30,
            ContextSubtype::ProductMarketplace => 31,
            ContextSubtype::ProductReview => 32,
        }
    }

    fn from_code(code: i32) -> (member: Option<ContextSubtype>) {
        match code {
            10 => Some(ContextSubtype::ContentGeneralOrMixed),
            11 => Some(ContextSubtype::ContentArticle),
            12 => Some(ContextSubtype::ContentVideo),
            13 => Some(ContextSubtype::ContentAudio),
            14 => Some(ContextSubtype::ContentImage),
            15 => Some(ContextSubtype::ContentUserGenerated),
            20 => Some(ContextSubtype::SocialGeneral),
            21 => Some(ContextSubtype::SocialEmail),
            22 => Some(ContextSubtype::SocialChatIm),
            30 => Some(ContextSubtype::ProductSelling),
            31 => Some(ContextSubtype::ProductMarketplace),
            32 => Some(ContextSubtype::ProductReview),
            _ => None,
        }
    }

    proof fn lemma_deep_view(self) {
    }

    proof fn lemma_code_round_trip(self) {
    }

    proof fn lemma_from_code_sound(code: i32) {
    }
}

/// The format of a native ad placement, apart from its context.
#[derive(Clone, Copy, Debug, PartialEq, Eq, Hash, PartialOrd, Ord, Structural)]
pub enum PlacementType {
    /// In the feed of content - for example as an item inside the organic
    /// feed/grid/listing/carousel.
    InFeed,
    /// In the atomic unit of the content - IE in the article page or single image page.
    AtomicUnit,
    /// Outside the core content - for example in the ads section on the right rail, as a
    /// banner-style placement near the content, etc.
    Outside,
    /// Recommendation widget, most commonly presented below the article content.
    Recommendation,
}

impl PlacementType {
    /// The display name of each member, as the protocol publishes it.
    pub open spec fn name_spec(self) -> Seq<char> {
        match self {
            PlacementType::InFeed => "IN_FEED"@,
            PlacementType::AtomicUnit => "ATOMIC_UNIT"@,
            PlacementType::Outside => "OUTSIDE"@,
            PlacementType::Recommendation => "RECOMMENDATION"@,
        }
    }

    /// The display name of this member. It is meant for logs and diagnostics and
    /// never travels on the wire.
    pub fn as_str_name(&self) -> (name: &'static str)
        ensures
            name@ == self.name_spec(),
    {
        match self {
            PlacementType::InFeed => "IN_FEED",
            PlacementType::AtomicUnit => "ATOMIC_UNIT",
            PlacementType::Outside => "OUTSIDE",
            PlacementType::Recommendation => "RECOMMENDATION",
        }
    }
}

impl DeepView for PlacementType {
    type V = PlacementType;

    open spec fn deep_view(&self) -> PlacementType {
        *self
    }
}

impl Vocabulary for PlacementType {
    open spec fn code_spec(self) -> int {
        match self {
            PlacementType::InFeed => 1,
            PlacementType::AtomicUnit => 2,
            PlacementType::Outside => 3,
            PlacementType::Recommendation => 4,
        }
    }

    open spec fn from_code_spec(code: i32) -> Option<PlacementType> {
        match code {
            1 => Some(PlacementType::InFeed),
            2 => Some(PlacementType::AtomicUnit),
            3 => Some(PlacementType::Outside),
            4 => Some(PlacementType::Recommendation),
            _ => None,
        }
    }

    fn code(&self) -> (code: i32) {
        match self {
            PlacementType::InFeed => 1,
            PlacementType::AtomicUnit => 2,
            PlacementType::Outside => 3,
            PlacementType::Recommendation => 4,
        }
    }

    fn from_code(code: i32) -> (member: Option<PlacementType>) {
        match code {
            1 => Some(PlacementType::InFeed),
            2 => Some(PlacementType::AtomicUnit),
            3 => Some(PlacementType::Outside),
            4 => Some(PlacementType::Recommendation),
            _ => None,
        }
    }

    proof fn lemma_deep_view(self) {
    }

    proof fn lemma_code_round_trip(self) {
    }

    proof fn lemma_from_code_sound(code: i32) {
    }
}

/// The common kinds of data asset in a native ad.
#[derive(Clone, Copy, Debug, PartialEq, Eq, Hash, PartialOrd, Ord, Structural)]
pub enum DataAssetType {
    /// Sponsored By message where response should contain the brand name of the sponsor.
    /// Format: Text; Max length: 25 or longer.
    Sponsored,
    /// Descriptive text associated with the product or service being advertised. Format:
    /// Text; Max length: 140 or longer.
    Desc,
    /// Rating of the product being offered to the user. For example an app's rating in an
    /// app store from 0-5.
    Rating,
    /// Number of social ratings or "likes" of product being offered to the user. Format:
    /// Number formatted as string.
    Likes,
    /// Number downloads/installs of this product. Format: Number formatted as string.
    Downloads,
    /// Price for product / app / in-app purchase. Value should include currency symbol in
    /// localised format.
    Price,
    /// Sale price that can be used together with price to indicate a discounted price
    /// compared to a regular price. Value should include currency symbol in localised
    /// format.
    Saleprice,
    /// Phone number. Format: Formatted string.
    Phone,
    /// Address. Format: Text.
    Address,
    /// Additional descriptive text associated with the product or service being advertised.
    /// Format: Text.
    Desc2,
    /// Display URL for the text ad. Format: Text.
    Displayurl,
    /// Text describing a 'call to action' button for the destination URL. Format: Text.
    Ctatext,
}

impl DataAssetType {
    /// The display name of each member, as the protocol publishes it.
    pub open spec fn name_spec(self) -> Seq<char> {
        match self {
            DataAssetType::Sponsored => "SPONSORED"@,
            DataAssetType::Desc => "DESC"@,
            DataAssetType::Rating => "RATING"@,
            DataAssetType::Likes => "LIKES"@,
            DataAssetType::Downloads => "DOWNLOADS"@,
            DataAssetType::Price => "PRICE"@,
            DataAssetType::Saleprice => "SALEPRICE"@,
            DataAssetType::Phone => "PHONE"@,
            DataAssetType::Address => "ADDRESS"@,
            DataAssetType::Desc2 => "DESC2"@,
            DataAssetType::Displayurl => "DISPLAYURL"@,
            DataAssetType::Ctatext => "CTATEXT"@,
        }
    }

    /// The display name of this member. It is meant for logs and diagnostics and
    /// never travels on the wire.
    pub fn as_str_name(&self) -> (name: &'static str)
        ensures
            name@ == self.name_spec(),
    {
        match self {
            DataAssetType::Sponsored => "SPONSORED",
            DataAssetType::Desc => "DESC",
            DataAssetType::Rating => "RATING",
            DataAssetType::Likes => "LIKES",
            DataAssetType::Downloads => "DOWNLOADS",
            DataAssetType::Price => "PRICE",
            DataAssetType::Saleprice => "SALEPRICE",
            DataAssetType::Phone => "PHONE",
            DataAssetType::Address => "ADDRESS",
            DataAssetType::Desc2 => "DESC2",
            DataAssetType::Displayurl => "DISPLAYURL",
            DataAssetType::Ctatext => "CTATEXT",
        }
    }
}

impl DeepView for DataAssetType {
    type V = DataAssetType;

    open spec fn deep_view(&self) -> DataAssetType {
        *self
    }
}

impl Vocabulary for DataAssetType {
    open spec fn code_spec(self) -> int {
        match self {
            DataAssetType::Sponsored => 1,
            DataAssetType::Desc => 2,
            DataAssetType::Rating => 3,
            DataAssetType::Likes => 4,
            DataAssetType::Downloads => 5,
            DataAssetType::Price => 6,
            DataAssetType::Saleprice => 7,
            DataAssetType::Phone => 8,
            DataAssetType::Address => 9,
            DataAssetType::Desc2 => 10,
            DataAssetType::Displayurl => 11,
            DataAssetType::Ctatext => 12,
        }
    }

    open spec fn from_code_spec(code: i32) -> Option<DataAssetType> {
        match code {
            1 => Some(DataAssetType::Sponsored),
            2 => Some(DataAssetType::Desc),
            3 => Some(DataAssetType::Rating),
            4 => Some(DataAssetType::Likes),
            5 => Some(DataAssetType::Downloads),
            6 => Some(DataAssetType::Price),
            7 => Some(DataAssetType::Saleprice),
            8 => Some(DataAssetType::Phone),
            9 => Some(DataAssetType::Address),
            10 => Some(DataAssetType::Desc2),
            11 => Some(DataAssetType::Displayurl),
            12 => Some(DataAssetType::Ctatext),
            _ => None,
        }
    }

    fn code(&self) -> (code: i32) {
        match self {
            DataAssetType::Sponsored => 1,
            DataAssetType::Desc => 2,
            DataAssetType::Rating => 3,
            DataAssetType::Likes => 4,
            DataAssetType::Downloads => 5,
            DataAssetType::Price => 6,
            DataAssetType::Saleprice => 7,
            DataAssetType::Phone => 8,
            DataAssetType::Address => 9,
            DataAssetType::Desc2 => 10,
            DataAssetType::Displayurl => 11,
            DataAssetType::Ctatext => 12,
        }
    }

    fn from_code(code: i32) -> (member: Option<DataAssetType>) {
        match code {
            1 => Some(DataAssetType::Sponsored),
            2 => Some(DataAssetType::Desc),
            3 => Some(DataAssetType::Rating),
            4 => Some(DataAssetType::Likes),
            5 => Some(DataAssetType::Downloads),
            6 => Some(DataAssetType::Price),
            7 => Some(DataAssetType::Saleprice),
            8 => Some(DataAssetType::Phone),
            9 => Some(DataAssetType::Address),
            10 => Some(DataAssetType::Desc2),
            11 => Some(DataAssetType::Displayurl),
            12 => Some(DataAssetType::Ctatext),
            _ => None,
        }
    }

    proof fn lemma_deep_view(self) {
    }

    proof fn lemma_code_round_trip(self) {
    }

    proof fn lemma_from_code_sound(code: i32) {
    }
}

/// The common kinds of image asset in a native ad.
#[derive(Clone, Copy, Debug, PartialEq, Eq, Hash, PartialOrd, Ord, Structural)]
pub enum ImageAssetType {
    /// Icon image. Max height: at least 50; Aspect ratio: 1:1.
    Icon,
    /// Logo image for the brand or app. Deprecated in OpenRTB Native 1.2; prefer `Icon`.
    Logo,
    /// Large image preview for the ad.
    Main,
}

impl ImageAssetType {
    /// The display name of each member, as the protocol publishes it.
    pub open spec fn name_spec(self) -> Seq<char> {
        match self {
            ImageAssetType::Icon => "ICON"@,
            ImageAssetType::Logo => "LOGO"@,
            ImageAssetType::Main => "MAIN"@,
        }
    }

    /// The display name of this member. It is meant for logs and diagnostics and
    /// never travels on the wire.
    pub fn as_str_name(&self) -> (name: &'static str)
        ensures
            name@ == self.name_spec(),
    {
        match self {
            ImageAssetType::Icon => "ICON",
            ImageAssetType::Logo => "LOGO",
            ImageAssetType::Main => "MAIN",
        }
    }
}

impl DeepView for ImageAssetType {
    type V = ImageAssetType;

    open spec fn deep_view(&self) -> ImageAssetType {
        *self
    }
}

impl Vocabulary for ImageAssetType {
    open spec fn code_spec(self) -> int {
        match self {
            ImageAssetType::Icon => 1,
            ImageAssetType::Logo => 2,
            ImageAssetType::Main => 3,
        }
    }

    open spec fn from_code_spec(code: i32) -> Option<ImageAssetType> {
        match code {
            1 => Some(ImageAssetType::Icon),
            2 => Some(ImageAssetType::Logo),
            3 => Some(ImageAssetType::Main),
            _ => None,
        }
    }

    fn code(&self) -> (code: i32) {
        match self {
            ImageAssetType::Icon => 1,
            ImageAssetType::Logo => 2,
            ImageAssetType::Main => 3,
        }
    }

    fn from_code(code: i32) -> (member: Option<ImageAssetType>) {
        match code {
            1 => Some(ImageAssetType::Icon),
            2 => Some(ImageAssetType::Logo),
            3 => Some(ImageAssetType::Main),
            _ => None,
        }
    }

    proof fn lemma_deep_view(self) {
    }

    proof fn lemma_code_round_trip(self) {
    }

    proof fn lemma_from_code_sound(code: i32) {
    }
}

/// The events that a native ad can track.
#[derive(Clone, Copy, Debug, PartialEq, Eq, Hash, PartialOrd, Ord, Structural)]
pub enum EventType {
    /// Impression.
    Impression,
    /// Visible impression using MRC definition at 50% in view for 1 second.
    ViewableMrc50,
    /// 100% in view for 1 second (ie GroupM standard).
    ViewableMrc100,
    /// Visible impression for video using MRC definition at 50% in view for 2 seconds.
    ViewableVideo50,
}

impl EventType {
    /// The display name of each member, as the protocol publishes it.
    pub open spec fn name_spec(self) -> Seq<char> {
        match self {
            EventType::Impression => "IMPRESSION"@,
            EventType::ViewableMrc50 => "VIEWABLE_MRC_50"@,
            EventType::ViewableMrc100 => "VIEWABLE_MRC_100"@,
            EventType::ViewableVideo50 => "VIEWABLE_VIDEO_50"@,
        }
    }

    /// The display name of this member. It is meant for logs and diagnostics and
    /// never travels on the wire.
    pub fn as_str_name(&self) -> (name: &'static str)
        ensures
            name@ == self.name_spec(),
    {
        match self {
            EventType::Impression => "IMPRESSION",
            EventType::ViewableMrc50 => "VIEWABLE_MRC_50",
            EventType::ViewableMrc100 => "VIEWABLE_MRC_100",
            EventType::ViewableVideo50 => "VIEWABLE_VIDEO_50",
        }
    }
}

impl DeepView for EventType {
    type V = EventType;

    open spec fn deep_view(&self) -> EventType {
        *self
    }
}

impl Vocabulary for EventType {
    open spec fn code_spec(self) -> int {
        match self {
            EventType::Impression => 1,
            EventType::ViewableMrc50 => 2,
            EventType::ViewableMrc100 => 3,
            EventType::ViewableVideo50 => 4,
        }
    }

    open spec fn from_code_spec(code: i32) -> Option<EventType> {
        match code {
            1 => Some(EventType::Impression),
            2 => Some(EventType::ViewableMrc50),
            3 => Some(EventType::ViewableMrc100),
            4 => Some(EventType::ViewableVideo50),
            _ => None,
        }
    }

    fn code(&self) -> (code: i32) {
        match self {
            EventType::Impression => 1,
            EventType::ViewableMrc50 => 2,
            EventType::ViewableMrc100 => 3,
            EventType::ViewableVideo50 => 4,
        }
    }

    fn from_code(code: i32) -> (member: Option<EventType>) {
        match code {
            1 => Some(EventType::Impression),
            2 => Some(EventType::ViewableMrc50),
            3 => Some(EventType::ViewableMrc100),
            4 => Some(EventType::ViewableVideo50),
            _ => None,
        }
    }

    proof fn lemma_deep_view(self) {
    }

    proof fn lemma_code_round_trip(self) {
    }

    proof fn lemma_from_code_sound(code: i32) {
    }
}

/// The ways in which a native ad event is tracked.
#[derive(Clone, Copy, Debug, PartialEq, Eq, Hash, PartialOrd, Ord, Structural)]
pub enum EventTrackingMethod {
    /// Image-pixel tracking - URL provided will be insterted as a 1x1 pixel at the time of
    /// the event.
    Img,
    /// Javascript-based tracking - URL provided will be insterted as a js tag at the time
    /// of the event.
    Js,
}

impl EventTrackingMethod {
    /// The display name of each member, as the protocol publishes it.
    pub open spec fn name_spec(self) -> Seq<char> {
        match self {
            EventTrackingMethod::Img => "IMG"@,
            EventTrackingMethod::Js => "JS"@,
        }
    }

    /// The display name of this member. It is meant for logs and diagnostics and
    /// never travels on the wire.
    pub fn as_str_name(&self) -> (name: &'static str)
        ensures
            name@ == self.name_spec(),
    {
        match self {
            EventTrackingMethod::Img => "IMG",
            EventTrackingMethod::Js => "JS",
        }
    }
}

impl DeepView for EventTrackingMethod {
    type V = EventTrackingMethod;

    open spec fn deep_view(&self) -> EventTrackingMethod {
        *self
    }
}

impl Vocabulary for EventTrackingMethod {
    open spec fn code_spec(self) -> int {
        match self {
            EventTrackingMethod::Img => 1,
            EventTrackingMethod::Js => 2,
        }
    }

    open spec fn from_code_spec(code: i32) -> Option<EventTrackingMethod> {
        match code {
            1 => Some(EventTrackingMethod::Img),
            2 => Some(EventTrackingMethod::Js),
            _ => None,
        }
    }

    fn code(&self) -> (code: i32) {
        match self {
            EventTrackingMethod::Img => 1,
            EventTrackingMethod::Js => 2,
        }
    }

    fn from_code(code: i32) -> (member: Option<EventTrackingMethod>) {
        match code {
            1 => Some(EventTrackingMethod::Img),
            2 => Some(EventTrackingMethod::Js),
            _ => None,
        }
    }

    proof fn lemma_deep_view(self) {
    }

    proof fn lemma_code_round_trip(self) {
    }

    proof fn lemma_from_code_sound(code: i32) {
    }
}

} // verus!
