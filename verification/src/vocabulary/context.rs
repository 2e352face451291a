//! Vocabularies that describe content, devices and locations.

use crate::vocabulary::Vocabulary;
use vstd::prelude::*;

verus! {

/// The kind of content in which an impression appears.
#[derive(Clone, Copy, Debug, PartialEq, Eq, Hash, PartialOrd, Ord, Structural)]
pub enum ContentContext {
    Video,
    Game,
    Music,
    Application,
    Text,
    Other,
    ContextUnknown,
}

impl ContentContext {
    /// The display name of each member, as the protocol publishes it.
    pub open spec fn name_spec(self) -> Seq<char> {
        match self {
            ContentContext::Video => "VIDEO"@,
            ContentContext::Game => "GAME"@,
            ContentContext::Music => "MUSIC"@,
            ContentContext::Application => "APPLICATION"@,
            ContentContext::Text => "TEXT"@,
            ContentContext::Other => "OTHER"@,
            ContentContext::ContextUnknown => "CONTEXT_UNKNOWN"@,
        }
    }

    /// The display name of this member. It is meant for logs and diagnostics and
    /// never travels on the wire.
    pub fn as_str_name(&self) -> (name: &'static str)
        ensures
            name@ == self.name_spec(),
    {
        match self {
            ContentContext::Video => "VIDEO",
            ContentContext::Game => "GAME",
            ContentContext::Music => "MUSIC",
            ContentContext::Application => "APPLICATION",
            ContentContext::Text => "TEXT",
            ContentContext::Other => "OTHER",
            ContentContext::ContextUnknown => "CONTEXT_UNKNOWN",
        }
    }
}

impl DeepView for ContentContext {
    type V = ContentContext;

    open spec fn deep_view(&self) -> ContentContext {
        *self
    }
}

impl Vocabulary for ContentContext {
    open spec fn code_spec(self) -> int {
        match self {
            ContentContext::Video => 1,
            ContentContext::Game => 2,
            ContentContext::Music => 3,
            ContentContext::Application => 4,
            ContentContext::Text => 5,
            ContentContext::Other => 6,
            ContentContext::ContextUnknown => 7,
        }
    }

    open spec fn from_code_spec(code: i32) -> Option<ContentContext> {
        match code {
            1 => Some(ContentContext::Video),
            2 => Some(ContentContext::Game),
            3 => Some(ContentContext::Music),
            4 => Some(ContentContext::Application),
            5 => Some(ContentContext::Text),
            6 => Some(ContentContext::Other),
            7 => Some(ContentContext::ContextUnknown),
            _ => None,
        }
    }

    fn code(&self) -> (code: i32) {
        match self {
            ContentContext::Video => 1,
            ContentContext::Game => 2,
            ContentContext::Music => 3,
            ContentContext::Application => 4,
            ContentContext::Text => 5,
            ContentContext::Other => 6,
            ContentContext::ContextUnknown => 7,
        }
    }

    fn from_code(code: i32) -> (member: Option<ContentContext>) {
        match code {
            1 => Some(ContentContext::Video),
            2 => Some(ContentContext::Game),
            3 => Some(ContentContext::Music),
            4 => Some(ContentContext::Application),
            5 => Some(ContentContext::Text),
            6 => Some(ContentContext::Other),
            7 => Some(ContentContext::ContextUnknown),
            _ => None,
        }
    }

    proof fn lemma_deep_view(self) {
    }

    proof fn lemma_code_round_trip(self) {
    }

    proof fn lemma_from_code_sound(code: i32) {
    }
}

/// The production quality of content, as the IAB defines it.
#[derive(Clone, Copy, Debug, PartialEq, Eq, Hash, PartialOrd, Ord, Structural)]
pub enum ProductionQuality {
    QualityUnknown,
    Professional,
    Prosumer,
    UserGenerated,
}

impl ProductionQuality {
    /// The display name of each member, as the protocol publishes it.
    pub open spec fn name_spec(self) -> Seq<char> {
        match self {
            ProductionQuality::QualityUnknown => "QUALITY_UNKNOWN"@,
            ProductionQuality::Professional => "PROFESSIONAL"@,
            ProductionQuality::Prosumer => "PROSUMER"@,
            ProductionQuality::UserGenerated => "USER_GENERATED"@,
        }
    }

    /// The display name of this member. It is meant for logs and diagnostics and
    /// never travels on the wire.
    pub fn as_str_name(&self) -> (name: &'static str)
        ensures
            name@ == self.name_spec(),
    {
        match self {
            ProductionQuality::QualityUnknown => "QUALITY_UNKNOWN",
            ProductionQuality::Professional => "PROFESSIONAL",
            ProductionQuality::Prosumer => "PROSUMER",
            ProductionQuality::UserGenerated => "USER_GENERATED",
        }
    }
}

impl DeepView for ProductionQuality {
    type V = ProductionQuality;

    open spec fn deep_view(&self) -> ProductionQuality {
        *self
    }
}

impl Vocabulary for ProductionQuality {
    open spec fn code_spec(self) -> int {
        match self {
            ProductionQuality::QualityUnknown => 0,
            ProductionQuality::Professional => 1,
            ProductionQuality::Prosumer => 2,
            ProductionQuality::UserGenerated => 3,
        }
    }

    open spec fn from_code_spec(code: i32) -> Option<ProductionQuality> {
        match code {
            0 => Some(ProductionQuality::QualityUnknown),
            1 => Some(ProductionQuality::Professional),
            2 => Some(ProductionQuality::Prosumer),
            3 => Some(ProductionQuality::UserGenerated),
            _ => None,
        }
    }

    fn code(&self) -> (code: i32) {
        match self {
            ProductionQuality::QualityUnknown => 0,
            ProductionQuality::Professional => 1,
            ProductionQuality::Prosumer => 2,
            ProductionQuality::UserGenerated => 3,
        }
    }

    fn from_code(code: i32) -> (member: Option<ProductionQuality>) {
        match code {
            0 => Some(ProductionQuality::QualityUnknown),
            1 => Some(ProductionQuality::Professional),
            2 => Some(ProductionQuality::Prosumer),
            3 => Some(ProductionQuality::UserGenerated),
            _ => None,
        }
    }

    proof fn lemma_deep_view(self) {
    }

    proof fn lemma_code_round_trip(self) {
    }

    proof fn lemma_from_code_sound(code: i32) {
    }
}

/// Media ratings of content, after the IAB Quality Assurance Guidelines.
#[derive(Clone, Copy, Debug, PartialEq, Eq, Hash, PartialOrd, Ord, Structural)]
pub enum QagMediaRating {
    AllAudiences,
    EveryoneOver12,
    Mature,
}

impl QagMediaRating {
    /// The display name of each member, as the protocol publishes it.
    pub open spec fn name_spec(self) -> Seq<char> {
        match self {
            QagMediaRating::AllAudiences => "ALL_AUDIENCES"@,
            QagMediaRating::EveryoneOver12 => "EVERYONE_OVER_12"@,
            QagMediaRating::Mature => "MATURE"@,
        }
    }

    /// The display name of this member. It is meant for logs and diagnostics and
    /// never travels on the wire.
    pub fn as_str_name(&self) -> (name: &'static str)
        ensures
            name@ == self.name_spec(),
    {
        match self {
            QagMediaRating::AllAudiences => "ALL_AUDIENCES",
            QagMediaRating::EveryoneOver12 => "EVERYONE_OVER_12",
            QagMediaRating::Mature => "MATURE",
        }
    }
}

impl DeepView for QagMediaRating {
    type V = QagMediaRating;

    open spec fn deep_view(&self) -> QagMediaRating {
        *self
    }
}

impl Vocabulary for QagMediaRating {
    open spec fn code_spec(self) -> int {
        match self {
            QagMediaRating::AllAudiences => 1,
            QagMediaRating::EveryoneOver12 => 2,
            QagMediaRating::Mature => 3,
        }
    }

    open spec fn from_code_spec(code: i32) -> Option<QagMediaRating> {
        match code {
            1 => Some(QagMediaRating::AllAudiences),
            2 => Some(QagMediaRating::EveryoneOver12),
            3 => Some(QagMediaRating::Mature),
            _ => None,
        }
    }

    fn code(&self) -> (code: i32) {
        match self {
            QagMediaRating::AllAudiences => 1,
            QagMediaRating::EveryoneOver12 => 2,
            QagMediaRating::Mature => 3,
        }
    }

    fn from_code(code: i32) -> (member: Option<QagMediaRating>) {
        match code {
            1 => Some(QagMediaRating::AllAudiences),
            2 => Some(QagMediaRating::EveryoneOver12),
            3 => Some(QagMediaRating::Mature),
            _ => None,
        }
    }

    proof fn lemma_deep_view(self) {
    }

    proof fn lemma_code_round_trip(self) {
    }

    proof fn lemma_from_code_sound(code: i32) {
    }
}

/// How a device is connected to the network.
#[derive(Clone, Copy, Debug, PartialEq, Eq, Hash, PartialOrd, Ord, Structural)]
pub enum ConnectionType {
    ConnectionUnknown,
    Ethernet,
    Wifi,
    CellUnknown,
    Cell2g,
    Cell3g,
    Cell4g,
}

impl ConnectionType {
    /// The display name of each member, as the protocol publishes it.
    pub open spec fn name_spec(self) -> Seq<char> {
        match self {
            ConnectionType::ConnectionUnknown => "CONNECTION_UNKNOWN"@,
            ConnectionType::Ethernet => "ETHERNET"@,
            ConnectionType::Wifi => "WIFI"@,
            ConnectionType::CellUnknown => "CELL_UNKNOWN"@,
            ConnectionType::Cell2g => "CELL_2G"@,
            ConnectionType::Cell3g => "CELL_3G"@,
            ConnectionType::Cell4g => "CELL_4G"@,
        }
    }

    /// The display name of this member. It is meant for logs and diagnostics and
    /// never travels on the wire.
    pub fn as_str_name(&self) -> (name: &'static str)
        ensures
            name@ == self.name_spec(),
    {
        match self {
            ConnectionType::ConnectionUnknown => "CONNECTION_UNKNOWN",
            ConnectionType::Ethernet => "ETHERNET",
            ConnectionType::Wifi => "WIFI",
            ConnectionType::CellUnknown => "CELL_UNKNOWN",
            ConnectionType::Cell2g => "CELL_2G",
            ConnectionType::Cell3g => "CELL_3G",
            ConnectionType::Cell4g => "CELL_4G",
        }
    }
}

impl DeepView for ConnectionType {
    type V = ConnectionType;

    open spec fn deep_view(&self) -> ConnectionType {
        *self
    }
}

impl Vocabulary for ConnectionType {
    open spec fn code_spec(self) -> int {
        match self {
            ConnectionType::ConnectionUnknown => 0,
            ConnectionType::Ethernet => 1,
            ConnectionType::Wifi => 2,
            ConnectionType::CellUnknown => 3,
            ConnectionType::Cell2g => 4,
            ConnectionType::Cell3g => 5,
            ConnectionType::Cell4g => 6,
        }
    }

    open spec fn from_code_spec(code: i32) -> Option<ConnectionType> {
        match code {
            0 => Some(ConnectionType::ConnectionUnknown),
            1 => Some(ConnectionType::Ethernet),
            2 => Some(ConnectionType::Wifi),
            3 => Some(ConnectionType::CellUnknown),
            4 => Some(ConnectionType::Cell2g),
            5 => Some(ConnectionType::Cell3g),
            6 => Some(ConnectionType::Cell4g),
            _ => None,
        }
    }

    fn code(&self) -> (code: i32) {
        match self {
            ConnectionType::ConnectionUnknown => 0,
            ConnectionType::Ethernet => 1,
            ConnectionType::Wifi => 2,
            ConnectionType::CellUnknown => 3,
            ConnectionType::Cell2g => 4,
            ConnectionType::Cell3g => 5,
            ConnectionType::Cell4g => 6,
        }
    }

    fn from_code(code: i32) -> (member: Option<ConnectionType>) {
        match code {
            0 => Some(ConnectionType::ConnectionUnknown),
            1 => Some(ConnectionType::Ethernet),
            2 => Some(ConnectionType::Wifi),
            3 => Some(ConnectionType::CellUnknown),
            4 => Some(ConnectionType::Cell2g),
            5 => Some(ConnectionType::Cell3g),
            6 => Some(ConnectionType::Cell4g),
            _ => None,
        }
    }

    proof fn lemma_deep_view(self) {
    }

    proof fn lemma_code_round_trip(self) {
    }

    proof fn lemma_from_code_sound(code: i32) {
    }
}

/// How a geographic location was determined.
#[derive(Clone, Copy, Debug, PartialEq, Eq, Hash, PartialOrd, Ord, Structural)]
pub enum LocationType {
    /// GPS / Location Services.
    GpsLocation,
    /// IP Geolocation.
    Ip,
    /// User-provided, e.g. registration data.
    UserProvided,
}

impl LocationType {
    /// The display name of each member, as the protocol publishes it.
    pub open spec fn name_spec(self) -> Seq<char> {
        match self {
            LocationType::GpsLocation => "GPS_LOCATION"@,
            LocationType::Ip => "IP"@,
            LocationType::UserProvided => "USER_PROVIDED"@,
        }
    }

    /// The display name of this member. It is meant for logs and diagnostics and
    /// never travels on the wire.
    pub fn as_str_name(&self) -> (name: &'static str)
        ensures
            name@ == self.name_spec(),
    {
        match self {
            LocationType::GpsLocation => "GPS_LOCATION",
            LocationType::Ip => "IP",
            LocationType::UserProvided => "USER_PROVIDED",
        }
    }
}

impl DeepView for LocationType {
    type V = LocationType;

    open spec fn deep_view(&self) -> LocationType {
        *self
    }
}

impl Vocabulary for LocationType {
    open spec fn code_spec(self) -> int {
        match self {
            LocationType::GpsLocation => 1,
            LocationType::Ip => 2,
            LocationType::UserProvided => 3,
        }
    }

    open spec fn from_code_spec(code: i32) -> Option<LocationType> {
        match code {
            1 => Some(LocationType::GpsLocation),
            2 => Some(LocationType::Ip),
            3 => Some(LocationType::UserProvided),
            _ => None,
        }
    }

    fn code(&self) -> (code: i32) {
        match self {
            LocationType::GpsLocation => 1,
            LocationType::Ip => 2,
            LocationType::UserProvided => 3,
        }
    }

    fn from_code(code: i32) -> (member: Option<LocationType>) {
        match code {
            1 => Some(LocationType::GpsLocation),
            2 => Some(LocationType::Ip),
            3 => Some(LocationType::UserProvided),
            _ => None,
        }
    }

    proof fn lemma_deep_view(self) {
    }

    proof fn lemma_code_round_trip(self) {
    }

    proof fn lemma_from_code_sound(code: i32) {
    }
}

/// The service that resolved an IP address to a location.
#[derive(Clone, Copy, Debug, PartialEq, Eq, Hash, PartialOrd, Ord, Structural)]
pub enum LocationService {
    Ip2location,
    Neustar,
    Maxmind,
    Netacuity,
}

impl LocationService {
    /// The display name of each member, as the protocol publishes it.
    pub open spec fn name_spec(self) -> Seq<char> {
        match self {
            LocationService::Ip2location => "IP2LOCATION"@,
            LocationService::Neustar => "NEUSTAR"@,
            LocationService::Maxmind => "MAXMIND"@,
            LocationService::Netacuity => "NETACUITY"@,
        }
    }

    /// The display name of this member. It is meant for logs and diagnostics and
    /// never travels on the wire.
    pub fn as_str_name(&self) -> (name: &'static str)
        ensures
            name@ == self.name_spec(),
    {
        match self {
            LocationService::Ip2location => "IP2LOCATION",
            LocationService::Neustar => "NEUSTAR",
            LocationService::Maxmind => "MAXMIND",
            LocationService::Netacuity => "NETACUITY",
        }
    }
}

impl DeepView for LocationService {
    type V = LocationService;

    open spec fn deep_view(&self) -> LocationService {
        *self
    }
}

impl Vocabulary for LocationService {
    open spec fn code_spec(self) -> int {
        match self {
            LocationService::Ip2location => 1,
            LocationService::Neustar => 2,
            LocationService::Maxmind => 3,
            LocationService::Netacuity => 4,
        }
    }

    open spec fn from_code_spec(code: i32) -> Option<LocationService> {
        match code {
            1 => Some(LocationService::Ip2location),
            2 => Some(LocationService::Neustar),
            3 => Some(LocationService::Maxmind),
            4 => Some(LocationService::Netacuity),
            _ => None,
        }
    }

    fn code(&self) -> (code: i32) {
        match self {
            LocationService::Ip2location => 1,
            LocationService::Neustar => 2,
            LocationService::Maxmind => 3,
            LocationService::Netacuity => 4,
        }
    }

    fn from_code(code: i32) -> (member: Option<LocationService>) {
        match code {
            1 => Some(LocationService::Ip2location),
            2 => Some(LocationService::Neustar),
            3 => Some(LocationService::Maxmind),
            4 => Some(LocationService::Netacuity),
            _ => None,
        }
    }

    proof fn lemma_deep_view(self) {
    }

    proof fn lemma_code_round_trip(self) {
    }

    proof fn lemma_from_code_sound(code: i32) {
    }
}

/// The general type of device from which an impression comes.
///
/// OpenRTB 2.2 added distinct values for phone and tablet; a bidder should treat
/// `Mobile` as an alias of both.
#[derive(Clone, Copy, Debug, PartialEq, Eq, Hash, PartialOrd, Ord, Structural)]
pub enum DeviceType {
    /// Mobile or tablet; since OpenRTB 2.2 an alias for phone or tablet.
    Mobile,
    /// Personal Computer.
    PersonalComputer,
    /// Connected TV.
    ConnectedTv,
    /// Phone.
    HighendPhone,
    /// Tablet.
    Tablet,
    /// Connected device.
    ConnectedDevice,
    /// Set top box.
    SetTopBox,
}

impl DeviceType {
    /// The display name of each member, as the protocol publishes it.
    pub open spec fn name_spec(self) -> Seq<char> {
        match self {
            DeviceType::Mobile => "MOBILE"@,
            DeviceType::PersonalComputer => "PERSONAL_COMPUTER"@,
            DeviceType::ConnectedTv => "CONNECTED_TV"@,
            DeviceType::HighendPhone => "HIGHEND_PHONE"@,
            DeviceType::Tablet => "TABLET"@,
            DeviceType::ConnectedDevice => "CONNECTED_DEVICE"@,
            DeviceType::SetTopBox => "SET_TOP_BOX"@,
        }
    }

    /// The display name of this member. It is meant for logs and diagnostics and
    /// never travels on the wire.
    pub fn as_str_name(&self) -> (name: &'static str)
        ensures
            name@ == self.name_spec(),
    {
        match self {
            DeviceType::Mobile => "MOBILE",
            DeviceType::PersonalComputer => "PERSONAL_COMPUTER",
            DeviceType::ConnectedTv => "CONNECTED_TV",
            DeviceType::HighendPhone => "HIGHEND_PHONE",
            DeviceType::Tablet => "TABLET",
            DeviceType::ConnectedDevice => "CONNECTED_DEVICE",
            DeviceType::SetTopBox => "SET_TOP_BOX",
        }
    }
}

impl DeepView for DeviceType {
    type V = DeviceType;

    open spec fn deep_view(&self) -> DeviceType {
        *self
    }
}

impl Vocabulary for DeviceType {
    open spec fn code_spec(self) -> int {
        match self {
            DeviceType::Mobile => 1,
            DeviceType::PersonalComputer => 2,
            DeviceType::ConnectedTv => 3,
            DeviceType::HighendPhone => 4,
            DeviceType::Tablet => 5,
            DeviceType::ConnectedDevice => 6,
            DeviceType::SetTopBox => 7,
        }
    }

    open spec fn from_code_spec(code: i32) -> Option<DeviceType> {
        match code {
            1 => Some(DeviceType::Mobile),
            2 => Some(DeviceType::PersonalComputer),
            3 => Some(DeviceType::ConnectedTv),
            4 => Some(DeviceType::HighendPhone),
            5 => Some(DeviceType::Tablet),
            6 => Some(DeviceType::ConnectedDevice),
            7 => Some(DeviceType::SetTopBox),
            _ => None,
        }
    }

    fn code(&self) -> (code: i32) {
        match self {
            DeviceType::Mobile => 1,
            DeviceType::PersonalComputer => 2,
            DeviceType::ConnectedTv => 3,
            DeviceType::HighendPhone => 4,
            DeviceType::Tablet => 5,
            DeviceType::ConnectedDevice => 6,
            DeviceType::SetTopBox => 7,
        }
    }

    fn from_code(code: i32) -> (member: Option<DeviceType>) {
        match code {
            1 => Some(DeviceType::Mobile),
            2 => Some(DeviceType::PersonalComputer),
            3 => Some(DeviceType::ConnectedTv),
            4 => Some(DeviceType::HighendPhone),
            5 => Some(DeviceType::Tablet),
            6 => Some(DeviceType::ConnectedDevice),
            7 => Some(DeviceType::SetTopBox),
            _ => None,
        }
    }

    proof fn lemma_deep_view(self) {
    }

    proof fn lemma_code_round_trip(self) {
    }

    proof fn lemma_from_code_sound(code: i32) {
    }
}

} // verus!
