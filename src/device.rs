//! Devices, their products, power and software updates.
use vstd::prelude::*;
use crate::resource::{ResourceIdentifier, ResourceType};

verus! {

#[derive(Clone, Debug, PartialEq)]
pub struct BasicMetadata {
    pub name: Option<String>,
}

#[derive(Clone, Copy, Debug, PartialEq, Eq, Hash, Structural)]
pub enum BasicStatus {
    Active,
    Inactive,
}

#[derive(Clone, Copy, Debug, PartialEq, Eq, Hash, Structural)]
pub enum BatteryState {
    Normal,
    Low,
    Critical,
}

/// Internal representation of a [Device].
#[derive(Clone, Debug, PartialEq)]
pub struct DeviceData {
    /// Unique identifier representing a specific resource instance.
    pub id: String,
    /// Clip v1 resource identifier.
    pub id_v1: Option<String>,
    pub product_data: ProductData,
    /// Additional metadata including a user given name.
    pub metadata: DeviceMetadata,
    pub usertest: Option<UserTest>,
    /// References all services providing control and state of the device.
    pub services: Vec<ResourceIdentifier>,
}

#[derive(Clone, Debug, PartialEq)]
pub struct DeviceMetadata {
    /// Human readable name of a resource.
    pub name: String,
    /// Product archetype.
    pub archetype: ProductArchetype,
}

/// Internal representation of the up-to-dateness of a device's firmware.
#[derive(Clone, Debug, PartialEq)]
pub struct DeviceSoftwareUpdateData {
    /// Unique identifier representing a specific resource instance.
    pub id: String,
    /// Clip v1 resource identifier.
    pub id_v1: Option<String>,
    /// Owner of the service, in case the owner service is deleted, the service also gets deleted.
    pub owner: ResourceIdentifier,
    pub state: SoftwareUpdateStatus,
    pub problems: Vec<String>,
}

/// Known classes of compatible products.
#[derive(Clone, Copy, Debug, PartialEq, Eq, Hash, Structural)]
pub enum ProductArchetype {
    Bollard,
    BridgeV2,
    CandleBulb,
    CeilingHorizontal,
    CeilingRound,
    CeilingSquare,
    CeilingTube,
    ChristmasTree,
    ClassicBulb,
    DoubleSpot,
    EdisonBulb,
    EllipseBulb,
    FlexibleLamp,
    FloodBulb,
    FloorLantern,
    FloorShade,
    GroundSpot,
    HueBloom,
    HueCentris,
    HueGo,
    HueIris,
    HueLightstrip,
    HueLightstripPc,
    HueLightstripTv,
    HuePlay,
    HueSigne,
    HueTube,
    LargeGlobeBulb,
    LusterBulb,
    PendantLong,
    PendantRound,
    PendantSpot,
    Plug,
    RecessedCeiling,
    RecessedFloor,
    SingleSpot,
    SmallGlobeBulb,
    SpotBulb,
    StringLight,
    SultanBulb,
    TableShade,
    TableWash,
    TriangleBulb,
    UnknownArchetype,
    VintageBulb,
    VintageCandleBulb,
    WallLantern,
    WallShade,
    WallSpot,
    WallWasher,
}

#[derive(Clone, Debug, PartialEq)]
pub struct ProductData {
    /// Unique identification of device model.
    pub model_id: String,
    /// Name of device manufacturer.
    pub manufacturer_name: String,
    /// Name of the product.
    pub product_name: String,
    /// Archetype of the product
    pub product_archetype: ProductArchetype,
    /// This device is Hue certified
    pub certified: bool,
    /// Software version of the product
    pub software_version: String,
    /// Hardware type; identified by Manufacturer code and ImageType
    pub hardware_platform_type: Option<String>,
}

#[derive(Clone, Copy, Debug, PartialEq, Eq, Hash, Structural)]
pub enum SetStatus {
    /// The value is applied (wire name `set`).
    Settled,
    Changing,
}

#[derive(Clone, Copy, Debug, PartialEq, Eq, Hash, Structural)]
pub enum SoftwareUpdateStatus {
    NoUpdate,
    UpdatePending,
    Installing,
}

#[derive(Clone, Debug, PartialEq)]
pub struct UserTest {
    pub status: UserTestStatus,
    /// Activates or extends user usertest mode of device for 120 seconds.
    /// `false` deactivates usertest mode. In usertest mode, devices report
    /// changes in state faster and indicate state changes on device LED.
    pub usertest: bool,
}

#[derive(Clone, Copy, Debug, PartialEq, Eq, Hash, Structural)]
pub enum UserTestStatus {
    /// The value is applied (wire name `set`).
    Settled,
    Changing,
}

impl DeviceData {
    /// The identifier of this resource.
    pub fn rid(&self) -> (r: ResourceIdentifier)
        ensures
            r.rid@ == self.id@,
            r.rtype == ResourceType::Device,
    {
        ResourceIdentifier { rid: self.id.clone(), rtype: ResourceType::Device }
    }
}

impl ProductArchetype {
    /// The wire name of this value.
    pub open spec fn spec_tag(&self) -> Seq<char> {
        match self {
            ProductArchetype::Bollard => "bollard"@,
            ProductArchetype::BridgeV2 => "bridge_v2"@,
            ProductArchetype::CandleBulb => "candle_bulb"@,
            ProductArchetype::CeilingHorizontal => "ceiling_horizontal"@,
            ProductArchetype::CeilingRound => "ceiling_round"@,
            ProductArchetype::CeilingSquare => "ceiling_square"@,
            ProductArchetype::CeilingTube => "ceiling_tube"@,
            ProductArchetype::ChristmasTree => "christmas_tree"@,
            ProductArchetype::ClassicBulb => "classic_bulb"@,
            ProductArchetype::DoubleSpot => "double_spot"@,
            ProductArchetype::EdisonBulb => "edison_bulb"@,
            ProductArchetype::EllipseBulb => "ellipse_bulb"@,
            ProductArchetype::FlexibleLamp => "flexible_lamp"@,
            ProductArchetype::FloodBulb => "flood_bulb"@,
            ProductArchetype::FloorLantern => "floor_lantern"@,
            ProductArchetype::FloorShade => "floor_shade"@,
            ProductArchetype::GroundSpot => "ground_spot"@,
            ProductArchetype::HueBloom => "hue_bloom"@,
            ProductArchetype::HueCentris => "hue_centris"@,
            ProductArchetype::HueGo => "hue_go"@,
            ProductArchetype::HueIris => "hue_iris"@,
            ProductArchetype::HueLightstrip => "hue_lightstrip"@,
            ProductArchetype::HueLightstripPc => "hue_lightstrip_pc"@,
            ProductArchetype::HueLightstripTv => "hue_lightstrip_tv"@,
            ProductArchetype::HuePlay => "hue_play"@,
            ProductArchetype::HueSigne => "hue_signe"@,
            ProductArchetype::HueTube => "hue_tube"@,
            ProductArchetype::LargeGlobeBulb => "large_globe_bulb"@,
            ProductArchetype::LusterBulb => "luster_bulb"@,
            ProductArchetype::PendantLong => "pendant_long"@,
            ProductArchetype::PendantRound => "pendant_round"@,
            ProductArchetype::PendantSpot => "pendant_spot"@,
            ProductArchetype::Plug => "plug"@,
            ProductArchetype::RecessedCeiling => "recessed_ceiling"@,
            ProductArchetype::RecessedFloor => "recessed_floor"@,
            ProductArchetype::SingleSpot => "single_spot"@,
            ProductArchetype::SmallGlobeBulb => "small_globe_bulb"@,
            ProductArchetype::SpotBulb => "spot_bulb"@,
            ProductArchetype::StringLight => "string_light"@,
            ProductArchetype::SultanBulb => "sultan_bulb"@,
            ProductArchetype::TableShade => "table_shade"@,
            ProductArchetype::TableWash => "table_wash"@,
            ProductArchetype::TriangleBulb => "triangle_bulb"@,
            ProductArchetype::UnknownArchetype => "unknown_archetype"@,
            ProductArchetype::VintageBulb => "vintage_bulb"@,
            ProductArchetype::VintageCandleBulb => "vintage_candle_bulb"@,
            ProductArchetype::WallLantern => "wall_lantern"@,
            ProductArchetype::WallShade => "wall_shade"@,
            ProductArchetype::WallSpot => "wall_spot"@,
            ProductArchetype::WallWasher => "wall_washer"@,
        }
    }

    /// The wire name of this value.
    pub fn tag(&self) -> (r: &'static str)
        ensures
            r@ == self.spec_tag(),
    {
        match self {
            ProductArchetype::Bollard => "bollard",
            ProductArchetype::BridgeV2 => "bridge_v2",
            ProductArchetype::CandleBulb => "candle_bulb",
            ProductArchetype::CeilingHorizontal => "ceiling_horizontal",
            ProductArchetype::CeilingRound => "ceiling_round",
            ProductArchetype::CeilingSquare => "ceiling_square",
            ProductArchetype::CeilingTube => "ceiling_tube",
            ProductArchetype::ChristmasTree => "christmas_tree",
            ProductArchetype::ClassicBulb => "classic_bulb",
            ProductArchetype::DoubleSpot => "double_spot",
            ProductArchetype::EdisonBulb => "edison_bulb",
            ProductArchetype::EllipseBulb => "ellipse_bulb",
            ProductArchetype::FlexibleLamp => "flexible_lamp",
            ProductArchetype::FloodBulb => "flood_bulb",
            ProductArchetype::FloorLantern => "floor_lantern",
            ProductArchetype::FloorShade => "floor_shade",
            ProductArchetype::GroundSpot => "ground_spot",
            ProductArchetype::HueBloom => "hue_bloom",
            ProductArchetype::HueCentris => "hue_centris",
            ProductArchetype::HueGo => "hue_go",
            ProductArchetype::HueIris => "hue_iris",
            ProductArchetype::HueLightstrip => "hue_lightstrip",
            ProductArchetype::HueLightstripPc => "hue_lightstrip_pc",
            ProductArchetype::HueLightstripTv => "hue_lightstrip_tv",
            ProductArchetype::HuePlay => "hue_play",
            ProductArchetype::HueSigne => "hue_signe",
            ProductArchetype::HueTube => "hue_tube",
            ProductArchetype::LargeGlobeBulb => "large_globe_bulb",
            ProductArchetype::LusterBulb => "luster_bulb",
            ProductArchetype::PendantLong => "pendant_long",
            ProductArchetype::PendantRound => "pendant_round",
            ProductArchetype::PendantSpot => "pendant_spot",
            ProductArchetype::Plug => "plug",
            ProductArchetype::RecessedCeiling => "recessed_ceiling",
            ProductArchetype::RecessedFloor => "recessed_floor",
            ProductArchetype::SingleSpot => "single_spot",
            ProductArchetype::SmallGlobeBulb => "small_globe_bulb",
            ProductArchetype::SpotBulb => "spot_bulb",
            ProductArchetype::StringLight => "string_light",
            ProductArchetype::SultanBulb => "sultan_bulb",
            ProductArchetype::TableShade => "table_shade",
            ProductArchetype::TableWash => "table_wash",
            ProductArchetype::TriangleBulb => "triangle_bulb",
            ProductArchetype::UnknownArchetype => "unknown_archetype",
            ProductArchetype::VintageBulb => "vintage_bulb",
            ProductArchetype::VintageCandleBulb => "vintage_candle_bulb",
            ProductArchetype::WallLantern => "wall_lantern",
            ProductArchetype::WallShade => "wall_shade",
            ProductArchetype::WallSpot => "wall_spot",
            ProductArchetype::WallWasher => "wall_washer",
        }
    }
}

} // verus!
