//! Resource kinds, their wire tags, and (id, kind) identifiers.
use vstd::prelude::*;

verus! {

/// The kinds of resource that a bridge reports.
#[derive(Clone, Copy, Debug, PartialEq, Eq, Hash, Structural)]
pub enum ResourceType {
    AuthV1,
    BehaviorInstance,
    BehaviorScript,
    Bridge,
    BridgeHome,
    Button,
    CameraMotion,
    Contact,
    Device,
    DevicePower,
    DeviceSoftwareUpdate,
    Entertainment,
    EntertainmentConfiguration,
    Geofence,
    GeofenceClient,
    Geolocation,
    Group,
    HomeKit,
    Light,
    LightLevel,
    Matter,
    MatterFabric,
    Motion,
    PublicImage,
    Recipe,
    RelativeRotary,
    Room,
    Scene,
    SmartScene,
    Tamper,
    Taurus7455,
    Temperature,
    ZGPConnectivity,
    ZigbeeBridgeConnectivity,
    ZigbeeConnectivity,
    ZigbeeDeviceDiscovery,
    Zone,
}

/// The tag that names a kind on the wire (the `type` member of a resource).
pub open spec fn tag_of(k: ResourceType) -> Seq<char> {
    match k {
        ResourceType::AuthV1 => "auth_v1"@,
        ResourceType::BehaviorInstance => "behavior_instance"@,
        ResourceType::BehaviorScript => "behavior_script"@,
        ResourceType::Bridge => "bridge"@,
        ResourceType::BridgeHome => "bridge_home"@,
        ResourceType::Button => "button"@,
        ResourceType::CameraMotion => "camera_motion"@,
        ResourceType::Contact => "contact"@,
        ResourceType::Device => "device"@,
        ResourceType::DevicePower => "device_power"@,
        ResourceType::DeviceSoftwareUpdate => "device_software_update"@,
        ResourceType::Entertainment => "entertainment"@,
        ResourceType::EntertainmentConfiguration => "entertainment_configuration"@,
        ResourceType::Geofence => "geofence"@,
        ResourceType::GeofenceClient => "geofence_client"@,
        ResourceType::Geolocation => "geolocation"@,
        ResourceType::Group => "grouped_light"@,
        ResourceType::HomeKit => "homekit"@,
        ResourceType::Light => "light"@,
        ResourceType::LightLevel => "light_level"@,
        ResourceType::Matter => "matter"@,
        ResourceType::MatterFabric => "matter_fabric"@,
        ResourceType::Motion => "motion"@,
        ResourceType::PublicImage => "public_image"@,
        ResourceType::Recipe => "recipe"@,
        ResourceType::RelativeRotary => "relative_rotary"@,
        ResourceType::Room => "room"@,
        ResourceType::Scene => "scene"@,
        ResourceType::SmartScene => "smart_scene"@,
        ResourceType::Tamper => "tamper"@,
        ResourceType::Taurus7455 => "taurus_7455"@,
        ResourceType::Temperature => "temperature"@,
        ResourceType::ZGPConnectivity => "z_g_p_connectivity"@,
        ResourceType::ZigbeeBridgeConnectivity => "zigbee_bridge_connectivity"@,
        ResourceType::ZigbeeConnectivity => "zigbee_connectivity"@,
        ResourceType::ZigbeeDeviceDiscovery => "zigbee_device_discovery"@,
        ResourceType::Zone => "zone"@,
    }
}

/// The kind that a wire tag names, if any.
pub open spec fn kind_of_tag(s: Seq<char>) -> Option<ResourceType> {
    if s == "auth_v1"@ {
        Some(ResourceType::AuthV1)
    } else if s == "behavior_instance"@ {
        Some(ResourceType::BehaviorInstance)
    } else if s == "behavior_script"@ {
        Some(ResourceType::BehaviorScript)
    } else if s == "bridge"@ {
        Some(ResourceType::Bridge)
    } else if s == "bridge_home"@ {
        Some(ResourceType::BridgeHome)
    } else if s == "button"@ {
        Some(ResourceType::Button)
    } else if s == "camera_motion"@ {
        Some(ResourceType::CameraMotion)
    } else if s == "contact"@ {
        Some(ResourceType::Contact)
    } else if s == "device"@ {
        Some(ResourceType::Device)
    } else if s == "device_power"@ {
        Some(ResourceType::DevicePower)
    } else if s == "device_software_update"@ {
        Some(ResourceType::DeviceSoftwareUpdate)
    } else if s == "entertainment"@ {
        Some(ResourceType::Entertainment)
    } else if s == "entertainment_configuration"@ {
        Some(ResourceType::EntertainmentConfiguration)
    } else if s == "geofence"@ {
        Some(ResourceType::Geofence)
    } else if s == "geofence_client"@ {
        Some(ResourceType::GeofenceClient)
    } else if s == "geolocation"@ {
        Some(ResourceType::Geolocation)
    } else if s == "grouped_light"@ {
        Some(ResourceType::Group)
    } else if s == "homekit"@ {
        Some(ResourceType::HomeKit)
    } else if s == "light"@ {
        Some(ResourceType::Light)
    } else if s == "light_level"@ {
        Some(ResourceType::LightLevel)
    } else if s == "matter"@ {
        Some(ResourceType::Matter)
    } else if s == "matter_fabric"@ {
        Some(ResourceType::MatterFabric)
    } else if s == "motion"@ {
        Some(ResourceType::Motion)
    } else if s == "public_image"@ {
        Some(ResourceType::PublicImage)
    } else if s == "recipe"@ {
        Some(ResourceType::Recipe)
    } else if s == "relative_rotary"@ {
        Some(ResourceType::RelativeRotary)
    } else if s == "room"@ {
        Some(ResourceType::Room)
    } else if s == "scene"@ {
        Some(ResourceType::Scene)
    } else if s == "smart_scene"@ {
        Some(ResourceType::SmartScene)
    } else if s == "tamper"@ {
        Some(ResourceType::Tamper)
    } else if s == "taurus_7455"@ {
        Some(ResourceType::Taurus7455)
    } else if s == "temperature"@ {
        Some(ResourceType::Temperature)
    } else if s == "z_g_p_connectivity"@ {
        Some(ResourceType::ZGPConnectivity)
    } else if s == "zigbee_bridge_connectivity"@ {
        Some(ResourceType::ZigbeeBridgeConnectivity)
    } else if s == "zigbee_connectivity"@ {
        Some(ResourceType::ZigbeeConnectivity)
    } else if s == "zigbee_device_discovery"@ {
        Some(ResourceType::ZigbeeDeviceDiscovery)
    } else if s == "zone"@ {
        Some(ResourceType::Zone)
    } else {
        None
    }
}

/// Kinds whose resources live in a per-kind store of the cache: all but
/// the bridge itself (a single slot) and the kinds that carry no data.
pub open spec fn is_stored_kind(k: ResourceType) -> bool {
    !(k is AuthV1 || k is Bridge || k is Geofence || k is PublicImage || k is Recipe
        || k is Taurus7455 || k is ZigbeeBridgeConnectivity)
}

/// Whether two texts are the same.
pub fn same_text(a: &str, b: &str) -> (r: bool)
    ensures
        r == (a@ == b@),
{
    a.to_owned() == b.to_owned()
}

impl ResourceType {
    /// The wire tag of this kind.
    pub fn tag(&self) -> (r: &'static str)
        ensures
            r@ == tag_of(*self),
    {
        match self {
            ResourceType::AuthV1 => "auth_v1",
            ResourceType::BehaviorInstance => "behavior_instance",
            ResourceType::BehaviorScript => "behavior_script",
            ResourceType::Bridge => "bridge",
            ResourceType::BridgeHome => "bridge_home",
            ResourceType::Button => "button",
            ResourceType::CameraMotion => "camera_motion",
            ResourceType::Contact => "contact",
            ResourceType::Device => "device",
            ResourceType::DevicePower => "device_power",
            ResourceType::DeviceSoftwareUpdate => "device_software_update",
            ResourceType::Entertainment => "entertainment",
            ResourceType::EntertainmentConfiguration => "entertainment_configuration",
            ResourceType::Geofence => "geofence",
            ResourceType::GeofenceClient => "geofence_client",
            ResourceType::Geolocation => "geolocation",
            ResourceType::Group => "grouped_light",
            ResourceType::HomeKit => "homekit",
            ResourceType::Light => "light",
            ResourceType::LightLevel => "light_level",
            ResourceType::Matter => "matter",
            ResourceType::MatterFabric => "matter_fabric",
            ResourceType::Motion => "motion",
            ResourceType::PublicImage => "public_image",
            ResourceType::Recipe => "recipe",
            ResourceType::RelativeRotary => "relative_rotary",
            ResourceType::Room => "room",
            ResourceType::Scene => "scene",
            ResourceType::SmartScene => "smart_scene",
            ResourceType::Tamper => "tamper",
            ResourceType::Taurus7455 => "taurus_7455",
            ResourceType::Temperature => "temperature",
            ResourceType::ZGPConnectivity => "z_g_p_connectivity",
            ResourceType::ZigbeeBridgeConnectivity => "zigbee_bridge_connectivity",
            ResourceType::ZigbeeConnectivity => "zigbee_connectivity",
            ResourceType::ZigbeeDeviceDiscovery => "zigbee_device_discovery",
            ResourceType::Zone => "zone",
        }
    }

    /// The kind named by a wire tag; `None` for a tag that no kind has.
    pub fn from_tag(s: &str) -> (r: Option<ResourceType>)
        ensures
            r == kind_of_tag(s@),
    {
        if same_text(s, "auth_v1") {
            Some(ResourceType::AuthV1)
        } else if same_text(s, "behavior_instance") {
            Some(ResourceType::BehaviorInstance)
        } else if same_text(s, "behavior_script") {
            Some(ResourceType::BehaviorScript)
        } else if same_text(s, "bridge") {
            Some(ResourceType::Bridge)
        } else if same_text(s, "bridge_home") {
            Some(ResourceType::BridgeHome)
        } else if same_text(s, "button") {
            Some(ResourceType::Button)
        } else if same_text(s, "camera_motion") {
            Some(ResourceType::CameraMotion)
        } else if same_text(s, "contact") {
            Some(ResourceType::Contact)
        } else if same_text(s, "device") {
            Some(ResourceType::Device)
        } else if same_text(s, "device_power") {
            Some(ResourceType::DevicePower)
        } else if same_text(s, "device_software_update") {
            Some(ResourceType::DeviceSoftwareUpdate)
        } else if same_text(s, "entertainment") {
            Some(ResourceType::Entertainment)
        } else if same_text(s, "entertainment_configuration") {
            Some(ResourceType::EntertainmentConfiguration)
        } else if same_text(s, "geofence") {
            Some(ResourceType::Geofence)
        } else if same_text(s, "geofence_client") {
            Some(ResourceType::GeofenceClient)
        } else if same_text(s, "geolocation") {
            Some(ResourceType::Geolocation)
        } else if same_text(s, "grouped_light") {
            Some(ResourceType::Group)
        } else if same_text(s, "homekit") {
            Some(ResourceType::HomeKit)
        } else if same_text(s, "light") {
            Some(ResourceType::Light)
        } else if same_text(s, "light_level") {
            Some(ResourceType::LightLevel)
        } else if same_text(s, "matter") {
            Some(ResourceType::Matter)
        } else if same_text(s, "matter_fabric") {
            Some(ResourceType::MatterFabric)
        } else if same_text(s, "motion") {
            Some(ResourceType::Motion)
        } else if same_text(s, "public_image") {
            Some(ResourceType::PublicImage)
        } else if same_text(s, "recipe") {
            Some(ResourceType::Recipe)
        } else if same_text(s, "relative_rotary") {
            Some(ResourceType::RelativeRotary)
        } else if same_text(s, "room") {
            Some(ResourceType::Room)
        } else if same_text(s, "scene") {
            Some(ResourceType::Scene)
        } else if same_text(s, "smart_scene") {
            Some(ResourceType::SmartScene)
        } else if same_text(s, "tamper") {
            Some(ResourceType::Tamper)
        } else if same_text(s, "taurus_7455") {
            Some(ResourceType::Taurus7455)
        } else if same_text(s, "temperature") {
            Some(ResourceType::Temperature)
        } else if same_text(s, "z_g_p_connectivity") {
            Some(ResourceType::ZGPConnectivity)
        } else if same_text(s, "zigbee_bridge_connectivity") {
            Some(ResourceType::ZigbeeBridgeConnectivity)
        } else if same_text(s, "zigbee_connectivity") {
            Some(ResourceType::ZigbeeConnectivity)
        } else if same_text(s, "zigbee_device_discovery") {
            Some(ResourceType::ZigbeeDeviceDiscovery)
        } else if same_text(s, "zone") {
            Some(ResourceType::Zone)
        } else {
            None
        }
    }

    /// Whether resources of this kind live in a per-kind store.
    pub fn is_stored(&self) -> (r: bool)
        ensures
            r == is_stored_kind(*self),
    {
        !matches!(
            self,
            ResourceType::AuthV1 | ResourceType::Bridge | ResourceType::Geofence
                | ResourceType::PublicImage | ResourceType::Recipe | ResourceType::Taurus7455
                | ResourceType::ZigbeeBridgeConnectivity
        )
    }
}

/// A reference to a resource by id and kind.
#[derive(Debug)]
pub struct ResourceIdentifier {
    /// The unique id of the referenced resource.
    pub rid: String,
    /// The type of the referenced resource.
    pub rtype: ResourceType,
}

impl ResourceIdentifier {
    pub fn new(rid: String, rtype: ResourceType) -> (r: ResourceIdentifier)
        ensures
            r.rid@ == rid@,
            r.rtype == rtype,
    {
        ResourceIdentifier { rid, rtype }
    }
}

impl Clone for ResourceIdentifier {
    fn clone(&self) -> (r: ResourceIdentifier)
        ensures
            r.rid@ == self.rid@,
            r.rtype == self.rtype,
    {
        ResourceIdentifier { rid: self.rid.clone(), rtype: self.rtype }
    }
}

impl PartialEq for ResourceIdentifier {
    fn eq(&self, o: &ResourceIdentifier) -> (r: bool) {
        self.rid == o.rid && self.rtype == o.rtype
    }
}

impl vstd::std_specs::cmp::PartialEqSpecImpl for ResourceIdentifier {
    open spec fn obeys_eq_spec() -> bool {
        true
    }

    open spec fn eq_spec(&self, o: &ResourceIdentifier) -> bool {
        self.rid@ == o.rid@ && self.rtype == o.rtype
    }
}

impl Eq for ResourceIdentifier {

}

} // verus!
