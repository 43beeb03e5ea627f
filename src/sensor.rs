//! Sensors: contact, motion, light level, temperature, geolocation, geofence, tamper.
use vstd::prelude::*;
use crate::json::{Json, JsonValue, obj};
use crate::device::SetStatus;
use crate::resource::{ResourceIdentifier, ResourceType};

verus! {

/// Internal representation of a [Contact].
#[derive(Clone, Debug, PartialEq)]
pub struct ContactData {
    /// Unique identifier representing a specific resource instance.
    pub id: String,
    /// Clip v1 resource identifier.
    pub id_v1: Option<String>,
    /// Owner of the service, in case the owner service is deleted, the service also gets deleted.
    pub owner: ResourceIdentifier,
    /// Whether sensor is activated or not.
    pub enabled: bool,
    pub contact_report: Option<ContactReport>,
}

#[derive(Clone, Debug, PartialEq)]
pub struct ContactReport {
    /// Last time the value of this property was updated.
    pub changed: String,
    pub state: ContactStatus,
}

#[derive(Clone, Copy, Debug, PartialEq, Eq, Hash, Structural)]
pub enum ContactStatus {
    Contact,
    NoContact,
}

#[derive(Clone, Copy, Debug, PartialEq, Eq, Hash, Structural)]
pub enum DayType {
    NormalDay,
    PolarDay,
    PolarNight,
}

#[derive(Clone, Debug, PartialEq)]
pub struct GeofenceClientBuilder {
    is_at_home: bool,
    name: String,
}

/// Internal representation of a [GeofenceClient].
#[derive(Clone, Debug, PartialEq)]
pub struct GeofenceClientData {
    /// Unique identifier representing a specific resource instance.
    pub id: String,
    /// Clip v1 resource identifier.
    pub id_v1: Option<String>,
    pub name: String,
}

/// Internal representation of the device [Geolocation].
#[derive(Clone, Debug, PartialEq)]
pub struct GeolocationData {
    /// Unique identifier representing a specific resource instance.
    pub id: String,
    /// Clip v1 resource identifier.
    pub id_v1: Option<String>,
    /// Is the geolocation configured.
    pub is_configured: bool,
    /// Info related to today's sun (only available when geolocation has been configured).
    pub sun_today: Option<SunToday>,
}

/// Internal representation of a [LightLevel].
#[derive(Clone, Debug, PartialEq)]
pub struct LightLevelData {
    /// Unique identifier representing a specific resource instance.
    pub id: String,
    /// Clip v1 resource identifier.
    pub id_v1: Option<String>,
    /// Owner of the service, in case the owner service is deleted, the service also gets deleted.
    pub owner: ResourceIdentifier,
    /// Whether sensor is activated or not.
    pub enabled: bool,
    pub light: LightLevelState,
}

#[derive(Clone, Debug, PartialEq)]
pub struct LightLevelReport {
    /// Last time the value of this property is changed.
    pub changed: String,
    /// Light level in `10000*log10(lux) + 1` measured by sensor.
    /// Logarithmic scale used because the human eye adjusts to light levels and small changes at
    /// low lux levels are more noticeable than at high lux levels.
    /// This allows use of linear scale configuration sliders.
    pub light_level: usize,
}

#[derive(Clone, Debug, PartialEq)]
pub struct LightLevelState {
    pub light_level: usize,
    pub light_level_valid: bool,
    pub light_level_report: Option<LightLevelReport>,
}

/// Internal representation of a [Motion] or [CameraMotion].
#[derive(Clone, Debug, PartialEq)]
pub struct MotionData {
    /// Unique identifier representing a specific resource instance.
    pub id: String,
    /// Clip v1 resource identifier.
    pub id_v1: Option<String>,
    /// Owner of the service, in case the owner service is deleted, the service also gets deleted.
    pub owner: ResourceIdentifier,
    /// Whether sensor is activated or not.
    pub enabled: bool,
    pub motion: MotionState,
    pub sensitivity: Option<Sensitivity>,
}

#[derive(Clone, Debug, PartialEq)]
pub struct MotionReport {
    /// Last time the value of this property is changed.
    pub changed: String,
    /// `true` if motion is detected/
    pub motion: bool,
}

#[derive(Clone, Debug, PartialEq)]
pub struct MotionState {
    /// Motion is valid when `motion_report` property is present, invalid when absent.
    pub motion_valid: bool,
    pub motion_report: Option<MotionReport>,
}

#[derive(Clone, Debug, PartialEq)]
pub struct Sensitivity {
    pub status: SetStatus,
    /// Sensitivity of the sensor. Value in the range `0` to `sensitivity_max`.
    pub sensitivity: usize,
    /// Maximum value of the sensitivity configuration attribute.
    pub sensitivity_max: Option<usize>,
}

#[derive(Clone, Debug, PartialEq)]
pub struct SunToday {
    pub sunset_time: String,
    pub day_type: DayType,
}

/// A tamper detection device.
#[derive(Clone, Debug, PartialEq)]
pub struct Tamper {
    data: TamperData,
}

/// Internal representation of a [Tamper].
#[derive(Clone, Debug, PartialEq)]
pub struct TamperData {
    /// Unique identifier representing a specific resource instance.
    pub id: String,
    /// Clip v1 resource identifier.
    pub id_v1: Option<String>,
    /// Owner of the service, in case the owner service is deleted, the service also gets deleted.
    pub owner: ResourceIdentifier,
    pub tamper_reports: Vec<TamperReport>,
}

#[derive(Clone, Debug, PartialEq)]
pub struct TamperReport {
    /// Last time the value of this property is changed.
    pub changed: String,
    /// Source of tamper and time expired since last change of tamper-state.
    pub source: String,
    /// The state of tamper after last change.
    pub state: TamperStatus,
}

#[derive(Clone, Copy, Debug, PartialEq, Eq, Hash, Structural)]
pub enum TamperStatus {
    Tampered,
    NotTampered,
}

impl ContactData {
    /// The identifier of this resource.
    pub fn rid(&self) -> (r: ResourceIdentifier)
        ensures
            r.rid@ == self.id@,
            r.rtype == ResourceType::Contact,
    {
        ResourceIdentifier { rid: self.id.clone(), rtype: ResourceType::Contact }
    }
}

impl GeofenceClientData {
    /// The identifier of this resource.
    pub fn rid(&self) -> (r: ResourceIdentifier)
        ensures
            r.rid@ == self.id@,
            r.rtype == ResourceType::GeofenceClient,
    {
        ResourceIdentifier { rid: self.id.clone(), rtype: ResourceType::GeofenceClient }
    }
}

impl GeolocationData {
    /// The identifier of this resource.
    pub fn rid(&self) -> (r: ResourceIdentifier)
        ensures
            r.rid@ == self.id@,
            r.rtype == ResourceType::Geolocation,
    {
        ResourceIdentifier { rid: self.id.clone(), rtype: ResourceType::Geolocation }
    }
}

impl LightLevelData {
    /// The identifier of this resource.
    pub fn rid(&self) -> (r: ResourceIdentifier)
        ensures
            r.rid@ == self.id@,
            r.rtype == ResourceType::LightLevel,
    {
        ResourceIdentifier { rid: self.id.clone(), rtype: ResourceType::LightLevel }
    }
}

impl Tamper {
    /// The resource's last known state.
    pub closed spec fn view(&self) -> TamperData {
        self.data
    }

    pub fn new(data: TamperData) -> (r: Tamper)
        ensures
            r@ == data,
    {
        Tamper { data }
    }

    /// The resource's last known state.
    pub fn data(&self) -> (r: &TamperData)
        ensures
            *r == self@,
    {
        &self.data
    }

    pub fn id(&self) -> (r: &str)
        ensures
            r@ == self@.id@,
    {
        self.data.id.as_str()
    }

    /// The identifier of this resource.
    pub fn rid(&self) -> (r: ResourceIdentifier)
        ensures
            r.rid@ == self@.id@,
            r.rtype == ResourceType::Tamper,
    {
        self.data.rid()
    }
}

impl TamperData {
    /// The identifier of this resource.
    pub fn rid(&self) -> (r: ResourceIdentifier)
        ensures
            r.rid@ == self.id@,
            r.rtype == ResourceType::Tamper,
    {
        ResourceIdentifier { rid: self.id.clone(), rtype: ResourceType::Tamper }
    }
}

impl GeofenceClientBuilder {
    pub closed spec fn spec_name(&self) -> Seq<char> {
        self.name@
    }

    pub closed spec fn spec_is_at_home(&self) -> bool {
        self.is_at_home
    }

    /// A geofence client named `name`, at home.
    pub fn new(name: String) -> (r: GeofenceClientBuilder)
        ensures
            r.spec_name() == name@,
            r.spec_is_at_home(),
    {
        GeofenceClientBuilder { is_at_home: true, name }
    }

    pub fn is_at_home(self, b: bool) -> (r: GeofenceClientBuilder)
        ensures
            r.spec_is_at_home() == b,
            r.spec_name() == self.spec_name(),
    {
        GeofenceClientBuilder { is_at_home: b, name: self.name }
    }

    /// The creation document of this geofence client.
    pub open spec fn spec_json(&self) -> Json {
        obj(seq![("is_at_home"@, Json::Bool(self.spec_is_at_home())), ("name"@, Json::Str(self.spec_name()))])
    }

    pub fn to_json(&self) -> (r: JsonValue)
        ensures
            r@ == self.spec_json(),
    {
        JsonValue::object2("is_at_home", JsonValue::Bool(self.is_at_home), "name", JsonValue::Str(self.name.clone()))
    }
}

} // verus!
