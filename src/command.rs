//! Commands that change resources, as JSON merge-patch documents.
use vstd::prelude::*;
use crate::cache::docs_view;
use crate::json::{Json, JsonValue, decimal_text, members_view, merge, merge_patch, obj, opt_string};
use crate::light::{AlertEffectType, EffectType, GradientMode, OnState, PowerupOnState, PowerupPresetType, SignalType, TimedEffectType};
use crate::resource::tag_of;
use crate::device::{ProductArchetype, UserTest};
use crate::resource::ResourceIdentifier;
use crate::scene::Schedule;
use crate::sensor::Sensitivity;
use crate::zigbee::ZigbeeChannel;
use crate::zone::ZoneArchetype;

verus! {

/// Command representing the enabled state of a simple device.
#[derive(Clone, Debug, PartialEq)]
pub enum BasicCommand {
    Enabled(bool),
}

#[derive(Clone, Copy, Debug, PartialEq, Eq, Hash, Structural)]
pub struct BridgeCommand;

#[derive(Clone, Copy, Debug, PartialEq, Eq, Hash, Structural)]
pub struct ButtonCommand;

#[derive(Clone, Copy, Debug, PartialEq, Eq, Hash, Structural)]
pub struct CameraMotionCommand;

#[derive(Clone, Copy, Debug, PartialEq, Eq, Hash, Structural)]
pub struct Command;

#[derive(Clone, Copy, Debug, PartialEq, Eq, Hash, Structural)]
pub struct ContactCommand;

#[derive(Clone, Copy, Debug, PartialEq, Eq, Hash, Structural)]
pub enum DeltaAction {
    /// Increases the target value.
    Up,
    /// Decreases the target value.
    Down,
    /// Halts the target value if it is in the process of animating.
    Stop,
}

/// Commands for a [Device](crate::service::Device).
#[derive(Clone, Debug, PartialEq)]
pub enum DeviceCommand {
    /// Triggers a visual identification sequence, currently implemented as
    /// (which can change in the future): Bridge performs Zigbee LED
    /// identification cycles for 5 seconds Lights perform one breathe cycle
    /// Sensors perform LED identification cycles for 15 seconds.
    Identify,
    Metadata {
        name: Option<String>,
        archetype: Option<ProductArchetype>,
    },
    /// Activates or extends user usertest mode of device for 120 seconds.
    /// `false` deactivates usertest mode. In usertest mode, devices report
    /// changes in state faster and indicate state changes on device LED.
    UserTest(bool),
}

#[derive(Clone, Copy, Debug, PartialEq, Eq, Hash, Structural)]
pub enum DeviceIdentifyType {
    /// Performs Zigbee LED identification cycles for 5 seconds.
    Bridge,
    /// Perform one breathe cycle.
    Lights,
    /// Perform LED identification cycles for 15 seconds.
    Sensors,
}

#[derive(Clone, Copy, Debug, PartialEq, Eq, Hash, Structural)]
pub struct DevicePowerCommand;

#[derive(Clone, Copy, Debug, PartialEq, Eq, Hash, Structural)]
pub enum EntertainmentAction {
    Start,
    Stop,
}

#[derive(Clone, Copy, Debug, PartialEq, Eq, Hash, Structural)]
pub struct EntertainmentCommand;

/// Commands for an [EntertainmentConfiguration](crate::service::EntertainmentConfiguration).
#[derive(Clone, Debug, PartialEq)]
pub enum EntertainmentConfigurationCommand {
    Action(EntertainmentAction),
}

/// Commands for a [GeofenceClient](crate::service::GeofenceClient).
#[derive(Clone, Debug, PartialEq)]
pub enum GeofenceClientCommand {
    /// Indicates if Geofence Client is at home.
    IsAtHome(bool),
    /// Renames the Geofence Client.
    Name(String),
}

#[derive(Clone, Copy, Debug, PartialEq, Eq, Hash, Structural)]
pub struct GroupedLightCommand;

/// Commands for a [HomeKit](crate::service::HomeKit).
#[derive(Clone, Copy, Debug, PartialEq, Eq, Hash, Structural)]
pub enum HomeKitCommand {
    Reset,
}

#[derive(Clone, Copy, Debug, PartialEq, Eq, Hash, Structural)]
pub struct LightLevelCommand;

/// Commands for a [Matter](crate::service::Matter).
#[derive(Clone, Copy, Debug, PartialEq, Eq, Hash, Structural)]
pub enum MatterCommand {
    Reset,
}

#[derive(Clone, Copy, Debug, PartialEq, Eq, Hash, Structural)]
pub struct MatterFabricCommand;

/// Commands for a [Motion](crate::service::Motion).
#[derive(Clone, Debug, PartialEq)]
pub enum MotionCommand {
    /// The enabled state of the Motion device.
    Enabled(bool),
    /// Sensitivity of the sensor. Value in the range [`0`,
    /// [sensitivity_max](crate::service::Sensitivity::sensitivity_max)].
    Sensitivity(usize),
}

#[derive(Clone, Copy, Debug, PartialEq, Eq, Hash, Structural)]
pub enum PowerupColorMode {
    Color,
    ColorTemp,
    Previous,
}

#[derive(Clone, Copy, Debug, PartialEq, Eq, Hash, Structural)]
pub enum PowerupDimmingMode {
    Dimming,
    Previous,
}

#[derive(Clone, Copy, Debug, PartialEq, Eq, Hash, Structural)]
pub struct RelativeRotaryCommand;

#[derive(Clone, Copy, Debug, PartialEq, Eq, Hash, Structural)]
pub struct RoomCommand;

/// Commands for a [SmartScene](crate::service::SmartScene).
#[derive(Clone, Debug, PartialEq)]
pub enum SmartSceneCommand {
    /// Enabled state of this SmartScene.
    Enabled(bool),
    Metadata {
        name: Option<String>,
        appdata: Option<String>,
    },
    /// Commits a schedule of timeslots in which scenes should be applied.
    Schedule(Vec<Schedule>),
    /// Sets the duration of the transition betwees scenes, by default 60,000ms.
    TransitionDuration(usize),
}

#[derive(Clone, Copy, Debug, PartialEq, Eq, Hash, Structural)]
pub struct TamperCommand;

#[derive(Clone, Copy, Debug, PartialEq, Eq, Hash, Structural)]
pub struct TemperatureCommand;

#[derive(Clone, Copy, Debug, PartialEq, Eq, Hash, Structural)]
pub struct ZGPConnectivityCommand;

/// Commands for a [ZigbeeConnectivity](crate::service::ZigbeeConnectivity).
#[derive(Clone, Debug, PartialEq)]
pub enum ZigbeeConnectivityCommand {
    Channel(ZigbeeChannel),
}

/// Commands for a [ZigbeeDeviceDiscovery](crate::service::ZigbeeDeviceDiscovery).
#[derive(Clone, Debug, PartialEq)]
pub enum ZigbeeDeviceDiscoveryCommand {
    Action {
        search_codes: Vec<String>,
        install_codes: Vec<String>,
    },
}

/// Commands for a [Zone](crate::service::Zone).
#[derive(Clone, Debug, PartialEq)]
pub enum ZoneCommand {
    /// Sets the devices/services of this Zone.
    Children(Vec<ResourceIdentifier>),
    Metadata {
        name: Option<String>,
        archetype: Option<ZoneArchetype>,
    },
}

impl EntertainmentAction {
    /// The wire name of this value.
    pub open spec fn spec_tag(&self) -> Seq<char> {
        match self {
            EntertainmentAction::Start => "start"@,
            EntertainmentAction::Stop => "stop"@,
        }
    }

    /// The wire name of this value.
    pub fn tag(&self) -> (r: &'static str)
        ensures
            r@ == self.spec_tag(),
    {
        match self {
            EntertainmentAction::Start => "start",
            EntertainmentAction::Stop => "stop",
        }
    }
}

/// A resource identifier as the bridge writes it.
pub open spec fn identifier_json(r: ResourceIdentifier) -> Json {
    obj(seq![("rid"@, Json::Str(r.rid@)), ("rtype"@, Json::Str(tag_of(r.rtype)))])
}

pub fn identifier_to_json(r: &ResourceIdentifier) -> (j: JsonValue)
    ensures
        j@ == identifier_json(*r),
{
    JsonValue::object2("rid", JsonValue::Str(r.rid.clone()), "rtype", JsonValue::text(r.rtype.tag()))
}

/// The single document that a list of command documents composes to: each
/// is merged (RFC 7396) in order onto an empty object, so later commands
/// win where two set the same field.
pub open spec fn compose(docs: Seq<Json>) -> Json
    decreases docs.len(),
{
    if docs.len() == 0 {
        obj(Seq::empty())
    } else {
        merge_patch(compose(docs.drop_last()), docs.last())
    }
}

/// Composes command documents into one merge-patch document.
pub fn merge_commands(commands: &Vec<JsonValue>) -> (r: JsonValue)
    ensures
        r@ == compose(docs_view(commands@)),
{
    let ghost docs = docs_view(commands@);
    let mut acc = JsonValue::empty_object();
    let mut i: usize = 0;
    while i < commands.len()
        invariant
            i <= commands.len(),
            docs == docs_view(commands@),
            acc@ == compose(docs.take(i as int)),
        decreases commands.len() - i,
    {
        assert(docs.take(i + 1).drop_last() =~= docs.take(i as int));
        acc = merge(&acc, &commands[i]);
        i += 1;
    }
    assert(docs.take(i as int) =~= docs);
    acc
}

impl Command {
    /// Composes command documents into one merge-patch document.
    pub fn merge(commands: &Vec<JsonValue>) -> (r: JsonValue)
        ensures
            r@ == compose(docs_view(commands@)),
    {
        merge_commands(commands)
    }
}

impl BasicCommand {
    pub open spec fn spec_json(&self) -> Json {
        match self {
            BasicCommand::Enabled(b) => obj(seq![("enabled"@, Json::Bool(*b))]),
        }
    }

    pub fn to_json(&self) -> (r: JsonValue)
        ensures
            r@ == self.spec_json(),
    {
        match self {
            BasicCommand::Enabled(b) => JsonValue::object1("enabled", JsonValue::Bool(*b)),
        }
    }
}

impl HomeKitCommand {
    pub open spec fn spec_json(&self) -> Json {
        obj(seq![("action"@, Json::Str("homekit_reset"@))])
    }

    pub fn to_json(&self) -> (r: JsonValue)
        ensures
            r@ == self.spec_json(),
    {
        JsonValue::object1("action", JsonValue::text("homekit_reset"))
    }
}

impl MatterCommand {
    pub open spec fn spec_json(&self) -> Json {
        obj(seq![("action"@, Json::Str("matter_reset"@))])
    }

    pub fn to_json(&self) -> (r: JsonValue)
        ensures
            r@ == self.spec_json(),
    {
        JsonValue::object1("action", JsonValue::text("matter_reset"))
    }
}

impl MotionCommand {
    pub open spec fn spec_json(&self) -> Json {
        match self {
            MotionCommand::Enabled(e) => obj(seq![("enabled"@, Json::Bool(*e))]),
            MotionCommand::Sensitivity(s) => obj(
                seq![("sensitivity"@, obj(seq![("sensitivity"@, Json::Number(decimal_text(*s as nat)))]))],
            ),
        }
    }

    pub fn to_json(&self) -> (r: JsonValue)
        ensures
            r@ == self.spec_json(),
    {
        match self {
            MotionCommand::Enabled(e) => JsonValue::object1("enabled", JsonValue::Bool(*e)),
            MotionCommand::Sensitivity(s) => JsonValue::object1(
                "sensitivity",
                JsonValue::object1("sensitivity", JsonValue::number(*s as u64)),
            ),
        }
    }
}

impl EntertainmentConfigurationCommand {
    pub open spec fn spec_json(&self) -> Json {
        match self {
            EntertainmentConfigurationCommand::Action(a) => obj(seq![("action"@, Json::Str(a.spec_tag()))]),
        }
    }

    pub fn to_json(&self) -> (r: JsonValue)
        ensures
            r@ == self.spec_json(),
    {
        match self {
            EntertainmentConfigurationCommand::Action(a) => JsonValue::object1("action", JsonValue::text(a.tag())),
        }
    }
}

impl GeofenceClientCommand {
    pub open spec fn spec_json(&self) -> Json {
        match self {
            GeofenceClientCommand::IsAtHome(b) => obj(seq![("is_at_home"@, Json::Bool(*b))]),
            GeofenceClientCommand::Name(n) => obj(seq![("name"@, Json::Str(n@))]),
        }
    }

    pub fn to_json(&self) -> (r: JsonValue)
        ensures
            r@ == self.spec_json(),
    {
        match self {
            GeofenceClientCommand::IsAtHome(b) => JsonValue::object1("is_at_home", JsonValue::Bool(*b)),
            GeofenceClientCommand::Name(n) => JsonValue::object1("name", JsonValue::Str(n.clone())),
        }
    }
}

/// An optional product archetype as its wire name, or `null`.
pub open spec fn product_archetype_json(a: Option<ProductArchetype>) -> Json {
    match a {
        Some(x) => Json::Str(x.spec_tag()),
        None => Json::Null,
    }
}

fn product_archetype_to_json(a: &Option<ProductArchetype>) -> (r: JsonValue)
    ensures
        r@ == product_archetype_json(*a),
{
    match a {
        Some(x) => JsonValue::text(x.tag()),
        None => JsonValue::Null,
    }
}

/// An optional zone archetype as its wire name, or `null`.
pub open spec fn zone_archetype_json(a: Option<ZoneArchetype>) -> Json {
    match a {
        Some(x) => Json::Str(x.spec_tag()),
        None => Json::Null,
    }
}

fn zone_archetype_to_json(a: &Option<ZoneArchetype>) -> (r: JsonValue)
    ensures
        r@ == zone_archetype_json(*a),
{
    match a {
        Some(x) => JsonValue::text(x.tag()),
        None => JsonValue::Null,
    }
}

impl DeviceCommand {
    pub open spec fn spec_json(&self) -> Json {
        match self {
            DeviceCommand::Identify => obj(seq![("identify"@, obj(seq![("action"@, Json::Str("identify"@))]))]),
            DeviceCommand::Metadata { name, archetype } => obj(
                seq![
                    ("metadata"@, obj(
                        seq![
                            ("name"@, opt_string(*name)),
                            ("archetype"@, product_archetype_json(*archetype)),
                        ],
                    )),
                ],
            ),
            DeviceCommand::UserTest(u) => obj(seq![("usertest"@, obj(seq![("usertest"@, Json::Bool(*u))]))]),
        }
    }

    pub fn to_json(&self) -> (r: JsonValue)
        ensures
            r@ == self.spec_json(),
    {
        match self {
            DeviceCommand::Identify => JsonValue::object1(
                "identify",
                JsonValue::object1("action", JsonValue::text("identify")),
            ),
            DeviceCommand::Metadata { name, archetype } => {
                let a = product_archetype_to_json(archetype);
                JsonValue::object1("metadata", JsonValue::object2("name", JsonValue::opt_text(name), "archetype", a))
            },
            DeviceCommand::UserTest(u) => JsonValue::object1(
                "usertest",
                JsonValue::object1("usertest", JsonValue::Bool(*u)),
            ),
        }
    }
}

impl ZigbeeConnectivityCommand {
    pub open spec fn spec_json(&self) -> Json {
        match self {
            ZigbeeConnectivityCommand::Channel(ch) => obj(
                seq![("channel"@, obj(seq![("value"@, Json::Str(ch.spec_tag()))]))],
            ),
        }
    }

    pub fn to_json(&self) -> (r: JsonValue)
        ensures
            r@ == self.spec_json(),
    {
        match self {
            ZigbeeConnectivityCommand::Channel(ch) => JsonValue::object1(
                "channel",
                JsonValue::object1("value", JsonValue::text(ch.tag())),
            ),
        }
    }
}

/// A list of texts as an array of strings.
pub open spec fn texts_json(v: Seq<String>) -> Json {
    Json::Array(Seq::new(v.len(), |i: int| Json::Str(v[i]@)))
}

fn texts_to_json(v: &Vec<String>) -> (r: JsonValue)
    ensures
        r@ == texts_json(v@),
{
    let mut out: Vec<JsonValue> = Vec::new();
    let mut i: usize = 0;
    while i < v.len()
        invariant
            i <= v.len(),
            out.len() == i,
            forall|j: int| 0 <= j < i ==> #[trigger] out[j]@ == Json::Str(v@[j]@),
        decreases v.len() - i,
    {
        out.push(JsonValue::Str(v[i].clone()));
        i += 1;
    }
    let ghost ov = out@;
    let r = JsonValue::array(out);
    assert(Seq::new(ov.len(), |j: int| ov[j]@) =~= Seq::new(v@.len(), |j: int| Json::Str(v@[j]@)));
    r
}

impl ZigbeeDeviceDiscoveryCommand {
    pub open spec fn spec_json(&self) -> Json {
        match self {
            ZigbeeDeviceDiscoveryCommand::Action { search_codes, install_codes } => obj(
                seq![
                    ("action"@, obj(
                        seq![
                            ("action_type"@, Json::Str("search"@)),
                            ("search_codes"@, texts_json(search_codes@)),
                            ("install_codes"@, texts_json(install_codes@)),
                        ],
                    )),
                ],
            ),
        }
    }

    pub fn to_json(&self) -> (r: JsonValue)
        ensures
            r@ == self.spec_json(),
    {
        match self {
            ZigbeeDeviceDiscoveryCommand::Action { search_codes, install_codes } => JsonValue::object1(
                "action",
                JsonValue::object3(
                    "action_type",
                    JsonValue::text("search"),
                    "search_codes",
                    texts_to_json(search_codes),
                    "install_codes",
                    texts_to_json(install_codes),
                ),
            ),
        }
    }
}

impl ZoneCommand {
    pub open spec fn spec_json(&self) -> Json {
        match self {
            ZoneCommand::Children(rids) => obj(
                seq![("children"@, Json::Array(Seq::new(rids@.len(), |i: int| identifier_json(rids@[i]))))],
            ),
            ZoneCommand::Metadata { name, archetype } => obj(
                seq![
                    ("metadata"@, obj(
                        seq![
                            ("name"@, opt_string(*name)),
                            ("archetype"@, zone_archetype_json(*archetype)),
                        ],
                    )),
                ],
            ),
        }
    }

    pub fn to_json(&self) -> (r: JsonValue)
        ensures
            r@ == self.spec_json(),
    {
        match self {
            ZoneCommand::Children(rids) => {
                let mut out: Vec<JsonValue> = Vec::new();
                let mut i: usize = 0;
                while i < rids.len()
                    invariant
                        i <= rids.len(),
                        out.len() == i,
                        forall|j: int| 0 <= j < i ==> #[trigger] out[j]@ == identifier_json(rids@[j]),
                    decreases rids.len() - i,
                {
                    out.push(identifier_to_json(&rids[i]));
                    i += 1;
                }
                let ghost ov = out@;
                let a = JsonValue::array(out);
                assert(Seq::new(ov.len(), |j: int| ov[j]@) =~= Seq::new(rids@.len(), |j: int| identifier_json(rids@[j])));
                JsonValue::object1("children", a)
            },
            ZoneCommand::Metadata { name, archetype } => {
                let a = zone_archetype_to_json(archetype);
                JsonValue::object1("metadata", JsonValue::object2("name", JsonValue::opt_text(name), "archetype", a))
            },
        }
    }
}

impl SmartSceneCommand {
    /// An empty schedule to fill in.
    pub fn create_schedule() -> (r: Schedule)
        ensures
            r.timeslots@.len() == 0,
            r.recurrence@.len() == 0,
            r.wf(),
    {
        Schedule::new()
    }

    pub open spec fn spec_json(&self) -> Json {
        match self {
            SmartSceneCommand::Enabled(b) => obj(
                seq![("recall"@, obj(seq![("action"@, Json::Str(if *b { "activate"@ } else { "deactivate"@ }))]))],
            ),
            SmartSceneCommand::Metadata { name, appdata } => obj(
                seq![
                    ("metadata"@, obj(
                        seq![
                            ("name"@, opt_string(*name)),
                            ("appdata"@, opt_string(*appdata)),
                        ],
                    )),
                ],
            ),
            SmartSceneCommand::Schedule(ts) => obj(
                seq![("week_timeslots"@, Json::Array(Seq::new(ts@.len(), |i: int| ts@[i].spec_json())))],
            ),
            SmartSceneCommand::TransitionDuration(ms) => obj(
                seq![("transition_duration"@, Json::Number(decimal_text(*ms as nat)))],
            ),
        }
    }

    pub fn to_json(&self) -> (r: JsonValue)
        ensures
            r@ == self.spec_json(),
    {
        match self {
            SmartSceneCommand::Enabled(b) => JsonValue::object1(
                "recall",
                JsonValue::object1("action", JsonValue::text(if *b { "activate" } else { "deactivate" })),
            ),
            SmartSceneCommand::Metadata { name, appdata } => JsonValue::object1(
                "metadata",
                JsonValue::object2("name", JsonValue::opt_text(name), "appdata", JsonValue::opt_text(appdata)),
            ),
            SmartSceneCommand::Schedule(ts) => {
                let mut out: Vec<JsonValue> = Vec::new();
                let mut i: usize = 0;
                while i < ts.len()
                    invariant
                        i <= ts.len(),
                        out.len() == i,
                        forall|j: int| 0 <= j < i ==> #[trigger] out[j]@ == ts@[j].spec_json(),
                    decreases ts.len() - i,
                {
                    out.push(ts[i].to_json());
                    i += 1;
                }
                let ghost ov = out@;
                let a = JsonValue::array(out);
                assert(Seq::new(ov.len(), |j: int| ov[j]@) =~= Seq::new(ts@.len(), |j: int| ts@[j].spec_json()));
                JsonValue::object1("week_timeslots", a)
            },
            SmartSceneCommand::TransitionDuration(ms) => JsonValue::object1(
                "transition_duration",
                JsonValue::number(*ms as u64),
            ),
        }
    }
}

impl DeltaAction {
    /// The wire name of this value.
    pub open spec fn spec_tag(&self) -> Seq<char> {
        match self {
            DeltaAction::Up => "up"@,
            DeltaAction::Down => "down"@,
            DeltaAction::Stop => "stop"@,
        }
    }

    /// The wire name of this value.
    pub fn tag(&self) -> (r: &'static str)
        ensures
            r@ == self.spec_tag(),
    {
        match self {
            DeltaAction::Up => "up",
            DeltaAction::Down => "down",
            DeltaAction::Stop => "stop",
        }
    }
}

impl PowerupColorMode {
    /// The wire name of this value.
    pub open spec fn spec_tag(&self) -> Seq<char> {
        match self {
            PowerupColorMode::Color => "color"@,
            PowerupColorMode::ColorTemp => "color_temperature"@,
            PowerupColorMode::Previous => "previous"@,
        }
    }

    /// The wire name of this value.
    pub fn tag(&self) -> (r: &'static str)
        ensures
            r@ == self.spec_tag(),
    {
        match self {
            PowerupColorMode::Color => "color",
            PowerupColorMode::ColorTemp => "color_temperature",
            PowerupColorMode::Previous => "previous",
        }
    }
}

impl PowerupDimmingMode {
    /// The wire name of this value.
    pub open spec fn spec_tag(&self) -> Seq<char> {
        match self {
            PowerupDimmingMode::Dimming => "dimming"@,
            PowerupDimmingMode::Previous => "previous"@,
        }
    }

    /// The wire name of this value.
    pub fn tag(&self) -> (r: &'static str)
        ensures
            r@ == self.spec_tag(),
    {
        match self {
            PowerupDimmingMode::Dimming => "dimming",
            PowerupDimmingMode::Previous => "previous",
        }
    }
}

/// A real number held as the decimal text that is written for it, such as
/// `80` or `0.3127`.
#[derive(Clone, Debug, PartialEq)]
pub struct Decimal {
    pub text: String,
}

/// A CIE xy chromaticity.
#[derive(Clone, Debug, PartialEq)]
pub struct XyColor {
    /// X position in color gamut.
    pub x: Decimal,
    /// Y position in color gamut.
    pub y: Decimal,
}

#[derive(Clone, Debug, PartialEq)]
pub struct PowerupDimming {
    pub mode: PowerupDimmingMode,
    pub brightness: Option<Decimal>,
}

#[derive(Clone, Debug, PartialEq)]
pub struct PowerupColor {
    /// State to activate after powerup.
    pub mode: PowerupColorMode,
    pub color: Option<XyColor>,
    pub color_temperature: Option<u16>,
}

/// One or two colors of a signal.
#[derive(Clone, Debug, PartialEq)]
pub enum SignalColor {
    One(XyColor),
    Two(XyColor, XyColor),
}

/// Commands for a light.
#[derive(Clone, Debug, PartialEq)]
pub enum LightCommand {
    /// Sets the alert effect for this light.
    Alert(AlertEffectType),
    /// CIE XY gamut position.
    Color { x: Decimal, y: Decimal },
    /// Color temperature in absolute mirek.
    ColorTemp(u16),
    /// Color temperature change in mirek.
    ColorTempDelta { action: DeltaAction, mirek_delta: Option<u16> },
    /// Brightness percentage.
    Dim(Decimal),
    /// Brightness change to this light.
    DimDelta { action: Option<DeltaAction>, brightness_delta: Option<Decimal> },
    /// Transitions and timed effects: duration in ms and speed.
    Dynamics { duration: Option<usize>, speed: Option<Decimal> },
    /// Gradient points and mode.
    Gradient { points: Vec<XyColor>, mode: Option<GradientMode> },
    Effect(EffectType),
    /// Triggers a visual identification sequence, performing one breathe cycle.
    Identify,
    Metadata { name: Option<String>, archetype: Option<ProductArchetype> },
    /// Power state of this light.
    On(bool),
    /// Configures the power-up behavior of this light.
    PowerUp {
        preset: PowerupPresetType,
        on: Option<PowerupOnState>,
        dimming: Option<PowerupDimming>,
        color: Option<PowerupColor>,
    },
    /// Signaling with a duration in ms and one or two colors.
    Signaling { signal: SignalType, duration: usize, colors: Option<SignalColor> },
    TimedEffect { effect: TimedEffectType, duration: Option<usize> },
}

/// Commands for a grouped light.
#[derive(Clone, Debug, PartialEq)]
pub enum GroupCommand {
    Alert(AlertEffectType),
    Color { x: Decimal, y: Decimal },
    ColorTemp(u16),
    ColorTempDelta { action: DeltaAction, mirek_delta: Option<u16> },
    Dim(Decimal),
    DimDelta { action: DeltaAction, brightness_delta: Option<Decimal> },
    Dynamics { duration: Option<usize> },
    On(bool),
    Signaling { signal: SignalType, duration: usize, colors: Option<SignalColor> },
}

pub open spec fn decimal_json(d: Decimal) -> Json {
    Json::Number(d.text@)
}

pub open spec fn opt_decimal_json(o: Option<Decimal>) -> Json {
    match o {
        Some(d) => decimal_json(d),
        None => Json::Null,
    }
}

pub open spec fn opt_u16_json(o: Option<u16>) -> Json {
    match o {
        Some(n) => Json::Number(decimal_text(n as nat)),
        None => Json::Null,
    }
}

pub open spec fn opt_usize_json(o: Option<usize>) -> Json {
    match o {
        Some(n) => Json::Number(decimal_text(n as nat)),
        None => Json::Null,
    }
}

pub open spec fn opt_delta_json(o: Option<DeltaAction>) -> Json {
    match o {
        Some(a) => Json::Str(a.spec_tag()),
        None => Json::Null,
    }
}

pub open spec fn opt_gradient_mode_json(o: Option<GradientMode>) -> Json {
    match o {
        Some(m) => Json::Str(m.spec_tag()),
        None => Json::Null,
    }
}

/// `{"x": .., "y": ..}`
pub open spec fn xy_json(c: XyColor) -> Json {
    obj(seq![("x"@, decimal_json(c.x)), ("y"@, decimal_json(c.y))])
}

/// `{"xy": {"x": .., "y": ..}}`
pub open spec fn feature_json(c: XyColor) -> Json {
    obj(seq![("xy"@, xy_json(c))])
}

pub open spec fn signal_colors_json(o: Option<SignalColor>) -> Json {
    match o {
        Some(SignalColor::One(c)) => Json::Array(seq![feature_json(c)]),
        Some(SignalColor::Two(a, b)) => Json::Array(seq![feature_json(a), feature_json(b)]),
        None => Json::Null,
    }
}

pub open spec fn on_state_json(o: Option<OnState>) -> Json {
    match o {
        Some(st) => obj(seq![("on"@, Json::Bool(st.on))]),
        None => Json::Null,
    }
}

pub(crate) fn on_state_to_json(o: &Option<OnState>) -> (r: JsonValue)
    ensures
        r@ == on_state_json(*o),
{
    match o {
        Some(st) => JsonValue::object1("on", JsonValue::Bool(st.on)),
        None => JsonValue::Null,
    }
}

pub open spec fn powerup_on_json(o: Option<PowerupOnState>) -> Json {
    match o {
        Some(s) => obj(
            seq![
                ("mode"@, Json::Str(s.mode.spec_tag())),
                ("on"@, on_state_json(s.on)),
            ],
        ),
        None => Json::Null,
    }
}

pub open spec fn powerup_dimming_json(o: Option<PowerupDimming>) -> Json {
    match o {
        Some(d) => obj(
            seq![("mode"@, Json::Str(d.mode.spec_tag()))] + match d.brightness {
                Some(b) => seq![("dimming"@, obj(seq![("brightness"@, decimal_json(b))]))],
                None => Seq::empty(),
            },
        ),
        None => Json::Null,
    }
}

pub open spec fn powerup_color_json(o: Option<PowerupColor>) -> Json {
    match o {
        Some(c) => obj(
            seq![("mode"@, Json::Str(c.mode.spec_tag()))] + match c.color {
                Some(xy) => seq![("color"@, feature_json(xy))],
                None => Seq::empty(),
            } + match c.color_temperature {
                Some(t) => seq![("color_temperature"@, obj(seq![("mirek"@, Json::Number(decimal_text(t as nat)))]))],
                None => Seq::empty(),
            },
        ),
        None => Json::Null,
    }
}

pub(crate) fn decimal_to_json(d: &Decimal) -> (r: JsonValue)
    ensures
        r@ == decimal_json(*d),
{
    JsonValue::Number(d.text.clone())
}

fn opt_decimal_to_json(o: &Option<Decimal>) -> (r: JsonValue)
    ensures
        r@ == opt_decimal_json(*o),
{
    match o {
        Some(d) => decimal_to_json(d),
        None => JsonValue::Null,
    }
}

pub(crate) fn opt_u16_to_json(o: &Option<u16>) -> (r: JsonValue)
    ensures
        r@ == opt_u16_json(*o),
{
    match o {
        Some(n) => JsonValue::number(*n as u64),
        None => JsonValue::Null,
    }
}

pub(crate) fn opt_usize_to_json(o: &Option<usize>) -> (r: JsonValue)
    ensures
        r@ == opt_usize_json(*o),
{
    match o {
        Some(n) => JsonValue::number(*n as u64),
        None => JsonValue::Null,
    }
}

fn xy_to_json(c: &XyColor) -> (r: JsonValue)
    ensures
        r@ == xy_json(*c),
{
    JsonValue::object2("x", decimal_to_json(&c.x), "y", decimal_to_json(&c.y))
}

pub(crate) fn feature_to_json(c: &XyColor) -> (r: JsonValue)
    ensures
        r@ == feature_json(*c),
{
    JsonValue::object1("xy", xy_to_json(c))
}

fn signal_colors_to_json(o: &Option<SignalColor>) -> (r: JsonValue)
    ensures
        r@ == signal_colors_json(*o),
{
    match o {
        Some(SignalColor::One(c)) => {
            let mut v: Vec<JsonValue> = Vec::new();
            v.push(feature_to_json(c));
            let ghost vv = v@;
            let r = JsonValue::array(v);
            assert(Seq::new(vv.len(), |i: int| vv[i]@) =~= seq![feature_json(*c)]);
            r
        },
        Some(SignalColor::Two(a, b)) => {
            let mut v: Vec<JsonValue> = Vec::new();
            v.push(feature_to_json(a));
            v.push(feature_to_json(b));
            let ghost vv = v@;
            let r = JsonValue::array(v);
            assert(Seq::new(vv.len(), |i: int| vv[i]@) =~= seq![feature_json(*a), feature_json(*b)]);
            r
        },
        None => JsonValue::Null,
    }
}

fn powerup_on_to_json(o: &Option<PowerupOnState>) -> (r: JsonValue)
    ensures
        r@ == powerup_on_json(*o),
{
    match o {
        Some(s) => {
            JsonValue::object2("mode", JsonValue::text(s.mode.tag()), "on", on_state_to_json(&s.on))
        },
        None => JsonValue::Null,
    }
}

fn powerup_dimming_to_json(o: &Option<PowerupDimming>) -> (r: JsonValue)
    ensures
        r@ == powerup_dimming_json(*o),
{
    match o {
        Some(d) => {
            let mut m: Vec<(String, JsonValue)> = Vec::new();
            m.push(("mode".to_owned(), JsonValue::text(d.mode.tag())));
            let ghost first = members_view(m@);
            match &d.brightness {
                Some(b) => {
                    m.push(("dimming".to_owned(), JsonValue::object1("brightness", decimal_to_json(b))));
                    assert(members_view(m@) =~= first + seq![("dimming"@, obj(seq![("brightness"@, decimal_json(*b))]))]);
                },
                None => {
                    assert(members_view(m@) =~= first + Seq::empty());
                },
            }
            assert(first =~= seq![("mode"@, Json::Str(d.mode.spec_tag()))]);
            JsonValue::object_of(m)
        },
        None => JsonValue::Null,
    }
}

fn powerup_color_to_json(o: &Option<PowerupColor>) -> (r: JsonValue)
    ensures
        r@ == powerup_color_json(*o),
{
    match o {
        Some(c) => {
            let mut m: Vec<(String, JsonValue)> = Vec::new();
            m.push(("mode".to_owned(), JsonValue::text(c.mode.tag())));
            let ghost first = members_view(m@);
            assert(first =~= seq![("mode"@, Json::Str(c.mode.spec_tag()))]);
            match &c.color {
                Some(xy) => {
                    m.push(("color".to_owned(), feature_to_json(xy)));
                    assert(members_view(m@) =~= first + seq![("color"@, feature_json(*xy))]);
                },
                None => {
                    assert(members_view(m@) =~= first + Seq::empty());
                },
            }
            let ghost second = members_view(m@);
            match c.color_temperature {
                Some(t) => {
                    m.push(("color_temperature".to_owned(), JsonValue::object1("mirek", JsonValue::number(t as u64))));
                    assert(members_view(m@) =~= second + seq![
                        ("color_temperature"@, obj(seq![("mirek"@, Json::Number(decimal_text(t as nat)))])),
                    ]);
                },
                None => {
                    assert(members_view(m@) =~= second + Seq::empty());
                },
            }
            JsonValue::object_of(m)
        },
        None => JsonValue::Null,
    }
}

fn points_to_json(points: &Vec<XyColor>) -> (r: JsonValue)
    ensures
        r@ == Json::Array(Seq::new(points@.len(), |i: int| feature_json(points@[i]))),
{
    let mut out: Vec<JsonValue> = Vec::new();
    let mut i: usize = 0;
    while i < points.len()
        invariant
            i <= points.len(),
            out.len() == i,
            forall|j: int| 0 <= j < i ==> #[trigger] out[j]@ == feature_json(points@[j]),
        decreases points.len() - i,
    {
        out.push(feature_to_json(&points[i]));
        i += 1;
    }
    let ghost ov = out@;
    let r = JsonValue::array(out);
    assert(Seq::new(ov.len(), |j: int| ov[j]@) =~= Seq::new(points@.len(), |j: int| feature_json(points@[j])));
    r
}

/// `{key: {"action": .., "mirek_delta": ..}}` and the like: one member
/// holding an object of two.
pub open spec fn nested2(key: Seq<char>, k1: Seq<char>, v1: Json, k2: Seq<char>, v2: Json) -> Json {
    obj(seq![(key, obj(seq![(k1, v1), (k2, v2)]))])
}

impl LightCommand {
    pub open spec fn spec_json(&self) -> Json {
        match self {
            LightCommand::Alert(e) => obj(seq![("alert"@, obj(seq![("action"@, Json::Str(e.spec_tag()))]))]),
            LightCommand::Color { x, y } => obj(
                seq![("color"@, obj(seq![("xy"@, obj(seq![("x"@, decimal_json(*x)), ("y"@, decimal_json(*y))]))]))],
            ),
            LightCommand::ColorTemp(m) => obj(
                seq![("color_temperature"@, obj(seq![("mirek"@, Json::Number(decimal_text(*m as nat)))]))],
            ),
            LightCommand::ColorTempDelta { action, mirek_delta } => nested2(
                "color_temperature_delta"@,
                "action"@,
                Json::Str(action.spec_tag()),
                "mirek_delta"@,
                opt_u16_json(*mirek_delta),
            ),
            LightCommand::Dim(p) => obj(seq![("dimming"@, obj(seq![("brightness"@, decimal_json(*p))]))]),
            LightCommand::DimDelta { action, brightness_delta } => nested2(
                "dimming_delta"@,
                "action"@,
                opt_delta_json(*action),
                "brightness_delta"@,
                opt_decimal_json(*brightness_delta),
            ),
            LightCommand::Dynamics { duration, speed } => nested2(
                "dynamics"@,
                "duration"@,
                opt_usize_json(*duration),
                "speed"@,
                opt_decimal_json(*speed),
            ),
            LightCommand::Gradient { points, mode } => nested2(
                "gradient"@,
                "points"@,
                Json::Array(Seq::new(points@.len(), |i: int| feature_json(points@[i]))),
                "mode"@,
                opt_gradient_mode_json(*mode),
            ),
            LightCommand::Effect(e) => obj(seq![("effects"@, obj(seq![("effect"@, Json::Str(e.spec_tag()))]))]),
            LightCommand::Identify => obj(seq![("identify"@, obj(seq![("action"@, Json::Str("identify"@))]))]),
            LightCommand::Metadata { name, archetype } => nested2(
                "metadata"@,
                "name"@,
                opt_string(*name),
                "archetype"@,
                product_archetype_json(*archetype),
            ),
            LightCommand::On(on) => obj(seq![("on"@, obj(seq![("on"@, Json::Bool(*on))]))]),
            LightCommand::PowerUp { preset, on, dimming, color } => obj(
                seq![
                    ("powerup"@, obj(
                        seq![
                            ("preset"@, Json::Str(preset.spec_tag())),
                            ("on"@, powerup_on_json(*on)),
                            ("dimming"@, powerup_dimming_json(*dimming)),
                            ("color"@, powerup_color_json(*color)),
                        ],
                    )),
                ],
            ),
            LightCommand::Signaling { signal, duration, colors } => obj(
                seq![
                    ("signaling"@, obj(
                        seq![
                            ("signal"@, Json::Str(signal.spec_tag())),
                            ("duration"@, Json::Number(decimal_text(*duration as nat))),
                            ("colors"@, signal_colors_json(*colors)),
                        ],
                    )),
                ],
            ),
            LightCommand::TimedEffect { effect, duration } => nested2(
                "timed_effects"@,
                "effect"@,
                Json::Str(effect.spec_tag()),
                "duration"@,
                opt_usize_json(*duration),
            ),
        }
    }

    /// The merge-patch fragment that this command writes.
    pub fn to_json(&self) -> (r: JsonValue)
        ensures
            r@ == self.spec_json(),
    {
        match self {
            LightCommand::Alert(e) => JsonValue::object1("alert", JsonValue::object1("action", JsonValue::text(e.tag()))),
            LightCommand::Color { x, y } => JsonValue::object1(
                "color",
                JsonValue::object1("xy", JsonValue::object2("x", decimal_to_json(x), "y", decimal_to_json(y))),
            ),
            LightCommand::ColorTemp(m) => JsonValue::object1(
                "color_temperature",
                JsonValue::object1("mirek", JsonValue::number(*m as u64)),
            ),
            LightCommand::ColorTempDelta { action, mirek_delta } => JsonValue::object1(
                "color_temperature_delta",
                JsonValue::object2("action", JsonValue::text(action.tag()), "mirek_delta", opt_u16_to_json(mirek_delta)),
            ),
            LightCommand::Dim(p) => JsonValue::object1("dimming", JsonValue::object1("brightness", decimal_to_json(p))),
            LightCommand::DimDelta { action, brightness_delta } => {
                let a = match action {
                    Some(a) => JsonValue::text(a.tag()),
                    None => JsonValue::Null,
                };
                JsonValue::object1(
                    "dimming_delta",
                    JsonValue::object2("action", a, "brightness_delta", opt_decimal_to_json(brightness_delta)),
                )
            },
            LightCommand::Dynamics { duration, speed } => JsonValue::object1(
                "dynamics",
                JsonValue::object2("duration", opt_usize_to_json(duration), "speed", opt_decimal_to_json(speed)),
            ),
            LightCommand::Gradient { points, mode } => {
                let m = match mode {
                    Some(m) => JsonValue::text(m.tag()),
                    None => JsonValue::Null,
                };
                JsonValue::object1("gradient", JsonValue::object2("points", points_to_json(points), "mode", m))
            },
            LightCommand::Effect(e) => JsonValue::object1("effects", JsonValue::object1("effect", JsonValue::text(e.tag()))),
            LightCommand::Identify => JsonValue::object1("identify", JsonValue::object1("action", JsonValue::text("identify"))),
            LightCommand::Metadata { name, archetype } => JsonValue::object1(
                "metadata",
                JsonValue::object2("name", JsonValue::opt_text(name), "archetype", product_archetype_to_json(archetype)),
            ),
            LightCommand::On(on) => JsonValue::object1("on", JsonValue::object1("on", JsonValue::Bool(*on))),
            LightCommand::PowerUp { preset, on, dimming, color } => {
                let mut m: Vec<(String, JsonValue)> = Vec::new();
                m.push(("preset".to_owned(), JsonValue::text(preset.tag())));
                m.push(("on".to_owned(), powerup_on_to_json(on)));
                m.push(("dimming".to_owned(), powerup_dimming_to_json(dimming)));
                m.push(("color".to_owned(), powerup_color_to_json(color)));
                assert(members_view(m@) =~= seq![
                    ("preset"@, Json::Str(preset.spec_tag())),
                    ("on"@, powerup_on_json(*on)),
                    ("dimming"@, powerup_dimming_json(*dimming)),
                    ("color"@, powerup_color_json(*color)),
                ]);
                JsonValue::object1("powerup", JsonValue::object_of(m))
            },
            LightCommand::Signaling { signal, duration, colors } => JsonValue::object1(
                "signaling",
                JsonValue::object3(
                    "signal",
                    JsonValue::text(signal.tag()),
                    "duration",
                    JsonValue::number(*duration as u64),
                    "colors",
                    signal_colors_to_json(colors),
                ),
            ),
            LightCommand::TimedEffect { effect, duration } => JsonValue::object1(
                "timed_effects",
                JsonValue::object2("effect", JsonValue::text(effect.tag()), "duration", opt_usize_to_json(duration)),
            ),
        }
    }
}

impl GroupCommand {
    pub open spec fn spec_json(&self) -> Json {
        match self {
            GroupCommand::Alert(e) => obj(seq![("alert"@, obj(seq![("action"@, Json::Str(e.spec_tag()))]))]),
            GroupCommand::Color { x, y } => obj(
                seq![("color"@, obj(seq![("xy"@, obj(seq![("x"@, decimal_json(*x)), ("y"@, decimal_json(*y))]))]))],
            ),
            GroupCommand::ColorTemp(m) => obj(
                seq![("color_temperature"@, obj(seq![("mirek"@, Json::Number(decimal_text(*m as nat)))]))],
            ),
            GroupCommand::ColorTempDelta { action, mirek_delta } => nested2(
                "color_temperature_delta"@,
                "action"@,
                Json::Str(action.spec_tag()),
                "mirek_delta"@,
                opt_u16_json(*mirek_delta),
            ),
            GroupCommand::Dim(p) => obj(seq![("dimming"@, obj(seq![("brightness"@, decimal_json(*p))]))]),
            GroupCommand::DimDelta { action, brightness_delta } => nested2(
                "dimming_delta"@,
                "action"@,
                Json::Str(action.spec_tag()),
                "brightness_delta"@,
                opt_decimal_json(*brightness_delta),
            ),
            GroupCommand::Dynamics { duration } => obj(seq![("dynamics"@, obj(seq![("duration"@, opt_usize_json(*duration))]))]),
            GroupCommand::On(on) => obj(seq![("on"@, obj(seq![("on"@, Json::Bool(*on))]))]),
            GroupCommand::Signaling { signal, duration, colors } => obj(
                seq![
                    ("signaling"@, obj(
                        seq![
                            ("signal"@, Json::Str(signal.spec_tag())),
                            ("duration"@, Json::Number(decimal_text(*duration as nat))),
                            ("colors"@, signal_colors_json(*colors)),
                        ],
                    )),
                ],
            ),
        }
    }

    /// The merge-patch fragment that this command writes.
    pub fn to_json(&self) -> (r: JsonValue)
        ensures
            r@ == self.spec_json(),
    {
        match self {
            GroupCommand::Alert(e) => JsonValue::object1("alert", JsonValue::object1("action", JsonValue::text(e.tag()))),
            GroupCommand::Color { x, y } => JsonValue::object1(
                "color",
                JsonValue::object1("xy", JsonValue::object2("x", decimal_to_json(x), "y", decimal_to_json(y))),
            ),
            GroupCommand::ColorTemp(m) => JsonValue::object1(
                "color_temperature",
                JsonValue::object1("mirek", JsonValue::number(*m as u64)),
            ),
            GroupCommand::ColorTempDelta { action, mirek_delta } => JsonValue::object1(
                "color_temperature_delta",
                JsonValue::object2("action", JsonValue::text(action.tag()), "mirek_delta", opt_u16_to_json(mirek_delta)),
            ),
            GroupCommand::Dim(p) => JsonValue::object1("dimming", JsonValue::object1("brightness", decimal_to_json(p))),
            GroupCommand::DimDelta { action, brightness_delta } => JsonValue::object1(
                "dimming_delta",
                JsonValue::object2(
                    "action",
                    JsonValue::text(action.tag()),
                    "brightness_delta",
                    opt_decimal_to_json(brightness_delta),
                ),
            ),
            GroupCommand::Dynamics { duration } => JsonValue::object1(
                "dynamics",
                JsonValue::object1("duration", opt_usize_to_json(duration)),
            ),
            GroupCommand::On(on) => JsonValue::object1("on", JsonValue::object1("on", JsonValue::Bool(*on))),
            GroupCommand::Signaling { signal, duration, colors } => JsonValue::object1(
                "signaling",
                JsonValue::object3(
                    "signal",
                    JsonValue::text(signal.tag()),
                    "duration",
                    JsonValue::number(*duration as u64),
                    "colors",
                    signal_colors_to_json(colors),
                ),
            ),
        }
    }
}

} // verus!
