//! Buttons and rotary controls.
use vstd::prelude::*;
use crate::resource::{ResourceIdentifier, ResourceType};

verus! {

#[derive(Clone, Debug, PartialEq)]
pub struct Button {
    data: ButtonData,
}

#[derive(Clone, Debug, PartialEq)]
pub struct ButtonData {
    /// Unique identifier representing a specific resource instance.
    pub id: String,
    /// Clip v1 resource identifier.
    pub id_v1: Option<String>,
    /// Owner of the service, in case the owner service is deleted, the service also gets deleted.
    pub owner: ResourceIdentifier,
    /// Metadata describing this resource.
    pub metadata: ButtonMetadata,
    pub button: ButtonState,
}

#[derive(Clone, Copy, Debug, PartialEq, Eq, Hash, Structural)]
pub enum ButtonEvent {
    InitialPress,
    Repeat,
    ShortRelease,
    LongRelease,
    DoubleShortRelease,
    LongPress,
}

#[derive(Clone, Debug, PartialEq)]
pub struct ButtonMetadata {
    /// Control identifier of the switch which is unique per device.
    /// In combination with type:
    /// - dots Number of dots
    /// – number Number printed on device
    /// – other a logical order of controls in switch
    pub control_id: u8,
}

#[derive(Clone, Debug, PartialEq)]
pub struct ButtonReport {
    /// Last time the value of this property is updated.
    pub updated: String,
    /// Events which can be sent by a button control.
    pub event: ButtonEvent,
}

#[derive(Clone, Debug, PartialEq)]
pub struct ButtonState {
    pub last_event: Option<ButtonEvent>,
    pub button_report: Option<ButtonReport>,
    /// Duration of a light transition or timed effects in ms.
    pub repeat_interval: Option<usize>,
    /// List of all button events that this device supports.
    pub event_values: Vec<ButtonEvent>,
}

#[derive(Clone, Debug, PartialEq)]
pub struct RelativeRotary {
    data: RelativeRotaryData,
}

#[derive(Clone, Copy, Debug, PartialEq, Eq, Hash, Structural)]
pub enum RelativeRotaryAction {
    Start,
    Repeat,
}

#[derive(Clone, Debug, PartialEq)]
pub struct RelativeRotaryData {
    /// Unique identifier representing a specific resource instance.
    pub id: String,
    /// Clip v1 resource identifier.
    pub id_v1: Option<String>,
    /// Owner of the service, in case the owner service is deleted, the service also gets deleted.
    pub owner: ResourceIdentifier,
    pub relative_rotary: RelativeRotaryState,
}

#[derive(Clone, Copy, Debug, PartialEq, Eq, Hash, Structural)]
pub enum RelativeRotaryDirection {
    Clockwise,
    CounterClockwise,
}

#[derive(Clone, Debug, PartialEq)]
pub struct RelativeRotaryLastEvent {
    /// Indicates which type of rotary event is received.
    pub action: RelativeRotaryAction,
    pub rotation: RelativeRotaryRotationState,
}

#[derive(Clone, Debug, PartialEq)]
pub struct RelativeRotaryRotationState {
    /// A rotation opposite to the previous rotation will always start with new start command.
    pub direction: RelativeRotaryDirection,
    /// Amount of rotation since previous event in case of repeat,
    /// amount of rotation since start in case of a start_event.
    /// Resolution = `1000` steps / `360` degree rotation.
    pub steps: u16,
    /// Duration of rotation since previous event in case of repeat,
    /// amount of rotation since start in case of a start_event.
    /// Duration is specified in ms.
    pub duration: u16,
}

#[derive(Clone, Debug, PartialEq)]
pub struct RelativeRotaryState {
    /// Renamed to RelativeRotaryReport. Indicates which type of rotary event is received.
    pub last_event: Option<RelativeRotaryLastEvent>,
    pub rotary_report: Option<RotationReport>,
}

#[derive(Clone, Debug, PartialEq)]
pub struct RotationReport {
    /// Last time the value of this property was updated.
    pub updated: String,
    /// Indicates which type of rotary event was received.
    pub action: RelativeRotaryAction,
    pub rotation: RelativeRotaryRotationState,
}

impl Button {
    /// The resource's last known state.
    pub closed spec fn view(&self) -> ButtonData {
        self.data
    }

    pub fn new(data: ButtonData) -> (r: Button)
        ensures
            r@ == data,
    {
        Button { data }
    }

    /// The resource's last known state.
    pub fn data(&self) -> (r: &ButtonData)
        ensures
            *r == self@,
    {
        &self.data
    }

    pub fn id(&self) -> (r: &str)
        ensures
            r@ == self@.id@,
    {
        self.data.id.as_str()
    }

    /// The identifier of this resource.
    pub fn rid(&self) -> (r: ResourceIdentifier)
        ensures
            r.rid@ == self@.id@,
            r.rtype == ResourceType::Button,
    {
        self.data.rid()
    }

    /// The control identifier of this button.
    pub fn control_id(&self) -> (r: u8)
        ensures
            r == self@.metadata.control_id,
    {
        self.data.metadata.control_id
    }
}

impl ButtonData {
    /// The identifier of this resource.
    pub fn rid(&self) -> (r: ResourceIdentifier)
        ensures
            r.rid@ == self.id@,
            r.rtype == ResourceType::Button,
    {
        ResourceIdentifier { rid: self.id.clone(), rtype: ResourceType::Button }
    }
}

impl RelativeRotary {
    /// The resource's last known state.
    pub closed spec fn view(&self) -> RelativeRotaryData {
        self.data
    }

    pub fn new(data: RelativeRotaryData) -> (r: RelativeRotary)
        ensures
            r@ == data,
    {
        RelativeRotary { data }
    }

    /// The resource's last known state.
    pub fn data(&self) -> (r: &RelativeRotaryData)
        ensures
            *r == self@,
    {
        &self.data
    }

    pub fn id(&self) -> (r: &str)
        ensures
            r@ == self@.id@,
    {
        self.data.id.as_str()
    }

    /// The identifier of this resource.
    pub fn rid(&self) -> (r: ResourceIdentifier)
        ensures
            r.rid@ == self@.id@,
            r.rtype == ResourceType::RelativeRotary,
    {
        self.data.rid()
    }
}

impl RelativeRotaryData {
    /// The identifier of this resource.
    pub fn rid(&self) -> (r: ResourceIdentifier)
        ensures
            r.rid@ == self.id@,
            r.rtype == ResourceType::RelativeRotary,
    {
        ResourceIdentifier { rid: self.id.clone(), rtype: ResourceType::RelativeRotary }
    }
}

} // verus!
