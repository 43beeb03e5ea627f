//! Entertainment services and configurations.
use vstd::prelude::*;
use crate::resource::{ResourceIdentifier, ResourceType};

verus! {

#[derive(Clone, Debug, PartialEq)]
pub struct Entertainment {
    data: EntertainmentData,
}

#[derive(Clone, Copy, Debug, PartialEq, Eq, Hash, Structural)]
pub enum EntertainmentConfigurationType {
    /// Channels are organized around content from a screen.
    Screen,
    /// Channels are organized around content from one or several monitors.
    Monitor,
    /// Channels are organized for music synchronization.
    Music,
    /// Channels are organized to provide 3d spatial effects.
    Space3D,
    /// General use-case.
    Other,
}

#[derive(Clone, Debug, PartialEq)]
pub struct EntertainmentData {
    /// Unique identifier representing a specific resource instance.
    pub id: String,
    /// Clip v1 resource identifier.
    pub id_v1: Option<String>,
    /// Owner of the service, in case the owner service is deleted, the service also gets deleted.
    pub owner: ResourceIdentifier,
    /// Indicates if a lamp can be used for entertainment streaming as renderer.
    pub renderer: bool,
    /// Indicates which light service is linked to this entertainment service.
    pub renderer_reference: Option<ResourceIdentifier>,
    /// Indicates if a lamp can be used for entertainment streaming as a proxy node.
    pub proxy: bool,
    /// Indicates if a lamp can handle the equalization factor to dimming maximum brightness in a stream.
    pub equalizer: bool,
    /// Indicates the maximum number of parallel streaming sessions the bridge supports.
    pub max_streams: Option<usize>,
    /// Holds all parameters concerning the segmentations capabilities of a device.
    pub segments: Option<SegmentData>,
}

#[derive(Clone, Debug, PartialEq)]
pub struct Segment {
    pub start: usize,
    pub length: usize,
}

#[derive(Clone, Debug, PartialEq)]
pub struct SegmentData {
    /// Defines if the segmentation of the device are configurable or not.
    pub configurable: bool,
    pub max_segments: usize,
    /// Contains the segments configuration of the device for entertainment purposes.
    /// A device can be segmented in a single way.
    pub segments: Vec<Segment>,
}

#[derive(Clone, Debug, PartialEq)]
pub struct SegmentReference {
    pub service: ResourceIdentifier,
    pub index: usize,
}

#[derive(Clone, Debug, PartialEq)]
pub struct StreamProxy {
    /// Proxymode used for this group.
    pub mode: StreamProxyMode,
    /// Reference to the device acting as proxy.
    /// The proxy node relays the entertainment traffic and should be located in or close to all entertainment lamps in this group.
    /// The node set by the application ([StreamProxyMode::Manual]) resp selected by the bridge ([StreamProxyMode::Auto]).
    /// Writing sets `mode` to [StreamProxyMode::Manual]. Is not allowed to be combined with [StreamProxyMode::Auto].
    /// Can be type [ResourceType::Bridge] or [ResourceType::ZigbeeConnectivity].
    pub node: ResourceIdentifier,
}

#[derive(Clone, Copy, Debug, PartialEq, Eq, Hash, Structural)]
pub enum StreamProxyMode {
    Auto,
    Manual,
}

impl Entertainment {
    /// The resource's last known state.
    pub closed spec fn view(&self) -> EntertainmentData {
        self.data
    }

    pub fn new(data: EntertainmentData) -> (r: Entertainment)
        ensures
            r@ == data,
    {
        Entertainment { data }
    }

    /// The resource's last known state.
    pub fn data(&self) -> (r: &EntertainmentData)
        ensures
            *r == self@,
    {
        &self.data
    }

    pub fn id(&self) -> (r: &str)
        ensures
            r@ == self@.id@,
    {
        self.data.id.as_str()
    }

    /// The identifier of this resource.
    pub fn rid(&self) -> (r: ResourceIdentifier)
        ensures
            r.rid@ == self@.id@,
            r.rtype == ResourceType::Entertainment,
    {
        self.data.rid()
    }
}

impl EntertainmentData {
    /// The identifier of this resource.
    pub fn rid(&self) -> (r: ResourceIdentifier)
        ensures
            r.rid@ == self.id@,
            r.rtype == ResourceType::Entertainment,
    {
        ResourceIdentifier { rid: self.id.clone(), rtype: ResourceType::Entertainment }
    }
}

} // verus!
