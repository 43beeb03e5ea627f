//! Zigbee connectivity and device discovery.
use vstd::prelude::*;
use crate::device::SetStatus;
use crate::resource::{ResourceIdentifier, ResourceType};

verus! {

#[derive(Clone, Debug, PartialEq)]
pub struct ZGPConnectivity {
    data: ZGPConnectivityData,
}

#[derive(Clone, Debug, PartialEq)]
pub struct ZGPConnectivityData {
    /// Unique identifier representing a specific resource instance.
    pub id: String,
    /// Clip v1 resource identifier.
    pub id_v1: Option<String>,
    /// Owner of the service, in case the owner service is deleted, the service also gets deleted.
    pub owner: ResourceIdentifier,
    /// Current device communication state with the bridge
    pub status: ZigbeeStatus,
    pub source_id: String,
}

#[derive(Clone, Copy, Debug, PartialEq, Eq, Hash, Structural)]
pub enum ZigbeeChannel {
    Channel11,
    Channel15,
    Channel20,
    Channel25,
    NotConfigured,
}

#[derive(Clone, Debug, PartialEq)]
pub struct ZigbeeChannelState {
    pub status: SetStatus,
    /// Current value of the zigbee channel.
    /// If recently changed (`status`: [SetStatus::Changing]), the value will reflect the channel that is currently being changed to.
    pub value: Option<ZigbeeChannel>,
}

#[derive(Clone, Debug, PartialEq)]
pub struct ZigbeeConnectivityData {
    /// Unique identifier representing a specific resource instance.
    pub id: String,
    /// Clip v1 resource identifier.
    pub id_v1: Option<String>,
    /// Owner of the service, in case the owner service is deleted, the service also gets deleted.
    pub owner: ResourceIdentifier,
    /// Current device communication state with the bridge
    pub status: ZigbeeStatus,
    pub mac_address: String,
    pub channel: Option<ZigbeeChannelState>,
    /// Extended pan id of the zigbee network.
    pub extended_pan_id: Option<String>,
}

#[derive(Clone, Debug, PartialEq)]
pub struct ZigbeeDeviceDiscoveryData {
    /// Unique identifier representing a specific resource instance.
    pub id: String,
    /// Clip v1 resource identifier.
    pub id_v1: Option<String>,
    /// Owner of the service, in case the owner service is deleted, the service also gets deleted.
    pub owner: ResourceIdentifier,
    /// Current device communication state with the bridge
    pub status: ZigbeeDeviceDiscoveryStatus,
}

#[derive(Clone, Copy, Debug, PartialEq, Eq, Hash, Structural)]
pub enum ZigbeeDeviceDiscoveryStatus {
    Active,
    Ready,
}

#[derive(Clone, Copy, Debug, PartialEq, Eq, Hash, Structural)]
pub enum ZigbeeStatus {
    /// The device has been recently been available.
    Connected,
    /// The device has not been recently been available.
    Disconnected,
    /// The device is powered off or has network issues.
    ConnectivityIssue,
    /// The device only talks to bridge.
    UnidirectionalIncoming,
}

impl ZGPConnectivity {
    /// The resource's last known state.
    pub closed spec fn view(&self) -> ZGPConnectivityData {
        self.data
    }

    pub fn new(data: ZGPConnectivityData) -> (r: ZGPConnectivity)
        ensures
            r@ == data,
    {
        ZGPConnectivity { data }
    }

    /// The resource's last known state.
    pub fn data(&self) -> (r: &ZGPConnectivityData)
        ensures
            *r == self@,
    {
        &self.data
    }

    pub fn id(&self) -> (r: &str)
        ensures
            r@ == self@.id@,
    {
        self.data.id.as_str()
    }

    /// The identifier of this resource.
    pub fn rid(&self) -> (r: ResourceIdentifier)
        ensures
            r.rid@ == self@.id@,
            r.rtype == ResourceType::ZGPConnectivity,
    {
        self.data.rid()
    }

    /// The communication state of this device.
    pub fn status(&self) -> (r: ZigbeeStatus)
        ensures
            r == self@.status,
    {
        self.data.status
    }
}

impl ZGPConnectivityData {
    /// The identifier of this resource.
    pub fn rid(&self) -> (r: ResourceIdentifier)
        ensures
            r.rid@ == self.id@,
            r.rtype == ResourceType::ZGPConnectivity,
    {
        ResourceIdentifier { rid: self.id.clone(), rtype: ResourceType::ZGPConnectivity }
    }
}

impl ZigbeeConnectivityData {
    /// The identifier of this resource.
    pub fn rid(&self) -> (r: ResourceIdentifier)
        ensures
            r.rid@ == self.id@,
            r.rtype == ResourceType::ZigbeeConnectivity,
    {
        ResourceIdentifier { rid: self.id.clone(), rtype: ResourceType::ZigbeeConnectivity }
    }
}

impl ZigbeeDeviceDiscoveryData {
    /// The identifier of this resource.
    pub fn rid(&self) -> (r: ResourceIdentifier)
        ensures
            r.rid@ == self.id@,
            r.rtype == ResourceType::ZigbeeDeviceDiscovery,
    {
        ResourceIdentifier { rid: self.id.clone(), rtype: ResourceType::ZigbeeDeviceDiscovery }
    }
}

impl ZigbeeChannel {
    /// The wire name of this value.
    pub open spec fn spec_tag(&self) -> Seq<char> {
        match self {
            ZigbeeChannel::Channel11 => "channel_11"@,
            ZigbeeChannel::Channel15 => "channel_15"@,
            ZigbeeChannel::Channel20 => "channel_20"@,
            ZigbeeChannel::Channel25 => "channel_25"@,
            ZigbeeChannel::NotConfigured => "not_configured"@,
        }
    }

    /// The wire name of this value.
    pub fn tag(&self) -> (r: &'static str)
        ensures
            r@ == self.spec_tag(),
    {
        match self {
            ZigbeeChannel::Channel11 => "channel_11",
            ZigbeeChannel::Channel15 => "channel_15",
            ZigbeeChannel::Channel20 => "channel_20",
            ZigbeeChannel::Channel25 => "channel_25",
            ZigbeeChannel::NotConfigured => "not_configured",
        }
    }
}

} // verus!
