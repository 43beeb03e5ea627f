//! HomeKit and Matter.
use vstd::prelude::*;
use crate::resource::{ResourceIdentifier, ResourceType};

verus! {

#[derive(Clone, Debug, PartialEq)]
pub struct FabricData {
    pub label: String,
    /// Matter vendor id of entity that created the fabric association.
    pub vendor_id: usize,
}

/// Internal representation of a [HomeKit].
#[derive(Clone, Debug, PartialEq)]
pub struct HomeKitData {
    /// Unique identifier representing a specific resource instance.
    pub id: String,
    /// Clip v1 resource identifier.
    pub id_v1: Option<String>,
    /// Read only field indicating whether homekit is already paired, currently open for pairing, or unpaired.

    /// Transitions:
    /// - [HomeKitStatus::Unpaired] to [HomeKitStatus::Pairing]: pushlink button press or power cycle.
    /// - [HomeKitStatus::Pairing] to [HomeKitStatus::Paired]: through HAP.
    /// - [HomeKitStatus::Pairing] to [HomeKitStatus::Unpaired]: >10 minutes spent attempting to pair.
    /// - [HomeKitStatus::Paired] > [HomeKitStatus::Unpaired]: homekit reset.
    pub status: HomeKitStatus,
}

#[derive(Clone, Copy, Debug, PartialEq, Eq, Hash, Structural)]
pub enum HomeKitStatus {
    Paired,
    Pairing,
    Unpaired,
}

/// Internal representation of the [Matter] interop interface.
#[derive(Clone, Debug, PartialEq)]
pub struct MatterData {
    /// Unique identifier representing a specific resource instance.
    pub id: String,
    /// Clip v1 resource identifier.
    pub id_v1: Option<String>,
    /// Maximum number of fabrics that can exist at a time.
    pub max_fabrics: usize,
    /// Indicates whether a physical QR code is present.
    pub has_qr_code: bool,
}

/// A virtual device representing the network of
/// [Matter](https://csa-iot.org/all-solutions/matter/) devices.
#[derive(Clone, Debug, PartialEq)]
pub struct MatterFabric {
    data: MatterFabricData,
}

/// Internal representation of a [MatterFabric].
#[derive(Clone, Debug, PartialEq)]
pub struct MatterFabricData {
    /// Unique identifier representing a specific resource instance.
    pub id: String,
    /// Clip v1 resource identifier.
    pub id_v1: Option<String>,
    /// Only a fabric with status [MatterFabricStatus::Paired] has some `fabric_data`.
    pub status: MatterFabricStatus,
    /// Human readable context to identify fabric.
    pub fabric_data: Option<FabricData>,
    /// UTC date and time when the fabric association was created.
    pub creation_time: String,
}

#[derive(Clone, Copy, Debug, PartialEq, Eq, Hash, Structural)]
pub enum MatterFabricStatus {
    Pending,
    TimedOut,
    Paired,
}

impl HomeKitData {
    /// The identifier of this resource.
    pub fn rid(&self) -> (r: ResourceIdentifier)
        ensures
            r.rid@ == self.id@,
            r.rtype == ResourceType::HomeKit,
    {
        ResourceIdentifier { rid: self.id.clone(), rtype: ResourceType::HomeKit }
    }
}

impl MatterData {
    /// The identifier of this resource.
    pub fn rid(&self) -> (r: ResourceIdentifier)
        ensures
            r.rid@ == self.id@,
            r.rtype == ResourceType::Matter,
    {
        ResourceIdentifier { rid: self.id.clone(), rtype: ResourceType::Matter }
    }
}

impl MatterFabric {
    /// The resource's last known state.
    pub closed spec fn view(&self) -> MatterFabricData {
        self.data
    }

    pub fn new(data: MatterFabricData) -> (r: MatterFabric)
        ensures
            r@ == data,
    {
        MatterFabric { data }
    }

    /// The resource's last known state.
    pub fn data(&self) -> (r: &MatterFabricData)
        ensures
            *r == self@,
    {
        &self.data
    }

    pub fn id(&self) -> (r: &str)
        ensures
            r@ == self@.id@,
    {
        self.data.id.as_str()
    }

    /// The identifier of this resource.
    pub fn rid(&self) -> (r: ResourceIdentifier)
        ensures
            r.rid@ == self@.id@,
            r.rtype == ResourceType::MatterFabric,
    {
        self.data.rid()
    }
}

impl MatterFabricData {
    /// The identifier of this resource.
    pub fn rid(&self) -> (r: ResourceIdentifier)
        ensures
            r.rid@ == self.id@,
            r.rtype == ResourceType::MatterFabric,
    {
        ResourceIdentifier { rid: self.id.clone(), rtype: ResourceType::MatterFabric }
    }
}

} // verus!
