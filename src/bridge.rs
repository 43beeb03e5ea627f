//! The bridge's own resource and the errors of finding and building one.
use vstd::prelude::*;
use crate::resource::ResourceIdentifier;

verus! {

#[derive(Clone, Copy, Debug, PartialEq, Eq, Hash, Structural)]
pub enum BridgeBuildError {
    NoIp,
    NoAppKey,
}

/// Internal representation of a [Bridge].
#[derive(Clone, Debug, PartialEq)]
pub struct BridgeData {
    /// Unique identifier representing a specific resource instance.
    pub id: String,
    /// Clip v1 resource identifier.
    pub id_v1: Option<String>,
    /// Owner of the service, in case the owner service is deleted, the service also gets deleted.
    pub owner: ResourceIdentifier,
    /// Unique identifier of the bridge as printed on the device. Lower case (shouldn't it be upper case?)
    pub bridge_id: String,
    pub time_zone: TimeZone,
}

#[derive(Clone, Copy, Debug, PartialEq, Eq, Hash, Structural)]
pub enum BridgeDiscoveryError {
    NotFound,
    MDNSUnavailable,
    HTTPUnavailable,
}

#[derive(Clone, Copy, Debug, PartialEq, Eq, Hash, Structural)]
pub enum BridgeUserError {
    UnableToCreate,
}

#[derive(Clone, Debug, PartialEq)]
pub struct TimeZone {
    pub time_zone: String,
}

} // verus!
