//! Behavior scripts and instances.
use vstd::prelude::*;
use crate::entertainment::Entertainment;
use crate::resource::ResourceIdentifier;

verus! {

#[derive(Clone, Copy, Debug, PartialEq, Eq, Hash, Structural)]
pub enum BehaviorInstanceStatus {
    Initializing,
    Running,
    Disabled,
    Errored,
}

#[derive(Clone, Debug, PartialEq)]
pub struct BehaviorScriptMetadata {
    /// Human readable name of a resource.
    pub name: Option<String>,
    pub category: BehaviorScriptType,
}

#[derive(Clone, Copy, Debug, PartialEq, Eq, Hash, Structural)]
pub enum BehaviorScriptType {
    Automation,
    Entertainment,
    Accessory,
}

#[derive(Clone, Debug, PartialEq)]
pub struct ResourceDependee {
    target: ResourceIdentifier,
    level: ResourceDependeeImportance,
}

#[derive(Clone, Copy, Debug, PartialEq, Eq, Hash, Structural)]
pub enum ResourceDependeeImportance {
    Critical,
    NonCritical,
}

#[derive(Clone, Debug, PartialEq)]
pub struct SchemaRef {
    pub sref: String,
}

} // verus!
