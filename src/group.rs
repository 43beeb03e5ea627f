//! Grouped lights.
use vstd::prelude::*;
use crate::light::SignalType;

verus! {

#[derive(Clone, Debug, PartialEq)]
pub struct GroupSignalingState {
    /// Signals that the group supports.
    pub signal_values: Option<Vec<SignalType>>,
}

} // verus!
