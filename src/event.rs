//! Events that the bridge pushes: a kind (add, update, delete, error) and
//! the documents it concerns.
use vstd::prelude::*;
use crate::json::{Json, JsonValue};
use crate::resource::same_text;

verus! {

/// What an event does to the resources it carries.
#[derive(Clone, Copy, Debug, PartialEq, Eq, Hash, Structural)]
pub enum HueEventType {
    Add,
    Delete,
    Update,
    Error,
}

/// The kind that an event's wire tag names, if any.
pub open spec fn event_type_of_tag(s: Seq<char>) -> Option<HueEventType> {
    if s == "add"@ {
        Some(HueEventType::Add)
    } else if s == "delete"@ {
        Some(HueEventType::Delete)
    } else if s == "update"@ {
        Some(HueEventType::Update)
    } else if s == "error"@ {
        Some(HueEventType::Error)
    } else {
        None
    }
}

impl HueEventType {
    /// The event kind named by a wire tag.
    pub fn from_tag(s: &str) -> (r: Option<HueEventType>)
        ensures
            r == event_type_of_tag(s@),
    {
        if same_text(s, "add") {
            Some(HueEventType::Add)
        } else if same_text(s, "delete") {
            Some(HueEventType::Delete)
        } else if same_text(s, "update") {
            Some(HueEventType::Update)
        } else if same_text(s, "error") {
            Some(HueEventType::Error)
        } else {
            None
        }
    }
}

/// One pushed event: full documents for an add, patches for an update,
/// documents holding at least `id` and `type` for a delete.
pub struct HueEvent {
    pub id: String,
    pub creation_time: String,
    pub data: Vec<JsonValue>,
    pub etype: HueEventType,
}

impl HueEvent {
    /// The event's kind and the models of its documents.
    pub open spec fn model(&self) -> (HueEventType, Seq<Json>) {
        (self.etype, Seq::new(self.data.len() as nat, |i: int| self.data[i]@))
    }
}

} // verus!
