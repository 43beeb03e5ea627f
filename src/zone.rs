//! Rooms, zones and the home.
use vstd::prelude::*;
use crate::command::{identifier_json, identifier_to_json};
use crate::json::{Json, JsonValue, obj};
use crate::resource::{ResourceIdentifier, ResourceType};

verus! {

#[derive(Clone, Debug, PartialEq)]
pub struct Home {
    data: HomeData,
}

#[derive(Clone, Debug, PartialEq)]
pub struct HomeData {
    /// Unique identifier representing a specific resource instance.
    pub id: String,
    /// Clip v1 resource identifier.
    pub id_v1: Option<String>,
    /// Child devices/services to group by the derived group.
    pub children: Vec<ResourceIdentifier>,
    /// References all services aggregating control and state of children in the group.
    ///
    /// This includes all services grouped in the group hierarchy given by child relation.
    /// This includes all services of a device grouped in the group hierarchy given by child relation.
    /// Aggregation is per service type, i.e. every service type which can be grouped has a
    /// corresponding definition of grouped type.
    /// Supported `rtype`: [ResourceType::Group]
    pub services: Vec<ResourceIdentifier>,
}

#[derive(Clone, Copy, Debug, PartialEq, Eq, Hash, Structural)]
pub enum ZoneArchetype {
    Attic,
    Balcony,
    Barbecue,
    Bathroom,
    Bedroom,
    Carport,
    Closet,
    Computer,
    Dining,
    Downstairs,
    Driveway,
    FrontDoor,
    Garage,
    Garden,
    GuestZone,
    Gym,
    Hallway,
    Home,
    KidsBedroom,
    Kitchen,
    LaundryZone,
    LivingZone,
    Lounge,
    ManCave,
    Music,
    Nursery,
    Office,
    Other,
    Pool,
    Porch,
    Reading,
    Recreation,
    Staircase,
    Storage,
    Studio,
    Terrace,
    Toilet,
    TopFloor,
    Tv,
    Upstairs,
}

#[derive(Clone, Debug, PartialEq)]
pub struct ZoneBuilder {
    pub metadata: ZoneMetadata,
    pub children: Vec<ResourceIdentifier>,
}

#[derive(Clone, Debug, PartialEq)]
pub struct ZoneData {
    /// Unique identifier representing a specific resource instance.
    pub id: String,
    /// Clip v1 resource identifier.
    pub id_v1: Option<String>,
    /// Child devices/services to group by the derived group.
    pub children: Vec<ResourceIdentifier>,
    /// References all services aggregating control and state of children in the group.
    ///
    /// This includes all services grouped in the group hierarchy given by child relation.
    /// This includes all services of a device grouped in the group hierarchy given by child relation.
    /// Aggregation is per service type, i.e. every service type which can be grouped has a
    /// corresponding definition of grouped type.
    /// Supported `rtype`: [ResourceType::Group]
    pub services: Vec<ResourceIdentifier>,
    /// Configuration for a zone object.
    pub metadata: ZoneMetadata,
}

#[derive(Clone, Debug, PartialEq)]
pub struct ZoneMetadata {
    /// Human readable name of a resource.
    pub name: String,
    /// Possible archetypes of a zone.
    pub archetype: ZoneArchetype,
}

impl Home {
    /// The resource's last known state.
    pub closed spec fn view(&self) -> HomeData {
        self.data
    }

    pub fn new(data: HomeData) -> (r: Home)
        ensures
            r@ == data,
    {
        Home { data }
    }

    /// The resource's last known state.
    pub fn data(&self) -> (r: &HomeData)
        ensures
            *r == self@,
    {
        &self.data
    }

    pub fn id(&self) -> (r: &str)
        ensures
            r@ == self@.id@,
    {
        self.data.id.as_str()
    }

    /// The identifier of this resource.
    pub fn rid(&self) -> (r: ResourceIdentifier)
        ensures
            r.rid@ == self@.id@,
            r.rtype == ResourceType::BridgeHome,
    {
        self.data.rid()
    }
}

impl HomeData {
    /// The identifier of this resource.
    pub fn rid(&self) -> (r: ResourceIdentifier)
        ensures
            r.rid@ == self.id@,
            r.rtype == ResourceType::BridgeHome,
    {
        ResourceIdentifier { rid: self.id.clone(), rtype: ResourceType::BridgeHome }
    }
}

impl ZoneData {
    /// The identifier of this resource.
    pub fn rid(&self) -> (r: ResourceIdentifier)
        ensures
            r.rid@ == self.id@,
            r.rtype == ResourceType::Zone,
    {
        ResourceIdentifier { rid: self.id.clone(), rtype: ResourceType::Zone }
    }
}

impl ZoneArchetype {
    /// The wire name of this value.
    pub open spec fn spec_tag(&self) -> Seq<char> {
        match self {
            ZoneArchetype::Attic => "attic"@,
            ZoneArchetype::Balcony => "balcony"@,
            ZoneArchetype::Barbecue => "barbecue"@,
            ZoneArchetype::Bathroom => "bathroom"@,
            ZoneArchetype::Bedroom => "bedroom"@,
            ZoneArchetype::Carport => "carport"@,
            ZoneArchetype::Closet => "closet"@,
            ZoneArchetype::Computer => "computer"@,
            ZoneArchetype::Dining => "dining"@,
            ZoneArchetype::Downstairs => "downstairs"@,
            ZoneArchetype::Driveway => "driveway"@,
            ZoneArchetype::FrontDoor => "front_door"@,
            ZoneArchetype::Garage => "garage"@,
            ZoneArchetype::Garden => "garden"@,
            ZoneArchetype::GuestZone => "guest_zone"@,
            ZoneArchetype::Gym => "gym"@,
            ZoneArchetype::Hallway => "hallway"@,
            ZoneArchetype::Home => "home"@,
            ZoneArchetype::KidsBedroom => "kids_bedroom"@,
            ZoneArchetype::Kitchen => "kitchen"@,
            ZoneArchetype::LaundryZone => "laundry_zone"@,
            ZoneArchetype::LivingZone => "living_zone"@,
            ZoneArchetype::Lounge => "lounge"@,
            ZoneArchetype::ManCave => "man_cave"@,
            ZoneArchetype::Music => "music"@,
            ZoneArchetype::Nursery => "nursery"@,
            ZoneArchetype::Office => "office"@,
            ZoneArchetype::Other => "other"@,
            ZoneArchetype::Pool => "pool"@,
            ZoneArchetype::Porch => "porch"@,
            ZoneArchetype::Reading => "reading"@,
            ZoneArchetype::Recreation => "recreation"@,
            ZoneArchetype::Staircase => "staircase"@,
            ZoneArchetype::Storage => "storage"@,
            ZoneArchetype::Studio => "studio"@,
            ZoneArchetype::Terrace => "terrace"@,
            ZoneArchetype::Toilet => "toilet"@,
            ZoneArchetype::TopFloor => "top_floor"@,
            ZoneArchetype::Tv => "tv"@,
            ZoneArchetype::Upstairs => "upstairs"@,
        }
    }

    /// The wire name of this value.
    pub fn tag(&self) -> (r: &'static str)
        ensures
            r@ == self.spec_tag(),
    {
        match self {
            ZoneArchetype::Attic => "attic",
            ZoneArchetype::Balcony => "balcony",
            ZoneArchetype::Barbecue => "barbecue",
            ZoneArchetype::Bathroom => "bathroom",
            ZoneArchetype::Bedroom => "bedroom",
            ZoneArchetype::Carport => "carport",
            ZoneArchetype::Closet => "closet",
            ZoneArchetype::Computer => "computer",
            ZoneArchetype::Dining => "dining",
            ZoneArchetype::Downstairs => "downstairs",
            ZoneArchetype::Driveway => "driveway",
            ZoneArchetype::FrontDoor => "front_door",
            ZoneArchetype::Garage => "garage",
            ZoneArchetype::Garden => "garden",
            ZoneArchetype::GuestZone => "guest_zone",
            ZoneArchetype::Gym => "gym",
            ZoneArchetype::Hallway => "hallway",
            ZoneArchetype::Home => "home",
            ZoneArchetype::KidsBedroom => "kids_bedroom",
            ZoneArchetype::Kitchen => "kitchen",
            ZoneArchetype::LaundryZone => "laundry_zone",
            ZoneArchetype::LivingZone => "living_zone",
            ZoneArchetype::Lounge => "lounge",
            ZoneArchetype::ManCave => "man_cave",
            ZoneArchetype::Music => "music",
            ZoneArchetype::Nursery => "nursery",
            ZoneArchetype::Office => "office",
            ZoneArchetype::Other => "other",
            ZoneArchetype::Pool => "pool",
            ZoneArchetype::Porch => "porch",
            ZoneArchetype::Reading => "reading",
            ZoneArchetype::Recreation => "recreation",
            ZoneArchetype::Staircase => "staircase",
            ZoneArchetype::Storage => "storage",
            ZoneArchetype::Studio => "studio",
            ZoneArchetype::Terrace => "terrace",
            ZoneArchetype::Toilet => "toilet",
            ZoneArchetype::TopFloor => "top_floor",
            ZoneArchetype::Tv => "tv",
            ZoneArchetype::Upstairs => "upstairs",
        }
    }
}

impl ZoneBuilder {
    /// A zone named `name` of the given archetype, without children.
    pub fn new(name: String, archetype: ZoneArchetype) -> (r: ZoneBuilder)
        ensures
            r.metadata.name@ == name@,
            r.metadata.archetype == archetype,
            r.children@.len() == 0,
    {
        ZoneBuilder { metadata: ZoneMetadata { name, archetype }, children: Vec::new() }
    }

    pub fn children(self, children: Vec<ResourceIdentifier>) -> (r: ZoneBuilder)
        ensures
            r.children == children,
            r.metadata == self.metadata,
    {
        ZoneBuilder { metadata: self.metadata, children }
    }

    /// The creation document of this zone.
    pub open spec fn spec_json(&self) -> Json {
        obj(
            seq![
                ("metadata"@, obj(
                    seq![("name"@, Json::Str(self.metadata.name@)), ("archetype"@, Json::Str(self.metadata.archetype.spec_tag()))],
                )),
                ("children"@, Json::Array(Seq::new(self.children@.len(), |i: int| identifier_json(self.children@[i])))),
            ],
        )
    }

    pub fn to_json(&self) -> (r: JsonValue)
        ensures
            r@ == self.spec_json(),
    {
        let mut out: Vec<JsonValue> = Vec::new();
        let mut i: usize = 0;
        while i < self.children.len()
            invariant
                i <= self.children.len(),
                out.len() == i,
                forall|j: int| 0 <= j < i ==> #[trigger] out[j]@ == identifier_json(self.children@[j]),
            decreases self.children.len() - i,
        {
            out.push(identifier_to_json(&self.children[i]));
            i += 1;
        }
        let ghost ov = out@;
        let a = JsonValue::array(out);
        assert(Seq::new(ov.len(), |j: int| ov[j]@) =~= Seq::new(self.children@.len(), |j: int| identifier_json(self.children@[j])));
        let meta = JsonValue::object2(
            "name",
            JsonValue::Str(self.metadata.name.clone()),
            "archetype",
            JsonValue::text(self.metadata.archetype.tag()),
        );
        JsonValue::object2("metadata", meta, "children", a)
    }
}

} // verus!
