//! Scenes, smart scenes and their schedules.
use vstd::prelude::*;
use crate::json::{Json, JsonValue, decimal_text, obj};
use crate::command::{SmartSceneCommand, identifier_json, identifier_to_json};
use crate::device::BasicStatus;
use crate::light::EffectType;
use crate::resource::{ResourceIdentifier, ResourceType};

verus! {

#[derive(Clone, Debug, PartialEq)]
pub struct ActiveTimeslot {
    pub timeslot_id: usize,
    pub weekday: Weekday,
}

#[derive(Clone, Debug, PartialEq)]
pub struct SceneColorTempState {
    /// Color temperature in mirek or `None` when the light color is not in the ct spectrum.
    pub mirek: Option<u16>,
}

#[derive(Clone, Debug, PartialEq)]
pub struct SceneDynamics {
    /// Duration of a light transition or timed effects in ms.
    pub duration: Option<usize>,
}

#[derive(Clone, Debug, PartialEq)]
pub struct SceneEffectState {
    pub effect: Option<EffectType>,
}

#[derive(Clone, Debug, PartialEq)]
pub struct SceneMetadata {
    /// Human readable name of a resource.
    pub name: String,
    /// Reference with unique identifier for the image representing the scene.
    /// Only accepts `rtype`: [ResourceType::PublicImage] on creation.
    pub image: Option<ResourceIdentifier>,
    /// Application specific data. Free format string.
    pub appdata: Option<String>,
}

#[derive(Clone, Copy, Debug, PartialEq, Eq, Hash, Structural)]
pub enum SceneStatus {
    Active,
    Inactive,
    Static,
    DynamicPalette,
}

#[derive(Clone, Debug, PartialEq)]
pub struct SceneStatusState {
    pub active: SceneStatus,
}

#[derive(Clone, Debug, PartialEq)]
pub struct Schedule {
    pub timeslots: Vec<SmartSceneTimeslot>,
    pub recurrence: Vec<Weekday>,
}

#[derive(Clone, Debug, PartialEq)]
pub struct SmartSceneBuilder {
    metadata: SceneMetadata,
    group: ResourceIdentifier,
    transition_duration: usize,
    week_timeslots: Vec<Schedule>,
}

#[derive(Clone, Debug, PartialEq)]
pub struct SmartSceneData {
    /// Unique identifier representing a specific resource instance.
    pub id: String,
    /// Clip v1 resource identifier.
    pub id_v1: Option<String>,
    pub metadata: SceneMetadata,
    /// Group associated with this Scene. All services in the group are part of this scene.
    /// If the group is changed the scene is updated (e.g. light added/removed).
    pub group: ResourceIdentifier,
    /// Information on what is the light state for every timeslot of the day.
    pub week_timeslots: Vec<Schedule>,
    /// Duration of the transition from on one timeslot's scene to the other in ms (defaults to 60000ms).
    pub transition_duration: usize,
    /// The active time slot in execution.
    pub active_timeslot: Option<ActiveTimeslot>,
    /// The current state of the smart scene. The default state is [BasicStatus::Inactive] if no recall is provided.
    pub state: BasicStatus,
}

#[derive(Clone, Debug, PartialEq)]
pub struct SmartSceneTimeslot {
    pub start_time: TimeslotStart,
    pub target: ResourceIdentifier,
}

#[derive(Clone, Debug, PartialEq)]
pub enum TimeslotStart {
    Sunset,
    Time { time: TimeslotTime },
}

#[derive(Clone, Debug, PartialEq)]
pub struct TimeslotTime {
    /// `0` to `23`
    hour: u8,
    /// `0` to `59`
    minute: u8,
    /// `0` to `59`
    second: u8,
}

#[derive(Clone, Copy, Debug, PartialEq, Eq, Hash, Structural)]
pub enum Weekday {
    Monday,
    Tuesday,
    Wednesday,
    Thursday,
    Friday,
    Saturday,
    Sunday,
}

impl SmartSceneData {
    /// The identifier of this resource.
    pub fn rid(&self) -> (r: ResourceIdentifier)
        ensures
            r.rid@ == self.id@,
            r.rtype == ResourceType::SmartScene,
    {
        ResourceIdentifier { rid: self.id.clone(), rtype: ResourceType::SmartScene }
    }
}

impl Weekday {
    /// The wire name of this value.
    pub open spec fn spec_tag(&self) -> Seq<char> {
        match self {
            Weekday::Monday => "monday"@,
            Weekday::Tuesday => "tuesday"@,
            Weekday::Wednesday => "wednesday"@,
            Weekday::Thursday => "thursday"@,
            Weekday::Friday => "friday"@,
            Weekday::Saturday => "saturday"@,
            Weekday::Sunday => "sunday"@,
        }
    }

    /// The wire name of this value.
    pub fn tag(&self) -> (r: &'static str)
        ensures
            r@ == self.spec_tag(),
    {
        match self {
            Weekday::Monday => "monday",
            Weekday::Tuesday => "tuesday",
            Weekday::Wednesday => "wednesday",
            Weekday::Thursday => "thursday",
            Weekday::Friday => "friday",
            Weekday::Saturday => "saturday",
            Weekday::Sunday => "sunday",
        }
    }
}

/// The JSON form of a list of documents.
pub open spec fn array_of(v: Seq<Json>) -> Json {
    Json::Array(v)
}

impl TimeslotTime {
    /// Hour, minute and second.
    pub closed spec fn hms(&self) -> (u8, u8, u8) {
        (self.hour, self.minute, self.second)
    }

    pub closed spec fn spec_json(&self) -> Json {
        obj(
            seq![
                ("hour"@, Json::Number(decimal_text(self.hour as nat))),
                ("minute"@, Json::Number(decimal_text(self.minute as nat))),
                ("second"@, Json::Number(decimal_text(self.second as nat))),
            ],
        )
    }

    pub fn to_json(&self) -> (r: JsonValue)
        ensures
            r@ == self.spec_json(),
    {
        JsonValue::object3(
            "hour",
            JsonValue::number(self.hour as u64),
            "minute",
            JsonValue::number(self.minute as u64),
            "second",
            JsonValue::number(self.second as u64),
        )
    }
}

impl TimeslotStart {
    /// A start at the given hour, minute and second.
    pub fn time(hms: &[u8; 3]) -> (r: TimeslotStart)
        ensures
            r is Time,
            r->time.hms() == (hms[0], hms[1], hms[2]),
    {
        TimeslotStart::Time { time: TimeslotTime { hour: hms[0], minute: hms[1], second: hms[2] } }
    }

    /// Internally tagged by `kind`.
    pub open spec fn spec_json(&self) -> Json {
        match self {
            TimeslotStart::Sunset => obj(seq![("kind"@, Json::Str("sunset"@))]),
            TimeslotStart::Time { time } => obj(
                seq![("kind"@, Json::Str("time"@)), ("time"@, time.spec_json())],
            ),
        }
    }

    pub fn to_json(&self) -> (r: JsonValue)
        ensures
            r@ == self.spec_json(),
    {
        match self {
            TimeslotStart::Sunset => JsonValue::object1("kind", JsonValue::text("sunset")),
            TimeslotStart::Time { time } => JsonValue::object2(
                "kind",
                JsonValue::text("time"),
                "time",
                time.to_json(),
            ),
        }
    }
}

impl SmartSceneTimeslot {
    pub open spec fn spec_json(&self) -> Json {
        obj(seq![("start_time"@, self.start_time.spec_json()), ("target"@, identifier_json(self.target))])
    }

    pub fn to_json(&self) -> (r: JsonValue)
        ensures
            r@ == self.spec_json(),
    {
        JsonValue::object2("start_time", self.start_time.to_json(), "target", identifier_to_json(&self.target))
    }
}

/// Whether `days` holds no day twice.
pub open spec fn distinct_days(days: Seq<Weekday>) -> bool {
    forall|i: int, j: int| 0 <= i < j < days.len() ==> days[i] != days[j]
}

impl Schedule {
    /// Whether the schedule recurs on `d`.
    pub open spec fn recurs_on(&self, d: Weekday) -> bool {
        self.recurrence@.contains(d)
    }

    pub open spec fn wf(&self) -> bool {
        distinct_days(self.recurrence@)
    }

    /// An empty schedule: no timeslots, no days.
    pub fn new() -> (r: Schedule)
        ensures
            r.timeslots@.len() == 0,
            r.recurrence@.len() == 0,
            r.wf(),
    {
        Schedule { timeslots: Vec::new(), recurrence: Vec::new() }
    }

    /// Recur on exactly the given days.
    pub fn on(self, days: &[Weekday]) -> (r: Schedule)
        ensures
            forall|d: Weekday| r.recurs_on(d) <==> days@.contains(d),
            r.timeslots == self.timeslots,
            r.wf(),
    {
        let mut rec: Vec<Weekday> = Vec::new();
        let mut i: usize = 0;
        while i < days.len()
            invariant
                i <= days.len(),
                forall|d: Weekday| rec@.contains(d) <==> days@.take(i as int).contains(d),
                distinct_days(rec@),
            decreases days.len() - i,
        {
            let ghost prev = days@.take(i as int);
            let ghost before = rec@;
            assert(days@.take(i + 1) =~= prev.push(days@[i as int]));
            proof {
                lemma_push_contains(prev, days@[i as int]);
            }
            if !contains_day(&rec, days[i]) {
                rec.push(days[i]);
                proof {
                    lemma_push_contains(before, days@[i as int]);
                }
                assert forall|a: int, b: int| 0 <= a < b < rec@.len() implies rec@[a] != rec@[b] by {
                    if b == before.len() {
                        assert(before.contains(before[a]));
                    } else {
                        assert(rec@[a] == before[a] && rec@[b] == before[b]);
                    }
                }
            }
            i += 1;
        }
        assert(days@.take(days.len() as int) =~= days@);
        Schedule { timeslots: self.timeslots, recurrence: rec }
    }

    /// Adds a timeslot that starts `time` with the scene `scene_rid`.
    pub fn at(self, time: TimeslotStart, scene_rid: ResourceIdentifier) -> (r: Schedule)
        ensures
            r.timeslots@ == self.timeslots@.push(SmartSceneTimeslot { start_time: time, target: scene_rid }),
            r.recurrence == self.recurrence,
    {
        let mut timeslots = self.timeslots;
        timeslots.push(SmartSceneTimeslot { start_time: time, target: scene_rid });
        Schedule { timeslots, recurrence: self.recurrence }
    }

    /// Adds `day` to the days of recurrence.
    fn with_day(self, day: Weekday) -> (r: Schedule)
        requires
            self.wf(),
        ensures
            forall|d: Weekday| r.recurs_on(d) <==> (self.recurs_on(d) || d == day),
            r.timeslots == self.timeslots,
            r.wf(),
    {
        let mut rec = self.recurrence;
        let ghost before = rec@;
        if !contains_day(&rec, day) {
            rec.push(day);
            proof {
                lemma_push_contains(before, day);
            }
            assert forall|a: int, b: int| 0 <= a < b < rec@.len() implies rec@[a] != rec@[b] by {
                if b == before.len() {
                    assert(before.contains(before[a]));
                } else {
                    assert(rec@[a] == before[a] && rec@[b] == before[b]);
                }
            }
        }
        Schedule { timeslots: self.timeslots, recurrence: rec }
    }

    pub fn monday(self) -> (r: Schedule)
        requires
            self.wf(),
        ensures
            forall|d: Weekday| r.recurs_on(d) <==> (self.recurs_on(d) || d == Weekday::Monday),
            r.timeslots == self.timeslots,
            r.wf(),
    {
        self.with_day(Weekday::Monday)
    }

    pub fn tuesday(self) -> (r: Schedule)
        requires
            self.wf(),
        ensures
            forall|d: Weekday| r.recurs_on(d) <==> (self.recurs_on(d) || d == Weekday::Tuesday),
            r.timeslots == self.timeslots,
            r.wf(),
    {
        self.with_day(Weekday::Tuesday)
    }

    pub fn wednesday(self) -> (r: Schedule)
        requires
            self.wf(),
        ensures
            forall|d: Weekday| r.recurs_on(d) <==> (self.recurs_on(d) || d == Weekday::Wednesday),
            r.timeslots == self.timeslots,
            r.wf(),
    {
        self.with_day(Weekday::Wednesday)
    }

    pub fn thursday(self) -> (r: Schedule)
        requires
            self.wf(),
        ensures
            forall|d: Weekday| r.recurs_on(d) <==> (self.recurs_on(d) || d == Weekday::Thursday),
            r.timeslots == self.timeslots,
            r.wf(),
    {
        self.with_day(Weekday::Thursday)
    }

    pub fn friday(self) -> (r: Schedule)
        requires
            self.wf(),
        ensures
            forall|d: Weekday| r.recurs_on(d) <==> (self.recurs_on(d) || d == Weekday::Friday),
            r.timeslots == self.timeslots,
            r.wf(),
    {
        self.with_day(Weekday::Friday)
    }

    pub fn saturday(self) -> (r: Schedule)
        requires
            self.wf(),
        ensures
            forall|d: Weekday| r.recurs_on(d) <==> (self.recurs_on(d) || d == Weekday::Saturday),
            r.timeslots == self.timeslots,
            r.wf(),
    {
        self.with_day(Weekday::Saturday)
    }

    pub fn sunday(self) -> (r: Schedule)
        requires
            self.wf(),
        ensures
            forall|d: Weekday| r.recurs_on(d) <==> (self.recurs_on(d) || d == Weekday::Sunday),
            r.timeslots == self.timeslots,
            r.wf(),
    {
        self.with_day(Weekday::Sunday)
    }

    /// A command that commits this schedule.
    pub fn build(self) -> (r: SmartSceneCommand)
        ensures
            r is Schedule,
            r->Schedule_0@ == seq![self],
    {
        let mut v: Vec<Schedule> = Vec::new();
        v.push(self);
        SmartSceneCommand::Schedule(v)
    }

    pub open spec fn spec_json(&self) -> Json {
        obj(
            seq![
                ("timeslots"@, array_of(Seq::new(self.timeslots@.len(), |i: int| self.timeslots@[i].spec_json()))),
                ("recurrence"@, array_of(Seq::new(self.recurrence@.len(), |i: int| Json::Str(self.recurrence@[i].spec_tag())))),
            ],
        )
    }

    pub fn to_json(&self) -> (r: JsonValue)
        ensures
            r@ == self.spec_json(),
    {
        let mut slots: Vec<JsonValue> = Vec::new();
        let mut i: usize = 0;
        while i < self.timeslots.len()
            invariant
                i <= self.timeslots.len(),
                slots.len() == i,
                forall|j: int| 0 <= j < i ==> #[trigger] slots[j]@ == self.timeslots@[j].spec_json(),
            decreases self.timeslots.len() - i,
        {
            slots.push(self.timeslots[i].to_json());
            i += 1;
        }
        let mut days: Vec<JsonValue> = Vec::new();
        let mut j: usize = 0;
        while j < self.recurrence.len()
            invariant
                j <= self.recurrence.len(),
                days.len() == j,
                forall|k: int| 0 <= k < j ==> #[trigger] days[k]@ == Json::Str(self.recurrence@[k].spec_tag()),
            decreases self.recurrence.len() - j,
        {
            days.push(JsonValue::text(self.recurrence[j].tag()));
            j += 1;
        }
        let ghost (sv, dv) = (slots@, days@);
        let a = JsonValue::array(slots);
        let b = JsonValue::array(days);
        assert(Seq::new(sv.len(), |k: int| sv[k]@) =~= Seq::new(self.timeslots@.len(), |k: int| self.timeslots@[k].spec_json()));
        assert(Seq::new(dv.len(), |k: int| dv[k]@) =~= Seq::new(self.recurrence@.len(), |k: int| Json::Str(self.recurrence@[k].spec_tag())));
        JsonValue::object2("timeslots", a, "recurrence", b)
    }
}

proof fn lemma_push_contains(s: Seq<Weekday>, x: Weekday)
    ensures
        forall|a: Weekday| #[trigger] s.push(x).contains(a) <==> s.contains(a) || a == x,
{
    assert forall|a: Weekday| #[trigger] s.push(x).contains(a) <==> s.contains(a) || a == x by {
        if s.contains(a) {
            let i = choose|i: int| 0 <= i < s.len() && s[i] == a;
            assert(s.push(x)[i] == a);
        }
        if a == x {
            assert(s.push(x)[s.len() as int] == a);
        }
        if s.push(x).contains(a) && a != x {
            let i = choose|i: int| 0 <= i < s.len() + 1 && s.push(x)[i] == a;
            assert(s[i] == a);
        }
    }
}

/// Whether `days` holds `day`.
fn contains_day(days: &Vec<Weekday>, day: Weekday) -> (r: bool)
    ensures
        r == days@.contains(day),
{
    let mut i: usize = 0;
    while i < days.len()
        invariant
            i <= days.len(),
            forall|j: int| 0 <= j < i ==> days@[j] != day,
        decreases days.len() - i,
    {
        if days[i] == day {
            return true;
        }
        i += 1;
    }
    false
}

impl SmartSceneBuilder {
    pub closed spec fn spec_name(&self) -> Seq<char> {
        self.metadata.name@
    }

    pub closed spec fn spec_group(&self) -> ResourceIdentifier {
        self.group
    }

    pub closed spec fn spec_image(&self) -> Option<ResourceIdentifier> {
        self.metadata.image
    }

    pub closed spec fn spec_transition_duration(&self) -> usize {
        self.transition_duration
    }

    pub closed spec fn spec_schedules(&self) -> Seq<Schedule> {
        self.week_timeslots@
    }

    /// A smart scene named `name` over `group`, with no schedule and no image.
    pub fn new(name: String, group: ResourceIdentifier) -> (r: SmartSceneBuilder)
        ensures
            r.spec_name() == name@,
            r.spec_group() == group,
            r.spec_image() is None,
            r.spec_transition_duration() == 0,
            r.spec_schedules().len() == 0,
    {
        SmartSceneBuilder {
            metadata: SceneMetadata { name, image: None, appdata: None },
            group,
            transition_duration: 0,
            week_timeslots: Vec::new(),
        }
    }

    pub fn image(self, image: ResourceIdentifier) -> (r: SmartSceneBuilder)
        ensures
            r.spec_image() == Some(image),
            r.spec_name() == self.spec_name(),
            r.spec_group() == self.spec_group(),
            r.spec_transition_duration() == self.spec_transition_duration(),
            r.spec_schedules() == self.spec_schedules(),
    {
        let mut b = self;
        b.metadata.image = Some(image);
        b
    }

    pub fn transition_duration(self, ms: usize) -> (r: SmartSceneBuilder)
        ensures
            r.spec_transition_duration() == ms,
            r.spec_image() == self.spec_image(),
            r.spec_name() == self.spec_name(),
            r.spec_group() == self.spec_group(),
            r.spec_schedules() == self.spec_schedules(),
    {
        let mut b = self;
        b.transition_duration = ms;
        b
    }

    pub fn schedule(self, s: Schedule) -> (r: SmartSceneBuilder)
        ensures
            r.spec_schedules() == self.spec_schedules().push(s),
            r.spec_transition_duration() == self.spec_transition_duration(),
            r.spec_image() == self.spec_image(),
            r.spec_name() == self.spec_name(),
            r.spec_group() == self.spec_group(),
    {
        let mut b = self;
        b.week_timeslots.push(s);
        b
    }
}

impl SceneStatus {
    /// The wire name of this value.
    pub open spec fn spec_tag(&self) -> Seq<char> {
        match self {
            SceneStatus::Active => "active"@,
            SceneStatus::Inactive => "inactive"@,
            SceneStatus::Static => "static"@,
            SceneStatus::DynamicPalette => "dynamic_palette"@,
        }
    }

    /// The wire name of this value.
    pub fn tag(&self) -> (r: &'static str)
        ensures
            r@ == self.spec_tag(),
    {
        match self {
            SceneStatus::Active => "active",
            SceneStatus::Inactive => "inactive",
            SceneStatus::Static => "static",
            SceneStatus::DynamicPalette => "dynamic_palette",
        }
    }
}

} // verus!
