//! Commands for a scene: the actions it recalls, its palette and the
//! recall itself. Real numbers are held as the decimal text that is sent.
use vstd::prelude::*;
use crate::command::{
    Decimal, XyColor, decimal_json, decimal_to_json, feature_json, feature_to_json, identifier_json,
    identifier_to_json, nested2, on_state_json, on_state_to_json, opt_u16_json, opt_u16_to_json, opt_usize_json,
    opt_usize_to_json,
};
use crate::json::{Json, JsonValue, members_view, obj, opt_string};
use crate::light::{EffectType, GradientMode, OnState};
use crate::resource::ResourceIdentifier;
use crate::scene::{SceneColorTempState, SceneDynamics, SceneEffectState, SceneMetadata, SceneStatus};

verus! {

/// A brightness percentage.
#[derive(Clone, Debug, PartialEq)]
pub struct GroupDimmingState {
    pub brightness: Decimal,
}

#[derive(Clone, Debug, PartialEq)]
pub struct GradientPoint {
    pub color: XyColor,
}

#[derive(Clone, Debug, PartialEq)]
pub struct SceneGradientState {
    /// Collection of gradients points.
    pub points: Vec<GradientPoint>,
    /// Mode in which the points are deployed.
    pub mode: GradientMode,
}

/// What a scene sets on one light; absent parts are left out of the document.
#[derive(Clone, Debug, PartialEq)]
pub struct LightAction {
    pub on: Option<OnState>,
    pub dimming: Option<GroupDimmingState>,
    pub color: Option<XyColor>,
    pub color_temperature: Option<SceneColorTempState>,
    pub gradient: Option<SceneGradientState>,
    pub effects: Option<SceneEffectState>,
    pub dynamics: Option<SceneDynamics>,
}

#[derive(Clone, Debug, PartialEq)]
pub struct SceneAction {
    /// The identifier of the light to execute the action on.
    pub target: ResourceIdentifier,
    /// The action to be executed on recall.
    pub action: LightAction,
}

#[derive(Clone, Debug, PartialEq)]
pub struct ScenePaletteColor {
    pub color: XyColor,
    pub dimming: GroupDimmingState,
}

#[derive(Clone, Debug, PartialEq)]
pub struct ScenePaletteColorTempState {
    pub color_temperature: SceneColorTempState,
    pub dimming: GroupDimmingState,
}

/// The colors a scene plays when it is dynamic.
#[derive(Clone, Debug, Default, PartialEq)]
pub struct ScenePalette {
    pub color: Vec<ScenePaletteColor>,
    pub dimming: Vec<GroupDimmingState>,
    pub color_temperature: Vec<ScenePaletteColorTempState>,
    pub effects: Vec<SceneEffectState>,
}

/// Commands for a scene.
#[derive(Clone, Debug, PartialEq)]
pub enum SceneCommand {
    /// Actions to be executed synchronously on recall.
    Actions(Vec<SceneAction>),
    /// Whether to start the scene dynamically on an active recall.
    AutoDynamic(bool),
    Metadata { name: Option<String>, appdata: Option<String> },
    Palette(ScenePalette),
    /// Trigger the scene, optionally overriding some of its properties.
    Recall { action: Option<SceneStatus>, duration: Option<usize>, dimming: Option<GroupDimmingState> },
    /// Speed of the dynamic palette.
    Speed(Decimal),
}

pub open spec fn dimming_json(d: GroupDimmingState) -> Json {
    obj(seq![("brightness"@, decimal_json(d.brightness))])
}

pub open spec fn scene_ct_json(c: SceneColorTempState) -> Json {
    obj(seq![("mirek"@, opt_u16_json(c.mirek))])
}

pub open spec fn effect_state_json(e: SceneEffectState) -> Json {
    obj(
        seq![
            ("effect"@, match e.effect {
                Some(x) => Json::Str(x.spec_tag()),
                None => Json::Null,
            }),
        ],
    )
}

pub open spec fn dynamics_json(d: SceneDynamics) -> Json {
    obj(seq![("duration"@, opt_usize_json(d.duration))])
}

pub open spec fn gradient_json(g: SceneGradientState) -> Json {
    obj(
        seq![
            ("points"@, Json::Array(
                Seq::new(g.points@.len(), |i: int| obj(seq![("color"@, feature_json(g.points@[i].color))])),
            )),
            ("mode"@, Json::Str(g.mode.spec_tag())),
        ],
    )
}

/// The member `k` holding `v`, or none.
pub open spec fn opt_member(k: Seq<char>, v: Option<Json>) -> Seq<(Seq<char>, Json)> {
    match v {
        Some(j) => seq![(k, j)],
        None => Seq::empty(),
    }
}

pub open spec fn light_action_members(a: LightAction) -> Seq<(Seq<char>, Json)> {
    opt_member("on"@, if a.on is Some { Some(on_state_json(a.on)) } else { None })
        + opt_member("dimming"@, if a.dimming is Some { Some(dimming_json(a.dimming.unwrap())) } else { None })
        + opt_member("color"@, if a.color is Some { Some(feature_json(a.color.unwrap())) } else { None })
        + opt_member(
        "color_temperature"@,
        if a.color_temperature is Some { Some(scene_ct_json(a.color_temperature.unwrap())) } else { None },
    ) + opt_member("gradient"@, if a.gradient is Some { Some(gradient_json(a.gradient.unwrap())) } else { None })
        + opt_member("effects"@, if a.effects is Some { Some(effect_state_json(a.effects.unwrap())) } else { None })
        + opt_member("dynamics"@, if a.dynamics is Some { Some(dynamics_json(a.dynamics.unwrap())) } else { None })
}

pub open spec fn scene_action_json(a: SceneAction) -> Json {
    obj(seq![("target"@, identifier_json(a.target)), ("action"@, obj(light_action_members(a.action)))])
}

pub open spec fn palette_json(p: ScenePalette) -> Json {
    obj(
        seq![
            ("color"@, Json::Array(
                Seq::new(
                    p.color@.len(),
                    |i: int| obj(seq![("color"@, feature_json(p.color@[i].color)), ("dimming"@, dimming_json(p.color@[i].dimming))]),
                ),
            )),
            ("dimming"@, Json::Array(Seq::new(p.dimming@.len(), |i: int| dimming_json(p.dimming@[i])))),
            ("color_temperature"@, Json::Array(
                Seq::new(
                    p.color_temperature@.len(),
                    |i: int|
                        obj(
                            seq![
                                ("color_temperature"@, scene_ct_json(p.color_temperature@[i].color_temperature)),
                                ("dimming"@, dimming_json(p.color_temperature@[i].dimming)),
                            ],
                        ),
                ),
            )),
            ("effects"@, Json::Array(Seq::new(p.effects@.len(), |i: int| effect_state_json(p.effects@[i])))),
        ],
    )
}

pub open spec fn opt_status_json(o: Option<SceneStatus>) -> Json {
    match o {
        Some(s) => Json::Str(s.spec_tag()),
        None => Json::Null,
    }
}

pub open spec fn opt_dimming_json(o: Option<GroupDimmingState>) -> Json {
    match o {
        Some(d) => dimming_json(d),
        None => Json::Null,
    }
}

fn opt_status_to_json(o: &Option<SceneStatus>) -> (r: JsonValue)
    ensures
        r@ == opt_status_json(*o),
{
    match o {
        Some(s) => JsonValue::text(s.tag()),
        None => JsonValue::Null,
    }
}

fn opt_dimming_to_json(o: &Option<GroupDimmingState>) -> (r: JsonValue)
    ensures
        r@ == opt_dimming_json(*o),
{
    match o {
        Some(d) => dimming_to_json(d),
        None => JsonValue::Null,
    }
}

fn dimming_to_json(d: &GroupDimmingState) -> (r: JsonValue)
    ensures
        r@ == dimming_json(*d),
{
    JsonValue::object1("brightness", decimal_to_json(&d.brightness))
}

fn scene_ct_to_json(c: &SceneColorTempState) -> (r: JsonValue)
    ensures
        r@ == scene_ct_json(*c),
{
    JsonValue::object1("mirek", opt_u16_to_json(&c.mirek))
}

fn effect_state_to_json(e: &SceneEffectState) -> (r: JsonValue)
    ensures
        r@ == effect_state_json(*e),
{
    let v = match &e.effect {
        Some(x) => JsonValue::text(x.tag()),
        None => JsonValue::Null,
    };
    JsonValue::object1("effect", v)
}

fn dynamics_to_json(d: &SceneDynamics) -> (r: JsonValue)
    ensures
        r@ == dynamics_json(*d),
{
    JsonValue::object1("duration", opt_usize_to_json(&d.duration))
}

fn gradient_to_json(g: &SceneGradientState) -> (r: JsonValue)
    ensures
        r@ == gradient_json(*g),
{
    let mut out: Vec<JsonValue> = Vec::new();
    let mut i: usize = 0;
    while i < g.points.len()
        invariant
            i <= g.points.len(),
            out.len() == i,
            forall|j: int| 0 <= j < i ==> #[trigger] out[j]@ == obj(seq![("color"@, feature_json(g.points@[j].color))]),
        decreases g.points.len() - i,
    {
        out.push(JsonValue::object1("color", feature_to_json(&g.points[i].color)));
        i += 1;
    }
    let ghost ov = out@;
    let a = JsonValue::array(out);
    assert(Seq::new(ov.len(), |j: int| ov[j]@) =~= Seq::new(
        g.points@.len(),
        |j: int| obj(seq![("color"@, feature_json(g.points@[j].color))]),
    ));
    JsonValue::object2("points", a, "mode", JsonValue::text(g.mode.tag()))
}

/// Appends member `k` holding `v`.
fn push_member(m: &mut Vec<(String, JsonValue)>, k: &str, v: JsonValue)
    ensures
        members_view(final(m)@) == members_view(old(m)@) + seq![(k@, v@)],
{
    let ghost kv = (k@, v@);
    m.push((k.to_owned(), v));
    assert(members_view(m@) =~= members_view(old(m)@) + seq![kv]);
}

fn light_action_to_json(a: &LightAction) -> (r: JsonValue)
    ensures
        r@ == obj(light_action_members(*a)),
{
    let mut m: Vec<(String, JsonValue)> = Vec::new();
    let ghost e = Seq::<(Seq<char>, Json)>::empty();
    assert(members_view(m@) =~= e);
    if a.on.is_some() {
        push_member(&mut m, "on", on_state_to_json(&a.on));
    }
    let ghost s1 = members_view(m@);
    assert(s1 =~= opt_member("on"@, if a.on is Some { Some(on_state_json(a.on)) } else { None }));
    match &a.dimming {
        Some(d) => push_member(&mut m, "dimming", dimming_to_json(d)),
        None => {},
    }
    let ghost s2 = members_view(m@);
    assert(s2 =~= s1 + opt_member("dimming"@, if a.dimming is Some { Some(dimming_json(a.dimming.unwrap())) } else { None }));
    match &a.color {
        Some(c) => push_member(&mut m, "color", feature_to_json(c)),
        None => {},
    }
    let ghost s3 = members_view(m@);
    assert(s3 =~= s2 + opt_member("color"@, if a.color is Some { Some(feature_json(a.color.unwrap())) } else { None }));
    match &a.color_temperature {
        Some(c) => push_member(&mut m, "color_temperature", scene_ct_to_json(c)),
        None => {},
    }
    let ghost s4 = members_view(m@);
    assert(s4 =~= s3 + opt_member(
        "color_temperature"@,
        if a.color_temperature is Some { Some(scene_ct_json(a.color_temperature.unwrap())) } else { None },
    ));
    match &a.gradient {
        Some(g) => push_member(&mut m, "gradient", gradient_to_json(g)),
        None => {},
    }
    let ghost s5 = members_view(m@);
    assert(s5 =~= s4 + opt_member("gradient"@, if a.gradient is Some { Some(gradient_json(a.gradient.unwrap())) } else { None }));
    match &a.effects {
        Some(x) => push_member(&mut m, "effects", effect_state_to_json(x)),
        None => {},
    }
    let ghost s6 = members_view(m@);
    assert(s6 =~= s5 + opt_member("effects"@, if a.effects is Some { Some(effect_state_json(a.effects.unwrap())) } else { None }));
    match &a.dynamics {
        Some(d) => push_member(&mut m, "dynamics", dynamics_to_json(d)),
        None => {},
    }
    let ghost s7 = members_view(m@);
    assert(s7 =~= s6 + opt_member("dynamics"@, if a.dynamics is Some { Some(dynamics_json(a.dynamics.unwrap())) } else { None }));
    JsonValue::object_of(m)
}

fn scene_action_to_json(a: &SceneAction) -> (r: JsonValue)
    ensures
        r@ == scene_action_json(*a),
{
    JsonValue::object2("target", identifier_to_json(&a.target), "action", light_action_to_json(&a.action))
}

fn palette_to_json(p: &ScenePalette) -> (r: JsonValue)
    ensures
        r@ == palette_json(*p),
{
    let mut colors: Vec<JsonValue> = Vec::new();
    let mut i: usize = 0;
    while i < p.color.len()
        invariant
            i <= p.color.len(),
            colors.len() == i,
            forall|j: int|
                0 <= j < i ==> #[trigger] colors[j]@ == obj(
                    seq![("color"@, feature_json(p.color@[j].color)), ("dimming"@, dimming_json(p.color@[j].dimming))],
                ),
        decreases p.color.len() - i,
    {
        colors.push(
            JsonValue::object2("color", feature_to_json(&p.color[i].color), "dimming", dimming_to_json(&p.color[i].dimming)),
        );
        i += 1;
    }
    let mut dims: Vec<JsonValue> = Vec::new();
    let mut i: usize = 0;
    while i < p.dimming.len()
        invariant
            i <= p.dimming.len(),
            dims.len() == i,
            forall|j: int| 0 <= j < i ==> #[trigger] dims[j]@ == dimming_json(p.dimming@[j]),
        decreases p.dimming.len() - i,
    {
        dims.push(dimming_to_json(&p.dimming[i]));
        i += 1;
    }
    let mut cts: Vec<JsonValue> = Vec::new();
    let mut i: usize = 0;
    while i < p.color_temperature.len()
        invariant
            i <= p.color_temperature.len(),
            cts.len() == i,
            forall|j: int|
                0 <= j < i ==> #[trigger] cts[j]@ == obj(
                    seq![
                        ("color_temperature"@, scene_ct_json(p.color_temperature@[j].color_temperature)),
                        ("dimming"@, dimming_json(p.color_temperature@[j].dimming)),
                    ],
                ),
        decreases p.color_temperature.len() - i,
    {
        cts.push(
            JsonValue::object2(
                "color_temperature",
                scene_ct_to_json(&p.color_temperature[i].color_temperature),
                "dimming",
                dimming_to_json(&p.color_temperature[i].dimming),
            ),
        );
        i += 1;
    }
    let mut effs: Vec<JsonValue> = Vec::new();
    let mut i: usize = 0;
    while i < p.effects.len()
        invariant
            i <= p.effects.len(),
            effs.len() == i,
            forall|j: int| 0 <= j < i ==> #[trigger] effs[j]@ == effect_state_json(p.effects@[j]),
        decreases p.effects.len() - i,
    {
        effs.push(effect_state_to_json(&p.effects[i]));
        i += 1;
    }
    let ghost (cv, dv, tv, ev) = (colors@, dims@, cts@, effs@);
    assert(Seq::new(cv.len(), |j: int| cv[j]@) =~= Seq::new(
        p.color@.len(),
        |j: int| obj(seq![("color"@, feature_json(p.color@[j].color)), ("dimming"@, dimming_json(p.color@[j].dimming))]),
    ));
    assert(Seq::new(dv.len(), |j: int| dv[j]@) =~= Seq::new(p.dimming@.len(), |j: int| dimming_json(p.dimming@[j])));
    assert(Seq::new(tv.len(), |j: int| tv[j]@) =~= Seq::new(
        p.color_temperature@.len(),
        |j: int|
            obj(
                seq![
                    ("color_temperature"@, scene_ct_json(p.color_temperature@[j].color_temperature)),
                    ("dimming"@, dimming_json(p.color_temperature@[j].dimming)),
                ],
            ),
    ));
    assert(Seq::new(ev.len(), |j: int| ev[j]@) =~= Seq::new(p.effects@.len(), |j: int| effect_state_json(p.effects@[j])));
    let (a1, a2, a3, a4) = (JsonValue::array(colors), JsonValue::array(dims), JsonValue::array(cts), JsonValue::array(effs));
    let ghost (j1, j2, j3, j4) = (a1@, a2@, a3@, a4@);
    let mut m: Vec<(String, JsonValue)> = Vec::new();
    assert(members_view(m@) =~= Seq::<(Seq<char>, Json)>::empty());
    push_member(&mut m, "color", a1);
    push_member(&mut m, "dimming", a2);
    push_member(&mut m, "color_temperature", a3);
    push_member(&mut m, "effects", a4);
    assert(members_view(m@) =~= seq![
        ("color"@, j1),
        ("dimming"@, j2),
        ("color_temperature"@, j3),
        ("effects"@, j4),
    ]);
    JsonValue::object_of(m)
}

impl SceneCommand {
    pub open spec fn spec_json(&self) -> Json {
        match self {
            SceneCommand::Actions(a) => obj(
                seq![("actions"@, Json::Array(Seq::new(a@.len(), |i: int| scene_action_json(a@[i]))))],
            ),
            SceneCommand::AutoDynamic(b) => obj(seq![("auto_dynamic"@, Json::Bool(*b))]),
            SceneCommand::Metadata { name, appdata } => nested2(
                "metadata"@,
                "name"@,
                opt_string(*name),
                "appdata"@,
                opt_string(*appdata),
            ),
            SceneCommand::Palette(p) => obj(seq![("palette"@, palette_json(*p))]),
            SceneCommand::Recall { action, duration, dimming } => obj(
                seq![
                    ("recall"@, obj(
                        seq![
                            ("action"@, opt_status_json(*action)),
                            ("duration"@, opt_usize_json(*duration)),
                            ("dimming"@, opt_dimming_json(*dimming)),
                        ],
                    )),
                ],
            ),
            SceneCommand::Speed(s) => obj(seq![("speed"@, decimal_json(*s))]),
        }
    }

    /// The merge-patch fragment that this command writes.
    pub fn to_json(&self) -> (r: JsonValue)
        ensures
            r@ == self.spec_json(),
    {
        match self {
            SceneCommand::Actions(a) => {
                let mut out: Vec<JsonValue> = Vec::new();
                let mut i: usize = 0;
                while i < a.len()
                    invariant
                        i <= a.len(),
                        out.len() == i,
                        forall|j: int| 0 <= j < i ==> #[trigger] out[j]@ == scene_action_json(a@[j]),
                    decreases a.len() - i,
                {
                    out.push(scene_action_to_json(&a[i]));
                    i += 1;
                }
                let ghost ov = out@;
                let arr = JsonValue::array(out);
                assert(Seq::new(ov.len(), |j: int| ov[j]@) =~= Seq::new(a@.len(), |j: int| scene_action_json(a@[j])));
                JsonValue::object1("actions", arr)
            },
            SceneCommand::AutoDynamic(b) => JsonValue::object1("auto_dynamic", JsonValue::Bool(*b)),
            SceneCommand::Metadata { name, appdata } => JsonValue::object1(
                "metadata",
                JsonValue::object2("name", JsonValue::opt_text(name), "appdata", JsonValue::opt_text(appdata)),
            ),
            SceneCommand::Palette(p) => JsonValue::object1("palette", palette_to_json(p)),
            SceneCommand::Recall { action, duration, dimming } => {
                let a = opt_status_to_json(action);
                let d = opt_dimming_to_json(dimming);
                JsonValue::object1("recall", JsonValue::object3("action", a, "duration", opt_usize_to_json(duration), "dimming", d))
            },
            SceneCommand::Speed(s) => JsonValue::object1("speed", decimal_to_json(s)),
        }
    }
}

impl Default for LightAction {
    /// Turns the light on and sets nothing else.
    fn default() -> (r: LightAction)
        ensures
            r.on == Some(OnState { on: true }),
            r.dimming is None,
            r.color is None,
            r.color_temperature is None,
            r.gradient is None,
            r.effects is None,
            r.dynamics is None,
    {
        LightAction {
            on: Some(OnState { on: true }),
            dimming: None,
            color: None,
            color_temperature: None,
            gradient: None,
            effects: None,
            dynamics: None,
        }
    }
}

/// A new scene, as it is sent to be created.
#[derive(Clone, Debug, PartialEq)]
pub struct SceneBuilder {
    actions: Vec<SceneAction>,
    metadata: SceneMetadata,
    group: ResourceIdentifier,
    palette: Option<ScenePalette>,
    speed: Option<Decimal>,
    auto_dynamic: Option<bool>,
}

pub open spec fn metadata_members(m: SceneMetadata) -> Seq<(Seq<char>, Json)> {
    seq![("name"@, Json::Str(m.name@))] + opt_member(
        "image"@,
        if m.image is Some { Some(identifier_json(m.image.unwrap())) } else { None },
    ) + opt_member("appdata"@, if m.appdata is Some { Some(Json::Str(m.appdata.unwrap()@)) } else { None })
}

fn metadata_to_json(m: &SceneMetadata) -> (r: JsonValue)
    ensures
        r@ == obj(metadata_members(*m)),
{
    let mut v: Vec<(String, JsonValue)> = Vec::new();
    assert(members_view(v@) =~= Seq::<(Seq<char>, Json)>::empty());
    push_member(&mut v, "name", JsonValue::Str(m.name.clone()));
    let ghost s1 = members_view(v@);
    match &m.image {
        Some(i) => push_member(&mut v, "image", identifier_to_json(i)),
        None => {},
    }
    let ghost s2 = members_view(v@);
    assert(s2 =~= s1 + opt_member("image"@, if m.image is Some { Some(identifier_json(m.image.unwrap())) } else { None }));
    match &m.appdata {
        Some(a) => push_member(&mut v, "appdata", JsonValue::Str(a.clone())),
        None => {},
    }
    let ghost s3 = members_view(v@);
    assert(s3 =~= s2 + opt_member("appdata"@, if m.appdata is Some { Some(Json::Str(m.appdata.unwrap()@)) } else { None }));
    assert(s3 =~= metadata_members(*m));
    JsonValue::object_of(v)
}

impl SceneBuilder {
    /// Actions, metadata, group, palette, speed and whether to start dynamically.
    pub closed spec fn parts(&self) -> (
        Seq<SceneAction>,
        SceneMetadata,
        ResourceIdentifier,
        Option<ScenePalette>,
        Option<Decimal>,
        Option<bool>,
    ) {
        (self.actions@, self.metadata, self.group, self.palette, self.speed, self.auto_dynamic)
    }

    /// A scene named `name` over `group`, with no actions and no palette.
    pub fn new(name: String, group: ResourceIdentifier) -> (r: SceneBuilder)
        ensures
            r.parts().0.len() == 0,
            r.parts().1.name@ == name@,
            r.parts().1.image is None,
            r.parts().1.appdata is None,
            r.parts().2 == group,
            r.parts().3 is None,
            r.parts().4 is None,
            r.parts().5 is None,
    {
        SceneBuilder {
            actions: Vec::new(),
            metadata: SceneMetadata { name, image: None, appdata: None },
            group,
            palette: None,
            speed: None,
            auto_dynamic: None,
        }
    }

    pub fn actions(self, actions: Vec<SceneAction>) -> (r: SceneBuilder)
        ensures
            r.parts() == (actions@, self.parts().1, self.parts().2, self.parts().3, self.parts().4, self.parts().5),
    {
        SceneBuilder { actions, ..self }
    }

    pub fn image(self, image: ResourceIdentifier) -> (r: SceneBuilder)
        ensures
            r.parts().1.image == Some(image),
            r.parts().1.name == self.parts().1.name,
            r.parts().1.appdata == self.parts().1.appdata,
            r.parts().0 == self.parts().0 && r.parts().2 == self.parts().2 && r.parts().3 == self.parts().3
                && r.parts().4 == self.parts().4 && r.parts().5 == self.parts().5,
    {
        let mut b = self;
        b.metadata.image = Some(image);
        b
    }

    pub fn appdata(self, data: String) -> (r: SceneBuilder)
        ensures
            r.parts().1.appdata == Some(data),
            r.parts().1.name == self.parts().1.name,
            r.parts().1.image == self.parts().1.image,
            r.parts().0 == self.parts().0 && r.parts().2 == self.parts().2 && r.parts().3 == self.parts().3
                && r.parts().4 == self.parts().4 && r.parts().5 == self.parts().5,
    {
        let mut b = self;
        b.metadata.appdata = Some(data);
        b
    }

    pub fn palette(self, palette: ScenePalette) -> (r: SceneBuilder)
        ensures
            r.parts() == (self.parts().0, self.parts().1, self.parts().2, Some(palette), self.parts().4, self.parts().5),
    {
        SceneBuilder { palette: Some(palette), ..self }
    }

    pub fn speed(self, speed: Decimal) -> (r: SceneBuilder)
        ensures
            r.parts() == (self.parts().0, self.parts().1, self.parts().2, self.parts().3, Some(speed), self.parts().5),
    {
        SceneBuilder { speed: Some(speed), ..self }
    }

    pub fn auto_dynamic(self, auto_dynamic: bool) -> (r: SceneBuilder)
        ensures
            r.parts() == (self.parts().0, self.parts().1, self.parts().2, self.parts().3, self.parts().4, Some(auto_dynamic)),
    {
        SceneBuilder { auto_dynamic: Some(auto_dynamic), ..self }
    }

    /// The creation document: actions, metadata, group and palette (`null`
    /// when absent), then speed and auto-dynamic only when set.
    pub closed spec fn spec_json(&self) -> Json {
        obj(
            seq![
                ("actions"@, Json::Array(Seq::new(self.actions@.len(), |i: int| scene_action_json(self.actions@[i])))),
                ("metadata"@, obj(metadata_members(self.metadata))),
                ("group"@, identifier_json(self.group)),
                ("palette"@, if self.palette is Some { palette_json(self.palette.unwrap()) } else { Json::Null }),
            ] + opt_member("speed"@, if self.speed is Some { Some(decimal_json(self.speed.unwrap())) } else { None })
                + opt_member(
                "auto_dynamic"@,
                if self.auto_dynamic is Some { Some(Json::Bool(self.auto_dynamic.unwrap())) } else { None },
            ),
        )
    }

    pub fn to_json(&self) -> (r: JsonValue)
        ensures
            r@ == self.spec_json(),
    {
        let mut out: Vec<JsonValue> = Vec::new();
        let mut i: usize = 0;
        while i < self.actions.len()
            invariant
                i <= self.actions.len(),
                out.len() == i,
                forall|j: int| 0 <= j < i ==> #[trigger] out[j]@ == scene_action_json(self.actions@[j]),
            decreases self.actions.len() - i,
        {
            out.push(scene_action_to_json(&self.actions[i]));
            i += 1;
        }
        let ghost ov = out@;
        let acts = JsonValue::array(out);
        assert(Seq::new(ov.len(), |j: int| ov[j]@) =~= Seq::new(
            self.actions@.len(),
            |j: int| scene_action_json(self.actions@[j]),
        ));
        let pal = match &self.palette {
            Some(p) => palette_to_json(p),
            None => JsonValue::Null,
        };
        let mut m: Vec<(String, JsonValue)> = Vec::new();
        assert(members_view(m@) =~= Seq::<(Seq<char>, Json)>::empty());
        let ghost (ja, jp) = (acts@, pal@);
        push_member(&mut m, "actions", acts);
        push_member(&mut m, "metadata", metadata_to_json(&self.metadata));
        push_member(&mut m, "group", identifier_to_json(&self.group));
        push_member(&mut m, "palette", pal);
        let ghost s1 = members_view(m@);
        assert(s1 =~= seq![
            ("actions"@, ja),
            ("metadata"@, obj(metadata_members(self.metadata))),
            ("group"@, identifier_json(self.group)),
            ("palette"@, jp),
        ]);
        match &self.speed {
            Some(sp) => push_member(&mut m, "speed", decimal_to_json(sp)),
            None => {},
        }
        let ghost s2 = members_view(m@);
        assert(s2 =~= s1 + opt_member("speed"@, if self.speed is Some { Some(decimal_json(self.speed.unwrap())) } else { None }));
        match self.auto_dynamic {
            Some(a) => push_member(&mut m, "auto_dynamic", JsonValue::Bool(a)),
            None => {},
        }
        let ghost s3 = members_view(m@);
        assert(s3 =~= s2 + opt_member(
            "auto_dynamic"@,
            if self.auto_dynamic is Some { Some(Json::Bool(self.auto_dynamic.unwrap())) } else { None },
        ));
        JsonValue::object_of(m)
    }
}

} // verus!
