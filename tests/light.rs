use hues::command::{
    DeltaAction, Decimal, GroupCommand, LightCommand, PowerupColor, PowerupColorMode, PowerupDimming,
    PowerupDimmingMode, SignalColor, XyColor,
};
use hues::json::JsonValue;
use hues::resource::{ResourceIdentifier, ResourceType};
use hues::scene::{SceneColorTempState, SceneDynamics, SceneEffectState, SceneStatus};
use hues::scene_command::{
    GroupDimmingState, LightAction, SceneAction, SceneBuilder, SceneCommand, ScenePalette, ScenePaletteColor,
};
use hues::light::{
    AlertEffectType, EffectType, GradientMode, OnState, PowerupOnMode, PowerupOnState, PowerupPresetType,
    SignalType, TimedEffectType,
};

fn render(v: &JsonValue) -> String {
    match v {
        JsonValue::Null => "null".to_string(),
        JsonValue::Bool(b) => b.to_string(),
        JsonValue::Number(n) => n.clone(),
        JsonValue::Str(s) => format!("\"{}\"", s),
        JsonValue::Array(items) => {
            let parts: Vec<String> = items.iter().map(render).collect();
            format!("[{}]", parts.join(","))
        }
        JsonValue::Object(members) => {
            let parts: Vec<String> = members
                .iter()
                .map(|(k, v)| format!("\"{}\":{}", k, render(v)))
                .collect();
            format!("{{{}}}", parts.join(","))
        }
    }
}

fn dec(s: &str) -> Decimal {
    Decimal { text: s.to_string() }
}

fn xy(x: &str, y: &str) -> XyColor {
    XyColor { x: dec(x), y: dec(y) }
}

#[test]
fn light_commands_serialize() {
    assert_eq!(render(&LightCommand::Alert(AlertEffectType::Breathe).to_json()), "{\"alert\":{\"action\":\"breathe\"}}");
    assert_eq!(
        render(&LightCommand::Color { x: dec("0.3"), y: dec("0.4") }.to_json()),
        "{\"color\":{\"xy\":{\"x\":0.3,\"y\":0.4}}}"
    );
    assert_eq!(render(&LightCommand::ColorTemp(153).to_json()), "{\"color_temperature\":{\"mirek\":153}}");
    assert_eq!(
        render(&LightCommand::ColorTempDelta { action: DeltaAction::Up, mirek_delta: None }.to_json()),
        "{\"color_temperature_delta\":{\"action\":\"up\",\"mirek_delta\":null}}"
    );
    assert_eq!(
        render(&LightCommand::DimDelta { action: None, brightness_delta: Some(dec("12.5")) }.to_json()),
        "{\"dimming_delta\":{\"action\":null,\"brightness_delta\":12.5}}"
    );
    assert_eq!(
        render(&LightCommand::Dynamics { duration: Some(400), speed: None }.to_json()),
        "{\"dynamics\":{\"duration\":400,\"speed\":null}}"
    );
    assert_eq!(
        render(&LightCommand::Gradient { points: vec![xy("0.1", "0.2")], mode: Some(GradientMode::RandomPixelated) }.to_json()),
        "{\"gradient\":{\"points\":[{\"xy\":{\"x\":0.1,\"y\":0.2}}],\"mode\":\"random_pixelated\"}}"
    );
    assert_eq!(render(&LightCommand::Effect(EffectType::Candle).to_json()), "{\"effects\":{\"effect\":\"candle\"}}");
    assert_eq!(render(&LightCommand::Identify.to_json()), "{\"identify\":{\"action\":\"identify\"}}");
    assert_eq!(
        render(&LightCommand::TimedEffect { effect: TimedEffectType::Sunrise, duration: Some(60000) }.to_json()),
        "{\"timed_effects\":{\"effect\":\"sunrise\",\"duration\":60000}}"
    );
}

#[test]
fn light_powerup_and_signaling_serialize() {
    let p = LightCommand::PowerUp {
        preset: PowerupPresetType::Custom,
        on: Some(PowerupOnState { mode: PowerupOnMode::On, on: Some(OnState { on: true }) }),
        dimming: Some(PowerupDimming { mode: PowerupDimmingMode::Dimming, brightness: Some(dec("50")) }),
        color: Some(PowerupColor { mode: PowerupColorMode::ColorTemp, color: None, color_temperature: Some(300) }),
    };
    assert_eq!(
        render(&p.to_json()),
        "{\"powerup\":{\"preset\":\"custom\",\"on\":{\"mode\":\"on\",\"on\":{\"on\":true}},\"dimming\":{\"mode\":\"dimming\",\"dimming\":{\"brightness\":50}},\"color\":{\"mode\":\"color_temperature\",\"color_temperature\":{\"mirek\":300}}}}"
    );
    let p = LightCommand::PowerUp { preset: PowerupPresetType::Safety, on: None, dimming: None, color: None };
    assert_eq!(
        render(&p.to_json()),
        "{\"powerup\":{\"preset\":\"safety\",\"on\":null,\"dimming\":null,\"color\":null}}"
    );
    let s = LightCommand::Signaling {
        signal: SignalType::Alternating,
        duration: 8000,
        colors: Some(SignalColor::Two(xy("0.1", "0.2"), xy("0.3", "0.4"))),
    };
    assert_eq!(
        render(&s.to_json()),
        "{\"signaling\":{\"signal\":\"alternating\",\"duration\":8000,\"colors\":[{\"xy\":{\"x\":0.1,\"y\":0.2}},{\"xy\":{\"x\":0.3,\"y\":0.4}}]}}"
    );
}

#[test]
fn group_commands_serialize() {
    assert_eq!(render(&GroupCommand::On(false).to_json()), "{\"on\":{\"on\":false}}");
    assert_eq!(render(&GroupCommand::Dim(dec("20")).to_json()), "{\"dimming\":{\"brightness\":20}}");
    assert_eq!(
        render(&GroupCommand::DimDelta { action: DeltaAction::Down, brightness_delta: None }.to_json()),
        "{\"dimming_delta\":{\"action\":\"down\",\"brightness_delta\":null}}"
    );
    assert_eq!(render(&GroupCommand::Dynamics { duration: None }.to_json()), "{\"dynamics\":{\"duration\":null}}");
    assert_eq!(
        render(&GroupCommand::Signaling { signal: SignalType::NoSignal, duration: 0, colors: None }.to_json()),
        "{\"signaling\":{\"signal\":\"no_signal\",\"duration\":0,\"colors\":null}}"
    );
    assert_eq!(
        render(&GroupCommand::Signaling { signal: SignalType::OnOffColor, duration: 1000, colors: Some(SignalColor::One(xy("0.5", "0.5"))) }.to_json()),
        "{\"signaling\":{\"signal\":\"on_off_color\",\"duration\":1000,\"colors\":[{\"xy\":{\"x\":0.5,\"y\":0.5}}]}}"
    );
}

#[test]
fn scene_commands_serialize() {
    let recall = SceneCommand::Recall {
        action: Some(SceneStatus::DynamicPalette),
        duration: Some(2000),
        dimming: None,
    };
    assert_eq!(
        render(&recall.to_json()),
        "{\"recall\":{\"action\":\"dynamic_palette\",\"duration\":2000,\"dimming\":null}}"
    );
    assert_eq!(render(&SceneCommand::Speed(dec("0.5")).to_json()), "{\"speed\":0.5}");
    assert_eq!(render(&SceneCommand::AutoDynamic(true).to_json()), "{\"auto_dynamic\":true}");
    let action = SceneAction {
        target: ResourceIdentifier::new("L1".to_string(), ResourceType::Light),
        action: LightAction {
            on: Some(OnState { on: true }),
            dimming: Some(GroupDimmingState { brightness: dec("40") }),
            color: None,
            color_temperature: Some(SceneColorTempState { mirek: Some(366) }),
            gradient: None,
            effects: Some(SceneEffectState { effect: None }),
            dynamics: Some(SceneDynamics { duration: None }),
        },
    };
    assert_eq!(
        render(&SceneCommand::Actions(vec![action]).to_json()),
        "{\"actions\":[{\"target\":{\"rid\":\"L1\",\"rtype\":\"light\"},\"action\":{\"on\":{\"on\":true},\"dimming\":{\"brightness\":40},\"color_temperature\":{\"mirek\":366},\"effects\":{\"effect\":null},\"dynamics\":{\"duration\":null}}}]}"
    );
    let palette = ScenePalette {
        color: vec![ScenePaletteColor { color: xy("0.1", "0.2"), dimming: GroupDimmingState { brightness: dec("100") } }],
        dimming: vec![],
        color_temperature: vec![],
        effects: vec![],
    };
    assert_eq!(
        render(&SceneCommand::Palette(palette).to_json()),
        "{\"palette\":{\"color\":[{\"color\":{\"xy\":{\"x\":0.1,\"y\":0.2}},\"dimming\":{\"brightness\":100}}],\"dimming\":[],\"color_temperature\":[],\"effects\":[]}}"
    );
}

#[test]
fn scene_builder_document() {
    let b = SceneBuilder::new("Green".to_string(), ResourceIdentifier::new("R1".to_string(), ResourceType::Room))
        .actions(vec![SceneAction {
            target: ResourceIdentifier::new("L1".to_string(), ResourceType::Light),
            action: LightAction { color: Some(xy("0.3", "0.4")), ..LightAction::default() },
        }])
        .appdata("x".to_string())
        .auto_dynamic(false);
    assert_eq!(
        render(&b.to_json()),
        "{\"actions\":[{\"target\":{\"rid\":\"L1\",\"rtype\":\"light\"},\"action\":{\"on\":{\"on\":true},\"color\":{\"xy\":{\"x\":0.3,\"y\":0.4}}}}],\"metadata\":{\"name\":\"Green\",\"appdata\":\"x\"},\"group\":{\"rid\":\"R1\",\"rtype\":\"room\"},\"palette\":null,\"auto_dynamic\":false}"
    );
    let p = SceneBuilder::new("P".to_string(), ResourceIdentifier::new("R1".to_string(), ResourceType::Room))
        .palette(ScenePalette::default())
        .speed(dec("0.7"));
    assert_eq!(
        render(&p.to_json()),
        "{\"actions\":[],\"metadata\":{\"name\":\"P\"},\"group\":{\"rid\":\"R1\",\"rtype\":\"room\"},\"palette\":{\"color\":[],\"dimming\":[],\"color_temperature\":[],\"effects\":[]},\"speed\":0.7}"
    );
}
