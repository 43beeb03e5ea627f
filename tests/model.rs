use hues::command::{
    BasicCommand, Command, DeviceCommand, EntertainmentAction, EntertainmentConfigurationCommand,
    GeofenceClientCommand, HomeKitCommand, MatterCommand, MotionCommand, SmartSceneCommand,
    ZigbeeConnectivityCommand, ZigbeeDeviceDiscoveryCommand, ZoneCommand,
};
use hues::control::{Button, ButtonData, ButtonMetadata, ButtonState};
use hues::device::ProductArchetype;
use hues::event::HueEventType;
use hues::json::JsonValue;
use hues::light::{parse_hex_rgb, ParseColorError};
use hues::resource::{ResourceIdentifier, ResourceType};
use hues::scene::{Schedule, SmartSceneBuilder, TimeslotStart, Weekday};
use hues::sensor::GeofenceClientBuilder;
use hues::sync::{ListenEvent, ListenPhase, ListenSync, PollEvent, PollPhase, PollSync, SyncAction};
use hues::zigbee::{ZGPConnectivity, ZGPConnectivityData, ZigbeeChannel, ZigbeeStatus};
use hues::zone::{ZoneArchetype, ZoneBuilder};

fn render(v: &JsonValue) -> String {
    match v {
        JsonValue::Null => "null".to_string(),
        JsonValue::Bool(b) => b.to_string(),
        JsonValue::Number(n) => n.clone(),
        JsonValue::Str(s) => format!("\"{}\"", s),
        JsonValue::Array(items) => {
            let parts: Vec<String> = items.iter().map(render).collect();
            format!("[{}]", parts.join(","))
        }
        JsonValue::Object(members) => {
            let parts: Vec<String> = members
                .iter()
                .map(|(k, v)| format!("\"{}\":{}", k, render(v)))
                .collect();
            format!("{{{}}}", parts.join(","))
        }
    }
}

fn rid(id: &str, t: ResourceType) -> ResourceIdentifier {
    ResourceIdentifier::new(id.to_string(), t)
}

#[test]
fn resource_tags_round_trip() {
    for t in [
        ResourceType::Light,
        ResourceType::Group,
        ResourceType::HomeKit,
        ResourceType::Taurus7455,
        ResourceType::ZGPConnectivity,
        ResourceType::BridgeHome,
        ResourceType::AuthV1,
    ] {
        assert_eq!(ResourceType::from_tag(t.tag()), Some(t));
    }
    assert_eq!(ResourceType::Group.tag(), "grouped_light");
    assert_eq!(ResourceType::from_tag("zone"), Some(ResourceType::Zone));
    assert_eq!(ResourceType::from_tag("Zone"), None);
    assert_eq!(ResourceType::from_tag(""), None);
}

#[test]
fn event_type_tags() {
    assert_eq!(HueEventType::from_tag("add"), Some(HueEventType::Add));
    assert_eq!(HueEventType::from_tag("update"), Some(HueEventType::Update));
    assert_eq!(HueEventType::from_tag("delete"), Some(HueEventType::Delete));
    assert_eq!(HueEventType::from_tag("error"), Some(HueEventType::Error));
    assert_eq!(HueEventType::from_tag("upsert"), None);
}

#[test]
fn simple_commands_serialize() {
    assert_eq!(render(&BasicCommand::Enabled(true).to_json()), "{\"enabled\":true}");
    assert_eq!(render(&HomeKitCommand::Reset.to_json()), "{\"action\":\"homekit_reset\"}");
    assert_eq!(render(&MatterCommand::Reset.to_json()), "{\"action\":\"matter_reset\"}");
    assert_eq!(render(&MotionCommand::Sensitivity(3).to_json()), "{\"sensitivity\":{\"sensitivity\":3}}");
    assert_eq!(render(&MotionCommand::Enabled(false).to_json()), "{\"enabled\":false}");
    assert_eq!(
        render(&EntertainmentConfigurationCommand::Action(EntertainmentAction::Start).to_json()),
        "{\"action\":\"start\"}"
    );
    assert_eq!(render(&GeofenceClientCommand::IsAtHome(true).to_json()), "{\"is_at_home\":true}");
    assert_eq!(render(&GeofenceClientCommand::Name("phone".to_string()).to_json()), "{\"name\":\"phone\"}");
    assert_eq!(
        render(&ZigbeeConnectivityCommand::Channel(ZigbeeChannel::Channel15).to_json()),
        "{\"channel\":{\"value\":\"channel_15\"}}"
    );
}

#[test]
fn device_and_zone_commands_serialize() {
    assert_eq!(render(&DeviceCommand::Identify.to_json()), "{\"identify\":{\"action\":\"identify\"}}");
    assert_eq!(render(&DeviceCommand::UserTest(true).to_json()), "{\"usertest\":{\"usertest\":true}}");
    let meta = DeviceCommand::Metadata { name: Some("desk".to_string()), archetype: Some(ProductArchetype::HueGo) };
    assert_eq!(render(&meta.to_json()), "{\"metadata\":{\"name\":\"desk\",\"archetype\":\"hue_go\"}}");
    let meta = ZoneCommand::Metadata { name: None, archetype: Some(ZoneArchetype::FrontDoor) };
    assert_eq!(render(&meta.to_json()), "{\"metadata\":{\"name\":null,\"archetype\":\"front_door\"}}");
    let kids = ZoneCommand::Children(vec![rid("L1", ResourceType::Light)]);
    assert_eq!(render(&kids.to_json()), "{\"children\":[{\"rid\":\"L1\",\"rtype\":\"light\"}]}");
    let disc = ZigbeeDeviceDiscoveryCommand::Action { search_codes: vec!["A".to_string()], install_codes: vec![] };
    assert_eq!(
        render(&disc.to_json()),
        "{\"action\":{\"action_type\":\"search\",\"search_codes\":[\"A\"],\"install_codes\":[]}}"
    );
}

#[test]
fn smart_scene_commands_serialize() {
    assert_eq!(render(&SmartSceneCommand::Enabled(false).to_json()), "{\"recall\":{\"action\":\"deactivate\"}}");
    assert_eq!(render(&SmartSceneCommand::TransitionDuration(60000).to_json()), "{\"transition_duration\":60000}");
    let cmd = SmartSceneCommand::create_schedule()
        .monday()
        .friday()
        .monday()
        .at(TimeslotStart::time(&[7, 30, 0]), rid("S1", ResourceType::Scene))
        .at(TimeslotStart::Sunset, rid("S2", ResourceType::Scene))
        .build();
    assert_eq!(
        render(&cmd.to_json()),
        "{\"week_timeslots\":[{\"timeslots\":[{\"start_time\":{\"kind\":\"time\",\"time\":{\"hour\":7,\"minute\":30,\"second\":0}},\"target\":{\"rid\":\"S1\",\"rtype\":\"scene\"}},{\"start_time\":{\"kind\":\"sunset\"},\"target\":{\"rid\":\"S2\",\"rtype\":\"scene\"}}],\"recurrence\":[\"monday\",\"friday\"]}]}"
    );
}

#[test]
fn schedule_on_days_has_no_duplicates() {
    let s = Schedule::new().on(&[Weekday::Sunday, Weekday::Sunday, Weekday::Tuesday]);
    assert_eq!(s.recurrence, vec![Weekday::Sunday, Weekday::Tuesday]);
    let s = s.tuesday().saturday().wednesday().thursday();
    assert_eq!(s.recurrence.len(), 5);
}

#[test]
fn command_merge_of_serialized_commands() {
    let body = Command::merge(&vec![BasicCommand::Enabled(true).to_json(), MotionCommand::Sensitivity(2).to_json()]);
    assert_eq!(render(&body), "{\"enabled\":true,\"sensitivity\":{\"sensitivity\":2}}");
}

#[test]
fn builders_keep_their_settings() {
    let z = ZoneBuilder::new("Den".to_string(), ZoneArchetype::Office).children(vec![rid("L1", ResourceType::Light)]);
    assert_eq!(z.metadata.name, "Den");
    assert_eq!(z.children.len(), 1);
    let _g = GeofenceClientBuilder::new("phone".to_string()).is_at_home(false);
    let _b = SmartSceneBuilder::new("Wake".to_string(), rid("R1", ResourceType::Room))
        .image(rid("I1", ResourceType::PublicImage))
        .transition_duration(500)
        .schedule(Schedule::new());
}

#[test]
fn wrappers_expose_their_data() {
    let data = ButtonData {
        id: "B1".to_string(),
        id_v1: None,
        owner: rid("D1", ResourceType::Device),
        metadata: ButtonMetadata { control_id: 3 },
        button: ButtonState { last_event: None, button_report: None, repeat_interval: None, event_values: vec![] },
    };
    assert_eq!(data.rid(), rid("B1", ResourceType::Button));
    let b = Button::new(data);
    assert_eq!(b.id(), "B1");
    assert_eq!(b.control_id(), 3);
    assert_eq!(b.rid(), rid("B1", ResourceType::Button));
    assert_eq!(b.data().metadata.control_id, 3);
    let z = ZGPConnectivity::new(ZGPConnectivityData {
        id: "Z1".to_string(),
        id_v1: None,
        owner: rid("D2", ResourceType::Device),
        status: ZigbeeStatus::Connected,
        source_id: "s".to_string(),
    });
    assert_eq!(z.status(), ZigbeeStatus::Connected);
    assert_eq!(z.rid(), rid("Z1", ResourceType::ZGPConnectivity));
}

#[test]
fn poller_skips_the_first_tick() {
    let mut p = PollSync::new();
    assert_eq!(p.step(PollEvent::Start), SyncAction::FetchSnapshot);
    assert_eq!(p.step(PollEvent::SnapshotDone), SyncAction::StartTimer);
    assert_eq!(p.step(PollEvent::Tick), SyncAction::Nothing);
    assert_eq!(p.step(PollEvent::Tick), SyncAction::FetchSnapshot);
    assert_eq!(p.step(PollEvent::SnapshotFailed), SyncAction::Nothing);
    assert_eq!(p.step(PollEvent::Start), SyncAction::Nothing);
    assert_eq!(p.step(PollEvent::Stop), SyncAction::Abort);
    assert_eq!(p.phase, PollPhase::Stopped);
    assert_eq!(p.step(PollEvent::Tick), SyncAction::Nothing);
    assert_eq!(p.step(PollEvent::Start), SyncAction::FetchSnapshot);
}

#[test]
fn listener_ends_on_stream_failure() {
    let mut l = ListenSync::new();
    assert_eq!(l.step(ListenEvent::Start), SyncAction::FetchSnapshot);
    assert_eq!(l.step(ListenEvent::SnapshotFailed), SyncAction::OpenStream);
    assert_eq!(l.step(ListenEvent::StreamOpened), SyncAction::Nothing);
    assert_eq!(l.step(ListenEvent::Batch), SyncAction::ApplyBatch);
    assert_eq!(l.step(ListenEvent::BatchMalformed), SyncAction::Nothing);
    assert_eq!(l.phase, ListenPhase::Streaming);
    assert_eq!(l.step(ListenEvent::StreamFailed), SyncAction::Nothing);
    assert_eq!(l.phase, ListenPhase::Ended);
    assert_eq!(l.step(ListenEvent::Batch), SyncAction::Nothing);
    assert_eq!(l.step(ListenEvent::Stop), SyncAction::Nothing);
}

#[test]
fn hex_colors_parse() {
    assert_eq!(parse_hex_rgb("#FFF"), Ok((255, 255, 255)));
    assert_eq!(parse_hex_rgb("a0f"), Ok((170, 0, 255)));
    assert_eq!(parse_hex_rgb("#FAA020"), Ok((250, 160, 32)));
    assert_eq!(parse_hex_rgb("#FF8000"), Ok((255, 128, 0)));
    assert_eq!(parse_hex_rgb("123456"), Ok((18, 52, 86)));
}

#[test]
fn hex_color_errors() {
    assert_eq!(parse_hex_rgb("#FFFF"), Err(ParseColorError::InvalidLength));
    assert_eq!(parse_hex_rgb("12345"), Err(ParseColorError::InvalidLength));
    assert_eq!(parse_hex_rgb(""), Err(ParseColorError::InvalidLength));
    assert_eq!(parse_hex_rgb("1234"), Err(ParseColorError::InvalidByte));
    assert_eq!(parse_hex_rgb("#12G456"), Err(ParseColorError::InvalidByte));
    assert_eq!(parse_hex_rgb("#12"), Err(ParseColorError::InvalidByte));
    assert_eq!(parse_hex_rgb("\u{e9}a"), Err(ParseColorError::InvalidByte));
}
