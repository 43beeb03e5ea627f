use hues::api::{
    first_or_not_found, identifiers_from_json, register_body, register_outcome, resource_path, response_data,
    unregister_outcome, HueAPIError, RegisterErrorPayload, RegisterResponse, RegisterSuccessPayload,
    UnregisterResponse,
};
use hues::json::JsonValue;
use hues::reconcile::snapshot_from_json;
use hues::resource::{ResourceIdentifier, ResourceType};
use hues::sensor::GeofenceClientBuilder;
use hues::zone::{ZoneArchetype, ZoneBuilder};

fn render(v: &JsonValue) -> String {
    match v {
        JsonValue::Null => "null".to_string(),
        JsonValue::Bool(b) => b.to_string(),
        JsonValue::Number(n) => n.clone(),
        JsonValue::Str(s) => format!("\"{}\"", s),
        JsonValue::Array(items) => {
            let parts: Vec<String> = items.iter().map(render).collect();
            format!("[{}]", parts.join(","))
        }
        JsonValue::Object(members) => {
            let parts: Vec<String> = members
                .iter()
                .map(|(k, v)| format!("\"{}\":{}", k, render(v)))
                .collect();
            format!("{{{}}}", parts.join(","))
        }
    }
}

fn obj(pairs: Vec<(&str, JsonValue)>) -> JsonValue {
    JsonValue::Object(pairs.into_iter().map(|(k, v)| (k.to_string(), v)).collect())
}

fn text(s: &str) -> JsonValue {
    JsonValue::Str(s.to_string())
}

#[test]
fn reply_with_data_and_no_error_is_ok() {
    let r = response_data(&vec![], Some(text("x")));
    assert_eq!(render(&r.unwrap()), "\"x\"");
}

#[test]
fn reply_with_error_gives_its_description() {
    match response_data(&vec!["bad".to_string(), "worse".to_string()], Some(text("x"))) {
        Err(HueAPIError::HueBridgeError(d)) => assert_eq!(d, "bad"),
        _ => panic!("expected a bridge error"),
    }
}

#[test]
fn reply_without_data_is_bad_response() {
    assert!(matches!(response_data(&vec![], None), Err(HueAPIError::BadResponse)));
}

#[test]
fn first_item_or_not_found() {
    assert_eq!(first_or_not_found(vec![3, 4]), Ok(3));
    assert_eq!(first_or_not_found::<u8>(vec![]), Err(HueAPIError::NotFound));
}

#[test]
fn identifiers_are_read_from_reply() {
    let data = JsonValue::Array(vec![
        obj(vec![("rid", text("L1")), ("rtype", text("light"))]),
        obj(vec![("rid", text("S1")), ("rtype", text("scene"))]),
    ]);
    assert_eq!(
        identifiers_from_json(&data).unwrap(),
        vec![
            ResourceIdentifier::new("L1".to_string(), ResourceType::Light),
            ResourceIdentifier::new("S1".to_string(), ResourceType::Scene)
        ]
    );
    let bad = JsonValue::Array(vec![obj(vec![("rid", text("L1")), ("rtype", text("lamp"))])]);
    assert_eq!(identifiers_from_json(&bad), Err(HueAPIError::BadDeserialize));
    assert_eq!(identifiers_from_json(&text("L1")), Err(HueAPIError::BadDeserialize));
    assert_eq!(identifiers_from_json(&JsonValue::Array(vec![])), Ok(vec![]));
}

#[test]
fn resource_paths() {
    assert_eq!(resource_path(ResourceType::Light, Some("abc")), "/resource/light/abc");
    assert_eq!(resource_path(ResourceType::Group, None), "/resource/grouped_light");
}

#[test]
fn snapshot_skips_unknown_kinds() {
    let data = JsonValue::Array(vec![
        obj(vec![("type", text("light")), ("id", text("L1"))]),
        obj(vec![("type", text("hologram")), ("id", text("H1"))]),
        obj(vec![("type", text("room"))]),
        obj(vec![("type", text("room")), ("id", text("R1"))]),
    ]);
    let snap = snapshot_from_json(&data).unwrap();
    let ids: Vec<(ResourceType, String)> = snap.iter().map(|r| (r.rtype, r.id.clone())).collect();
    assert_eq!(ids, vec![(ResourceType::Light, "L1".to_string()), (ResourceType::Room, "R1".to_string())]);
    assert!(snapshot_from_json(&obj(vec![])).is_none());
}

#[test]
fn creation_documents() {
    let z = ZoneBuilder::new("Den".to_string(), ZoneArchetype::Kitchen)
        .children(vec![ResourceIdentifier::new("L1".to_string(), ResourceType::Light)]);
    assert_eq!(
        render(&z.to_json()),
        "{\"metadata\":{\"name\":\"Den\",\"archetype\":\"kitchen\"},\"children\":[{\"rid\":\"L1\",\"rtype\":\"light\"}]}"
    );
    let g = GeofenceClientBuilder::new("phone".to_string()).is_at_home(false);
    assert_eq!(render(&g.to_json()), "{\"is_at_home\":false,\"name\":\"phone\"}");
}

#[test]
fn register_body_names_the_app() {
    assert_eq!(
        render(&register_body("magic", "gathering")),
        "{\"devicetype\":\"magic#gathering\",\"generateclientkey\":true}"
    );
}

#[test]
fn register_outcome_follows_first_reply() {
    let ok = RegisterResponse::Success {
        success: RegisterSuccessPayload { username: "u".to_string(), clientkey: "k".to_string() },
    };
    let err = RegisterResponse::Error {
        error: RegisterErrorPayload { error_type: 101, address: "".to_string(), description: "link button not pressed".to_string() },
    };
    assert_eq!(register_outcome(&vec![ok.clone(), err.clone()]).unwrap().username, "u");
    assert_eq!(
        register_outcome(&vec![err, ok]),
        Err(HueAPIError::HueBridgeError("link button not pressed".to_string()))
    );
    assert!(matches!(register_outcome(&vec![]), Err(HueAPIError::HueBridgeError(_))));
}

#[test]
fn unregister_outcome_follows_first_reply() {
    assert_eq!(unregister_outcome(&vec![UnregisterResponse::Success("gone".to_string())]), Ok(()));
    assert_eq!(
        unregister_outcome(&vec![UnregisterResponse::Error("no".to_string())]),
        Err(HueAPIError::HueBridgeError("no".to_string()))
    );
    assert_eq!(unregister_outcome(&vec![]), Err(HueAPIError::BadResponse));
}
