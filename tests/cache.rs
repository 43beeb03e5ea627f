use hues::command::merge_commands;
use hues::cache::BridgeCache;
use hues::event::{HueEvent, HueEventType};
use hues::json::JsonValue;
use hues::reconcile::{identify, Resource};
use hues::resource::{ResourceIdentifier, ResourceType};

fn render(v: &JsonValue) -> String {
    match v {
        JsonValue::Null => "null".to_string(),
        JsonValue::Bool(b) => b.to_string(),
        JsonValue::Number(n) => n.clone(),
        JsonValue::Str(s) => format!("\"{}\"", s),
        JsonValue::Array(items) => {
            let parts: Vec<String> = items.iter().map(render).collect();
            format!("[{}]", parts.join(","))
        }
        JsonValue::Object(members) => {
            let parts: Vec<String> = members
                .iter()
                .map(|(k, v)| format!("\"{}\":{}", k, render(v)))
                .collect();
            format!("{{{}}}", parts.join(","))
        }
    }
}

fn obj(pairs: Vec<(&str, JsonValue)>) -> JsonValue {
    JsonValue::Object(pairs.into_iter().map(|(k, v)| (k.to_string(), v)).collect())
}

fn text(s: &str) -> JsonValue {
    JsonValue::Str(s.to_string())
}

fn num(s: &str) -> JsonValue {
    JsonValue::Number(s.to_string())
}

fn light_doc(id: &str, on: bool, brightness: &str) -> JsonValue {
    obj(vec![
        ("type", text("light")),
        ("id", text(id)),
        ("on", obj(vec![("on", JsonValue::Bool(on))])),
        ("dimming", obj(vec![("brightness", num(brightness))])),
    ])
}

fn doc(kind: &str, id: &str) -> JsonValue {
    obj(vec![("type", text(kind)), ("id", text(id))])
}

fn resource(d: JsonValue) -> Resource {
    Resource::from_json(d).expect("known kind with id")
}

fn key(id: &str) -> String {
    id.to_string()
}

fn event(etype: HueEventType, data: Vec<JsonValue>) -> HueEvent {
    HueEvent {
        id: "ev".to_string(),
        creation_time: "2024-01-01T00:00:00Z".to_string(),
        data,
        etype,
    }
}

fn five_lights() -> Vec<Resource> {
    (1..=5)
        .map(|i| resource(light_doc(&format!("L{}", i), false, "50")))
        .collect()
}

#[test]
fn snapshot_twice_same_as_once() {
    let snap = vec![
        resource(light_doc("L1", false, "80")),
        resource(doc("scene", "S1")),
        resource(light_doc("L1", true, "20")),
        resource(doc("bridge", "B")),
    ];
    let mut once = BridgeCache::new();
    once.insert_to_cache(&snap);
    let mut twice = BridgeCache::new();
    twice.insert_to_cache(&snap);
    twice.insert_to_cache(&snap);
    for k in [ResourceType::Light, ResourceType::Scene] {
        assert_eq!(once.count(k), twice.count(k));
        let a: Vec<String> = once.get_all(k).iter().map(render).collect();
        let b: Vec<String> = twice.get_all(k).iter().map(render).collect();
        assert_eq!(a, b);
    }
    assert_eq!(once.count(ResourceType::Light), 1);
    assert_eq!(
        render(&twice.get(ResourceType::Light, &key("L1")).unwrap()),
        render(&light_doc("L1", true, "20"))
    );
    assert_eq!(
        render(&once.data().unwrap()),
        render(&twice.data().unwrap())
    );
}

#[test]
fn update_merges_onto_stored_light() {
    let mut cache = BridgeCache::new();
    cache.insert_to_cache(&vec![resource(light_doc("L1", false, "80"))]);
    let patch = obj(vec![
        ("type", text("light")),
        ("id", text("L1")),
        ("on", obj(vec![("on", JsonValue::Bool(true))])),
    ]);
    let changes = cache.upsert_to_cache(&vec![event(HueEventType::Update, vec![patch])]);
    assert_eq!(changes, vec![ResourceIdentifier::new("L1".to_string(), ResourceType::Light)]);
    let stored = cache.get(ResourceType::Light, &key("L1")).unwrap();
    assert_eq!(render(&stored), render(&light_doc("L1", true, "80")));
}

#[test]
fn update_without_base_is_dropped() {
    let mut cache = BridgeCache::new();
    cache.insert_to_cache(&vec![resource(light_doc("L1", false, "80"))]);
    let before = cache.count(ResourceType::Light);
    let patch = obj(vec![
        ("type", text("light")),
        ("id", text("missing")),
        ("on", obj(vec![("on", JsonValue::Bool(true))])),
    ]);
    let changes = cache.upsert_to_cache(&vec![event(HueEventType::Update, vec![patch])]);
    assert!(changes.is_empty());
    assert_eq!(cache.count(ResourceType::Light), before);
    assert!(cache.get(ResourceType::Light, &key("missing")).is_none());
}

#[test]
fn delete_removes_only_the_named_kind() {
    let mut cache = BridgeCache::new();
    cache.insert_to_cache(&vec![resource(doc("light", "A")), resource(doc("scene", "A"))]);
    cache.delete_from_cache(&vec![ResourceIdentifier::new("A".to_string(), ResourceType::Light)]);
    assert!(cache.get(ResourceType::Light, &key("A")).is_none());
    assert!(cache.get(ResourceType::Scene, &key("A")).is_some());
    assert_eq!(cache.count(ResourceType::Light), 0);
    assert_eq!(cache.count(ResourceType::Scene), 1);
}

#[test]
fn delete_event_removes_only_the_named_kind() {
    let mut cache = BridgeCache::new();
    cache.insert_to_cache(&vec![resource(doc("light", "A")), resource(doc("scene", "A"))]);
    let changes = cache.upsert_to_cache(&vec![event(HueEventType::Delete, vec![doc("light", "A")])]);
    assert!(changes.is_empty());
    assert_eq!(cache.count(ResourceType::Light), 0);
    assert_eq!(cache.count(ResourceType::Scene), 1);
}

#[test]
fn snapshot_does_not_evict() {
    let mut cache = BridgeCache::new();
    cache.insert_to_cache(&five_lights());
    assert_eq!(cache.count(ResourceType::Light), 5);
    let mut four = five_lights();
    four.pop();
    cache.insert_to_cache(&four);
    assert_eq!(cache.count(ResourceType::Light), 5);
    assert!(cache.get(ResourceType::Light, &key("L5")).is_some());
}

#[test]
fn unknown_kind_in_batch_is_ignored() {
    let mut cache = BridgeCache::new();
    cache.insert_to_cache(&five_lights());
    let batch = vec![
        event(HueEventType::Add, vec![doc("flux_capacitor", "X1")]),
        event(HueEventType::Update, vec![doc("flux_capacitor", "L1")]),
        event(HueEventType::Delete, vec![doc("flux_capacitor", "L2")]),
    ];
    let changes = cache.upsert_to_cache(&batch);
    assert!(changes.is_empty());
    assert_eq!(cache.count(ResourceType::Light), 5);
    assert_eq!(cache.count(ResourceType::Scene), 0);
}

#[test]
fn add_event_inserts_and_replaces() {
    let mut cache = BridgeCache::new();
    let changes = cache.upsert_to_cache(&vec![event(
        HueEventType::Add,
        vec![light_doc("L1", false, "10"), light_doc("L1", true, "30"), doc("zone", "Z1")],
    )]);
    assert!(changes.is_empty());
    assert_eq!(cache.count(ResourceType::Light), 1);
    assert_eq!(cache.count(ResourceType::Zone), 1);
    assert_eq!(
        render(&cache.get(ResourceType::Light, &key("L1")).unwrap()),
        render(&light_doc("L1", true, "30"))
    );
}

#[test]
fn error_event_changes_nothing() {
    let mut cache = BridgeCache::new();
    cache.insert_to_cache(&five_lights());
    let changes = cache.upsert_to_cache(&vec![event(HueEventType::Error, vec![doc("light", "L1")])]);
    assert!(changes.is_empty());
    assert_eq!(cache.count(ResourceType::Light), 5);
}

#[test]
fn bridge_slot_is_filled_and_cleared() {
    let mut cache = BridgeCache::new();
    assert!(cache.data().is_none());
    cache.insert_to_cache(&vec![resource(doc("bridge", "B1"))]);
    assert!(cache.data().is_some());
    assert!(cache.get(ResourceType::Bridge, &key("B1")).is_some());
    assert!(cache.get(ResourceType::Bridge, &key("B2")).is_none());
    cache.delete_from_cache(&vec![ResourceIdentifier::new("B9".to_string(), ResourceType::Bridge)]);
    assert!(cache.data().is_none());
}

#[test]
fn kinds_without_data_are_not_stored() {
    let mut cache = BridgeCache::new();
    cache.insert_to_cache(&vec![resource(doc("geofence", "G1")), resource(doc("public_image", "P1"))]);
    assert_eq!(cache.count(ResourceType::Geofence), 0);
    assert!(cache.get(ResourceType::PublicImage, &key("P1")).is_none());
    cache.delete_from_cache(&vec![ResourceIdentifier::new("G1".to_string(), ResourceType::Geofence)]);
    assert_eq!(cache.count(ResourceType::Geofence), 0);
}

#[test]
fn get_all_keeps_store_order() {
    let mut cache = BridgeCache::new();
    cache.insert_to_cache(&vec![
        resource(doc("room", "R2")),
        resource(doc("zone", "Z1")),
        resource(doc("room", "R1")),
    ]);
    let rooms: Vec<String> = cache.get_all(ResourceType::Room).iter().map(render).collect();
    assert_eq!(
        rooms,
        vec![render(&doc("room", "R2")), render(&doc("room", "R1"))]
    );
    assert!(cache.get_all(ResourceType::Light).is_empty());
}

#[test]
fn identify_reads_kind_and_id() {
    let rid = identify(&doc("grouped_light", "G7")).unwrap();
    assert_eq!(rid, ResourceIdentifier::new("G7".to_string(), ResourceType::Group));
    assert!(identify(&doc("nonsense", "G7")).is_none());
    assert!(identify(&obj(vec![("type", text("light"))])).is_none());
    assert!(identify(&obj(vec![("type", text("light")), ("id", num("3"))])).is_none());
    assert!(identify(&text("light")).is_none());
}

#[test]
fn write_then_read_returns_cached_value() {
    let mut cache = BridgeCache::new();
    cache.insert_to_cache(&vec![resource(light_doc("L1", false, "80"))]);
    let body = merge_commands(&vec![obj(vec![("on", obj(vec![("on", JsonValue::Bool(true))]))])]);
    assert_eq!(render(&body), "{\"on\":{\"on\":true}}");
    let read = cache.get(ResourceType::Light, &key("L1")).unwrap();
    assert_eq!(render(&read), render(&light_doc("L1", false, "80")));
}

#[test]
fn ids_named_finds_scenes_by_name() {
    let named = |id: &str, name: &str| {
        obj(vec![
            ("type", text("scene")),
            ("id", text(id)),
            ("metadata", obj(vec![("name", text(name))])),
        ])
    };
    let mut cache = BridgeCache::new();
    cache.insert_to_cache(&vec![
        resource(named("S1", "Relax")),
        resource(named("S2", "Read")),
        resource(named("S3", "Relax")),
        resource(doc("scene", "S4")),
        resource(obj(vec![("type", text("room")), ("id", text("R1")), ("metadata", obj(vec![("name", text("Relax"))]))])),
    ]);
    assert_eq!(cache.ids_named(ResourceType::Scene, &key("Relax")), vec!["S1".to_string(), "S3".to_string()]);
    assert!(cache.ids_named(ResourceType::Scene, &key("Party")).is_empty());
}

#[test]
fn reporting_lists_what_was_not_applied() {
    let mut cache = BridgeCache::new();
    cache.insert_to_cache(&vec![resource(light_doc("L1", false, "80"))]);
    let batch = vec![
        event(HueEventType::Update, vec![doc("light", "L1"), doc("light", "missing"), doc("hologram", "H")]),
        event(HueEventType::Delete, vec![doc("geofence", "G1"), doc("light", "L1")]),
    ];
    let (changes, dropped) = cache.upsert_to_cache_reporting(&batch);
    assert_eq!(changes, vec![ResourceIdentifier::new("L1".to_string(), ResourceType::Light)]);
    assert_eq!(
        dropped,
        vec![
            ResourceIdentifier::new("missing".to_string(), ResourceType::Light),
            ResourceIdentifier::new("G1".to_string(), ResourceType::Geofence),
        ]
    );
    assert_eq!(cache.count(ResourceType::Light), 0);
}

#[test]
fn unsupported_deletions_are_listed() {
    let ids = vec![
        ResourceIdentifier::new("A".to_string(), ResourceType::Light),
        ResourceIdentifier::new("B".to_string(), ResourceType::Bridge),
        ResourceIdentifier::new("C".to_string(), ResourceType::PublicImage),
        ResourceIdentifier::new("D".to_string(), ResourceType::AuthV1),
    ];
    assert_eq!(
        BridgeCache::unsupported_deletions(&ids),
        vec![
            ResourceIdentifier::new("C".to_string(), ResourceType::PublicImage),
            ResourceIdentifier::new("D".to_string(), ResourceType::AuthV1),
        ]
    );
}

#[test]
fn second_snapshot_of_stored_lights_keeps_stored_values() {
    let mut cache = BridgeCache::new();
    cache.insert_to_cache(&five_lights());
    let before = render(&cache.get(ResourceType::Light, &key("L5")).unwrap());
    let mut four = five_lights();
    four.pop();
    four[0] = resource(light_doc("L1", true, "10"));
    cache.insert_to_cache(&four);
    assert_eq!(cache.count(ResourceType::Light), 5);
    assert_eq!(render(&cache.get(ResourceType::Light, &key("L5")).unwrap()), before);
    assert_eq!(
        render(&cache.get(ResourceType::Light, &key("L1")).unwrap()),
        render(&light_doc("L1", true, "10"))
    );
}
