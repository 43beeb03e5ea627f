use hues::command::{merge_commands, Decimal, LightCommand};
use hues::json::{decimal, merge, JsonValue};

fn render(v: &JsonValue) -> String {
    match v {
        JsonValue::Null => "null".to_string(),
        JsonValue::Bool(b) => b.to_string(),
        JsonValue::Number(n) => n.clone(),
        JsonValue::Str(s) => format!("\"{}\"", s),
        JsonValue::Array(items) => {
            let parts: Vec<String> = items.iter().map(render).collect();
            format!("[{}]", parts.join(","))
        }
        JsonValue::Object(members) => {
            let parts: Vec<String> = members
                .iter()
                .map(|(k, v)| format!("\"{}\":{}", k, render(v)))
                .collect();
            format!("{{{}}}", parts.join(","))
        }
    }
}

fn obj(pairs: Vec<(&str, JsonValue)>) -> JsonValue {
    JsonValue::Object(pairs.into_iter().map(|(k, v)| (k.to_string(), v)).collect())
}

fn num(s: &str) -> JsonValue {
    JsonValue::Number(s.to_string())
}

#[test]
fn commands_compose_into_one_document() {
    let set_brightness = obj(vec![("dimming", obj(vec![("brightness", num("80"))]))]);
    let set_power = obj(vec![("on", obj(vec![("on", JsonValue::Bool(true))]))]);
    let body = merge_commands(&vec![set_brightness, set_power]);
    assert_eq!(render(&body), "{\"dimming\":{\"brightness\":80},\"on\":{\"on\":true}}");
}

#[test]
fn later_command_wins_on_conflict() {
    let a = obj(vec![("dimming", obj(vec![("brightness", num("80")), ("x", num("1"))]))]);
    let b = obj(vec![("dimming", obj(vec![("brightness", num("20"))]))]);
    let body = merge_commands(&vec![a, b]);
    assert_eq!(render(&body), "{\"dimming\":{\"brightness\":20,\"x\":1}}");
}

#[test]
fn no_commands_compose_to_empty_object() {
    assert_eq!(render(&merge_commands(&vec![])), "{}");
}

#[test]
fn merge_null_removes_member() {
    let target = obj(vec![("a", num("1")), ("b", num("2"))]);
    let patch = obj(vec![("a", JsonValue::Null), ("c", num("3"))]);
    assert_eq!(render(&merge(&target, &patch)), "{\"b\":2,\"c\":3}");
}

#[test]
fn merge_replaces_arrays_and_scalars() {
    let target = obj(vec![("a", JsonValue::Array(vec![num("1"), num("2")]))]);
    let patch = obj(vec![("a", JsonValue::Array(vec![num("3")]))]);
    assert_eq!(render(&merge(&target, &patch)), "{\"a\":[3]}");
    assert_eq!(render(&merge(&target, &num("7"))), "7");
    assert_eq!(render(&merge(&num("7"), &obj(vec![("k", JsonValue::Null)]))), "{}");
}

#[test]
fn merge_is_recursive() {
    let target = obj(vec![("on", obj(vec![("on", JsonValue::Bool(false))])), ("dimming", obj(vec![("brightness", num("80"))]))]);
    let patch = obj(vec![("on", obj(vec![("on", JsonValue::Bool(true))]))]);
    assert_eq!(
        render(&merge(&target, &patch)),
        "{\"on\":{\"on\":true},\"dimming\":{\"brightness\":80}}"
    );
}

#[test]
fn decimal_text_of_numbers() {
    assert_eq!(decimal(0), "0");
    assert_eq!(decimal(7), "7");
    assert_eq!(decimal(60000), "60000");
    assert_eq!(decimal(u64::MAX), "18446744073709551615");
}

#[test]
fn deep_copy_and_get() {
    let v = obj(vec![("a", obj(vec![("b", JsonValue::Array(vec![JsonValue::Null]))]))]);
    let c = v.deep_copy();
    assert_eq!(render(&c), render(&v));
    assert_eq!(render(v.get(&"a".to_string()).unwrap()), "{\"b\":[null]}");
    assert!(v.get(&"z".to_string()).is_none());
    assert!(num("1").get(&"a".to_string()).is_none());
}

#[test]
fn light_commands_compose_into_one_put() {
    let cmds = vec![
        LightCommand::Dim(Decimal { text: "80".to_string() }).to_json(),
        LightCommand::On(true).to_json(),
    ];
    let body = merge_commands(&cmds);
    assert_eq!(render(&body), "{\"dimming\":{\"brightness\":80},\"on\":{\"on\":true}}");
}
