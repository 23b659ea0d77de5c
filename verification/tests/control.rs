use kiteconnect::tick::Mode;
use kiteconnect::ticker::{Action, ControlFrame};
use serde_json::Value;

fn numbers(tokens: &[u32]) -> Value {
    Value::Array(tokens.iter().map(|token| Value::from(*token)).collect())
}

fn object(action: &str, value: Value) -> String {
    let mut map = serde_json::Map::new();
    map.insert("a".to_string(), Value::from(action));
    map.insert("v".to_string(), value);
    Value::Object(map).to_string()
}

#[test]
fn subscribe_frame_text() {
    let frame = ControlFrame { action: Action::Subscribe, tokens: vec![408065, 884737] };
    assert_eq!(frame.to_json(), "{\"a\":\"subscribe\",\"v\":[408065,884737]}");
}

#[test]
fn unsubscribe_frame_text() {
    let frame = ControlFrame { action: Action::Unsubscribe, tokens: vec![408065] };
    assert_eq!(frame.to_json(), "{\"a\":\"unsubscribe\",\"v\":[408065]}");
}

#[test]
fn mode_frame_text() {
    let frame = ControlFrame { action: Action::SetMode(Mode::Full), tokens: vec![408065, 5] };
    assert_eq!(frame.to_json(), "{\"a\":\"mode\",\"v\":[\"full\",[408065,5]]}");
    let frame = ControlFrame { action: Action::SetMode(Mode::Ltp), tokens: vec![] };
    assert_eq!(frame.to_json(), "{\"a\":\"mode\",\"v\":[\"ltp\",[]]}");
    let frame = ControlFrame { action: Action::SetMode(Mode::Quote), tokens: vec![0] };
    assert_eq!(frame.to_json(), "{\"a\":\"mode\",\"v\":[\"quote\",[0]]}");
}

#[test]
fn frame_text_of_no_tokens() {
    let frame = ControlFrame { action: Action::Subscribe, tokens: vec![] };
    assert_eq!(frame.to_json(), "{\"a\":\"subscribe\",\"v\":[]}");
}

#[test]
fn frame_text_of_extreme_tokens() {
    let frame = ControlFrame { action: Action::Subscribe, tokens: vec![0, 9, 10, 99, 100, u32::MAX] };
    assert_eq!(frame.to_json(), "{\"a\":\"subscribe\",\"v\":[0,9,10,99,100,4294967295]}");
}

#[test]
fn frame_text_is_what_a_json_writer_gives() {
    let lists: Vec<Vec<u32>> = vec![
        vec![],
        vec![0],
        vec![7, 70, 700, 7000, 70000],
        vec![1000000007, 4294967295, 1, 10, 100],
        (0..50).map(|index| index * 104729).collect(),
    ];
    for tokens in &lists {
        let frame = ControlFrame { action: Action::Subscribe, tokens: tokens.clone() };
        assert_eq!(frame.to_json(), object("subscribe", numbers(tokens)));
        let frame = ControlFrame { action: Action::Unsubscribe, tokens: tokens.clone() };
        assert_eq!(frame.to_json(), object("unsubscribe", numbers(tokens)));
        for mode in [Mode::Ltp, Mode::Quote, Mode::Full] {
            let frame = ControlFrame { action: Action::SetMode(mode), tokens: tokens.clone() };
            let value = Value::Array(vec![Value::from(mode.as_str()), numbers(tokens)]);
            assert_eq!(frame.to_json(), object("mode", value));
        }
    }
}

#[test]
fn frame_text_parses_back() {
    let frame = ControlFrame { action: Action::SetMode(Mode::Full), tokens: vec![3, 2, 1] };
    let value: Value = serde_json::from_str(&frame.to_json()).unwrap();
    assert_eq!(value["a"], Value::from("mode"));
    assert_eq!(value["v"][0], Value::from("full"));
    assert_eq!(value["v"][1], numbers(&[3, 2, 1]));
}
