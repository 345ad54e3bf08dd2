//! What actions are in a request.
use thirtyfour::action::{
    ActionSource, KeyAction, MouseButton, NullAction, PointerAction, PointerActionType,
    PointerOrigin,
};
use thirtyfour::json::JsonValue;
use thirtyfour::keys::{Key, TypingData};
use thirtyfour::types::ElementId;

fn value(text: &str) -> serde_json::Value {
    serde_json::from_str(text).unwrap()
}

fn shown(v: &JsonValue) -> serde_json::Value {
    value(&v.to_text())
}

fn compare_null_action(action: NullAction, text: &str) {
    let actions: Vec<NullAction> = vec![action];
    let source = ActionSource {
        action_type: String::from("none"),
        id: String::from("null"),
        parameters: None,
        actions,
        duration: 0,
    };
    assert_eq!(
        shown(&source.to_json()),
        value(&format!(r#"{{"id": "null", "type": "none", "actions": [ {} ]}}"#, text))
    );
}

#[test]
fn test_null_action() {
    compare_null_action(NullAction::Pause { duration: 0 }, r#"{"type": "pause", "duration": 0}"#);
    compare_null_action(NullAction::Pause { duration: 4 }, r#"{"type": "pause", "duration": 4}"#);
}

fn compare_key_action(action: KeyAction, text: &str) {
    let mut source = ActionSource::<KeyAction>::new("key", None);
    source.add_action(action);
    assert_eq!(
        shown(&source.to_json()),
        value(&format!(r#"{{"id": "key", "type": "key", "actions": [ {} ]}}"#, text))
    );
}

#[test]
fn test_key_action_pause() {
    compare_key_action(KeyAction::Pause { duration: 0 }, r#"{"type": "pause", "duration": 0}"#);
    compare_key_action(KeyAction::Pause { duration: 3 }, r#"{"type": "pause", "duration": 3}"#);
}

#[test]
fn test_key_action_updown() {
    compare_key_action(
        KeyAction::KeyDown { value: 'a' },
        r#"{"type": "keyDown", "value": "a"}"#,
    );
    compare_key_action(
        KeyAction::KeyDown { value: '\u{e004}' },
        "{\"type\": \"keyDown\", \"value\": \"\u{e004}\"}",
    );
    compare_key_action(KeyAction::KeyUp { value: 'a' }, r#"{"type": "keyUp", "value": "a"}"#);
    compare_key_action(
        KeyAction::KeyUp { value: '\u{e004}' },
        "{\"type\": \"keyUp\", \"value\": \"\u{e004}\"}",
    );
}

fn compare_pointer_action(action: PointerAction, text: &str) {
    let mut source = ActionSource::<PointerAction>::new("mouse", PointerActionType::Mouse, None);
    source.add_action(action);
    assert_eq!(
        shown(&source.to_json()),
        value(&format!(
            r#"{{"id": "mouse", "type": "pointer", "parameters": {{"pointerType": "mouse"}}, "actions": [ {} ]}}"#,
            text
        ))
    );
}

#[test]
fn test_pointer_action_pause() {
    compare_pointer_action(
        PointerAction::Pause { duration: 0 },
        r#"{"type": "pause", "duration": 0}"#,
    );
    compare_pointer_action(
        PointerAction::Pause { duration: 2 },
        r#"{"type": "pause", "duration": 2}"#,
    );
}

#[test]
fn test_pointer_action_button() {
    compare_pointer_action(
        PointerAction::PointerDown { button: MouseButton::Left, duration: 0 },
        r#"{"type": "pointerDown", "button": 0, "duration": 0}"#,
    );
    compare_pointer_action(
        PointerAction::PointerDown { button: MouseButton::Middle, duration: 0 },
        r#"{"type": "pointerDown", "button": 1, "duration": 0}"#,
    );
    compare_pointer_action(
        PointerAction::PointerDown { button: MouseButton::Right, duration: 0 },
        r#"{"type": "pointerDown", "button": 2, "duration": 0}"#,
    );
    compare_pointer_action(
        PointerAction::PointerUp { button: MouseButton::Left, duration: 0 },
        r#"{"type": "pointerUp", "button": 0, "duration": 0}"#,
    );
    compare_pointer_action(
        PointerAction::PointerUp { button: MouseButton::Middle, duration: 0 },
        r#"{"type": "pointerUp", "button": 1, "duration": 0}"#,
    );
    compare_pointer_action(
        PointerAction::PointerUp { button: MouseButton::Right, duration: 0 },
        r#"{"type": "pointerUp", "button": 2, "duration": 0}"#,
    );
}

#[test]
fn test_pointer_action_pointermove() {
    compare_pointer_action(
        PointerAction::PointerMove { duration: 0, x: 0, y: 0, origin: PointerOrigin::Viewport },
        r#"{"type": "pointerMove", "origin": "viewport", "x": 0, "y": 0, "duration": 0}"#,
    );
    compare_pointer_action(
        PointerAction::PointerMove { duration: 0, x: 0, y: 0, origin: PointerOrigin::Pointer },
        r#"{"type": "pointerMove", "origin": "pointer", "x": 0, "y": 0, "duration": 0}"#,
    );
    compare_pointer_action(
        PointerAction::PointerMove {
            duration: 0,
            x: 0,
            y: 0,
            origin: PointerOrigin::WebElement(ElementId::from("id1234")),
        },
        r#"{"type": "pointerMove", "origin": {"element-6066-11e4-a52e-4f735466cecf": "id1234"}, "x": 0, "y": 0, "duration": 0}"#,
    );
    compare_pointer_action(
        PointerAction::PointerMove { duration: 1, x: 100, y: 200, origin: PointerOrigin::Viewport },
        r#"{"type": "pointerMove", "x": 100, "y": 200, "duration": 1, "origin": "viewport"}"#,
    );
    compare_pointer_action(
        PointerAction::PointerMove { duration: 1, x: 100, y: 200, origin: PointerOrigin::Pointer },
        r#"{"type": "pointerMove", "x": 100, "y": 200, "duration": 1, "origin": "pointer"}"#,
    );
    compare_pointer_action(
        PointerAction::PointerMove {
            duration: 1,
            x: 100,
            y: 200,
            origin: PointerOrigin::WebElement(ElementId::from("someid")),
        },
        r#"{"type": "pointerMove", "x": 100, "y": 200, "duration": 1, "origin": {"element-6066-11e4-a52e-4f735466cecf": "someid"}}"#,
    );
}

#[test]
fn test_pointer_action_cancel() {
    compare_pointer_action(PointerAction::PointerCancel, r#"{"type": "pointerCancel"}"#);
}

#[test]
fn negative_offsets_stay_negative() {
    compare_pointer_action(
        PointerAction::PointerMove { duration: 0, x: -3, y: -4, origin: PointerOrigin::Pointer },
        r#"{"type": "pointerMove", "origin": "pointer", "x": -3, "y": -4, "duration": 0}"#,
    );
}

#[test]
fn keys_go_down_and_up_one_after_the_other() {
    let mut source = ActionSource::<KeyAction>::new("key", None);
    source.send_keys(TypingData::from("ab"));
    assert_eq!(
        shown(&source.to_json())["actions"],
        value(
            r#"[{"type": "keyDown", "value": "a"}, {"type": "keyUp", "value": "a"},
                {"type": "keyDown", "value": "b"}, {"type": "keyUp", "value": "b"}]"#
        )
    );
    let mut parts = ActionSource::<KeyAction>::new("key", None);
    parts.send_keys(TypingData::from("a"));
    parts.send_keys(TypingData::from("b"));
    assert_eq!(shown(&parts.to_json()), shown(&source.to_json()));
}

#[test]
fn a_source_pauses() {
    let mut source = ActionSource::<KeyAction>::new("key", Some(7));
    assert_eq!(source.id(), "key");
    source.pause();
    source.pause_for(9);
    assert_eq!(
        shown(&source.to_json())["actions"],
        value(r#"[{"type": "pause", "duration": 0}, {"type": "pause", "duration": 9}]"#)
    );
}

#[test]
fn a_click_is_down_and_up() {
    let mut source = ActionSource::<PointerAction>::new("mouse", PointerActionType::Pen, None);
    source.click();
    let got = shown(&source.to_json());
    assert_eq!(got["parameters"], value(r#"{"pointerType": "pen"}"#));
    assert_eq!(got["actions"][0]["type"], "pointerDown");
    assert_eq!(got["actions"][1]["type"], "pointerUp");
    assert_eq!(got["actions"].as_array().unwrap().len(), 2);

    let mut twice = ActionSource::<PointerAction>::new("mouse", PointerActionType::Touch, None);
    twice.double_click_element(ElementId::from("e"));
    let got = shown(&twice.to_json());
    assert_eq!(got["parameters"], value(r#"{"pointerType": "touch"}"#));
    assert_eq!(got["actions"].as_array().unwrap().len(), 5);
    assert_eq!(
        got["actions"][0]["origin"],
        value(r#"{"element-6066-11e4-a52e-4f735466cecf": "e"}"#)
    );
}

#[test]
fn the_other_mouse_actions() {
    let mut source = ActionSource::<PointerAction>::new("mouse", PointerActionType::Mouse, Some(5));
    source.move_to(1, 2);
    source.move_by(3, 4);
    source.move_to_element(ElementId::from("e"), 5, 6);
    source.move_to_element_center(ElementId::from("f"));
    source.context_click();
    source.click_and_hold();
    source.release();
    let got = shown(&source.to_json());
    let types: Vec<&str> =
        got["actions"].as_array().unwrap().iter().map(|a| a["type"].as_str().unwrap()).collect();
    assert_eq!(
        types,
        vec![
            "pointerMove",
            "pointerMove",
            "pointerMove",
            "pointerMove",
            "pointerDown",
            "pointerUp",
            "pointerDown",
            "pointerUp",
        ]
    );
    assert_eq!(got["actions"][0]["duration"], 5);
    assert_eq!(got["actions"][4]["button"], 2);
    assert_eq!(got["actions"][6]["button"], 0);
}

#[test]
fn keys_are_private_characters() {
    assert_eq!(Key::Null.value(), '\u{e000}');
    assert_eq!(Key::Backspace.value(), '\u{e003}');
    assert_eq!(Key::Control.value(), '\u{e009}');
    assert_eq!(Key::Meta.value(), Key::Command.value());
    assert_eq!((Key::Control + "a").as_vec(), vec!['\u{e009}', 'a']);
    assert_eq!((Key::Control + Key::Shift + "x").to_text(), "\u{e009}\u{e008}x");
}
