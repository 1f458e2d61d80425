use autogui::decode;
use autogui::Action;
use autogui::DecodeError;
use autogui::JsonType;
use autogui::Value;

fn obj(fields: Vec<(&str, Value)>) -> Value {
    Value::Obj(fields.into_iter().map(|(k, v)| (k.to_string(), v)).collect())
}

fn s(text: &str) -> Value {
    Value::Str(text.to_string())
}

#[test]
fn decode_screenshot() {
    let r = decode(&obj(vec![("action", s("screenshot"))]));
    assert_eq!(r, Ok(Action::Screenshot));
}

#[test]
fn decode_mouse_move() {
    let r = decode(&obj(vec![
        ("action", s("mouse_move")),
        ("x", Value::Int(100)),
        ("y", Value::Int(200)),
    ]));
    assert_eq!(r, Ok(Action::MouseMove { x: 100, y: 200 }));
}

#[test]
fn decode_mouse_click_defaults_double_to_false() {
    let r = decode(&obj(vec![("action", s("mouse_click")), ("button", s("left"))]));
    assert_eq!(r, Ok(Action::MouseClick { button: "left".to_string(), double: false }));
}

#[test]
fn decode_mouse_click_with_explicit_double() {
    let r = decode(&obj(vec![
        ("action", s("mouse_click")),
        ("button", s("left")),
        ("double", Value::Bool(true)),
    ]));
    assert_eq!(r, Ok(Action::MouseClick { button: "left".to_string(), double: true }));
}

#[test]
fn decode_key_press_accepts_any_string() {
    let r = decode(&obj(vec![("action", s("key_press")), ("key", s("xyz123"))]));
    assert_eq!(r, Ok(Action::KeyPress { key: "xyz123".to_string() }));
}

#[test]
fn decode_type_text() {
    let r = decode(&obj(vec![("action", s("type_text")), ("text", s("hi"))]));
    assert_eq!(r, Ok(Action::TypeText { text: "hi".to_string() }));
}

#[test]
fn decode_scroll() {
    let r = decode(&obj(vec![
        ("action", s("scroll")),
        ("direction", s("down")),
        ("amount", Value::Int(7)),
    ]));
    assert_eq!(r, Ok(Action::Scroll { direction: "down".to_string(), amount: 7 }));
}

#[test]
fn decode_missing_discriminant() {
    let r = decode(&obj(vec![("x", Value::Int(1))]));
    assert_eq!(r, Err(DecodeError::UnknownAction { name: String::new() }));
}

#[test]
fn decode_unknown_discriminant() {
    let r = decode(&obj(vec![("action", s("fly"))]));
    assert_eq!(r, Err(DecodeError::UnknownAction { name: "fly".to_string() }));
}

#[test]
fn decode_non_string_discriminant() {
    let r = decode(&obj(vec![("action", Value::Int(1))]));
    assert_eq!(
        r,
        Err(DecodeError::TypeMismatch {
            field: "action".to_string(),
            expected: JsonType::Str,
            actual: JsonType::Int,
        })
    );
}

#[test]
fn decode_missing_required_field() {
    let r = decode(&obj(vec![("action", s("mouse_move")), ("x", Value::Int(1))]));
    assert_eq!(r, Err(DecodeError::MissingField { field: "y".to_string() }));
}

#[test]
fn decode_wrong_field_type() {
    let r = decode(&obj(vec![("action", s("mouse_move")), ("x", s("ten")), ("y", Value::Int(2))]));
    assert_eq!(
        r,
        Err(DecodeError::TypeMismatch {
            field: "x".to_string(),
            expected: JsonType::Int,
            actual: JsonType::Str,
        })
    );
}

#[test]
fn decode_integer_out_of_machine_range() {
    let r = decode(&obj(vec![
        ("action", s("mouse_move")),
        ("x", Value::Int(3_000_000_000)),
        ("y", Value::Int(2)),
    ]));
    assert_eq!(
        r,
        Err(DecodeError::TypeMismatch {
            field: "x".to_string(),
            expected: JsonType::Int,
            actual: JsonType::Int,
        })
    );
}

#[test]
fn decode_non_object_payload() {
    let r = decode(&Value::Int(4));
    assert_eq!(r, Err(DecodeError::UnknownAction { name: String::new() }));
}

#[test]
fn error_messages_name_the_culprit() {
    assert_eq!(
        DecodeError::UnknownAction { name: "fly".to_string() }.message(),
        "Unknown action: fly"
    );
    assert_eq!(DecodeError::MissingField { field: "y".to_string() }.message(), "Missing field: y");
    assert_eq!(
        DecodeError::TypeMismatch {
            field: "x".to_string(),
            expected: JsonType::Int,
            actual: JsonType::Str,
        }
        .message(),
        "Type mismatch on field x: expected integer, got string"
    );
}

#[test]
fn extra_fields_are_ignored() {
    let r = decode(&obj(vec![
        ("action", s("type_text")),
        ("text", s("a")),
        ("unrelated", Value::Null),
    ]));
    assert_eq!(r, Ok(Action::TypeText { text: "a".to_string() }));
}
