use base64::Engine;

use autogui::dispatch::captured_step;
use autogui::dispatch::screenshot_result;
use autogui::ToolResult;
use autogui::Value;

#[test]
fn success_carries_no_error() {
    let t = ToolResult::ok(Value::Null);
    assert!(t.success);
    assert_eq!(t.error, None);
    assert_eq!(t.content, Value::Null);
}

#[test]
fn failure_carries_its_message_twice() {
    let t = ToolResult::fail("went wrong".to_string());
    assert!(!t.success);
    assert_eq!(t.error.as_deref(), Some("went wrong"));
    assert_eq!(t.content.get("error"), Some(&Value::Str("went wrong".to_string())));
}

#[test]
fn screenshot_result_wraps_the_png_as_a_data_uri() {
    let png: Vec<u8> = vec![137, 80, 78, 71, 13, 10, 26, 10];
    let t = screenshot_result(&png, 640, 480);
    assert!(t.success);
    assert_eq!(t.error, None);
    let uri = match t.content.get("screenshot") {
        Some(Value::Str(u)) => u.clone(),
        other => panic!("expected a data URI, got {:?}", other),
    };
    let expected = format!(
        "data:image/png;base64,{}",
        base64::engine::general_purpose::STANDARD.encode(&png)
    );
    assert_eq!(uri, expected);
    assert_eq!(t.content.get("width"), Some(&Value::Int(640)));
    assert_eq!(t.content.get("height"), Some(&Value::Int(480)));
}

#[test]
fn zero_dimension_capture_is_a_coherent_failure() {
    let t = captured_step(0, 5, &Vec::new());
    assert!(!t.success);
    let m = t.error.clone().expect("the failure carries the encoder's message");
    assert!(!m.is_empty());
    assert_eq!(t.content.get("error"), Some(&Value::Str(m)));
}

#[test]
fn captured_step_encodes_a_real_png() {
    // A 2x1 image: one red pixel, one green pixel.
    let rgba: Vec<u8> = vec![255, 0, 0, 255, 0, 255, 0, 255];
    let t = captured_step(2, 1, &rgba);
    assert!(t.success, "the encoder accepts a well-formed image: {:?}", t.error);
    let uri = match t.content.get("screenshot") {
        Some(Value::Str(u)) => u.clone(),
        other => panic!("expected a data URI, got {:?}", other),
    };
    let prefix = "data:image/png;base64,";
    assert!(uri.starts_with(prefix));
    let png = base64::engine::general_purpose::STANDARD
        .decode(&uri[prefix.len()..])
        .expect("valid base64");
    // The PNG signature: the encoder really encoded, not echoed, the pixels.
    assert_eq!(&png[..8], &[137, 80, 78, 71, 13, 10, 26, 10]);
    let decoded = image::load_from_memory(&png).expect("a decodable PNG");
    assert_eq!(decoded.width(), 2);
    assert_eq!(decoded.height(), 1);
    assert_eq!(t.content.get("width"), Some(&Value::Int(2)));
    assert_eq!(t.content.get("height"), Some(&Value::Int(1)));
}
