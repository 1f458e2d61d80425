use autogui::dispatch::execute_plan;
use autogui::dispatch::screens_step;
use autogui::dispatch::ScreenStep;
use autogui::BackendCall;
use autogui::ExecPlan;
use autogui::KeyCode;
use autogui::MouseButton;
use autogui::Value;
use autogui::DOUBLE_CLICK_DELAY_MS;

fn obj(fields: Vec<(&str, Value)>) -> Value {
    Value::Obj(fields.into_iter().map(|(k, v)| (k.to_string(), v)).collect())
}

fn s(text: &str) -> Value {
    Value::Str(text.to_string())
}

#[test]
fn missing_discriminant_is_reported_failure() {
    let p = execute_plan(&obj(vec![("x", Value::Int(3))]));
    match p {
        ExecPlan::Done(t) => {
            assert!(!t.success);
            let e = t.error.expect("an error message is owed");
            assert!(!e.is_empty());
        }
        other => panic!("expected a resolved failure, got {:?}", other),
    }
}

#[test]
fn unknown_discriminant_is_reported_failure() {
    let p = execute_plan(&obj(vec![("action", s("dance"))]));
    match p {
        ExecPlan::Done(t) => {
            assert!(!t.success);
            assert_eq!(t.error.as_deref(), Some("Unknown action: dance"));
        }
        other => panic!("expected a resolved failure, got {:?}", other),
    }
}

#[test]
fn mouse_move_plans_one_cursor_move() {
    let p = execute_plan(&obj(vec![
        ("action", s("mouse_move")),
        ("x", Value::Int(10)),
        ("y", Value::Int(-20)),
    ]));
    match p {
        ExecPlan::Input { calls, success } => {
            assert_eq!(calls, vec![BackendCall::MoveCursor { x: 10, y: -20 }]);
            assert!(success.success);
            assert_eq!(success.error, None);
            let moved = success.content.get("moved_to").expect("moved_to");
            assert_eq!(moved.get("x"), Some(&Value::Int(10)));
            assert_eq!(moved.get("y"), Some(&Value::Int(-20)));
        }
        other => panic!("expected backend calls, got {:?}", other),
    }
}

#[test]
fn scroll_up_keeps_positive_delta() {
    let p = execute_plan(&obj(vec![
        ("action", s("scroll")),
        ("direction", s("up")),
        ("amount", Value::Int(5)),
    ]));
    match p {
        ExecPlan::Input { calls, .. } => {
            assert_eq!(calls, vec![BackendCall::Scroll { delta: 5 }]);
        }
        other => panic!("expected backend calls, got {:?}", other),
    }
}

#[test]
fn scroll_down_negates_delta() {
    let p = execute_plan(&obj(vec![
        ("action", s("scroll")),
        ("direction", s("down")),
        ("amount", Value::Int(5)),
    ]));
    match p {
        ExecPlan::Input { calls, success } => {
            assert_eq!(calls, vec![BackendCall::Scroll { delta: -5 }]);
            let scrolled = success.content.get("scrolled").expect("scrolled");
            assert_eq!(scrolled.get("direction"), Some(&s("down")));
            assert_eq!(scrolled.get("amount"), Some(&Value::Int(5)));
        }
        other => panic!("expected backend calls, got {:?}", other),
    }
}

#[test]
fn unknown_key_is_reported_with_its_name() {
    let p = execute_plan(&obj(vec![("action", s("key_press")), ("key", s("xyz123"))]));
    match p {
        ExecPlan::Done(t) => {
            assert!(!t.success);
            let e = t.error.expect("an error message is owed");
            assert_eq!(e, "Unknown key: xyz123");
            assert!(e.contains("xyz123"));
        }
        other => panic!("expected a resolved failure, got {:?}", other),
    }
}

#[test]
fn known_key_is_case_insensitive() {
    for name in ["enter", "ENTER", "Return"] {
        let p = execute_plan(&obj(vec![("action", s("key_press")), ("key", s(name))]));
        match p {
            ExecPlan::Input { calls, success } => {
                assert_eq!(calls, vec![BackendCall::KeyEvent { code: KeyCode::Return }]);
                assert_eq!(success.content.get("key_pressed"), Some(&s(name)));
            }
            other => panic!("expected backend calls for {}, got {:?}", name, other),
        }
    }
}

#[test]
fn arrow_and_paging_keys_map() {
    let cases = [
        ("tab", KeyCode::Tab),
        ("esc", KeyCode::Escape),
        ("escape", KeyCode::Escape),
        ("space", KeyCode::Space),
        ("backspace", KeyCode::Backspace),
        ("delete", KeyCode::Delete),
        ("up", KeyCode::UpArrow),
        ("down", KeyCode::DownArrow),
        ("left", KeyCode::LeftArrow),
        ("right", KeyCode::RightArrow),
        ("home", KeyCode::Home),
        ("end", KeyCode::End),
        ("pageup", KeyCode::PageUp),
        ("pagedown", KeyCode::PageDown),
    ];
    for (name, code) in cases {
        let p = execute_plan(&obj(vec![("action", s("key_press")), ("key", s(name))]));
        match p {
            ExecPlan::Input { calls, .. } => {
                assert_eq!(calls, vec![BackendCall::KeyEvent { code }]);
            }
            other => panic!("expected backend calls for {}, got {:?}", name, other),
        }
    }
}

#[test]
fn double_click_issues_two_clicks_with_delay() {
    let p = execute_plan(&obj(vec![
        ("action", s("mouse_click")),
        ("button", s("left")),
        ("double", Value::Bool(true)),
    ]));
    match p {
        ExecPlan::Input { calls, success } => {
            assert_eq!(
                calls,
                vec![
                    BackendCall::Click { button: MouseButton::Left },
                    BackendCall::Delay { ms: DOUBLE_CLICK_DELAY_MS },
                    BackendCall::Click { button: MouseButton::Left },
                ]
            );
            assert_eq!(success.content.get("double"), Some(&Value::Bool(true)));
        }
        other => panic!("expected backend calls, got {:?}", other),
    }
}

#[test]
fn single_click_issues_one_click() {
    let p = execute_plan(&obj(vec![
        ("action", s("mouse_click")),
        ("button", s("right")),
        ("double", Value::Bool(false)),
    ]));
    match p {
        ExecPlan::Input { calls, .. } => {
            assert_eq!(calls, vec![BackendCall::Click { button: MouseButton::Right }]);
        }
        other => panic!("expected backend calls, got {:?}", other),
    }
}

#[test]
fn omitted_double_issues_one_click() {
    let p = execute_plan(&obj(vec![("action", s("mouse_click")), ("button", s("middle"))]));
    match p {
        ExecPlan::Input { calls, success } => {
            assert_eq!(calls, vec![BackendCall::Click { button: MouseButton::Middle }]);
            assert_eq!(success.content.get("double"), Some(&Value::Bool(false)));
            assert_eq!(success.content.get("clicked"), Some(&s("middle")));
        }
        other => panic!("expected backend calls, got {:?}", other),
    }
}

#[test]
fn unknown_button_is_reported_failure() {
    let p = execute_plan(&obj(vec![("action", s("mouse_click")), ("button", s("side"))]));
    match p {
        ExecPlan::Done(t) => {
            assert!(!t.success);
            assert_eq!(t.error.as_deref(), Some("Unknown button: side"));
        }
        other => panic!("expected a resolved failure, got {:?}", other),
    }
}

#[test]
fn type_text_plans_typing() {
    let p = execute_plan(&obj(vec![("action", s("type_text")), ("text", s("hello world"))]));
    match p {
        ExecPlan::Input { calls, success } => {
            assert_eq!(calls, vec![BackendCall::TypeText { text: "hello world".to_string() }]);
            assert_eq!(success.content.get("typed"), Some(&s("hello world")));
        }
        other => panic!("expected backend calls, got {:?}", other),
    }
}

#[test]
fn screenshot_enters_the_screen_exchange() {
    let p = execute_plan(&obj(vec![("action", s("screenshot"))]));
    assert_eq!(p, ExecPlan::Screenshot);
}

#[test]
fn zero_screens_fails_without_capture() {
    match screens_step(0) {
        ScreenStep::Done(t) => {
            assert!(!t.success);
            assert_eq!(t.error.as_deref(), Some("No screens found"));
            assert_eq!(t.content.get("error"), Some(&s("No screens found")));
        }
        other => panic!("expected a resolved failure, got {:?}", other),
    }
}

#[test]
fn available_screens_ask_for_the_first_capture() {
    assert_eq!(screens_step(1), ScreenStep::CaptureFirst);
    assert_eq!(screens_step(3), ScreenStep::CaptureFirst);
}
