use autogui::ComputerControlTool;
use autogui::JsonType;
use autogui::ToolError;
use autogui::ToolInfo;
use autogui::ToolRegistry;

fn info(name: &str, description: &str) -> ToolInfo {
    let tool = ComputerControlTool::new();
    ToolInfo {
        name: name.to_string(),
        description: description.to_string(),
        parameters: tool.parameters(),
    }
}

#[test]
fn list_is_idempotent() {
    let mut reg = ToolRegistry::new();
    reg.register(info("a", "first")).unwrap();
    reg.register(info("b", "second")).unwrap();
    let first: Vec<(String, String)> = reg
        .list()
        .iter()
        .map(|t| (t.name.clone(), t.description.clone()))
        .collect();
    let second: Vec<(String, String)> = reg
        .list()
        .iter()
        .map(|t| (t.name.clone(), t.description.clone()))
        .collect();
    assert_eq!(first, second);
    assert_eq!(reg.len(), 2);
}

#[test]
fn duplicate_name_is_refused_and_first_stays() {
    let mut reg = ToolRegistry::new();
    assert_eq!(reg.register(info("tool", "first")), Ok(()));
    assert_eq!(reg.register(info("tool", "second")), Err(ToolError::DuplicateName));
    assert_eq!(reg.len(), 1);
    let found = reg.lookup("tool").expect("the first registration stays reachable");
    assert_eq!(found.description, "first");
}

#[test]
fn lookup_unknown_name_is_not_found() {
    let reg = ToolRegistry::new();
    match reg.lookup("nothing") {
        Err(e) => assert_eq!(e, ToolError::NotFound),
        Ok(_) => panic!("an empty registry holds nothing"),
    }
}

#[test]
fn registered_tool_is_found_by_name() {
    let mut reg = ToolRegistry::new();
    let tool = ComputerControlTool::new();
    reg.register(tool.info()).unwrap();
    let found = reg.lookup("computer_control").expect("registered");
    assert_eq!(found.name, "computer_control");
    assert_eq!(found.description, "Control computer with screenshot, mouse, and keyboard actions");
}

#[test]
fn tool_describes_itself() {
    let tool = ComputerControlTool::new();
    assert_eq!(tool.name(), "computer_control");
    assert_eq!(tool.description(), "Control computer with screenshot, mouse, and keyboard actions");
}

#[test]
fn parameters_is_idempotent() {
    let tool = ComputerControlTool::new();
    assert_eq!(tool.parameters(), tool.parameters());
}

#[test]
fn schema_declares_every_decoded_field() {
    let tool = ComputerControlTool::new();
    let schema = tool.parameters();
    let names: Vec<&str> = schema.properties.iter().map(|p| p.name.as_str()).collect();
    assert_eq!(
        names,
        vec!["action", "x", "y", "button", "double", "key", "text", "direction", "amount"]
    );
    assert_eq!(schema.required, vec!["action".to_string()]);
    let action = &schema.properties[0];
    assert_eq!(action.ty, JsonType::Str);
    assert_eq!(
        action.allowed.as_ref().expect("a closed vocabulary"),
        &vec![
            "screenshot".to_string(),
            "mouse_move".to_string(),
            "mouse_click".to_string(),
            "key_press".to_string(),
            "type_text".to_string(),
            "scroll".to_string(),
        ]
    );
    let button = &schema.properties[3];
    assert_eq!(
        button.allowed.as_ref().expect("a closed vocabulary"),
        &vec!["left".to_string(), "right".to_string(), "middle".to_string()]
    );
    let direction = &schema.properties[7];
    assert_eq!(
        direction.allowed.as_ref().expect("a closed vocabulary"),
        &vec!["up".to_string(), "down".to_string()]
    );
    assert!(schema.properties.iter().all(|p| !p.description.is_empty()));
}
