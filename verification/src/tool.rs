//! The computer-control tool: its capability description (name, description,
//! parameter schema) and the dispatch entry points.  The tool itself holds no
//! state; the live input-simulation handle belongs to the host, which
//! performs the backend calls an [`ExecPlan`] asks for.

use vstd::prelude::*;
use vstd::string::StringExecFns;

use crate::dispatch::plan_matches;
use crate::dispatch::ExecPlan;
use crate::registry::ToolInfo;
use crate::schema::is_control_schema;
use crate::schema::ParamSpec;
use crate::schema::ToolSchema;
use crate::value::JsonType;
use crate::value::Value;

verus! {

/// The tool that dispatches computer-control actions.
pub struct ComputerControlTool {}

impl ComputerControlTool {
    /// Creates the tool.
    pub fn new() -> Self {
        ComputerControlTool {  }
    }

    /// The unique name of this capability.
    pub fn name(&self) -> (r: &'static str)
        ensures
            r@ == "computer_control"@,
    {
        "computer_control"
    }

    /// The human-readable description of this capability.
    pub fn description(&self) -> (r: &'static str)
        ensures
            r@ == "Control computer with screenshot, mouse, and keyboard actions"@,
    {
        "Control computer with screenshot, mouse, and keyboard actions"
    }

    /// The parameter schema of this capability.
    pub fn parameters(&self) -> (r: ToolSchema)
        ensures
            is_control_schema(r),
    {
        let mut properties: Vec<ParamSpec> = Vec::new();
        properties.push(
            ParamSpec {
                name: String::from_str("action"),
                ty: JsonType::Str,
                description: String::from_str("The action to perform"),
                allowed: Some(
                    vec![
                        String::from_str("screenshot"),
                        String::from_str("mouse_move"),
                        String::from_str("mouse_click"),
                        String::from_str("key_press"),
                        String::from_str("type_text"),
                        String::from_str("scroll"),
                    ],
                ),
            },
        );
        properties.push(
            ParamSpec {
                name: String::from_str("x"),
                ty: JsonType::Int,
                description: String::from_str("X coordinate for mouse operations"),
                allowed: None,
            },
        );
        properties.push(
            ParamSpec {
                name: String::from_str("y"),
                ty: JsonType::Int,
                description: String::from_str("Y coordinate for mouse operations"),
                allowed: None,
            },
        );
        properties.push(
            ParamSpec {
                name: String::from_str("button"),
                ty: JsonType::Str,
                description: String::from_str("Mouse button to click"),
                allowed: Some(
                    vec![
                        String::from_str("left"),
                        String::from_str("right"),
                        String::from_str("middle"),
                    ],
                ),
            },
        );
        properties.push(
            ParamSpec {
                name: String::from_str("double"),
                ty: JsonType::Bool,
                description: String::from_str("Whether to double-click"),
                allowed: None,
            },
        );
        properties.push(
            ParamSpec {
                name: String::from_str("key"),
                ty: JsonType::Str,
                description: String::from_str("Key to press (e.g., 'enter', 'escape', 'tab')"),
                allowed: None,
            },
        );
        properties.push(
            ParamSpec {
                name: String::from_str("text"),
                ty: JsonType::Str,
                description: String::from_str("Text to type"),
                allowed: None,
            },
        );
        properties.push(
            ParamSpec {
                name: String::from_str("direction"),
                ty: JsonType::Str,
                description: String::from_str("Scroll direction"),
                allowed: Some(vec![String::from_str("up"), String::from_str("down")]),
            },
        );
        properties.push(
            ParamSpec {
                name: String::from_str("amount"),
                ty: JsonType::Int,
                description: String::from_str("Scroll amount"),
                allowed: None,
            },
        );
        let required = vec![String::from_str("action")];
        ToolSchema { properties, required }
    }

    /// The read-only projection of this tool for a registry.
    pub fn info(&self) -> (r: ToolInfo)
        ensures
            r.name@ == "computer_control"@,
            r.description@ == "Control computer with screenshot, mouse, and keyboard actions"@,
            is_control_schema(r.parameters),
    {
        ToolInfo {
            name: String::from_str("computer_control"),
            description: String::from_str(
                "Control computer with screenshot, mouse, and keyboard actions",
            ),
            parameters: self.parameters(),
        }
    }

    /// Decodes a payload and dispatches it: the per-invocation entry point.
    pub fn execute_plan(&self, payload: &Value) -> (p: ExecPlan)
        ensures
            plan_matches(*payload, p),
    {
        crate::dispatch::execute_plan(payload)
    }
}

} // verus!
