//! A typed tool-invocation dispatcher.
//!
//! The crate decodes an untyped structured payload into a strongly typed
//! action, plans the backend calls that carry the action out, and wraps every
//! outcome in a uniform result envelope.  A registry holds the capability
//! descriptions of such tools keyed by unique name.

pub mod action;
pub mod codec;
pub mod decode;
pub mod dispatch;
pub mod registry;
pub mod result;
pub mod schema;
pub mod text;
pub mod tool;
pub mod value;

pub use text::str_eq;
pub use text::str_eq_ignore_ascii_case;
pub use action::Action;
pub use action::DecodeError;
pub use action::KeyCode;
pub use action::MouseButton;
pub use decode::decode;
pub use dispatch::BackendCall;
pub use dispatch::ExecPlan;
pub use dispatch::ScreenStep;
pub use dispatch::DOUBLE_CLICK_DELAY_MS;
pub use registry::ToolError;
pub use registry::ToolInfo;
pub use registry::ToolRegistry;
pub use result::ToolResult;
pub use schema::ParamSpec;
pub use schema::ToolSchema;
pub use tool::ComputerControlTool;
pub use registry::Registry;
pub use registry::Tools;
pub use value::JsonType;
pub use value::Value;
