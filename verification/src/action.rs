//! The closed set of actions a control tool can perform, the decode errors
//! that an ill-formed payload produces, and the finite symbolic key and
//! mouse-button vocabularies checked at dispatch time.

use vstd::prelude::*;

use crate::text::lower;
use crate::value::JsonType;

verus! {

/// One strongly typed action, fully populated by a successful decode.
#[derive(Debug, PartialEq)]
pub enum Action {
    Screenshot,
    MouseMove { x: i32, y: i32 },
    MouseClick { button: String, double: bool },
    KeyPress { key: String },
    TypeText { text: String },
    Scroll { direction: String, amount: i32 },
}

/// The mathematical shape of an [`Action`]: strings as character sequences,
/// machine integers as unbounded integers.
pub enum ActionV {
    Screenshot,
    MouseMove { x: int, y: int },
    MouseClick { button: Seq<char>, double: bool },
    KeyPress { key: Seq<char> },
    TypeText { text: Seq<char> },
    Scroll { direction: Seq<char>, amount: int },
}

impl View for Action {
    type V = ActionV;

    open spec fn view(&self) -> ActionV {
        match self {
            Action::Screenshot => ActionV::Screenshot,
            Action::MouseMove { x, y } => ActionV::MouseMove { x: *x as int, y: *y as int },
            Action::MouseClick { button, double } => ActionV::MouseClick {
                button: button@,
                double: *double,
            },
            Action::KeyPress { key } => ActionV::KeyPress { key: key@ },
            Action::TypeText { text } => ActionV::TypeText { text: text@ },
            Action::Scroll { direction, amount } => ActionV::Scroll {
                direction: direction@,
                amount: *amount as int,
            },
        }
    }
}

/// Why a payload failed to decode into an [`Action`].
#[derive(Debug, PartialEq)]
pub enum DecodeError {
    /// The discriminant field was absent (empty name) or named no known
    /// action.
    UnknownAction { name: String },
    /// A field the selected action requires was absent.
    MissingField { field: String },
    /// A field was present with the wrong type; an integer outside the
    /// field's machine range also counts as a mismatch.
    TypeMismatch { field: String, expected: JsonType, actual: JsonType },
}

/// The mathematical shape of a [`DecodeError`].
pub enum DecodeErrorV {
    UnknownAction { name: Seq<char> },
    MissingField { field: Seq<char> },
    TypeMismatch { field: Seq<char>, expected: JsonType, actual: JsonType },
}

impl View for DecodeError {
    type V = DecodeErrorV;

    open spec fn view(&self) -> DecodeErrorV {
        match self {
            DecodeError::UnknownAction { name } => DecodeErrorV::UnknownAction { name: name@ },
            DecodeError::MissingField { field } => DecodeErrorV::MissingField { field: field@ },
            DecodeError::TypeMismatch { field, expected, actual } => DecodeErrorV::TypeMismatch {
                field: field@,
                expected: *expected,
                actual: *actual,
            },
        }
    }
}

/// A backend key code: the target of one symbolic key name.
#[derive(Clone, Copy, Debug, PartialEq, Eq, Structural)]
pub enum KeyCode {
    Return,
    Tab,
    Escape,
    Space,
    Backspace,
    Delete,
    UpArrow,
    DownArrow,
    LeftArrow,
    RightArrow,
    Home,
    End,
    PageUp,
    PageDown,
}

/// A mouse button the backend can press.
#[derive(Clone, Copy, Debug, PartialEq, Eq, Structural)]
pub enum MouseButton {
    Left,
    Right,
    Middle,
}

/// ASCII-case-insensitive equality of two character sequences.
pub open spec fn seq_eq_ic(a: Seq<char>, b: Seq<char>) -> bool {
    lower(a) == lower(b)
}

/// The backend key code a symbolic key name denotes, matched without regard
/// to ASCII case; `None` for a name outside the finite vocabulary.
pub open spec fn spec_key_code(key: Seq<char>) -> Option<KeyCode> {
    if seq_eq_ic(key, "enter"@) || seq_eq_ic(key, "return"@) {
        Some(KeyCode::Return)
    } else if seq_eq_ic(key, "tab"@) {
        Some(KeyCode::Tab)
    } else if seq_eq_ic(key, "escape"@) || seq_eq_ic(key, "esc"@) {
        Some(KeyCode::Escape)
    } else if seq_eq_ic(key, "space"@) {
        Some(KeyCode::Space)
    } else if seq_eq_ic(key, "backspace"@) {
        Some(KeyCode::Backspace)
    } else if seq_eq_ic(key, "delete"@) {
        Some(KeyCode::Delete)
    } else if seq_eq_ic(key, "up"@) {
        Some(KeyCode::UpArrow)
    } else if seq_eq_ic(key, "down"@) {
        Some(KeyCode::DownArrow)
    } else if seq_eq_ic(key, "left"@) {
        Some(KeyCode::LeftArrow)
    } else if seq_eq_ic(key, "right"@) {
        Some(KeyCode::RightArrow)
    } else if seq_eq_ic(key, "home"@) {
        Some(KeyCode::Home)
    } else if seq_eq_ic(key, "end"@) {
        Some(KeyCode::End)
    } else if seq_eq_ic(key, "pageup"@) {
        Some(KeyCode::PageUp)
    } else if seq_eq_ic(key, "pagedown"@) {
        Some(KeyCode::PageDown)
    } else {
        None
    }
}

/// Maps a symbolic key name to its backend key code.
pub fn key_code(key: &str) -> (r: Option<KeyCode>)
    ensures
        r == spec_key_code(key@),
{
    if crate::text::str_eq_ignore_ascii_case(key, "enter") || crate::text::str_eq_ignore_ascii_case(
        key,
        "return",
    ) {
        Some(KeyCode::Return)
    } else if crate::text::str_eq_ignore_ascii_case(key, "tab") {
        Some(KeyCode::Tab)
    } else if crate::text::str_eq_ignore_ascii_case(key, "escape")
        || crate::text::str_eq_ignore_ascii_case(key, "esc") {
        Some(KeyCode::Escape)
    } else if crate::text::str_eq_ignore_ascii_case(key, "space") {
        Some(KeyCode::Space)
    } else if crate::text::str_eq_ignore_ascii_case(key, "backspace") {
        Some(KeyCode::Backspace)
    } else if crate::text::str_eq_ignore_ascii_case(key, "delete") {
        Some(KeyCode::Delete)
    } else if crate::text::str_eq_ignore_ascii_case(key, "up") {
        Some(KeyCode::UpArrow)
    } else if crate::text::str_eq_ignore_ascii_case(key, "down") {
        Some(KeyCode::DownArrow)
    } else if crate::text::str_eq_ignore_ascii_case(key, "left") {
        Some(KeyCode::LeftArrow)
    } else if crate::text::str_eq_ignore_ascii_case(key, "right") {
        Some(KeyCode::RightArrow)
    } else if crate::text::str_eq_ignore_ascii_case(key, "home") {
        Some(KeyCode::Home)
    } else if crate::text::str_eq_ignore_ascii_case(key, "end") {
        Some(KeyCode::End)
    } else if crate::text::str_eq_ignore_ascii_case(key, "pageup") {
        Some(KeyCode::PageUp)
    } else if crate::text::str_eq_ignore_ascii_case(key, "pagedown") {
        Some(KeyCode::PageDown)
    } else {
        None
    }
}

/// The mouse button a button name denotes, matched exactly; `None` for an
/// unrecognized name, which dispatch reports as a domain failure rather than
/// silently substituting a default.
pub open spec fn spec_button(name: Seq<char>) -> Option<MouseButton> {
    if name == "left"@ {
        Some(MouseButton::Left)
    } else if name == "right"@ {
        Some(MouseButton::Right)
    } else if name == "middle"@ {
        Some(MouseButton::Middle)
    } else {
        None
    }
}

/// Maps a button name to the backend mouse button.
pub fn button_code(name: &str) -> (r: Option<MouseButton>)
    ensures
        r == spec_button(name@),
{
    if crate::text::str_eq(name, "left") {
        Some(MouseButton::Left)
    } else if crate::text::str_eq(name, "right") {
        Some(MouseButton::Right)
    } else if crate::text::str_eq(name, "middle") {
        Some(MouseButton::Middle)
    } else {
        None
    }
}

} // verus!
