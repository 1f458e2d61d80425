//! Decoding an untyped payload into a typed [`Action`].
//!
//! The discriminant field `action` is read first; an absent or unknown
//! discriminant is an `UnknownAction` error.  For the selected variant every
//! declared field is extracted and type-checked: a missing required field is
//! `MissingField`, a wrongly typed one `TypeMismatch`.  Optional fields have
//! documented defaults (`double` defaults to `false`).  Decoding is a pure
//! function of the payload: either every field resolves and a fully populated
//! variant is returned, or it fails with no effect.

use vstd::prelude::*;
use vstd::string::StringExecFns;

use crate::action::Action;
use crate::action::ActionV;
use crate::action::DecodeError;
use crate::action::DecodeErrorV;
use crate::value::get_field;
use crate::value::obj_field_is_int;
use crate::value::obj_field_is_str;
use crate::value::type_of;
use crate::value::JsonType;
use crate::value::Value;

verus! {

/// The name decode errors give to the coarse type of a value.
pub open spec fn spec_kind_name(t: JsonType) -> Seq<char> {
    match t {
        JsonType::Null => "null"@,
        JsonType::Bool => "boolean"@,
        JsonType::Int => "integer"@,
        JsonType::Str => "string"@,
        JsonType::Arr => "array"@,
        JsonType::Obj => "object"@,
    }
}

/// Executable counterpart of [`spec_kind_name`].
pub fn kind_name(t: JsonType) -> (r: &'static str)
    ensures
        r@ == spec_kind_name(t),
{
    match t {
        JsonType::Null => "null",
        JsonType::Bool => "boolean",
        JsonType::Int => "integer",
        JsonType::Str => "string",
        JsonType::Arr => "array",
        JsonType::Obj => "object",
    }
}

/// The message a decode error reports.
pub open spec fn spec_error_message(e: DecodeErrorV) -> Seq<char> {
    match e {
        DecodeErrorV::UnknownAction { name } => "Unknown action: "@ + name,
        DecodeErrorV::MissingField { field } => "Missing field: "@ + field,
        DecodeErrorV::TypeMismatch { field, expected, actual } => "Type mismatch on field "@
            + field + ": expected "@ + spec_kind_name(expected) + ", got "@ + spec_kind_name(
            actual,
        ),
    }
}

/// Every decode error carries a non-empty message.
pub proof fn lemma_error_message_nonempty(e: DecodeErrorV)
    ensures
        spec_error_message(e).len() > 0,
{
    reveal_strlit("Unknown action: ");
    reveal_strlit("Missing field: ");
    reveal_strlit("Type mismatch on field ");
}

impl DecodeError {
    /// Renders the error as its reported message.
    pub fn message(&self) -> (r: String)
        ensures
            r@ == spec_error_message(self@),
    {
        match self {
            DecodeError::UnknownAction { name } => String::from_str("Unknown action: ").concat(
                name.as_str(),
            ),
            DecodeError::MissingField { field } => String::from_str("Missing field: ").concat(
                field.as_str(),
            ),
            DecodeError::TypeMismatch { field, expected, actual } => String::from_str(
                "Type mismatch on field ",
            ).concat(field.as_str()).concat(": expected ").concat(kind_name(*expected)).concat(
                ", got ",
            ).concat(kind_name(*actual)),
        }
    }
}

/// The value of a required integer field that must fit a 32-bit signed
/// machine integer.
pub open spec fn spec_i32_field(v: Value, field: Seq<char>) -> Result<int, DecodeErrorV> {
    match get_field(v, field) {
        None => Err(DecodeErrorV::MissingField { field }),
        Some(fv) => match fv {
            Value::Int(x) => if i32::MIN as int <= x as int && x as int <= i32::MAX as int {
                Ok(x as int)
            } else {
                Err(
                    DecodeErrorV::TypeMismatch {
                        field,
                        expected: JsonType::Int,
                        actual: JsonType::Int,
                    },
                )
            },
            _ => Err(
                DecodeErrorV::TypeMismatch { field, expected: JsonType::Int, actual: type_of(fv) },
            ),
        },
    }
}

/// The value of a required string field.
pub open spec fn spec_str_field(v: Value, field: Seq<char>) -> Result<Seq<char>, DecodeErrorV> {
    match get_field(v, field) {
        None => Err(DecodeErrorV::MissingField { field }),
        Some(fv) => match fv {
            Value::Str(s) => Ok(s@),
            _ => Err(
                DecodeErrorV::TypeMismatch { field, expected: JsonType::Str, actual: type_of(fv) },
            ),
        },
    }
}

/// The value of an optional boolean field, `default` when absent.
pub open spec fn spec_bool_field(v: Value, field: Seq<char>, default: bool) -> Result<
    bool,
    DecodeErrorV,
> {
    match get_field(v, field) {
        None => Ok(default),
        Some(fv) => match fv {
            Value::Bool(b) => Ok(b),
            _ => Err(
                DecodeErrorV::TypeMismatch { field, expected: JsonType::Bool, actual: type_of(fv) },
            ),
        },
    }
}

/// The action a payload with known discriminant `name` decodes to.
pub open spec fn spec_decode_named(v: Value, name: Seq<char>) -> Result<ActionV, DecodeErrorV> {
    if name == "screenshot"@ {
        Ok(ActionV::Screenshot)
    } else if name == "mouse_move"@ {
        match spec_i32_field(v, "x"@) {
            Err(e) => Err(e),
            Ok(x) => match spec_i32_field(v, "y"@) {
                Err(e) => Err(e),
                Ok(y) => Ok(ActionV::MouseMove { x, y }),
            },
        }
    } else if name == "mouse_click"@ {
        match spec_str_field(v, "button"@) {
            Err(e) => Err(e),
            Ok(button) => match spec_bool_field(v, "double"@, false) {
                Err(e) => Err(e),
                Ok(double) => Ok(ActionV::MouseClick { button, double }),
            },
        }
    } else if name == "key_press"@ {
        match spec_str_field(v, "key"@) {
            Err(e) => Err(e),
            Ok(key) => Ok(ActionV::KeyPress { key }),
        }
    } else if name == "type_text"@ {
        match spec_str_field(v, "text"@) {
            Err(e) => Err(e),
            Ok(text) => Ok(ActionV::TypeText { text }),
        }
    } else if name == "scroll"@ {
        match spec_str_field(v, "direction"@) {
            Err(e) => Err(e),
            Ok(direction) => match spec_i32_field(v, "amount"@) {
                Err(e) => Err(e),
                Ok(amount) => Ok(ActionV::Scroll { direction, amount }),
            },
        }
    } else {
        Err(DecodeErrorV::UnknownAction { name })
    }
}

/// The action a payload decodes to, or the error decoding fails with.
pub open spec fn spec_decode(v: Value) -> Result<ActionV, DecodeErrorV> {
    match get_field(v, "action"@) {
        None => Err(DecodeErrorV::UnknownAction { name: Seq::empty() }),
        Some(av) => match av {
            Value::Str(name) => spec_decode_named(v, name@),
            _ => Err(
                DecodeErrorV::TypeMismatch {
                    field: "action"@,
                    expected: JsonType::Str,
                    actual: type_of(av),
                },
            ),
        },
    }
}

/// Extracts a required 32-bit integer field.
fn i32_field(payload: &Value, field: &str) -> (r: Result<i32, DecodeError>)
    ensures
        match r {
            Ok(x) => spec_i32_field(*payload, field@) == Ok::<int, DecodeErrorV>(x as int),
            Err(e) => spec_i32_field(*payload, field@) == Err::<int, DecodeErrorV>(e@),
        },
{
    match payload.get(field) {
        None => Err(DecodeError::MissingField { field: field.to_owned() }),
        Some(fv) => match fv {
            Value::Int(x) => {
                let xv: i64 = *x;
                if i32::MIN as i64 <= xv && xv <= i32::MAX as i64 {
                    Ok(xv as i32)
                } else {
                    Err(
                        DecodeError::TypeMismatch {
                            field: field.to_owned(),
                            expected: JsonType::Int,
                            actual: JsonType::Int,
                        },
                    )
                }
            },
            _ => Err(
                DecodeError::TypeMismatch {
                    field: field.to_owned(),
                    expected: JsonType::Int,
                    actual: fv.kind(),
                },
            ),
        },
    }
}

/// Extracts a required string field.
fn str_field(payload: &Value, field: &str) -> (r: Result<String, DecodeError>)
    ensures
        match r {
            Ok(s) => spec_str_field(*payload, field@) == Ok::<Seq<char>, DecodeErrorV>(s@),
            Err(e) => spec_str_field(*payload, field@) == Err::<Seq<char>, DecodeErrorV>(e@),
        },
{
    match payload.get(field) {
        None => Err(DecodeError::MissingField { field: field.to_owned() }),
        Some(fv) => match fv {
            Value::Str(s) => Ok(s.clone()),
            _ => Err(
                DecodeError::TypeMismatch {
                    field: field.to_owned(),
                    expected: JsonType::Str,
                    actual: fv.kind(),
                },
            ),
        },
    }
}

/// Extracts an optional boolean field, substituting `default` when absent.
fn bool_field(payload: &Value, field: &str, default: bool) -> (r: Result<bool, DecodeError>)
    ensures
        match r {
            Ok(b) => spec_bool_field(*payload, field@, default) == Ok::<bool, DecodeErrorV>(b),
            Err(e) => spec_bool_field(*payload, field@, default) == Err::<bool, DecodeErrorV>(e@),
        },
{
    match payload.get(field) {
        None => Ok(default),
        Some(fv) => match fv {
            Value::Bool(b) => Ok(*b),
            _ => Err(
                DecodeError::TypeMismatch {
                    field: field.to_owned(),
                    expected: JsonType::Bool,
                    actual: fv.kind(),
                },
            ),
        },
    }
}

/// Decodes a payload into the one action it selects, or fails atomically.
pub fn decode(payload: &Value) -> (r: Result<Action, DecodeError>)
    ensures
        match r {
            Ok(a) => spec_decode(*payload) == Ok::<ActionV, DecodeErrorV>(a@),
            Err(e) => spec_decode(*payload) == Err::<ActionV, DecodeErrorV>(e@),
        },
{
    match payload.get("action") {
        None => Err(DecodeError::UnknownAction { name: String::new() }),
        Some(av) => match av {
            Value::Str(name) => {
                if crate::text::str_eq(name.as_str(), "screenshot") {
                    Ok(Action::Screenshot)
                } else if crate::text::str_eq(name.as_str(), "mouse_move") {
                    match i32_field(payload, "x") {
                        Err(e) => Err(e),
                        Ok(x) => match i32_field(payload, "y") {
                            Err(e) => Err(e),
                            Ok(y) => Ok(Action::MouseMove { x, y }),
                        },
                    }
                } else if crate::text::str_eq(name.as_str(), "mouse_click") {
                    match str_field(payload, "button") {
                        Err(e) => Err(e),
                        Ok(button) => match bool_field(payload, "double", false) {
                            Err(e) => Err(e),
                            Ok(double) => Ok(Action::MouseClick { button, double }),
                        },
                    }
                } else if crate::text::str_eq(name.as_str(), "key_press") {
                    match str_field(payload, "key") {
                        Err(e) => Err(e),
                        Ok(key) => Ok(Action::KeyPress { key }),
                    }
                } else if crate::text::str_eq(name.as_str(), "type_text") {
                    match str_field(payload, "text") {
                        Err(e) => Err(e),
                        Ok(text) => Ok(Action::TypeText { text }),
                    }
                } else if crate::text::str_eq(name.as_str(), "scroll") {
                    match str_field(payload, "direction") {
                        Err(e) => Err(e),
                        Ok(direction) => match i32_field(payload, "amount") {
                            Err(e) => Err(e),
                            Ok(amount) => Ok(Action::Scroll { direction, amount }),
                        },
                    }
                } else {
                    Err(DecodeError::UnknownAction { name: name.clone() })
                }
            },
            _ => Err(
                DecodeError::TypeMismatch {
                    field: String::from_str("action"),
                    expected: JsonType::Str,
                    actual: av.kind(),
                },
            ),
        },
    }
}

/// The six action names are pairwise distinct.
pub proof fn lemma_action_names_distinct()
    ensures
        "screenshot"@ != "mouse_move"@,
        "screenshot"@ != "mouse_click"@,
        "screenshot"@ != "key_press"@,
        "screenshot"@ != "type_text"@,
        "screenshot"@ != "scroll"@,
        "mouse_move"@ != "mouse_click"@,
        "mouse_move"@ != "key_press"@,
        "mouse_move"@ != "type_text"@,
        "mouse_move"@ != "scroll"@,
        "mouse_click"@ != "key_press"@,
        "mouse_click"@ != "type_text"@,
        "mouse_click"@ != "scroll"@,
        "key_press"@ != "type_text"@,
        "key_press"@ != "scroll"@,
        "type_text"@ != "scroll"@,
{
    reveal_strlit("screenshot");
    reveal_strlit("mouse_move");
    reveal_strlit("mouse_click");
    reveal_strlit("key_press");
    reveal_strlit("type_text");
    reveal_strlit("scroll");
    assert("screenshot"@.len() == 10);
    assert("mouse_move"@.len() == 10);
    assert("mouse_click"@.len() == 11);
    assert("key_press"@.len() == 9);
    assert("type_text"@.len() == 9);
    assert("scroll"@.len() == 6);
    assert("screenshot"@[0] != "mouse_move"@[0]);
    assert("key_press"@[0] != "type_text"@[0]);
}

/// A payload whose discriminant is `screenshot` decodes to the screenshot
/// action; no other field is consulted.
pub proof fn lemma_decode_screenshot(v: Value)
    requires
        obj_field_is_str(v, "action"@, "screenshot"@),
    ensures
        spec_decode(v) == Ok::<ActionV, DecodeErrorV>(ActionV::Screenshot),
{
}

/// A `mouse_move` payload with integer coordinates in machine range decodes
/// to the move action carrying exactly those coordinates.
pub proof fn lemma_decode_mouse_move(v: Value, x: int, y: int)
    requires
        obj_field_is_str(v, "action"@, "mouse_move"@),
        obj_field_is_int(v, "x"@, x),
        obj_field_is_int(v, "y"@, y),
        i32::MIN as int <= x <= i32::MAX as int,
        i32::MIN as int <= y <= i32::MAX as int,
    ensures
        spec_decode(v) == Ok::<ActionV, DecodeErrorV>(ActionV::MouseMove { x, y }),
{
    lemma_action_names_distinct();
}

/// A `mouse_click` payload with a string button and no `double` field decodes
/// with the documented default: `double` is `false`.
pub proof fn lemma_decode_mouse_click_default(v: Value, button: Seq<char>)
    requires
        obj_field_is_str(v, "action"@, "mouse_click"@),
        obj_field_is_str(v, "button"@, button),
        get_field(v, "double"@) is None,
    ensures
        spec_decode(v) == Ok::<ActionV, DecodeErrorV>(
            ActionV::MouseClick { button, double: false },
        ),
{
    lemma_action_names_distinct();
}

/// A `key_press` payload with a string key decodes to the key action; any
/// key name passes the schema, recognition happens at dispatch time.
pub proof fn lemma_decode_key_press(v: Value, key: Seq<char>)
    requires
        obj_field_is_str(v, "action"@, "key_press"@),
        obj_field_is_str(v, "key"@, key),
    ensures
        spec_decode(v) == Ok::<ActionV, DecodeErrorV>(ActionV::KeyPress { key }),
{
    lemma_action_names_distinct();
}

/// A `type_text` payload with a string text decodes to the typing action.
pub proof fn lemma_decode_type_text(v: Value, text: Seq<char>)
    requires
        obj_field_is_str(v, "action"@, "type_text"@),
        obj_field_is_str(v, "text"@, text),
    ensures
        spec_decode(v) == Ok::<ActionV, DecodeErrorV>(ActionV::TypeText { text }),
{
    lemma_action_names_distinct();
}

/// A `scroll` payload with a string direction and an integer amount in
/// machine range decodes to the scroll action.
pub proof fn lemma_decode_scroll(v: Value, direction: Seq<char>, amount: int)
    requires
        obj_field_is_str(v, "action"@, "scroll"@),
        obj_field_is_str(v, "direction"@, direction),
        obj_field_is_int(v, "amount"@, amount),
        i32::MIN as int <= amount <= i32::MAX as int,
    ensures
        spec_decode(v) == Ok::<ActionV, DecodeErrorV>(ActionV::Scroll { direction, amount }),
{
    lemma_action_names_distinct();
}

/// A payload without the discriminant field never decodes: it fails with an
/// `UnknownAction` error naming no action.
pub proof fn lemma_missing_discriminant_decode(v: Value)
    requires
        get_field(v, "action"@) is None,
    ensures
        spec_decode(v) == Err::<ActionV, DecodeErrorV>(
            DecodeErrorV::UnknownAction { name: Seq::empty() },
        ),
{
}

} // verus!
