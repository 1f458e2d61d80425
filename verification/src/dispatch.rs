//! Dispatching a decoded action: each invocation decodes its payload, then
//! either resolves immediately (decode failure, unrecognized key or button,
//! result envelopes built without the backend), asks for a sequence of input
//! backend calls, or enters the screenshot exchange.  The host performs the
//! backend calls and feeds outcomes back; every outcome is wrapped in a
//! [`ToolResult`], never raised past the dispatch boundary.

use vstd::prelude::*;
use vstd::string::StringExecFns;

use crate::action::Action;
use crate::action::ActionV;
use crate::action::KeyCode;
use crate::action::MouseButton;
use crate::action::spec_button;
use crate::action::spec_key_code;
use crate::codec::base64_encode;
use crate::codec::data_uri_of;
use crate::codec::png_encode;
use crate::codec::png_encoding;
use crate::decode::decode;
use crate::decode::spec_decode;
use crate::decode::spec_error_message;
use crate::result::is_failure_with;
use crate::result::ToolResult;
use crate::value::get_field;
use crate::value::obj_field_is_bool;
use crate::value::obj_field_is_int;
use crate::value::obj_field_is_str;
use crate::value::obj_len;
use crate::value::Value;

verus! {

/// The pause between the two click events of a double click, in milliseconds.
pub const DOUBLE_CLICK_DELAY_MS: u64 = 50;

/// One primitive call to the input-simulation backend.
#[derive(Debug, PartialEq)]
pub enum BackendCall {
    /// Move the cursor to absolute coordinates.
    MoveCursor { x: i32, y: i32 },
    /// Press and release a mouse button once.
    Click { button: MouseButton },
    /// Sleep for the given number of milliseconds within this invocation.
    Delay { ms: u64 },
    /// Press and release a key.
    KeyEvent { code: KeyCode },
    /// Type a string of text.
    TypeText { text: String },
    /// Scroll vertically by a signed delta: positive is up, negative down.
    Scroll { delta: i64 },
}

/// What one invocation asks of its host after decoding and dispatch.
#[derive(Debug, PartialEq)]
pub enum ExecPlan {
    /// The invocation is already resolved; no backend work is needed.
    Done(ToolResult),
    /// Perform the backend calls in order; if all succeed, return `success`,
    /// and on a backend error report it with [`ToolResult::fail`].
    Input { calls: Vec<BackendCall>, success: ToolResult },
    /// Enumerate the screens and continue with [`screens_step`].
    Screenshot,
}

/// The content reported for a completed cursor move.
pub open spec fn moved_content(c: Value, x: int, y: int) -> bool {
    &&& obj_len(c) == 1
    &&& match get_field(c, "moved_to"@) {
        Some(m) => obj_len(m) == 2 && obj_field_is_int(m, "x"@, x) && obj_field_is_int(
            m,
            "y"@,
            y,
        ),
        None => false,
    }
}

/// The content reported for a completed click.
pub open spec fn clicked_content(c: Value, button: Seq<char>, double: bool) -> bool {
    &&& obj_len(c) == 2
    &&& obj_field_is_str(c, "clicked"@, button)
    &&& obj_field_is_bool(c, "double"@, double)
}

/// The content reported for a completed key press.
pub open spec fn key_content(c: Value, key: Seq<char>) -> bool {
    &&& obj_len(c) == 1
    &&& obj_field_is_str(c, "key_pressed"@, key)
}

/// The content reported for completed typing.
pub open spec fn typed_content(c: Value, text: Seq<char>) -> bool {
    &&& obj_len(c) == 1
    &&& obj_field_is_str(c, "typed"@, text)
}

/// The content reported for a completed scroll.
pub open spec fn scrolled_content(c: Value, direction: Seq<char>, amount: int) -> bool {
    &&& obj_len(c) == 1
    &&& match get_field(c, "scrolled"@) {
        Some(m) => obj_len(m) == 2 && obj_field_is_str(m, "direction"@, direction)
            && obj_field_is_int(m, "amount"@, amount),
        None => false,
    }
}

/// The content reported for a captured screenshot: the PNG as a data URI,
/// and the dimensions of the captured image.
pub open spec fn screenshot_content(c: Value, png: Seq<u8>, width: int, height: int) -> bool {
    &&& obj_len(c) == 3
    &&& obj_field_is_str(c, "screenshot"@, data_uri_of(png))
    &&& obj_field_is_int(c, "width"@, width)
    &&& obj_field_is_int(c, "height"@, height)
}

/// The signed scroll delta forwarded to the backend: `"up"` keeps the
/// magnitude positive, any other direction negates it.
pub open spec fn scroll_delta(direction: Seq<char>, amount: int) -> int {
    if direction == "up"@ {
        amount
    } else {
        -amount
    }
}

/// The backend calls a click asks for: one click, or two separated by the
/// configured delay.
pub open spec fn click_calls(calls: Seq<BackendCall>, b: MouseButton, double: bool) -> bool {
    if double {
        &&& calls.len() == 3
        &&& calls[0] == (BackendCall::Click { button: b })
        &&& calls[1] == (BackendCall::Delay { ms: DOUBLE_CLICK_DELAY_MS })
        &&& calls[2] == (BackendCall::Click { button: b })
    } else {
        &&& calls.len() == 1
        &&& calls[0] == (BackendCall::Click { button: b })
    }
}

/// How a plan answers a payload: the exhaustive relation between what the
/// payload decodes to and what the invocation does.
pub open spec fn plan_matches(payload: Value, p: ExecPlan) -> bool {
    match spec_decode(payload) {
        Err(e) => p matches ExecPlan::Done(t) && is_failure_with(t, spec_error_message(e)),
        Ok(a) => match a {
            ActionV::Screenshot => p == ExecPlan::Screenshot,
            ActionV::MouseMove { x, y } => p matches ExecPlan::Input { calls, success }
                && calls@.len() == 1 && (calls@[0] matches BackendCall::MoveCursor { x: cx, y: cy }
                && cx as int == x && cy as int == y) && success.success && success.error is None
                && moved_content(success.content, x, y),
            ActionV::MouseClick { button, double } => match spec_button(button) {
                None => p matches ExecPlan::Done(t) && is_failure_with(
                    t,
                    "Unknown button: "@ + button,
                ),
                Some(b) => p matches ExecPlan::Input { calls, success } && click_calls(
                    calls@,
                    b,
                    double,
                ) && success.success && success.error is None && clicked_content(
                    success.content,
                    button,
                    double,
                ),
            },
            ActionV::KeyPress { key } => match spec_key_code(key) {
                None => p matches ExecPlan::Done(t) && is_failure_with(t, "Unknown key: "@ + key),
                Some(code) => p matches ExecPlan::Input { calls, success } && calls@.len() == 1
                    && calls@[0] == (BackendCall::KeyEvent { code }) && success.success
                    && success.error is None && key_content(success.content, key),
            },
            ActionV::TypeText { text } => p matches ExecPlan::Input { calls, success }
                && calls@.len() == 1 && (calls@[0] matches BackendCall::TypeText { text: t }
                && t@ == text) && success.success && success.error is None && typed_content(
                success.content,
                text,
            ),
            ActionV::Scroll { direction, amount } => p matches ExecPlan::Input { calls, success }
                && calls@.len() == 1 && (calls@[0] matches BackendCall::Scroll { delta }
                && delta as int == scroll_delta(direction, amount)) && success.success
                && success.error is None && scrolled_content(success.content, direction, amount),
        },
    }
}

/// The success envelope of a completed cursor move.
fn moved_result(x: i32, y: i32) -> (t: ToolResult)
    ensures
        t.success,
        t.error is None,
        t.wf(),
        moved_content(t.content, x as int, y as int),
{
    proof {
        reveal_strlit("x");
        reveal_strlit("y");
        assert("x"@[0] != "y"@[0]);
    }
    let inner = Value::obj2("x", Value::Int(x as i64), "y", Value::Int(y as i64));
    ToolResult::ok(Value::obj1("moved_to", inner))
}

/// The success envelope of a completed click.
fn clicked_result(button: &String, double: bool) -> (t: ToolResult)
    ensures
        t.success,
        t.error is None,
        t.wf(),
        clicked_content(t.content, button@, double),
{
    proof {
        reveal_strlit("clicked");
        reveal_strlit("double");
        assert("clicked"@.len() == 7);
        assert("double"@.len() == 6);
    }
    ToolResult::ok(
        Value::obj2("clicked", Value::Str(button.clone()), "double", Value::Bool(double)),
    )
}

/// The success envelope of a completed key press.
fn key_result(key: &String) -> (t: ToolResult)
    ensures
        t.success,
        t.error is None,
        t.wf(),
        key_content(t.content, key@),
{
    ToolResult::ok(Value::obj1("key_pressed", Value::Str(key.clone())))
}

/// The success envelope of completed typing.
fn typed_result(text: &String) -> (t: ToolResult)
    ensures
        t.success,
        t.error is None,
        t.wf(),
        typed_content(t.content, text@),
{
    ToolResult::ok(Value::obj1("typed", Value::Str(text.clone())))
}

/// The success envelope of a completed scroll.
fn scrolled_result(direction: &String, amount: i32) -> (t: ToolResult)
    ensures
        t.success,
        t.error is None,
        t.wf(),
        scrolled_content(t.content, direction@, amount as int),
{
    proof {
        reveal_strlit("direction");
        reveal_strlit("amount");
        assert("direction"@.len() == 9);
        assert("amount"@.len() == 6);
    }
    let inner = Value::obj2(
        "direction",
        Value::Str(direction.clone()),
        "amount",
        Value::Int(amount as i64),
    );
    ToolResult::ok(Value::obj1("scrolled", inner))
}

/// Decodes a payload and dispatches on the selected action.  A decode
/// failure, an unrecognized key name, and an unrecognized button name are
/// reported failures that leave the tool usable; every other action yields
/// the backend calls that carry it out together with the success envelope.
pub fn execute_plan(payload: &Value) -> (p: ExecPlan)
    ensures
        plan_matches(*payload, p),
{
    match decode(payload) {
        Err(e) => ExecPlan::Done(ToolResult::fail(e.message())),
        Ok(action) => match action {
            Action::Screenshot => ExecPlan::Screenshot,
            Action::MouseMove { x, y } => ExecPlan::Input {
                calls: vec![BackendCall::MoveCursor { x, y }],
                success: moved_result(x, y),
            },
            Action::MouseClick { button, double } => match crate::action::button_code(
                button.as_str(),
            ) {
                None => ExecPlan::Done(
                    ToolResult::fail(String::from_str("Unknown button: ").concat(button.as_str())),
                ),
                Some(b) => {
                    let calls = if double {
                        vec![
                            BackendCall::Click { button: b },
                            BackendCall::Delay { ms: DOUBLE_CLICK_DELAY_MS },
                            BackendCall::Click { button: b },
                        ]
                    } else {
                        vec![BackendCall::Click { button: b }]
                    };
                    let success = clicked_result(&button, double);
                    ExecPlan::Input { calls, success }
                },
            },
            Action::KeyPress { key } => match crate::action::key_code(key.as_str()) {
                None => ExecPlan::Done(
                    ToolResult::fail(String::from_str("Unknown key: ").concat(key.as_str())),
                ),
                Some(code) => ExecPlan::Input {
                    calls: vec![BackendCall::KeyEvent { code }],
                    success: key_result(&key),
                },
            },
            Action::TypeText { text } => {
                let success = typed_result(&text);
                ExecPlan::Input { calls: vec![BackendCall::TypeText { text }], success }
            },
            Action::Scroll { direction, amount } => {
                let delta: i64 = if crate::text::str_eq(direction.as_str(), "up") {
                    amount as i64
                } else {
                    -(amount as i64)
                };
                let success = scrolled_result(&direction, amount);
                ExecPlan::Input { calls: vec![BackendCall::Scroll { delta }], success }
            },
        },
    }
}

/// What the screenshot exchange does once the screens are enumerated: with no
/// screen available the invocation fails with `No screens found` and asks for
/// no capture; otherwise the first enumerated screen is to be captured.
#[derive(Debug, PartialEq)]
pub enum ScreenStep {
    /// The invocation is resolved without any capture.
    Done(ToolResult),
    /// Capture the first enumerated screen and continue with
    /// [`captured_step`], or report the capture error with
    /// [`ToolResult::fail`].
    CaptureFirst,
}

/// Continues a screenshot invocation after the host enumerated `count`
/// screens.
pub fn screens_step(count: usize) -> (r: ScreenStep)
    ensures
        count == 0 ==> (r matches ScreenStep::Done(t) && is_failure_with(t, "No screens found"@)
            && t.wf()),
        count > 0 ==> r == ScreenStep::CaptureFirst,
{
    if count == 0 {
        ScreenStep::Done(ToolResult::fail(String::from_str("No screens found")))
    } else {
        ScreenStep::CaptureFirst
    }
}

/// The success envelope of a captured screenshot whose PNG encoding is
/// already at hand.
pub fn screenshot_result(png: &Vec<u8>, width: u32, height: u32) -> (t: ToolResult)
    ensures
        t.success,
        t.error is None,
        t.wf(),
        screenshot_content(t.content, png@, width as int, height as int),
{
    proof {
        reveal_strlit("screenshot");
        reveal_strlit("width");
        reveal_strlit("height");
        assert("screenshot"@.len() == 10);
        assert("width"@.len() == 5);
        assert("height"@.len() == 6);
    }
    let b64 = base64_encode(png);
    let uri = String::from_str("data:image/png;base64,").concat(b64.as_str());
    ToolResult::ok(
        Value::obj3(
            "screenshot",
            Value::Str(uri),
            "width",
            Value::Int(width as i64),
            "height",
            Value::Int(height as i64),
        ),
    )
}

/// Continues a screenshot invocation after the host captured the first
/// screen as a raw RGBA8 image.  Encoding happens here: an image with
/// positive dimensions always succeeds, and the content carries the PNG as a
/// data URI with the captured dimensions; a rejected image (a zero width or
/// height) is a reported failure whose envelope carries the encoder's message
/// both as the error and as the content.
pub fn captured_step(width: u32, height: u32, rgba: &Vec<u8>) -> (t: ToolResult)
    requires
        rgba@.len() == 4 * (width as int) * (height as int),
    ensures
        t.wf(),
        t.success ==> screenshot_content(
            t.content,
            png_encoding(width as nat, height as nat, rgba@),
            width as int,
            height as int,
        ),
        width > 0 && height > 0 ==> t.success,
        !t.success ==> (t.error matches Some(m) && is_failure_with(t, m@)),
{
    match png_encode(width, height, rgba) {
        Ok(png) => screenshot_result(&png, width, height),
        Err(m) => ToolResult::fail(m),
    }
}

/// A payload without a discriminant never reaches the backend: the
/// invocation resolves at once into a failure carrying a non-empty error
/// message.
pub proof fn lemma_missing_discriminant_reported(payload: Value, p: ExecPlan)
    requires
        get_field(payload, "action"@) is None,
        plan_matches(payload, p),
    ensures
        p matches ExecPlan::Done(t) && !t.success && (t.error matches Some(m) && m@.len() > 0),
{
    crate::decode::lemma_missing_discriminant_decode(payload);
    let e = spec_decode(payload)->Err_0;
    crate::decode::lemma_error_message_nonempty(e);
}

/// An unrecognized key name decodes (the schema only asks for a string) but
/// dispatch reports it: the invocation resolves into a failure whose message
/// names the key.
pub proof fn lemma_unknown_key_reported(payload: Value, p: ExecPlan, key: Seq<char>)
    requires
        plan_matches(payload, p),
        spec_decode(payload) == Ok::<ActionV, crate::action::DecodeErrorV>(
            ActionV::KeyPress { key },
        ),
        spec_key_code(key) is None,
    ensures
        p matches ExecPlan::Done(t) && is_failure_with(t, "Unknown key: "@ + key),
{
}

/// The scroll sign law: the backend always receives a signed delta, positive
/// for `"up"` and negative for any other direction of the same magnitude.
pub proof fn lemma_scroll_sign(payload: Value, p: ExecPlan, direction: Seq<char>, amount: int)
    requires
        plan_matches(payload, p),
        spec_decode(payload) == Ok::<ActionV, crate::action::DecodeErrorV>(
            ActionV::Scroll { direction, amount },
        ),
    ensures
        p matches ExecPlan::Input { calls, success } && calls@.len() == 1 && (calls@[0] matches
        BackendCall::Scroll { delta } && delta as int == (
        if direction == "up"@ {
            amount
        } else {
            -amount
        })),
{
}

/// The double-click law: a recognized button clicked with `double` set asks
/// for exactly two click calls separated by the configured delay, and without
/// it for exactly one.
pub proof fn lemma_double_click(
    payload: Value,
    p: ExecPlan,
    button: Seq<char>,
    b: MouseButton,
    double: bool,
)
    requires
        plan_matches(payload, p),
        spec_decode(payload) == Ok::<ActionV, crate::action::DecodeErrorV>(
            ActionV::MouseClick { button, double },
        ),
        spec_button(button) == Some(b),
    ensures
        p matches ExecPlan::Input { calls, success } && click_calls(calls@, b, double),
{
}

} // verus!
