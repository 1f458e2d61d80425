//! The uniform execution envelope: every tool invocation returns a success
//! flag, a structured content value, and an optional error message.  The
//! error field is authoritative: it is present exactly on failed results.

use vstd::prelude::*;

use crate::value::get_field;
use crate::value::obj_field_is_str;
use crate::value::obj_len;
use crate::value::Value;

verus! {

/// The outcome of one tool invocation.
#[derive(Debug, PartialEq)]
pub struct ToolResult {
    pub success: bool,
    pub content: Value,
    pub error: Option<String>,
}

impl ToolResult {
    /// The envelope invariant: the success flag is set exactly when no error
    /// message is carried.
    pub open spec fn wf(self) -> bool {
        self.success <==> self.error is None
    }
}

/// `t` reports success with content `c`.
pub open spec fn is_success_with(t: ToolResult, c: Value) -> bool {
    &&& t.success
    &&& t.error is None
    &&& t.content == c
}

/// `t` reports the failure message `m`, both in the authoritative `error`
/// field and as the single `error` field of its content object.
pub open spec fn is_failure_with(t: ToolResult, m: Seq<char>) -> bool {
    &&& !t.success
    &&& match t.error {
        Some(e) => e@ == m,
        None => false,
    }
    &&& obj_field_is_str(t.content, "error"@, m)
    &&& obj_len(t.content) == 1
}

impl ToolResult {
    /// A successful envelope around `content`.
    pub fn ok(content: Value) -> (r: ToolResult)
        ensures
            is_success_with(r, content),
            r.wf(),
    {
        ToolResult { success: true, content, error: None }
    }

    /// A failed envelope that reports `message`.
    pub fn fail(message: String) -> (r: ToolResult)
        ensures
            is_failure_with(r, message@),
            r.wf(),
    {
        let content = Value::Obj(vec![(String::from_str("error"), Value::Str(message.clone()))]);
        proof {
            assert(get_field(content, "error"@) matches Some(v) && v matches Value::Str(s)
                && s@ == message@);
        }
        ToolResult { success: false, content, error: Some(message) }
    }
}

/// Envelope coherence: a successful result never carries an error message,
/// and a result that carries one is marked failed.
pub proof fn lemma_envelope_coherent(t: ToolResult)
    requires
        t.wf(),
    ensures
        t.success ==> t.error is None,
        t.error is Some ==> !t.success,
{
}

} // verus!
