//! The machine-readable parameter schema a tool declares: a mapping from
//! parameter name to its type, its allowed values where the vocabulary is
//! closed, and whether it is required.  The schema and the decoder agree:
//! every field the decoder consumes is declared here, and decoding succeeds
//! only when every required field is present.

use vstd::prelude::*;

use crate::decode::spec_decode;
use crate::value::get_field;
use crate::value::JsonType;
use crate::value::Value;

verus! {

/// One declared parameter of a tool.
#[derive(Debug, PartialEq)]
pub struct ParamSpec {
    pub name: String,
    pub ty: JsonType,
    pub description: String,
    /// The closed vocabulary of values, where the schema constrains one.
    pub allowed: Option<Vec<String>>,
}

/// The parameter schema of one tool: its declared properties and the names
/// that every payload must carry.
#[derive(Debug, PartialEq)]
pub struct ToolSchema {
    pub properties: Vec<ParamSpec>,
    pub required: Vec<String>,
}

/// `s` declares a parameter called `name`.
pub open spec fn schema_declares(s: ToolSchema, name: Seq<char>) -> bool {
    exists|i: int| 0 <= i < s.properties@.len() && s.properties@[i].name@ == name
}

/// Property `i` of `s` is named `name`, has type `ty`, carries the
/// description `d`, and constrains no vocabulary.
pub open spec fn prop_is(s: ToolSchema, i: int, name: Seq<char>, ty: JsonType, d: Seq<char>) -> bool {
    &&& s.properties@[i].name@ == name
    &&& s.properties@[i].ty == ty
    &&& s.properties@[i].allowed is None
    &&& s.properties@[i].description@ == d
}

/// Property `i` of `s` is named `name`, has type `ty`, carries the
/// description `d`, and allows exactly the values `allowed`.
pub open spec fn prop_is_enum(
    s: ToolSchema,
    i: int,
    name: Seq<char>,
    ty: JsonType,
    d: Seq<char>,
    allowed: Seq<Seq<char>>,
) -> bool {
    &&& s.properties@[i].name@ == name
    &&& s.properties@[i].ty == ty
    &&& s.properties@[i].description@ == d
    &&& match s.properties@[i].allowed {
        Some(vs) => vs@.map_values(|v: String| v@) =~= allowed,
        None => false,
    }
}

/// The parameter schema of the computer-control tool: the six-valued action
/// discriminant is required; every other parameter belongs to one action and
/// is checked by the decoder when that action is selected.
pub open spec fn is_control_schema(s: ToolSchema) -> bool {
    &&& s.properties@.len() == 9
    &&& prop_is_enum(
        s,
        0,
        "action"@,
        JsonType::Str,
        "The action to perform"@,
        seq![
            "screenshot"@,
            "mouse_move"@,
            "mouse_click"@,
            "key_press"@,
            "type_text"@,
            "scroll"@,
        ],
    )
    &&& prop_is(s, 1, "x"@, JsonType::Int, "X coordinate for mouse operations"@)
    &&& prop_is(s, 2, "y"@, JsonType::Int, "Y coordinate for mouse operations"@)
    &&& prop_is_enum(
        s,
        3,
        "button"@,
        JsonType::Str,
        "Mouse button to click"@,
        seq!["left"@, "right"@, "middle"@],
    )
    &&& prop_is(s, 4, "double"@, JsonType::Bool, "Whether to double-click"@)
    &&& prop_is(s, 5, "key"@, JsonType::Str, "Key to press (e.g., 'enter', 'escape', 'tab')"@)
    &&& prop_is(s, 6, "text"@, JsonType::Str, "Text to type"@)
    &&& prop_is_enum(
        s,
        7,
        "direction"@,
        JsonType::Str,
        "Scroll direction"@,
        seq!["up"@, "down"@],
    )
    &&& prop_is(s, 8, "amount"@, JsonType::Int, "Scroll amount"@)
    &&& s.required@.len() == 1
    &&& s.required@[0]@ == "action"@
}

/// Parameters `a` and `b` agree in everything a caller can observe: name,
/// type, description, and allowed vocabulary.
pub open spec fn param_like(a: ParamSpec, b: ParamSpec) -> bool {
    &&& a.name@ == b.name@
    &&& a.ty == b.ty
    &&& a.description@ == b.description@
    &&& match (a.allowed, b.allowed) {
        (None, None) => true,
        (Some(x), Some(y)) => x@.map_values(|v: String| v@) == y@.map_values(|v: String| v@),
        _ => false,
    }
}

/// Schemas `a` and `b` agree property for property and in their required
/// names.
pub open spec fn schema_like(a: ToolSchema, b: ToolSchema) -> bool {
    &&& a.properties@.len() == b.properties@.len()
    &&& forall|i: int| 0 <= i < a.properties@.len() ==> param_like(
        #[trigger] a.properties@[i],
        b.properties@[i],
    )
    &&& a.required@.map_values(|v: String| v@) == b.required@.map_values(|v: String| v@)
}

/// The capability projection is determined: the control-schema contract pins
/// every observable part of the schema, so any two values meeting it agree.
/// In particular, two `parameters()` calls describe the same capability.
pub proof fn lemma_control_schema_determined(a: ToolSchema, b: ToolSchema)
    requires
        is_control_schema(a),
        is_control_schema(b),
    ensures
        schema_like(a, b),
{
    assert forall|i: int| 0 <= i < a.properties@.len() implies param_like(
        a.properties@[i],
        b.properties@[i],
    ) by {
        if i == 0 || i == 3 || i == 7 {
            assert(a.properties@[i].allowed matches Some(x) && b.properties@[i].allowed matches Some(
                y,
            ) && x@.map_values(|v: String| v@) == y@.map_values(|v: String| v@));
        }
    }
    assert(a.required@.map_values(|v: String| v@) =~= b.required@.map_values(|v: String| v@));
}

/// Schema–decoder agreement, first half: every field the decoder can consume
/// is declared in the schema.
pub proof fn lemma_schema_covers_decoder(s: ToolSchema)
    requires
        is_control_schema(s),
    ensures
        schema_declares(s, "action"@),
        schema_declares(s, "x"@),
        schema_declares(s, "y"@),
        schema_declares(s, "button"@),
        schema_declares(s, "double"@),
        schema_declares(s, "key"@),
        schema_declares(s, "text"@),
        schema_declares(s, "direction"@),
        schema_declares(s, "amount"@),
{
    assert(s.properties@[0].name@ == "action"@);
    assert(s.properties@[1].name@ == "x"@);
    assert(s.properties@[2].name@ == "y"@);
    assert(s.properties@[3].name@ == "button"@);
    assert(s.properties@[4].name@ == "double"@);
    assert(s.properties@[5].name@ == "key"@);
    assert(s.properties@[6].name@ == "text"@);
    assert(s.properties@[7].name@ == "direction"@);
    assert(s.properties@[8].name@ == "amount"@);
}

/// Schema–decoder agreement, second half: a payload decodes successfully only
/// when every field the schema marks required is present.
pub proof fn lemma_required_present(s: ToolSchema, v: Value)
    requires
        is_control_schema(s),
        spec_decode(v) is Ok,
    ensures
        forall|i: int| 0 <= i < s.required@.len() ==> get_field(v, #[trigger] s.required@[i]@)
            is Some,
{
    assert(get_field(v, "action"@) is Some);
}

} // verus!
