//! Properties that hold of every input, stated over the parser's and the
//! generator's specifications.
use vstd::prelude::*;
use crate::error::ParseErrorView;
use crate::generator::{render_alias, render_shape};
use crate::json::{JsonValue, lookup, has_key};
use crate::parser::{spec_parse_shape, spec_parse_location, spec_required, opt_int};
use crate::shape::{ShapeTypeView, LocationView};

verus! {

/// The text of an object's `type` entry; empty when there is none.
pub open spec fn kind_name(json: JsonValue) -> Seq<char> {
    match json {
        JsonValue::Object(obj) => match lookup(obj@, "type"@) {
            Some(JsonValue::Str(t)) => t@,
            _ => Seq::empty(),
        },
        _ => Seq::empty(),
    }
}

pub open spec fn object_entries(json: JsonValue) -> Seq<(String, JsonValue)> {
    match json {
        JsonValue::Object(obj) => obj@,
        _ => Seq::empty(),
    }
}

/// The kinds that carry no data.
pub open spec fn is_scalar_type(t: Seq<char>) -> bool {
    t == "boolean"@ || t == "double"@ || t == "float"@ || t == "long"@ || t == "timestamp"@
}

/// The Rust type that a scalar kind is rendered as.
pub open spec fn scalar_target(t: Seq<char>) -> Seq<char> {
    if t == "boolean"@ {
        "bool"@
    } else if t == "double"@ {
        "f64"@
    } else if t == "float"@ {
        "f32"@
    } else if t == "long"@ {
        "i64"@
    } else {
        "String"@
    }
}

/// The ten kind names differ from one another.
proof fn lemma_kind_names_distinct()
    ensures
        "blob"@ != "boolean"@, "blob"@ != "double"@, "blob"@ != "float"@,
        "blob"@ != "integer"@, "blob"@ != "list"@, "blob"@ != "long"@,
        "blob"@ != "structure"@, "blob"@ != "timestamp"@, "blob"@ != "string"@,
        "boolean"@ != "double"@, "boolean"@ != "float"@, "boolean"@ != "integer"@,
        "boolean"@ != "list"@, "boolean"@ != "long"@, "boolean"@ != "structure"@,
        "boolean"@ != "timestamp"@, "boolean"@ != "string"@,
        "double"@ != "float"@, "double"@ != "integer"@, "double"@ != "list"@,
        "double"@ != "long"@, "double"@ != "structure"@, "double"@ != "timestamp"@,
        "double"@ != "string"@,
        "float"@ != "integer"@, "float"@ != "list"@, "float"@ != "long"@,
        "float"@ != "structure"@, "float"@ != "timestamp"@, "float"@ != "string"@,
        "integer"@ != "list"@, "integer"@ != "long"@, "integer"@ != "structure"@,
        "integer"@ != "timestamp"@, "integer"@ != "string"@,
        "list"@ != "long"@, "list"@ != "structure"@, "list"@ != "timestamp"@,
        "list"@ != "string"@,
        "long"@ != "structure"@, "long"@ != "timestamp"@, "long"@ != "string"@,
        "structure"@ != "timestamp"@, "structure"@ != "string"@,
        "timestamp"@ != "string"@,
        "blob"@.len() == 4, "boolean"@.len() == 7, "double"@.len() == 6, "float"@.len() == 5,
        "integer"@.len() == 7, "list"@.len() == 4, "long"@.len() == 4,
        "structure"@.len() == 9, "timestamp"@.len() == 9, "string"@.len() == 6,
{
    reveal_strlit("blob");
    reveal_strlit("boolean");
    reveal_strlit("double");
    reveal_strlit("float");
    reveal_strlit("integer");
    reveal_strlit("list");
    reveal_strlit("long");
    reveal_strlit("structure");
    reveal_strlit("timestamp");
    reveal_strlit("string");
    assert("blob"@.len() == 4);
    assert("boolean"@.len() == 7);
    assert("double"@.len() == 6);
    assert("float"@.len() == 5);
    assert("integer"@.len() == 7);
    assert("list"@.len() == 4);
    assert("long"@.len() == 4);
    assert("structure"@.len() == 9);
    assert("timestamp"@.len() == 9);
    assert("string"@.len() == 6);
    assert("blob"@[0] != "list"@[0]);
    assert("blob"@[0] != "long"@[0]);
    assert("list"@[1] != "long"@[1]);
    assert("double"@[0] != "string"@[0]);
    assert("boolean"@[0] != "integer"@[0]);
    assert("structure"@[0] != "timestamp"@[0]);
}

/// Every object whose `type` is `boolean`, `double`, `float`, `long` or
/// `timestamp` parses, and its shape renders as exactly one type alias of the
/// shape's name to the kind's Rust type.
pub proof fn lemma_scalar_parse_then_generate(name: Seq<char>, json: JsonValue)
    requires
        json is Object,
        is_scalar_type(kind_name(json)),
    ensures
        spec_parse_shape(name, json) is Ok,
        render_shape(spec_parse_shape(name, json)->Ok_0) == render_alias(
            name,
            scalar_target(kind_name(json)),
        ),
{
    lemma_kind_names_distinct();
}

/// A string object without `enum` whose `min` is zero has no minimum once
/// parsed, whenever its `max` and `pattern` are well formed.
pub proof fn lemma_string_min_zero_is_no_minimum(name: Seq<char>, json: JsonValue)
    requires
        json is Object,
        kind_name(json) == "string"@,
        !has_key(object_entries(json), "enum"@),
        lookup(object_entries(json), "min"@) == Some(JsonValue::Integer(0)),
        opt_int(lookup(object_entries(json), "max"@)) is Ok,
        lookup(object_entries(json), "pattern"@) is None || lookup(object_entries(json), "pattern"@)->0 is Str,
    ensures
        spec_parse_shape(name, json) matches Ok(s) && s.shape_type matches ShapeTypeView::StringPattern {
            min,
            ..
        } && min is None,
{
    lemma_kind_names_distinct();
}

/// A location of `"statusCode"` needs no `locationName`.
pub proof fn lemma_status_code_needs_no_name(location: JsonValue, location_name: Option<JsonValue>)
    requires
        location matches JsonValue::Str(s) && s@ == "statusCode"@,
    ensures
        spec_parse_location(Some(location), location_name) == Ok::<LocationView, ParseErrorView>(
            LocationView::StatusCode,
        ),
{
}

/// Any other location without a `locationName` is a member error.
pub proof fn lemma_other_location_needs_name(location: JsonValue)
    requires
        !(location matches JsonValue::Str(s) && s@ == "statusCode"@),
    ensures
        spec_parse_location(Some(location), None) matches Err(ParseErrorView::InvalidMember(_)),
{
}

/// An object without a string `type` fails with `TypeStringMissing`.
pub proof fn lemma_missing_type(name: Seq<char>, json: JsonValue)
    requires
        json is Object,
        !(lookup(object_entries(json), "type"@) matches Some(JsonValue::Str(_))),
    ensures
        spec_parse_shape(name, json) == Err::<crate::shape::ShapeView, ParseErrorView>(
            ParseErrorView::TypeStringMissing,
        ),
{
}

/// An object whose `type` names no known kind fails with `InvalidTypeString`.
pub proof fn lemma_unknown_type(name: Seq<char>, json: JsonValue)
    requires
        json is Object,
        lookup(object_entries(json), "type"@) matches Some(JsonValue::Str(_)),
        kind_name(json) != "blob"@,
        kind_name(json) != "boolean"@,
        kind_name(json) != "double"@,
        kind_name(json) != "float"@,
        kind_name(json) != "integer"@,
        kind_name(json) != "list"@,
        kind_name(json) != "long"@,
        kind_name(json) != "structure"@,
        kind_name(json) != "timestamp"@,
        kind_name(json) != "string"@,
    ensures
        spec_parse_shape(name, json) == Err::<crate::shape::ShapeView, ParseErrorView>(
            ParseErrorView::InvalidTypeString,
        ),
{
}

/// A structure (or exception) without `members` fails with
/// `StructureHasNoMembers`, whenever its `required` list is well formed.
pub proof fn lemma_structure_without_members(name: Seq<char>, json: JsonValue)
    requires
        json is Object,
        kind_name(json) == "structure"@,
        !has_key(object_entries(json), "members"@),
        spec_required(object_entries(json)) is Ok,
    ensures
        spec_parse_shape(name, json) == Err::<crate::shape::ShapeView, ParseErrorView>(
            ParseErrorView::StructureHasNoMembers,
        ),
{
    lemma_kind_names_distinct();
}

} // verus!
