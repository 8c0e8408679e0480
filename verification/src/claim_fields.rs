//! Fields of the documents of a claim, and lists of codes.

use crate::json::{Json, JsonModel};
use crate::mcp_error::{invalid_params, McpError, McpErrorModel};
use crate::model::result_model;
use crate::text::{concat3, trim, trimmed, views};
use vstd::prelude::*;

verus! {

pub open spec fn missing_argument(name: Seq<char>) -> McpErrorModel {
    invalid_params("missing required argument `"@ + name + "`"@)
}

pub open spec fn missing_field(name: Seq<char>) -> McpErrorModel {
    invalid_params("missing required field `"@ + name + "`"@)
}

/// The member `name`, where it is a text with something other than white space in it.
pub open spec fn filled_text(value: JsonModel, name: Seq<char>) -> Option<Seq<char>> {
    match value.text_at(name) {
        Some(t) => if trimmed(t).len() > 0 {
            Some(t)
        } else {
            None
        },
        None => None,
    }
}

/// The member `name`, where it is a text, or else `fallback`.
pub open spec fn text_or(value: JsonModel, name: Seq<char>, fallback: Seq<char>) -> Seq<char> {
    match value.text_at(name) {
        Some(t) => t,
        None => fallback,
    }
}

/// The member `name`, where it is a truth value, or else `default`.
pub open spec fn bool_or(value: JsonModel, name: Seq<char>, default: bool) -> bool {
    match value.bool_at(name) {
        Some(b) => b,
        None => default,
    }
}

/// The member `name`, where it is a whole number that is not negative, or else `default`.
pub open spec fn u64_or(value: JsonModel, name: Seq<char>, default: u64) -> u64 {
    match value.u64_at(name) {
        Some(n) => n,
        None => default,
    }
}

/// The argument `name`, which has to be there.
pub fn required_arg<'a>(arguments: &'a Json, name: &str) -> (found: Result<&'a Json, McpError>)
    ensures
        result_model(found) == (match arguments.model().get(name@) {
            Some(value) => Ok(value),
            None => Err(missing_argument(name@)),
        }),
{
    match arguments.get(name) {
        Some(value) => Ok(value),
        None => {
            let message = concat3("missing required argument `", name, "`");
            Err(McpError::invalid_params(message.as_str()))
        },
    }
}

/// The refusal of a document without the field `name`.
fn missing_field_error(name: &str) -> (error: McpError)
    ensures
        error.deep_view() == missing_field(name@),
{
    let message = concat3("missing required field `", name, "`");
    McpError::invalid_params(message.as_str())
}

/// The field `name`, which has to be a text with something other than white space in it.
pub fn required_string_field(value: &Json, name: &str) -> (found: Result<String, McpError>)
    ensures
        result_model(found) == (match filled_text(value.model(), name@) {
            Some(t) => Ok(t),
            None => Err(missing_field(name@)),
        }),
{
    match value.text_at(name) {
        Some(t) => if trim(t).as_str().is_empty() {
            Err(missing_field_error(name))
        } else {
            Ok(t.to_string())
        },
        None => Err(missing_field_error(name)),
    }
}

/// The field `name`, which has to be a truth value.
pub fn required_bool_field(value: &Json, name: &str) -> (found: Result<bool, McpError>)
    ensures
        result_model(found) == (match value.model().bool_at(name@) {
            Some(b) => Ok(b),
            None => Err(missing_field(name@)),
        }),
{
    match value.bool_at(name) {
        Some(b) => Ok(b),
        None => Err(missing_field_error(name)),
    }
}

/// The field `name`, which has to be a whole number that is not negative.
pub fn required_u64_field(value: &Json, name: &str) -> (found: Result<u64, McpError>)
    ensures
        result_model(found) == (match value.model().u64_at(name@) {
            Some(n) => Ok(n),
            None => Err(missing_field(name@)),
        }),
{
    match value.u64_at(name) {
        Some(n) => Ok(n),
        None => Err(missing_field_error(name)),
    }
}

/// The field `name`, or the empty text.
pub fn string_field(value: &Json, name: &str) -> (found: String)
    ensures
        found@ == text_or(value.model(), name@, Seq::empty()),
{
    match value.text_at(name) {
        Some(t) => t.to_string(),
        None => String::new(),
    }
}

/// The field `name`, or `fallback`.
pub fn string_field_with_fallback(value: &Json, name: &str, fallback: &str) -> (found: String)
    ensures
        found@ == text_or(value.model(), name@, fallback@),
{
    match value.text_at(name) {
        Some(t) => t.to_string(),
        None => fallback.to_string(),
    }
}

/// The field `name`, or `default`.
pub fn bool_field(value: &Json, name: &str, default: bool) -> (found: bool)
    ensures
        found == bool_or(value.model(), name@, default),
{
    match value.bool_at(name) {
        Some(b) => b,
        None => default,
    }
}

/// The field `name`, or `default`.
pub fn u64_field(value: &Json, name: &str, default: u64) -> (found: u64)
    ensures
        found == u64_or(value.model(), name@, default),
{
    match value.u64_at(name) {
        Some(n) => n,
        None => default,
    }
}

/// The member `name`, or null where there is none.
pub(crate) fn get_or_null<'a>(arguments: &'a Json, name: &str, null: &'a Json) -> (value: &'a Json)
    requires
        null.model() == JsonModel::Null,
    ensures
        value.model() == arguments.model().get_or_null(name@),
{
    match arguments.get(name) {
        Some(value) => value,
        None => null,
    }
}

/// The list of one code, where it applies, or else the empty list.
pub open spec fn code_if(applies: bool, code: Seq<char>) -> Seq<Seq<char>> {
    if applies {
        seq![code]
    } else {
        Seq::empty()
    }
}

/// Adds a code to a list, where it applies.
pub(crate) fn note_if(codes: &mut Vec<String>, applies: bool, code: &str)
    ensures
        views(final(codes)@) == views(old(codes)@) + code_if(applies, code@),
{
    let ghost before = codes@;
    if applies {
        codes.push(code.to_string());
    }
    proof {
        assert(views(codes@) =~= views(before) + code_if(applies, code@));
    }
}

} // verus!
