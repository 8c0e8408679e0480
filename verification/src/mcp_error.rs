//! Why a tool or a method call is refused.

use crate::text::concat3;
use vstd::prelude::*;

verus! {

/// A refusal: its JSON-RPC error code and a message.
#[derive(Debug)]
pub struct McpError {
    pub code: i32,
    pub message: String,
}

pub struct McpErrorModel {
    pub code: i32,
    pub message: Seq<char>,
}

impl DeepView for McpError {
    type V = McpErrorModel;

    open spec fn deep_view(&self) -> McpErrorModel {
        McpErrorModel { code: self.code, message: self.message@ }
    }
}

/// JSON-RPC: the parameters of the call are not valid.
pub const INVALID_PARAMS: i32 = -32602;

/// JSON-RPC: there is no such method.
pub const METHOD_NOT_FOUND: i32 = -32601;

/// JSON-RPC: the request itself is not valid.
pub const INVALID_REQUEST: i32 = -32600;

pub open spec fn invalid_params(message: Seq<char>) -> McpErrorModel {
    McpErrorModel { code: INVALID_PARAMS, message }
}

pub open spec fn method_not_found(method: Seq<char>) -> McpErrorModel {
    McpErrorModel { code: METHOD_NOT_FOUND, message: "method `"@ + method + "` not found"@ }
}

pub open spec fn tool_not_found(name: Seq<char>) -> McpErrorModel {
    McpErrorModel { code: INVALID_PARAMS, message: "tool `"@ + name + "` not found"@ }
}

impl McpError {
    pub fn invalid_params(message: &str) -> (error: McpError)
        ensures
            error.deep_view() == invalid_params(message@),
    {
        McpError { code: INVALID_PARAMS, message: message.to_string() }
    }

    pub fn method_not_found(method: &str) -> (error: McpError)
        ensures
            error.deep_view() == method_not_found(method@),
    {
        McpError { code: METHOD_NOT_FOUND, message: concat3("method `", method, "` not found") }
    }

    pub fn tool_not_found(name: &str) -> (error: McpError)
        ensures
            error.deep_view() == tool_not_found(name@),
    {
        McpError { code: INVALID_PARAMS, message: concat3("tool `", name, "` not found") }
    }
}

} // verus!
