//! Why a service refuses a request.

use crate::text::concat3;
use vstd::prelude::*;

verus! {

/// HTTP: there is nothing under that name.
pub const NOT_FOUND: u16 = 404;

/// HTTP: the request makes no sense.
pub const BAD_REQUEST: u16 = 400;

/// A refusal: the HTTP status, a code for programs and a message for people.
#[derive(Debug)]
pub struct ApiError {
    pub status: u16,
    pub code: &'static str,
    pub message: String,
}

pub struct ApiErrorModel {
    pub status: u16,
    pub code: Seq<char>,
    pub message: Seq<char>,
}

impl DeepView for ApiError {
    type V = ApiErrorModel;

    open spec fn deep_view(&self) -> ApiErrorModel {
        ApiErrorModel { status: self.status, code: self.code@, message: self.message@ }
    }
}

pub open spec fn not_found(code: Seq<char>, message: Seq<char>) -> ApiErrorModel {
    ApiErrorModel { status: NOT_FOUND, code, message }
}

pub open spec fn customer_not_found(customer_id: Seq<char>) -> ApiErrorModel {
    not_found("CUSTOMER_NOT_FOUND"@, "customer "@ + customer_id + " was not found"@)
}

pub open spec fn bad_request(message: Seq<char>) -> ApiErrorModel {
    ApiErrorModel { status: BAD_REQUEST, code: "INVALID_DECISION_REQUEST"@, message }
}

impl ApiError {
    pub fn not_found(code: &'static str, message: &str) -> (error: ApiError)
        ensures
            error.deep_view() == not_found(code@, message@),
    {
        ApiError { status: NOT_FOUND, code, message: message.to_string() }
    }

    pub fn customer_not_found(customer_id: &str) -> (error: ApiError)
        ensures
            error.deep_view() == customer_not_found(customer_id@),
    {
        let message = concat3("customer ", customer_id, " was not found");
        ApiError::not_found("CUSTOMER_NOT_FOUND", message.as_str())
    }

    pub fn bad_request(message: &str) -> (error: ApiError)
        ensures
            error.deep_view() == bad_request(message@),
    {
        ApiError {
            status: BAD_REQUEST,
            code: "INVALID_DECISION_REQUEST",
            message: message.to_string(),
        }
    }
}

} // verus!
