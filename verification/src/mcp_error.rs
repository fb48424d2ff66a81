use vstd::prelude::*;

use crate::json::{text_of_json, Json, JsonModel};

verus! {

/// The JSON-RPC code of an "invalid params" error, as rmcp defines it.
pub open spec fn invalid_params_code() -> int {
    -32602
}

/// The JSON-RPC code of an "internal error", as rmcp defines it.
pub open spec fn internal_error_code() -> int {
    -32603
}

/// Reads `rmcp::model::ErrorCode::INVALID_PARAMS`; rmcp defines it as
/// `ErrorCode(-32602)`.
#[verifier::external_body]
fn rmcp_invalid_params_code() -> (c: i32)
    ensures
        c == invalid_params_code(),
{
    rmcp::model::ErrorCode::INVALID_PARAMS.0
}

/// Reads `rmcp::model::ErrorCode::INTERNAL_ERROR`; rmcp defines it as
/// `ErrorCode(-32603)`.
#[verifier::external_body]
fn rmcp_internal_error_code() -> (c: i32)
    ensures
        c == internal_error_code(),
{
    rmcp::model::ErrorCode::INTERNAL_ERROR.0
}

/// An error as an MCP client receives it: a JSON-RPC error code, a short
/// message and optional structured data.
#[derive(Debug, PartialEq, Eq)]
pub struct ErrorData {
    pub code: i32,
    pub message: String,
    pub data: Option<Json>,
}

/// The model of an [`ErrorData`].
pub struct ErrorDataModel {
    pub code: int,
    pub message: Seq<char>,
    pub data: Option<JsonModel>,
}

pub open spec fn option_model(data: Option<Json>) -> Option<JsonModel> {
    match data {
        Some(j) => Some(j.model()),
        None => None,
    }
}

impl ErrorData {
    pub open spec fn model(&self) -> ErrorDataModel {
        ErrorDataModel { code: self.code as int, message: self.message@, data: option_model(self.data) }
    }

    /// The compact JSON text of the error's data, if it has any.
    pub fn data_text(&self) -> (r: Option<String>)
        ensures
            match (r, self.data) {
                (Some(t), Some(d)) => t@ == text_of_json(d.model()),
                (None, None) => true,
                _ => false,
            },
    {
        match &self.data {
            Some(d) => Some(d.to_text()),
            None => None,
        }
    }

    /// An "invalid params" error.
    pub fn invalid_params(message: String, data: Option<Json>) -> (e: ErrorData)
        ensures
            e.model() == (ErrorDataModel {
                code: invalid_params_code(),
                message: message@,
                data: option_model(data),
            }),
    {
        ErrorData { code: rmcp_invalid_params_code(), message, data }
    }

    /// An "internal error".
    pub fn internal_error(message: String, data: Option<Json>) -> (e: ErrorData)
        ensures
            e.model() == (ErrorDataModel {
                code: internal_error_code(),
                message: message@,
                data: option_model(data),
            }),
    {
        ErrorData { code: rmcp_internal_error_code(), message, data }
    }
}

} // verus!
