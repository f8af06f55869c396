use std::collections::HashMap;
use vstd::prelude::*;

use crate::models::error::ErrorCode;
use crate::text::{contains_text, has_substring, IntoText};

verus! {

/// Vendor-specific error codes of the server.
#[derive(Debug, Clone, Copy, PartialEq, Eq, Structural)]
pub enum VendorError {
    InternalError,
    NotFound,
}

/// The body of an API error: an SOVD error with the server's vendor codes.
#[derive(Debug, Clone)]
pub struct ErrorBody {
    pub error_code: ErrorCode,
    pub message: String,
    pub vendor_code: Option<VendorError>,
    pub transaction_id: Option<String>,
    pub parameters: Option<HashMap<String, serde_json::Value>>,
}

/// The mathematical value of an [`ErrorBody`].
pub struct ErrorBodyView {
    pub error_code: ErrorCode,
    pub message: Seq<char>,
    pub vendor_code: Option<VendorError>,
    pub transaction_id: Option<Seq<char>>,
    pub parameters: Option<Map<String, serde_json::Value>>,
}

impl View for ErrorBody {
    type V = ErrorBodyView;

    open spec fn view(&self) -> ErrorBodyView {
        ErrorBodyView {
            error_code: self.error_code,
            message: self.message@,
            vendor_code: self.vendor_code,
            transaction_id: self.transaction_id.deep_view(),
            parameters: match self.parameters {
                Some(p) => Some(p@),
                None => None,
            },
        }
    }
}

/// An error answered by the server.
#[derive(Debug)]
pub struct ApiError(pub ErrorBody);

impl View for ApiError {
    type V = ErrorBodyView;

    open spec fn view(&self) -> ErrorBodyView {
        self.0@
    }
}

/// The error body with the given code, message and vendor code, and nothing else.
pub open spec fn error_spec(code: ErrorCode, message: Seq<char>, vendor_code: Option<VendorError>) -> ErrorBodyView {
    ErrorBodyView { error_code: code, message, vendor_code, transaction_id: None, parameters: None }
}

/// The HTTP status an error is answered with.
pub open spec fn status_for(code: ErrorCode, vendor_code: Option<VendorError>) -> u16 {
    match code {
        ErrorCode::IncompleteRequest => 400,
        ErrorCode::InsufficientAccessRights => 403,
        ErrorCode::InvalidResponseContent => 422,
        ErrorCode::InvalidSignature => 401,
        ErrorCode::LockBroken => 409,
        ErrorCode::NotResponding => 503,
        ErrorCode::PreconditionNotFulfilled => 412,
        ErrorCode::SovdServerFailure => 500,
        ErrorCode::SovdServerMisconfigured => 500,
        ErrorCode::UpdateAutomatedNotSupported => 501,
        ErrorCode::UpdateExecutionInProgress => 409,
        ErrorCode::UpdatePreparationInProgress => 409,
        ErrorCode::UpdateProcessInProgress => 409,
        ErrorCode::VendorSpecific => match vendor_code {
            Some(VendorError::InternalError) => 500,
            Some(VendorError::NotFound) => 404,
            None => 500,
        },
        ErrorCode::ErrorResponse => 500,
    }
}

/// The name of an error code as `Debug` writes it.
pub open spec fn error_code_debug_name(c: ErrorCode) -> Seq<char> {
    match c {
        ErrorCode::ErrorResponse => "ErrorResponse"@,
        ErrorCode::IncompleteRequest => "IncompleteRequest"@,
        ErrorCode::InsufficientAccessRights => "InsufficientAccessRights"@,
        ErrorCode::InvalidResponseContent => "InvalidResponseContent"@,
        ErrorCode::InvalidSignature => "InvalidSignature"@,
        ErrorCode::LockBroken => "LockBroken"@,
        ErrorCode::NotResponding => "NotResponding"@,
        ErrorCode::PreconditionNotFulfilled => "PreconditionNotFulfilled"@,
        ErrorCode::SovdServerFailure => "SovdServerFailure"@,
        ErrorCode::SovdServerMisconfigured => "SovdServerMisconfigured"@,
        ErrorCode::UpdateAutomatedNotSupported => "UpdateAutomatedNotSupported"@,
        ErrorCode::UpdateExecutionInProgress => "UpdateExecutionInProgress"@,
        ErrorCode::UpdatePreparationInProgress => "UpdatePreparationInProgress"@,
        ErrorCode::UpdateProcessInProgress => "UpdateProcessInProgress"@,
        ErrorCode::VendorSpecific => "VendorSpecific"@,
    }
}

fn error_code_debug_str(c: ErrorCode) -> (r: &'static str)
    ensures
        r@ == error_code_debug_name(c),
{
    match c {
        ErrorCode::ErrorResponse => "ErrorResponse",
        ErrorCode::IncompleteRequest => "IncompleteRequest",
        ErrorCode::InsufficientAccessRights => "InsufficientAccessRights",
        ErrorCode::InvalidResponseContent => "InvalidResponseContent",
        ErrorCode::InvalidSignature => "InvalidSignature",
        ErrorCode::LockBroken => "LockBroken",
        ErrorCode::NotResponding => "NotResponding",
        ErrorCode::PreconditionNotFulfilled => "PreconditionNotFulfilled",
        ErrorCode::SovdServerFailure => "SovdServerFailure",
        ErrorCode::SovdServerMisconfigured => "SovdServerMisconfigured",
        ErrorCode::UpdateAutomatedNotSupported => "UpdateAutomatedNotSupported",
        ErrorCode::UpdateExecutionInProgress => "UpdateExecutionInProgress",
        ErrorCode::UpdatePreparationInProgress => "UpdatePreparationInProgress",
        ErrorCode::UpdateProcessInProgress => "UpdateProcessInProgress",
        ErrorCode::VendorSpecific => "VendorSpecific",
    }
}

impl ApiError {
    /// An error with a standard code and no vendor code.
    pub fn new<M: IntoText>(error_code: ErrorCode, message: M) -> (r: Self)
        ensures
            r@ == error_spec(error_code, message.text_view(), None),
    {
        ApiError(ErrorBody {
            error_code,
            message: message.into_text(),
            vendor_code: None,
            transaction_id: None,
            parameters: None,
        })
    }

    /// A vendor-specific error.
    pub fn vendor<M: IntoText>(vendor_error: VendorError, message: M) -> (r: Self)
        ensures
            r@ == error_spec(ErrorCode::VendorSpecific, message.text_view(), Some(vendor_error)),
    {
        ApiError(ErrorBody {
            error_code: ErrorCode::VendorSpecific,
            message: message.into_text(),
            vendor_code: Some(vendor_error),
            transaction_id: None,
            parameters: None,
        })
    }

    /// An internal error of the server (vendor code `InternalError`).
    pub fn internal_error<M: IntoText>(message: M) -> (r: Self)
        ensures
            r@ == error_spec(ErrorCode::VendorSpecific, message.text_view(), Some(VendorError::InternalError)),
    {
        Self::vendor(VendorError::InternalError, message)
    }

    /// A resource that is not there (vendor code `NotFound`).
    pub fn not_found<M: IntoText>(message: M) -> (r: Self)
        ensures
            r@ == error_spec(ErrorCode::VendorSpecific, message.text_view(), Some(VendorError::NotFound)),
    {
        Self::vendor(VendorError::NotFound, message)
    }

    /// Insufficient access rights.
    pub fn forbidden<M: IntoText>(message: M) -> (r: Self)
        ensures
            r@ == error_spec(ErrorCode::InsufficientAccessRights, message.text_view(), None),
    {
        ApiError::new(ErrorCode::InsufficientAccessRights, message)
    }

    /// An incomplete request.
    pub fn bad_request<M: IntoText>(message: M) -> (r: Self)
        ensures
            r@ == error_spec(ErrorCode::IncompleteRequest, message.text_view(), None),
    {
        ApiError::new(ErrorCode::IncompleteRequest, message)
    }

    /// A failure of the server.
    pub fn server_failure<M: IntoText>(message: M) -> (r: Self)
        ensures
            r@ == error_spec(ErrorCode::SovdServerFailure, message.text_view(), None),
    {
        ApiError::new(ErrorCode::SovdServerFailure, message)
    }

    /// A misconfigured server.
    pub fn server_misconfigured<M: IntoText>(message: M) -> (r: Self)
        ensures
            r@ == error_spec(ErrorCode::SovdServerMisconfigured, message.text_view(), None),
    {
        ApiError::new(ErrorCode::SovdServerMisconfigured, message)
    }

    /// A precondition that is not fulfilled.
    pub fn precondition_failed<M: IntoText>(message: M) -> (r: Self)
        ensures
            r@ == error_spec(ErrorCode::PreconditionNotFulfilled, message.text_view(), None),
    {
        ApiError::new(ErrorCode::PreconditionNotFulfilled, message)
    }

    /// A service that does not respond.
    pub fn service_unavailable<M: IntoText>(message: M) -> (r: Self)
        ensures
            r@ == error_spec(ErrorCode::NotResponding, message.text_view(), None),
    {
        ApiError::new(ErrorCode::NotResponding, message)
    }

    /// A request without valid credentials.
    pub fn unauthorized<M: IntoText>(message: M) -> (r: Self)
        ensures
            r@ == error_spec(ErrorCode::InvalidSignature, message.text_view(), None),
    {
        ApiError::new(ErrorCode::InvalidSignature, message)
    }

    /// The HTTP status the error is answered with.
    pub fn status_code(&self) -> (r: u16)
        ensures
            r == status_for(self.0.error_code, self.0.vendor_code),
    {
        match self.0.error_code {
            ErrorCode::IncompleteRequest => 400,
            ErrorCode::InsufficientAccessRights => 403,
            ErrorCode::InvalidResponseContent => 422,
            ErrorCode::InvalidSignature => 401,
            ErrorCode::LockBroken => 409,
            ErrorCode::NotResponding => 503,
            ErrorCode::PreconditionNotFulfilled => 412,
            ErrorCode::SovdServerFailure => 500,
            ErrorCode::SovdServerMisconfigured => 500,
            ErrorCode::UpdateAutomatedNotSupported => 501,
            ErrorCode::UpdateExecutionInProgress => 409,
            ErrorCode::UpdatePreparationInProgress => 409,
            ErrorCode::UpdateProcessInProgress => 409,
            ErrorCode::VendorSpecific => match self.0.vendor_code {
                Some(VendorError::InternalError) => 500,
                Some(VendorError::NotFound) => 404,
                None => 500,
            },
            ErrorCode::ErrorResponse => 500,
        }
    }

    /// The text of the error: the code as `Debug` writes it, `: ` and the message.
    pub fn to_string(&self) -> (r: String)
        ensures
            r@ == error_code_debug_name(self.0.error_code) + ": "@ + self.0.message@,
    {
        let r = String::from_str(error_code_debug_str(self.0.error_code));
        let r = r.concat(": ");
        r.concat(self.0.message.as_str())
    }
}

/// Whether a query string asks for the JSON schema: it holds `include-schema=true`.
pub open spec fn schema_requested(query: Seq<char>) -> bool {
    has_substring(query, "include-schema=true"@)
}

/// Whether a query string asks for the JSON schema.
pub fn query_requests_schema(query: &str) -> (r: bool)
    ensures
        r == schema_requested(query@),
{
    contains_text(query, "include-schema=true")
}

} // verus!
