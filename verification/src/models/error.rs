use std::collections::HashMap;
use vstd::prelude::*;

verus! {

/// The standardized error codes of SOVD (ISO 17978-3).
#[derive(Debug, Clone, Copy, PartialEq, Eq, Hash, Structural)]
pub enum ErrorCode {
    ErrorResponse,
    IncompleteRequest,
    InsufficientAccessRights,
    InvalidResponseContent,
    InvalidSignature,
    LockBroken,
    NotResponding,
    PreconditionNotFulfilled,
    SovdServerFailure,
    SovdServerMisconfigured,
    UpdateAutomatedNotSupported,
    UpdateExecutionInProgress,
    UpdatePreparationInProgress,
    UpdateProcessInProgress,
    VendorSpecific,
}

/// The kebab-case name of an error code, as it is written on the wire.
pub open spec fn error_code_name(c: ErrorCode) -> Seq<char> {
    match c {
        ErrorCode::ErrorResponse => "error-response"@,
        ErrorCode::IncompleteRequest => "incomplete-request"@,
        ErrorCode::InsufficientAccessRights => "insufficient-access-rights"@,
        ErrorCode::InvalidResponseContent => "invalid-response-content"@,
        ErrorCode::InvalidSignature => "invalid-signature"@,
        ErrorCode::LockBroken => "lock-broken"@,
        ErrorCode::NotResponding => "not-responding"@,
        ErrorCode::PreconditionNotFulfilled => "precondition-not-fulfilled"@,
        ErrorCode::SovdServerFailure => "sovd-server-failure"@,
        ErrorCode::SovdServerMisconfigured => "sovd-server-misconfigured"@,
        ErrorCode::UpdateAutomatedNotSupported => "update-automated-not-supported"@,
        ErrorCode::UpdateExecutionInProgress => "update-execution-in-progress"@,
        ErrorCode::UpdatePreparationInProgress => "update-preparation-in-progress"@,
        ErrorCode::UpdateProcessInProgress => "update-process-in-progress"@,
        ErrorCode::VendorSpecific => "vendor-specific"@,
    }
}

impl ErrorCode {
    /// The kebab-case name of the code.
    pub fn as_str(&self) -> (r: &'static str)
        ensures
            r@ == error_code_name(*self),
    {
        match self {
            ErrorCode::ErrorResponse => "error-response",
            ErrorCode::IncompleteRequest => "incomplete-request",
            ErrorCode::InsufficientAccessRights => "insufficient-access-rights",
            ErrorCode::InvalidResponseContent => "invalid-response-content",
            ErrorCode::InvalidSignature => "invalid-signature",
            ErrorCode::LockBroken => "lock-broken",
            ErrorCode::NotResponding => "not-responding",
            ErrorCode::PreconditionNotFulfilled => "precondition-not-fulfilled",
            ErrorCode::SovdServerFailure => "sovd-server-failure",
            ErrorCode::SovdServerMisconfigured => "sovd-server-misconfigured",
            ErrorCode::UpdateAutomatedNotSupported => "update-automated-not-supported",
            ErrorCode::UpdateExecutionInProgress => "update-execution-in-progress",
            ErrorCode::UpdatePreparationInProgress => "update-preparation-in-progress",
            ErrorCode::UpdateProcessInProgress => "update-process-in-progress",
            ErrorCode::VendorSpecific => "vendor-specific",
        }
    }
}

/// The generic SOVD error body.
#[derive(Debug, Clone, PartialEq)]
pub struct GenericError {
    pub error_code: ErrorCode,
    pub vendor_code: Option<String>,
    pub message: String,
    pub translation_id: Option<String>,
    pub parameters: Option<HashMap<String, serde_json::Value>>,
}

/// The mathematical value of a [`GenericError`].
pub struct GenericErrorView {
    pub error_code: ErrorCode,
    pub vendor_code: Option<Seq<char>>,
    pub message: Seq<char>,
    pub translation_id: Option<Seq<char>>,
    pub parameters: Option<Map<String, serde_json::Value>>,
}

impl View for GenericError {
    type V = GenericErrorView;

    open spec fn view(&self) -> GenericErrorView {
        GenericErrorView {
            error_code: self.error_code,
            vendor_code: self.vendor_code.deep_view(),
            message: self.message@,
            translation_id: self.translation_id.deep_view(),
            parameters: match self.parameters {
                Some(p) => Some(p@),
                None => None,
            },
        }
    }
}

} // verus!
