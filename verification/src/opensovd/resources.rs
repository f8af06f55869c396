use vstd::prelude::*;

use crate::models::error::ErrorCode;

verus! {

/// An error of a data resource.
#[derive(Debug, Clone, PartialEq)]
pub enum DataError {
    /// The data item is not there.
    DataNotFound(String),
    /// The data item cannot be written.
    ReadOnly(String),
    /// Access to the data item was denied.
    AccessDenied(String),
    /// The data given is invalid.
    InvalidData(String),
    /// An internal error occurred.
    InternalError(String),
}

/// A data item of a diagnostic resource.
#[derive(Debug, Clone, PartialEq)]
pub struct DataItem {
    pub id: String,
    pub name: String,
    pub category: String,
    pub groups: Vec<String>,
    pub tags: Vec<String>,
}

/// A data item as the API lists it.
#[derive(Debug, Clone, PartialEq)]
pub struct DataResourceItem {
    pub id: String,
    pub name: String,
    pub translation_id: Option<String>,
    pub category: String,
    pub groups: Vec<String>,
    pub tags: Vec<String>,
}

/// The body of a data error response: an SOVD error whose vendor code is a JSON value.
#[derive(Debug, Clone, PartialEq)]
pub struct ResourceError {
    pub error_code: ErrorCode,
    pub message: String,
    pub vendor_code: Option<serde_json::Value>,
    pub transaction_id: Option<String>,
    pub parameters: Option<serde_json::Value>,
}

/// A data error as the API answers it.
#[derive(Debug, Clone, PartialEq)]
pub struct DataErrorResponse {
    pub path: Option<String>,
    pub error: ResourceError,
}

} // verus!
