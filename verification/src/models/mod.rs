use vstd::prelude::*;

pub mod data;
pub mod entity;
pub mod error;
pub mod version;
pub mod version_info;

verus! {

/// The query parameter `include-schema`.
#[derive(Debug, Default, Clone, PartialEq)]
pub struct IncludeSchemaQuery {
    pub include_schema: bool,
}

/// A response body, with the JSON schema of its data where one was asked for.
pub struct ApiResponse<T> {
    pub data: T,
    pub schema: Option<serde_json::Value>,
}

} // verus!
