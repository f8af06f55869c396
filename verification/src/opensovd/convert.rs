use vstd::prelude::*;

use crate::json::{json_from_text, parsed_json};
use crate::models::error::ErrorCode;
use crate::opensovd::resources::{DataError, DataErrorResponse, DataItem, DataResourceItem, ResourceError};
use crate::server::response::{ApiError, VendorError};

verus! {

/// The code, vendor code and message a data error is answered with.
pub open spec fn data_error_parts(e: DataError) -> (ErrorCode, Option<serde_json::Value>, Seq<char>) {
    match e {
        DataError::DataNotFound(id) => (
            ErrorCode::VendorSpecific,
            Some(parsed_json("\"data-not-found\""@)),
            "Data item not found: "@ + id@,
        ),
        DataError::ReadOnly(id) => (ErrorCode::InsufficientAccessRights, None, "Data item is read-only: "@ + id@),
        DataError::AccessDenied(id) => (ErrorCode::InsufficientAccessRights, None, "Access denied: "@ + id@),
        DataError::InvalidData(m) => (ErrorCode::IncompleteRequest, None, "Invalid data: "@ + m@),
        DataError::InternalError(m) => (ErrorCode::SovdServerFailure, None, "Internal error: "@ + m@),
    }
}

/// The response for a data error: no path, and the code, vendor code and
/// message of [`data_error_parts`].
pub fn data_error_to_response(data_error: DataError) -> (r: DataErrorResponse)
    ensures
        r.path is None,
        r.error.error_code == data_error_parts(data_error).0,
        r.error.vendor_code == data_error_parts(data_error).1,
        r.error.message@ == data_error_parts(data_error).2,
        r.error.transaction_id is None,
        r.error.parameters is None,
{
    let (error_code, vendor_code, message) = match data_error {
        DataError::DataNotFound(id) => (
            ErrorCode::VendorSpecific,
            Some(json_from_text("\"data-not-found\"")),
            String::from_str("Data item not found: ").concat(id.as_str()),
        ),
        DataError::ReadOnly(id) => (
            ErrorCode::InsufficientAccessRights,
            None,
            String::from_str("Data item is read-only: ").concat(id.as_str()),
        ),
        DataError::AccessDenied(id) => (
            ErrorCode::InsufficientAccessRights,
            None,
            String::from_str("Access denied: ").concat(id.as_str()),
        ),
        DataError::InvalidData(m) => (
            ErrorCode::IncompleteRequest,
            None,
            String::from_str("Invalid data: ").concat(m.as_str()),
        ),
        DataError::InternalError(m) => (
            ErrorCode::SovdServerFailure,
            None,
            String::from_str("Internal error: ").concat(m.as_str()),
        ),
    };
    DataErrorResponse {
        path: None,
        error: ResourceError { error_code, message, vendor_code, transaction_id: None, parameters: None },
    }
}

/// The code, message and vendor code of the API error for a data error: not
/// found for a missing item, a bad request for a read-only item or invalid
/// data, forbidden for denied access and a server failure for an internal error.
pub open spec fn api_error_parts(e: DataError) -> (ErrorCode, Seq<char>, Option<VendorError>) {
    match e {
        DataError::DataNotFound(m) => (ErrorCode::VendorSpecific, m@, Some(VendorError::NotFound)),
        DataError::ReadOnly(m) => (ErrorCode::IncompleteRequest, "Cannot write to read-only data: "@ + m@, None),
        DataError::AccessDenied(m) => (ErrorCode::InsufficientAccessRights, m@, None),
        DataError::InvalidData(m) => (ErrorCode::IncompleteRequest, m@, None),
        DataError::InternalError(m) => (ErrorCode::SovdServerFailure, m@, None),
    }
}

impl From<DataError> for ApiError {
    /// The API error for a data error, as [`api_error_parts`] gives it, with no
    /// transaction identifier or parameters.
    fn from(data_error: DataError) -> (r: Self)
        ensures
            r@ == crate::server::response::error_spec(
                api_error_parts(data_error).0,
                api_error_parts(data_error).1,
                api_error_parts(data_error).2,
            ),
    {
        match data_error {
            DataError::DataNotFound(m) => ApiError::not_found(m),
            DataError::ReadOnly(m) => ApiError::bad_request(
                String::from_str("Cannot write to read-only data: ").concat(m.as_str()),
            ),
            DataError::AccessDenied(m) => ApiError::forbidden(m),
            DataError::InvalidData(m) => ApiError::bad_request(m),
            DataError::InternalError(m) => ApiError::server_failure(m),
        }
    }
}

impl vstd::std_specs::convert::FromSpecImpl<DataError> for ApiError {
    open spec fn obeys_from_spec() -> bool {
        false
    }

    open spec fn from_spec(v: DataError) -> ApiError {
        vstd::pervasive::arbitrary()
    }
}

/// The item as the API lists it: the same fields, with no translation identifier.
pub fn data_item_to_resource_item(item: DataItem) -> (r: DataResourceItem)
    ensures
        r.id == item.id,
        r.name == item.name,
        r.translation_id is None,
        r.category == item.category,
        r.groups == item.groups,
        r.tags == item.tags,
{
    DataResourceItem {
        id: item.id,
        name: item.name,
        translation_id: None,
        category: item.category,
        groups: item.groups,
        tags: item.tags,
    }
}

/// The items as the API lists them, in order.
pub fn data_items_to_resource_items(items: Vec<DataItem>) -> (r: Vec<DataResourceItem>)
    ensures
        r@.len() == items@.len(),
        forall|i: int| 0 <= i < items@.len() ==> {
            &&& (#[trigger] r@[i]).id == items@[i].id
            &&& r@[i].name == items@[i].name
            &&& r@[i].translation_id is None
            &&& r@[i].category == items@[i].category
            &&& r@[i].groups == items@[i].groups
            &&& r@[i].tags == items@[i].tags
        },
{
    let ghost src = items@;
    let mut rest = items;
    let mut out: Vec<DataResourceItem> = Vec::new();
    while rest.len() > 0
        invariant
            out@.len() + rest@.len() == src.len(),
            rest@ == src.skip(out@.len() as int),
            forall|i: int| 0 <= i < out@.len() ==> {
                &&& (#[trigger] out@[i]).id == src[i].id
                &&& out@[i].name == src[i].name
                &&& out@[i].translation_id is None
                &&& out@[i].category == src[i].category
                &&& out@[i].groups == src[i].groups
                &&& out@[i].tags == src[i].tags
            },
        decreases rest@.len(),
    {
        let item = rest.remove(0);
        let ghost n = out@.len();
        out.push(data_item_to_resource_item(item));
        assert(rest@ =~= src.skip(n as int + 1));
    }
    out
}

} // verus!
