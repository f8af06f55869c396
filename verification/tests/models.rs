use std::collections::HashMap;

use serde_json::Value;
use sovd::models::data::{is_valid_vendor_category, DataCategory, DataCategoryError, DataError, DataErrorCode};
use sovd::models::error::ErrorCode;

#[test]
fn test_valid_vendor_categories() {
    assert!(DataCategory::new_vendor("x-vendor").is_ok());
    assert!(DataCategory::new_vendor("x-vendor-engine").is_ok());
    assert!(DataCategory::new_vendor("x-test123").is_ok());
    assert!(DataCategory::new_vendor("x-under_score").is_ok());

    let vendor = DataCategory::new_vendor("x-test").unwrap();
    assert_eq!(vendor.to_string(), "x-test");
}

#[test]
fn test_invalid_vendor_categories() {
    assert!(DataCategory::new_vendor("no-prefix").is_err());
    assert!(DataCategory::new_vendor("liebherr").is_err());

    assert!(DataCategory::new_vendor("x-").is_err());

    assert!(DataCategory::new_vendor("x-sovd-").is_err());
    assert!(DataCategory::new_vendor("x-sovd-custom").is_err());
    assert!(DataCategory::new_vendor("x-sovd-anything").is_err());

    assert!(DataCategory::new_vendor("x-test--double").is_err());
    assert!(DataCategory::new_vendor("x---triple").is_err());

    assert!(DataCategory::new_vendor("x-test-").is_err());

    assert!(DataCategory::new_vendor("x-UPPER").is_err());
    assert!(DataCategory::new_vendor("x-Mixed").is_err());

    assert!(DataCategory::new_vendor("x-space here").is_err());
    assert!(DataCategory::new_vendor("x-special@").is_err());
    assert!(DataCategory::new_vendor("x-dot.here").is_err());
    assert!(DataCategory::new_vendor("x-slash/here").is_err());

    assert!(DataCategory::new_vendor("y-wrong").is_err());
    assert!(DataCategory::new_vendor("X-wrong").is_err());

    assert!(DataCategory::new_vendor("").is_err());
    assert!(DataCategory::new_vendor("x").is_err());
    assert!(DataCategory::new_vendor("-test").is_err());
}

#[test]
fn test_not_found_error_creation() {
    let error = DataError::not_found("Item not found");

    assert_eq!(error.error.error_code, ErrorCode::VendorSpecific);
    assert_eq!(error.error.vendor_code, Some(DataErrorCode::DataNotFound.to_string()));
    assert_eq!(error.error.message, "Item not found");
    assert_eq!(error.path, "");
    assert!(error.error.parameters.is_none());
}

#[test]
fn test_read_only_error_creation() {
    let error = DataError::read_only("Cannot modify read-only data");

    assert_eq!(error.error.error_code, ErrorCode::InsufficientAccessRights);
    assert_eq!(error.error.message, "Cannot modify read-only data");
    assert_eq!(error.path, "");
    assert!(error.error.parameters.is_none());
}

#[test]
fn test_invalid_format_error_creation() {
    let error = DataError::invalid_format("Invalid JSON format");

    assert_eq!(error.error.error_code, ErrorCode::InvalidResponseContent);
    assert_eq!(error.error.message, "Invalid JSON format");
    assert_eq!(error.path, "");
    assert!(error.error.parameters.is_none());
}

#[test]
fn test_access_denied_error_creation() {
    let error = DataError::access_denied("Insufficient permissions");

    assert_eq!(error.error.error_code, ErrorCode::InsufficientAccessRights);
    assert_eq!(error.error.message, "Insufficient permissions");
    assert_eq!(error.path, "");
    assert!(error.error.parameters.is_none());
}

#[test]
fn test_internal_error_creation() {
    let error = DataError::internal_error("Internal server error");

    assert_eq!(error.error.error_code, ErrorCode::SovdServerFailure);
    assert_eq!(error.error.message, "Internal server error");
    assert_eq!(error.path, "");
    assert!(error.error.parameters.is_none());
}

#[test]
fn test_with_path_builder() {
    let error = DataError::not_found("Item not found").with_path("/data/items/42");

    assert_eq!(error.path, "/data/items/42");
    assert_eq!(error.error.vendor_code, Some(DataErrorCode::DataNotFound.to_string()));
    assert_eq!(error.error.message, "Item not found");
}

#[test]
fn test_with_parameters_builder() {
    let mut params = HashMap::new();
    params.insert("item_id".to_string(), Value::from("42"));
    params.insert("expected_type".to_string(), Value::from("string"));

    let error = DataError::invalid_format("Type mismatch").with_parameters(params.clone());

    assert!(error.error.parameters.is_some());
    let error_params = error.error.parameters.as_ref().unwrap();
    assert_eq!(error_params.get("item_id"), Some(&Value::from("42")));
    assert_eq!(error_params.get("expected_type"), Some(&Value::from("string")));
}

#[test]
fn test_chaining_builders() {
    let mut params = HashMap::new();
    params.insert("retry_after".to_string(), Value::from(30));

    let error = DataError::access_denied("Rate limit exceeded")
        .with_path("/api/data")
        .with_parameters(params);

    assert_eq!(error.error.error_code, ErrorCode::InsufficientAccessRights);
    assert_eq!(error.error.message, "Rate limit exceeded");
    assert_eq!(error.path, "/api/data");
    assert!(error.error.parameters.is_some());
    assert_eq!(error.error.parameters.as_ref().unwrap().get("retry_after"), Some(&Value::from(30)));
}

#[test]
fn test_builder_pattern_with_string_types() {
    let string = String::from("Dynamic path");
    let str_ref = "Static path";

    let error1 = DataError::not_found("Not found").with_path(string);
    let error2 = DataError::not_found("Not found").with_path(str_ref);

    assert_eq!(error1.path, "Dynamic path");
    assert_eq!(error2.path, "Static path");
}

#[test]
fn standard_category_names() {
    assert_eq!(DataCategory::IdentData.to_string(), "identData");
    assert_eq!(DataCategory::CurrentData.to_string(), "currentData");
    assert_eq!(DataCategory::StoredData.to_string(), "storedData");
    assert_eq!(DataCategory::SysInfo.to_string(), "sysInfo");
}

#[test]
fn invalid_vendor_category_message() {
    match DataCategory::new_vendor("x-UPPER") {
        Err(e) => {
            assert_eq!(e, DataCategoryError::InvalidFormat("x-UPPER".to_string()));
            assert_eq!(e.to_string(), "Invalid vendor category format: 'x-UPPER'.");
        }
        Ok(_) => panic!("x-UPPER is no valid vendor category"),
    }
}

#[test]
fn data_error_code_names() {
    assert_eq!(DataErrorCode::DataNotFound.to_string(), "data-not-found");
    assert_eq!(DataErrorCode::DataReadOnly.to_string(), "data-read-only");
    assert_eq!(DataErrorCode::InvalidDataFormat.to_string(), "invalid-data-format");
    assert_eq!(DataErrorCode::AccessDenied.to_string(), "access-denied");
    assert_eq!(DataErrorCode::InternalError.to_string(), "internal-error");
}

#[test]
fn error_code_wire_names() {
    assert_eq!(ErrorCode::VendorSpecific.as_str(), "vendor-specific");
    assert_eq!(ErrorCode::InvalidResponseContent.as_str(), "invalid-response-content");
    assert_eq!(ErrorCode::SovdServerFailure.as_str(), "sovd-server-failure");
}

#[test]
fn vendor_category_validation_edges() {
    assert!(is_valid_vendor_category("x-a"));
    assert!(is_valid_vendor_category("x-a-b_9"));
    assert!(!is_valid_vendor_category("x-sovd-x"));
    assert!(is_valid_vendor_category("x-sovdx"));
    assert!(!is_valid_vendor_category("x-a--b"));
    assert!(!is_valid_vendor_category("x--a"));
}
