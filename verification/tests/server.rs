use http::StatusCode;
use serde_json::Value;
use sovd::diagnostic::diagnostic::{Diagnostic, DiagnosticBuilder};
use sovd::gateway::components::MockDataService;
use sovd::gateway::mock::create_mock_components;
use sovd::models::data::{DataCategory, DataError, DataGroupQuery, DataResourceQuery};
use sovd::models::entity::EntityQuery;
use sovd::models::error::ErrorCode;
use sovd::models::version::VendorInfo;
use sovd::server::config::{first_refused_key, AuthInfo, ServerConfig, ServerConfigError};
use sovd::server::convert::{parse_categories, parse_single_category};
use sovd::server::data::{
    data_list_arguments, get_data_value, list_data_categories, list_data_groups, list_data_resources, set_data_value,
};
use sovd::server::response::{query_requests_schema, ApiError, VendorError};
use sovd::server::routes::{
    component_capabilities, list_entities, list_hosts, root_capabilities, trim_end_slashes, version_response, BaseUri,
};

#[test]
fn test_api_error_default() {
    let error = ApiError::new(ErrorCode::SovdServerFailure, "test");
    assert_eq!(error.0.error_code, ErrorCode::SovdServerFailure);
    assert_eq!(error.0.message, "test");
    assert!(error.0.vendor_code.is_none());
    assert!(error.0.transaction_id.is_none());
    assert!(error.0.parameters.is_none());
}

#[test]
fn test_status_code_exhaustive() {
    assert_eq!(ApiError::new(ErrorCode::ErrorResponse, "msg").status_code(), StatusCode::INTERNAL_SERVER_ERROR.as_u16());
    assert_eq!(ApiError::new(ErrorCode::IncompleteRequest, "msg").status_code(), StatusCode::BAD_REQUEST.as_u16());
    assert_eq!(ApiError::new(ErrorCode::InsufficientAccessRights, "msg").status_code(), StatusCode::FORBIDDEN.as_u16());
    assert_eq!(
        ApiError::new(ErrorCode::InvalidResponseContent, "msg").status_code(),
        StatusCode::UNPROCESSABLE_ENTITY.as_u16()
    );
    assert_eq!(ApiError::new(ErrorCode::InvalidSignature, "msg").status_code(), StatusCode::UNAUTHORIZED.as_u16());
    assert_eq!(ApiError::new(ErrorCode::LockBroken, "msg").status_code(), StatusCode::CONFLICT.as_u16());
    assert_eq!(ApiError::new(ErrorCode::NotResponding, "msg").status_code(), StatusCode::SERVICE_UNAVAILABLE.as_u16());
    assert_eq!(
        ApiError::new(ErrorCode::PreconditionNotFulfilled, "msg").status_code(),
        StatusCode::PRECONDITION_FAILED.as_u16()
    );
    assert_eq!(ApiError::new(ErrorCode::SovdServerFailure, "msg").status_code(), StatusCode::INTERNAL_SERVER_ERROR.as_u16());
    assert_eq!(
        ApiError::new(ErrorCode::SovdServerMisconfigured, "msg").status_code(),
        StatusCode::INTERNAL_SERVER_ERROR.as_u16()
    );
    assert_eq!(
        ApiError::new(ErrorCode::UpdateAutomatedNotSupported, "msg").status_code(),
        StatusCode::NOT_IMPLEMENTED.as_u16()
    );
    assert_eq!(ApiError::new(ErrorCode::UpdateExecutionInProgress, "msg").status_code(), StatusCode::CONFLICT.as_u16());
    assert_eq!(ApiError::new(ErrorCode::UpdatePreparationInProgress, "msg").status_code(), StatusCode::CONFLICT.as_u16());
    assert_eq!(ApiError::new(ErrorCode::UpdateProcessInProgress, "msg").status_code(), StatusCode::CONFLICT.as_u16());

    assert_eq!(ApiError::vendor(VendorError::InternalError, "msg").status_code(), StatusCode::INTERNAL_SERVER_ERROR.as_u16());
    assert_eq!(ApiError::vendor(VendorError::NotFound, "msg").status_code(), StatusCode::NOT_FOUND.as_u16());

    let mut vendor_no_code = ApiError::new(ErrorCode::VendorSpecific, "msg");
    vendor_no_code.0.vendor_code = None;
    assert_eq!(vendor_no_code.status_code(), StatusCode::INTERNAL_SERVER_ERROR.as_u16());
}

#[test]
fn test_api_error_all_methods() {
    let vendor_err = ApiError::vendor(VendorError::InternalError, "vendor");
    assert_eq!(vendor_err.0.error_code, ErrorCode::VendorSpecific);
    assert_eq!(vendor_err.0.message, "vendor");
    assert_eq!(vendor_err.0.vendor_code, Some(VendorError::InternalError));
    assert!(vendor_err.0.transaction_id.is_none());
    assert!(vendor_err.0.parameters.is_none());

    let internal = ApiError::internal_error("internal");
    assert_eq!(internal.0.error_code, ErrorCode::VendorSpecific);
    assert_eq!(internal.0.message, "internal");
    assert_eq!(internal.0.vendor_code, Some(VendorError::InternalError));
    assert!(internal.0.transaction_id.is_none());
    assert!(internal.0.parameters.is_none());

    let not_found = ApiError::not_found("missing");
    assert_eq!(not_found.0.error_code, ErrorCode::VendorSpecific);
    assert_eq!(not_found.0.message, "missing");
    assert_eq!(not_found.0.vendor_code, Some(VendorError::NotFound));
    assert!(not_found.0.transaction_id.is_none());
    assert!(not_found.0.parameters.is_none());

    let forbidden = ApiError::forbidden("denied");
    assert_eq!(forbidden.0.error_code, ErrorCode::InsufficientAccessRights);
    assert_eq!(forbidden.0.message, "denied");
    assert!(forbidden.0.vendor_code.is_none());
    assert!(forbidden.0.transaction_id.is_none());
    assert!(forbidden.0.parameters.is_none());

    let bad_req = ApiError::bad_request("invalid");
    assert_eq!(bad_req.0.error_code, ErrorCode::IncompleteRequest);
    assert_eq!(bad_req.0.message, "invalid");
    assert!(bad_req.0.vendor_code.is_none());
    assert!(bad_req.0.transaction_id.is_none());
    assert!(bad_req.0.parameters.is_none());

    let failure = ApiError::server_failure("failed");
    assert_eq!(failure.0.error_code, ErrorCode::SovdServerFailure);
    assert_eq!(failure.0.message, "failed");
    assert!(failure.0.vendor_code.is_none());
    assert!(failure.0.transaction_id.is_none());
    assert!(failure.0.parameters.is_none());

    let misconfig = ApiError::server_misconfigured("config");
    assert_eq!(misconfig.0.error_code, ErrorCode::SovdServerMisconfigured);
    assert_eq!(misconfig.0.message, "config");
    assert!(misconfig.0.vendor_code.is_none());
    assert!(misconfig.0.transaction_id.is_none());
    assert!(misconfig.0.parameters.is_none());

    let precond = ApiError::precondition_failed("precond");
    assert_eq!(precond.0.error_code, ErrorCode::PreconditionNotFulfilled);
    assert_eq!(precond.0.message, "precond");
    assert!(precond.0.vendor_code.is_none());
    assert!(precond.0.transaction_id.is_none());
    assert!(precond.0.parameters.is_none());

    let unavail = ApiError::service_unavailable("unavail");
    assert_eq!(unavail.0.error_code, ErrorCode::NotResponding);
    assert_eq!(unavail.0.message, "unavail");
    assert!(unavail.0.vendor_code.is_none());
    assert!(unavail.0.transaction_id.is_none());
    assert!(unavail.0.parameters.is_none());

    let unauth = ApiError::unauthorized("unauth");
    assert_eq!(unauth.0.error_code, ErrorCode::InvalidSignature);
    assert_eq!(unauth.0.message, "unauth");
    assert!(unauth.0.vendor_code.is_none());
    assert!(unauth.0.transaction_id.is_none());
    assert!(unauth.0.parameters.is_none());
}

#[test]
fn api_error_text() {
    assert_eq!(ApiError::bad_request("oops").to_string(), "IncompleteRequest: oops");
}

#[test]
fn schema_query_detection() {
    assert!(query_requests_schema("include-schema=true"));
    assert!(query_requests_schema("a=1&include-schema=true&b=2"));
    assert!(!query_requests_schema("include-schema=false"));
    assert!(!query_requests_schema(""));
}

#[test]
fn category_parsing() {
    assert_eq!(parse_single_category("identData"), Some(DataCategory::IdentData));
    assert_eq!(parse_single_category("currentData"), Some(DataCategory::CurrentData));
    assert_eq!(parse_single_category("storedData"), Some(DataCategory::StoredData));
    assert_eq!(parse_single_category("sysInfo"), Some(DataCategory::SysInfo));
    assert_eq!(parse_single_category("x-liebherr"), Some(DataCategory::Vendor("x-liebherr".to_string())));
    assert_eq!(parse_single_category("x-sovd-thing"), None);
    assert_eq!(parse_single_category("unknown"), None);
    let names = vec!["currentData".to_string(), "bogus".to_string(), "x-a".to_string()];
    assert_eq!(
        parse_categories(Some(names.as_slice())),
        vec![DataCategory::CurrentData, DataCategory::Vendor("x-a".to_string())]
    );
    assert!(parse_categories(None).is_empty());
}

#[test]
fn data_error_conversion() {
    let e: ApiError = DataError::access_denied("no").into();
    assert_eq!(e.0.error_code, ErrorCode::InsufficientAccessRights);
    assert_eq!(e.0.message, "no");
    assert_eq!(e.status_code(), 403);
    let e: ApiError = DataError::internal_error("boom").into();
    assert_eq!(e.0.error_code, ErrorCode::SovdServerFailure);
    assert_eq!(e.status_code(), 500);
    let e: ApiError = DataError::not_found("gone").into();
    assert_eq!(e.0.vendor_code, Some(VendorError::NotFound));
    assert_eq!(e.status_code(), 404);
    let e: ApiError = DataError::invalid_format("fmt").into();
    assert_eq!(e.0.error_code, ErrorCode::VendorSpecific);
    assert_eq!(e.status_code(), 404);
}

#[test]
fn base_uri_resolution() {
    let base = BaseUri("/sovd".to_string());
    assert_eq!(base.resolve_uri("http", "localhost:8080"), "http://localhost:8080/sovd");
    let base = BaseUri("http://localhost".to_string());
    assert_eq!(trim_end_slashes(&base.resolve_uri("https", "example.com")), "https://example.com");
    assert_eq!(trim_end_slashes("http://a///"), "http://a");
    assert_eq!(trim_end_slashes("///"), "");
}

#[test]
fn version_information() {
    let vendor = VendorInfo { version: "1.0.0".to_string(), name: "Test".to_string() };
    let response = version_response("http://localhost:8080/", Some(vendor.clone()));
    assert_eq!(response.sovd_info.len(), 1);
    assert_eq!(response.sovd_info[0].version, "1.1");
    assert_eq!(response.sovd_info[0].base_uri, "http://localhost:8080/v1");
    assert_eq!(response.sovd_info[0].vendor_info, Some(vendor));
}

fn mock_diagnostic() -> Diagnostic<MockDataService> {
    create_mock_components(DiagnosticBuilder::new()).build().unwrap()
}

#[test]
fn root_and_component_capabilities() {
    let diagnostic = mock_diagnostic();
    let root = root_capabilities(&diagnostic, "http://localhost/").unwrap();
    assert_eq!(root.entity.id, "");
    assert_eq!(root.entity.name, "SOVD Server");
    assert_eq!(root.relationships.components.as_deref(), Some("http://localhost/v1/components"));

    let engine = component_capabilities(&diagnostic, "http://localhost/sovd/", "engine").unwrap();
    assert_eq!(engine.entity.name, "Engine Control Unit");
    assert_eq!(engine.resources.data.as_deref(), Some("http://localhost/sovd/v1/components/engine/data"));
    let err = component_capabilities(&diagnostic, "http://localhost", "nope").unwrap_err();
    assert_eq!(err.0.message, "Component 'nope' not found");
    assert_eq!(err.status_code(), 404);

    let empty: Diagnostic<MockDataService> = Diagnostic::empty();
    let err = root_capabilities(&empty, "http://localhost").unwrap_err();
    assert_eq!(err.0.message, "SovdServer entity not found");
    assert_eq!(err.status_code(), 500);
}

#[test]
fn entity_listing_with_tag_filter() {
    let diagnostic = mock_diagnostic();
    let all = list_entities(&diagnostic, "http://h", &EntityQuery { tags: None, include_schema: false });
    assert_eq!(all.items.len(), 3);
    let powertrain = list_entities(
        &diagnostic,
        "http://h",
        &EntityQuery { tags: Some(vec!["powertrain".to_string(), "x".to_string()]), include_schema: false },
    );
    assert_eq!(powertrain.items.len(), 1);
    assert_eq!(powertrain.items[0].entity.id, "engine");
    assert_eq!(powertrain.items[0].href, "http://h/v1/components/engine");
    let empty_filter = list_entities(&diagnostic, "http://h", &EntityQuery { tags: Some(vec![]), include_schema: false });
    assert_eq!(empty_filter.items.len(), 3);
    assert!(list_hosts(&diagnostic, "engine", &EntityQuery::default()).unwrap().items.is_empty());
    assert!(list_hosts(&diagnostic, "nope", &EntityQuery::default()).is_err());
}

#[test]
fn data_handlers() {
    let mut diagnostic = mock_diagnostic();
    let query = DataResourceQuery {
        categories: Some(vec!["identData".to_string()]),
        groups: None,
        include_schema: false,
    };
    let (cats, groups) = data_list_arguments(&query);
    assert_eq!(cats, vec![DataCategory::IdentData]);
    assert!(groups.is_empty());
    let listed = list_data_resources(&diagnostic, "engine", &query).unwrap();
    assert_eq!(listed.items.len(), 1);
    assert_eq!(listed.items[0].id, "serial_number");

    let err = list_data_resources(&diagnostic, "nope", &query).unwrap_err();
    assert_eq!(err.0.message, "Component 'nope' not found");
    let err = list_data_resources(&diagnostic, "", &query).unwrap_err();
    assert_eq!(err.0.message, "Data service not available for this component");

    let value = get_data_value(&diagnostic, "transmission", "gear", false).unwrap();
    assert_eq!(value.data.data["current"], Value::from(3));
    assert!(value.schema.is_none());
    let value = get_data_value(&diagnostic, "transmission", "gear", true).unwrap();
    assert!(value.schema.as_ref().unwrap().is_object());
    assert_ne!(value.schema, Some(value.data.data.clone()));
    let err = get_data_value(&diagnostic, "transmission", "nope", false).unwrap_err();
    assert_eq!(err.status_code(), 404);

    set_data_value(&mut diagnostic, "transmission", "gear", Value::from(4)).unwrap();
    let value = get_data_value(&diagnostic, "transmission", "gear", false).unwrap();
    assert_eq!(value.data.data, Value::from(4));
    let err = set_data_value(&mut diagnostic, "transmission", "part_number", Value::from(4)).unwrap_err();
    assert_eq!(err.0.error_code, ErrorCode::InsufficientAccessRights);
    assert_eq!(err.status_code(), 403);

    let cats = list_data_categories(&diagnostic, "hydraulics").unwrap();
    assert_eq!(cats.items.len(), 4);
    let groups = list_data_groups(
        &diagnostic,
        "hydraulics",
        &DataGroupQuery { category: Some("identData".to_string()), include_schema: false },
    )
    .unwrap();
    assert_eq!(groups.items.len(), 2);
}

#[test]
fn test_empty_endpoints_validation() {
    let vendor_info = VendorInfo { version: "1.0.0".to_string(), name: "TestServer".to_string() };

    let result = ServerConfig::<VendorInfo, (), (), MockDataService>::builder().vendor_info(vendor_info).build();

    assert!(result.is_err());
    match result {
        Err(ServerConfigError::NoEndpointsConfigured) => {}
        _ => panic!("Expected NoEndpointsConfigured error"),
    }
}

#[test]
fn server_config_with_endpoint() {
    let config = ServerConfig::<VendorInfo, u32, (), MockDataService>::builder()
        .endpoint(7, None, vec!["localhost".to_string()], "/test".to_string())
        .build()
        .unwrap();
    assert_eq!(config.endpoints.len(), 1);
    assert_eq!(config.endpoints[0].listener, 7);
    assert_eq!(config.endpoints[0].base, "/test");
    assert_eq!(config.vendor_info.as_ref().unwrap().name, "SOVD");
    assert_eq!(
        ServerConfigError::NoEndpointsConfigured.to_string(),
        "No endpoints configured. Please configure at least one endpoint."
    );
}


#[test]
fn category_names_parse_back() {
    for c in [
        DataCategory::IdentData,
        DataCategory::CurrentData,
        DataCategory::StoredData,
        DataCategory::SysInfo,
        DataCategory::new_vendor("x-liebherr-engine").unwrap(),
    ] {
        assert_eq!(parse_single_category(&c.to_string()), Some(c.clone()));
    }
}

#[test]
fn trimming_twice_changes_nothing() {
    for s in ["http://a/", "http://a", "/", "", "x//"] {
        let once = trim_end_slashes(s);
        assert!(!once.ends_with('/'));
        assert_eq!(trim_end_slashes(&once), once);
    }
}

#[test]
fn test_error_response() {
    let error = ApiError::new(ErrorCode::IncompleteRequest, "test message");
    assert_eq!(error.status_code(), StatusCode::BAD_REQUEST.as_u16());

    let error = ApiError::vendor(VendorError::NotFound, "resource missing");
    assert_eq!(error.status_code(), StatusCode::NOT_FOUND.as_u16());
}

#[test]
fn refused_keys_are_found_first() {
    let config = ServerConfig::<VendorInfo, u32, (), MockDataService>::builder()
        .endpoint(1, None, vec![], "/a".to_string())
        .endpoint(2, Some(AuthInfo { public_key_pem: b"bad".to_vec() }), vec![], "/b".to_string())
        .endpoint(3, Some(AuthInfo { public_key_pem: b"worse".to_vec() }), vec![], "/c".to_string())
        .build()
        .unwrap();
    assert_eq!(first_refused_key(&config.endpoints), Some(1));
    let open = ServerConfig::<VendorInfo, u32, (), MockDataService>::builder()
        .endpoint(1, None, vec![], "/a".to_string())
        .build()
        .unwrap();
    assert_eq!(first_refused_key(&open.endpoints), None);
}
