use sovd::models::error::ErrorCode;
use sovd::models::version::VendorInfo;
use sovd::opensovd::auth::{
    auth_error_of, authorize, token_decision, AuthDecision, AuthError, AuthHeader, BearerAuth, TokenFailure,
};
use sovd::opensovd::config::{ServerConfig, ServerConfigError};
use sovd::opensovd::convert::{data_error_to_response, data_item_to_resource_item, data_items_to_resource_items};
use sovd::opensovd::proxy::{
    build_forwarded_header, filter_headers, forwarded_value, forwards_header, proxy_reply, proxy_target_url, PeerAddr,
};
use sovd::opensovd::resources::{DataError, DataItem};
use sovd::opensovd::routes::{
    data_list_response, data_value_response, data_write_response, list_capabilities, list_entities, ComponentSummary,
};
use sovd::opensovd::version::version_response;
use sovd::server::response::{ApiError, VendorError};

#[test]
fn test_data_error_to_api_error() {
    let error: ApiError = DataError::DataNotFound("Item not found".to_string()).into();
    assert_eq!(error.0.error_code, ErrorCode::VendorSpecific);
    assert_eq!(error.0.vendor_code, Some(VendorError::NotFound));
    assert_eq!(error.0.message, "Item not found");

    let error: ApiError = DataError::ReadOnly("VIN".to_string()).into();
    assert_eq!(error.0.error_code, ErrorCode::IncompleteRequest);
    assert_eq!(error.0.message, "Cannot write to read-only data: VIN");

    let error: ApiError = DataError::AccessDenied("No permission".to_string()).into();
    assert_eq!(error.0.error_code, ErrorCode::InsufficientAccessRights);
    assert_eq!(error.0.message, "No permission");

    let error: ApiError = DataError::InvalidData("Invalid format".to_string()).into();
    assert_eq!(error.0.error_code, ErrorCode::IncompleteRequest);
    assert_eq!(error.0.message, "Invalid format");

    let error: ApiError = DataError::InternalError("Database error".to_string()).into();
    assert_eq!(error.0.error_code, ErrorCode::SovdServerFailure);
    assert_eq!(error.0.message, "Database error");
}

#[test]
fn test_data_error_to_response() {
    let data_error = DataError::ReadOnly("read_only_item".to_string());

    let response = data_error_to_response(data_error);
    assert_eq!(response.path, None);
    assert_eq!(response.error.message, "Data item is read-only: read_only_item");
    assert_eq!(response.error.error_code, ErrorCode::InsufficientAccessRights);
}

#[test]
fn data_not_found_response_carries_vendor_code() {
    let response = data_error_to_response(DataError::DataNotFound("x".to_string()));
    assert_eq!(response.error.error_code, ErrorCode::VendorSpecific);
    assert_eq!(response.error.vendor_code, Some(serde_json::Value::from("data-not-found")));
    assert_eq!(response.error.message, "Data item not found: x");
    let response = data_error_to_response(DataError::InternalError("db".to_string()));
    assert_eq!(response.error.error_code, ErrorCode::SovdServerFailure);
    assert_eq!(response.error.message, "Internal error: db");
    assert!(response.error.vendor_code.is_none());
}

#[test]
fn test_data_item_conversion() {
    let diagnostic_item = DataItem {
        id: "test-id".to_string(),
        name: "Test Item".to_string(),
        category: "currentData".to_string(),
        groups: vec!["engine".to_string()],
        tags: vec!["temperature".to_string()],
    };

    let api_item = data_item_to_resource_item(diagnostic_item);

    assert_eq!(api_item.id, "test-id");
    assert_eq!(api_item.name, "Test Item");
    assert_eq!(api_item.translation_id, None);
    assert_eq!(api_item.category, "currentData");
    assert_eq!(api_item.groups, vec!["engine"]);
    assert_eq!(api_item.tags, vec!["temperature"]);
}

#[test]
fn data_items_conversion_keeps_order() {
    let items = vec![
        DataItem { id: "a".to_string(), name: "A".to_string(), category: "c".to_string(), groups: vec![], tags: vec![] },
        DataItem { id: "b".to_string(), name: "B".to_string(), category: "c".to_string(), groups: vec![], tags: vec![] },
    ];
    let converted = data_items_to_resource_items(items);
    assert_eq!(converted.len(), 2);
    assert_eq!(converted[0].id, "a");
    assert_eq!(converted[1].id, "b");
}

fn rejected_message(d: AuthDecision) -> String {
    match d {
        AuthDecision::Reject(e) => {
            assert_eq!(e.0.error_code, ErrorCode::InvalidSignature);
            assert_eq!(e.status_code(), 401);
            e.0.message
        }
        _ => panic!("expected a rejection"),
    }
}

#[test]
fn authorization_decisions() {
    assert!(matches!(authorize("/health", AuthHeader::Missing), AuthDecision::Forward));
    assert_eq!(rejected_message(authorize("/api/v1/data", AuthHeader::Missing)), "Missing authorization header");
    assert_eq!(rejected_message(authorize("/api/v1/data", AuthHeader::Unreadable)), "Invalid authorization header");
    assert_eq!(
        rejected_message(authorize("/api/v1/data", AuthHeader::Text("Basic abc".to_string()))),
        "Authorization must use Bearer scheme"
    );
    match authorize("/v1/x", AuthHeader::Text("Bearer tok.en".to_string())) {
        AuthDecision::Validate(t) => assert_eq!(t, "tok.en"),
        _ => panic!("expected validation"),
    }
    assert!(matches!(token_decision(Ok(())), AuthDecision::Forward));
    assert_eq!(rejected_message(token_decision(Err(AuthError::Expired))), "JWT token expired");
    assert_eq!(auth_error_of(TokenFailure::ExpiredSignature), AuthError::Expired);
    assert_eq!(auth_error_of(TokenFailure::InvalidSignature), AuthError::InvalidSignature);
    assert_eq!(auth_error_of(TokenFailure::Other), AuthError::InvalidFormat);
    assert_eq!(AuthError::InvalidFormat.to_string(), "Invalid JWT format");
    assert_eq!(AuthError::InvalidSignature.to_string(), "Invalid JWT signature");
}

#[test]
fn proxy_urls_and_headers() {
    assert_eq!(proxy_target_url("", None), "http://localhost:8080");
    assert_eq!(proxy_target_url("a/b", Some("x=1")), "http://localhost:8080/a/b?x=1");
    assert!(!forwards_header("Connection"));
    assert!(!forwards_header("transfer-encoding"));
    assert!(!forwards_header("TE"));
    assert!(forwards_header("content-type"));
    assert!(forwards_header("tea"));

    let v4 = Some(PeerAddr { ip: "192.0.2.43".to_string(), v6: false, port: 8080 });
    assert_eq!(build_forwarded_header(&v4, Some("example.com"), true), "for=\"192.0.2.43:8080\";host=example.com;proto=https");
    let v6 = Some(PeerAddr { ip: "2001:db8::1".to_string(), v6: true, port: 443 });
    assert_eq!(build_forwarded_header(&v6, Some("a;b"), false), "for=\"[2001:db8::1]:443\";host=\"a;b\";proto=http");
    assert_eq!(build_forwarded_header(&None, None, false), "proto=http");
    assert_eq!(build_forwarded_header(&None, Some("localhost:8080"), false), "host=\"localhost:8080\";proto=http");
    assert_eq!(forwarded_value(Some("for=1.2.3.4"), "proto=http"), "for=1.2.3.4, proto=http");
    assert_eq!(forwarded_value(None, "proto=http"), "proto=http");
}

#[test]
fn test_empty_listeners_validation() {
    let vendor_info = VendorInfo { version: "1.0.0".to_string(), name: "TestServer".to_string() };

    let result = ServerConfig::<VendorInfo, (), (), ()>::builder().vendor_info(vendor_info).build();

    assert!(result.is_err());
    match result {
        Err(ServerConfigError::NoListenersConfigured) => {}
        _ => panic!("Expected NoListenersConfigured error"),
    }
}

#[test]
fn opensovd_config_defaults_path() {
    let vendor = VendorInfo { version: "1".to_string(), name: "V".to_string() };
    let config =
        ServerConfig::<VendorInfo, u8, (), ()>::builder_with_vendor_type().listen(1).vendor_info(vendor).build().unwrap();
    assert_eq!(config.uri_path, "/");
    let config = ServerConfig::<VendorInfo, u8, (), ()>::builder().listen(1).uri_path("/sovd").build().unwrap();
    assert_eq!(config.uri_path, "/sovd");
    assert_eq!(config.vendor_info.unwrap().name, "OpenSOVD");
}

#[test]
fn opensovd_version_information() {
    let response = version_response::<VendorInfo>("/opensovd/", None);
    assert_eq!(response.sovd_info.len(), 2);
    assert_eq!(response.sovd_info[0].base_uri, "/opensovd/v1");
    assert_eq!(response.sovd_info[1].version, "1.2");
    assert_eq!(response.sovd_info[1].base_uri, "/opensovd/v2");
}

#[test]
fn opensovd_entity_routes() {
    let components = vec![
        ComponentSummary { id: "ecu".to_string(), name: "ECU".to_string() },
        ComponentSummary { id: "tcu".to_string(), name: "TCU".to_string() },
    ];
    let listing = list_entities("/opensovd/v1", &components).unwrap();
    assert_eq!(listing.items.len(), 2);
    assert_eq!(listing.items[1].href, "/opensovd/v1/components/tcu");
    let err = list_entities("/opensovd/v1", &vec![]).unwrap_err();
    assert_eq!(err.0.message, "No components found");
    assert_eq!(err.status_code(), 404);

    let caps = list_capabilities("ecu", Some(components[0].clone())).unwrap();
    assert_eq!(caps.entity.name, "ECU");
    assert_eq!(caps.resources.data.as_deref(), Some("/opensovd/v1/components/ecu/data"));
    assert_eq!(caps.resources.data_list.as_deref(), Some("/opensovd/v1/components/ecu/data-lists"));
    assert_eq!(list_capabilities("x", None).unwrap_err().0.message, "Component 'x' not found");
}

#[test]
fn opensovd_data_routes() {
    let ok = data_value_response("rpm", Ok(serde_json::Value::from(7)));
    assert_eq!(ok.id, "rpm");
    assert_eq!(ok.data, serde_json::Value::from(7));
    assert!(ok.errors.is_empty());
    let failed = data_value_response("rpm", Err(DataError::AccessDenied("rpm".to_string())));
    assert_eq!(failed.data, serde_json::Value::Null);
    assert_eq!(failed.errors.len(), 1);
    assert_eq!(failed.errors[0].error.message, "Access denied: rpm");
    assert!(data_write_response(Ok(())).is_ok());
    let err = data_write_response(Err(DataError::ReadOnly("vin".to_string()))).unwrap_err();
    assert_eq!(err.0.message, "Cannot write to read-only data: vin");
    let err = data_list_response(Err("disk".to_string())).unwrap_err();
    assert_eq!(err.0.message, "Failed to list data: disk");
    assert_eq!(err.status_code(), 500);
}

#[test]
fn proxy_replies() {
    let headers = vec![
        ("Content-Type".to_string(), 1),
        ("Connection".to_string(), 2),
        ("x-trace".to_string(), 3),
        ("Transfer-Encoding".to_string(), 4),
    ];
    let kept = filter_headers(headers.clone());
    assert_eq!(kept, vec![("Content-Type".to_string(), 1), ("x-trace".to_string(), 3)]);
    let reply = proxy_reply(Ok((201, headers)));
    assert_eq!(reply.status, 201);
    assert_eq!(reply.headers.len(), 2);
    assert!(reply.error_body.is_none());
    let failed = proxy_reply::<u8>(Err("connection refused".to_string()));
    assert_eq!(failed.status, 502);
    assert!(failed.headers.is_empty());
    assert_eq!(failed.error_body.as_deref(), Some("Proxy error: connection refused"));
}

#[test]
fn bearer_key_check() {
    match BearerAuth::from_rsa_pem(b"not a key") {
        Err(e) => assert_eq!(e, AuthError::InvalidFormat),
        Ok(_) => panic!("garbage is no RSA key"),
    }
}
