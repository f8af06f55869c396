use std::sync::Arc;

use serde_json::Value;
use sovd::diagnostic::data::{DataService, DataWithSchema};
use sovd::diagnostic::diagnostic::{Diagnostic, DiagnosticBuilder, EntityContext, ServiceError, ServiceRegistry, ServiceType};
use sovd::diagnostic::entities::{Entity, SovdServer};
use sovd::diagnostic::repository::{EntityEvent, EntityRepository};
use sovd::gateway::components::{DataEntry, MockComponent, MockDataService};
use sovd::gateway::mock::create_mock_components;
use sovd::models::data::{DataCategory, ValueMetaData};
use sovd::models::error::ErrorCode;

fn test_entity() -> MockComponent {
    MockComponent::new("test".to_string(), "Test".to_string(), vec![])
}

#[test]
fn test_add_and_remove_entity_sends_event() {
    let mut repo = EntityRepository::new();
    let mut rx = repo.subscribe();

    let entity = Arc::new(test_entity());

    repo.add_entity(entity.as_ref());

    let event = rx.try_recv().expect("Should receive event");
    match event {
        EntityEvent::Added { entity_id, entity } => {
            assert_eq!(entity_id, "test");
            assert_eq!(entity.id(), "test");
            assert_eq!(entity.name(), "Test");
        }
        _ => panic!("Expected Added event"),
    }

    let removed = repo.remove_entity("test").expect("Should remove entity");
    assert_eq!(removed.id(), "test");

    let event = rx.try_recv().expect("Should receive removal event");
    match event {
        EntityEvent::Removed { entity_id, entity } => {
            assert_eq!(entity_id, "test");
            assert_eq!(entity.id(), "test");
            assert_eq!(entity.name(), "Test");
        }
        _ => panic!("Expected Removed event"),
    }
}

#[test]
fn repository_lookup_and_count() {
    let mut repo = EntityRepository::new();
    assert_eq!(repo.entity_count(), 0);
    repo.add_entity(&SovdServer::new("Root".to_string()));
    repo.add_entity(&test_entity());
    assert_eq!(repo.entity_count(), 2);
    assert!(repo.entity_exists("test"));
    assert!(repo.entity_exists(""));
    assert!(!repo.entity_exists("missing"));
    assert_eq!(repo.get_entity("test").unwrap().name, "Test");
    assert!(repo.get_entity("missing").is_none());
    assert_eq!(repo.list_entities().len(), 2);
    let components = repo.list_components();
    assert_eq!(components.len(), 1);
    assert_eq!(components[0].id, "test");
    assert!(repo.remove_entity("missing").is_none());
    repo.add_entity(&MockComponent::new("test".to_string(), "Renamed".to_string(), vec![]));
    assert_eq!(repo.entity_count(), 2);
    assert_eq!(repo.get_entity("test").unwrap().name, "Renamed");
}

#[test]
fn builder_starts_with_server_root() {
    let diagnostic: Diagnostic<MockDataService> = DiagnosticBuilder::new().build().unwrap();
    let root = diagnostic.entities().get_entity("").unwrap();
    assert_eq!(root.name, "SOVD Server");
    assert_eq!(diagnostic.entities().entity_count(), 1);
    assert!(!diagnostic.has_service(""));
}

#[test]
fn service_registry_replaces_service() {
    let mut registry: ServiceRegistry<MockDataService> = ServiceRegistry::new();
    match registry.get("engine") {
        Err(ServiceError::ServiceNotFound { entity_id, service_type }) => {
            assert_eq!(service_type, MockDataService::service_type_name());
            assert_eq!(entity_id, "engine");
            assert_eq!(service_type, "MockDataService");
        }
        _ => panic!("Expected ServiceNotFound"),
    }
    registry.register("engine", MockDataService::new(vec![]));
    assert!(registry.get("engine").is_ok());
}

#[test]
fn entity_context_keeps_services_in_order() {
    let ctx: EntityContext<u32> = EntityContext::new();
    let _ctx = ctx.with_service(1).with_service(2);
}

fn meta(id: &str, category: DataCategory, groups: &[&str]) -> ValueMetaData {
    ValueMetaData {
        id: id.to_string(),
        name: id.to_string(),
        translation_id: None,
        category,
        groups: groups.iter().map(|g| g.to_string()).collect(),
        tags: vec![],
    }
}

fn small_service() -> MockDataService {
    MockDataService::new(vec![
        (
            "a".to_string(),
            DataEntry { metadata: meta("a", DataCategory::CurrentData, &["g1", "g2"]), value: Value::from(1), writable: true },
        ),
        (
            "b".to_string(),
            DataEntry { metadata: meta("b", DataCategory::IdentData, &["g2"]), value: Value::from("id"), writable: false },
        ),
        (
            "c".to_string(),
            DataEntry {
                metadata: meta("c", DataCategory::Vendor("x-v".to_string()), &["g3"]),
                value: Value::from(3),
                writable: true,
            },
        ),
    ])
}

#[test]
fn mock_service_read_after_write() {
    let mut service = small_service();
    assert_eq!(service.read("e", "a").unwrap().data, Value::from(1));
    service.write("e", "a", Value::from(42)).unwrap();
    let value = service.read("e", "a").unwrap();
    assert_eq!(value.id, "a");
    assert_eq!(value.data, Value::from(42));
    assert!(value.errors.is_empty());
    assert_eq!(service.read("e", "c").unwrap().data, Value::from(3));
}

#[test]
fn mock_service_refused_writes_change_nothing() {
    let mut service = small_service();
    let err = service.write("e", "b", Value::from("other")).unwrap_err();
    assert_eq!(err.error.error_code, ErrorCode::InsufficientAccessRights);
    assert_eq!(err.error.message, "b");
    assert_eq!(service.read("e", "b").unwrap().data, Value::from("id"));

    let err = service.write("e", "zzz", Value::from(1)).unwrap_err();
    assert_eq!(err.error.error_code, ErrorCode::VendorSpecific);
    assert_eq!(err.error.vendor_code, Some("data-not-found".to_string()));
    assert_eq!(err.error.message, "zzz");
    let err = service.read("e", "zzz").unwrap_err();
    assert_eq!(err.error.vendor_code, Some("data-not-found".to_string()));
}

#[test]
fn mock_service_listing_filters() {
    let service = small_service();
    let all = service.list("e", vec![], vec![]).unwrap();
    assert_eq!(all.iter().map(|m| m.id.as_str()).collect::<Vec<_>>(), vec!["a", "b", "c"]);
    let current = service.list("e", vec![DataCategory::CurrentData], vec![]).unwrap();
    assert_eq!(current.iter().map(|m| m.id.as_str()).collect::<Vec<_>>(), vec!["a"]);
    let g2 = service.list("e", vec![], vec!["g2".to_string()]).unwrap();
    assert_eq!(g2.iter().map(|m| m.id.as_str()).collect::<Vec<_>>(), vec!["a", "b"]);
    let both = service.list("e", vec![DataCategory::IdentData], vec!["g1".to_string()]).unwrap();
    assert!(both.is_empty());
}

#[test]
fn mock_service_categories_and_groups() {
    let service = small_service();
    let cats = service.list_categories("e").unwrap();
    let names: Vec<String> = cats.iter().map(|c| c.item.to_string()).collect();
    assert_eq!(names, vec!["currentData", "identData", "x-v"]);
    assert!(cats.iter().all(|c| c.category_translation_id.is_none()));

    let groups = service.list_groups("e", None).unwrap();
    let pairs: Vec<(String, String)> = groups.iter().map(|g| (g.id.clone(), g.category.to_string())).collect();
    assert_eq!(
        pairs,
        vec![
            ("g1".to_string(), "currentData".to_string()),
            ("g2".to_string(), "currentData".to_string()),
            ("g2".to_string(), "identData".to_string()),
            ("g3".to_string(), "x-v".to_string()),
        ]
    );
    assert!(groups.iter().all(|g| g.group.as_deref() == Some(g.id.as_str())));

    let ident = service.list_groups("e", Some(DataCategory::IdentData)).unwrap();
    assert_eq!(ident.len(), 1);
    assert_eq!(ident[0].id, "g2");
}

#[test]
fn mock_service_later_entry_replaces_earlier() {
    let service = MockDataService::new(vec![
        (
            "a".to_string(),
            DataEntry { metadata: meta("a", DataCategory::CurrentData, &[]), value: Value::from(1), writable: true },
        ),
        (
            "a".to_string(),
            DataEntry { metadata: meta("a", DataCategory::CurrentData, &[]), value: Value::from(2), writable: true },
        ),
    ]);
    assert_eq!(service.list("e", vec![], vec![]).unwrap().len(), 1);
    assert_eq!(service.read("e", "a").unwrap().data, Value::from(2));
}

#[test]
fn read_with_schema_attaches_schema() {
    let service = small_service();
    let value: DataWithSchema<_> = service.read_with_schema("e", "a").unwrap();
    assert_eq!(value.data.data, Value::from(1));
    assert!(value.schema.as_ref().unwrap().is_object());
}

#[test]
fn mock_machine_has_three_components() {
    let builder = create_mock_components(DiagnosticBuilder::new());
    let mut diagnostic = builder.build().unwrap();
    let mut ids: Vec<String> = diagnostic.entities().list_components().into_iter().map(|c| c.id).collect();
    ids.sort();
    assert_eq!(ids, vec!["engine", "hydraulics", "transmission"]);
    let engine = diagnostic.entities().get_entity("engine").unwrap();
    assert_eq!(engine.name, "Engine Control Unit");
    assert_eq!(engine.tags, vec!["OBD", "powertrain"]);

    let service = diagnostic.get_service("engine").unwrap();
    assert_eq!(service.list("engine", vec![], vec![]).unwrap().len(), 6);
    let rpm = service.read("engine", "rpm").unwrap();
    assert_eq!(rpm.data["value"], Value::from(2500));
    let temp = service.read("engine", "temperature").unwrap();
    assert_eq!(temp.data["value"], Value::from(90.5));

    let hydraulics = diagnostic.get_service_mut("hydraulics").unwrap();
    assert!(hydraulics.write("hydraulics", "pump_model", Value::from("x")).is_err());
    assert!(hydraulics.write("hydraulics", "boom_position", Value::from(1)).is_ok());
    assert_eq!(hydraulics.read("hydraulics", "boom_position").unwrap().data, Value::from(1));

    let transmission = diagnostic.get_service("transmission").unwrap();
    let cats = transmission.list_categories("transmission").unwrap();
    assert_eq!(cats.len(), 3);
    assert!(diagnostic.get_service("missing").is_err());
    assert_eq!(MockDataService::service_type_name(), "MockDataService");
}

#[test]
fn write_keeps_listings() {
    let mut service = small_service();
    let before = service.list("e", vec![], vec![]).unwrap();
    let cats_before = service.list_categories("e").unwrap();
    let groups_before = service.list_groups("e", None).unwrap();
    service.write("e", "c", Value::from("new")).unwrap();
    assert_eq!(service.list("e", vec![], vec![]).unwrap(), before);
    assert_eq!(service.list_categories("e").unwrap(), cats_before);
    assert_eq!(service.list_groups("e", None).unwrap(), groups_before);
}

#[test]
fn remove_undoes_add() {
    let mut repo = EntityRepository::new();
    repo.add_entity(&SovdServer::new("Root".to_string()));
    let before: Vec<String> = repo.list_entities().into_iter().map(|e| e.id).collect();
    repo.add_entity(&test_entity());
    assert!(repo.entity_exists("test"));
    repo.remove_entity("test").unwrap();
    let after: Vec<String> = repo.list_entities().into_iter().map(|e| e.id).collect();
    assert_eq!(before, after);
    assert!(!repo.entity_exists("test"));
}

#[test]
fn attach_schema_keeps_read_outcome() {

    let ok = sovd::diagnostic::data::attach_schema(Ok(sovd::models::data::ReadValue { id: "a".to_string(), data: Value::from(1), errors: vec![] }))
        .unwrap();
    assert_eq!(ok.data.data, Value::from(1));
    assert!(ok.schema.unwrap().is_object());
    let err = sovd::diagnostic::data::attach_schema(Err(sovd::models::data::DataError::not_found("x"))).unwrap_err();
    assert_eq!(err.error.message, "x");
}
