use std::collections::HashMap;
use vstd::prelude::*;

verus! {

/// Identification of an entity.
#[derive(Debug, Default, Clone, PartialEq)]
pub struct EntityId {
    pub id: String,
    pub name: String,
    pub translation_id: Option<String>,
}

/// A reference to an entity in a collection listing.
#[derive(Debug, Default, Clone, PartialEq)]
pub struct EntityReference {
    pub entity: EntityId,
    pub href: String,
    pub tags: Vec<String>,
}

/// A listing of entities.
#[derive(Debug, Clone, PartialEq)]
pub struct EntityResponse {
    pub items: Vec<EntityReference>,
}

/// The resource collections of an entity, each given by its URI.
#[derive(Debug, Default, Clone, PartialEq)]
pub struct Resources {
    pub configurations: Option<String>,
    pub data: Option<String>,
    pub data_list: Option<String>,
    pub faults: Option<String>,
    pub operations: Option<String>,
    pub updates: Option<String>,
    pub modes: Option<String>,
    pub locks: Option<String>,
    pub logs: Option<String>,
    pub communication_logs: Option<String>,
    pub cyclic_subscriptions: Option<String>,
    pub scripts: Option<String>,
    pub triggers: Option<String>,
}

/// The capabilities of an entity.
#[derive(Debug, Default, Clone, PartialEq)]
pub struct EntityCapabilitiesResponse {
    pub entity: EntityId,
    pub variant: Option<HashMap<String, String>>,
    pub relationships: EntityRelationships,
    pub resources: Resources,
}

/// The relationships of an entity, each given by its URI.
#[derive(Debug, Default, Clone, PartialEq)]
pub struct EntityRelationships {
    pub areas: Option<String>,
    pub components: Option<String>,
    pub apps: Option<String>,
    pub functions: Option<String>,
    pub subareas: Option<String>,
    pub subcomponents: Option<String>,
    pub contains: Option<String>,
    pub hosts: Option<String>,
    pub belongs_to: Option<String>,
    pub depends_on: Option<String>,
    pub is_located_on: Option<String>,
}

/// A request to write a data value.
#[derive(Debug, Clone, PartialEq)]
pub struct DataWriteRequest {
    pub data: serde_json::Value,
    pub signature: Option<String>,
}

/// Query parameters of an entity listing.
#[derive(Debug, Default, Clone, PartialEq)]
pub struct EntityQuery {
    pub tags: Option<Vec<String>>,
    pub include_schema: bool,
}

} // verus!
