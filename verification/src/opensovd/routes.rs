use vstd::prelude::*;

use crate::json::{json_from_text, parsed_json};
use crate::models::entity::{EntityCapabilitiesResponse, EntityId, EntityReference, EntityRelationships, EntityResponse, Resources};
use crate::models::error::ErrorCode;
use crate::opensovd::convert::{api_error_parts, data_error_parts, data_error_to_response, data_items_to_resource_items};
use crate::opensovd::resources::{DataError, DataErrorResponse, DataItem, DataResourceItem};
use crate::server::response::{error_spec, ApiError, VendorError};
use crate::server::routes::{component_not_found_message, only_components};

verus! {

/// A component as the registry reports it.
#[derive(Debug, Clone, PartialEq)]
pub struct ComponentSummary {
    pub id: String,
    pub name: String,
}

/// The not-found error for a component.
fn component_not_found(id: &str) -> (r: ApiError)
    ensures
        r@ == error_spec(ErrorCode::VendorSpecific, component_not_found_message(id@), Some(VendorError::NotFound)),
{
    ApiError::not_found(String::from_str("Component '").concat(id).concat("' not found"))
}

/// The component the registry found, or the not-found error for its identifier.
pub fn found_component(component_id: &str, component: Option<ComponentSummary>) -> (r: Result<ComponentSummary, ApiError>)
    ensures
        match component {
            Some(c) => r == Ok::<ComponentSummary, ApiError>(c),
            None => r matches Err(e) && e@ == error_spec(
                ErrorCode::VendorSpecific,
                component_not_found_message(component_id@),
                Some(VendorError::NotFound),
            ),
        },
{
    match component {
        Some(c) => Ok(c),
        None => Err(component_not_found(component_id)),
    }
}

/// The listing of the components the registry holds, each referenced under
/// `<base>/components/<id>`; no components at all is answered as not found.
pub fn list_entities(base_uri: &str, components: &Vec<ComponentSummary>) -> (r: Result<EntityResponse, ApiError>)
    ensures
        components@.len() == 0 ==> (r matches Err(e) && e@ == error_spec(
            ErrorCode::VendorSpecific,
            "No components found"@,
            Some(VendorError::NotFound),
        )),
        components@.len() > 0 ==> (r matches Ok(l) && l.items@.len() == components@.len() && forall|i: int|
            0 <= i < components@.len() ==> {
                &&& (#[trigger] l.items@[i]).entity.id@ == components@[i].id@
                &&& l.items@[i].entity.name@ == components@[i].name@
                &&& l.items@[i].entity.translation_id is None
                &&& l.items@[i].href@ == base_uri@ + "/components/"@ + components@[i].id@
                &&& l.items@[i].tags@.len() == 0
            }),
{
    if components.len() == 0 {
        return Err(ApiError::not_found("No components found"));
    }
    let mut items: Vec<EntityReference> = Vec::new();
    let mut i: usize = 0;
    while i < components.len()
        invariant
            i <= components@.len(),
            items@.len() == i,
            forall|j: int| 0 <= j < i ==> {
                &&& (#[trigger] items@[j]).entity.id@ == components@[j].id@
                &&& items@[j].entity.name@ == components@[j].name@
                &&& items@[j].entity.translation_id is None
                &&& items@[j].href@ == base_uri@ + "/components/"@ + components@[j].id@
                &&& items@[j].tags@.len() == 0
            },
        decreases components@.len() - i,
    {
        let c = &components[i];
        let href = String::from_str(base_uri).concat("/components/").concat(c.id.as_str());
        items.push(EntityReference {
            entity: EntityId { id: c.id.clone(), name: c.name.clone(), translation_id: None },
            href,
            tags: Vec::new(),
        });
        i = i + 1;
    }
    Ok(EntityResponse { items })
}

/// The capabilities of a component: its identification and the URIs of its
/// data and data lists.
pub fn list_capabilities(component_id: &str, component: Option<ComponentSummary>) -> (r: Result<
    EntityCapabilitiesResponse,
    ApiError,
>)
    ensures
        match component {
            Some(c) => r matches Ok(caps) && caps.entity.id == c.id && caps.entity.name == c.name
                && caps.entity.translation_id is None && caps.variant is None
                && caps.resources.data.deep_view() == Some("/opensovd/v1/components/"@ + component_id@ + "/data"@)
                && caps.resources.data_list.deep_view() == Some(
                "/opensovd/v1/components/"@ + component_id@ + "/data-lists"@,
            ) && caps.resources.configurations is None && caps.resources.faults is None
                && caps.resources.operations is None && caps.resources.updates is None
                && caps.resources.modes is None && caps.resources.locks is None && caps.resources.logs is None
                && caps.resources.communication_logs is None && caps.resources.cyclic_subscriptions is None
                && caps.resources.scripts is None && caps.resources.triggers is None
                && only_components(caps.relationships, None),
            None => r matches Err(e) && e@ == error_spec(
                ErrorCode::VendorSpecific,
                component_not_found_message(component_id@),
                Some(VendorError::NotFound),
            ),
        },
{
    let comp = match found_component(component_id, component) {
        Ok(c) => c,
        Err(e) => return Err(e),
    };
    let prefix = String::from_str("/opensovd/v1/components/").concat(component_id);
    let resources = Resources {
        configurations: None,
        data: Some(prefix.clone().concat("/data")),
        data_list: Some(prefix.concat("/data-lists")),
        faults: None,
        operations: None,
        updates: None,
        modes: None,
        locks: None,
        logs: None,
        communication_logs: None,
        cyclic_subscriptions: None,
        scripts: None,
        triggers: None,
    };
    let relationships = EntityRelationships {
        areas: None,
        components: None,
        apps: None,
        functions: None,
        subareas: None,
        subcomponents: None,
        contains: None,
        hosts: None,
        belongs_to: None,
        depends_on: None,
        is_located_on: None,
    };
    Ok(EntityCapabilitiesResponse {
        entity: EntityId { id: comp.id, name: comp.name, translation_id: None },
        variant: None,
        relationships,
        resources,
    })
}

/// A data value as the API answers it, with the errors of reading it.
#[derive(Debug, Clone, PartialEq)]
pub struct DataValueResponse {
    pub id: String,
    pub data: serde_json::Value,
    pub errors: Vec<DataErrorResponse>,
    pub schema: Option<serde_json::Value>,
}

/// The answer to a read: the value, or `null` with the error of the read.
pub fn data_value_response(data_id: &str, result: Result<serde_json::Value, DataError>) -> (r: DataValueResponse)
    ensures
        r.id@ == data_id@,
        r.schema is None,
        match result {
            Ok(v) => r.data == v && r.errors@.len() == 0,
            Err(e) => r.data == parsed_json("null"@) && r.errors@.len() == 1 && r.errors@[0].path is None
                && r.errors@[0].error.error_code == data_error_parts(e).0
                && r.errors@[0].error.vendor_code == data_error_parts(e).1
                && r.errors@[0].error.message@ == data_error_parts(e).2,
        },
{
    match result {
        Ok(data) => DataValueResponse { id: String::from_str(data_id), data, errors: Vec::new(), schema: None },
        Err(data_error) => {
            let mut errors: Vec<DataErrorResponse> = Vec::new();
            errors.push(data_error_to_response(data_error));
            DataValueResponse { id: String::from_str(data_id), data: json_from_text("null"), errors, schema: None }
        },
    }
}

/// The answer to a write: nothing, or the API error of the data error.
pub fn data_write_response(result: Result<(), DataError>) -> (r: Result<(), ApiError>)
    ensures
        match result {
            Ok(()) => r is Ok,
            Err(e) => r matches Err(x) && x@ == error_spec(
                api_error_parts(e).0,
                api_error_parts(e).1,
                api_error_parts(e).2,
            ),
        },
{
    match result {
        Ok(()) => Ok(()),
        Err(e) => Err(ApiError::from(e)),
    }
}

/// The answer to a data listing: the items as the API lists them, or an
/// internal error with the text of the failure.
pub fn data_list_response(result: Result<Vec<DataItem>, String>) -> (r: Result<Vec<DataResourceItem>, ApiError>)
    ensures
        match result {
            Ok(items) => r matches Ok(l) && l@.len() == items@.len() && forall|i: int|
                0 <= i < items@.len() ==> (#[trigger] l@[i]).id == items@[i].id && l@[i].name == items@[i].name
                    && l@[i].category == items@[i].category && l@[i].translation_id is None,
            Err(m) => r matches Err(x) && x@ == error_spec(
                ErrorCode::VendorSpecific,
                "Failed to list data: "@ + m@,
                Some(VendorError::InternalError),
            ),
        },
{
    match result {
        Ok(items) => Ok(data_items_to_resource_items(items)),
        Err(m) => Err(ApiError::internal_error(String::from_str("Failed to list data: ").concat(m.as_str()))),
    }
}

} // verus!
