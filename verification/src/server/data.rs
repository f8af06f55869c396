use vstd::prelude::*;

use crate::diagnostic::data::{schema_for_value, value_schema, DataService, DataWithSchema};
use crate::diagnostic::diagnostic::{Diagnostic, ServiceError, ServiceType};
use crate::models::data::{
    DataCategory, DataCategoryResponse, DataError, DataGroupQuery, DataGroupResponse, DataResourceQuery,
    DataResourceResponse, ReadValue, ValueMetaData, ValueGroup, DataCategoryInformation, DataCategoryView,
    opt_category_view,
};
use crate::models::error::ErrorCode;
use crate::server::convert::{
    api_error_of_data_error, parse_categories, parse_single_category, parsed_categories, parsed_category,
};
use crate::server::response::{error_spec, ApiError, ErrorBodyView, VendorError};
use crate::server::routes::component_not_found_message;
use crate::text::clone_strings;

verus! {

/// The message for a component without a data service.
pub open spec fn no_data_service_message() -> Seq<char> {
    "Data service not available for this component"@
}

/// Why the data service of a component cannot be had, if it cannot: the
/// component is not there, or it has no data service.
pub open spec fn lookup_error<S>(diagnostic: Diagnostic<S>, component_id: Seq<char>) -> Option<ErrorBodyView> {
    if !diagnostic.entities_view().contains_key(component_id) {
        Some(error_spec(ErrorCode::VendorSpecific, component_not_found_message(component_id), Some(VendorError::NotFound)))
    } else if !diagnostic.services_view().contains_key(component_id) {
        Some(error_spec(ErrorCode::VendorSpecific, no_data_service_message(), Some(VendorError::NotFound)))
    } else {
        None
    }
}

/// The error is the answer to some data error.
pub open spec fn from_data_error(e: ApiError) -> bool {
    exists|d: DataError| e == api_error_of_data_error(d)
}

/// What an outcome of a data handler can be, given the lookup of the service:
/// the lookup error where there is one, and otherwise success or the answer to
/// the service's data error.
pub open spec fn handler_outcome<S, T>(diagnostic: Diagnostic<S>, component_id: Seq<char>, r: Result<T, ApiError>) -> bool {
    match lookup_error(diagnostic, component_id) {
        Some(e) => r matches Err(x) && x@ == e,
        None => r is Ok || (r matches Err(x) && from_data_error(x)),
    }
}

fn lookup_failure(e: ServiceError, component_id: &str) -> (r: ApiError)
    ensures
        e matches ServiceError::EntityNotFound { .. } ==> r@ == error_spec(
            ErrorCode::VendorSpecific,
            component_not_found_message(component_id@),
            Some(VendorError::NotFound),
        ),
        e matches ServiceError::ServiceNotFound { .. } ==> r@ == error_spec(
            ErrorCode::VendorSpecific,
            no_data_service_message(),
            Some(VendorError::NotFound),
        ),
{
    match e {
        ServiceError::EntityNotFound { .. } => {
            let m = String::from_str("Component '").concat(component_id).concat("' not found");
            ApiError::not_found(m)
        },
        ServiceError::ServiceNotFound { .. } => ApiError::not_found("Data service not available for this component"),
    }
}

/// The data service of a component.
fn data_service_of<'a, S: ServiceType>(diagnostic: &'a Diagnostic<S>, component_id: &str) -> (r: Result<&'a S, ApiError>)
    requires
        diagnostic.wf(),
    ensures
        match r {
            Ok(s) => lookup_error(*diagnostic, component_id@) is None && *s == diagnostic.services_view()[component_id@],
            Err(e) => lookup_error(*diagnostic, component_id@) == Some(e@),
        },
{
    match diagnostic.get_service(component_id) {
        Ok(s) => Ok(s),
        Err(e) => Err(lookup_failure(e, component_id)),
    }
}

/// The API error a data error is answered with.
fn answer_data_error(e: DataError) -> (r: ApiError)
    ensures
        r == api_error_of_data_error(e),
        from_data_error(r),
{
    ApiError::from(e)
}

// ----------------------------------------------------------------------------
// Listing data values
// ----------------------------------------------------------------------------

/// The categories a data listing selects: those the query names, unknown
/// names left out.
pub open spec fn query_categories(query: DataResourceQuery) -> Seq<DataCategoryView> {
    match query.categories {
        Some(c) => parsed_categories(c.deep_view()),
        None => Seq::empty(),
    }
}

/// The groups a data listing selects: those the query names.
pub open spec fn query_groups(query: DataResourceQuery) -> Seq<Seq<char>> {
    match query.groups {
        Some(g) => g.deep_view(),
        None => Seq::empty(),
    }
}

/// The categories and groups a data listing hands to the service: the
/// categories the query names (unknown names left out) and its groups.
pub fn data_list_arguments(query: &DataResourceQuery) -> (r: (Vec<DataCategory>, Vec<String>))
    ensures
        r.0@.map_values(|c: DataCategory| c@) == query_categories(*query),
        r.1.deep_view() == query_groups(*query),
{
    let categories = match &query.categories {
        Some(c) => {
            let r = parse_categories(Some(c.as_slice()));
            assert(c@.map_values(|s: String| s@) =~= c.deep_view());
            r
        },
        None => parse_categories(None),
    };
    let groups = match &query.groups {
        Some(g) => clone_strings(g),
        None => {
            let v: Vec<String> = Vec::new();
            assert(v.deep_view() =~= Seq::<Seq<char>>::empty());
            v
        },
    };
    (categories, groups)
}

/// `r` answers what the service listed: the items, or the answer to its error.
pub open spec fn list_answer(result: Result<Vec<ValueMetaData>, DataError>, r: Result<DataResourceResponse, ApiError>) -> bool {
    match result {
        Ok(items) => r matches Ok(resp) && resp.items == items,
        Err(e) => r matches Err(x) && x == api_error_of_data_error(e),
    }
}

/// The answer to what the service listed.
pub fn data_list_response(result: Result<Vec<ValueMetaData>, DataError>) -> (r: Result<DataResourceResponse, ApiError>)
    ensures
        list_answer(result, r),
{
    match result {
        Ok(items) => Ok(DataResourceResponse { items }),
        Err(e) => Err(answer_data_error(e)),
    }
}

/// Lists the data values of a component: its data service is asked for the
/// values of the component in the categories and groups of
/// [`data_list_arguments`], and what it lists is answered.
pub fn list_data_resources<S: DataService + ServiceType>(
    diagnostic: &Diagnostic<S>,
    component_id: &str,
    query: &DataResourceQuery,
) -> (r: Result<DataResourceResponse, ApiError>)
    requires
        diagnostic.wf(),
    ensures
        handler_outcome(*diagnostic, component_id@, r),
        lookup_error(*diagnostic, component_id@) is None ==> exists|x: Result<Vec<ValueMetaData>, DataError>|
            #[trigger] diagnostic.services_view()[component_id@].list_outcome(
                component_id@,
                query_categories(*query),
                query_groups(*query),
                x,
            ) && list_answer(x, r),
{
    let service = match data_service_of(diagnostic, component_id) {
        Ok(s) => s,
        Err(e) => return Err(e),
    };
    let (categories, groups) = data_list_arguments(query);
    data_list_response(service.list(component_id, categories, groups))
}

// ----------------------------------------------------------------------------
// Reading and writing data values
// ----------------------------------------------------------------------------

/// `r` answers what the service read: the value, with the JSON schema of its
/// data where one is asked for, or the answer to its error.
pub open spec fn read_answer(
    result: Result<ReadValue, DataError>,
    include_schema: bool,
    r: Result<DataWithSchema<ReadValue>, ApiError>,
) -> bool {
    match result {
        Ok(v) => r matches Ok(resp) && resp.data == v && resp.schema == (if include_schema {
            Some(schema_for_value(v.data))
        } else {
            None
        }),
        Err(e) => r matches Err(x) && x == api_error_of_data_error(e),
    }
}

/// The answer to what the service read: the value, with the JSON schema of its
/// data where one is asked for.
pub fn data_read_response(result: Result<ReadValue, DataError>, include_schema: bool) -> (r: Result<
    DataWithSchema<ReadValue>,
    ApiError,
>)
    ensures
        read_answer(result, include_schema, r),
{
    match result {
        Ok(v) => {
            if include_schema {
                let schema = value_schema(&v.data);
                Ok(DataWithSchema::with_schema(v, schema))
            } else {
                Ok(DataWithSchema::new(v))
            }
        },
        Err(e) => Err(answer_data_error(e)),
    }
}

/// Reads a data value of a component: its data service is asked for the value
/// under the identifier, and what it reads is answered.
pub fn get_data_value<S: DataService + ServiceType>(
    diagnostic: &Diagnostic<S>,
    component_id: &str,
    data_id: &str,
    include_schema: bool,
) -> (r: Result<DataWithSchema<ReadValue>, ApiError>)
    requires
        diagnostic.wf(),
    ensures
        handler_outcome(*diagnostic, component_id@, r),
        lookup_error(*diagnostic, component_id@) is None ==> exists|x: Result<ReadValue, DataError>|
            #[trigger] diagnostic.services_view()[component_id@].read_outcome(component_id@, data_id@, x)
                && read_answer(x, include_schema, r),
        r matches Ok(v) ==> v.schema == (if include_schema {
            Some(schema_for_value(v.data.data))
        } else {
            None
        }),
{
    let service = match data_service_of(diagnostic, component_id) {
        Ok(s) => s,
        Err(e) => return Err(e),
    };
    data_read_response(service.read(component_id, data_id), include_schema)
}

/// `r` answers the outcome of a write: success, or the answer to its error.
pub open spec fn write_answer(result: Result<(), DataError>, r: Result<(), ApiError>) -> bool {
    match result {
        Ok(()) => r is Ok,
        Err(e) => r matches Err(x) && x == api_error_of_data_error(e),
    }
}

/// The answer to a write.
pub fn data_write_response(result: Result<(), DataError>) -> (r: Result<(), ApiError>)
    ensures
        write_answer(result, r),
{
    match result {
        Ok(()) => Ok(()),
        Err(e) => Err(answer_data_error(e)),
    }
}

/// Writes a data value of a component: its data service is handed the value
/// to write under the identifier, and the outcome is answered; only that
/// component's service changes.
pub fn set_data_value<S: DataService + ServiceType>(
    diagnostic: &mut Diagnostic<S>,
    component_id: &str,
    data_id: &str,
    value: serde_json::Value,
) -> (r: Result<(), ApiError>)
    requires
        old(diagnostic).wf(),
    ensures
        final(diagnostic).wf(),
        handler_outcome(*old(diagnostic), component_id@, r),
        final(diagnostic).entities_view() == old(diagnostic).entities_view(),
        final(diagnostic).services_view().dom() == old(diagnostic).services_view().dom(),
        forall|k: Seq<char>| k != component_id@ && #[trigger] old(diagnostic).services_view().contains_key(k)
            ==> final(diagnostic).services_view()[k] == old(diagnostic).services_view()[k],
        lookup_error(*old(diagnostic), component_id@) is Some ==> *final(diagnostic) == *old(diagnostic),
        lookup_error(*old(diagnostic), component_id@) is None ==> exists|x: Result<(), DataError>|
            #[trigger] old(diagnostic).services_view()[component_id@].write_outcome(
                final(diagnostic).services_view()[component_id@],
                component_id@,
                data_id@,
                value,
                x,
            ) && write_answer(x, r),
{
    match diagnostic.get_service_mut(component_id) {
        Ok(service) => {
            let ghost handed = value;
            let result = service.write(component_id, data_id, value);
            let r = data_write_response(result);
            assert(old(diagnostic).services_view()[component_id@].write_outcome(
                diagnostic.services_view()[component_id@],
                component_id@,
                data_id@,
                handed,
                result,
            ));
            r
        },
        Err(e) => Err(lookup_failure(e, component_id)),
    }
}

// ----------------------------------------------------------------------------
// Categories and groups
// ----------------------------------------------------------------------------

/// `r` answers the categories the service listed: the items, or the answer to
/// its error.
pub open spec fn categories_answer(
    result: Result<Vec<DataCategoryInformation>, DataError>,
    r: Result<DataCategoryResponse, ApiError>,
) -> bool {
    match result {
        Ok(items) => r matches Ok(resp) && resp.items == items,
        Err(e) => r matches Err(x) && x == api_error_of_data_error(e),
    }
}

/// The answer to the categories the service listed.
pub fn data_categories_response(result: Result<Vec<DataCategoryInformation>, DataError>) -> (r: Result<
    DataCategoryResponse,
    ApiError,
>)
    ensures
        categories_answer(result, r),
{
    match result {
        Ok(items) => Ok(DataCategoryResponse { items }),
        Err(e) => Err(answer_data_error(e)),
    }
}

/// Lists the data categories of a component: its data service is asked for
/// the component's categories, and what it lists is answered.
pub fn list_data_categories<S: DataService + ServiceType>(diagnostic: &Diagnostic<S>, component_id: &str) -> (r: Result<
    DataCategoryResponse,
    ApiError,
>)
    requires
        diagnostic.wf(),
    ensures
        handler_outcome(*diagnostic, component_id@, r),
        lookup_error(*diagnostic, component_id@) is None ==> exists|x: Result<Vec<DataCategoryInformation>, DataError>|
            #[trigger] diagnostic.services_view()[component_id@].categories_outcome(component_id@, x)
                && categories_answer(x, r),
{
    let service = match data_service_of(diagnostic, component_id) {
        Ok(s) => s,
        Err(e) => return Err(e),
    };
    data_categories_response(service.list_categories(component_id))
}

/// The category a group listing selects: the one the query names, if it names
/// a known one.
pub open spec fn query_category(query: DataGroupQuery) -> Option<DataCategoryView> {
    match query.category {
        Some(c) => parsed_category(c@),
        None => None,
    }
}

/// The category a group listing hands to the service: the one the query names,
/// if it names one.
pub fn data_group_category(query: &DataGroupQuery) -> (r: Option<DataCategory>)
    ensures
        opt_category_view(r) == query_category(*query),
{
    match &query.category {
        Some(c) => parse_single_category(c.as_str()),
        None => None,
    }
}

/// `r` answers the groups the service listed: the items, or the answer to its
/// error.
pub open spec fn groups_answer(result: Result<Vec<ValueGroup>, DataError>, r: Result<DataGroupResponse, ApiError>) -> bool {
    match result {
        Ok(items) => r matches Ok(resp) && resp.items == items,
        Err(e) => r matches Err(x) && x == api_error_of_data_error(e),
    }
}

/// The answer to the groups the service listed.
pub fn data_groups_response(result: Result<Vec<ValueGroup>, DataError>) -> (r: Result<DataGroupResponse, ApiError>)
    ensures
        groups_answer(result, r),
{
    match result {
        Ok(items) => Ok(DataGroupResponse { items }),
        Err(e) => Err(answer_data_error(e)),
    }
}

/// Lists the data groups of a component: its data service is asked for the
/// groups of the category of [`data_group_category`], and what it lists is
/// answered.
pub fn list_data_groups<S: DataService + ServiceType>(
    diagnostic: &Diagnostic<S>,
    component_id: &str,
    query: &DataGroupQuery,
) -> (r: Result<DataGroupResponse, ApiError>)
    requires
        diagnostic.wf(),
    ensures
        handler_outcome(*diagnostic, component_id@, r),
        lookup_error(*diagnostic, component_id@) is None ==> exists|x: Result<Vec<ValueGroup>, DataError>|
            #[trigger] diagnostic.services_view()[component_id@].groups_outcome(component_id@, query_category(*query), x)
                && groups_answer(x, r),
{
    let service = match data_service_of(diagnostic, component_id) {
        Ok(s) => s,
        Err(e) => return Err(e),
    };
    let category = data_group_category(query);
    data_groups_response(service.list_groups(component_id, category))
}

/// A data listing hands the service exactly the groups its query names, in
/// order, and none where it names none.
pub proof fn lemma_query_groups_handed_on(query: DataResourceQuery)
    ensures
        query.groups is None ==> query_groups(query).len() == 0,
        query.groups matches Some(g) ==> query_groups(query).len() == g@.len() && forall|i: int|
            0 <= i < g@.len() ==> #[trigger] query_groups(query)[i] == g@[i]@,
{
}

} // verus!
