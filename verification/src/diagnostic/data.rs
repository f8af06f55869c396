use vstd::prelude::*;

use crate::json::{json_from_text, parsed_json};
use crate::models::data::{
    opt_category_view, DataCategory, DataCategoryInformation, DataCategoryView, DataError, ReadValue, ValueGroup,
    ValueMetaData,
};

verus! {

/// A value with the JSON schema that describes it, where one was made.
#[derive(Debug, Clone, PartialEq)]
pub struct DataWithSchema<T> {
    pub data: T,
    pub schema: Option<serde_json::Value>,
}

impl<T> DataWithSchema<T> {
    /// The value without a schema.
    pub fn new(data: T) -> (r: Self)
        ensures
            r.data == data,
            r.schema is None,
    {
        DataWithSchema { data, schema: None }
    }

    /// The value with its schema.
    pub fn with_schema(data: T, schema: serde_json::Value) -> (r: Self)
        ensures
            r.data == data,
            r.schema == Some(schema),
    {
        DataWithSchema { data, schema: Some(schema) }
    }
}

/// The JSON schema `schemars` generates for a JSON value, or none where it
/// fails: a function of the value alone.
pub uninterp spec fn generated_schema(v: serde_json::Value) -> Option<serde_json::Value>;

/// The JSON schema of a value.
///
/// Trusted: calls `schemars::SchemaGenerator::into_root_schema_for_value` and
/// `Schema::to_value`; the contract names the result `generated_schema` of the
/// value.
#[verifier::external_body]
fn generate_schema(v: &serde_json::Value) -> (r: Option<serde_json::Value>)
    ensures
        r == generated_schema(*v),
{
    match schemars::SchemaGenerator::default().into_root_schema_for_value(v) {
        Ok(schema) => Some(schema.to_value()),
        Err(_) => None,
    }
}

/// The schema attached to a value: the generated one, or the empty schema `{}`.
pub open spec fn schema_for_value(v: serde_json::Value) -> serde_json::Value {
    match generated_schema(v) {
        Some(s) => s,
        None => parsed_json("{}"@),
    }
}

/// The JSON schema of a value, `{}` where none can be generated.
pub fn value_schema(v: &serde_json::Value) -> (r: serde_json::Value)
    ensures
        r == schema_for_value(*v),
{
    match generate_schema(v) {
        Some(s) => s,
        None => json_from_text("{}"),
    }
}

/// The data resources of an entity, as a diagnostic system offers them.
///
/// Each operation is described by a spec function of the implementing type,
/// which relates what the operation was handed to what it answered (and, for a
/// write, the service before the call to the service after it).
pub trait DataService: Sized {
    /// The listing of the values in the categories and groups is an answer the
    /// service may give.
    spec fn list_outcome(
        &self,
        entity_id: Seq<char>,
        categories: Seq<DataCategoryView>,
        groups: Seq<Seq<char>>,
        r: Result<Vec<ValueMetaData>, DataError>,
    ) -> bool;

    /// The listing of the categories is an answer the service may give.
    spec fn categories_outcome(&self, entity_id: Seq<char>, r: Result<Vec<DataCategoryInformation>, DataError>) -> bool;

    /// The listing of the groups of the category (of all, where none is given)
    /// is an answer the service may give.
    spec fn groups_outcome(
        &self,
        entity_id: Seq<char>,
        category: Option<DataCategoryView>,
        r: Result<Vec<ValueGroup>, DataError>,
    ) -> bool;

    /// The read of the value is an answer the service may give.
    spec fn read_outcome(&self, entity_id: Seq<char>, data_id: Seq<char>, r: Result<ReadValue, DataError>) -> bool;

    /// Writing the value may take the service to `after` with the answer.
    spec fn write_outcome(
        &self,
        after: Self,
        entity_id: Seq<char>,
        data_id: Seq<char>,
        value: serde_json::Value,
        r: Result<(), DataError>,
    ) -> bool;

    /// The metadata of the values in the given categories and groups (an empty
    /// list selects all).
    fn list(&self, entity_id: &str, categories: Vec<DataCategory>, groups: Vec<String>) -> (r: Result<
        Vec<ValueMetaData>,
        DataError,
    >)
        ensures
            self.list_outcome(entity_id@, categories@.map_values(|c: DataCategory| c@), groups.deep_view(), r),
    ;

    /// The categories of the values.
    fn list_categories(&self, entity_id: &str) -> (r: Result<Vec<DataCategoryInformation>, DataError>)
        ensures
            self.categories_outcome(entity_id@, r),
    ;

    /// The groups of the values, of one category or of all.
    fn list_groups(&self, entity_id: &str, category: Option<DataCategory>) -> (r: Result<Vec<ValueGroup>, DataError>)
        ensures
            self.groups_outcome(entity_id@, opt_category_view(category), r),
    ;

    /// Reads a value.
    fn read(&self, entity_id: &str, data_id: &str) -> (r: Result<ReadValue, DataError>)
        ensures
            self.read_outcome(entity_id@, data_id@, r),
    ;

    /// Writes a value.
    fn write(&mut self, entity_id: &str, data_id: &str, value: serde_json::Value) -> (r: Result<(), DataError>)
        ensures
            old(self).write_outcome(*final(self), entity_id@, data_id@, value, r),
    ;

    /// Reads a value and attaches the JSON schema of its data.
    fn read_with_schema(&self, entity_id: &str, data_id: &str) -> (r: Result<DataWithSchema<ReadValue>, DataError>)
        ensures
            exists|x: Result<ReadValue, DataError>| #[trigger] self.read_outcome(entity_id@, data_id@, x)
                && schema_attached(x, r),
    {
        attach_schema(self.read(entity_id, data_id))
    }
}

/// A read with schema answers `r` for the outcome of a read: the value with
/// the schema of its data, or the read's error unchanged.
pub open spec fn schema_attached(
    result: Result<ReadValue, DataError>,
    r: Result<DataWithSchema<ReadValue>, DataError>,
) -> bool {
    match result {
        Ok(v) => r matches Ok(w) && w.data == v && w.schema == Some(schema_for_value(v.data)),
        Err(e) => r == Err::<DataWithSchema<ReadValue>, DataError>(e),
    }
}

/// What a read with schema answers for the outcome of a read: the value with
/// the schema of its data, or the read's error unchanged.
pub fn attach_schema(result: Result<ReadValue, DataError>) -> (r: Result<DataWithSchema<ReadValue>, DataError>)
    ensures
        schema_attached(result, r),
{
    match result {
        Ok(value) => {
            let schema = value_schema(&value.data);
            Ok(DataWithSchema::with_schema(value, schema))
        },
        Err(e) => Err(e),
    }
}

} // verus!
