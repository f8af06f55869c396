use std::collections::HashMap;
use vstd::prelude::*;

use crate::models::error::{ErrorCode, GenericError, GenericErrorView};
use crate::text::{clone_opt_string, clone_strings, IntoText};

verus! {

// ============================================================================
// Data categories
// ============================================================================

/// The category of a data value (ISO 17978-3, section 7.9).
#[derive(Debug, Eq, Hash)]
pub enum DataCategory {
    /// Identification data: static information about the entity.
    IdentData,
    /// Current data: live values.
    CurrentData,
    /// Stored data: historical or logged values.
    StoredData,
    /// System information: diagnostic or status data.
    SysInfo,
    /// A vendor-specific category, `x-<extension>`.
    Vendor(String),
}

/// The mathematical value of a [`DataCategory`].
pub enum DataCategoryView {
    IdentData,
    CurrentData,
    StoredData,
    SysInfo,
    Vendor(Seq<char>),
}

impl View for DataCategory {
    type V = DataCategoryView;

    open spec fn view(&self) -> DataCategoryView {
        match self {
            DataCategory::IdentData => DataCategoryView::IdentData,
            DataCategory::CurrentData => DataCategoryView::CurrentData,
            DataCategory::StoredData => DataCategoryView::StoredData,
            DataCategory::SysInfo => DataCategoryView::SysInfo,
            DataCategory::Vendor(s) => DataCategoryView::Vendor(s@),
        }
    }
}

/// The view of an optional category.
pub open spec fn opt_category_view(c: Option<DataCategory>) -> Option<DataCategoryView> {
    match c {
        Some(x) => Some(x@),
        None => None,
    }
}

/// The name under which a category is shown and written on the wire.
pub open spec fn category_name(c: DataCategoryView) -> Seq<char> {
    match c {
        DataCategoryView::IdentData => "identData"@,
        DataCategoryView::CurrentData => "currentData"@,
        DataCategoryView::StoredData => "storedData"@,
        DataCategoryView::SysInfo => "sysInfo"@,
        DataCategoryView::Vendor(s) => s,
    }
}

impl Clone for DataCategory {
    fn clone(&self) -> (r: Self)
        ensures
            r@ == self@,
    {
        match self {
            DataCategory::IdentData => DataCategory::IdentData,
            DataCategory::CurrentData => DataCategory::CurrentData,
            DataCategory::StoredData => DataCategory::StoredData,
            DataCategory::SysInfo => DataCategory::SysInfo,
            DataCategory::Vendor(s) => DataCategory::Vendor(s.clone()),
        }
    }
}

impl PartialEq for DataCategory {
    fn eq(&self, other: &Self) -> (r: bool) {
        match (self, other) {
            (DataCategory::IdentData, DataCategory::IdentData) => true,
            (DataCategory::CurrentData, DataCategory::CurrentData) => true,
            (DataCategory::StoredData, DataCategory::StoredData) => true,
            (DataCategory::SysInfo, DataCategory::SysInfo) => true,
            (DataCategory::Vendor(a), DataCategory::Vendor(b)) => *a == *b,
            _ => false,
        }
    }
}

impl vstd::std_specs::cmp::PartialEqSpecImpl for DataCategory {
    open spec fn obeys_eq_spec() -> bool {
        true
    }

    open spec fn eq_spec(&self, other: &Self) -> bool {
        self@ == other@
    }
}

impl DataCategory {
    /// Creates a vendor category after checking its format (`x-<extension>`).
    pub fn new_vendor<C: IntoText>(category: C) -> (r: Result<Self, DataCategoryError>)
        ensures
            match r {
                Ok(c) => valid_vendor_category(category.text_view())
                    && c@ == DataCategoryView::Vendor(category.text_view()),
                Err(DataCategoryError::InvalidFormat(s)) => !valid_vendor_category(category.text_view())
                    && s@ == category.text_view(),
            },
    {
        let category_str = category.into_text();
        if is_valid_vendor_category(category_str.as_str()) {
            Ok(DataCategory::Vendor(category_str))
        } else {
            Err(DataCategoryError::InvalidFormat(category_str))
        }
    }

    /// The name under which the category is shown (`identData`, ..., or the vendor name).
    pub fn to_string(&self) -> (r: String)
        ensures
            r@ == category_name(self@),
    {
        match self {
            DataCategory::IdentData => String::from_str("identData"),
            DataCategory::CurrentData => String::from_str("currentData"),
            DataCategory::StoredData => String::from_str("storedData"),
            DataCategory::SysInfo => String::from_str("sysInfo"),
            DataCategory::Vendor(s) => s.clone(),
        }
    }
}


/// True for the characters that may stand in the extension of a vendor category:
/// lower-case ASCII letters, ASCII digits, `_` and `-`.
pub open spec fn is_extension_char(c: char) -> bool {
    ||| ('a' <= c && c <= 'z')
    ||| ('0' <= c && c <= '9')
    ||| c == '_'
    ||| c == '-'
}

/// `s` starts with the reserved prefix `x-sovd-`.
pub open spec fn has_reserved_prefix(s: Seq<char>) -> bool {
    &&& s.len() >= 7
    &&& s[0] == 'x' && s[1] == '-' && s[2] == 's' && s[3] == 'o'
    &&& s[4] == 'v' && s[5] == 'd' && s[6] == '-'
}

/// The format of a vendor data category: `x-<extension>`, where the extension is
/// not empty and holds only extension characters, the name has no two hyphens in
/// a row anywhere and does not end with a hyphen, and it does not start with
/// `x-sovd-`.
pub open spec fn valid_vendor_category(s: Seq<char>) -> bool {
    &&& s.len() > 2
    &&& s[0] == 'x' && s[1] == '-'
    &&& !has_reserved_prefix(s)
    &&& forall|i: int| 2 <= i < s.len() ==> is_extension_char(#[trigger] s[i])
    &&& forall|i: int| 0 <= i < s.len() - 1 ==> !(#[trigger] s[i] == '-' && s[i + 1] == '-')
    &&& s[s.len() - 1] != '-'
}

/// Validates the format of a vendor category (`x-<extension>`).
pub fn is_valid_vendor_category(category: &str) -> (r: bool)
    ensures
        r == valid_vendor_category(category@),
{
    let n = category.unicode_len();
    if n <= 2 {
        return false;
    }
    if category.get_char(0) != 'x' || category.get_char(1) != '-' {
        return false;
    }
    if n >= 7 && category.get_char(2) == 's' && category.get_char(3) == 'o' && category.get_char(4) == 'v'
        && category.get_char(5) == 'd' && category.get_char(6) == '-' {
        return false;
    }
    let ghost s = category@;
    let mut prev_was_hyphen = true;
    let mut i: usize = 2;
    while i < n
        invariant
            s == category@,
            n == s.len(),
            2 <= i <= n,
            s[0] == 'x' && s[1] == '-',
            prev_was_hyphen == (s[i - 1] == '-'),
            forall|j: int| 2 <= j < i ==> is_extension_char(#[trigger] s[j]),
            forall|j: int| 0 <= j < i - 1 ==> !(#[trigger] s[j] == '-' && s[j + 1] == '-'),
        decreases n - i,
    {
        let c = category.get_char(i);
        if !((c >= 'a' && c <= 'z') || (c >= '0' && c <= '9') || c == '_' || c == '-') {
            assert(!is_extension_char(s[i as int]));
            return false;
        }
        if c == '-' {
            if prev_was_hyphen {
                assert(s[i - 1] == '-' && s[i as int] == '-');
                return false;
            }
            prev_was_hyphen = true;
        } else {
            prev_was_hyphen = false;
        }
        i = i + 1;
    }
    !prev_was_hyphen
}


/// Error of data category validation.
#[derive(Debug, Clone, PartialEq)]
pub enum DataCategoryError {
    /// The vendor category does not have the format `x-<extension>`.
    InvalidFormat(String),
}

impl DataCategoryError {
    /// The message of the error: `Invalid vendor category format: '<category>'.`
    pub fn to_string(&self) -> (r: String)
        ensures
            match self {
                DataCategoryError::InvalidFormat(s) => r@ == "Invalid vendor category format: '"@ + s@ + "'."@,
            },
    {
        match self {
            DataCategoryError::InvalidFormat(s) => {
                let r = String::from_str("Invalid vendor category format: '");
                let r = r.concat(s.as_str());
                r.concat("'.")
            },
        }
    }
}

/// Information about a data category (ISO 17978-3, section 7.9.2.1).
#[derive(Debug, Clone, PartialEq)]
pub struct DataCategoryInformation {
    /// The data category.
    pub item: DataCategory,
    /// Optional translation identifier of the category name.
    pub category_translation_id: Option<String>,
}

/// The data categories an entity offers.
#[derive(Debug, Clone, PartialEq)]
pub struct DataCategoryResponse {
    pub items: Vec<DataCategoryInformation>,
}

// ============================================================================
// Data groups
// ============================================================================

/// A value group.
#[derive(Debug, Clone, PartialEq)]
pub struct ValueGroup {
    /// Identifier of the group, unique across all categories.
    pub id: String,
    /// The category for which the group is defined.
    pub category: DataCategory,
    /// Optional translation identifier of the category.
    pub category_translation_id: Option<String>,
    /// Name of the group.
    pub group: Option<String>,
    /// Optional translation identifier of the group name.
    pub group_translation_id: Option<String>,
}

/// The value groups of an entity.
#[derive(Debug, Clone, PartialEq)]
pub struct DataGroupResponse {
    pub items: Vec<ValueGroup>,
}

/// Query parameters of a data group listing.
#[derive(Debug, Default, Clone, PartialEq)]
pub struct DataGroupQuery {
    /// Optional category filter.
    pub category: Option<String>,
    /// Include the JSON schema in the response.
    pub include_schema: bool,
}

// ============================================================================
// Value metadata and read values
// ============================================================================

/// Metadata of a data value (ISO 17978-3, section 7.9.3).
#[derive(Debug, PartialEq)]
pub struct ValueMetaData {
    /// Identifier of the value.
    pub id: String,
    /// Name of the value.
    pub name: String,
    /// Translation identifier of the name.
    pub translation_id: Option<String>,
    /// Category of the value.
    pub category: DataCategory,
    /// Group identifiers.
    pub groups: Vec<String>,
    /// Tag identifiers.
    pub tags: Vec<String>,
}

/// The mathematical value of a [`ValueMetaData`].
pub struct ValueMetaDataView {
    pub id: Seq<char>,
    pub name: Seq<char>,
    pub translation_id: Option<Seq<char>>,
    pub category: DataCategoryView,
    pub groups: Seq<Seq<char>>,
    pub tags: Seq<Seq<char>>,
}

impl View for ValueMetaData {
    type V = ValueMetaDataView;

    open spec fn view(&self) -> ValueMetaDataView {
        ValueMetaDataView {
            id: self.id@,
            name: self.name@,
            translation_id: self.translation_id.deep_view(),
            category: self.category@,
            groups: self.groups.deep_view(),
            tags: self.tags.deep_view(),
        }
    }
}

impl Clone for ValueMetaData {
    fn clone(&self) -> (r: Self)
        ensures
            r@ == self@,
    {
        ValueMetaData {
            id: self.id.clone(),
            name: self.name.clone(),
            translation_id: clone_opt_string(&self.translation_id),
            category: self.category.clone(),
            groups: clone_strings(&self.groups),
            tags: clone_strings(&self.tags),
        }
    }
}

/// A read value (ISO 17978-3, section 7.9.4).
#[derive(Debug, Clone, PartialEq)]
pub struct ReadValue {
    /// Identifier of the value.
    pub id: String,
    /// The value.
    pub data: serde_json::Value,
    /// Errors, where the value stands for an error condition.
    pub errors: Vec<DataError>,
}

// ============================================================================
// Data errors
// ============================================================================

/// Error of a data operation.
#[derive(Debug, Clone, PartialEq)]
pub struct DataError {
    pub path: String,
    pub error: GenericError,
}

/// The mathematical value of a [`DataError`].
pub struct DataErrorView {
    pub path: Seq<char>,
    pub error: GenericErrorView,
}

impl View for DataError {
    type V = DataErrorView;

    open spec fn view(&self) -> DataErrorView {
        DataErrorView { path: self.path@, error: self.error@ }
    }
}

/// Vendor error codes of data operations.
#[derive(Debug, Clone, Copy, PartialEq, Eq, Hash, Structural)]
pub enum DataErrorCode {
    /// The data item was not found.
    DataNotFound,
    /// The data item is read-only.
    DataReadOnly,
    /// The data has an invalid format.
    InvalidDataFormat,
    /// Access was denied.
    AccessDenied,
    /// An internal error occurred.
    InternalError,
}

/// The name under which a data error code is shown.
pub open spec fn data_error_code_name(c: DataErrorCode) -> Seq<char> {
    match c {
        DataErrorCode::DataNotFound => "data-not-found"@,
        DataErrorCode::DataReadOnly => "data-read-only"@,
        DataErrorCode::InvalidDataFormat => "invalid-data-format"@,
        DataErrorCode::AccessDenied => "access-denied"@,
        DataErrorCode::InternalError => "internal-error"@,
    }
}

impl DataErrorCode {
    /// The name of the code (`data-not-found`, ...).
    pub fn to_string(&self) -> (r: String)
        ensures
            r@ == data_error_code_name(*self),
    {
        match self {
            DataErrorCode::DataNotFound => String::from_str("data-not-found"),
            DataErrorCode::DataReadOnly => String::from_str("data-read-only"),
            DataErrorCode::InvalidDataFormat => String::from_str("invalid-data-format"),
            DataErrorCode::AccessDenied => String::from_str("access-denied"),
            DataErrorCode::InternalError => String::from_str("internal-error"),
        }
    }
}

/// The data error with an empty path, the given code, vendor code and message,
/// and no translation identifier or parameters.
pub open spec fn data_error_spec(code: ErrorCode, vendor_code: Option<Seq<char>>, message: Seq<char>) -> DataErrorView {
    DataErrorView {
        path: Seq::empty(),
        error: GenericErrorView {
            error_code: code,
            vendor_code: vendor_code,
            message: message,
            translation_id: None,
            parameters: None,
        },
    }
}

impl DataError {
    fn with_code(code: ErrorCode, vendor_code: Option<String>, message: String) -> (r: Self)
        ensures
            r@ == data_error_spec(code, vendor_code.deep_view(), message@),
    {
        DataError {
            path: String::new(),
            error: GenericError {
                error_code: code,
                vendor_code: vendor_code,
                message: message,
                translation_id: None,
                parameters: None,
            },
        }
    }

    /// A vendor-specific `data-not-found` error.
    pub fn not_found<M: IntoText>(message: M) -> (r: Self)
        ensures
            r@ == data_error_spec(ErrorCode::VendorSpecific, Some(data_error_code_name(DataErrorCode::DataNotFound)), message.text_view()),
    {
        let m = message.into_text();
        Self::with_code(ErrorCode::VendorSpecific, Some(DataErrorCode::DataNotFound.to_string()), m)
    }

    /// An error for a write to read-only data.
    pub fn read_only<M: IntoText>(message: M) -> (r: Self)
        ensures
            r@ == data_error_spec(ErrorCode::InsufficientAccessRights, None, message.text_view()),
    {
        let m = message.into_text();
        Self::with_code(ErrorCode::InsufficientAccessRights, None, m)
    }

    /// An error for data of an invalid format.
    pub fn invalid_format<M: IntoText>(message: M) -> (r: Self)
        ensures
            r@ == data_error_spec(ErrorCode::InvalidResponseContent, None, message.text_view()),
    {
        let m = message.into_text();
        Self::with_code(ErrorCode::InvalidResponseContent, None, m)
    }

    /// An error for denied access.
    pub fn access_denied<M: IntoText>(message: M) -> (r: Self)
        ensures
            r@ == data_error_spec(ErrorCode::InsufficientAccessRights, None, message.text_view()),
    {
        let m = message.into_text();
        Self::with_code(ErrorCode::InsufficientAccessRights, None, m)
    }

    /// An internal server error.
    pub fn internal_error<M: IntoText>(message: M) -> (r: Self)
        ensures
            r@ == data_error_spec(ErrorCode::SovdServerFailure, None, message.text_view()),
    {
        let m = message.into_text();
        Self::with_code(ErrorCode::SovdServerFailure, None, m)
    }

    /// Sets the path of the error; the rest stays as it was.
    pub fn with_path<P: IntoText>(self, path: P) -> (r: Self)
        ensures
            r@ == (DataErrorView { path: path.text_view(), ..self@ }),
    {
        let mut e = self;
        e.path = path.into_text();
        e
    }

    /// Sets the parameters of the error; the rest stays as it was.
    pub fn with_parameters(self, parameters: HashMap<String, serde_json::Value>) -> (r: Self)
        ensures
            r@ == (DataErrorView {
                error: GenericErrorView { parameters: Some(parameters@), ..self@.error },
                ..self@
            }),
    {
        let mut e = self;
        e.error.parameters = Some(parameters);
        e
    }
}

// ============================================================================
// Queries and responses of data resources
// ============================================================================

/// Query parameters of a data resource listing (ISO 17978-3, section 7.9.3).
#[derive(Debug, Default, Clone, PartialEq)]
pub struct DataResourceQuery {
    /// Filter by categories.
    pub categories: Option<Vec<String>>,
    /// Filter by groups.
    pub groups: Option<Vec<String>>,
    /// Include the JSON schema in the response.
    pub include_schema: bool,
}

/// The data resources of an entity.
#[derive(Debug, Clone, PartialEq)]
pub struct DataResourceResponse {
    pub items: Vec<ValueMetaData>,
}

/// The rules of a vendor category name: a valid one starts with `x-`, is
/// longer than that and does not end with a hyphen; a name with two hyphens in
/// a row anywhere, or starting with `x-sovd-`, or holding a character other
/// than a lower-case ASCII letter, a digit, `_` or `-` after `x-`, is not valid.
pub proof fn lemma_vendor_category_rules(s: Seq<char>)
    ensures
        valid_vendor_category(s) ==> s.len() > 2 && s[0] == 'x' && s[1] == '-' && s[s.len() - 1] != '-',
        (exists|i: int| 0 <= i < s.len() - 1 && #[trigger] s[i] == '-' && s[i + 1] == '-') ==> !valid_vendor_category(s),
        s.len() >= 7 && s.subrange(0, 7) == seq!['x', '-', 's', 'o', 'v', 'd', '-'] ==> !valid_vendor_category(s),
        (exists|i: int|
            2 <= i < s.len() && !('a' <= #[trigger] s[i] <= 'z' || '0' <= s[i] <= '9' || s[i] == '_' || s[i] == '-'))
            ==> !valid_vendor_category(s),
{
    if s.len() >= 7 && s.subrange(0, 7) == seq!['x', '-', 's', 'o', 'v', 'd', '-'] {
        assert(s[2] == s.subrange(0, 7)[2]);
        assert(s[3] == s.subrange(0, 7)[3]);
        assert(s[4] == s.subrange(0, 7)[4]);
        assert(s[5] == s.subrange(0, 7)[5]);
        assert(s[6] == s.subrange(0, 7)[6]);
        assert(s[0] == s.subrange(0, 7)[0]);
        assert(s[1] == s.subrange(0, 7)[1]);
    }
}

} // verus!
