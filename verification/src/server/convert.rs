use vstd::prelude::*;

use crate::models::data::{
    category_name, opt_category_view, valid_vendor_category, DataCategory, DataCategoryView, DataError,
};
use crate::models::error::ErrorCode;
use crate::server::response::{status_for, ApiError, ErrorBody, VendorError};
use crate::text::{equals_text, has_prefix, starts_with_text};

verus! {

/// The category a query names: one of the standard names, or a vendor name
/// (`x-` but not `x-sovd-`); none for anything else.
pub open spec fn parsed_category(s: Seq<char>) -> Option<DataCategoryView> {
    if s == "identData"@ {
        Some(DataCategoryView::IdentData)
    } else if s == "currentData"@ {
        Some(DataCategoryView::CurrentData)
    } else if s == "storedData"@ {
        Some(DataCategoryView::StoredData)
    } else if s == "sysInfo"@ {
        Some(DataCategoryView::SysInfo)
    } else if has_prefix(s, "x-"@) && !has_prefix(s, "x-sovd-"@) {
        Some(DataCategoryView::Vendor(s))
    } else {
        None
    }
}

/// The categories the names stand for, in order, leaving out names that stand
/// for none.
pub open spec fn parsed_categories(names: Seq<Seq<char>>) -> Seq<DataCategoryView>
    decreases names.len(),
{
    if names.len() == 0 {
        Seq::empty()
    } else {
        let rest = parsed_categories(names.drop_last());
        match parsed_category(names.last()) {
            Some(c) => rest.push(c),
            None => rest,
        }
    }
}

/// Parses a category name of a query.
pub fn parse_single_category(s: &str) -> (r: Option<DataCategory>)
    ensures
        opt_category_view(r) == parsed_category(s@),
{
    if equals_text(s, "identData") {
        Some(DataCategory::IdentData)
    } else if equals_text(s, "currentData") {
        Some(DataCategory::CurrentData)
    } else if equals_text(s, "storedData") {
        Some(DataCategory::StoredData)
    } else if equals_text(s, "sysInfo") {
        Some(DataCategory::SysInfo)
    } else if starts_with_text(s, "x-") && !starts_with_text(s, "x-sovd-") {
        Some(DataCategory::Vendor(String::from_str(s)))
    } else {
        None
    }
}

/// Parses the category names of a query, leaving out names that stand for no
/// category; no names give no categories.
pub fn parse_categories(cats: Option<&[String]>) -> (r: Vec<DataCategory>)
    ensures
        r@.map_values(|c: DataCategory| c@) == match cats {
            Some(c) => parsed_categories(c@.map_values(|s: String| s@)),
            None => Seq::empty(),
        },
{
    let mut out: Vec<DataCategory> = Vec::new();
    match cats {
        None => {
            assert(out@.map_values(|c: DataCategory| c@) =~= Seq::<DataCategoryView>::empty());
        },
        Some(names) => {
            let ghost ns = names@.map_values(|s: String| s@);
            let mut i: usize = 0;
            assert(out@.map_values(|c: DataCategory| c@) =~= parsed_categories(ns.take(0)));
            while i < names.len()
                invariant
                    i <= names@.len(),
                    ns == names@.map_values(|s: String| s@),
                    out@.map_values(|c: DataCategory| c@) == parsed_categories(ns.take(i as int)),
                decreases names@.len() - i,
            {
                let ghost prev = out@;
                proof {
                    assert(ns.take(i as int + 1).drop_last() =~= ns.take(i as int));
                    assert(ns.take(i as int + 1).last() == names@[i as int]@);
                }
                match parse_single_category(names[i].as_str()) {
                    Some(c) => {
                        let ghost cv = c@;
                        out.push(c);
                        assert(out@.map_values(|c: DataCategory| c@) =~= prev.map_values(|c: DataCategory| c@).push(cv));
                    },
                    None => {},
                }
                i = i + 1;
            }
            assert(ns.take(names@.len() as int) =~= ns);
        },
    }
    out
}

/// The API error a data error is answered with: access errors are forbidden,
/// incomplete requests bad requests, server failures server failures, and the
/// rest not found; the message is kept.
pub open spec fn api_error_of_data_error(e: DataError) -> ApiError {
    ApiError(
        ErrorBody {
            error_code: match e.error.error_code {
                ErrorCode::InsufficientAccessRights => ErrorCode::InsufficientAccessRights,
                ErrorCode::IncompleteRequest => ErrorCode::IncompleteRequest,
                ErrorCode::SovdServerFailure => ErrorCode::SovdServerFailure,
                _ => ErrorCode::VendorSpecific,
            },
            message: e.error.message,
            vendor_code: match e.error.error_code {
                ErrorCode::InsufficientAccessRights => None,
                ErrorCode::IncompleteRequest => None,
                ErrorCode::SovdServerFailure => None,
                _ => Some(VendorError::NotFound),
            },
            transaction_id: None,
            parameters: None,
        },
    )
}

impl From<DataError> for ApiError {
    fn from(data_error: DataError) -> (r: Self) {
        let message = data_error.error.message;
        match data_error.error.error_code {
            ErrorCode::InsufficientAccessRights => ApiError(
                ErrorBody {
                    error_code: ErrorCode::InsufficientAccessRights,
                    message,
                    vendor_code: None,
                    transaction_id: None,
                    parameters: None,
                },
            ),
            ErrorCode::IncompleteRequest => ApiError(
                ErrorBody {
                    error_code: ErrorCode::IncompleteRequest,
                    message,
                    vendor_code: None,
                    transaction_id: None,
                    parameters: None,
                },
            ),
            ErrorCode::SovdServerFailure => ApiError(
                ErrorBody {
                    error_code: ErrorCode::SovdServerFailure,
                    message,
                    vendor_code: None,
                    transaction_id: None,
                    parameters: None,
                },
            ),
            _ => ApiError(
                ErrorBody {
                    error_code: ErrorCode::VendorSpecific,
                    message,
                    vendor_code: Some(VendorError::NotFound),
                    transaction_id: None,
                    parameters: None,
                },
            ),
        }
    }
}

impl vstd::std_specs::convert::FromSpecImpl<DataError> for ApiError {
    open spec fn obeys_from_spec() -> bool {
        true
    }

    open spec fn from_spec(v: DataError) -> ApiError {
        api_error_of_data_error(v)
    }
}


/// A category's name parses back to the category: the standard names to their
/// categories, and the name of a valid vendor category to that category.
pub proof fn lemma_category_name_parses_back(c: DataCategoryView)
    requires
        c matches DataCategoryView::Vendor(s) ==> valid_vendor_category(s),
    ensures
        parsed_category(category_name(c)) == Some(c),
{
    reveal_strlit("identData");
    reveal_strlit("currentData");
    reveal_strlit("storedData");
    reveal_strlit("sysInfo");
    reveal_strlit("x-");
    reveal_strlit("x-sovd-");
    match c {
        DataCategoryView::Vendor(s) => {
            assert(s[0] == 'x');
            assert(s != "identData"@ && s != "currentData"@ && s != "storedData"@ && s != "sysInfo"@) by {
                assert("identData"@[0] == 'i');
                assert("currentData"@[0] == 'c');
                assert("storedData"@[0] == 's');
                assert("sysInfo"@[0] == 's');
            }
            assert(s.subrange(0, 2) =~= "x-"@);
            assert(has_prefix(s, "x-"@));
            if has_prefix(s, "x-sovd-"@) {
                let p = s.subrange(0, 7);
                assert(p == "x-sovd-"@);
                assert(s[2] == p[2] && s[3] == p[3] && s[4] == p[4] && s[5] == p[5] && s[6] == p[6]);
                assert(crate::models::data::has_reserved_prefix(s));
            }
            assert(!has_prefix(s, "x-sovd-"@));
            assert(parsed_category(s) == Some(DataCategoryView::Vendor(s)));
            assert(category_name(c) == s);
        },
        DataCategoryView::IdentData => {
            assert(category_name(c) == "identData"@);
        },
        DataCategoryView::CurrentData => {
            assert(category_name(c) == "currentData"@);
            assert("currentData"@ != "identData"@) by {
                assert("identData"@[0] == 'i');
            }
        },
        DataCategoryView::StoredData => {
            assert("storedData"@ != "identData"@) by {
                assert("identData"@[0] == 'i');
            }
            assert("storedData"@ != "currentData"@) by {
                assert("currentData"@[0] == 'c');
            }
        },
        DataCategoryView::SysInfo => {
            assert("sysInfo"@ != "identData"@) by {
                assert("identData"@[0] == 'i');
            }
            assert("sysInfo"@ != "currentData"@) by {
                assert("currentData"@[0] == 'c');
            }
            assert("sysInfo"@ != "storedData"@) by {
                assert("storedData"@.len() != "sysInfo"@.len());
            }
        },
    }
}

/// A data error is answered with 403 for refused access, 400 for an incomplete
/// request, 500 for a server failure and 404 for anything else.
pub proof fn lemma_data_error_status(e: DataError)
    ensures
        status_for(api_error_of_data_error(e).0.error_code, api_error_of_data_error(e).0.vendor_code) == match e.error.error_code {
            ErrorCode::InsufficientAccessRights => 403u16,
            ErrorCode::IncompleteRequest => 400u16,
            ErrorCode::SovdServerFailure => 500u16,
            _ => 404u16,
        },
{
}

/// Parsing a category name and naming the category give each other back: a
/// name that parses to a category is that category's name, and the name of a
/// standard category parses to that category.
pub proof fn lemma_category_names_round_trip(s: Seq<char>, c: DataCategoryView)
    ensures
        parsed_category(s) == Some(c) ==> category_name(c) == s,
        !(c is Vendor) ==> parsed_category(category_name(c)) == Some(c),
{
    reveal_strlit("identData");
    reveal_strlit("currentData");
    reveal_strlit("storedData");
    reveal_strlit("sysInfo");
    assert("identData"@.len() == 9);
    assert("currentData"@.len() == 11);
    assert("storedData"@.len() == 10);
    assert("sysInfo"@.len() == 7);
}

/// The categories parsed from names that all stand for one are those
/// categories, one for each name, in order; from any names, no more
/// categories come than there are names.
pub proof fn lemma_parsed_categories_in_order(names: Seq<Seq<char>>)
    ensures
        parsed_categories(names).len() <= names.len(),
        (forall|i: int| 0 <= i < names.len() ==> (#[trigger] parsed_category(names[i])) is Some) ==> {
            &&& parsed_categories(names).len() == names.len()
            &&& forall|i: int| 0 <= i < names.len() ==> Some(#[trigger] parsed_categories(names)[i]) == parsed_category(
                names[i],
            )
        },
    decreases names.len(),
{
    if names.len() > 0 {
        let rest = names.drop_last();
        lemma_parsed_categories_in_order(rest);
        if forall|i: int| 0 <= i < names.len() ==> (#[trigger] parsed_category(names[i])) is Some {
            assert forall|i: int| 0 <= i < rest.len() implies (#[trigger] parsed_category(rest[i])) is Some by {
                assert(rest[i] == names[i]);
                assert(parsed_category(names[i]) is Some);
            }
            assert(parsed_category(names[names.len() - 1]) is Some);
            assert forall|i: int| 0 <= i < names.len() implies Some(#[trigger] parsed_categories(names)[i])
                == parsed_category(names[i]) by {
                if i < rest.len() {
                    assert(rest[i] == names[i]);
                    assert(Some(parsed_categories(rest)[i]) == parsed_category(rest[i]));
                }
            }
        }
    }
}

} // verus!
