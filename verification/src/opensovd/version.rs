use vstd::prelude::*;

use crate::models::version::{Info, VersionResponse};
use crate::models::version_info::{Info as LegacyInfo, VersionInfo};
use crate::server::routes::{trim_end_slashes, trim_slashes};

verus! {

/// The version information of the server: ISO version 1.1 under `v1` and 1.2
/// under `v2`, both below the configured base URI.
pub fn version_response<T: Clone>(base_uri: &str, vendor_info: Option<T>) -> (r: VersionResponse<T>)
    ensures
        r.sovd_info@.len() == 2,
        r.sovd_info@[0].version@ == "1.1"@,
        r.sovd_info@[0].base_uri@ == trim_slashes(base_uri@) + "/v1"@,
        r.sovd_info@[0].vendor_info == vendor_info,
        r.sovd_info@[1].version@ == "1.2"@,
        r.sovd_info@[1].base_uri@ == trim_slashes(base_uri@) + "/v2"@,
        r.sovd_info@[1].vendor_info is Some <==> vendor_info is Some,
{
    let base = trim_end_slashes(base_uri);
    let second_vendor = match &vendor_info {
        Some(v) => Some(v.clone()),
        None => None,
    };
    let mut sovd_info: Vec<Info<T>> = Vec::new();
    sovd_info.push(Info { version: String::from_str("1.1"), base_uri: base.clone().concat("/v1"), vendor_info });
    sovd_info.push(Info { version: String::from_str("1.2"), base_uri: base.concat("/v2"), vendor_info: second_vendor });
    VersionResponse { sovd_info }
}


/// The version information of the earlier API: ISO version 1.1 at the
/// configured base URI, with the vendor information.
pub fn version_info_response<T>(base_uri: &str, vendor_info: T) -> (r: VersionInfo<T>)
    ensures
        r.info@.len() == 1,
        r.info@[0].version@ == "1.1"@,
        r.info@[0].base_uri@ == base_uri@,
        r.info@[0].vendor_info == Some(vendor_info),
{
    let mut info: Vec<LegacyInfo<T>> = Vec::new();
    info.push(LegacyInfo {
        version: String::from_str("1.1"),
        base_uri: String::from_str(base_uri),
        vendor_info: Some(vendor_info),
    });
    VersionInfo { info }
}

} // verus!
