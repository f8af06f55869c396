use vstd::prelude::*;

verus! {

/// The answer to a version query: one entry per supported API version.
#[derive(Debug, Clone, PartialEq)]
pub struct VersionResponse<T = VendorInfo> {
    pub sovd_info: Vec<Info<T>>,
}

/// One supported API version.
#[derive(Debug, Clone, PartialEq)]
pub struct Info<T = VendorInfo> {
    pub version: String,
    pub base_uri: String,
    pub vendor_info: Option<T>,
}

/// Vendor information of a server.
#[derive(Debug, Clone, PartialEq, Default)]
pub struct VendorInfo {
    pub version: String,
    pub name: String,
}

} // verus!
