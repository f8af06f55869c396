use vstd::prelude::*;

verus! {

/// Version information as an earlier edition of the API reports it.
#[derive(Debug, Clone, PartialEq)]
pub struct VersionInfo<T = VendorInfo> {
    pub info: Vec<Info<T>>,
}

/// One supported API version.
#[derive(Debug, Clone, PartialEq)]
pub struct Info<T = VendorInfo> {
    pub version: String,
    pub base_uri: String,
    pub vendor_info: Option<T>,
}

/// Vendor information of a server.
#[derive(Debug, Clone, PartialEq)]
pub struct VendorInfo {
    pub version: String,
    pub name: String,
}

} // verus!
