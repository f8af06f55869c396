use std::sync::Arc;
use vstd::prelude::*;

use crate::diagnostic::diagnostic::Diagnostic;
use crate::models::version::VendorInfo;
use crate::opensovd::auth::{rsa_pem_accepted, BearerAuth};

verus! {

/// The version the server reports of itself.
pub const PACKAGE_VERSION: &'static str = "0.1.0";

/// Authentication configuration of an endpoint.
#[derive(Debug, Clone)]
pub struct AuthInfo {
    /// PEM-encoded public key for JWT validation.
    pub public_key_pem: Vec<u8>,
}

/// An endpoint of the server: a listener, its authentication and its routing.
#[derive(Debug)]
pub struct Endpoint<L> {
    /// The listener of the endpoint.
    pub listener: L,
    /// Authentication, where the endpoint asks for it.
    pub auth: Option<AuthInfo>,
    /// Host names for virtual host matching (none: all hosts).
    pub server_name: Vec<String>,
    /// The base path of the endpoint (such as `/sovd`).
    pub base: String,
}

/// Errors of building a server configuration.
#[derive(Debug, Clone, Copy, PartialEq, Eq, Structural)]
pub enum ServerConfigError {
    /// No endpoint was configured.
    NoEndpointsConfigured,
}

impl ServerConfigError {
    /// The message of the error.
    pub fn to_string(&self) -> (r: String)
        ensures
            r@ == "No endpoints configured. Please configure at least one endpoint."@,
    {
        String::from_str("No endpoints configured. Please configure at least one endpoint.")
    }
}

/// The configuration of a server: its endpoints, shutdown signal, vendor
/// information and diagnostic system.
pub struct ServerConfig<T, L, F, S> {
    pub endpoints: Vec<Endpoint<L>>,
    pub shutdown: Option<F>,
    pub vendor_info: Option<T>,
    pub diagnostic: Arc<Diagnostic<S>>,
}

/// Builds a server configuration step by step.
pub struct ServerConfigBuilder<T, L, F, S> {
    pub endpoints: Vec<Endpoint<L>>,
    pub shutdown: Option<F>,
    pub vendor_info: Option<T>,
    pub diagnostic: Arc<Diagnostic<S>>,
}

impl<L, F, S> ServerConfig<VendorInfo, L, F, S> {
    /// A builder with the server's own vendor information (name `SOVD`).
    pub fn builder() -> (r: ServerConfigBuilder<VendorInfo, L, F, S>)
        ensures
            r.endpoints@.len() == 0,
            r.shutdown is None,
            r.vendor_info matches Some(v) && v.name@ == "SOVD"@ && v.version@ == PACKAGE_VERSION@,
            r.diagnostic.wf(),
            r.diagnostic.entities_view().len() == 0,
    {
        ServerConfigBuilder::default()
    }
}

impl<L, F, S> Default for ServerConfigBuilder<VendorInfo, L, F, S> {
    /// A builder with the server's own vendor information (name `SOVD`).
    fn default() -> (r: Self)
        ensures
            r.endpoints@.len() == 0,
            r.shutdown is None,
            r.vendor_info matches Some(v) && v.name@ == "SOVD"@ && v.version@ == PACKAGE_VERSION@,
            r.diagnostic.wf(),
            r.diagnostic.entities_view().len() == 0,
    {
        let d: Diagnostic<S> = Diagnostic::empty();
        assert(d.entities_view().dom() =~= Set::empty());
        ServerConfigBuilder {
            endpoints: Vec::new(),
            shutdown: None,
            vendor_info: Some(VendorInfo { version: String::from_str(PACKAGE_VERSION), name: String::from_str("SOVD") }),
            diagnostic: Arc::new(d),
        }
    }
}

impl<T, L, F, S> ServerConfig<T, L, F, S> {
    /// A builder with vendor information of the caller's type, none set yet.
    pub fn builder_with_vendor_type() -> (r: ServerConfigBuilder<T, L, F, S>)
        ensures
            r.endpoints@.len() == 0,
            r.shutdown is None,
            r.vendor_info is None,
            r.diagnostic.wf(),
            r.diagnostic.entities_view().len() == 0,
    {
        ServerConfigBuilder::new()
    }
}

impl<T, L, F, S> ServerConfigBuilder<T, L, F, S> {
    /// A builder without endpoints, shutdown signal or vendor information, with
    /// an empty diagnostic system.
    pub fn new() -> (r: Self)
        ensures
            r.endpoints@.len() == 0,
            r.shutdown is None,
            r.vendor_info is None,
            r.diagnostic.wf(),
            r.diagnostic.entities_view().len() == 0,
    {
        let d: Diagnostic<S> = Diagnostic::empty();
        assert(d.entities_view().dom() =~= Set::empty());
        ServerConfigBuilder { endpoints: Vec::new(), shutdown: None, vendor_info: None, diagnostic: Arc::new(d) }
    }

    /// Sets the shutdown signal.
    pub fn shutdown(self, shutdown: F) -> (r: Self)
        ensures
            r.shutdown == Some(shutdown),
            r.endpoints == self.endpoints,
            r.vendor_info == self.vendor_info,
            r.diagnostic == self.diagnostic,
    {
        let mut b = self;
        b.shutdown = Some(shutdown);
        b
    }

    /// Sets the vendor information.
    pub fn vendor_info(self, vendor_info: T) -> (r: Self)
        ensures
            r.vendor_info == Some(vendor_info),
            r.endpoints == self.endpoints,
            r.shutdown == self.shutdown,
            r.diagnostic == self.diagnostic,
    {
        let mut b = self;
        b.vendor_info = Some(vendor_info);
        b
    }

    /// Sets the diagnostic system.
    pub fn diagnostic(self, diagnostic: Arc<Diagnostic<S>>) -> (r: Self)
        ensures
            r.diagnostic == diagnostic,
            r.endpoints == self.endpoints,
            r.shutdown == self.shutdown,
            r.vendor_info == self.vendor_info,
    {
        let mut b = self;
        b.diagnostic = diagnostic;
        b
    }

    /// Adds an endpoint after the ones added before.
    pub fn endpoint(self, listener: L, auth: Option<AuthInfo>, server_name: Vec<String>, base: String) -> (r: Self)
        ensures
            r.endpoints@ == self.endpoints@.push(Endpoint { listener, auth, server_name, base }),
            r.shutdown == self.shutdown,
            r.vendor_info == self.vendor_info,
            r.diagnostic == self.diagnostic,
    {
        let mut b = self;
        b.endpoints.push(Endpoint { listener, auth, server_name, base });
        b
    }

    /// The configuration; `NoEndpointsConfigured` where no endpoint was added.
    pub fn build(self) -> (r: Result<ServerConfig<T, L, F, S>, ServerConfigError>)
        ensures
            match r {
                Ok(c) => self.endpoints@.len() > 0 && c.endpoints == self.endpoints && c.shutdown == self.shutdown
                    && c.vendor_info == self.vendor_info && c.diagnostic == self.diagnostic,
                Err(e) => self.endpoints@.len() == 0 && e == ServerConfigError::NoEndpointsConfigured,
            },
    {
        if self.endpoints.len() == 0 {
            return Err(ServerConfigError::NoEndpointsConfigured);
        }
        Ok(ServerConfig {
            endpoints: self.endpoints,
            shutdown: self.shutdown,
            vendor_info: self.vendor_info,
            diagnostic: self.diagnostic,
        })
    }
}


/// The endpoint's key, if it asks for authentication, is accepted.
pub open spec fn key_accepted(auth: Option<AuthInfo>) -> bool {
    match auth {
        Some(a) => rsa_pem_accepted(a.public_key_pem@),
        None => true,
    }
}

/// The first endpoint whose authentication key is refused, if there is one: the
/// server checks every key before it starts.
pub fn first_refused_key<L>(endpoints: &Vec<Endpoint<L>>) -> (r: Option<usize>)
    ensures
        match r {
            Some(i) => i < endpoints@.len() && endpoints@[i as int].auth is Some && !key_accepted(
                endpoints@[i as int].auth,
            ) && forall|j: int| 0 <= j < i ==> key_accepted(#[trigger] endpoints@[j].auth),
            None => forall|j: int| 0 <= j < endpoints@.len() ==> key_accepted(#[trigger] endpoints@[j].auth),
        },
{
    let mut i: usize = 0;
    while i < endpoints.len()
        invariant
            i <= endpoints@.len(),
            forall|j: int| 0 <= j < i ==> key_accepted(#[trigger] endpoints@[j].auth),
        decreases endpoints@.len() - i,
    {
        match &endpoints[i].auth {
            Some(a) => {
                if BearerAuth::from_rsa_pem(a.public_key_pem.as_slice()).is_err() {
                    return Some(i);
                }
            },
            None => {},
        }
        i = i + 1;
    }
    None
}

} // verus!
