use vstd::prelude::*;

use crate::models::version::VendorInfo;
use crate::server::config::PACKAGE_VERSION;
use crate::text::IntoText;

verus! {

/// Authentication configuration of the server.
#[derive(Debug, Clone)]
pub struct AuthInfo {
    /// PEM-encoded public key for JWT validation.
    pub public_key_pem: Vec<u8>,
}

/// Errors of building a server configuration.
#[derive(Debug, Clone, Copy, PartialEq, Eq, Structural)]
pub enum ServerConfigError {
    /// No listener was configured.
    NoListenersConfigured,
}

impl ServerConfigError {
    /// The message of the error.
    pub fn to_string(&self) -> (r: String)
        ensures
            r@ == "No listeners configured. Please configure at least one listener."@,
    {
        String::from_str("No listeners configured. Please configure at least one listener.")
    }
}

/// The configuration of a server: listeners, shutdown signal, vendor
/// information, base path, component registry and authentication.
pub struct ServerConfig<T, L, F, R> {
    pub listeners: Vec<L>,
    pub shutdown: Option<F>,
    pub vendor_info: Option<T>,
    pub uri_path: String,
    pub registry: Option<R>,
    pub auth: Option<AuthInfo>,
}

/// Builds a server configuration step by step.
pub struct ServerConfigBuilder<T, L, F, R> {
    pub listeners: Vec<L>,
    pub shutdown: Option<F>,
    pub vendor_info: Option<T>,
    pub uri_path: Option<String>,
    pub registry: Option<R>,
    pub auth: Option<AuthInfo>,
}

impl<L, F, R> ServerConfig<VendorInfo, L, F, R> {
    /// A builder with the server's own vendor information (name `OpenSOVD`) and
    /// the base path `/`.
    pub fn builder() -> (r: ServerConfigBuilder<VendorInfo, L, F, R>)
        ensures
            r.listeners@.len() == 0,
            r.shutdown is None,
            r.vendor_info matches Some(v) && v.name@ == "OpenSOVD"@ && v.version@ == PACKAGE_VERSION@,
            r.uri_path.deep_view() == Some("/"@),
            r.registry is None,
            r.auth is None,
    {
        ServerConfigBuilder::default()
    }
}

impl<L, F, R> Default for ServerConfigBuilder<VendorInfo, L, F, R> {
    /// A builder with the server's own vendor information (name `OpenSOVD`) and
    /// the base path `/`.
    fn default() -> (r: Self)
        ensures
            r.listeners@.len() == 0,
            r.shutdown is None,
            r.vendor_info matches Some(v) && v.name@ == "OpenSOVD"@ && v.version@ == PACKAGE_VERSION@,
            r.uri_path.deep_view() == Some("/"@),
            r.registry is None,
            r.auth is None,
    {
        ServerConfigBuilder {
            listeners: Vec::new(),
            shutdown: None,
            vendor_info: Some(VendorInfo {
                version: String::from_str(PACKAGE_VERSION),
                name: String::from_str("OpenSOVD"),
            }),
            uri_path: Some(String::from_str("/")),
            registry: None,
            auth: None,
        }
    }
}

impl<T, L, F, R> ServerConfig<T, L, F, R> {
    /// A builder with vendor information of the caller's type, none set yet.
    pub fn builder_with_vendor_type() -> (r: ServerConfigBuilder<T, L, F, R>)
        ensures
            r.listeners@.len() == 0,
            r.shutdown is None,
            r.vendor_info is None,
            r.uri_path is None,
            r.registry is None,
            r.auth is None,
    {
        ServerConfigBuilder::new()
    }
}

impl<T, L, F, R> ServerConfigBuilder<T, L, F, R> {
    /// A builder with nothing set.
    pub fn new() -> (r: Self)
        ensures
            r.listeners@.len() == 0,
            r.shutdown is None,
            r.vendor_info is None,
            r.uri_path is None,
            r.registry is None,
            r.auth is None,
    {
        ServerConfigBuilder {
            listeners: Vec::new(),
            shutdown: None,
            vendor_info: None,
            uri_path: None,
            registry: None,
            auth: None,
        }
    }

    /// Adds a listener after the ones added before.
    pub fn listen(self, listener: L) -> (r: Self)
        ensures
            r.listeners@ == self.listeners@.push(listener),
            r.shutdown == self.shutdown && r.vendor_info == self.vendor_info && r.uri_path == self.uri_path,
            r.registry == self.registry && r.auth == self.auth,
    {
        let mut b = self;
        b.listeners.push(listener);
        b
    }

    /// Sets the shutdown signal.
    pub fn shutdown(self, shutdown: F) -> (r: Self)
        ensures
            r.shutdown == Some(shutdown),
            r.listeners == self.listeners && r.vendor_info == self.vendor_info && r.uri_path == self.uri_path,
            r.registry == self.registry && r.auth == self.auth,
    {
        let mut b = self;
        b.shutdown = Some(shutdown);
        b
    }

    /// Sets the vendor information.
    pub fn vendor_info(self, vendor_info: T) -> (r: Self)
        ensures
            r.vendor_info == Some(vendor_info),
            r.listeners == self.listeners && r.shutdown == self.shutdown && r.uri_path == self.uri_path,
            r.registry == self.registry && r.auth == self.auth,
    {
        let mut b = self;
        b.vendor_info = Some(vendor_info);
        b
    }

    /// Sets the base path.
    pub fn uri_path<U: IntoText>(self, uri_path: U) -> (r: Self)
        ensures
            r.uri_path.deep_view() == Some(uri_path.text_view()),
            r.listeners == self.listeners && r.shutdown == self.shutdown && r.vendor_info == self.vendor_info,
            r.registry == self.registry && r.auth == self.auth,
    {
        let mut b = self;
        b.uri_path = Some(uri_path.into_text());
        b
    }

    /// Sets the component registry.
    pub fn registry(self, registry: R) -> (r: Self)
        ensures
            r.registry == Some(registry),
            r.listeners == self.listeners && r.shutdown == self.shutdown && r.vendor_info == self.vendor_info,
            r.uri_path == self.uri_path && r.auth == self.auth,
    {
        let mut b = self;
        b.registry = Some(registry);
        b
    }

    /// Sets the authentication.
    pub fn auth(self, auth: AuthInfo) -> (r: Self)
        ensures
            r.auth == Some(auth),
            r.listeners == self.listeners && r.shutdown == self.shutdown && r.vendor_info == self.vendor_info,
            r.uri_path == self.uri_path && r.registry == self.registry,
    {
        let mut b = self;
        b.auth = Some(auth);
        b
    }

    /// The configuration, with the base path `/` where none was set;
    /// `NoListenersConfigured` where no listener was added. The vendor
    /// information must have been set.
    pub fn build(self) -> (r: Result<ServerConfig<T, L, F, R>, ServerConfigError>)
        requires
            self.vendor_info is Some,
        ensures
            match r {
                Ok(c) => {
                    &&& self.listeners@.len() > 0
                    &&& c.listeners == self.listeners && c.shutdown == self.shutdown
                    &&& c.vendor_info == self.vendor_info && c.registry == self.registry && c.auth == self.auth
                    &&& c.uri_path@ == match self.uri_path {
                        Some(p) => p@,
                        None => "/"@,
                    }
                },
                Err(e) => self.listeners@.len() == 0 && e == ServerConfigError::NoListenersConfigured,
            },
    {
        if self.listeners.len() == 0 {
            return Err(ServerConfigError::NoListenersConfigured);
        }
        let uri_path = match self.uri_path {
            Some(p) => p,
            None => String::from_str("/"),
        };
        Ok(ServerConfig {
            listeners: self.listeners,
            shutdown: self.shutdown,
            vendor_info: self.vendor_info,
            uri_path,
            registry: self.registry,
            auth: self.auth,
        })
    }
}

} // verus!
