use vstd::prelude::*;

use crate::gateway::args::SslArgs;

verus! {

/// The command line of the gateway.
#[derive(Debug, Clone, Default)]
pub struct Args {
    /// Server URL (`http://` or `https://`).
    pub url: Option<String>,
    /// Unix socket path (`@name` for an abstract socket).
    pub unix_socket: Option<String>,
    /// Path of a configuration file.
    pub config: Option<String>,
    /// Path of the RSA public key for JWT authentication.
    pub auth_jwt: Option<String>,
    /// SSL/TLS options.
    pub ssl: SslArgs,
}

} // verus!
