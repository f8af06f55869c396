use vstd::prelude::*;

use crate::gateway::args::SslArgs;
use crate::text::clone_opt_string;

verus! {

/// The gateway's configuration: the servers to run.
#[derive(Debug)]
pub struct Config {
    pub servers: Vec<ServerConfig>,
}

/// One server of the gateway.
#[derive(Debug, Clone)]
pub struct ServerConfig {
    pub name: String,
    /// Where to listen: `host:port`, or `unix:/<path>` (`unix:/@<name>` for an
    /// abstract socket).
    pub listen: String,
    pub server_name: Vec<String>,
    pub base: String,
    pub auth: Option<AuthConfig>,
    pub ssl: Option<SslConfig>,
}

/// JWT authentication of a server.
#[derive(Debug, Clone)]
pub struct AuthConfig {
    pub jwt_public_key_path: String,
}

/// SSL/TLS settings of a server.
#[derive(Debug, Clone)]
pub struct SslConfig {
    pub cert: Option<String>,
    pub key: Option<String>,
    pub cacert: Option<String>,
    pub insecure: bool,
    pub no_peer_cert: bool,
}

/// The base path of a server where none is configured.
pub fn default_base() -> (r: String)
    ensures
        r@ == "/"@,
{
    String::from_str("/")
}

impl<'a> From<&'a SslArgs> for SslConfig {
    /// The settings the command-line options give.
    fn from(args: &'a SslArgs) -> (r: Self)
        ensures
            r.cert.deep_view() == args.cert.deep_view(),
            r.key.deep_view() == args.key.deep_view(),
            r.cacert.deep_view() == args.cacert.deep_view(),
            r.insecure == args.insecure,
            r.no_peer_cert == args.no_peer_cert,
    {
        SslConfig {
            cert: clone_opt_string(&args.cert),
            key: clone_opt_string(&args.key),
            cacert: clone_opt_string(&args.cacert),
            insecure: args.insecure,
            no_peer_cert: args.no_peer_cert,
        }
    }
}

impl<'a> vstd::std_specs::convert::FromSpecImpl<&'a SslArgs> for SslConfig {
    open spec fn obeys_from_spec() -> bool {
        false
    }

    open spec fn from_spec(v: &'a SslArgs) -> SslConfig {
        vstd::pervasive::arbitrary()
    }
}

impl Default for Config {
    /// One server named `SOVD Server` on `127.0.0.1:9000` under `/sovd`, without
    /// authentication or SSL.
    fn default() -> (r: Self)
        ensures
            r.servers@.len() == 1,
            r.servers@[0].name@ == "SOVD Server"@,
            r.servers@[0].listen@ == "127.0.0.1:9000"@,
            r.servers@[0].server_name@.len() == 0,
            r.servers@[0].base@ == "/sovd"@,
            r.servers@[0].auth is None,
            r.servers@[0].ssl is None,
    {
        let mut servers: Vec<ServerConfig> = Vec::new();
        servers.push(ServerConfig {
            name: String::from_str("SOVD Server"),
            listen: String::from_str("127.0.0.1:9000"),
            server_name: Vec::new(),
            base: String::from_str("/sovd"),
            auth: None,
            ssl: None,
        });
        Config { servers }
    }
}

} // verus!
