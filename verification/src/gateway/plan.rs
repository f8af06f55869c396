use vstd::prelude::*;

use crate::gateway::config::{AuthConfig, Config, ServerConfig, SslConfig};
use crate::text::{
    clone_opt_string, decimal, decimal_text, equals_text, has_prefix, starts_with_text,
};

verus! {

// ----------------------------------------------------------------------------
// URLs
// ----------------------------------------------------------------------------

/// What the gateway reads of a URL.
#[derive(Debug, Clone)]
pub struct UrlParts {
    pub scheme: String,
    pub host: Option<String>,
    pub port: Option<u16>,
    pub path: String,
}

/// The mathematical value of [`UrlParts`].
pub struct UrlPartsView {
    pub scheme: Seq<char>,
    pub host: Option<Seq<char>>,
    pub port: Option<u16>,
    pub path: Seq<char>,
}

impl View for UrlParts {
    type V = UrlPartsView;

    open spec fn view(&self) -> UrlPartsView {
        UrlPartsView { scheme: self.scheme@, host: self.host.deep_view(), port: self.port, path: self.path@ }
    }
}

/// What `url::Url::parse` makes of a text: its scheme, host, explicit port
/// (none for the scheme's default) and path, or the message of the parse
/// error; a function of the text alone.
pub uninterp spec fn parsed_url(text: Seq<char>) -> Result<UrlPartsView, Seq<char>>;

/// Parses a URL.
///
/// Trusted: calls `url::Url::parse` and reads `scheme`, `host_str`, `port` and
/// `path`, or formats the error; the contract names the result `parsed_url` of
/// the text.
#[verifier::external_body]
pub fn parse_url(text: &str) -> (r: Result<UrlParts, String>)
    ensures
        match r {
            Ok(u) => parsed_url(text@) == Ok::<UrlPartsView, Seq<char>>(u@),
            Err(m) => parsed_url(text@) == Err::<UrlPartsView, Seq<char>>(m@),
        },
{
    match url::Url::parse(text) {
        Ok(u) => Ok(UrlParts {
            scheme: u.scheme().to_string(),
            host: match u.host_str() {
                Some(h) => Some(h.to_string()),
                None => None,
            },
            port: u.port(),
            path: u.path().to_string(),
        }),
        Err(e) => Err(e.to_string()),
    }
}

// ----------------------------------------------------------------------------
// The server of the command line
// ----------------------------------------------------------------------------

/// Where the server of the command line listens: the Unix socket where one is
/// given, otherwise the host and port of the URL (443 for `https`, 80 for
/// `http`, where the URL gives none); other schemes and URLs without a host are
/// refused.
pub open spec fn cli_listen_spec(url: UrlPartsView, unix_socket: Option<Seq<char>>) -> Result<Seq<char>, Seq<char>> {
    match unix_socket {
        Some(s) => Ok("unix:/"@ + s),
        None => match url.host {
            None => Err("URL must have a host (e.g., http://localhost:9000/sovd)"@),
            Some(host) => if url.scheme == "https"@ || url.scheme == "http"@ {
                let default_port: u16 = if url.scheme == "https"@ { 443 } else { 80 };
                let port = match url.port {
                    Some(p) => p,
                    None => default_port,
                };
                Ok(host + ":"@ + decimal(port as nat))
            } else {
                Err("Unsupported URL scheme: "@ + url.scheme)
            },
        },
    }
}

/// Where the server of the command line listens.
pub fn cli_listen(url: &UrlParts, unix_socket: Option<&str>) -> (r: Result<String, String>)
    ensures
        match r {
            Ok(l) => cli_listen_spec(url@, match unix_socket {
                Some(s) => Some(s@),
                None => None,
            }) == Ok::<Seq<char>, Seq<char>>(l@),
            Err(m) => cli_listen_spec(url@, match unix_socket {
                Some(s) => Some(s@),
                None => None,
            }) == Err::<Seq<char>, Seq<char>>(m@),
        },
{
    match unix_socket {
        Some(s) => Ok(String::from_str("unix:/").concat(s)),
        None => match &url.host {
            None => Err(String::from_str("URL must have a host (e.g., http://localhost:9000/sovd)")),
            Some(host) => {
                let default_port: u16 = if equals_text(url.scheme.as_str(), "https") {
                    443
                } else if equals_text(url.scheme.as_str(), "http") {
                    80
                } else {
                    return Err(String::from_str("Unsupported URL scheme: ").concat(url.scheme.as_str()));
                };
                let port = match url.port {
                    Some(p) => p,
                    None => default_port,
                };
                Ok(host.clone().concat(":").concat(decimal_text(port as u64).as_str()))
            },
        },
    }
}

/// The server the command line asks for, named `Command Line Server`,
/// listening where [`cli_listen`] says, under the URL's path, with JWT
/// authentication where a key is given and the command line's SSL settings for
/// an `https` URL.
pub fn cli_server(
    url: &UrlParts,
    unix_socket: Option<&str>,
    auth_jwt: Option<&str>,
    fallback_ssl: &SslConfig,
) -> (r: Result<ServerConfig, String>)
    ensures
        match r {
            Ok(s) => {
                &&& cli_listen_spec(url@, match unix_socket {
                    Some(x) => Some(x@),
                    None => None,
                }) == Ok::<Seq<char>, Seq<char>>(s.listen@)
                &&& s.name@ == "Command Line Server"@
                &&& s.server_name@.len() == 0
                &&& s.base@ == url.path@
                &&& match auth_jwt {
                    Some(k) => s.auth matches Some(a) && a.jwt_public_key_path@ == k@,
                    None => s.auth is None,
                }
                &&& (url.scheme@ == "https"@ ==> (s.ssl matches Some(c) && c.cert.deep_view() == fallback_ssl.cert.deep_view()
                    && c.key.deep_view() == fallback_ssl.key.deep_view()
                    && c.cacert.deep_view() == fallback_ssl.cacert.deep_view()
                    && c.insecure == fallback_ssl.insecure && c.no_peer_cert == fallback_ssl.no_peer_cert))
                &&& (url.scheme@ != "https"@ ==> s.ssl is None)
            },
            Err(m) => cli_listen_spec(url@, match unix_socket {
                Some(x) => Some(x@),
                None => None,
            }) == Err::<Seq<char>, Seq<char>>(m@),
        },
{
    let listen = match cli_listen(url, unix_socket) {
        Ok(l) => l,
        Err(m) => return Err(m),
    };
    let auth = match auth_jwt {
        Some(k) => Some(AuthConfig { jwt_public_key_path: String::from_str(k) }),
        None => None,
    };
    let ssl = if equals_text(url.scheme.as_str(), "https") {
        Some(SslConfig {
            cert: clone_opt_string(&fallback_ssl.cert),
            key: clone_opt_string(&fallback_ssl.key),
            cacert: clone_opt_string(&fallback_ssl.cacert),
            insecure: fallback_ssl.insecure,
            no_peer_cert: fallback_ssl.no_peer_cert,
        })
    } else {
        None
    };
    Ok(ServerConfig {
        name: String::from_str("Command Line Server"),
        listen,
        server_name: Vec::new(),
        base: url.path.clone(),
        auth,
        ssl,
    })
}

/// The servers to run: those of the configuration file, then the one of the
/// command line; the default configuration's where neither is given.
pub fn plan_servers(config_servers: Option<Vec<ServerConfig>>, cli: Option<ServerConfig>) -> (r: Vec<ServerConfig>)
    ensures
        config_servers is None && cli is None ==> r@.len() == 1 && r@[0].name@ == "SOVD Server"@
            && r@[0].listen@ == "127.0.0.1:9000"@ && r@[0].base@ == "/sovd"@ && r@[0].auth is None
            && r@[0].ssl is None && r@[0].server_name@.len() == 0,
        !(config_servers is None && cli is None) ==> r@ == match config_servers {
            Some(c) => c@,
            None => Seq::empty(),
        } + match cli {
            Some(s) => seq![s],
            None => Seq::empty(),
        },
{
    let none_given = config_servers.is_none() && cli.is_none();
    if none_given {
        return Config::default().servers;
    }
    let mut servers: Vec<ServerConfig> = match config_servers {
        Some(c) => c,
        None => Vec::new(),
    };
    let ghost first = servers@;
    match cli {
        Some(s) => {
            servers.push(s);
            assert(servers@ =~= first + seq![s]);
        },
        None => {
            assert(servers@ =~= first + Seq::<ServerConfig>::empty());
        },
    }
    servers
}

/// The name the gateway reports: that of its first server, or `SOVD Gateway`.
pub fn gateway_name(servers: &Vec<ServerConfig>) -> (r: String)
    ensures
        servers@.len() > 0 ==> r@ == servers@[0].name@,
        servers@.len() == 0 ==> r@ == "SOVD Gateway"@,
{
    if servers.len() > 0 {
        servers[0].name.clone()
    } else {
        String::from_str("SOVD Gateway")
    }
}

// ----------------------------------------------------------------------------
// Listeners
// ----------------------------------------------------------------------------

/// Where a server listens.
#[derive(Debug, Clone, PartialEq, Eq)]
pub enum ListenTarget {
    /// A Unix socket at a path.
    UnixPath(String),
    /// An abstract Unix socket with a name.
    UnixAbstract(String),
    /// A TCP address.
    Tcp(String),
}

/// Where `unix:/<path>` listens: an abstract socket for `@<name>`, else the path;
/// anything else is a TCP address.
pub open spec fn listen_target_spec(listen: Seq<char>) -> (Seq<char>, int) {
    if has_prefix(listen, "unix:/"@) {
        let rest = listen.subrange(6, listen.len() as int);
        if has_prefix(rest, "@"@) {
            (rest.subrange(1, rest.len() as int), 1)
        } else {
            (rest, 0)
        }
    } else {
        (listen, 2)
    }
}

/// Where a server with the listen setting listens.
pub fn listen_target(listen: &str) -> (r: ListenTarget)
    ensures
        match r {
            ListenTarget::UnixPath(p) => listen_target_spec(listen@) == (p@, 0int),
            ListenTarget::UnixAbstract(n) => listen_target_spec(listen@) == (n@, 1int),
            ListenTarget::Tcp(a) => listen_target_spec(listen@) == (a@, 2int),
        },
{
    if starts_with_text(listen, "unix:/") {
        proof {
            reveal_strlit("unix:/");
        }
        let n = listen.unicode_len();
        let rest = listen.substring_char(6, n);
        if starts_with_text(rest, "@") {
            proof {
                reveal_strlit("@");
            }
            let m = rest.unicode_len();
            ListenTarget::UnixAbstract(String::from_str(rest.substring_char(1, m)))
        } else {
            ListenTarget::UnixPath(String::from_str(rest))
        }
    } else {
        ListenTarget::Tcp(String::from_str(listen))
    }
}

// ----------------------------------------------------------------------------
// SSL
// ----------------------------------------------------------------------------

/// How an SSL acceptor is set up: key and certificate files, an optional CA
/// file, and the verification mode.
#[derive(Debug, Clone)]
pub struct SslPlan {
    pub key: String,
    pub cert: String,
    pub cacert: Option<String>,
    /// Verify the peer (`SSL_VERIFY_PEER`).
    pub verify_peer: bool,
    /// Fail where the peer sends no certificate (`SSL_VERIFY_FAIL_IF_NO_PEER_CERT`).
    pub fail_if_no_peer_cert: bool,
}

/// The setup of an SSL acceptor: the key and the certificate are required (the
/// key is checked first); the peer is verified unless insecure, and a peer
/// certificate is required unless told otherwise.
pub fn ssl_plan(cert: Option<&str>, key: Option<&str>, cacert: Option<&str>, insecure: bool, no_peer_cert: bool) -> (r:
    Result<SslPlan, String>)
    ensures
        key is None ==> (r matches Err(m) && m@ == "Private key file is required for HTTPS"@),
        key is Some && cert is None ==> (r matches Err(m) && m@ == "Certificate file is required for HTTPS"@),
        key is Some && cert is Some ==> (r matches Ok(p) && p.key@ == key.unwrap()@ && p.cert@ == cert.unwrap()@
            && p.cacert.deep_view() == match cacert {
                Some(c) => Some(c@),
                None => None,
            } && p.verify_peer == !insecure && p.fail_if_no_peer_cert == !no_peer_cert),
{
    let key_path = match key {
        Some(k) => k,
        None => return Err(String::from_str("Private key file is required for HTTPS")),
    };
    let cert_path = match cert {
        Some(c) => c,
        None => return Err(String::from_str("Certificate file is required for HTTPS")),
    };
    Ok(SslPlan {
        key: String::from_str(key_path),
        cert: String::from_str(cert_path),
        cacert: match cacert {
            Some(c) => Some(String::from_str(c)),
            None => None,
        },
        verify_peer: !insecure,
        fail_if_no_peer_cert: !no_peer_cert,
    })
}

/// Where the command line's server listens: on the Unix socket where one is
/// given, whatever the URL; otherwise a URL with a host and no port listens on
/// the host at port 80 for `http` and at port 443 for `https`, a URL with a
/// port on the host at that port, and a URL without a host or with another
/// scheme is refused.
pub proof fn lemma_cli_listen(url: UrlPartsView, socket: Seq<char>)
    ensures
        cli_listen_spec(url, Some(socket)) == Ok::<Seq<char>, Seq<char>>(seq!['u', 'n', 'i', 'x', ':', '/'] + socket),
        url.host is None ==> cli_listen_spec(url, None) is Err,
        url.scheme != "http"@ && url.scheme != "https"@ ==> cli_listen_spec(url, None) is Err,
        url.scheme == "http"@ && url.host is Some && url.port is None ==> cli_listen_spec(url, None) == Ok::<Seq<char>, Seq<char>>(
            url.host->0 + ":80"@,
        ),
        url.scheme == "https"@ && url.host is Some && url.port is None ==> cli_listen_spec(url, None) == Ok::<Seq<char>, Seq<char>>(
            url.host->0 + ":443"@,
        ),
        (url.scheme == "http"@ || url.scheme == "https"@) && url.host is Some && url.port is Some ==> cli_listen_spec(url, None) == Ok::<
            Seq<char>,
            Seq<char>,
        >(url.host->0 + ":"@ + decimal(url.port->0 as nat)),
{
    reveal_strlit("unix:/");
    assert("unix:/"@ =~= seq!['u', 'n', 'i', 'x', ':', '/']);
    reveal_strlit("http");
    reveal_strlit("https");
    reveal_strlit(":");
    reveal_strlit(":80");
    reveal_strlit(":443");
    assert(decimal(8) == seq!['8']);
    assert(decimal(80) == seq!['8'].push('0'));
    assert(":"@ + decimal(80) =~= ":80"@);
    assert(decimal(4) == seq!['4']);
    assert(decimal(44) == seq!['4'].push('4'));
    assert(decimal(443) == seq!['4'].push('4').push('3'));
    assert(":"@ + decimal(443) =~= ":443"@);
    assert("http"@.len() == 4);
    assert("https"@.len() == 5);
    assert("http"@ != "https"@);
    if url.host is Some {
        let host = url.host->0;
        assert(host + ":"@ + decimal(80) =~= host + ":80"@);
        assert(host + ":"@ + decimal(443) =~= host + ":443"@);
    }
}

} // verus!
