use sovd::gateway::args::{SslArgs, SslArgsError};
use sovd::gateway::config::{default_base, Config, ServerConfig, SslConfig};
use sovd::gateway::plan::{
    cli_listen, cli_server, gateway_name, listen_target, parse_url, plan_servers, ssl_plan, ListenTarget,
};

#[test]
fn ssl_args_validation() {
    let none = SslArgs::default();
    assert!(!none.is_configured());
    assert!(none.validate().is_ok());
    let only_no_peer = SslArgs { no_peer_cert: true, ..SslArgs::default() };
    assert!(only_no_peer.is_configured());
    assert!(only_no_peer.validate().is_ok());
    let cert_only = SslArgs { cert: Some("c.pem".to_string()), key: Some("k.pem".to_string()), ..SslArgs::default() };
    assert!(cert_only.is_configured());
    assert_eq!(cert_only.validate().unwrap_err(), SslArgsError::MissingCaCert);
    assert!(SslArgsError::MissingCaCert.to_string().starts_with("CA certificate (--cacert) is required"));
    let insecure = SslArgs { insecure: true, ..cert_only.clone() };
    assert!(insecure.validate().is_ok());
    let with_ca = SslArgs { cacert: Some("ca.pem".to_string()), ..cert_only };
    assert!(with_ca.validate().is_ok());
}

#[test]
fn gateway_configuration_defaults() {
    assert_eq!(default_base(), "/");
    let config = Config::default();
    assert_eq!(config.servers.len(), 1);
    assert_eq!(config.servers[0].name, "SOVD Server");
    assert_eq!(config.servers[0].listen, "127.0.0.1:9000");
    assert_eq!(config.servers[0].base, "/sovd");
    let args = SslArgs { cert: Some("c".to_string()), no_peer_cert: true, ..SslArgs::default() };
    let ssl = SslConfig::from(&args);
    assert_eq!(ssl.cert.as_deref(), Some("c"));
    assert!(ssl.no_peer_cert);
    assert!(!ssl.insecure);
}

#[test]
fn command_line_server() {
    let url = parse_url("https://127.0.0.1/sovd").unwrap();
    assert_eq!(url.scheme, "https");
    assert_eq!(cli_listen(&url, None).unwrap(), "127.0.0.1:443");
    let url = parse_url("http://localhost:9000/api").unwrap();
    assert_eq!(cli_listen(&url, None).unwrap(), "localhost:9000");
    assert_eq!(cli_listen(&url, Some("/tmp/s.sock")).unwrap(), "unix://tmp/s.sock");
    let ftp = parse_url("ftp://host/x").unwrap();
    assert_eq!(cli_listen(&ftp, None).unwrap_err(), "Unsupported URL scheme: ftp");
    assert!(parse_url("not a url").is_err());

    let fallback = SslConfig { cert: None, key: None, cacert: None, insecure: true, no_peer_cert: false };
    let server = cli_server(&url, None, Some("key.pem"), &fallback).unwrap();
    assert_eq!(server.name, "Command Line Server");
    assert_eq!(server.base, "/api");
    assert_eq!(server.auth.unwrap().jwt_public_key_path, "key.pem");
    assert!(server.ssl.is_none());
    let secure = parse_url("https://example.com:8443/sovd").unwrap();
    let server = cli_server(&secure, None, None, &fallback).unwrap();
    assert_eq!(server.listen, "example.com:8443");
    assert!(server.ssl.unwrap().insecure);
}

#[test]
fn server_planning() {
    let default = plan_servers(None, None);
    assert_eq!(default.len(), 1);
    assert_eq!(gateway_name(&default), "SOVD Server");
    assert_eq!(gateway_name(&vec![]), "SOVD Gateway");
    let configured = ServerConfig {
        name: "A".to_string(),
        listen: "0.0.0.0:1".to_string(),
        server_name: vec![],
        base: "/".to_string(),
        auth: None,
        ssl: None,
    };
    let cli = ServerConfig { name: "B".to_string(), ..configured.clone() };
    let planned = plan_servers(Some(vec![configured.clone()]), Some(cli));
    assert_eq!(planned.iter().map(|s| s.name.as_str()).collect::<Vec<_>>(), vec!["A", "B"]);
    let only_config = plan_servers(Some(vec![]), None);
    assert!(only_config.is_empty());
}

#[test]
fn listen_targets() {
    assert_eq!(listen_target("unix:/var/run/sovd.sock"), ListenTarget::UnixPath("var/run/sovd.sock".to_string()));
    assert_eq!(listen_target("unix://tmp/s.sock"), ListenTarget::UnixPath("/tmp/s.sock".to_string()));
    assert_eq!(listen_target("unix:/@sovd"), ListenTarget::UnixAbstract("sovd".to_string()));
    assert_eq!(listen_target("127.0.0.1:9000"), ListenTarget::Tcp("127.0.0.1:9000".to_string()));
}

#[test]
fn ssl_setup_plan() {
    assert_eq!(ssl_plan(Some("c"), None, None, false, false).unwrap_err(), "Private key file is required for HTTPS");
    assert_eq!(ssl_plan(None, None, None, false, false).unwrap_err(), "Private key file is required for HTTPS");
    assert_eq!(ssl_plan(None, Some("k"), None, false, false).unwrap_err(), "Certificate file is required for HTTPS");
    let plan = ssl_plan(Some("c"), Some("k"), Some("ca"), false, true).unwrap();
    assert_eq!(plan.key, "k");
    assert_eq!(plan.cert, "c");
    assert_eq!(plan.cacert.as_deref(), Some("ca"));
    assert!(plan.verify_peer);
    assert!(!plan.fail_if_no_peer_cert);
    let insecure = ssl_plan(Some("c"), Some("k"), None, true, false).unwrap();
    assert!(!insecure.verify_peer);
    assert!(insecure.fail_if_no_peer_cert);
}
