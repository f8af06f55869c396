use vstd::prelude::*;

verus! {

/// SSL/TLS options of the command line.
#[derive(Debug, Clone, Default)]
pub struct SslArgs {
    /// Path to the certificate file (PEM).
    pub cert: Option<String>,
    /// Path to the private key file (PEM).
    pub key: Option<String>,
    /// Path to the CA certificate file (PEM) for peer verification.
    pub cacert: Option<String>,
    /// Disable certificate verification.
    pub insecure: bool,
    /// Require no peer certificate (server mode).
    pub no_peer_cert: bool,
}

/// Why SSL options were refused.
#[derive(Debug, Clone, Copy, PartialEq, Eq, Structural)]
pub enum SslArgsError {
    /// Peer verification is on and a certificate is given, but no CA certificate.
    MissingCaCert,
}

/// The message for a missing CA certificate.
pub open spec fn missing_ca_cert_message() -> Seq<char> {
    "CA certificate (--cacert) is required when peer verification is enabled. Use --cacert to provide a CA certificate, or --insecure to disable verification.\n"@
}

impl SslArgsError {
    /// The message of the error.
    pub fn to_string(&self) -> (r: String)
        ensures
            r@ == missing_ca_cert_message(),
    {
        String::from_str(
            "CA certificate (--cacert) is required when peer verification is enabled. Use --cacert to provide a CA certificate, or --insecure to disable verification.\n",
        )
    }
}

impl SslArgs {
    /// Some SSL option is given.
    pub open spec fn configured(&self) -> bool {
        self.cert is Some || self.key is Some || self.cacert is Some || self.insecure || self.no_peer_cert
    }

    /// Whether some SSL option is given.
    pub fn is_configured(&self) -> (r: bool)
        ensures
            r == self.configured(),
    {
        self.cert.is_some() || self.key.is_some() || self.cacert.is_some() || self.insecure || self.no_peer_cert
    }

    /// Checks what the declarative argument rules cannot: with verification on
    /// and a certificate given, a CA certificate is required.
    pub fn validate(&self) -> (r: Result<(), SslArgsError>)
        ensures
            r is Err <==> (self.configured() && !self.insecure && self.cert is Some && self.cacert is None),
            r matches Err(e) ==> e == SslArgsError::MissingCaCert,
    {
        if !self.is_configured() {
            return Ok(());
        }
        if !self.insecure && self.cert.is_some() && self.cacert.is_none() {
            return Err(SslArgsError::MissingCaCert);
        }
        Ok(())
    }
}

} // verus!
