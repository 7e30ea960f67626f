use vstd::prelude::*;

verus! {

/// The kind of failure that aborted a connection attempt. Each kind belongs to
/// one phase of the pipeline.
#[derive(Clone, Copy, Debug, PartialEq, Eq, Structural)]
pub enum ConnectError {
    /// The port security mode was left unresolved (`Automatic`).
    Configuration,
    /// DNS, TCP or proxy-tunnel failure while building the transport.
    Connect,
    /// TLS handshake or certificate-trust failure.
    Tls,
    /// Missing or malformed greeting, capability or identification response.
    Protocol,
    /// The in-band upgrade command was rejected or answered malformed.
    Upgrade,
    /// The server rejected the credentials or the mechanism exchange.
    Auth,
}

impl ConnectError {
    /// A short description of the failure, naming its phase.
    pub fn message(&self) -> (r: &'static str)
        ensures
            r@ == match *self {
                ConnectError::Configuration => "port security is not configured"@,
                ConnectError::Connect => "failed to connect"@,
                ConnectError::Tls => "TLS handshake failed"@,
                ConnectError::Protocol => "unexpected server response"@,
                ConnectError::Upgrade => "STARTTLS command failed"@,
                ConnectError::Auth => "authentication failed"@,
            },
    {
        let r = match self {
            ConnectError::Configuration => "port security is not configured",
            ConnectError::Connect => "failed to connect",
            ConnectError::Tls => "TLS handshake failed",
            ConnectError::Protocol => "unexpected server response",
            ConnectError::Upgrade => "STARTTLS command failed",
            ConnectError::Auth => "authentication failed",
        };
        proof {
            reveal_strlit("port security is not configured");
            reveal_strlit("failed to connect");
            reveal_strlit("TLS handshake failed");
            reveal_strlit("unexpected server response");
            reveal_strlit("STARTTLS command failed");
            reveal_strlit("authentication failed");
        }
        r
    }
}

} // verus!
