use vstd::prelude::*;

use crate::error::ConnectError;

verus! {

/// How the connection to the server is secured.
#[derive(Clone, Copy, Debug, PartialEq, Eq, Structural)]
pub enum SecurityMode {
    /// Not resolved yet; a connection cannot be made in this mode.
    Automatic,
    /// TLS from the first byte.
    ImplicitTls,
    /// A cleartext greeting, then the STARTTLS command, then TLS.
    StartTls,
    /// Cleartext throughout.
    Plain,
}

/// One of the six ways of building the transport.
#[derive(Clone, Copy, Debug, PartialEq, Eq, Structural)]
pub enum TransportPath {
    /// TCP, then TLS, then the greeting.
    Tls,
    /// A SOCKS5 tunnel, then TLS over it, then the greeting.
    TlsViaProxy,
    /// TCP, the cleartext greeting, STARTTLS, then TLS.
    StartTls,
    /// A SOCKS5 tunnel, the cleartext greeting, STARTTLS, then TLS over the tunnel.
    StartTlsViaProxy,
    /// TCP, then the greeting, in cleartext throughout.
    Plain,
    /// A SOCKS5 tunnel, then the greeting, in cleartext throughout.
    PlainViaProxy,
}

/// An operation that the caller performs on the connection's behalf.
#[derive(Clone, Copy, Debug, PartialEq, Eq, Structural)]
pub enum Step {
    /// Open a TCP connection to the server.
    OpenTcp,
    /// Open a SOCKS5 tunnel to the server.
    OpenTunnel,
    /// Perform the TLS handshake over the current stream.
    WrapTls,
    /// Read the server greeting.
    ReadGreeting,
    /// Send the STARTTLS command and read its tagged response.
    SendStartTls,
    /// The connection is established; nothing more to do.
    Ready,
    /// The attempt failed; the stream is to be dropped.
    Fail(ConnectError),
}

/// The path that a security mode and the presence of a proxy select.
pub open spec fn path_for(mode: SecurityMode, proxy: bool) -> Option<TransportPath> {
    match mode {
        SecurityMode::Automatic => None,
        SecurityMode::ImplicitTls => Some(if proxy { TransportPath::TlsViaProxy } else { TransportPath::Tls }),
        SecurityMode::StartTls => Some(
            if proxy { TransportPath::StartTlsViaProxy } else { TransportPath::StartTls },
        ),
        SecurityMode::Plain => Some(if proxy { TransportPath::PlainViaProxy } else { TransportPath::Plain }),
    }
}

/// Whether a path goes through a SOCKS5 proxy.
pub open spec fn via_proxy(path: TransportPath) -> bool {
    match path {
        TransportPath::TlsViaProxy | TransportPath::StartTlsViaProxy | TransportPath::PlainViaProxy => true,
        _ => false,
    }
}

/// Whether the established stream of a path is TLS-wrapped.
pub open spec fn uses_tls(path: TransportPath) -> bool {
    match path {
        TransportPath::Plain | TransportPath::PlainViaProxy => false,
        _ => true,
    }
}

/// The operations that build a connection along a path, in order.
pub open spec fn plan(path: TransportPath) -> Seq<Step> {
    let open = if via_proxy(path) { Step::OpenTunnel } else { Step::OpenTcp };
    match path {
        TransportPath::Tls | TransportPath::TlsViaProxy => seq![open, Step::WrapTls, Step::ReadGreeting],
        TransportPath::StartTls | TransportPath::StartTlsViaProxy => seq![
            open,
            Step::ReadGreeting,
            Step::SendStartTls,
            Step::WrapTls,
        ],
        TransportPath::Plain | TransportPath::PlainViaProxy => seq![open, Step::ReadGreeting],
    }
}

/// Selects the transport path for a security mode, with or without a proxy.
pub fn select_path(mode: SecurityMode, proxy: bool) -> (r: Result<TransportPath, ConnectError>)
    ensures
        mode == SecurityMode::Automatic ==> r == Err::<TransportPath, ConnectError>(
            ConnectError::Configuration,
        ),
        mode != SecurityMode::Automatic ==> r == Ok::<TransportPath, ConnectError>(
            path_for(mode, proxy)->Some_0,
        ),
        r is Ok ==> via_proxy(r->Ok_0) == proxy,
{
    match mode {
        SecurityMode::Automatic => Err(ConnectError::Configuration),
        SecurityMode::ImplicitTls => Ok(if proxy { TransportPath::TlsViaProxy } else { TransportPath::Tls }),
        SecurityMode::StartTls => Ok(
            if proxy { TransportPath::StartTlsViaProxy } else { TransportPath::StartTls },
        ),
        SecurityMode::Plain => Ok(if proxy { TransportPath::PlainViaProxy } else { TransportPath::Plain }),
    }
}

/// The number of operations in a path's plan.
pub fn plan_len(path: TransportPath) -> (r: usize)
    ensures
        r == plan(path).len(),
{
    match path {
        TransportPath::Tls | TransportPath::TlsViaProxy => 3,
        TransportPath::StartTls | TransportPath::StartTlsViaProxy => 4,
        TransportPath::Plain | TransportPath::PlainViaProxy => 2,
    }
}

/// The operation at position `pos` of a path's plan.
pub fn plan_step(path: TransportPath, pos: usize) -> (r: Step)
    requires
        pos < plan(path).len(),
    ensures
        r == plan(path)[pos as int],
{
    let proxy = match path {
        TransportPath::TlsViaProxy | TransportPath::StartTlsViaProxy | TransportPath::PlainViaProxy => true,
        _ => false,
    };
    if pos == 0 {
        if proxy { Step::OpenTunnel } else { Step::OpenTcp }
    } else {
        match path {
            TransportPath::Tls | TransportPath::TlsViaProxy => if pos == 1 {
                Step::WrapTls
            } else {
                Step::ReadGreeting
            },
            TransportPath::StartTls | TransportPath::StartTlsViaProxy => if pos == 1 {
                Step::ReadGreeting
            } else if pos == 2 {
                Step::SendStartTls
            } else {
                Step::WrapTls
            },
            TransportPath::Plain | TransportPath::PlainViaProxy => Step::ReadGreeting,
        }
    }
}

} // verus!

verus! {

/// The order of operations on every path: each operation is performed at most
/// once; the transport is opened first; the greeting is always read; it comes
/// before the STARTTLS command, which comes before the TLS handshake; with
/// implicit TLS the handshake comes before the greeting; and the stream is
/// TLS-wrapped exactly on the paths of the TLS modes.
pub proof fn lemma_plan_order(path: TransportPath)
    ensures
        forall|i: int, j: int|
            0 <= i < plan(path).len() && 0 <= j < plan(path).len() && #[trigger] plan(path)[i]
                == #[trigger] plan(path)[j] ==> i == j,
        plan(path)[0] == (if via_proxy(path) { Step::OpenTunnel } else { Step::OpenTcp }),
        plan(path).contains(Step::ReadGreeting),
        plan(path).contains(Step::WrapTls) == uses_tls(path),
        plan(path).contains(Step::SendStartTls) == (path == TransportPath::StartTls || path
            == TransportPath::StartTlsViaProxy),
        !plan(path).contains(Step::Ready),
        forall|i: int| 0 <= i < plan(path).len() ==> !(#[trigger] plan(path)[i] is Fail),
        forall|i: int, j: int|
            0 <= i < plan(path).len() && 0 <= j < plan(path).len() && #[trigger] plan(path)[i]
                == Step::ReadGreeting && #[trigger] plan(path)[j] == Step::SendStartTls ==> i < j,
        forall|i: int, j: int|
            0 <= i < plan(path).len() && 0 <= j < plan(path).len() && #[trigger] plan(path)[i]
                == Step::SendStartTls && #[trigger] plan(path)[j] == Step::WrapTls ==> i < j,
        forall|i: int, j: int|
            (path == TransportPath::Tls || path == TransportPath::TlsViaProxy) && 0 <= i < plan(
                path,
            ).len() && 0 <= j < plan(path).len() && #[trigger] plan(path)[i] == Step::WrapTls
                && #[trigger] plan(path)[j] == Step::ReadGreeting ==> i < j,
{
    let p = plan(path);
    assert(p[0] == Step::OpenTcp || p[0] == Step::OpenTunnel);
    match path {
        TransportPath::Tls | TransportPath::TlsViaProxy => {
            assert(p[1] == Step::WrapTls);
            assert(p[2] == Step::ReadGreeting);
            assert(!p.contains(Step::SendStartTls));
            assert(!p.contains(Step::Ready));
        },
        TransportPath::StartTls | TransportPath::StartTlsViaProxy => {
            assert(p[1] == Step::ReadGreeting);
            assert(p[2] == Step::SendStartTls);
            assert(p[3] == Step::WrapTls);
            assert(!p.contains(Step::Ready));
        },
        TransportPath::Plain | TransportPath::PlainViaProxy => {
            assert(p[1] == Step::ReadGreeting);
            assert(!p.contains(Step::SendStartTls));
            assert(!p.contains(Step::WrapTls));
            assert(!p.contains(Step::Ready));
        },
    }
}

} // verus!
