use imap_connector::client::{Client, Event, ReplyStatus};
use imap_connector::{ConnectError, SecurityMode, Step, TransportPath};

fn drive(mode: SecurityMode, proxy: bool, outcomes: &[Event]) -> (Client, Vec<Step>) {
    let mut client = Client::connect(true, proxy, mode).unwrap();
    let mut steps = vec![client.step()];
    for e in outcomes {
        let s = client.advance(*e);
        steps.push(s);
    }
    (client, steps)
}

#[test]
fn automatic_mode_is_a_configuration_error() {
    for proxy in [false, true] {
        let r = Client::connect(false, proxy, SecurityMode::Automatic);
        assert!(matches!(r, Err(ConnectError::Configuration)));
    }
}

#[test]
fn each_mode_selects_its_path() {
    let cases = [
        (SecurityMode::ImplicitTls, false, TransportPath::Tls),
        (SecurityMode::ImplicitTls, true, TransportPath::TlsViaProxy),
        (SecurityMode::StartTls, false, TransportPath::StartTls),
        (SecurityMode::StartTls, true, TransportPath::StartTlsViaProxy),
        (SecurityMode::Plain, false, TransportPath::Plain),
        (SecurityMode::Plain, true, TransportPath::PlainViaProxy),
    ];
    for (mode, proxy, path) in cases {
        let c = Client::connect(false, proxy, mode).unwrap();
        assert_eq!(c.path(), path);
        assert!(!c.is_tls());
        assert!(!c.is_ready());
    }
}

#[test]
fn implicit_tls_handshakes_before_greeting() {
    let (c, steps) = drive(
        SecurityMode::ImplicitTls,
        false,
        &[Event::Completed, Event::Completed, Event::Completed],
    );
    assert_eq!(
        steps,
        vec![Step::OpenTcp, Step::WrapTls, Step::ReadGreeting, Step::Ready]
    );
    assert_eq!(steps.iter().filter(|s| **s == Step::WrapTls).count(), 1);
    assert_eq!(steps.iter().filter(|s| **s == Step::ReadGreeting).count(), 1);
    assert!(c.is_ready());
    assert!(c.is_tls());
}

#[test]
fn starttls_via_proxy_orders_greeting_upgrade_handshake() {
    let (c, steps) = drive(
        SecurityMode::StartTls,
        true,
        &[
            Event::Completed,
            Event::Completed,
            Event::Reply(ReplyStatus::Okay),
            Event::Completed,
        ],
    );
    assert_eq!(
        steps,
        vec![
            Step::OpenTunnel,
            Step::ReadGreeting,
            Step::SendStartTls,
            Step::WrapTls,
            Step::Ready
        ]
    );
    assert!(c.is_ready());
    assert!(c.is_tls());
    assert!(c.strict_tls());
}

#[test]
fn tcp_failure_is_a_connect_error() {
    let (c, steps) = drive(SecurityMode::Plain, false, &[Event::Failed]);
    assert_eq!(steps, vec![Step::OpenTcp, Step::Fail(ConnectError::Connect)]);
    assert!(!c.is_ready());
    let (c, steps) = drive(SecurityMode::ImplicitTls, true, &[Event::Failed, Event::Completed]);
    assert_eq!(steps[1], Step::Fail(ConnectError::Connect));
    assert_eq!(steps[2], Step::Fail(ConnectError::Connect));
    assert!(!c.is_ready());
}

#[test]
fn plain_never_handshakes() {
    let (c, steps) = drive(SecurityMode::Plain, false, &[Event::Completed, Event::Completed]);
    assert_eq!(steps, vec![Step::OpenTcp, Step::ReadGreeting, Step::Ready]);
    assert!(!steps.contains(&Step::WrapTls));
    assert!(c.is_ready());
    assert!(!c.is_tls());
}

#[test]
fn plain_via_proxy_reads_greeting_over_tunnel() {
    let (c, steps) = drive(SecurityMode::Plain, true, &[Event::Completed, Event::Completed]);
    assert_eq!(steps, vec![Step::OpenTunnel, Step::ReadGreeting, Step::Ready]);
    assert!(c.is_ready());
    assert!(!c.is_tls());
}

#[test]
fn rejected_starttls_fails_closed() {
    for status in [ReplyStatus::No, ReplyStatus::Bad] {
        let (c, steps) = drive(
            SecurityMode::StartTls,
            false,
            &[
                Event::Completed,
                Event::Completed,
                Event::Reply(status),
                Event::Completed,
            ],
        );
        assert_eq!(steps[3], Step::Fail(ConnectError::Upgrade));
        assert_eq!(steps[4], Step::Fail(ConnectError::Upgrade));
        assert!(!c.is_ready());
        assert!(!c.is_tls());
    }
    let (c, steps) = drive(
        SecurityMode::StartTls,
        true,
        &[Event::Completed, Event::Completed, Event::Failed],
    );
    assert_eq!(steps[3], Step::Fail(ConnectError::Upgrade));
    assert!(!c.is_ready());
}

#[test]
fn bad_greeting_is_a_protocol_error() {
    let (_, steps) = drive(SecurityMode::ImplicitTls, false, &[Event::Completed, Event::Completed, Event::Failed]);
    assert_eq!(steps[3], Step::Fail(ConnectError::Protocol));
}

#[test]
fn tls_failure_is_a_tls_error() {
    let (c, steps) = drive(SecurityMode::ImplicitTls, false, &[Event::Completed, Event::Failed]);
    assert_eq!(steps[2], Step::Fail(ConnectError::Tls));
    assert!(!c.is_tls());
}

#[test]
fn error_messages_are_not_empty() {
    assert_eq!(
        ConnectError::Configuration.message(),
        "port security is not configured"
    );
    assert_eq!(ConnectError::Upgrade.message(), "STARTTLS command failed");
}
