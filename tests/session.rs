use std::collections::HashMap;

use imap_connector::capabilities::{client_identity, wants_identification, Capabilities};
use imap_connector::client::{Client, Event};
use imap_connector::session::{AuthMethod, Setup, SetupStep};
use imap_connector::{ConnectError, SecurityMode};
use tokio::io::AsyncWriteExt;

type Listed = (
    async_imap::types::Capabilities,
    Option<HashMap<String, String>>,
);

/// Logs in against a scripted server, lists its capabilities and, when
/// `identify` is set, sends the identification command.
fn scripted_server(script: &str, identify: bool) -> Listed {
    let rt = tokio::runtime::Builder::new_current_thread()
        .build()
        .unwrap();
    rt.block_on(async {
        let (client_io, mut server_io) = tokio::io::duplex(1 << 16);
        server_io.write_all(script.as_bytes()).await.unwrap();
        let client = async_imap::Client::new(client_io);
        let mut session = client.login("user", "secret").await.map_err(|(e, _)| e).unwrap();
        let caps = session.capabilities().await.unwrap();
        let id = if identify {
            let (field, value) = client_identity();
            session.id([(field, Some(value))]).await.unwrap()
        } else {
            None
        };
        (caps, id)
    })
}

fn ready_client() -> Client {
    let mut c = Client::connect(false, false, SecurityMode::Plain).unwrap();
    c.advance(Event::Completed);
    c.advance(Event::Completed);
    assert!(c.is_ready());
    c
}

fn no_identity(caps: &async_imap::types::Capabilities) -> Capabilities {
    let mut setup = ready_client().login();
    setup.on_authenticated(true);
    assert_eq!(setup.on_capabilities(Some(caps)), SetupStep::Established);
    setup.into_capabilities()
}

#[test]
fn known_tokens_set_their_flags() {
    let (caps, _) = scripted_server(
        "A0001 OK logged in\r\n* CAPABILITY IMAP4rev1 IDLE MOVE CONDSTORE\r\nA0002 OK done\r\n",
        false,
    );
    assert!(!wants_identification(&caps));
    let r = no_identity(&caps);
    assert!(r.can_idle);
    assert!(r.can_move);
    assert!(r.can_condstore);
    assert!(!r.can_check_quota);
    assert!(!r.can_metadata);
    assert!(!r.can_push);
    assert!(!r.is_chatmail);
    assert!(r.server_id.is_none());
}

#[test]
fn extension_tokens_set_their_flags() {
    let (caps, _) = scripted_server(
        "A0001 OK logged in\r\n* CAPABILITY IMAP4rev1 QUOTA METADATA XDELTAPUSH XCHATMAIL UNKNOWN\r\nA0002 OK done\r\n",
        false,
    );
    let r = no_identity(&caps);
    assert!(!r.can_idle);
    assert!(!r.can_move);
    assert!(!r.can_condstore);
    assert!(r.can_check_quota);
    assert!(r.can_metadata);
    assert!(r.can_push);
    assert!(r.is_chatmail);
}

#[test]
fn identification_reply_is_kept_verbatim() {
    let (caps, id) = scripted_server(
        "A0001 OK logged in\r\n* CAPABILITY IMAP4rev1 ID IDLE\r\nA0002 OK done\r\n* ID (\"name\" \"Dovecot\" \"version\" \"2.3\")\r\nA0003 OK done\r\n",
        true,
    );
    assert!(wants_identification(&caps));
    let mut setup = ready_client().authenticate();
    assert_eq!(setup.method(), AuthMethod::Mechanism);
    assert_eq!(setup.on_authenticated(true), SetupStep::ListCapabilities);
    assert_eq!(setup.on_capabilities(Some(&caps)), SetupStep::Identify);
    assert_eq!(setup.on_identified(Some(id.clone())), SetupStep::Established);
    let r = setup.into_capabilities();
    assert!(r.can_idle);
    assert_eq!(r.server_id, id);
    let server = r.server_id.unwrap();
    assert_eq!(server.get("name").map(|s| s.as_str()), Some("Dovecot"));
    assert_eq!(server.get("version").map(|s| s.as_str()), Some("2.3"));
}

#[test]
fn client_identity_is_fixed() {
    assert_eq!(client_identity(), ("name", "Delta Chat"));
}

#[test]
fn rejected_login_never_negotiates() {
    let mut setup: Setup = ready_client().login();
    assert_eq!(setup.method(), AuthMethod::Login);
    assert_eq!(setup.step(), SetupStep::Authenticate);
    assert_eq!(
        setup.on_authenticated(false),
        SetupStep::Fail(ConnectError::Auth)
    );
    assert_eq!(setup.step(), SetupStep::Fail(ConnectError::Auth));
}

#[test]
fn missing_capability_response_is_a_protocol_error() {
    let mut setup = ready_client().login();
    setup.on_authenticated(true);
    assert_eq!(
        setup.on_capabilities(None),
        SetupStep::Fail(ConnectError::Protocol)
    );
}

#[test]
fn failed_identification_is_a_protocol_error() {
    let (caps, _) = scripted_server(
        "A0001 OK logged in\r\n* CAPABILITY IMAP4rev1 ID\r\nA0002 OK done\r\n",
        false,
    );
    let mut setup = ready_client().login();
    setup.on_authenticated(true);
    assert_eq!(setup.on_capabilities(Some(&caps)), SetupStep::Identify);
    assert_eq!(
        setup.on_identified(None),
        SetupStep::Fail(ConnectError::Protocol)
    );
}

