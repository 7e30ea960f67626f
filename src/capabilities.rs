use std::collections::HashMap;

use async_imap::types::Capabilities as ServerCapabilities;
use vstd::prelude::*;

verus! {

#[verifier::external_type_specification]
#[verifier::external_body]
pub struct ExServerCapabilities(ServerCapabilities);

/// The atoms that a server listed in its capability response: the strings
/// `s` for which the set holds `Capability::Atom(s)`, with their case kept.
pub uninterp spec fn advertised_atoms(caps: ServerCapabilities) -> Set<Seq<char>>;

/// A token made of capital letters alone: neither `IMAP4rev1` nor an `AUTH=`
/// mechanism, so a server lists it as a plain atom.
pub open spec fn is_atom_token(t: Seq<char>) -> bool {
    &&& t.len() > 0
    &&& forall|i: int| 0 <= i < t.len() ==> 'A' <= #[trigger] t[i] && t[i] <= 'Z'
}

/// Relies on async_imap's `Capabilities::has_str`: for a token that is neither
/// `IMAP4rev1` nor an `AUTH=` mechanism it tells, case-sensitively, whether the
/// server listed that atom.
#[verifier::external_body]
fn has_atom(caps: &ServerCapabilities, token: &str) -> (r: bool)
    requires
        is_atom_token(token@),
    ensures
        r == advertised_atoms(*caps).contains(token@),
{
    caps.has_str(token)
}

/// The capability tokens that the negotiation recognizes.
pub const IDLE: &'static str = "IDLE";
pub const MOVE: &'static str = "MOVE";
pub const QUOTA: &'static str = "QUOTA";
pub const CONDSTORE: &'static str = "CONDSTORE";
pub const METADATA: &'static str = "METADATA";
/// Push notifications of the messaging server.
pub const XDELTAPUSH: &'static str = "XDELTAPUSH";
/// A server restricted to chat messages.
pub const XCHATMAIL: &'static str = "XCHATMAIL";
/// The identification extension.
pub const ID: &'static str = "ID";

/// The field that the identification command sends, and its value.
pub const CLIENT_ID_FIELD: &'static str = "name";
pub const CLIENT_ID_VALUE: &'static str = "Delta Chat";

/// What a server supports, as learned once after authentication.
pub struct Capabilities {
    pub can_idle: bool,
    pub can_move: bool,
    pub can_check_quota: bool,
    pub can_condstore: bool,
    pub can_metadata: bool,
    pub can_push: bool,
    pub is_chatmail: bool,
    /// What the server said of itself in reply to the identification command,
    /// if it was sent.
    pub server_id: Option<HashMap<String, String>>,
}

/// The record that a set of advertised atoms and an identification reply give.
pub open spec fn record_of(atoms: Set<Seq<char>>, server_id: Option<HashMap<String, String>>) -> Capabilities {
    Capabilities {
        can_idle: atoms.contains("IDLE"@),
        can_move: atoms.contains("MOVE"@),
        can_check_quota: atoms.contains("QUOTA"@),
        can_condstore: atoms.contains("CONDSTORE"@),
        can_metadata: atoms.contains("METADATA"@),
        can_push: atoms.contains("XDELTAPUSH"@),
        is_chatmail: atoms.contains("XCHATMAIL"@),
        server_id,
    }
}

/// Whether the server offers the identification extension.
pub fn wants_identification(caps: &ServerCapabilities) -> (r: bool)
    ensures
        r == advertised_atoms(*caps).contains("ID"@),
{
    proof {
        reveal_strlit("ID");
    }
    has_atom(caps, ID)
}

/// The field pair that the identification command carries.
pub fn client_identity() -> (r: (&'static str, &'static str))
    ensures
        r.0@ == "name"@,
        r.1@ == "Delta Chat"@,
{
    (CLIENT_ID_FIELD, CLIENT_ID_VALUE)
}

impl Capabilities {
    /// The record for a server's capability response and the reply to the
    /// identification command (`None` where it was not sent).
    pub fn from_server(caps: &ServerCapabilities, server_id: Option<HashMap<String, String>>) -> (r: Capabilities)
        ensures
            r == record_of(advertised_atoms(*caps), server_id),
    {
        proof {
            reveal_strlit("IDLE");
            reveal_strlit("MOVE");
            reveal_strlit("QUOTA");
            reveal_strlit("CONDSTORE");
            reveal_strlit("METADATA");
            reveal_strlit("XDELTAPUSH");
            reveal_strlit("XCHATMAIL");
        }
        Capabilities {
            can_idle: has_atom(caps, IDLE),
            can_move: has_atom(caps, MOVE),
            can_check_quota: has_atom(caps, QUOTA),
            can_condstore: has_atom(caps, CONDSTORE),
            can_metadata: has_atom(caps, METADATA),
            can_push: has_atom(caps, XDELTAPUSH),
            is_chatmail: has_atom(caps, XCHATMAIL),
            server_id,
        }
    }
}

} // verus!
