//! Connection establishment and capability negotiation for a mail-retrieval
//! protocol client, written as verified state machines that decide what to
//! do next while the caller performs the network work.
//!
//! `Client::connect` selects one of six transport paths from the security
//! mode and the presence of a proxy, and then names each operation in turn
//! (open, greeting, STARTTLS, TLS handshake) until the connection is ready or
//! has failed. `Client::login` and `Client::authenticate` consume a ready
//! connection and drive authentication, capability discovery and
//! identification to a `Capabilities` record.

pub mod capabilities;
pub mod client;
pub mod error;
pub mod session;
pub mod transport;

pub use capabilities::Capabilities;
pub use client::{Client, Event, ReplyStatus};
pub use error::ConnectError;
pub use session::{AuthMethod, Setup, SetupStep};
pub use transport::{select_path, SecurityMode, Step, TransportPath};
