//! Certificate and handshake signature verification for TLS peers.
//!
//! The library decides whether a peer's certificate chain and handshake
//! signature are acceptable.  X.509 parsing, path building and cryptography
//! are done by the `webpki` crate; the [`pki`] module is where it is reached,
//! and states what is assumed of each of its functions.  All that happens around
//! those calls is proved against the contracts found here.
pub mod anchors;
pub mod client;
pub mod codec;
pub mod enums;
pub mod error;
pub mod handshake;
pub mod key;
#[allow(unused_imports)]
pub mod laws;
pub mod markers;
pub mod message;
pub mod pki;
pub mod pki_error;
pub mod server;
pub mod server_name;
pub mod signed_struct;

pub use crate::client::AllowAnyAnonymousOrAuthenticatedClient;
pub use crate::client::AllowAnyAuthenticatedClient;
pub use crate::client::ClientCertVerifier;
pub use crate::client::NoClientAuth;
pub use crate::markers::ClientCertVerified;
pub use crate::markers::HandshakeSignatureValid;
pub use crate::markers::ServerCertVerified;
pub use crate::server::verify_server_cert_signed_by_trust_anchor;
pub use crate::server::verify_server_name;
pub use crate::server::ServerCertVerifier;
pub use crate::server::WebPkiVerifier;
pub use crate::signed_struct::DigitallySignedStruct;
