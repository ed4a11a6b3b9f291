//! The server's side of a TLS handshake, from the `ClientHello` to the choice
//! of protocol version, certificate and cipher suite.
//!
//! - [`client_hello`] holds a message to the rules that do not depend on the
//!   server's configuration, and keeps the host name that it asks for.
//! - [`expect`] is the state that waits for a `ClientHello`; it settles version,
//!   certificate, cipher suite and transcript, and says how the handshake goes on.
//! - [`extensions`] makes the extensions of the server's reply.
//! - [`fingerprint`] makes a text of what a client's hello lists.
//! - [`hs`] has the refusals that these share, and the rule for resuming a session.
//! - [`laws`] states what holds of all of this together.
//!
//! The library does no input or output. Alerts for the peer are put in line in
//! [`conn::CommonState`], and the server's random value is handed in.
pub mod client_hello;
pub mod conn;
pub mod dns;
pub mod enums;
pub mod error;
pub mod expect;
pub mod extensions;
pub mod fingerprint;
pub mod hash_hs;
pub mod hs;
pub mod laws;
pub mod msgs;
pub mod seqs;
pub mod server;
pub mod suites;
pub mod text;
pub mod tls12;
pub mod tls13;
