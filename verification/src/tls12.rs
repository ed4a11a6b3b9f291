//! What a TLS 1.2 handshake starts from.
use std::sync::Arc;

use vstd::prelude::*;

use crate::conn::ConnectionRandoms;
use crate::hash_hs::HandshakeHash;
use crate::msgs::{ServerExtension, SessionID};
use crate::server::ServerConfig;
use crate::suites::Tls12CipherSuite;

verus! {

/// The state in which a `ClientHello` is answered under TLS 1.2.
pub struct CompleteClientHelloHandling<R> {
    pub config: Arc<ServerConfig<R>>,
    pub transcript: HandshakeHash,
    pub session_id: SessionID,
    pub suite: Tls12CipherSuite,
    pub using_ems: bool,
    pub randoms: ConnectionRandoms,
    pub send_ticket: bool,
    pub extra_exts: Vec<ServerExtension>,
}

} // verus!
