//! What a TLS 1.3 handshake starts from.
use std::sync::Arc;

use vstd::prelude::*;

use crate::conn::ConnectionRandoms;
use crate::hash_hs::HandshakeHash;
use crate::msgs::ServerExtension;
use crate::server::ServerConfig;
use crate::suites::Tls13CipherSuite;

verus! {

/// The state in which a `ClientHello` is answered under TLS 1.3.
pub struct CompleteClientHelloHandling<R> {
    pub config: Arc<ServerConfig<R>>,
    pub transcript: HandshakeHash,
    pub suite: Tls13CipherSuite,
    pub randoms: ConnectionRandoms,
    pub done_retry: bool,
    pub send_ticket: bool,
    pub extra_exts: Vec<ServerExtension>,
}

} // verus!
