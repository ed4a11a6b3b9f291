//! The server's configuration, and what it is asked for.
use std::sync::Arc;

use vstd::prelude::*;

use crate::dns::{opt_text, DnsName};
use crate::enums::{CipherSuite, ProtocolVersion, SignatureAlgorithm, SignatureScheme};
use crate::msgs::ClientHelloPayload;
use crate::suites::SupportedCipherSuite;

verus! {

/// A private key, by its kind and by the number under which its owner keeps it.
#[derive(Clone, Copy, Debug, PartialEq, Eq)]
pub struct SigningKey {
    pub id: u64,
    pub algorithm: SignatureAlgorithm,
}

/// A certificate chain with its private key.
#[derive(Clone, Debug, PartialEq, Eq)]
pub struct CertifiedKey {
    /// The encoded certificates, the server's own first.
    pub cert: Vec<Vec<u8>>,
    pub key: SigningKey,
    /// An OCSP response for the server's certificate.
    pub ocsp: Option<Vec<u8>>,
    /// An encoded list of signed certificate timestamps.
    pub sct_list: Option<Vec<u8>>,
}

/// What a resolver is told of a client.
pub struct ClientHello<'a> {
    /// The host name that the client asked for.
    pub server_name: &'a Option<DnsName>,
    /// The signature schemes of the client that fit a cipher suite of both sides.
    pub signature_schemes: &'a Vec<SignatureScheme>,
    /// The application protocols that the client offers.
    pub alpn: Option<&'a Vec<Vec<u8>>>,
}

impl<'a> ClientHello<'a> {
    /// Whether this tells of the host name `sni`, the signature schemes
    /// `schemes` and the application protocols in `hello`.
    pub open spec fn tells(
        self,
        sni: Option<Seq<char>>,
        schemes: Seq<SignatureScheme>,
        hello: ClientHelloPayload,
    ) -> bool {
        &&& opt_text(*self.server_name) == sni
        &&& self.signature_schemes@ == schemes
        &&& match (self.alpn, hello.alpn_list()) {
            (Some(a), Some(b)) => *a == b,
            (None, None) => true,
            _ => false,
        }
    }

    pub fn new(
        server_name: &'a Option<DnsName>,
        signature_schemes: &'a Vec<SignatureScheme>,
        alpn: Option<&'a Vec<Vec<u8>>>,
    ) -> (hello: ClientHello<'a>)
        ensures
            hello.server_name == server_name,
            hello.signature_schemes == signature_schemes,
            hello.alpn == alpn,
    {
        ClientHello { server_name, signature_schemes, alpn }
    }
}

/// How a server finds the certificate chain for a client.
pub trait ResolvesServerCert {
    /// The chain and key to use, or nothing to give the handshake up.
    fn resolve(&self, client_hello: ClientHello<'_>) -> Option<Arc<CertifiedKey>>;
}

/// The versions that a server accepts.
#[derive(Clone, Copy, Debug, PartialEq, Eq)]
pub struct EnabledVersions {
    pub tls12: bool,
    pub tls13: bool,
}

/// A server's configuration, shared by its connections.
#[derive(Clone, Debug)]
pub struct ServerConfig<R> {
    /// The cipher suites of this server, most preferred first.
    pub cipher_suites: Vec<SupportedCipherSuite>,
    /// Whether the server's order of cipher suites counts, not the client's.
    pub ignore_client_order: bool,
    /// The application protocols of this server, most preferred first.
    pub alpn_protocols: Vec<Vec<u8>>,
    pub versions: EnabledVersions,
    /// Whether session tickets are made.
    pub ticketer_enabled: bool,
    /// Whether clients may be asked for a certificate.
    pub offer_client_auth: bool,
    pub cert_resolver: R,
}

impl<R> ServerConfig<R> {
    /// Whether `version` is enabled and has a cipher suite.
    pub open spec fn supports(self, version: ProtocolVersion) -> bool {
        &&& match version {
            ProtocolVersion::TLSv1_2 => self.versions.tls12,
            ProtocolVersion::TLSv1_3 => self.versions.tls13,
            _ => false,
        }
        &&& exists|i: int|
            0 <= i < self.cipher_suites@.len() && (#[trigger] self.cipher_suites@[i]).of_version()
                == version
    }

    pub fn supports_version(&self, version: ProtocolVersion) -> (yes: bool)
        ensures
            yes == self.supports(version),
    {
        let enabled: bool = match version {
            ProtocolVersion::TLSv1_2 => self.versions.tls12,
            ProtocolVersion::TLSv1_3 => self.versions.tls13,
            _ => false,
        };
        if !enabled {
            return false;
        }
        let mut i: usize = 0;
        while i < self.cipher_suites.len()
            invariant
                i <= self.cipher_suites@.len(),
                enabled,
                enabled == (match version {
                    ProtocolVersion::TLSv1_2 => self.versions.tls12,
                    ProtocolVersion::TLSv1_3 => self.versions.tls13,
                    _ => false,
                }),
                forall|j: int|
                    0 <= j < i ==> (#[trigger] self.cipher_suites@[j]).of_version() != version,
            decreases self.cipher_suites@.len() - i,
        {
            if self.cipher_suites[i].version() == version {
                return true;
            }
            i = i + 1;
        }
        false
    }
}

/// What a server remembers of a session.
#[derive(Clone, Debug)]
pub struct ServerSessionValue {
    pub sni: Option<DnsName>,
    pub version: ProtocolVersion,
    pub cipher_suite: CipherSuite,
    pub master_secret: Vec<u8>,
    /// Whether the session has an extended master secret.
    pub extended_ms: bool,
    pub alpn: Option<Vec<u8>>,
}

} // verus!
