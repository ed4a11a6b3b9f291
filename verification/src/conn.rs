//! The state of a connection that outlives a single handshake message.
use vstd::prelude::*;

use crate::dns::{opt_text, DnsName};
use crate::enums::{AlertDescription, ProtocolVersion};
use crate::error::{Error, ErrorView, Refusal};
use crate::msgs::Random;
use crate::seqs::opt_bytes;
use crate::suites::SupportedCipherSuite;

verus! {

/// What carries the handshake.
#[derive(Clone, Copy, Debug, PartialEq, Eq, Structural)]
pub enum Protocol {
    Tcp,
    Quic,
}

/// What a connection over QUIC knows besides.
#[derive(Clone, Debug)]
pub struct Quic {
    /// The peer's transport parameters, once they are known.
    pub params: Option<Vec<u8>>,
}

/// The state that a connection has whichever side it is on.
#[derive(Clone, Debug)]
pub struct CommonState {
    pub negotiated_version: Option<ProtocolVersion>,
    pub suite: Option<SupportedCipherSuite>,
    pub alpn_protocol: Option<Vec<u8>>,
    /// Whether the last handshake message ended where its record ended.
    pub aligned_handshake: bool,
    pub protocol: Protocol,
    pub quic: Quic,
    /// The fatal alerts that are to go to the peer, oldest first.
    pub fatal_alerts: Vec<AlertDescription>,
}

/// A [`CommonState`] with its lists as sequences.
#[verifier::ext_equal]
pub struct CommonView {
    pub negotiated_version: Option<ProtocolVersion>,
    pub suite: Option<SupportedCipherSuite>,
    pub alpn_protocol: Option<Seq<u8>>,
    pub aligned_handshake: bool,
    pub protocol: Protocol,
    pub quic_params: Option<Seq<u8>>,
    pub fatal_alerts: Seq<AlertDescription>,
}

impl View for CommonState {
    type V = CommonView;

    open spec fn view(&self) -> CommonView {
        CommonView {
            negotiated_version: self.negotiated_version,
            suite: self.suite,
            alpn_protocol: opt_bytes(self.alpn_protocol),
            aligned_handshake: self.aligned_handshake,
            protocol: self.protocol,
            quic_params: opt_bytes(self.quic.params),
            fatal_alerts: self.fatal_alerts@,
        }
    }
}

impl CommonView {
    /// The state after a fatal alert, if there is one, has been put in line.
    pub open spec fn alerted(self, alert: Option<AlertDescription>) -> CommonView {
        match alert {
            Some(desc) => CommonView { fatal_alerts: self.fatal_alerts.push(desc), ..self },
            None => self,
        }
    }

    pub open spec fn is_tls13(self) -> bool {
        self.negotiated_version == Some(ProtocolVersion::TLSv1_3)
    }

    pub open spec fn is_quic(self) -> bool {
        self.protocol == Protocol::Quic
    }
}

/// The refusal of a handshake whose messages are not aligned with records.
pub open spec fn unaligned() -> Refusal {
    Refusal {
        error: ErrorView::PeerMisbehavedError(
            "key epoch or handshake flight with pending fragment"@,
        ),
        alert: Some(AlertDescription::UnexpectedMessage),
    }
}

impl CommonState {
    /// A connection about which nothing has been settled.
    pub fn new(protocol: Protocol) -> (common: CommonState)
        ensures
            common@ == (CommonView {
                negotiated_version: None,
                suite: None,
                alpn_protocol: None,
                aligned_handshake: true,
                protocol,
                quic_params: None,
                fatal_alerts: Seq::empty(),
            }),
    {
        CommonState {
            negotiated_version: None,
            suite: None,
            alpn_protocol: None,
            aligned_handshake: true,
            protocol,
            quic: Quic { params: None },
            fatal_alerts: Vec::new(),
        }
    }

    pub fn is_tls13(&self) -> (yes: bool)
        ensures
            yes == self@.is_tls13(),
    {
        match self.negotiated_version {
            Some(ProtocolVersion::TLSv1_3) => true,
            _ => false,
        }
    }

    pub fn is_quic(&self) -> (yes: bool)
        ensures
            yes == self@.is_quic(),
    {
        self.protocol == Protocol::Quic
    }

    /// Puts a fatal alert in line for the peer.
    pub fn send_fatal_alert(&mut self, desc: AlertDescription)
        ensures
            final(self)@ == old(self)@.alerted(Some(desc)),
    {
        self.fatal_alerts.push(desc);
    }

    pub fn illegal_param(&mut self, why: &str) -> (error: Error)
        ensures
            error@ == ErrorView::PeerMisbehavedError(why@),
            final(self)@ == old(self)@.alerted(Some(AlertDescription::IllegalParameter)),
    {
        self.send_fatal_alert(AlertDescription::IllegalParameter);
        Error::PeerMisbehavedError(why.to_string())
    }

    pub fn missing_extension(&mut self, why: &str) -> (error: Error)
        ensures
            error@ == ErrorView::PeerMisbehavedError(why@),
            final(self)@ == old(self)@.alerted(Some(AlertDescription::MissingExtension)),
    {
        self.send_fatal_alert(AlertDescription::MissingExtension);
        Error::PeerMisbehavedError(why.to_string())
    }

    /// Refuses a handshake message that did not end where its record ended.
    pub fn check_aligned_handshake(&mut self) -> (checked: Result<(), Error>)
        ensures
            match checked {
                Ok(_) => old(self).aligned_handshake && final(self)@ == old(self)@,
                Err(e) => !old(self).aligned_handshake && e@ == unaligned().error && final(self)@
                    == old(self)@.alerted(unaligned().alert),
            },
    {
        if !self.aligned_handshake {
            self.send_fatal_alert(AlertDescription::UnexpectedMessage);
            Err(
                Error::PeerMisbehavedError(
                    "key epoch or handshake flight with pending fragment".to_string(),
                ),
            )
        } else {
            Ok(())
        }
    }
}

/// The state that only a server's connection has.
#[derive(Clone, Debug)]
pub struct ServerConnectionData {
    /// The host name that the client asked for.
    pub sni: Option<DnsName>,
    /// The fingerprint of the client's hello.
    pub tls_fingerprint: Option<String>,
}

/// A [`ServerConnectionData`] with its texts as sequences.
#[verifier::ext_equal]
pub struct DataView {
    pub sni: Option<Seq<char>>,
    pub tls_fingerprint: Option<Seq<char>>,
}

impl View for ServerConnectionData {
    type V = DataView;

    open spec fn view(&self) -> DataView {
        DataView {
            sni: opt_text(self.sni),
            tls_fingerprint: match self.tls_fingerprint {
                Some(text) => Some(text@),
                None => None,
            },
        }
    }
}

impl ServerConnectionData {
    /// What is known before the client has said anything.
    pub fn new() -> (data: ServerConnectionData)
        ensures
            data@ == (DataView { sni: None, tls_fingerprint: None }),
    {
        ServerConnectionData { sni: None, tls_fingerprint: None }
    }
}

/// A server's connection.
#[derive(Clone, Debug)]
pub struct ServerContext {
    pub common: CommonState,
    pub data: ServerConnectionData,
}

/// The random values of both sides.
#[derive(Clone, Copy, Debug, PartialEq, Eq)]
pub struct ConnectionRandoms {
    pub client: [u8; 32],
    pub server: [u8; 32],
}

impl ConnectionRandoms {
    pub fn new(client: Random, server: Random) -> (randoms: ConnectionRandoms)
        ensures
            randoms == (ConnectionRandoms { client: client.0, server: server.0 }),
    {
        ConnectionRandoms { client: client.0, server: server.0 }
    }
}

} // verus!
