//! Handshake messages, as far as the server's handling of a `ClientHello`
//! reads or builds them.
use std::collections::HashSet;

use vstd::prelude::*;

use crate::dns::{is_dns_name, lower_text, DnsName};
use crate::enums::{
    CipherSuite, Compression, ContentType, ECPointFormat, ExtensionType, HandshakeType, NamedGroup,
    ProtocolVersion, ServerNameType, SignatureScheme,
};
use crate::error::{Error, ErrorView};
use crate::seqs::{byte_strings, copy_bytes, find_first, find_first_at, find_first_none};

verus! {

/// Thirty-two bytes of which the sender chose each at random.
#[derive(Clone, Copy, Debug, PartialEq, Eq)]
pub struct Random(pub [u8; 32]);

/// The identifier of a session, which may be empty.
#[derive(Clone, Debug, PartialEq, Eq)]
pub struct SessionID {
    pub data: Vec<u8>,
}

impl SessionID {
    /// The identifier that names no session.
    pub fn empty() -> (id: SessionID)
        ensures
            id.data@ == Seq::<u8>::empty(),
    {
        SessionID { data: Vec::new() }
    }
}

/// What a name in the `server_name` extension holds.
#[derive(Clone, Debug, PartialEq, Eq)]
pub enum ServerNamePayload {
    /// The spelling of a host name, as the client sent it.
    HostName(Vec<u8>),
    /// A name of a kind that is not understood.
    Unknown(Vec<u8>),
}

/// A name in the `server_name` extension.
#[derive(Clone, Debug, PartialEq, Eq)]
pub struct ServerName {
    pub typ: ServerNameType,
    pub payload: ServerNamePayload,
}

/// Whether a list of names has two of one kind.
pub open spec fn repeats_name_type(names: Seq<ServerName>) -> bool {
    exists|i: int, j: int|
        0 <= i < j < names.len() && (#[trigger] names[i]).typ.code() == (
        #[trigger] names[j]).typ.code()
}

/// The names that are host names.
pub open spec fn is_host_name() -> spec_fn(ServerName) -> bool {
    |name: ServerName| name.payload is HostName
}

/// The text of the first host name in a list of names; nothing where there is
/// no host name, or where the first one is no DNS name.
pub open spec fn single_hostname(names: Seq<ServerName>) -> Option<Seq<char>> {
    match find_first(names, is_host_name()) {
        Some(name) => {
            let raw = name.payload->HostName_0@;
            if is_dns_name(raw) {
                Some(lower_text(raw))
            } else {
                None
            }
        },
        None => None,
    }
}

/// Whether `names` has two of one kind, which a `server_name` extension must not.
pub fn has_duplicate_names_for_type(names: &Vec<ServerName>) -> (dup: bool)
    ensures
        dup == repeats_name_type(names@),
{
    broadcast use vstd::std_specs::hash::group_hash_axioms;

    let mut seen: HashSet<u8> = HashSet::new();
    let mut i: usize = 0;
    while i < names.len()
        invariant
            i <= names@.len(),
            forall|c: u8|
                seen@.contains(c) <==> exists|k: int|
                    0 <= k < i && (#[trigger] names@[k]).typ.code() == c,
            forall|a: int, b: int|
                0 <= a < b < i ==> (#[trigger] names@[a]).typ.code() != (
                #[trigger] names@[b]).typ.code(),
        decreases names@.len() - i,
    {
        let code: u8 = names[i].typ.get_u8();
        let fresh: bool = seen.insert(code);
        if !fresh {
            let ghost k = choose|k: int| 0 <= k < i && (#[trigger] names@[k]).typ.code() == code;
            assert(names@[k].typ.code() == names@[i as int].typ.code());
            return true;
        }
        i = i + 1;
    }
    false
}

/// The DNS name of the first host name in `names`.
pub fn get_single_hostname(names: &Vec<ServerName>) -> (name: Option<DnsName>)
    ensures
        match name {
            Some(n) => single_hostname(names@) == Some(n@),
            None => single_hostname(names@) is None,
        },
{
    let mut i: usize = 0;
    while i < names.len()
        invariant
            i <= names@.len(),
            forall|k: int| 0 <= k < i ==> !is_host_name()(#[trigger] names@[k]),
        decreases names@.len() - i,
    {
        match &names[i].payload {
            ServerNamePayload::HostName(raw) => {
                proof {
                    find_first_at(names@, is_host_name(), i as int);
                }
                return DnsName::try_from_ascii(raw.as_slice());
            },
            ServerNamePayload::Unknown(_) => {},
        }
        i = i + 1;
    }
    proof {
        find_first_none(names@, is_host_name());
    }
    None
}

/// One key share of a client.
#[derive(Clone, Debug, PartialEq, Eq)]
pub struct KeyShareEntry {
    pub group: NamedGroup,
    pub payload: Vec<u8>,
}

/// An extension whose body is kept as it came.
#[derive(Clone, Debug, PartialEq, Eq)]
pub struct UnknownExtension {
    pub typ: ExtensionType,
    pub payload: Vec<u8>,
}

/// An extension of a `ClientHello`.
#[derive(Clone, Debug, PartialEq, Eq)]
pub enum ClientExtension {
    ECPointFormats(Vec<ECPointFormat>),
    NamedGroups(Vec<NamedGroup>),
    SignatureAlgorithms(Vec<SignatureScheme>),
    ServerName(Vec<ServerName>),
    SessionTicket(Vec<u8>),
    Protocols(Vec<Vec<u8>>),
    SupportedVersions(Vec<ProtocolVersion>),
    KeyShare(Vec<KeyShareEntry>),
    PresharedKeyModes(Vec<u8>),
    PresharedKey(Vec<u8>),
    Cookie(Vec<u8>),
    ExtendedMasterSecretRequest,
    CertificateStatusRequest(Vec<u8>),
    SignedCertificateTimestampRequest,
    TransportParameters(Vec<u8>),
    TransportParametersDraft(Vec<u8>),
    EarlyData,
    Unknown(UnknownExtension),
}

impl ClientExtension {
    /// The type of this extension.
    pub open spec fn kind(self) -> ExtensionType {
        match self {
            ClientExtension::ECPointFormats(_) => ExtensionType::ECPointFormats,
            ClientExtension::NamedGroups(_) => ExtensionType::EllipticCurves,
            ClientExtension::SignatureAlgorithms(_) => ExtensionType::SignatureAlgorithms,
            ClientExtension::ServerName(_) => ExtensionType::ServerName,
            ClientExtension::SessionTicket(_) => ExtensionType::SessionTicket,
            ClientExtension::Protocols(_) => ExtensionType::ALProtocolNegotiation,
            ClientExtension::SupportedVersions(_) => ExtensionType::SupportedVersions,
            ClientExtension::KeyShare(_) => ExtensionType::KeyShare,
            ClientExtension::PresharedKeyModes(_) => ExtensionType::PSKKeyExchangeModes,
            ClientExtension::PresharedKey(_) => ExtensionType::PreSharedKey,
            ClientExtension::Cookie(_) => ExtensionType::Cookie,
            ClientExtension::ExtendedMasterSecretRequest => ExtensionType::ExtendedMasterSecret,
            ClientExtension::CertificateStatusRequest(_) => ExtensionType::StatusRequest,
            ClientExtension::SignedCertificateTimestampRequest => ExtensionType::SCT,
            ClientExtension::TransportParameters(_) => ExtensionType::TransportParameters,
            ClientExtension::TransportParametersDraft(_) => ExtensionType::TransportParametersDraft,
            ClientExtension::EarlyData => ExtensionType::EarlyData,
            ClientExtension::Unknown(r) => r.typ,
        }
    }

    pub fn get_type(&self) -> (typ: ExtensionType)
        ensures
            typ == self.kind(),
    {
        match self {
            ClientExtension::ECPointFormats(_) => ExtensionType::ECPointFormats,
            ClientExtension::NamedGroups(_) => ExtensionType::EllipticCurves,
            ClientExtension::SignatureAlgorithms(_) => ExtensionType::SignatureAlgorithms,
            ClientExtension::ServerName(_) => ExtensionType::ServerName,
            ClientExtension::SessionTicket(_) => ExtensionType::SessionTicket,
            ClientExtension::Protocols(_) => ExtensionType::ALProtocolNegotiation,
            ClientExtension::SupportedVersions(_) => ExtensionType::SupportedVersions,
            ClientExtension::KeyShare(_) => ExtensionType::KeyShare,
            ClientExtension::PresharedKeyModes(_) => ExtensionType::PSKKeyExchangeModes,
            ClientExtension::PresharedKey(_) => ExtensionType::PreSharedKey,
            ClientExtension::Cookie(_) => ExtensionType::Cookie,
            ClientExtension::ExtendedMasterSecretRequest => ExtensionType::ExtendedMasterSecret,
            ClientExtension::CertificateStatusRequest(_) => ExtensionType::StatusRequest,
            ClientExtension::SignedCertificateTimestampRequest => ExtensionType::SCT,
            ClientExtension::TransportParameters(_) => ExtensionType::TransportParameters,
            ClientExtension::TransportParametersDraft(_) => ExtensionType::TransportParametersDraft,
            ClientExtension::EarlyData => ExtensionType::EarlyData,
            ClientExtension::Unknown(r) => r.typ,
        }
    }
}

/// The extensions of one type.
pub open spec fn of_kind(typ: ExtensionType) -> spec_fn(ClientExtension) -> bool {
    |ext: ClientExtension| ext.kind() == typ
}

/// A `ClientHello`.
#[derive(Clone, Debug, PartialEq, Eq)]
pub struct ClientHelloPayload {
    pub client_version: ProtocolVersion,
    pub random: Random,
    pub session_id: SessionID,
    pub cipher_suites: Vec<CipherSuite>,
    pub compression_methods: Vec<Compression>,
    pub extensions: Vec<ClientExtension>,
}

impl ClientHelloPayload {
    /// The first extension of type `typ`.
    pub open spec fn extension(self, typ: ExtensionType) -> Option<ClientExtension> {
        find_first(self.extensions@, of_kind(typ))
    }

    /// Whether the client sent an extension of type `typ`.
    pub open spec fn offers(self, typ: ExtensionType) -> bool {
        self.extension(typ) is Some
    }

    /// Whether two extensions have the same type.
    pub open spec fn repeats_extension(self) -> bool {
        let exts = self.extensions@;
        exists|i: int, j: int|
            0 <= i < j < exts.len() && (#[trigger] exts[i]).kind().code() == (
            #[trigger] exts[j]).kind().code()
    }

    /// The names in the `server_name` extension.
    pub open spec fn server_names(self) -> Option<Seq<ServerName>> {
        match self.extension(ExtensionType::ServerName) {
            Some(ClientExtension::ServerName(names)) => Some(names@),
            _ => None,
        }
    }

    /// The signature schemes that the client accepts.
    pub open spec fn signature_schemes(self) -> Option<Seq<SignatureScheme>> {
        match self.extension(ExtensionType::SignatureAlgorithms) {
            Some(ClientExtension::SignatureAlgorithms(schemes)) => Some(schemes@),
            _ => None,
        }
    }

    /// The ALPN extension's list of protocols.
    pub open spec fn alpn_list(self) -> Option<Vec<Vec<u8>>> {
        match self.extension(ExtensionType::ALProtocolNegotiation) {
            Some(ClientExtension::Protocols(protocols)) => Some(protocols),
            _ => None,
        }
    }

    /// The application protocols that the client offers.
    pub open spec fn protocols(self) -> Option<Seq<Seq<u8>>> {
        match self.alpn_list() {
            Some(protocols) => Some(byte_strings(protocols@)),
            None => None,
        }
    }

    /// The versions that the client lists in `supported_versions`.
    pub open spec fn versions(self) -> Option<Seq<ProtocolVersion>> {
        match self.extension(ExtensionType::SupportedVersions) {
            Some(ClientExtension::SupportedVersions(versions)) => Some(versions@),
            _ => None,
        }
    }

    /// The client's QUIC transport parameters, under the final code point or
    /// else under the one of the drafts.
    pub open spec fn quic_params(self) -> Option<Seq<u8>> {
        let ext = if self.offers(ExtensionType::TransportParameters) {
            self.extension(ExtensionType::TransportParameters)
        } else {
            self.extension(ExtensionType::TransportParametersDraft)
        };
        match ext {
            Some(ClientExtension::TransportParameters(params)) => Some(params@),
            Some(ClientExtension::TransportParametersDraft(params)) => Some(params@),
            _ => None,
        }
    }

    /// Whether two extensions have the same type, which a hello must not.
    pub fn has_duplicate_extension(&self) -> (dup: bool)
        ensures
            dup == self.repeats_extension(),
    {
        broadcast use vstd::std_specs::hash::group_hash_axioms;

        let exts = &self.extensions;
        let mut seen: HashSet<u16> = HashSet::new();
        let mut i: usize = 0;
        while i < exts.len()
            invariant
                i <= exts@.len(),
                exts@ == self.extensions@,
                forall|c: u16|
                    seen@.contains(c) <==> exists|k: int|
                        0 <= k < i && (#[trigger] exts@[k]).kind().code() == c,
                forall|a: int, b: int|
                    0 <= a < b < i ==> (#[trigger] exts@[a]).kind().code() != (
                    #[trigger] exts@[b]).kind().code(),
            decreases exts@.len() - i,
        {
            let code: u16 = exts[i].get_type().get_u16();
            let fresh: bool = seen.insert(code);
            if !fresh {
                let ghost k = choose|k: int| 0 <= k < i && (#[trigger] exts@[k]).kind().code() == code;
                assert(exts@[k].kind().code() == exts@[i as int].kind().code());
                return true;
            }
            i = i + 1;
        }
        false
    }

    /// The first extension of type `typ`.
    pub fn find_extension(&self, typ: ExtensionType) -> (found: Option<&ClientExtension>)
        ensures
            match found {
                Some(ext) => self.extension(typ) == Some(*ext),
                None => self.extension(typ) is None,
            },
    {
        let mut i: usize = 0;
        while i < self.extensions.len()
            invariant
                i <= self.extensions@.len(),
                forall|k: int| 0 <= k < i ==> !of_kind(typ)(#[trigger] self.extensions@[k]),
            decreases self.extensions@.len() - i,
        {
            if self.extensions[i].get_type() == typ {
                proof {
                    find_first_at(self.extensions@, of_kind(typ), i as int);
                }
                return Some(&self.extensions[i]);
            }
            i = i + 1;
        }
        proof {
            find_first_none(self.extensions@, of_kind(typ));
        }
        None
    }

    pub fn get_sni_extension(&self) -> (names: Option<&Vec<ServerName>>)
        ensures
            match names {
                Some(n) => self.server_names() == Some(n@),
                None => self.server_names() is None,
            },
    {
        match self.find_extension(ExtensionType::ServerName) {
            Some(ClientExtension::ServerName(names)) => Some(names),
            _ => None,
        }
    }

    pub fn get_sigalgs_extension(&self) -> (schemes: Option<&Vec<SignatureScheme>>)
        ensures
            match schemes {
                Some(s) => self.signature_schemes() == Some(s@),
                None => self.signature_schemes() is None,
            },
    {
        match self.find_extension(ExtensionType::SignatureAlgorithms) {
            Some(ClientExtension::SignatureAlgorithms(schemes)) => Some(schemes),
            _ => None,
        }
    }

    pub fn get_alpn_extension(&self) -> (protocols: Option<&Vec<Vec<u8>>>)
        ensures
            match protocols {
                Some(p) => self.alpn_list() == Some(*p),
                None => self.alpn_list() is None,
            },
    {
        match self.find_extension(ExtensionType::ALProtocolNegotiation) {
            Some(ClientExtension::Protocols(protocols)) => Some(protocols),
            _ => None,
        }
    }

    pub fn get_versions_extension(&self) -> (versions: Option<&Vec<ProtocolVersion>>)
        ensures
            match versions {
                Some(v) => self.versions() == Some(v@),
                None => self.versions() is None,
            },
    {
        match self.find_extension(ExtensionType::SupportedVersions) {
            Some(ClientExtension::SupportedVersions(versions)) => Some(versions),
            _ => None,
        }
    }

    pub fn get_quic_params_extension(&self) -> (params: Option<Vec<u8>>)
        ensures
            match params {
                Some(p) => self.quic_params() == Some(p@),
                None => self.quic_params() is None,
            },
    {
        let ext = match self.find_extension(ExtensionType::TransportParameters) {
            Some(ext) => Some(ext),
            None => self.find_extension(ExtensionType::TransportParametersDraft),
        };
        match ext {
            Some(ClientExtension::TransportParameters(params)) => Some(copy_bytes(params)),
            Some(ClientExtension::TransportParametersDraft(params)) => Some(copy_bytes(params)),
            _ => None,
        }
    }
}

/// The body of a handshake message; only that of a `ClientHello` is read here.
#[derive(Clone, Debug, PartialEq, Eq)]
pub enum HandshakePayload {
    ClientHello(ClientHelloPayload),
    Unknown(Vec<u8>),
}

/// A handshake message.
#[derive(Clone, Debug, PartialEq, Eq)]
pub struct HandshakeMessagePayload {
    pub typ: HandshakeType,
    pub payload: HandshakePayload,
}

/// What a record carries.
#[derive(Clone, Debug, PartialEq, Eq)]
pub enum MessagePayload {
    Alert(Vec<u8>),
    Handshake(HandshakeMessagePayload),
    ChangeCipherSpec(Vec<u8>),
    ApplicationData(Vec<u8>),
}

impl MessagePayload {
    /// The kind of record that carries this.
    pub open spec fn content(self) -> ContentType {
        match self {
            MessagePayload::Alert(_) => ContentType::Alert,
            MessagePayload::Handshake(_) => ContentType::Handshake,
            MessagePayload::ChangeCipherSpec(_) => ContentType::ChangeCipherSpec,
            MessagePayload::ApplicationData(_) => ContentType::ApplicationData,
        }
    }

    pub fn content_type(&self) -> (typ: ContentType)
        ensures
            typ == self.content(),
    {
        match self {
            MessagePayload::Alert(_) => ContentType::Alert,
            MessagePayload::Handshake(_) => ContentType::Handshake,
            MessagePayload::ChangeCipherSpec(_) => ContentType::ChangeCipherSpec,
            MessagePayload::ApplicationData(_) => ContentType::ApplicationData,
        }
    }
}

/// A message as it comes off the record layer.
#[derive(Clone, Debug, PartialEq, Eq)]
pub struct Message {
    pub version: ProtocolVersion,
    pub payload: MessagePayload,
}

impl Message {
    /// The `ClientHello` that this message is, if it is one.
    pub open spec fn client_hello(self) -> Option<ClientHelloPayload> {
        match self.payload {
            MessagePayload::Handshake(hs) => match hs.payload {
                HandshakePayload::ClientHello(hello) => Some(hello),
                HandshakePayload::Unknown(_) => None,
            },
            _ => None,
        }
    }

    /// The error for this message where a `ClientHello` is expected.
    pub open spec fn inappropriate(self) -> ErrorView {
        match self.payload {
            MessagePayload::Handshake(hs) => ErrorView::InappropriateHandshakeMessage {
                expect_types: seq![HandshakeType::ClientHello],
                got_type: hs.typ,
            },
            other => ErrorView::InappropriateMessage {
                expect_types: seq![ContentType::Handshake],
                got_type: other.content(),
            },
        }
    }

    /// The `ClientHello` that this message is, or an error that names what it is instead.
    pub fn require_client_hello(&self) -> (hello: Result<&ClientHelloPayload, Error>)
        ensures
            match hello {
                Ok(h) => self.client_hello() == Some(*h),
                Err(e) => self.client_hello() is None && e@ == self.inappropriate(),
            },
    {
        match &self.payload {
            MessagePayload::Handshake(hs) => match &hs.payload {
                HandshakePayload::ClientHello(hello) => Ok(hello),
                HandshakePayload::Unknown(_) => Err(
                    Error::InappropriateHandshakeMessage {
                        expect_types: vec![HandshakeType::ClientHello],
                        got_type: hs.typ,
                    },
                ),
            },
            other => Err(
                Error::InappropriateMessage {
                    expect_types: vec![ContentType::Handshake],
                    got_type: other.content_type(),
                },
            ),
        }
    }
}

/// An extension of the server's reply.
#[derive(Clone, Debug, PartialEq, Eq)]
pub enum ServerExtension {
    ECPointFormats(Vec<ECPointFormat>),
    ServerNameAck,
    SessionTicketAck,
    RenegotiationInfo(Vec<u8>),
    Protocols(Vec<Vec<u8>>),
    KeyShare(KeyShareEntry),
    PresharedKey(u16),
    ExtendedMasterSecretAck,
    CertificateStatusAck,
    /// A list of signed certificate timestamps, in its encoding.
    SignedCertificateTimestamp(Vec<u8>),
    SupportedVersions(ProtocolVersion),
    TransportParameters(Vec<u8>),
    TransportParametersDraft(Vec<u8>),
    EarlyData,
    Unknown(UnknownExtension),
}

/// A [`ServerExtension`] with its lists as sequences.
#[verifier::ext_equal]
pub enum ServerExtensionView {
    ECPointFormats(Seq<ECPointFormat>),
    ServerNameAck,
    SessionTicketAck,
    RenegotiationInfo(Seq<u8>),
    Protocols(Seq<Seq<u8>>),
    KeyShare(NamedGroup, Seq<u8>),
    PresharedKey(u16),
    ExtendedMasterSecretAck,
    CertificateStatusAck,
    SignedCertificateTimestamp(Seq<u8>),
    SupportedVersions(ProtocolVersion),
    TransportParameters(Seq<u8>),
    TransportParametersDraft(Seq<u8>),
    EarlyData,
    Unknown(ExtensionType, Seq<u8>),
}

impl View for ServerExtension {
    type V = ServerExtensionView;

    open spec fn view(&self) -> ServerExtensionView {
        match *self {
            ServerExtension::ECPointFormats(f) => ServerExtensionView::ECPointFormats(f@),
            ServerExtension::ServerNameAck => ServerExtensionView::ServerNameAck,
            ServerExtension::SessionTicketAck => ServerExtensionView::SessionTicketAck,
            ServerExtension::RenegotiationInfo(b) => ServerExtensionView::RenegotiationInfo(b@),
            ServerExtension::Protocols(p) => ServerExtensionView::Protocols(byte_strings(p@)),
            ServerExtension::KeyShare(k) => ServerExtensionView::KeyShare(k.group, k.payload@),
            ServerExtension::PresharedKey(i) => ServerExtensionView::PresharedKey(i),
            ServerExtension::ExtendedMasterSecretAck => ServerExtensionView::ExtendedMasterSecretAck,
            ServerExtension::CertificateStatusAck => ServerExtensionView::CertificateStatusAck,
            ServerExtension::SignedCertificateTimestamp(b) =>
                ServerExtensionView::SignedCertificateTimestamp(b@),
            ServerExtension::SupportedVersions(v) => ServerExtensionView::SupportedVersions(v),
            ServerExtension::TransportParameters(b) => ServerExtensionView::TransportParameters(b@),
            ServerExtension::TransportParametersDraft(b) =>
                ServerExtensionView::TransportParametersDraft(b@),
            ServerExtension::EarlyData => ServerExtensionView::EarlyData,
            ServerExtension::Unknown(u) => ServerExtensionView::Unknown(u.typ, u.payload@),
        }
    }
}

/// A list of server extensions with their lists as sequences.
pub open spec fn ext_views(exts: Seq<ServerExtension>) -> Seq<ServerExtensionView> {
    exts.map_values(|e: ServerExtension| e@)
}

impl ServerExtension {
    /// The ALPN reply that selects `proto`.
    pub fn make_alpn(proto: &Vec<u8>) -> (ext: ServerExtension)
        ensures
            ext@ == ServerExtensionView::Protocols(seq![proto@]),
    {
        let list: Vec<Vec<u8>> = vec![copy_bytes(proto)];
        assert(byte_strings(list@) =~= seq![proto@]);
        ServerExtension::Protocols(list)
    }

    /// The reply that carries the encoded timestamp list `sctl`.
    pub fn make_sct(sctl: Vec<u8>) -> (ext: ServerExtension)
        ensures
            ext@ == ServerExtensionView::SignedCertificateTimestamp(sctl@),
    {
        ServerExtension::SignedCertificateTimestamp(sctl)
    }

    /// The reply that secure renegotiation is understood, on an initial handshake.
    pub fn make_empty_renegotiation_info() -> (ext: ServerExtension)
        ensures
            ext@ == ServerExtensionView::RenegotiationInfo(Seq::<u8>::empty()),
    {
        ServerExtension::RenegotiationInfo(Vec::new())
    }
}

} // verus!
