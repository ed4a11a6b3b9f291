//! The code points of the TLS protocol that the server's handling of a
//! `ClientHello` looks at.
use vstd::prelude::*;

verus! {

/// A protocol version.
#[allow(non_camel_case_types)]
#[derive(Clone, Copy, Debug, PartialEq, Eq, Structural)]
pub enum ProtocolVersion {
    SSLv2,
    SSLv3,
    TLSv1_0,
    TLSv1_1,
    TLSv1_2,
    TLSv1_3,
    DTLSv1_0,
    DTLSv1_2,
    DTLSv1_3,
    Unknown(u16),
}

impl ProtocolVersion {
    /// The number that stands for this version on the wire.
    pub open spec fn code(self) -> u16 {
        match self {
            ProtocolVersion::SSLv2 => 0x0200,
            ProtocolVersion::SSLv3 => 0x0300,
            ProtocolVersion::TLSv1_0 => 0x0301,
            ProtocolVersion::TLSv1_1 => 0x0302,
            ProtocolVersion::TLSv1_2 => 0x0303,
            ProtocolVersion::TLSv1_3 => 0x0304,
            ProtocolVersion::DTLSv1_0 => 0xfeff,
            ProtocolVersion::DTLSv1_2 => 0xfefd,
            ProtocolVersion::DTLSv1_3 => 0xfefc,
            ProtocolVersion::Unknown(x) => x,
        }
    }

    pub fn get_u16(&self) -> (code: u16)
        ensures
            code == self.code(),
    {
        match *self {
            ProtocolVersion::SSLv2 => 0x0200,
            ProtocolVersion::SSLv3 => 0x0300,
            ProtocolVersion::TLSv1_0 => 0x0301,
            ProtocolVersion::TLSv1_1 => 0x0302,
            ProtocolVersion::TLSv1_2 => 0x0303,
            ProtocolVersion::TLSv1_3 => 0x0304,
            ProtocolVersion::DTLSv1_0 => 0xfeff,
            ProtocolVersion::DTLSv1_2 => 0xfefd,
            ProtocolVersion::DTLSv1_3 => 0xfefc,
            ProtocolVersion::Unknown(x) => x,
        }
    }
}

/// A cipher suite, or a signalling value in a list of them.
#[allow(non_camel_case_types)]
#[derive(Clone, Copy, Debug, PartialEq, Eq, Structural)]
pub enum CipherSuite {
    TLS_EMPTY_RENEGOTIATION_INFO_SCSV,
    TLS13_AES_128_GCM_SHA256,
    TLS13_AES_256_GCM_SHA384,
    TLS13_CHACHA20_POLY1305_SHA256,
    TLS_ECDHE_ECDSA_WITH_AES_128_GCM_SHA256,
    TLS_ECDHE_ECDSA_WITH_AES_256_GCM_SHA384,
    TLS_ECDHE_RSA_WITH_AES_128_GCM_SHA256,
    TLS_ECDHE_RSA_WITH_AES_256_GCM_SHA384,
    TLS_ECDHE_RSA_WITH_CHACHA20_POLY1305_SHA256,
    TLS_ECDHE_ECDSA_WITH_CHACHA20_POLY1305_SHA256,
    Unknown(u16),
}

impl CipherSuite {
    /// The number that stands for this suite on the wire.
    pub open spec fn code(self) -> u16 {
        match self {
            CipherSuite::TLS_EMPTY_RENEGOTIATION_INFO_SCSV => 0x00ff,
            CipherSuite::TLS13_AES_128_GCM_SHA256 => 0x1301,
            CipherSuite::TLS13_AES_256_GCM_SHA384 => 0x1302,
            CipherSuite::TLS13_CHACHA20_POLY1305_SHA256 => 0x1303,
            CipherSuite::TLS_ECDHE_ECDSA_WITH_AES_128_GCM_SHA256 => 0xc02b,
            CipherSuite::TLS_ECDHE_ECDSA_WITH_AES_256_GCM_SHA384 => 0xc02c,
            CipherSuite::TLS_ECDHE_RSA_WITH_AES_128_GCM_SHA256 => 0xc02f,
            CipherSuite::TLS_ECDHE_RSA_WITH_AES_256_GCM_SHA384 => 0xc030,
            CipherSuite::TLS_ECDHE_RSA_WITH_CHACHA20_POLY1305_SHA256 => 0xcca8,
            CipherSuite::TLS_ECDHE_ECDSA_WITH_CHACHA20_POLY1305_SHA256 => 0xcca9,
            CipherSuite::Unknown(x) => x,
        }
    }

    pub fn get_u16(&self) -> (code: u16)
        ensures
            code == self.code(),
    {
        match *self {
            CipherSuite::TLS_EMPTY_RENEGOTIATION_INFO_SCSV => 0x00ff,
            CipherSuite::TLS13_AES_128_GCM_SHA256 => 0x1301,
            CipherSuite::TLS13_AES_256_GCM_SHA384 => 0x1302,
            CipherSuite::TLS13_CHACHA20_POLY1305_SHA256 => 0x1303,
            CipherSuite::TLS_ECDHE_ECDSA_WITH_AES_128_GCM_SHA256 => 0xc02b,
            CipherSuite::TLS_ECDHE_ECDSA_WITH_AES_256_GCM_SHA384 => 0xc02c,
            CipherSuite::TLS_ECDHE_RSA_WITH_AES_128_GCM_SHA256 => 0xc02f,
            CipherSuite::TLS_ECDHE_RSA_WITH_AES_256_GCM_SHA384 => 0xc030,
            CipherSuite::TLS_ECDHE_RSA_WITH_CHACHA20_POLY1305_SHA256 => 0xcca8,
            CipherSuite::TLS_ECDHE_ECDSA_WITH_CHACHA20_POLY1305_SHA256 => 0xcca9,
            CipherSuite::Unknown(x) => x,
        }
    }
}

/// The type of a hello extension.
#[derive(Clone, Copy, Debug, PartialEq, Eq, Structural)]
pub enum ExtensionType {
    ServerName,
    StatusRequest,
    EllipticCurves,
    ECPointFormats,
    SignatureAlgorithms,
    ALProtocolNegotiation,
    SCT,
    ExtendedMasterSecret,
    SessionTicket,
    PreSharedKey,
    EarlyData,
    SupportedVersions,
    Cookie,
    PSKKeyExchangeModes,
    KeyShare,
    TransportParameters,
    TransportParametersDraft,
    RenegotiationInfo,
    Unknown(u16),
}

impl ExtensionType {
    /// The number that stands for this type on the wire.
    pub open spec fn code(self) -> u16 {
        match self {
            ExtensionType::ServerName => 0x0000,
            ExtensionType::StatusRequest => 0x0005,
            ExtensionType::EllipticCurves => 0x000a,
            ExtensionType::ECPointFormats => 0x000b,
            ExtensionType::SignatureAlgorithms => 0x000d,
            ExtensionType::ALProtocolNegotiation => 0x0010,
            ExtensionType::SCT => 0x0012,
            ExtensionType::ExtendedMasterSecret => 0x0017,
            ExtensionType::SessionTicket => 0x0023,
            ExtensionType::PreSharedKey => 0x0029,
            ExtensionType::EarlyData => 0x002a,
            ExtensionType::SupportedVersions => 0x002b,
            ExtensionType::Cookie => 0x002c,
            ExtensionType::PSKKeyExchangeModes => 0x002d,
            ExtensionType::KeyShare => 0x0033,
            ExtensionType::TransportParameters => 0x0039,
            ExtensionType::TransportParametersDraft => 0xffa5,
            ExtensionType::RenegotiationInfo => 0xff01,
            ExtensionType::Unknown(x) => x,
        }
    }

    pub fn get_u16(&self) -> (code: u16)
        ensures
            code == self.code(),
    {
        match *self {
            ExtensionType::ServerName => 0x0000,
            ExtensionType::StatusRequest => 0x0005,
            ExtensionType::EllipticCurves => 0x000a,
            ExtensionType::ECPointFormats => 0x000b,
            ExtensionType::SignatureAlgorithms => 0x000d,
            ExtensionType::ALProtocolNegotiation => 0x0010,
            ExtensionType::SCT => 0x0012,
            ExtensionType::ExtendedMasterSecret => 0x0017,
            ExtensionType::SessionTicket => 0x0023,
            ExtensionType::PreSharedKey => 0x0029,
            ExtensionType::EarlyData => 0x002a,
            ExtensionType::SupportedVersions => 0x002b,
            ExtensionType::Cookie => 0x002c,
            ExtensionType::PSKKeyExchangeModes => 0x002d,
            ExtensionType::KeyShare => 0x0033,
            ExtensionType::TransportParameters => 0x0039,
            ExtensionType::TransportParametersDraft => 0xffa5,
            ExtensionType::RenegotiationInfo => 0xff01,
            ExtensionType::Unknown(x) => x,
        }
    }
}

/// A group for key exchange.
#[allow(non_camel_case_types)]
#[derive(Clone, Copy, Debug, PartialEq, Eq, Structural)]
pub enum NamedGroup {
    secp256r1,
    secp384r1,
    secp521r1,
    X25519,
    X448,
    Unknown(u16),
}

impl NamedGroup {
    /// The number that stands for this group on the wire.
    pub open spec fn code(self) -> u16 {
        match self {
            NamedGroup::secp256r1 => 0x0017,
            NamedGroup::secp384r1 => 0x0018,
            NamedGroup::secp521r1 => 0x0019,
            NamedGroup::X25519 => 0x001d,
            NamedGroup::X448 => 0x001e,
            NamedGroup::Unknown(x) => x,
        }
    }

    pub fn get_u16(&self) -> (code: u16)
        ensures
            code == self.code(),
    {
        match *self {
            NamedGroup::secp256r1 => 0x0017,
            NamedGroup::secp384r1 => 0x0018,
            NamedGroup::secp521r1 => 0x0019,
            NamedGroup::X25519 => 0x001d,
            NamedGroup::X448 => 0x001e,
            NamedGroup::Unknown(x) => x,
        }
    }
}

/// An encoding of elliptic curve points.
#[derive(Clone, Copy, Debug, PartialEq, Eq, Structural)]
pub enum ECPointFormat {
    Uncompressed,
    ANSIX962CompressedPrime,
    ANSIX962CompressedChar2,
    Unknown(u8),
}

impl ECPointFormat {
    /// The number that stands for this format on the wire.
    pub open spec fn code(self) -> u8 {
        match self {
            ECPointFormat::Uncompressed => 0,
            ECPointFormat::ANSIX962CompressedPrime => 1,
            ECPointFormat::ANSIX962CompressedChar2 => 2,
            ECPointFormat::Unknown(x) => x,
        }
    }

    pub fn get_u8(&self) -> (code: u8)
        ensures
            code == self.code(),
    {
        match *self {
            ECPointFormat::Uncompressed => 0,
            ECPointFormat::ANSIX962CompressedPrime => 1,
            ECPointFormat::ANSIX962CompressedChar2 => 2,
            ECPointFormat::Unknown(x) => x,
        }
    }
}

/// The kind of a name in the `server_name` extension.
#[derive(Clone, Copy, Debug, PartialEq, Eq, Structural)]
pub enum ServerNameType {
    HostName,
    Unknown(u8),
}

impl ServerNameType {
    /// The number that stands for this kind on the wire.
    pub open spec fn code(self) -> u8 {
        match self {
            ServerNameType::HostName => 0,
            ServerNameType::Unknown(x) => x,
        }
    }

    pub fn get_u8(&self) -> (code: u8)
        ensures
            code == self.code(),
    {
        match *self {
            ServerNameType::HostName => 0,
            ServerNameType::Unknown(x) => x,
        }
    }
}

/// A compression method.
#[derive(Clone, Copy, Debug, PartialEq, Eq, Structural)]
pub enum Compression {
    Null,
    Deflate,
    LSZ,
    Unknown(u8),
}

/// The hash function of a cipher suite.
#[derive(Clone, Copy, Debug, PartialEq, Eq, Structural)]
pub enum HashAlgorithm {
    SHA256,
    SHA384,
    SHA512,
}

/// The kind of key that makes a signature.
#[derive(Clone, Copy, Debug, PartialEq, Eq, Structural)]
pub enum SignatureAlgorithm {
    Anonymous,
    RSA,
    DSA,
    ECDSA,
    ED25519,
    ED448,
    Unknown(u8),
}

/// A signature scheme: a kind of key together with a hash and a padding.
#[allow(non_camel_case_types)]
#[derive(Clone, Copy, Debug, PartialEq, Eq, Structural)]
pub enum SignatureScheme {
    RSA_PKCS1_SHA1,
    ECDSA_SHA1_Legacy,
    RSA_PKCS1_SHA256,
    ECDSA_NISTP256_SHA256,
    RSA_PKCS1_SHA384,
    ECDSA_NISTP384_SHA384,
    RSA_PKCS1_SHA512,
    ECDSA_NISTP521_SHA512,
    RSA_PSS_SHA256,
    RSA_PSS_SHA384,
    RSA_PSS_SHA512,
    ED25519,
    ED448,
    Unknown(u16),
}

impl SignatureScheme {
    /// The kind of key that signs under this scheme.
    pub open spec fn algorithm(self) -> SignatureAlgorithm {
        match self {
            SignatureScheme::RSA_PKCS1_SHA1
            | SignatureScheme::RSA_PKCS1_SHA256
            | SignatureScheme::RSA_PKCS1_SHA384
            | SignatureScheme::RSA_PKCS1_SHA512
            | SignatureScheme::RSA_PSS_SHA256
            | SignatureScheme::RSA_PSS_SHA384
            | SignatureScheme::RSA_PSS_SHA512 => SignatureAlgorithm::RSA,
            SignatureScheme::ECDSA_NISTP256_SHA256
            | SignatureScheme::ECDSA_NISTP384_SHA384
            | SignatureScheme::ECDSA_NISTP521_SHA512 => SignatureAlgorithm::ECDSA,
            _ => SignatureAlgorithm::Unknown(0),
        }
    }

    pub fn sign(&self) -> (alg: SignatureAlgorithm)
        ensures
            alg == self.algorithm(),
    {
        match *self {
            SignatureScheme::RSA_PKCS1_SHA1
            | SignatureScheme::RSA_PKCS1_SHA256
            | SignatureScheme::RSA_PKCS1_SHA384
            | SignatureScheme::RSA_PKCS1_SHA512
            | SignatureScheme::RSA_PSS_SHA256
            | SignatureScheme::RSA_PSS_SHA384
            | SignatureScheme::RSA_PSS_SHA512 => SignatureAlgorithm::RSA,
            SignatureScheme::ECDSA_NISTP256_SHA256
            | SignatureScheme::ECDSA_NISTP384_SHA384
            | SignatureScheme::ECDSA_NISTP521_SHA512 => SignatureAlgorithm::ECDSA,
            _ => SignatureAlgorithm::Unknown(0),
        }
    }
}

/// The kind of a record.
#[derive(Clone, Copy, Debug, PartialEq, Eq, Structural)]
pub enum ContentType {
    ChangeCipherSpec,
    Alert,
    Handshake,
    ApplicationData,
}

/// The kind of a handshake message.
#[derive(Clone, Copy, Debug, PartialEq, Eq, Structural)]
pub enum HandshakeType {
    HelloRequest,
    ClientHello,
    ServerHello,
    NewSessionTicket,
    EndOfEarlyData,
    EncryptedExtensions,
    Certificate,
    ServerKeyExchange,
    CertificateRequest,
    ServerHelloDone,
    CertificateVerify,
    ClientKeyExchange,
    Finished,
    CertificateStatus,
    KeyUpdate,
    Unknown(u8),
}

/// What a fatal alert tells the peer.
#[derive(Clone, Copy, Debug, PartialEq, Eq, Structural)]
pub enum AlertDescription {
    UnexpectedMessage,
    HandshakeFailure,
    IllegalParameter,
    AccessDenied,
    DecodeError,
    ProtocolVersion,
    MissingExtension,
    NoApplicationProtocol,
}

} // verus!
