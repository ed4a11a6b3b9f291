use std::cell::RefCell;
use std::sync::Arc;

use tls_server_hs::conn::{
    CommonState, ConnectionRandoms, Protocol, ServerConnectionData, ServerContext,
};
use tls_server_hs::dns::DnsName;
use tls_server_hs::enums::{
    AlertDescription, CipherSuite, Compression, HandshakeType, HashAlgorithm, ProtocolVersion,
    ServerNameType, SignatureAlgorithm, SignatureScheme,
};
use tls_server_hs::error::Error;
use tls_server_hs::expect::{choose_version, ExpectClientHello, GetRandomFailed, NextState};
use tls_server_hs::hash_hs::{HandshakeHash, HandshakeHashOrBuffer};
use tls_server_hs::hs::{bad_version, can_resume, decode_error, incompatible};
use tls_server_hs::msgs::{
    ClientExtension, ClientHelloPayload, HandshakeMessagePayload, HandshakePayload, Message,
    MessagePayload, Random, ServerExtension, ServerName, ServerNamePayload, SessionID,
};
use tls_server_hs::server::{
    CertifiedKey, ClientHello, EnabledVersions, ResolvesServerCert, ServerConfig,
    ServerSessionValue, SigningKey,
};
use tls_server_hs::suites::{SupportedCipherSuite, Tls12CipherSuite, Tls13CipherSuite};

const ECDSA: &'static [SignatureScheme] =
    &[SignatureScheme::ECDSA_NISTP256_SHA256, SignatureScheme::ECDSA_NISTP384_SHA384];
const RSA: &'static [SignatureScheme] = &[SignatureScheme::RSA_PSS_SHA256];

fn tls12(suite: CipherSuite, hash: HashAlgorithm, sign: &'static [SignatureScheme]) -> SupportedCipherSuite {
    SupportedCipherSuite::Tls12(Tls12CipherSuite { suite, hash, sign })
}

fn tls13(suite: CipherSuite, hash: HashAlgorithm) -> SupportedCipherSuite {
    SupportedCipherSuite::Tls13(Tls13CipherSuite { suite, hash })
}

fn all_suites() -> Vec<SupportedCipherSuite> {
    vec![
        tls13(CipherSuite::TLS13_AES_256_GCM_SHA384, HashAlgorithm::SHA384),
        tls13(CipherSuite::TLS13_AES_128_GCM_SHA256, HashAlgorithm::SHA256),
        tls12(CipherSuite::TLS_ECDHE_ECDSA_WITH_AES_256_GCM_SHA384, HashAlgorithm::SHA384, ECDSA),
        tls12(CipherSuite::TLS_ECDHE_RSA_WITH_AES_256_GCM_SHA384, HashAlgorithm::SHA384, RSA),
        tls12(CipherSuite::TLS_ECDHE_RSA_WITH_AES_128_GCM_SHA256, HashAlgorithm::SHA256, RSA),
    ]
}

struct Resolver {
    algorithm: Option<SignatureAlgorithm>,
    told: RefCell<Vec<(Option<String>, Vec<SignatureScheme>, Option<Vec<Vec<u8>>>)>>,
}

impl ResolvesServerCert for Resolver {
    fn resolve(&self, hello: ClientHello<'_>) -> Option<Arc<CertifiedKey>> {
        self.told.borrow_mut().push((
            hello.server_name.as_ref().map(|n| n.as_str().to_string()),
            hello.signature_schemes.clone(),
            hello.alpn.cloned(),
        ));
        self.algorithm.map(certified)
    }
}

fn certified(algorithm: SignatureAlgorithm) -> Arc<CertifiedKey> {
    Arc::new(CertifiedKey {
        cert: vec![vec![0x30]],
        key: SigningKey { id: 42, algorithm },
        ocsp: None,
        sct_list: None,
    })
}

fn config(algorithm: Option<SignatureAlgorithm>) -> ServerConfig<Resolver> {
    ServerConfig {
        cipher_suites: all_suites(),
        ignore_client_order: false,
        alpn_protocols: vec![],
        versions: EnabledVersions { tls12: true, tls13: true },
        ticketer_enabled: false,
        offer_client_auth: true,
        cert_resolver: Resolver { algorithm, told: RefCell::new(vec![]) },
    }
}

fn hello(versions: Option<Vec<ProtocolVersion>>) -> ClientHelloPayload {
    let mut extensions = vec![
        ClientExtension::ServerName(vec![ServerName {
            typ: ServerNameType::HostName,
            payload: ServerNamePayload::HostName(b"Example.com".to_vec()),
        }]),
        ClientExtension::SignatureAlgorithms(vec![
            SignatureScheme::RSA_PSS_SHA256,
            SignatureScheme::ECDSA_NISTP256_SHA256,
        ]),
        ClientExtension::Protocols(vec![b"h2".to_vec()]),
    ];
    if let Some(v) = versions {
        extensions.push(ClientExtension::SupportedVersions(v));
    }
    ClientHelloPayload {
        client_version: ProtocolVersion::TLSv1_2,
        random: Random([7; 32]),
        session_id: SessionID::empty(),
        cipher_suites: vec![
            CipherSuite::TLS13_AES_128_GCM_SHA256,
            CipherSuite::TLS13_AES_256_GCM_SHA384,
            CipherSuite::TLS_ECDHE_RSA_WITH_AES_128_GCM_SHA256,
            CipherSuite::TLS_ECDHE_RSA_WITH_AES_256_GCM_SHA384,
        ],
        compression_methods: vec![Compression::Null],
        extensions,
    }
}

fn message(hello: ClientHelloPayload) -> Message {
    Message {
        version: ProtocolVersion::TLSv1_0,
        payload: MessagePayload::Handshake(HandshakeMessagePayload {
            typ: HandshakeType::ClientHello,
            payload: HandshakePayload::ClientHello(hello),
        }),
    }
}

fn context(protocol: Protocol) -> ServerContext {
    ServerContext { common: CommonState::new(protocol), data: ServerConnectionData::new() }
}

fn random() -> Result<Random, GetRandomFailed> {
    Ok(Random([9; 32]))
}

fn both_versions() -> Option<Vec<ProtocolVersion>> {
    Some(vec![ProtocolVersion::TLSv1_2, ProtocolVersion::TLSv1_3])
}

fn old_version() -> Option<Vec<ProtocolVersion>> {
    Some(vec![ProtocolVersion::TLSv1_2])
}

fn error_of<R>(result: Result<NextState<'_, R>, Error>) -> Error {
    match result {
        Ok(_) => panic!("the handshake goes on"),
        Err(e) => e,
    }
}

fn refused(config: ServerConfig<Resolver>, protocol: Protocol, hello: ClientHelloPayload) -> (Error, ServerContext) {
    let mut cx = context(protocol);
    let m = message(hello);
    let expect = ExpectClientHello::new(Arc::new(config), vec![]);
    let error = error_of(expect.try_handle(&mut cx, &m, random()).unwrap());
    (error, cx)
}

#[test]
fn new_state() {
    let config = Arc::new(config(None));
    let expect = ExpectClientHello::new(config.clone(), vec![ServerExtension::EarlyData]);
    assert!(Arc::ptr_eq(&expect.config, &config));
    assert_eq!(expect.extra_exts, vec![ServerExtension::EarlyData]);
    match expect.transcript {
        HandshakeHashOrBuffer::Buffer(b) => {
            assert!(b.buffer.is_empty());
            assert!(b.client_auth_enabled);
        },
        HandshakeHashOrBuffer::Hash(_) => panic!(),
    }
    assert!(expect.session_id.data.is_empty());
    assert!(!expect.using_ems && !expect.done_retry && !expect.send_ticket);
}

#[test]
fn goes_on_under_tls13() {
    let mut cx = context(Protocol::Tcp);
    let m = message(hello(both_versions()));
    let config = Arc::new(config(Some(SignatureAlgorithm::ECDSA)));
    let mut expect = ExpectClientHello::new(config.clone(), vec![ServerExtension::EarlyData]);
    if let HandshakeHashOrBuffer::Buffer(b) = &mut expect.transcript {
        b.buffer = vec![1, 2, 3];
    }
    expect.send_ticket = true;
    match expect.try_handle(&mut cx, &m, random()) {
        Some(Ok(NextState::Tls13 { handling, certkey, m: msg, client_hello, sig_schemes })) => {
            assert!(Arc::ptr_eq(&handling.config, &config));
            assert_eq!(handling.suite.suite, CipherSuite::TLS13_AES_128_GCM_SHA256);
            assert_eq!(handling.transcript.algorithm, HashAlgorithm::SHA256);
            assert_eq!(handling.transcript.hashed, vec![1, 2, 3]);
            assert_eq!(handling.transcript.client_auth, Some(vec![1, 2, 3]));
            assert_eq!(handling.randoms, ConnectionRandoms { client: [7; 32], server: [9; 32] });
            assert!(!handling.done_retry);
            assert!(handling.send_ticket);
            assert_eq!(handling.extra_exts, vec![ServerExtension::EarlyData]);
            assert_eq!(certkey.key.id, 42);
            assert_eq!(*msg, m);
            assert_eq!(*client_hello, hello(both_versions()));
            assert_eq!(
                sig_schemes,
                vec![SignatureScheme::RSA_PSS_SHA256, SignatureScheme::ECDSA_NISTP256_SHA256]
            );
        },
        _ => panic!(),
    }
    assert_eq!(cx.common.negotiated_version, Some(ProtocolVersion::TLSv1_3));
    assert_eq!(cx.common.suite.unwrap().suite(), CipherSuite::TLS13_AES_128_GCM_SHA256);
    assert_eq!(cx.data.sni.unwrap().as_str(), "example.com");
    assert_eq!(
        cx.data.tls_fingerprint.as_deref(),
        Some("771,4865-4866-49199-49200,0-13-16-43,,")
    );
    assert!(cx.common.fatal_alerts.is_empty());
    let told = config.cert_resolver.told.borrow();
    assert_eq!(told.len(), 1);
    assert_eq!(told[0].0.as_deref(), Some("example.com"));
    assert_eq!(told[0].1.len(), 2);
    assert_eq!(told[0].2, Some(vec![b"h2".to_vec()]));
}

#[test]
fn goes_on_under_tls12() {
    let mut cx = context(Protocol::Tcp);
    let m = message(hello(old_version()));
    let mut expect =
        ExpectClientHello::new(Arc::new(config(Some(SignatureAlgorithm::RSA))), vec![]);
    expect.using_ems = true;
    expect.session_id.data = vec![4];
    match expect.try_handle(&mut cx, &m, random()) {
        Some(Ok(NextState::Tls12 { handling, tls13_enabled, .. })) => {
            assert_eq!(handling.suite.suite, CipherSuite::TLS_ECDHE_RSA_WITH_AES_128_GCM_SHA256);
            assert!(handling.using_ems);
            assert_eq!(handling.session_id.data, vec![4]);
            assert!(tls13_enabled);
        },
        _ => panic!(),
    }
    assert_eq!(cx.common.negotiated_version, Some(ProtocolVersion::TLSv1_2));
}

#[test]
fn servers_order_counts_if_it_is_to() {
    let mut config = config(Some(SignatureAlgorithm::ECDSA));
    config.ignore_client_order = true;
    let mut cx = context(Protocol::Tcp);
    let m = message(hello(both_versions()));
    let expect = ExpectClientHello::new(Arc::new(config), vec![]);
    assert!(expect.try_handle(&mut cx, &m, random()).unwrap().is_ok());
    assert_eq!(cx.common.suite.unwrap().suite(), CipherSuite::TLS13_AES_256_GCM_SHA384);
}

#[test]
fn key_must_fit_a_suite() {
    // the client offers no suite under which an ECDSA key signs
    let (error, cx) =
        refused(config(Some(SignatureAlgorithm::ECDSA)), Protocol::Tcp, hello(old_version()));
    assert_eq!(error, Error::PeerIncompatibleError("no ciphersuites in common".to_string()));
    assert_eq!(cx.common.fatal_alerts, vec![AlertDescription::HandshakeFailure]);
    assert_eq!(cx.common.negotiated_version, Some(ProtocolVersion::TLSv1_2));
    assert!(cx.common.suite.is_none());
}

#[test]
fn resolver_may_find_nothing() {
    let (error, cx) = refused(config(None), Protocol::Tcp, hello(both_versions()));
    assert_eq!(error, Error::General("no server certificate chain resolved".to_string()));
    assert_eq!(cx.common.fatal_alerts, vec![AlertDescription::AccessDenied]);
    assert_eq!(cx.common.negotiated_version, Some(ProtocolVersion::TLSv1_3));
    assert!(cx.data.sni.is_some());
}

fn version_of(
    config: &ServerConfig<Resolver>,
    protocol: Protocol,
    hello: &ClientHelloPayload,
) -> Result<ProtocolVersion, String> {
    let mut common = CommonState::new(protocol);
    match choose_version(config, hello, &mut common) {
        Ok(v) => {
            assert_eq!(common.negotiated_version, Some(v));
            assert!(common.fatal_alerts.is_empty());
            Ok(v)
        },
        Err(Error::PeerIncompatibleError(why)) => {
            assert_eq!(common.negotiated_version, None);
            assert_eq!(common.fatal_alerts, vec![AlertDescription::ProtocolVersion]);
            Err(why)
        },
        Err(_) => panic!(),
    }
}

#[test]
fn versions() {
    let both = config(None);
    let mut only12 = config(None);
    only12.versions.tls13 = false;
    let mut only13 = config(None);
    only13.versions.tls12 = false;
    let mut no13suite = config(None);
    no13suite.cipher_suites.retain(|s| s.version() == ProtocolVersion::TLSv1_2);
    let quic = "Expecting QUIC connection, but client does not support TLSv1_3".to_string();
    let tls12 = "TLS1.2 not offered/enabled".to_string();
    let new = hello(both_versions());
    let old = hello(old_version());
    let only_new = hello(Some(vec![ProtocolVersion::TLSv1_3]));
    let bare = hello(None);
    let mut ancient = hello(None);
    ancient.client_version = ProtocolVersion::TLSv1_1;

    assert_eq!(version_of(&both, Protocol::Tcp, &new), Ok(ProtocolVersion::TLSv1_3));
    assert_eq!(version_of(&both, Protocol::Quic, &new), Ok(ProtocolVersion::TLSv1_3));
    assert_eq!(version_of(&only12, Protocol::Tcp, &new), Ok(ProtocolVersion::TLSv1_2));
    assert_eq!(version_of(&no13suite, Protocol::Tcp, &new), Ok(ProtocolVersion::TLSv1_2));
    assert_eq!(version_of(&only12, Protocol::Quic, &new), Err(quic.clone()));
    assert_eq!(version_of(&both, Protocol::Tcp, &old), Ok(ProtocolVersion::TLSv1_2));
    assert_eq!(version_of(&only13, Protocol::Tcp, &old), Err(tls12.clone()));
    assert_eq!(version_of(&only12, Protocol::Tcp, &only_new), Err(tls12));
    assert_eq!(version_of(&both, Protocol::Quic, &old), Err(quic.clone()));
    assert_eq!(version_of(&both, Protocol::Tcp, &bare), Ok(ProtocolVersion::TLSv1_2));
    assert_eq!(version_of(&both, Protocol::Quic, &bare), Err(quic));
    assert_eq!(
        version_of(&only13, Protocol::Tcp, &bare),
        Err("Server requires TLS1.3, but client omitted versions ext".to_string())
    );
    assert_eq!(
        version_of(&both, Protocol::Tcp, &ancient),
        Err("Client does not support TLSv1_2".to_string())
    );
    // a server without any version still goes on with TLS 1.2
    let mut neither = config(None);
    neither.versions = EnabledVersions { tls12: false, tls13: false };
    assert_eq!(version_of(&neither, Protocol::Tcp, &bare), Ok(ProtocolVersion::TLSv1_2));
}

#[test]
fn version_is_refused_before_the_resolver_is_asked() {
    let config = Arc::new(config(Some(SignatureAlgorithm::RSA)));
    let mut cx = context(Protocol::Quic);
    let m = message(hello(old_version()));
    let expect = ExpectClientHello::new(config.clone(), vec![]);
    assert!(expect.try_handle(&mut cx, &m, random()).unwrap().is_err());
    assert!(config.cert_resolver.told.borrow().is_empty());
    assert_eq!(cx.common.fatal_alerts, vec![AlertDescription::ProtocolVersion]);
    assert!(cx.data.tls_fingerprint.is_some());
}

#[test]
fn hash_must_not_change_on_retry() {
    for (settled, goes_on) in [(HashAlgorithm::SHA256, true), (HashAlgorithm::SHA384, false)] {
        let mut cx = context(Protocol::Tcp);
        cx.data.sni = DnsName::try_from_ascii(b"example.com");
        let m = message(hello(both_versions()));
        let mut expect =
            ExpectClientHello::new(Arc::new(config(Some(SignatureAlgorithm::RSA))), vec![]);
        expect.done_retry = true;
        expect.transcript = HandshakeHashOrBuffer::Hash(HandshakeHash {
            algorithm: settled,
            hashed: vec![8, 8],
            client_auth: None,
        });
        match expect.try_handle(&mut cx, &m, random()).unwrap() {
            Ok(NextState::Tls13 { handling, .. }) => {
                assert!(goes_on);
                assert!(handling.done_retry);
                assert_eq!(handling.transcript.hashed, vec![8, 8]);
                assert_eq!(handling.transcript.client_auth, None);
            },
            Ok(_) => panic!(),
            Err(error) => {
                assert!(!goes_on);
                assert_eq!(error, Error::PeerMisbehavedError("hash differed on retry".to_string()));
                assert_eq!(cx.common.fatal_alerts, vec![AlertDescription::IllegalParameter]);
                assert!(cx.common.suite.is_some());
            },
        }
    }
}

#[test]
fn random_bytes_may_be_lacking() {
    let mut cx = context(Protocol::Tcp);
    let m = message(hello(both_versions()));
    let expect = ExpectClientHello::new(Arc::new(config(Some(SignatureAlgorithm::RSA))), vec![]);
    let error = error_of(expect.try_handle(&mut cx, &m, Err(GetRandomFailed)).unwrap());
    assert_eq!(error, Error::FailedToGetRandomBytes);
    assert!(cx.common.fatal_alerts.is_empty());
    assert!(cx.common.suite.is_some());
}

#[test]
fn resolved_key_is_taken_as_given() {
    let mut cx = context(Protocol::Tcp);
    let h = hello(both_versions());
    let m = message(h.clone());
    let expect = ExpectClientHello::new(Arc::new(config(None)), vec![]);
    let next = expect.with_resolved_key(
        Some(certified(SignatureAlgorithm::RSA)),
        ProtocolVersion::TLSv1_2,
        vec![SignatureScheme::RSA_PSS_SHA256],
        &h,
        &m,
        random(),
        &mut cx,
    );
    match next {
        Ok(NextState::Tls12 { handling, sig_schemes, .. }) => {
            assert_eq!(handling.suite.suite, CipherSuite::TLS_ECDHE_RSA_WITH_AES_128_GCM_SHA256);
            assert_eq!(sig_schemes, vec![SignatureScheme::RSA_PSS_SHA256]);
        },
        _ => panic!(),
    }
}

#[test]
fn name_is_not_set_twice() {
    let mut cx = context(Protocol::Tcp);
    cx.data.sni = DnsName::try_from_ascii(b"other.example");
    let m = message(hello(both_versions()));
    let expect = ExpectClientHello::new(Arc::new(config(Some(SignatureAlgorithm::RSA))), vec![]);
    assert!(expect.try_handle(&mut cx, &m, random()).is_none());
    assert_eq!(cx.data.sni.unwrap().as_str(), "other.example");
    assert!(cx.data.tls_fingerprint.is_none());
}

#[test]
fn shared_refusals() {
    let mut common = CommonState::new(Protocol::Tcp);
    assert_eq!(incompatible(&mut common, "a"), Error::PeerIncompatibleError("a".to_string()));
    assert_eq!(bad_version(&mut common, "b"), Error::PeerIncompatibleError("b".to_string()));
    assert_eq!(decode_error(&mut common, "c"), Error::PeerMisbehavedError("c".to_string()));
    assert_eq!(
        common.fatal_alerts,
        vec![
            AlertDescription::HandshakeFailure,
            AlertDescription::ProtocolVersion,
            AlertDescription::DecodeError,
        ]
    );
}

#[test]
fn resumption() {
    let suite = tls13(CipherSuite::TLS13_AES_128_GCM_SHA256, HashAlgorithm::SHA256);
    let other = tls13(CipherSuite::TLS13_AES_256_GCM_SHA384, HashAlgorithm::SHA384);
    let name = DnsName::try_from_ascii(b"a.b");
    for (extended_ms, using_ems, resumes) in
        [(true, true, true), (true, false, true), (false, false, true), (false, true, false)]
    {
        let session = ServerSessionValue {
            sni: name.clone(),
            version: ProtocolVersion::TLSv1_3,
            cipher_suite: CipherSuite::TLS13_AES_128_GCM_SHA256,
            master_secret: vec![],
            extended_ms,
            alpn: None,
        };
        assert_eq!(can_resume(suite, &name, using_ems, &session), resumes);
        assert_eq!(can_resume(suite, &DnsName::try_from_ascii(b"A.B"), using_ems, &session), resumes);
        assert!(!can_resume(other, &name, using_ems, &session));
        assert!(!can_resume(suite, &None, using_ems, &session));
        assert!(!can_resume(suite, &DnsName::try_from_ascii(b"c.d"), using_ems, &session));
    }
}
