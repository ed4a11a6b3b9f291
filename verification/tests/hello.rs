use tls_server_hs::client_hello::{
    accept_client_hello, check_client_hello, process_client_hello, would_set_name_twice,
};
use tls_server_hs::conn::{CommonState, Protocol, ServerConnectionData};
use tls_server_hs::dns::{same_name, DnsName};
use tls_server_hs::enums::{
    AlertDescription, CipherSuite, Compression, ContentType, ExtensionType, HandshakeType,
    HashAlgorithm, ProtocolVersion, ServerNameType, SignatureScheme,
};
use tls_server_hs::error::Error;
use tls_server_hs::msgs::{
    ClientExtension, ClientHelloPayload, HandshakeMessagePayload, HandshakePayload, Message,
    MessagePayload, Random, ServerName, ServerNamePayload, SessionID, UnknownExtension,
};
use tls_server_hs::suites::{SupportedCipherSuite, Tls12CipherSuite, Tls13CipherSuite};

const ECDSA: &'static [SignatureScheme] = &[SignatureScheme::ECDSA_NISTP256_SHA256];
const RSA: &'static [SignatureScheme] = &[SignatureScheme::RSA_PSS_SHA256];

fn ecdsa_suite() -> SupportedCipherSuite {
    SupportedCipherSuite::Tls12(Tls12CipherSuite {
        suite: CipherSuite::TLS_ECDHE_ECDSA_WITH_AES_128_GCM_SHA256,
        hash: HashAlgorithm::SHA256,
        sign: ECDSA,
    })
}

fn rsa_suite() -> SupportedCipherSuite {
    SupportedCipherSuite::Tls12(Tls12CipherSuite {
        suite: CipherSuite::TLS_ECDHE_RSA_WITH_AES_256_GCM_SHA384,
        hash: HashAlgorithm::SHA384,
        sign: RSA,
    })
}

fn tls13_suite() -> SupportedCipherSuite {
    SupportedCipherSuite::Tls13(Tls13CipherSuite {
        suite: CipherSuite::TLS13_AES_128_GCM_SHA256,
        hash: HashAlgorithm::SHA256,
    })
}

fn host(raw: &[u8]) -> ServerName {
    ServerName { typ: ServerNameType::HostName, payload: ServerNamePayload::HostName(raw.to_vec()) }
}

fn sigalgs() -> ClientExtension {
    ClientExtension::SignatureAlgorithms(vec![
        SignatureScheme::RSA_PKCS1_SHA256,
        SignatureScheme::ECDSA_NISTP384_SHA384,
        SignatureScheme::RSA_PSS_SHA512,
        SignatureScheme::ED448,
    ])
}

fn hello(extensions: Vec<ClientExtension>) -> ClientHelloPayload {
    ClientHelloPayload {
        client_version: ProtocolVersion::TLSv1_2,
        random: Random([7; 32]),
        session_id: SessionID::empty(),
        cipher_suites: vec![
            CipherSuite::TLS_ECDHE_RSA_WITH_AES_256_GCM_SHA384,
            CipherSuite::Unknown(0x1234),
        ],
        compression_methods: vec![Compression::Deflate, Compression::Null],
        extensions,
    }
}

fn message(hello: ClientHelloPayload) -> Message {
    Message {
        version: ProtocolVersion::TLSv1_0,
        payload: MessagePayload::Handshake(HandshakeMessagePayload {
            typ: HandshakeType::ClientHello,
            payload: HandshakePayload::ClientHello(hello),
        }),
    }
}

fn common() -> CommonState {
    CommonState::new(Protocol::Tcp)
}

fn run(
    m: &Message,
    done_retry: bool,
    common: &mut CommonState,
    data: &mut ServerConnectionData,
) -> Result<(Vec<SignatureScheme>, String), Error> {
    let suites = vec![ecdsa_suite(), rsa_suite()];
    assert!(!would_set_name_twice(m, done_retry, common, data));
    match process_client_hello(m, done_retry, &suites, common, data) {
        Ok((_, schemes, text)) => Ok((schemes, text)),
        Err(e) => Err(e),
    }
}

fn misbehaved(why: &str) -> Error {
    Error::PeerMisbehavedError(why.to_string())
}

fn not_compatible(why: &str) -> Error {
    Error::PeerIncompatibleError(why.to_string())
}

#[test]
fn dns_names_are_validated_and_folded() {
    assert_eq!(DnsName::try_from_ascii(b"Example.COM").unwrap().as_str(), "example.com");
    assert_eq!(DnsName::try_from_ascii(b"a_b-c.example.").unwrap().as_str(), "a_b-c.example.");
    for bad in [
        &b""[..], b"-a.com", b"a..b", b"192.168.0.1", b"*.example.com", b"exa mple.com",
        b"\xc3\xa9.com", b"a.com-", b"127.0.0.1",
    ] {
        assert!(DnsName::try_from_ascii(bad).is_none());
    }
    let label = vec![b'a'; 63];
    assert!(DnsName::try_from_ascii(&label).is_some());
    assert!(DnsName::try_from_ascii(&vec![b'a'; 64]).is_none());
}

#[test]
fn names_compare_without_regard_to_case() {
    let a = DnsName::try_from_ascii(b"FOO.example");
    let b = DnsName::try_from_ascii(b"foo.EXAMPLE");
    let c = DnsName::try_from_ascii(b"bar.example");
    assert!(same_name(&a, &b));
    assert!(!same_name(&a, &c));
    assert!(!same_name(&a, &None));
    assert!(same_name(&None, &None));
}

#[test]
fn accepts_a_hello_and_keeps_its_name() {
    let m = message(hello(vec![ClientExtension::ServerName(vec![host(b"Example.com")]), sigalgs()]));
    let mut common = common();
    let mut data = ServerConnectionData::new();
    let (schemes, text) = run(&m, false, &mut common, &mut data).unwrap();
    assert_eq!(schemes, vec![SignatureScheme::RSA_PKCS1_SHA256, SignatureScheme::RSA_PSS_SHA512]);
    assert_eq!(text, "771,49200-4660,0-13,,");
    assert_eq!(data.sni.as_ref().unwrap().as_str(), "example.com");
    assert!(data.tls_fingerprint.is_none());
    assert!(common.fatal_alerts.is_empty());
}

#[test]
fn hello_is_handed_back() {
    let h = hello(vec![sigalgs()]);
    let m = message(h.clone());
    let mut common = common();
    let mut data = ServerConnectionData::new();
    let (back, schemes, _) =
        process_client_hello(&m, false, &[tls13_suite()], &mut common, &mut data).unwrap();
    assert_eq!(*back, h);
    // the TLS 1.3 suite was not offered, so no scheme fits
    assert!(schemes.is_empty());
}

#[test]
fn tls13_suite_fits_every_scheme() {
    let mut h = hello(vec![sigalgs()]);
    h.cipher_suites.push(CipherSuite::TLS13_AES_128_GCM_SHA256);
    let m = message(h);
    let mut common = common();
    let mut data = ServerConnectionData::new();
    let (_, schemes, _) =
        process_client_hello(&m, false, &[tls13_suite()], &mut common, &mut data).unwrap();
    assert_eq!(schemes.len(), 4);
}

#[test]
fn refuses_other_messages() {
    let mut common = common();
    let mut data = ServerConnectionData::new();
    let m = Message {
        version: ProtocolVersion::TLSv1_2,
        payload: MessagePayload::Handshake(HandshakeMessagePayload {
            typ: HandshakeType::Finished,
            payload: HandshakePayload::Unknown(vec![1]),
        }),
    };
    assert_eq!(
        run(&m, false, &mut common, &mut data),
        Err(Error::InappropriateHandshakeMessage {
            expect_types: vec![HandshakeType::ClientHello],
            got_type: HandshakeType::Finished,
        })
    );
    let m = Message {
        version: ProtocolVersion::TLSv1_2,
        payload: MessagePayload::ApplicationData(vec![]),
    };
    assert_eq!(
        run(&m, false, &mut common, &mut data),
        Err(Error::InappropriateMessage {
            expect_types: vec![ContentType::Handshake],
            got_type: ContentType::ApplicationData,
        })
    );
    assert!(common.fatal_alerts.is_empty());
}

#[test]
fn refuses_without_null_compression() {
    let mut h = hello(vec![sigalgs()]);
    h.compression_methods = vec![Compression::Deflate];
    let mut common = common();
    let mut data = ServerConnectionData::new();
    assert_eq!(
        run(&message(h), false, &mut common, &mut data),
        Err(not_compatible("client did not offer Null compression"))
    );
    assert_eq!(common.fatal_alerts, vec![AlertDescription::IllegalParameter]);
}

#[test]
fn refuses_duplicate_extensions() {
    let again = ClientExtension::Unknown(UnknownExtension {
        typ: ExtensionType::Unknown(0x000d),
        payload: vec![],
    });
    for second in [sigalgs(), again] {
        let mut common = common();
        let mut data = ServerConnectionData::new();
        let m = message(hello(vec![sigalgs(), ClientExtension::EarlyData, second]));
        assert_eq!(
            run(&m, false, &mut common, &mut data),
            Err(misbehaved("client sent duplicate extensions"))
        );
        assert_eq!(common.fatal_alerts, vec![AlertDescription::DecodeError]);
    }
}

#[test]
fn refuses_unaligned_handshakes() {
    let mut common = common();
    common.aligned_handshake = false;
    let mut data = ServerConnectionData::new();
    let m = message(hello(vec![ClientExtension::ServerName(vec![host(b"a.b")]), sigalgs()]));
    assert_eq!(
        run(&m, false, &mut common, &mut data),
        Err(misbehaved("key epoch or handshake flight with pending fragment"))
    );
    assert_eq!(common.fatal_alerts, vec![AlertDescription::UnexpectedMessage]);
    assert!(data.sni.is_none());
}

#[test]
fn refuses_two_names_of_one_type() {
    let odd = ServerName { typ: ServerNameType::Unknown(0), payload: ServerNamePayload::Unknown(vec![]) };
    for second in [host(b"c.d"), odd] {
        let mut common = common();
        let mut data = ServerConnectionData::new();
        let m = message(hello(vec![ClientExtension::ServerName(vec![host(b"a.b"), second]), sigalgs()]));
        assert_eq!(
            run(&m, false, &mut common, &mut data),
            Err(misbehaved("ClientHello SNI contains duplicate name types"))
        );
        assert_eq!(common.fatal_alerts, vec![AlertDescription::DecodeError]);
    }
}

#[test]
fn refuses_names_without_a_hostname() {
    let odd = ServerName { typ: ServerNameType::Unknown(9), payload: ServerNamePayload::Unknown(vec![]) };
    for names in [vec![], vec![odd], vec![host(b"10.0.0.1")]] {
        let mut common = common();
        let mut data = ServerConnectionData::new();
        let m = message(hello(vec![ClientExtension::ServerName(names), sigalgs()]));
        assert_eq!(
            run(&m, false, &mut common, &mut data),
            Err(misbehaved("ClientHello SNI did not contain a hostname"))
        );
        assert_eq!(common.fatal_alerts, vec![AlertDescription::IllegalParameter]);
        assert!(data.sni.is_none());
    }
}

#[test]
fn hostname_may_follow_another_name() {
    let odd = ServerName { typ: ServerNameType::Unknown(9), payload: ServerNamePayload::Unknown(vec![]) };
    let mut common = common();
    let m = message(hello(vec![ClientExtension::ServerName(vec![odd, host(b"a.B")]), sigalgs()]));
    match check_client_hello(&m, &mut common) {
        Ok((_, name)) => assert_eq!(name.unwrap().as_str(), "a.b"),
        Err(_) => panic!(),
    }
}

#[test]
fn name_is_kept_even_if_the_hello_is_refused() {
    let mut common = common();
    let mut data = ServerConnectionData::new();
    let m = message(hello(vec![ClientExtension::ServerName(vec![host(b"a.b")])]));
    assert_eq!(
        run(&m, false, &mut common, &mut data),
        Err(not_compatible("client didn't describe signature schemes"))
    );
    assert_eq!(common.fatal_alerts, vec![AlertDescription::HandshakeFailure]);
    assert_eq!(data.sni.unwrap().as_str(), "a.b");
}

#[test]
fn retry_must_ask_for_the_same_name() {
    let mut common = common();
    let mut data = ServerConnectionData::new();
    let first = message(hello(vec![ClientExtension::ServerName(vec![host(b"a.b")]), sigalgs()]));
    let same = message(hello(vec![sigalgs(), ClientExtension::ServerName(vec![host(b"A.B")])]));
    let other = message(hello(vec![ClientExtension::ServerName(vec![host(b"c.d")]), sigalgs()]));
    let none = message(hello(vec![sigalgs()]));
    assert!(run(&first, false, &mut common, &mut data).is_ok());
    assert!(run(&same, true, &mut common, &mut data).is_ok());
    assert_eq!(
        run(&other, true, &mut common, &mut data),
        Err(not_compatible("SNI differed on retry"))
    );
    assert_eq!(
        run(&none, true, &mut common, &mut data),
        Err(not_compatible("SNI differed on retry"))
    );
    assert_eq!(
        run(&none, false, &mut common, &mut data),
        Err(not_compatible("SNI differed on retry"))
    );
    assert_eq!(data.sni.as_ref().unwrap().as_str(), "a.b");
    assert!(common.fatal_alerts.is_empty());
    // a first hello cannot set the name again
    assert!(would_set_name_twice(&first, false, &common, &data));
    assert!(!would_set_name_twice(&first, true, &common, &data));
    assert!(!would_set_name_twice(&none, false, &common, &data));
}

#[test]
fn retry_cannot_bring_in_a_name() {
    let mut common = common();
    let mut data = ServerConnectionData::new();
    let first = message(hello(vec![sigalgs()]));
    let second = message(hello(vec![ClientExtension::ServerName(vec![host(b"a.b")]), sigalgs()]));
    assert!(run(&first, false, &mut common, &mut data).is_ok());
    assert_eq!(
        run(&second, true, &mut common, &mut data),
        Err(not_compatible("SNI differed on retry"))
    );
    assert!(data.sni.is_none());
}

#[test]
fn accepting_takes_the_name_as_given() {
    let h = hello(vec![sigalgs()]);
    let mut common = common();
    let mut data = ServerConnectionData::new();
    let name = DnsName::try_from_ascii(b"x.y");
    let suites = vec![ecdsa_suite()];
    let (schemes, _) =
        accept_client_hello(&h, name, false, &suites, &mut common, &mut data).unwrap();
    assert!(schemes.is_empty());
    assert_eq!(data.sni.unwrap().as_str(), "x.y");
}
