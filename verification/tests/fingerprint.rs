use tls_server_hs::enums::{CipherSuite, Compression, ECPointFormat, ExtensionType, NamedGroup, ProtocolVersion};
use tls_server_hs::fingerprint::fingerprint;
use tls_server_hs::msgs::{
    ClientExtension, ClientHelloPayload, KeyShareEntry, Random, SessionID, UnknownExtension,
};
use tls_server_hs::text::{push_decimal, stringy};

fn hello(extensions: Vec<ClientExtension>) -> ClientHelloPayload {
    ClientHelloPayload {
        client_version: ProtocolVersion::TLSv1_2,
        random: Random([7; 32]),
        session_id: SessionID::empty(),
        cipher_suites: vec![
            CipherSuite::TLS13_AES_128_GCM_SHA256,
            CipherSuite::TLS_ECDHE_RSA_WITH_AES_128_GCM_SHA256,
            CipherSuite::Unknown(0x2a2a),
        ],
        compression_methods: vec![Compression::Null],
        extensions,
    }
}

fn share(group: NamedGroup) -> KeyShareEntry {
    KeyShareEntry { group, payload: vec![1, 2, 3] }
}

fn unknown(code: u16) -> ClientExtension {
    ClientExtension::Unknown(UnknownExtension { typ: ExtensionType::Unknown(code), payload: vec![] })
}

fn usual() -> Vec<ClientExtension> {
    vec![
        ClientExtension::ServerName(vec![]),
        ClientExtension::ECPointFormats(vec![
            ECPointFormat::Uncompressed,
            ECPointFormat::ANSIX962CompressedChar2,
        ]),
        ClientExtension::KeyShare(vec![share(NamedGroup::X25519), share(NamedGroup::secp256r1)]),
    ]
}

#[test]
fn stringy_joins_with_dashes() {
    assert_eq!(stringy(&vec![7, 10, 18446744073709551615]), "7-10-18446744073709551615");
    assert_eq!(stringy(&vec![]), "");
    assert_eq!(stringy(&vec![0]), "0");
    assert_eq!(stringy(&vec![0, 0]), "0-0");
}

#[test]
fn decimal_is_what_std_prints() {
    for n in [0u64, 1, 9, 10, 99, 100, 771, 65535, 1234567890, u64::MAX] {
        let mut text = String::from("n=");
        push_decimal(&mut text, n);
        assert_eq!(text, format!("n={}", n));
    }
}

#[test]
fn fingerprint_lists_five_fields() {
    assert_eq!(fingerprint(&hello(usual())), "771,4865-49199-10794,0-11-51,29-23,0-2");
}

#[test]
fn fingerprint_of_a_bare_hello() {
    let mut bare = hello(vec![]);
    bare.client_version = ProtocolVersion::Unknown(0x0305);
    bare.cipher_suites = vec![];
    assert_eq!(fingerprint(&bare), "773,,,,");
}

#[test]
fn fingerprint_ignores_grease_extensions() {
    let plain = fingerprint(&hello(usual()));
    for code in [
        0x0a0au16, 0x1a1a, 0x2a2a, 0x3a3a, 0x4a4a, 0x5a5a, 0x6a6a, 0x7a7a, 0x8a8a, 0x9a9a, 0xaaaa,
        0xbaba, 0xcaca, 0xdada, 0xeaea, 0xfafa,
    ] {
        for at in 0..4 {
            let mut exts = usual();
            exts.insert(at, unknown(code));
            assert_eq!(fingerprint(&hello(exts)), plain);
        }
    }
    let mut exts = usual();
    exts.insert(0, unknown(0x0a1a));
    assert_eq!(fingerprint(&hello(exts)), "771,4865-49199-10794,2586-0-11-51,29-23,0-2");
}

#[test]
fn fingerprint_takes_the_last_of_repeated_lists() {
    let mut exts = usual();
    exts.push(ClientExtension::KeyShare(vec![share(NamedGroup::X448)]));
    exts.push(ClientExtension::ECPointFormats(vec![ECPointFormat::Unknown(9)]));
    assert_eq!(fingerprint(&hello(exts)), "771,4865-49199-10794,0-11-51-51-11,30,9");
}

#[test]
fn fingerprint_tells_clients_apart() {
    let base = fingerprint(&hello(usual()));
    let mut other = hello(usual());
    other.cipher_suites.swap(0, 1);
    assert_ne!(fingerprint(&other), base);
    let mut other = hello(usual());
    other.extensions.swap(0, 1);
    assert_ne!(fingerprint(&other), base);
    let mut other = hello(usual());
    other.client_version = ProtocolVersion::TLSv1_1;
    assert_ne!(fingerprint(&other), base);
    // what is no feature does not count
    let mut other = hello(usual());
    other.random = Random([9; 32]);
    other.session_id.data = vec![1, 2];
    other.compression_methods = vec![Compression::Deflate];
    assert_eq!(fingerprint(&other), base);
}
