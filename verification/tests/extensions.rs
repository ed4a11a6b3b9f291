use tls_server_hs::conn::{CommonState, Protocol, ServerConnectionData, ServerContext};
use tls_server_hs::enums::{
    AlertDescription, CipherSuite, Compression, ExtensionType, ProtocolVersion, ServerNameType,
};
use tls_server_hs::error::Error;
use tls_server_hs::extensions::ExtensionProcessing;
use tls_server_hs::msgs::{
    ClientExtension, ClientHelloPayload, Random, ServerExtension, ServerName, ServerNamePayload,
    SessionID, UnknownExtension,
};
use tls_server_hs::server::{EnabledVersions, ServerConfig, ServerSessionValue};

fn config(protocols: Vec<&[u8]>) -> ServerConfig<()> {
    ServerConfig {
        cipher_suites: vec![],
        ignore_client_order: false,
        alpn_protocols: protocols.iter().map(|p| p.to_vec()).collect(),
        versions: EnabledVersions { tls12: true, tls13: true },
        ticketer_enabled: true,
        offer_client_auth: false,
        cert_resolver: (),
    }
}

fn hello(extensions: Vec<ClientExtension>) -> ClientHelloPayload {
    ClientHelloPayload {
        client_version: ProtocolVersion::TLSv1_2,
        random: Random([7; 32]),
        session_id: SessionID::empty(),
        cipher_suites: vec![],
        compression_methods: vec![Compression::Null],
        extensions,
    }
}

fn alpn(protocols: Vec<&[u8]>) -> ClientExtension {
    ClientExtension::Protocols(protocols.iter().map(|p| p.to_vec()).collect())
}

fn context(protocol: Protocol, version: ProtocolVersion) -> ServerContext {
    let mut common = CommonState::new(protocol);
    common.negotiated_version = Some(version);
    ServerContext { common, data: ServerConnectionData::new() }
}

fn session() -> ServerSessionValue {
    ServerSessionValue {
        sni: None,
        version: ProtocolVersion::TLSv1_2,
        cipher_suite: CipherSuite::TLS13_AES_128_GCM_SHA256,
        master_secret: vec![],
        extended_ms: false,
        alpn: None,
    }
}

fn certificate_requests() -> Vec<ClientExtension> {
    vec![
        ClientExtension::ServerName(vec![ServerName {
            typ: ServerNameType::HostName,
            payload: ServerNamePayload::HostName(b"a.b".to_vec()),
        }]),
        ClientExtension::CertificateStatusRequest(vec![1]),
        ClientExtension::SignedCertificateTimestampRequest,
    ]
}

fn run(
    p: &mut ExtensionProcessing,
    config: &ServerConfig<()>,
    cx: &mut ServerContext,
    hello: &ClientHelloPayload,
) -> Result<(), Error> {
    let mut ocsp: Option<&[u8]> = None;
    let mut sct: Option<&[u8]> = None;
    p.process_common(config, cx, &mut ocsp, &mut sct, hello, None, vec![])
}

#[test]
fn alpn_prefers_the_servers_order() {
    let mut p = ExtensionProcessing::new();
    let mut cx = context(Protocol::Tcp, ProtocolVersion::TLSv1_2);
    let config = config(vec![b"h3", b"h2", b"http/1.1"]);
    let hello = hello(vec![alpn(vec![b"http/1.1", b"h2", b"spdy"])]);
    assert_eq!(run(&mut p, &config, &mut cx, &hello), Ok(()));
    assert_eq!(cx.common.alpn_protocol, Some(b"h2".to_vec()));
    assert_eq!(p.exts, vec![ServerExtension::Protocols(vec![b"h2".to_vec()])]);
    assert!(cx.common.fatal_alerts.is_empty());
    assert!(!p.send_ticket);
}

#[test]
fn alpn_without_a_common_protocol() {
    let mut p = ExtensionProcessing::new();
    let mut cx = context(Protocol::Tcp, ProtocolVersion::TLSv1_2);
    cx.common.alpn_protocol = Some(b"old".to_vec());
    let hello = hello(vec![alpn(vec![b"h2"])]);
    assert_eq!(run(&mut p, &config(vec![b"h3"]), &mut cx, &hello), Err(Error::NoApplicationProtocol));
    assert_eq!(cx.common.fatal_alerts, vec![AlertDescription::NoApplicationProtocol]);
    assert_eq!(cx.common.alpn_protocol, None);
    assert!(p.exts.is_empty());
    // a server that does not use ALPN goes on without
    let mut cx = context(Protocol::Tcp, ProtocolVersion::TLSv1_2);
    assert_eq!(run(&mut p, &config(vec![]), &mut cx, &hello), Ok(()));
    assert_eq!(cx.common.alpn_protocol, None);
    assert!(p.exts.is_empty());
}

#[test]
fn alpn_with_a_nameless_protocol() {
    let mut p = ExtensionProcessing::new();
    let mut cx = context(Protocol::Quic, ProtocolVersion::TLSv1_3);
    cx.common.alpn_protocol = Some(b"old".to_vec());
    let hello = hello(vec![alpn(vec![b"h2", b""])]);
    assert_eq!(
        run(&mut p, &config(vec![b"h2"]), &mut cx, &hello),
        Err(Error::PeerMisbehavedError("client offered empty ALPN protocol".to_string()))
    );
    assert!(cx.common.fatal_alerts.is_empty());
    assert_eq!(cx.common.alpn_protocol, Some(b"old".to_vec()));
    assert!(p.exts.is_empty());
}

#[test]
fn no_alpn_leaves_the_protocol_alone() {
    let mut p = ExtensionProcessing::new();
    let mut cx = context(Protocol::Tcp, ProtocolVersion::TLSv1_2);
    cx.common.alpn_protocol = Some(b"old".to_vec());
    assert_eq!(run(&mut p, &config(vec![b"h2"]), &mut cx, &hello(vec![])), Ok(()));
    assert_eq!(cx.common.alpn_protocol, Some(b"old".to_vec()));
    assert!(p.exts.is_empty());
}

#[test]
fn quic_needs_a_protocol() {
    for (ours, theirs) in [
        (vec![&b"h3"[..]], vec![]),
        (vec![], vec![alpn(vec![b"h3"])]),
        (vec![&b"h3"[..]], vec![alpn(vec![b"h2"])]),
    ] {
        let mut p = ExtensionProcessing::new();
        let mut cx = context(Protocol::Quic, ProtocolVersion::TLSv1_3);
        let mut exts = theirs;
        exts.push(ClientExtension::TransportParameters(vec![1]));
        assert_eq!(
            run(&mut p, &config(ours), &mut cx, &hello(exts)),
            Err(Error::NoApplicationProtocol)
        );
        assert_eq!(cx.common.fatal_alerts, vec![AlertDescription::NoApplicationProtocol]);
        assert_eq!(cx.common.quic.params, None);
    }
}

#[test]
fn quic_needs_transport_parameters() {
    let mut p = ExtensionProcessing::new();
    let mut cx = context(Protocol::Quic, ProtocolVersion::TLSv1_3);
    let h3 = hello(vec![alpn(vec![b"h3"])]);
    assert_eq!(
        run(&mut p, &config(vec![b"h3"]), &mut cx, &h3),
        Err(Error::PeerMisbehavedError("QUIC transport parameters not found".to_string()))
    );
    assert_eq!(cx.common.fatal_alerts, vec![AlertDescription::MissingExtension]);
    assert_eq!(cx.common.alpn_protocol, Some(b"h3".to_vec()));
    assert_eq!(p.exts, vec![ServerExtension::Protocols(vec![b"h3".to_vec()])]);
}

#[test]
fn quic_keeps_transport_parameters() {
    for (exts, params) in [
        (vec![ClientExtension::TransportParameters(vec![1, 2])], vec![1, 2]),
        (vec![ClientExtension::TransportParametersDraft(vec![3])], vec![3]),
        (
            vec![
                ClientExtension::TransportParametersDraft(vec![3]),
                ClientExtension::TransportParameters(vec![1, 2]),
            ],
            vec![1, 2],
        ),
    ] {
        let mut p = ExtensionProcessing::new();
        let mut cx = context(Protocol::Quic, ProtocolVersion::TLSv1_3);
        assert_eq!(run(&mut p, &config(vec![]), &mut cx, &hello(exts.clone())), Ok(()));
        assert_eq!(cx.common.quic.params, Some(params));
        // over TCP the parameters are not looked at
        let mut cx = context(Protocol::Tcp, ProtocolVersion::TLSv1_3);
        assert_eq!(run(&mut p, &config(vec![]), &mut cx, &hello(exts)), Ok(()));
        assert_eq!(cx.common.quic.params, None);
    }
}

#[test]
fn tls12_confirms_certificate_data() {
    let mut p = ExtensionProcessing::new();
    p.exts.push(ServerExtension::EarlyData);
    let mut cx = context(Protocol::Tcp, ProtocolVersion::TLSv1_2);
    let mut ocsp: Option<&[u8]> = Some(b"ocsp");
    let mut sct: Option<&[u8]> = Some(b"sct");
    let extra = vec![ServerExtension::TransportParameters(vec![5])];
    assert_eq!(
        p.process_common(
            &config(vec![]),
            &mut cx,
            &mut ocsp,
            &mut sct,
            &hello(certificate_requests()),
            None,
            extra,
        ),
        Ok(())
    );
    assert_eq!(
        p.exts,
        vec![
            ServerExtension::EarlyData,
            ServerExtension::ServerNameAck,
            ServerExtension::CertificateStatusAck,
            ServerExtension::SignedCertificateTimestamp(b"sct".to_vec()),
            ServerExtension::TransportParameters(vec![5]),
        ]
    );
    assert_eq!(ocsp, Some(&b"ocsp"[..]));
    assert_eq!(sct, None);
}

#[test]
fn tls13_keeps_certificate_data_for_later() {
    let mut p = ExtensionProcessing::new();
    let mut cx = context(Protocol::Tcp, ProtocolVersion::TLSv1_3);
    let mut ocsp: Option<&[u8]> = Some(b"ocsp");
    let mut sct: Option<&[u8]> = Some(b"sct");
    let requests = hello(certificate_requests());
    assert_eq!(
        p.process_common(&config(vec![]), &mut cx, &mut ocsp, &mut sct, &requests, None, vec![]),
        Ok(())
    );
    assert_eq!(p.exts, vec![ServerExtension::ServerNameAck]);
    assert_eq!(ocsp, Some(&b"ocsp"[..]));
    assert_eq!(sct, Some(&b"sct"[..]));
}

#[test]
fn resumption_drops_certificate_data() {
    for version in [ProtocolVersion::TLSv1_2, ProtocolVersion::TLSv1_3] {
        let mut p = ExtensionProcessing::new();
        let mut cx = context(Protocol::Tcp, version);
        let mut ocsp: Option<&[u8]> = Some(b"ocsp");
        let mut sct: Option<&[u8]> = Some(b"sct");
        let session = session();
        let requests = hello(certificate_requests());
        assert_eq!(
            p.process_common(
                &config(vec![]), &mut cx, &mut ocsp, &mut sct, &requests, Some(&session), vec![],
            ),
            Ok(())
        );
        assert!(p.exts.is_empty());
        assert_eq!(ocsp, None);
        assert_eq!(sct, None);
    }
}

#[test]
fn unrequested_certificate_data_is_dropped() {
    let mut p = ExtensionProcessing::new();
    let mut cx = context(Protocol::Tcp, ProtocolVersion::TLSv1_2);
    let mut ocsp: Option<&[u8]> = Some(b"ocsp");
    let mut sct: Option<&[u8]> = Some(b"sct");
    assert_eq!(
        p.process_common(&config(vec![]), &mut cx, &mut ocsp, &mut sct, &hello(vec![]), None, vec![]),
        Ok(())
    );
    assert!(p.exts.is_empty());
    assert_eq!(ocsp, None);
    assert_eq!(sct, None);
}

#[test]
fn no_status_ack_without_a_response() {
    let mut p = ExtensionProcessing::new();
    let mut cx = context(Protocol::Tcp, ProtocolVersion::TLSv1_2);
    assert_eq!(run(&mut p, &config(vec![]), &mut cx, &hello(certificate_requests())), Ok(()));
    assert_eq!(p.exts, vec![ServerExtension::ServerNameAck]);
}

#[test]
fn tls12_extensions() {
    let mut with_scsv = hello(vec![ClientExtension::SessionTicket(vec![])]);
    with_scsv.cipher_suites = vec![CipherSuite::TLS_EMPTY_RENEGOTIATION_INFO_SCSV];
    let mut p = ExtensionProcessing::new();
    p.process_tls12(&config(vec![]), &with_scsv, true);
    assert_eq!(
        p.exts,
        vec![
            ServerExtension::RenegotiationInfo(vec![]),
            ServerExtension::SessionTicketAck,
            ServerExtension::ExtendedMasterSecretAck,
        ]
    );
    assert!(p.send_ticket);

    let mut without_tickets = config(vec![]);
    without_tickets.ticketer_enabled = false;
    let mut p = ExtensionProcessing::new();
    p.process_tls12(&without_tickets, &with_scsv, false);
    assert_eq!(p.exts, vec![ServerExtension::RenegotiationInfo(vec![])]);
    assert!(!p.send_ticket);

    let with_ext = hello(vec![ClientExtension::Unknown(UnknownExtension {
        typ: ExtensionType::RenegotiationInfo,
        payload: vec![0],
    })]);
    let mut p = ExtensionProcessing::default();
    p.process_tls12(&config(vec![]), &with_ext, false);
    assert_eq!(p.exts, vec![ServerExtension::RenegotiationInfo(vec![])]);

    let mut p = ExtensionProcessing::new();
    p.process_tls12(&config(vec![]), &hello(vec![]), false);
    assert!(p.exts.is_empty());
}
