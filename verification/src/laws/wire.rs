//! What the parts of a message are.
use vstd::prelude::*;

use crate::conn::{CommonState, CommonView, ServerConnectionData};
use crate::dns::{is_dns_name, is_name_text, lower_text, opt_text, DnsName};
use crate::enums::{
    AlertDescription, CipherSuite, ContentType, ECPointFormat, ExtensionType, HandshakeType,
    HashAlgorithm, NamedGroup, ProtocolVersion, ServerNameType, SignatureAlgorithm, SignatureScheme,
};
use crate::error::{Error, ErrorView};
use crate::hash_hs::{HandshakeHash, HandshakeHashBuffer, HandshakeHashOrBuffer};
use crate::msgs::{
    ext_views, is_host_name, of_kind, repeats_name_type, single_hostname, ClientExtension,
    ClientHelloPayload, HandshakePayload, Message, MessagePayload, ServerExtension,
    ServerExtensionView, ServerName,
};
use crate::seqs::{byte_strings, find_first_at, find_first_meaning, find_first_none, opt_bytes};

verus! {

// Numbers on the wire

/// The versions have the numbers that the protocol gives them.
pub proof fn version_numbers(code: u16)
    ensures
        ProtocolVersion::SSLv2.code() == 0x0200,
        ProtocolVersion::SSLv3.code() == 0x0300,
        ProtocolVersion::TLSv1_0.code() == 0x0301,
        ProtocolVersion::TLSv1_1.code() == 0x0302,
        ProtocolVersion::TLSv1_2.code() == 0x0303,
        ProtocolVersion::TLSv1_3.code() == 0x0304,
        ProtocolVersion::DTLSv1_0.code() == 0xfeff,
        ProtocolVersion::DTLSv1_2.code() == 0xfefd,
        ProtocolVersion::DTLSv1_3.code() == 0xfefc,
        ProtocolVersion::Unknown(code).code() == code,
{
}

/// The cipher suites have the numbers that the protocol gives them.
pub proof fn suite_numbers(code: u16)
    ensures
        CipherSuite::TLS_EMPTY_RENEGOTIATION_INFO_SCSV.code() == 0x00ff,
        CipherSuite::TLS13_AES_128_GCM_SHA256.code() == 0x1301,
        CipherSuite::TLS13_AES_256_GCM_SHA384.code() == 0x1302,
        CipherSuite::TLS13_CHACHA20_POLY1305_SHA256.code() == 0x1303,
        CipherSuite::TLS_ECDHE_ECDSA_WITH_AES_128_GCM_SHA256.code() == 0xc02b,
        CipherSuite::TLS_ECDHE_ECDSA_WITH_AES_256_GCM_SHA384.code() == 0xc02c,
        CipherSuite::TLS_ECDHE_RSA_WITH_AES_128_GCM_SHA256.code() == 0xc02f,
        CipherSuite::TLS_ECDHE_RSA_WITH_AES_256_GCM_SHA384.code() == 0xc030,
        CipherSuite::TLS_ECDHE_RSA_WITH_CHACHA20_POLY1305_SHA256.code() == 0xcca8,
        CipherSuite::TLS_ECDHE_ECDSA_WITH_CHACHA20_POLY1305_SHA256.code() == 0xcca9,
        CipherSuite::Unknown(code).code() == code,
{
}

/// The extension types have the numbers that the protocol gives them.
pub proof fn extension_numbers(code: u16)
    ensures
        ExtensionType::ServerName.code() == 0,
        ExtensionType::StatusRequest.code() == 5,
        ExtensionType::EllipticCurves.code() == 10,
        ExtensionType::ECPointFormats.code() == 11,
        ExtensionType::SignatureAlgorithms.code() == 13,
        ExtensionType::ALProtocolNegotiation.code() == 16,
        ExtensionType::SCT.code() == 18,
        ExtensionType::ExtendedMasterSecret.code() == 23,
        ExtensionType::SessionTicket.code() == 35,
        ExtensionType::PreSharedKey.code() == 41,
        ExtensionType::EarlyData.code() == 42,
        ExtensionType::SupportedVersions.code() == 43,
        ExtensionType::Cookie.code() == 44,
        ExtensionType::PSKKeyExchangeModes.code() == 45,
        ExtensionType::KeyShare.code() == 51,
        ExtensionType::TransportParameters.code() == 57,
        ExtensionType::TransportParametersDraft.code() == 0xffa5,
        ExtensionType::RenegotiationInfo.code() == 0xff01,
        ExtensionType::Unknown(code).code() == code,
{
}

/// The groups, point formats and name types have the numbers that the protocol
/// gives them.
pub proof fn other_numbers(code: u16, byte: u8)
    ensures
        NamedGroup::secp256r1.code() == 23,
        NamedGroup::secp384r1.code() == 24,
        NamedGroup::secp521r1.code() == 25,
        NamedGroup::X25519.code() == 29,
        NamedGroup::X448.code() == 30,
        NamedGroup::Unknown(code).code() == code,
        ECPointFormat::Uncompressed.code() == 0,
        ECPointFormat::ANSIX962CompressedPrime.code() == 1,
        ECPointFormat::ANSIX962CompressedChar2.code() == 2,
        ECPointFormat::Unknown(byte).code() == byte,
        ServerNameType::HostName.code() == 0,
        ServerNameType::Unknown(byte).code() == byte,
{
}

/// A scheme is for RSA keys, for ECDSA keys on a curve that it names, or for
/// keys that have no place in TLS 1.2's suites.
pub proof fn scheme_algorithms(scheme: SignatureScheme)
    ensures
        scheme.algorithm() == SignatureAlgorithm::RSA <==> {
            ||| scheme is RSA_PKCS1_SHA1
            ||| scheme is RSA_PKCS1_SHA256
            ||| scheme is RSA_PKCS1_SHA384
            ||| scheme is RSA_PKCS1_SHA512
            ||| scheme is RSA_PSS_SHA256
            ||| scheme is RSA_PSS_SHA384
            ||| scheme is RSA_PSS_SHA512
        },
        scheme.algorithm() == SignatureAlgorithm::ECDSA <==> {
            ||| scheme is ECDSA_NISTP256_SHA256
            ||| scheme is ECDSA_NISTP384_SHA384
            ||| scheme is ECDSA_NISTP521_SHA512
        },
        scheme.algorithm() != SignatureAlgorithm::RSA && scheme.algorithm()
            != SignatureAlgorithm::ECDSA ==> scheme.algorithm() == SignatureAlgorithm::Unknown(0),
{
}

// Texts and bytes

/// The text of a DNS name has a character for each byte: the byte's own, but a
/// small letter for a capital.
pub proof fn name_text_is_the_spelling_in_small_letters(raw: Seq<u8>, i: int)
    requires
        0 <= i < raw.len(),
    ensures
        lower_text(raw).len() == raw.len(),
        raw[i] < 65 || raw[i] > 90 ==> lower_text(raw)[i] as int == raw[i],
        65 <= raw[i] <= 90 ==> lower_text(raw)[i] as int == raw[i] + 32,
        !('A' <= lower_text(raw)[i] <= 'Z'),
{
}

/// A DNS name is kept as the spelling of some DNS name, letter for letter, but
/// without capitals.
pub proof fn name_texts_have_no_capitals(text: Seq<char>)
    requires
        is_name_text(text),
    ensures
        exists|raw: Seq<u8>|
            #![trigger is_dns_name(raw)]
            is_dns_name(raw) && raw.len() == text.len() && (forall|i: int|
                0 <= i < raw.len() ==> (#[trigger] text[i]) as int == (if 65 <= raw[i] <= 90 {
                    raw[i] + 32
                } else {
                    raw[i] as int
                })),
        forall|i: int| 0 <= i < text.len() ==> !('A' <= #[trigger] text[i] <= 'Z'),
{
    let raw = choose|raw: Seq<u8>| is_dns_name(raw) && text == #[trigger] lower_text(raw);
    assert(is_dns_name(raw));
}

/// What is taken of an optional name and of optional bytes is all of it.
pub proof fn optional_contents(name: DnsName, bytes: Vec<u8>)
    ensures
        opt_text(Some(name)) == Some(name@),
        opt_text(None) is None,
        opt_bytes(Some(bytes)) == Some(bytes@),
        opt_bytes(None) is None,
{
}

/// A list of byte vectors is taken as the list of their contents.
pub proof fn byte_strings_are_the_contents(list: Seq<Vec<u8>>, b: Seq<u8>)
    ensures
        byte_strings(list).len() == list.len(),
        forall|i: int| 0 <= i < list.len() ==> #[trigger] byte_strings(list)[i] == list[i]@,
        byte_strings(list).contains(b) <==> exists|i: int|
            0 <= i < list.len() && (#[trigger] list[i])@ == b,
{
    let strings = byte_strings(list);
    if exists|i: int| 0 <= i < list.len() && (#[trigger] list[i])@ == b {
        let i = choose|i: int| 0 <= i < list.len() && (#[trigger] list[i])@ == b;
        assert(strings[i] == b);
    }
    if strings.contains(b) {
        let i = choose|i: int| 0 <= i < strings.len() && strings[i] == b;
        assert(list[i]@ == b);
    }
}

// Extensions of a hello

/// Each extension has its own type.
pub proof fn extension_kinds(ext: ClientExtension)
    ensures
        match ext {
            ClientExtension::ECPointFormats(_) => ext.kind() == ExtensionType::ECPointFormats,
            ClientExtension::NamedGroups(_) => ext.kind() == ExtensionType::EllipticCurves,
            ClientExtension::SignatureAlgorithms(_) => ext.kind()
                == ExtensionType::SignatureAlgorithms,
            ClientExtension::ServerName(_) => ext.kind() == ExtensionType::ServerName,
            ClientExtension::SessionTicket(_) => ext.kind() == ExtensionType::SessionTicket,
            ClientExtension::Protocols(_) => ext.kind() == ExtensionType::ALProtocolNegotiation,
            ClientExtension::SupportedVersions(_) => ext.kind() == ExtensionType::SupportedVersions,
            ClientExtension::KeyShare(_) => ext.kind() == ExtensionType::KeyShare,
            ClientExtension::PresharedKeyModes(_) => ext.kind()
                == ExtensionType::PSKKeyExchangeModes,
            ClientExtension::PresharedKey(_) => ext.kind() == ExtensionType::PreSharedKey,
            ClientExtension::Cookie(_) => ext.kind() == ExtensionType::Cookie,
            ClientExtension::ExtendedMasterSecretRequest => ext.kind()
                == ExtensionType::ExtendedMasterSecret,
            ClientExtension::CertificateStatusRequest(_) => ext.kind()
                == ExtensionType::StatusRequest,
            ClientExtension::SignedCertificateTimestampRequest => ext.kind() == ExtensionType::SCT,
            ClientExtension::TransportParameters(_) => ext.kind()
                == ExtensionType::TransportParameters,
            ClientExtension::TransportParametersDraft(_) => ext.kind()
                == ExtensionType::TransportParametersDraft,
            ClientExtension::EarlyData => ext.kind() == ExtensionType::EarlyData,
            ClientExtension::Unknown(u) => ext.kind() == u.typ,
        },
{
}

/// Looking for a type finds the first extension of that type.
pub proof fn lookup_finds_the_first(hello: ClientHelloPayload, typ: ExtensionType, i: int)
    requires
        0 <= i < hello.extensions@.len(),
        hello.extensions@[i].kind() == typ,
        forall|j: int| 0 <= j < i ==> (#[trigger] hello.extensions@[j]).kind() != typ,
    ensures
        hello.extension(typ) == Some(hello.extensions@[i]),
        hello.offers(typ),
{
    assert forall|j: int| 0 <= j < i implies !of_kind(typ)(#[trigger] hello.extensions@[j]) by {
        assert(hello.extensions@[j].kind() != typ);
    }
    find_first_at(hello.extensions@, of_kind(typ), i);
}

/// Looking for a type that no extension has finds nothing.
pub proof fn lookup_finds_nothing_else(hello: ClientHelloPayload, typ: ExtensionType)
    requires
        forall|j: int|
            0 <= j < hello.extensions@.len() ==> (#[trigger] hello.extensions@[j]).kind() != typ,
    ensures
        hello.extension(typ) is None,
        !hello.offers(typ),
{
    assert forall|j: int| 0 <= j < hello.extensions@.len() implies !of_kind(typ)(
        #[trigger] hello.extensions@[j],
    ) by {
        assert(hello.extensions@[j].kind() != typ);
    }
    find_first_none(hello.extensions@, of_kind(typ));
}

/// A type is offered exactly if some extension, at any place, has it.
pub proof fn offered_iff_sent(hello: ClientHelloPayload, typ: ExtensionType)
    ensures
        hello.offers(typ) <==> exists|i: int|
            0 <= i < hello.extensions@.len() && (#[trigger] hello.extensions@[i]).kind() == typ,
{
    find_first_meaning(hello.extensions@, of_kind(typ));
    if exists|i: int|
        0 <= i < hello.extensions@.len() && (#[trigger] hello.extensions@[i]).kind() == typ {
        let i = choose|i: int|
            0 <= i < hello.extensions@.len() && (#[trigger] hello.extensions@[i]).kind() == typ;
        assert(of_kind(typ)(hello.extensions@[i]));
    }
}

/// The five lists that are read from extensions are all of what the first
/// extension of the type holds.
pub proof fn lists_are_read_whole(hello: ClientHelloPayload)
    ensures
        hello.server_names() == (match hello.extension(ExtensionType::ServerName) {
            Some(ClientExtension::ServerName(v)) => Some(v@),
            _ => None,
        }),
        hello.signature_schemes() == (match hello.extension(ExtensionType::SignatureAlgorithms) {
            Some(ClientExtension::SignatureAlgorithms(v)) => Some(v@),
            _ => None,
        }),
        hello.alpn_list() == (match hello.extension(ExtensionType::ALProtocolNegotiation) {
            Some(ClientExtension::Protocols(v)) => Some(v),
            _ => None,
        }),
        hello.protocols() == (match hello.extension(ExtensionType::ALProtocolNegotiation) {
            Some(ClientExtension::Protocols(v)) => Some(v@.map_values(|b: Vec<u8>| b@)),
            _ => None,
        }),
        hello.versions() == (match hello.extension(ExtensionType::SupportedVersions) {
            Some(ClientExtension::SupportedVersions(v)) => Some(v@),
            _ => None,
        }),
{
    if let Some(v) = hello.alpn_list() {
        assert(byte_strings(v@) =~= v@.map_values(|b: Vec<u8>| b@));
    }
}

/// QUIC parameters under the final code point count before those of the drafts,
/// wherever either stands.
pub proof fn quic_parameters_prefer_the_final_code(hello: ClientHelloPayload, i: int)
    requires
        0 <= i < hello.extensions@.len(),
        hello.extensions@[i].kind() == ExtensionType::TransportParameters,
        forall|j: int|
            0 <= j < i ==> (#[trigger] hello.extensions@[j]).kind()
                != ExtensionType::TransportParameters,
    ensures
        hello.quic_params() == (match hello.extensions@[i] {
            ClientExtension::TransportParameters(params) => Some(params@),
            _ => None,
        }),
{
    lookup_finds_the_first(hello, ExtensionType::TransportParameters, i);
}

/// QUIC parameters of the drafts count where there are none under the final
/// code point, and without either there are none.
pub proof fn quic_parameters_of_the_drafts(hello: ClientHelloPayload)
    requires
        forall|j: int|
            0 <= j < hello.extensions@.len() ==> (#[trigger] hello.extensions@[j]).kind()
                != ExtensionType::TransportParameters,
    ensures
        hello.quic_params() == (match hello.extension(ExtensionType::TransportParametersDraft) {
            Some(ClientExtension::TransportParametersDraft(params)) => Some(params@),
            _ => None,
        }),
{
    lookup_finds_nothing_else(hello, ExtensionType::TransportParameters);
    find_first_meaning(hello.extensions@, of_kind(ExtensionType::TransportParametersDraft));
}

/// A hello repeats no extension exactly if the numbers of their types are all
/// different.
pub proof fn repetition_is_of_type_numbers(hello: ClientHelloPayload)
    ensures
        hello.repeats_extension() <==> !hello.extensions@.map_values(
            |e: ClientExtension| e.kind().code(),
        ).no_duplicates(),
{
    let exts = hello.extensions@;
    let codes = exts.map_values(|e: ClientExtension| e.kind().code());
    if hello.repeats_extension() {
        let (i, j) = choose|i: int, j: int|
            0 <= i < j < exts.len() && (#[trigger] exts[i]).kind().code() == (
            #[trigger] exts[j]).kind().code();
        assert(codes[i] == codes[j]);
    }
    if !codes.no_duplicates() {
        let (i, j) = choose|i: int, j: int|
            0 <= i < codes.len() && 0 <= j < codes.len() && i != j && codes[i] == codes[j];
        if i < j {
            assert(exts[i].kind().code() == exts[j].kind().code());
        } else {
            assert(exts[j].kind().code() == exts[i].kind().code());
        }
    }
}

// Names

/// A list of names repeats no type exactly if the numbers of the types are all
/// different.
pub proof fn name_repetition_is_of_type_numbers(names: Seq<ServerName>)
    ensures
        repeats_name_type(names) <==> !names.map_values(
            |n: ServerName| n.typ.code(),
        ).no_duplicates(),
{
    let codes = names.map_values(|n: ServerName| n.typ.code());
    if repeats_name_type(names) {
        let (i, j) = choose|i: int, j: int|
            0 <= i < j < names.len() && (#[trigger] names[i]).typ.code() == (
            #[trigger] names[j]).typ.code();
        assert(codes[i] == codes[j]);
    }
    if !codes.no_duplicates() {
        let (i, j) = choose|i: int, j: int|
            0 <= i < codes.len() && 0 <= j < codes.len() && i != j && codes[i] == codes[j];
        if i < j {
            assert(names[i].typ.code() == names[j].typ.code());
        } else {
            assert(names[j].typ.code() == names[i].typ.code());
        }
    }
}

/// The host name of a list is the first host name in it, at whatever place, if
/// that is a DNS name.
pub proof fn hostname_is_the_first(names: Seq<ServerName>, i: int)
    requires
        0 <= i < names.len(),
        names[i].payload is HostName,
        forall|j: int| 0 <= j < i ==> (#[trigger] names[j]).payload is Unknown,
    ensures
        single_hostname(names) == (if is_dns_name(names[i].payload->HostName_0@) {
            Some(lower_text(names[i].payload->HostName_0@))
        } else {
            None
        }),
{
    assert forall|j: int| 0 <= j < i implies !is_host_name()(#[trigger] names[j]) by {
        assert(names[j].payload is Unknown);
    }
    find_first_at(names, is_host_name(), i);
}

/// A list without a host name has none.
pub proof fn no_hostname_without_one(names: Seq<ServerName>)
    requires
        forall|j: int| 0 <= j < names.len() ==> (#[trigger] names[j]).payload is Unknown,
    ensures
        single_hostname(names) is None,
{
    assert forall|j: int| 0 <= j < names.len() implies !is_host_name()(#[trigger] names[j]) by {
        assert(names[j].payload is Unknown);
    }
    find_first_none(names, is_host_name());
}

// Messages

/// A message is a hello exactly if it is a handshake message with the body of
/// one; any other is reported by what it is, against what is expected.
pub proof fn messages_are_told_apart(m: Message)
    ensures
        match m.payload {
            MessagePayload::Handshake(hs) => match hs.payload {
                HandshakePayload::ClientHello(hello) => m.client_hello() == Some(hello),
                HandshakePayload::Unknown(_) => m.client_hello() is None && m.inappropriate()
                    == (ErrorView::InappropriateHandshakeMessage {
                    expect_types: seq![HandshakeType::ClientHello],
                    got_type: hs.typ,
                }),
            },
            MessagePayload::Alert(_) => m.client_hello() is None && m.inappropriate() == (
            ErrorView::InappropriateMessage {
                expect_types: seq![ContentType::Handshake],
                got_type: ContentType::Alert,
            }),
            MessagePayload::ChangeCipherSpec(_) => m.client_hello() is None && m.inappropriate()
                == (ErrorView::InappropriateMessage {
                expect_types: seq![ContentType::Handshake],
                got_type: ContentType::ChangeCipherSpec,
            }),
            MessagePayload::ApplicationData(_) => m.client_hello() is None && m.inappropriate()
                == (ErrorView::InappropriateMessage {
                expect_types: seq![ContentType::Handshake],
                got_type: ContentType::ApplicationData,
            }),
        },
{
}

// What is seen of the state

/// Nothing of an error is lost in its view.
pub proof fn errors_are_seen_whole(error: Error)
    ensures
        match error {
            Error::InappropriateMessage { expect_types, got_type } => error@
                matches ErrorView::InappropriateMessage { expect_types: e, got_type: g } && e
                == expect_types@ && g == got_type,
            Error::InappropriateHandshakeMessage { expect_types, got_type } => error@
                matches ErrorView::InappropriateHandshakeMessage { expect_types: e, got_type: g }
                && e == expect_types@ && g == got_type,
            Error::PeerIncompatibleError(why) => error@ == ErrorView::PeerIncompatibleError(why@),
            Error::PeerMisbehavedError(why) => error@ == ErrorView::PeerMisbehavedError(why@),
            Error::NoApplicationProtocol => error@ == ErrorView::NoApplicationProtocol,
            Error::FailedToGetRandomBytes => error@ == ErrorView::FailedToGetRandomBytes,
            Error::General(why) => error@ == ErrorView::General(why@),
        },
{
}

/// Nothing of a server extension is lost in its view.
pub proof fn server_extensions_are_seen_whole(a: ServerExtension)
    ensures
        match a {
            ServerExtension::ECPointFormats(f) => a@ == ServerExtensionView::ECPointFormats(f@),
            ServerExtension::ServerNameAck => a@ == ServerExtensionView::ServerNameAck,
            ServerExtension::SessionTicketAck => a@ == ServerExtensionView::SessionTicketAck,
            ServerExtension::RenegotiationInfo(b) => a@ == ServerExtensionView::RenegotiationInfo(
                b@,
            ),
            ServerExtension::Protocols(p) => a@ matches ServerExtensionView::Protocols(q)
                && q.len() == p@.len() && forall|i: int|
                0 <= i < q.len() ==> #[trigger] q[i] == p@[i]@,
            ServerExtension::KeyShare(k) => a@ == ServerExtensionView::KeyShare(
                k.group,
                k.payload@,
            ),
            ServerExtension::PresharedKey(i) => a@ == ServerExtensionView::PresharedKey(i),
            ServerExtension::ExtendedMasterSecretAck => a@
                == ServerExtensionView::ExtendedMasterSecretAck,
            ServerExtension::CertificateStatusAck => a@
                == ServerExtensionView::CertificateStatusAck,
            ServerExtension::SignedCertificateTimestamp(b) => a@
                == ServerExtensionView::SignedCertificateTimestamp(b@),
            ServerExtension::SupportedVersions(v) => a@ == ServerExtensionView::SupportedVersions(
                v,
            ),
            ServerExtension::TransportParameters(b) => a@
                == ServerExtensionView::TransportParameters(b@),
            ServerExtension::TransportParametersDraft(b) => a@
                == ServerExtensionView::TransportParametersDraft(b@),
            ServerExtension::EarlyData => a@ == ServerExtensionView::EarlyData,
            ServerExtension::Unknown(u) => a@ == ServerExtensionView::Unknown(u.typ, u.payload@),
        },
{
}

/// A list of server extensions is seen extension by extension.
pub proof fn extension_lists_are_seen_whole(exts: Seq<ServerExtension>)
    ensures
        ext_views(exts).len() == exts.len(),
        forall|i: int| 0 <= i < exts.len() ==> #[trigger] ext_views(exts)[i] == exts[i]@,
{
}

/// Nothing of a connection is lost in its view, and nothing is mixed up.
pub proof fn connections_are_seen_whole(common: CommonState, data: ServerConnectionData)
    ensures
        common@.negotiated_version == common.negotiated_version,
        common@.suite == common.suite,
        common@.aligned_handshake == common.aligned_handshake,
        common@.protocol == common.protocol,
        common@.fatal_alerts == common.fatal_alerts@,
        match common.alpn_protocol {
            Some(p) => common@.alpn_protocol == Some(p@),
            None => common@.alpn_protocol is None,
        },
        match common.quic.params {
            Some(p) => common@.quic_params == Some(p@),
            None => common@.quic_params is None,
        },
        match data.sni {
            Some(n) => data@.sni == Some(n@),
            None => data@.sni is None,
        },
        match data.tls_fingerprint {
            Some(t) => data@.tls_fingerprint == Some(t@),
            None => data@.tls_fingerprint is None,
        },
{
}

/// A connection is over QUIC or under TLS 1.3 exactly if it says so.
pub proof fn connection_modes(common: CommonView)
    ensures
        common.is_quic() <==> common.protocol is Quic,
        common.is_tls13() <==> common.negotiated_version is Some
            && common.negotiated_version->0 is TLSv1_3,
{
}

/// Putting an alert in line adds it behind the others, and changes nothing else.
pub proof fn alerts_are_put_in_line(common: CommonView, desc: AlertDescription)
    ensures
        common.alerted(None) == common,
        common.alerted(Some(desc)).fatal_alerts.len() == common.fatal_alerts.len() + 1,
        common.alerted(Some(desc)).fatal_alerts.last() == desc,
        common.alerted(Some(desc)).fatal_alerts.drop_last() == common.fatal_alerts,
        common.alerted(Some(desc)).negotiated_version == common.negotiated_version,
        common.alerted(Some(desc)).suite == common.suite,
        common.alerted(Some(desc)).alpn_protocol == common.alpn_protocol,
        common.alerted(Some(desc)).aligned_handshake == common.aligned_handshake,
        common.alerted(Some(desc)).protocol == common.protocol,
        common.alerted(Some(desc)).quic_params == common.quic_params,
{
    assert(common.fatal_alerts.push(desc).drop_last() =~= common.fatal_alerts);
}

/// Nothing of a transcript is lost in its view.
pub proof fn transcripts_are_seen_whole(hash: HandshakeHash)
    ensures
        hash@.algorithm == hash.algorithm,
        hash@.hashed == hash.hashed@,
        match hash.client_auth {
            Some(b) => hash@.client_auth == Some(b@),
            None => hash@.client_auth is None,
        },
{
}

/// Settling the hash function keeps every byte, and keeps a copy of them
/// exactly where the client may have to sign them.
pub proof fn settling_the_hash_keeps_every_byte(
    buffer: HandshakeHashBuffer,
    algorithm: HashAlgorithm,
)
    ensures
        HandshakeHashOrBuffer::Buffer(buffer).under(algorithm) matches Some(h) && {
            &&& h.algorithm == algorithm
            &&& h.hashed == buffer.buffer@
            &&& h.client_auth is Some <==> buffer.client_auth_enabled
            &&& buffer.client_auth_enabled ==> h.client_auth == Some(h.hashed)
        },
{
}

/// A settled hash function stays: the transcript goes on under it unchanged,
/// and under no other.
pub proof fn settled_hash_stays(hash: HandshakeHash, algorithm: HashAlgorithm)
    ensures
        HandshakeHashOrBuffer::Hash(hash).under(algorithm) is Some <==> hash.algorithm == algorithm,
        hash.algorithm == algorithm ==> HandshakeHashOrBuffer::Hash(hash).under(algorithm) == Some(
            hash@,
        ),
{
}

} // verus!
