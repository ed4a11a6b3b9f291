//! What holds of the handshake as a whole.
pub mod choice;
pub mod fingerprint;
pub mod handover;
pub mod hello;
pub mod reply;
pub mod wire;

use std::sync::Arc;

use vstd::prelude::*;

use crate::client_hello::{
    data_after, fitting, fitting_schemes, form_refusal, hello_refusal, requested_name,
    sets_name_twice,
};
use crate::conn::{CommonView, DataView, ServerContext};
use crate::dns::{is_dns_name, is_name_text, lower_text};
use crate::enums::{
    AlertDescription, ExtensionType, ProtocolVersion, SignatureAlgorithm, SignatureScheme,
};
use crate::error::{Error, ErrorView, Refusal};
use crate::expect::{
    settled_suite, suitable_suites, suite_choice, version_choice, ExpectClientHello,
    GetRandomFailed, NextState,
};
use crate::extensions::{
    alpn_reply, among, certificate_reply, common_after, common_protocol, common_refusal,
    gets_ticket, ocsp_later, offers_secure_renegotiation, reply_if, sct_later, tls12_reply,
};
use crate::fingerprint::fingerprint_text;
use crate::hash_hs::{HandshakeHashOrBuffer, HandshakeHashView};
use crate::msgs::{is_host_name, ClientHelloPayload, Message, Random, ServerExtensionView};
use crate::seqs::{
    both, filter_absorbed, filter_members, find_first, find_first_filtered, find_first_meaning,
};
use crate::server::{CertifiedKey, ResolvesServerCert, ServerConfig};
use crate::suites::{
    belonging_to, known_to, offered_in, scheme_fits, usable_with, with_id, SupportedCipherSuite,
};

verus! {

// Application protocols

/// ALPN settles on a protocol of both sides, and on none where there is no such
/// protocol. Of several, it is the one that the server prefers.
pub proof fn alpn_follows_the_servers_order(ours: Seq<Seq<u8>>, theirs: Seq<Seq<u8>>)
    ensures
        match common_protocol(ours, theirs) {
            Some(protocol) => theirs.contains(protocol) && exists|i: int|
                #![trigger ours[i]]
                0 <= i < ours.len() && ours[i] == protocol && (forall|j: int|
                    0 <= j < i ==> !theirs.contains(#[trigger] ours[j])),
            None => forall|j: int| 0 <= j < ours.len() ==> !theirs.contains(#[trigger] ours[j]),
        },
{
    find_first_meaning(ours, among(theirs));
    match common_protocol(ours, theirs) {
        Some(protocol) => {
            let i = choose|i: int|
                #![trigger ours[i]]
                0 <= i < ours.len() && ours[i] == protocol && among(theirs)(protocol) && (forall|
                    j: int,
                |
                    0 <= j < i ==> !among(theirs)(#[trigger] ours[j]));
            assert(ours[i] == protocol);
            assert forall|j: int| 0 <= j < i implies !theirs.contains(#[trigger] ours[j]) by {
                assert(!among(theirs)(ours[j]));
            }
        },
        None => {
            assert forall|j: int| 0 <= j < ours.len() implies !theirs.contains(
                #[trigger] ours[j],
            ) by {
                assert(!among(theirs)(ours[j]));
            }
        },
    }
}

/// Over QUIC a handshake gets past the extensions only with the client's
/// transport parameters, and only with a protocol unless neither side uses ALPN.
pub proof fn quic_is_strict<R>(
    config: ServerConfig<R>,
    common: CommonView,
    hello: ClientHelloPayload,
)
    requires
        common.is_quic(),
        common_refusal(config, common, hello) is None,
    ensures
        hello.quic_params() is Some,
        common_after(config, common, hello).quic_params == hello.quic_params(),
        common_after(config, common, hello).alpn_protocol is Some || (config.alpn_protocols@.len()
            == 0 && hello.protocols() is None),
{
}

/// Over TLS without QUIC, no ALPN failure comes up unless both sides use ALPN.
pub proof fn alpn_is_optional_without_quic<R>(
    config: ServerConfig<R>,
    common: CommonView,
    hello: ClientHelloPayload,
)
    requires
        !common.is_quic(),
        config.alpn_protocols@.len() == 0 || hello.protocols() is None,
    ensures
        match common_refusal(config, common, hello) {
            Some(refusal) => refusal.error != ErrorView::NoApplicationProtocol,
            None => true,
        },
{
}

/// The reply names a protocol exactly if the connection has one from this
/// hello, and it is the connection's.
pub proof fn alpn_reply_is_the_connections_protocol<R>(
    config: ServerConfig<R>,
    common: CommonView,
    hello: ClientHelloPayload,
)
    requires
        common_refusal(config, common, hello) is None,
        hello.protocols() is Some,
    ensures
        match common_after(config, common, hello).alpn_protocol {
            Some(protocol) => alpn_reply(config, hello) == seq![
                ServerExtensionView::Protocols(seq![protocol]),
            ],
            None => alpn_reply(config, hello) == Seq::<ServerExtensionView>::empty(),
        },
{
}

// Certificate status and timestamps

/// A resumed session acknowledges no host name, and sends neither an OCSP
/// response nor certificate timestamps, at once or later.
pub proof fn resumption_sends_nothing_of_the_certificate<'a>(
    tls13: bool,
    hello: ClientHelloPayload,
    ocsp: Option<&'a [u8]>,
    sct_list: Option<&'a [u8]>,
)
    ensures
        certificate_reply(tls13, hello, true, ocsp is Some, sct_list) == Seq::<
            ServerExtensionView,
        >::empty(),
        ocsp_later(hello, true, ocsp) is None,
        sct_later(tls13, hello, true, sct_list) is None,
{
}

/// TLS 1.3 has no acknowledgement of an OCSP response, and no certificate
/// timestamps, among the extensions of the reply.
pub proof fn tls13_keeps_certificate_data_for_later(
    hello: ClientHelloPayload,
    for_resume: bool,
    has_ocsp: bool,
    sct_list: Option<&[u8]>,
    i: int,
)
    requires
        0 <= i < certificate_reply(true, hello, for_resume, has_ocsp, sct_list).len(),
    ensures
        certificate_reply(true, hello, for_resume, has_ocsp, sct_list)[i]
            == ServerExtensionView::ServerNameAck,
{
}

/// What the client did not ask for is not sent, at once or later.
pub proof fn unrequested_certificate_data_is_dropped<'a>(
    tls13: bool,
    hello: ClientHelloPayload,
    for_resume: bool,
    ocsp: Option<&'a [u8]>,
    sct_list: Option<&'a [u8]>,
)
    ensures
        !hello.offers(ExtensionType::StatusRequest) ==> ocsp_later(hello, for_resume, ocsp) is None
            && !certificate_reply(tls13, hello, for_resume, ocsp is Some, sct_list).contains(
            ServerExtensionView::CertificateStatusAck,
        ),
        !hello.offers(ExtensionType::SCT) ==> sct_later(tls13, hello, for_resume, sct_list) is None
            && forall|list: Seq<u8>|
            !(#[trigger] certificate_reply(
                tls13,
                hello,
                for_resume,
                ocsp is Some,
                sct_list,
            ).contains(ServerExtensionView::SignedCertificateTimestamp(list))),
{
}

/// Certificate timestamps go into the reply or are kept for later, never both.
pub proof fn timestamps_go_out_once(
    tls13: bool,
    hello: ClientHelloPayload,
    for_resume: bool,
    has_ocsp: bool,
    sct_list: Option<&[u8]>,
    list: Seq<u8>,
)
    requires
        certificate_reply(tls13, hello, for_resume, has_ocsp, sct_list).contains(
            ServerExtensionView::SignedCertificateTimestamp(list),
        ),
    ensures
        sct_list matches Some(l) && l@ == list,
        sct_later(tls13, hello, for_resume, sct_list) is None,
{
}

// The reply as a whole

/// Whether an extension of the reply answers what the client sent; the one for
/// the extended master secret answers the decision to use it.
pub open spec fn answers(
    ext: ServerExtensionView,
    hello: ClientHelloPayload,
    using_ems: bool,
) -> bool {
    match ext {
        ServerExtensionView::Protocols(_) => hello.protocols() is Some,
        ServerExtensionView::ServerNameAck => hello.server_names() is Some,
        ServerExtensionView::CertificateStatusAck => hello.offers(ExtensionType::StatusRequest),
        ServerExtensionView::SignedCertificateTimestamp(_) => hello.offers(ExtensionType::SCT),
        ServerExtensionView::RenegotiationInfo(_) => offers_secure_renegotiation(hello),
        ServerExtensionView::SessionTicketAck => hello.offers(ExtensionType::SessionTicket),
        ServerExtensionView::ExtendedMasterSecretAck => using_ems,
        _ => false,
    }
}

/// Where an extension stands in a reply.
pub open spec fn place(ext: ServerExtensionView) -> int {
    match ext {
        ServerExtensionView::Protocols(_) => 0,
        ServerExtensionView::ServerNameAck => 1,
        ServerExtensionView::CertificateStatusAck => 2,
        ServerExtensionView::SignedCertificateTimestamp(_) => 3,
        ServerExtensionView::RenegotiationInfo(_) => 4,
        ServerExtensionView::SessionTicketAck => 5,
        ServerExtensionView::ExtendedMasterSecretAck => 6,
        _ => 7,
    }
}

/// The reply to a TLS 1.2 hello answers only what the client sent, each thing
/// at most once and always in the same order.
pub proof fn reply_answers_the_client<R>(
    config: ServerConfig<R>,
    hello: ClientHelloPayload,
    using_ems: bool,
    for_resume: bool,
    has_ocsp: bool,
    sct_list: Option<&[u8]>,
)
    ensures
        ({
            let reply = alpn_reply(config, hello) + certificate_reply(
                false,
                hello,
                for_resume,
                has_ocsp,
                sct_list,
            ) + tls12_reply(config, hello, using_ems);
            &&& forall|i: int|
                0 <= i < reply.len() ==> answers(#[trigger] reply[i], hello, using_ems)
            &&& forall|i: int, j: int|
                0 <= i < j < reply.len() ==> place(#[trigger] reply[i]) < place(
                    #[trigger] reply[j],
                )
        }),
{
    let a = alpn_reply(config, hello);
    let c = certificate_reply(false, hello, for_resume, has_ocsp, sct_list);
    let t = tls12_reply(config, hello, using_ems);
    let reply = a + c + t;
    assert(forall|i: int| 0 <= i < a.len() ==> place(#[trigger] a[i]) == 0);
    assert(forall|i: int| 0 <= i < c.len() ==> 1 <= place(#[trigger] c[i]) <= 3);
    assert(forall|i: int| 0 <= i < t.len() ==> 4 <= place(#[trigger] t[i]) <= 6);
    assert(forall|i: int, j: int|
        0 <= i < j < c.len() ==> place(#[trigger] c[i]) < place(#[trigger] c[j]));
    assert(forall|i: int, j: int|
        0 <= i < j < t.len() ==> place(#[trigger] t[i]) < place(#[trigger] t[j]));
    assert(a.len() <= 1);
    assert forall|i: int| 0 <= i < reply.len() implies #[trigger] reply[i] == (if i < a.len() {
        a[i]
    } else if i < a.len() + c.len() {
        c[i - a.len()]
    } else {
        t[i - a.len() - c.len()]
    }) by {}
    assert(forall|i: int| 0 <= i < a.len() ==> answers(#[trigger] a[i], hello, using_ems));
    assert(forall|i: int| 0 <= i < c.len() ==> answers(#[trigger] c[i], hello, using_ems));
    assert(forall|i: int| 0 <= i < t.len() ==> answers(#[trigger] t[i], hello, using_ems));
}

/// A client hears in the reply to a TLS 1.2 hello that it will be given a
/// ticket exactly if it asked for one and the server makes them.
pub proof fn ticket_is_acknowledged_iff_given<R>(
    config: ServerConfig<R>,
    hello: ClientHelloPayload,
    using_ems: bool,
)
    ensures
        tls12_reply(config, hello, using_ems).contains(ServerExtensionView::SessionTicketAck)
            <==> gets_ticket(config, hello),
{
    let reneg = reply_if(
        offers_secure_renegotiation(hello),
        ServerExtensionView::RenegotiationInfo(Seq::<u8>::empty()),
    );
    if gets_ticket(config, hello) {
        assert(tls12_reply(config, hello, using_ems)[reneg.len() as int]
            == ServerExtensionView::SessionTicketAck);
    }
}

// The host name

/// The host name of a connection is immutable once set.
pub proof fn name_is_immutable_once_set(
    m: Message,
    done_retry: bool,
    common: CommonView,
    data: DataView,
)
    requires
        data.sni is Some,
        !sets_name_twice(m, done_retry, common, data),
    ensures
        data_after(m, done_retry, common, data).sni == data.sni,
{
}

/// Once a hello has been accepted, the connection's host name is the one that
/// this hello asks for; so a second hello must ask for the same as the first.
pub proof fn accepted_hello_asks_for_the_connections_name(
    m: Message,
    done_retry: bool,
    common: CommonView,
    data: DataView,
)
    requires
        hello_refusal(m, done_retry, common, data) is None,
    ensures
        m.client_hello() is Some,
        data_after(m, done_retry, common, data).sni == requested_name(m.client_hello()->0),
        done_retry ==> requested_name(m.client_hello()->0) == data.sni,
{
}

/// A well-formed first hello leaves its host name with the connection even if
/// it is refused afterwards.
pub proof fn name_is_kept_even_if_refused(
    m: Message,
    common: CommonView,
    data: DataView,
)
    requires
        form_refusal(m, common.aligned_handshake) is None,
        requested_name(m.client_hello()->0) is Some,
    ensures
        data_after(m, false, common, data).sni == requested_name(m.client_hello()->0),
{
}

/// A host name that a hello asks for is a valid DNS name, in small letters.
pub proof fn requested_names_are_dns_names(hello: ClientHelloPayload)
    ensures
        requested_name(hello) matches Some(text) ==> is_name_text(text),
{
    if requested_name(hello) is Some {
        let raw = find_first(hello.server_names()->0, is_host_name())->0.payload->HostName_0@;
        assert(is_dns_name(raw) && requested_name(hello)->0 == lower_text(raw));
    }
}

/// A second hello is accepted only if it asks for the host name of the first.
pub proof fn retry_repeats_the_name(
    first: Message,
    second: Message,
    common: CommonView,
    later: CommonView,
    data: DataView,
)
    requires
        hello_refusal(first, false, common, data) is None,
        hello_refusal(second, true, later, data_after(first, false, common, data)) is None,
    ensures
        requested_name(second.client_hello()->0) == requested_name(first.client_hello()->0),
{
}

// Signature schemes

/// The schemes that a certificate is chosen by are the client's, and each fits
/// a cipher suite that both sides have; none of these is left out.
pub proof fn schemes_fit_a_common_suite(
    hello: ClientHelloPayload,
    supported: Seq<SupportedCipherSuite>,
    scheme: SignatureScheme,
)
    requires
        hello.signature_schemes() is Some,
    ensures
        fitting_schemes(hello, supported).contains(scheme) <==> hello.signature_schemes()->0.contains(
            scheme,
        ) && exists|suite: SupportedCipherSuite|
            #![trigger supported.contains(suite)]
            supported.contains(suite) && hello.cipher_suites@.contains(suite.id())
                && suite.usable_for(scheme.algorithm()),
{
    let both_have = supported.filter(offered_in(hello.cipher_suites@));
    filter_members(hello.signature_schemes()->0, fitting(both_have), scheme);
    if scheme_fits(scheme, both_have) {
        let i = choose|i: int|
            0 <= i < both_have.len() && (#[trigger] both_have[i]).usable_for(scheme.algorithm());
        filter_members(supported, offered_in(hello.cipher_suites@), both_have[i]);
        assert(both_have.contains(both_have[i]));
        assert(supported.contains(both_have[i]));
    }
    if exists|suite: SupportedCipherSuite|
        #![trigger supported.contains(suite)]
        supported.contains(suite) && hello.cipher_suites@.contains(suite.id()) && suite.usable_for(
            scheme.algorithm(),
        ) {
        let suite = choose|suite: SupportedCipherSuite|
            #![trigger supported.contains(suite)]
            supported.contains(suite) && hello.cipher_suites@.contains(suite.id())
                && suite.usable_for(scheme.algorithm());
        filter_members(supported, offered_in(hello.cipher_suites@), suite);
        let i = choose|i: int| 0 <= i < both_have.len() && both_have[i] == suite;
        assert(both_have[i].usable_for(scheme.algorithm()));
    }
}

// The version

/// TLS 1.3 is chosen exactly if the client lists it and the server has it.
pub proof fn tls13_wherever_both_have_it<R>(
    config: ServerConfig<R>,
    hello: ClientHelloPayload,
    quic: bool,
)
    ensures
        version_choice(config, hello, quic) == Ok::<ProtocolVersion, Refusal>(
            ProtocolVersion::TLSv1_3,
        ) <==> config.supports(ProtocolVersion::TLSv1_3) && (hello.versions() matches Some(versions)
            && versions.contains(ProtocolVersion::TLSv1_3)),
{
}

/// QUIC goes on with TLS 1.3 or not at all.
pub proof fn quic_needs_tls13<R>(config: ServerConfig<R>, hello: ClientHelloPayload)
    ensures
        version_choice(config, hello, true) matches Ok(version) ==> version
            == ProtocolVersion::TLSv1_3,
{
}

/// A server that has any version goes on only with one that it has and that the
/// client has said it has.
pub proof fn version_is_one_of_both_sides<R>(
    config: ServerConfig<R>,
    hello: ClientHelloPayload,
    quic: bool,
)
    requires
        config.supports(ProtocolVersion::TLSv1_2) || config.supports(ProtocolVersion::TLSv1_3),
    ensures
        version_choice(config, hello, quic) matches Ok(version) ==> {
            &&& version == ProtocolVersion::TLSv1_2 || version == ProtocolVersion::TLSv1_3
            &&& config.supports(version)
            &&& match hello.versions() {
                Some(versions) => versions.contains(version),
                None => hello.client_version.code() >= version.code(),
            }
        },
{
}

/// A refusal for the version always tells the peer so.
pub proof fn version_refusal_is_alerted<R>(
    config: ServerConfig<R>,
    hello: ClientHelloPayload,
    quic: bool,
)
    ensures
        version_choice(config, hello, quic) matches Err(refusal) ==> refusal.alert == Some(
            AlertDescription::ProtocolVersion,
        ),
{
}

// The cipher suite

/// Whether a configured suite can be used: the key can sign for it, it belongs
/// to the version, and the client offers it.
pub open spec fn usable_here(
    suite: SupportedCipherSuite,
    hello: ClientHelloPayload,
    alg: SignatureAlgorithm,
    version: ProtocolVersion,
) -> bool {
    suite.usable_for(alg) && suite.of_version() == version && hello.cipher_suites@.contains(
        suite.id(),
    )
}

proof fn suitable_members<R>(
    config: ServerConfig<R>,
    alg: SignatureAlgorithm,
    version: ProtocolVersion,
    suite: SupportedCipherSuite,
)
    ensures
        suitable_suites(config, alg, version).contains(suite) <==> config.cipher_suites@.contains(
            suite,
        ) && suite.usable_for(alg) && suite.of_version() == version,
{
    let all = config.cipher_suites@;
    filter_members(all, usable_with(alg), suite);
    filter_members(all.filter(usable_with(alg)), belonging_to(version), suite);
}

/// The suite that is chosen is one of the server's and can be used; none is
/// chosen only where no suite of the server's can be used.
pub proof fn chosen_suite_is_usable<R>(
    config: ServerConfig<R>,
    hello: ClientHelloPayload,
    alg: SignatureAlgorithm,
    version: ProtocolVersion,
)
    ensures
        match suite_choice(config, hello, alg, version) {
            Some(suite) => config.cipher_suites@.contains(suite) && usable_here(
                suite,
                hello,
                alg,
                version,
            ),
            None => forall|suite: SupportedCipherSuite|
                #![trigger config.cipher_suites@.contains(suite)]
                config.cipher_suites@.contains(suite) ==> !usable_here(suite, hello, alg, version),
        },
{
    let client = hello.cipher_suites@;
    let suitable = suitable_suites(config, alg, version);
    find_first_meaning(suitable, offered_in(client));
    find_first_meaning(client, known_to(suitable));
    match suite_choice(config, hello, alg, version) {
        Some(suite) => {
            suitable_members(config, alg, version, suite);
            if !config.ignore_client_order {
                let id = find_first(client, known_to(suitable))->0;
                find_first_meaning(suitable, with_id(id));
                assert(client.contains(id));
            }
            assert(suitable.contains(suite));
        },
        None => {
            assert forall|suite: SupportedCipherSuite|
                #![trigger config.cipher_suites@.contains(suite)]
                config.cipher_suites@.contains(suite) implies !usable_here(
                suite,
                hello,
                alg,
                version,
            ) by {
                if usable_here(suite, hello, alg, version) {
                    suitable_members(config, alg, version, suite);
                    let i = choose|i: int| 0 <= i < suitable.len() && suitable[i] == suite;
                    if config.ignore_client_order {
                        assert(offered_in(client)(suitable[i]));
                    } else {
                        let k = choose|k: int| 0 <= k < client.len() && client[k] == suite.id();
                        assert(suitable[i].id() == suite.id());
                        assert(known_to(suitable)(client[k]));
                        let id = find_first(client, known_to(suitable))->0;
                        find_first_meaning(suitable, with_id(id));
                        let n = choose|n: int|
                            0 <= n < suitable.len() && (#[trigger] suitable[n]).id() == id;
                        assert(with_id(id)(suitable[n]));
                    }
                }
            }
        },
    }
}

/// Where the server's order counts, no suite that comes before the chosen one
/// in its list can be used.
pub proof fn servers_order_counts<R>(
    config: ServerConfig<R>,
    hello: ClientHelloPayload,
    alg: SignatureAlgorithm,
    version: ProtocolVersion,
)
    requires
        config.ignore_client_order,
    ensures
        suite_choice(config, hello, alg, version) matches Some(suite) ==> exists|i: int|
            #![trigger config.cipher_suites@[i]]
            0 <= i < config.cipher_suites@.len() && config.cipher_suites@[i] == suite && (forall|
                j: int,
            |
                0 <= j < i ==> !usable_here(
                    #[trigger] config.cipher_suites@[j],
                    hello,
                    alg,
                    version,
                )),
{
    let all = config.cipher_suites@;
    let offered = offered_in(hello.cipher_suites@);
    let in_version = both(belonging_to(version), offered);
    find_first_filtered(all.filter(usable_with(alg)), belonging_to(version), offered);
    find_first_filtered(all, usable_with(alg), in_version);
    let wanted = both(usable_with(alg), in_version);
    find_first_meaning(all, wanted);
    if suite_choice(config, hello, alg, version) is Some {
        let suite = suite_choice(config, hello, alg, version)->0;
        let i = choose|i: int|
            #![trigger all[i]]
            0 <= i < all.len() && all[i] == suite && wanted(suite) && (forall|j: int|
                0 <= j < i ==> !wanted(#[trigger] all[j]));
        assert(all[i] == suite);
        assert forall|j: int| 0 <= j < i implies !usable_here(
            #[trigger] all[j],
            hello,
            alg,
            version,
        ) by {
            assert(!wanted(all[j]));
        }
    }
}

/// Where the client's order counts, no entry that comes before the chosen
/// suite in the client's list names a suite that can be used.
pub proof fn clients_order_counts<R>(
    config: ServerConfig<R>,
    hello: ClientHelloPayload,
    alg: SignatureAlgorithm,
    version: ProtocolVersion,
)
    requires
        !config.ignore_client_order,
    ensures
        suite_choice(config, hello, alg, version) matches Some(suite) ==> exists|k: int|
            #![trigger hello.cipher_suites@[k]]
            0 <= k < hello.cipher_suites@.len() && hello.cipher_suites@[k] == suite.id() && (forall|
                j: int,
                other: SupportedCipherSuite,
            |
                #![trigger hello.cipher_suites@[j], config.cipher_suites@.contains(other)]
                0 <= j < k && config.cipher_suites@.contains(other) && other.id()
                    == hello.cipher_suites@[j] ==> !usable_here(other, hello, alg, version)),
{
    let client = hello.cipher_suites@;
    let suitable = suitable_suites(config, alg, version);
    find_first_meaning(client, known_to(suitable));
    if suite_choice(config, hello, alg, version) is Some {
        let suite = suite_choice(config, hello, alg, version)->0;
        let id = find_first(client, known_to(suitable))->0;
        find_first_meaning(suitable, with_id(id));
        let k = choose|k: int|
            #![trigger client[k]]
            0 <= k < client.len() && client[k] == id && known_to(suitable)(id) && (forall|j: int|
                0 <= j < k ==> !known_to(suitable)(#[trigger] client[j]));
        assert(client[k] == suite.id());
        assert forall|j: int, other: SupportedCipherSuite|
            #![trigger client[j], config.cipher_suites@.contains(other)]
            0 <= j < k && config.cipher_suites@.contains(other) && other.id()
                == client[j] implies !usable_here(other, hello, alg, version) by {
            assert(!known_to(suitable)(client[j]));
            suitable_members(config, alg, version, other);
            if suitable.contains(other) {
                let i = choose|i: int| 0 <= i < suitable.len() && suitable[i] == other;
                assert(suitable[i].id() == client[j]);
            }
        }
    }
}

/// Under TLS 1.3 the choice of a suite does not depend on the server's key.
pub proof fn tls13_suites_fit_any_key<R>(
    config: ServerConfig<R>,
    hello: ClientHelloPayload,
    a: SignatureAlgorithm,
    b: SignatureAlgorithm,
)
    ensures
        suite_choice(config, hello, a, ProtocolVersion::TLSv1_3) == suite_choice(
            config,
            hello,
            b,
            ProtocolVersion::TLSv1_3,
        ),
{
    let all = config.cipher_suites@;
    filter_absorbed(all, usable_with(a), belonging_to(ProtocolVersion::TLSv1_3));
    filter_absorbed(all, usable_with(b), belonging_to(ProtocolVersion::TLSv1_3));
}

// Going on

/// The handshake goes on in the state of the version that was settled, and the
/// connection remembers a cipher suite of that version which the client offered.
pub proof fn next_state_is_of_the_settled_version<R>(
    expect: ExpectClientHello<R>,
    common: CommonView,
    after: CommonView,
    next: NextState<'_, R>,
    certkey: Option<Arc<CertifiedKey>>,
    version: ProtocolVersion,
    m: Message,
    hello: ClientHelloPayload,
    schemes: Seq<SignatureScheme>,
    random: Result<Random, GetRandomFailed>,
)
    requires
        expect.resolved_to(
            common,
            after,
            Ok(next),
            certkey,
            version,
            m,
            hello,
            schemes,
            random,
        ),
    ensures
        next is Tls13 <==> version == ProtocolVersion::TLSv1_3,
        next is Tls12 <==> version == ProtocolVersion::TLSv1_2,
        after.suite matches Some(suite) && suite.of_version() == version
            && hello.cipher_suites@.contains(suite.id()),
        certkey matches Some(key) && after.suite->0.usable_for(key.key.algorithm),
{
    let key = certkey->0;
    chosen_suite_is_usable(expect.settings(), hello, key.key.algorithm, version);
}

/// The transcript with which the handshake goes on.
pub open spec fn next_transcript<R>(next: NextState<'_, R>) -> HandshakeHashView {
    match next {
        NextState::Tls13 { handling, .. } => handling.transcript@,
        NextState::Tls12 { handling, .. } => handling.transcript@,
    }
}

/// The handshake goes on with everything that the transcript held, under the
/// hash function of the chosen suite; a transcript whose hash function was
/// settled before stays as it was.
pub proof fn transcript_is_carried_on<R>(
    expect: ExpectClientHello<R>,
    common: CommonView,
    after: CommonView,
    next: NextState<'_, R>,
    certkey: Option<Arc<CertifiedKey>>,
    version: ProtocolVersion,
    m: Message,
    hello: ClientHelloPayload,
    schemes: Seq<SignatureScheme>,
    random: Result<Random, GetRandomFailed>,
)
    requires
        expect.resolved_to(
            common,
            after,
            Ok(next),
            certkey,
            version,
            m,
            hello,
            schemes,
            random,
        ),
    ensures
        after.suite matches Some(suite) && next_transcript(next).algorithm == suite.hash(),
        match expect.transcript {
            HandshakeHashOrBuffer::Buffer(buffer) => next_transcript(next).hashed == buffer.buffer@,
            HandshakeHashOrBuffer::Hash(hash) => next_transcript(next) == hash@,
        },
{
}

// Alerts

/// The errors of which the peer is not told: a message that is no hello, a
/// host name that changed between hellos, and a lack of random bytes.
pub open spec fn is_silent(error: ErrorView) -> bool {
    ||| error is InappropriateMessage
    ||| error is InappropriateHandshakeMessage
    ||| error == ErrorView::PeerIncompatibleError("SNI differed on retry"@)
    ||| error is FailedToGetRandomBytes
}

/// Handling a message puts no alert in line when the handshake goes on, and
/// one alert when it does not, unless the error is one of which the peer is
/// not told.
pub proof fn one_alert_for_each_refusal<R: ResolvesServerCert>(
    expect: ExpectClientHello<R>,
    cx: ServerContext,
    after: ServerContext,
    result: Result<NextState<'_, R>, Error>,
    m: Message,
    random: Result<Random, GetRandomFailed>,
)
    requires
        expect.handles(cx, after, result, m, random),
    ensures
        match result {
            Ok(_) => after.common@.fatal_alerts == cx.common@.fatal_alerts,
            Err(error) => {
                ||| exists|alert: AlertDescription|
                    after.common@.fatal_alerts == #[trigger] cx.common@.fatal_alerts.push(alert)
                ||| is_silent(error@) && after.common@.fatal_alerts == cx.common@.fatal_alerts
            },
        },
{
}

/// Once a message has been handled and the handshake goes on, the connection
/// has the fingerprint and the host name of the client's hello.
pub proof fn handled_hello_leaves_its_marks<R: ResolvesServerCert>(
    expect: ExpectClientHello<R>,
    cx: ServerContext,
    after: ServerContext,
    next: NextState<'_, R>,
    m: Message,
    random: Result<Random, GetRandomFailed>,
)
    requires
        expect.handles(cx, after, Ok(next), m, random),
    ensures
        m.client_hello() is Some,
        after.data@.tls_fingerprint == Some(fingerprint_text(m.client_hello()->0)),
        after.data@.sni == requested_name(m.client_hello()->0),
        after.common@.negotiated_version is Some,
        after.common@.suite matches Some(suite) && after.common@.negotiated_version == Some(
            suite.of_version(),
        ),
{
    accepted_hello_asks_for_the_connections_name(m, expect.done_retry, cx.common@, cx.data@);
    let hello = m.client_hello()->0;
    let version = version_choice(expect.settings(), hello, cx.common@.is_quic())->Ok_0;
    assert forall|certkey: Option<Arc<CertifiedKey>>|
        settled_suite(expect.settings(), hello, certkey, version) is Some implies (
    #[trigger] settled_suite(expect.settings(), hello, certkey, version))->0.of_version() == version by {
        chosen_suite_is_usable(expect.settings(), hello, certkey->0.key.algorithm, version);
    }
}

} // verus!
