//! How a hello's extensions are answered.
use vstd::prelude::*;

use crate::conn::CommonView;
use crate::enums::{AlertDescription, CipherSuite, ExtensionType};
use crate::error::{ErrorView, Refusal};
use crate::extensions::{
    alpn_reply, among, certificate_reply, common_after, common_refusal,
    gets_ticket, ocsp_later, offers_secure_renegotiation, reply_if, sct_later, tls12_reply,
};
use crate::msgs::{ClientHelloPayload, ServerExtensionView};
use crate::seqs::{byte_strings, find_first_at, find_first_none};
use crate::server::ServerConfig;

verus! {

// Application protocols

/// The first of the server's protocols that is anywhere in the client's list,
/// however long its name, becomes the connection's and is named in the reply.
/// What is then left to refuse the hello for is that QUIC has no parameters.
pub proof fn alpn_settles_on_the_servers_first<R>(
    config: ServerConfig<R>,
    common: CommonView,
    hello: ClientHelloPayload,
    theirs: Seq<Seq<u8>>,
    i: int,
    k: int,
)
    requires
        hello.protocols() == Some(theirs),
        forall|n: int| 0 <= n < theirs.len() ==> (#[trigger] theirs[n]).len() > 0,
        0 <= i < config.alpn_protocols@.len(),
        0 <= k < theirs.len(),
        theirs[k] == config.alpn_protocols@[i]@,
        forall|j: int, n: int|
            #![trigger config.alpn_protocols@[j], theirs[n]]
            0 <= j < i && 0 <= n < theirs.len() ==> config.alpn_protocols@[j]@ != theirs[n],
    ensures
        common_after(config, common, hello).alpn_protocol == Some(config.alpn_protocols@[i]@),
        alpn_reply(config, hello) == seq![
            ServerExtensionView::Protocols(seq![config.alpn_protocols@[i]@]),
        ],
        common_refusal(config, common, hello) == (if common.is_quic() && hello.quic_params() is None {
            Some(
                Refusal {
                    error: ErrorView::PeerMisbehavedError("QUIC transport parameters not found"@),
                    alert: Some(AlertDescription::MissingExtension),
                },
            )
        } else {
            None
        }),
{
    let ours = byte_strings(config.alpn_protocols@);
    assert(ours[i] == theirs[k]);
    assert(among(theirs)(ours[i]));
    assert forall|j: int| 0 <= j < i implies !among(theirs)(#[trigger] ours[j]) by {
        if theirs.contains(ours[j]) {
            let n = choose|n: int| 0 <= n < theirs.len() && theirs[n] == ours[j];
            assert(config.alpn_protocols@[j]@ != theirs[n]);
        }
    }
    find_first_at(ours, among(theirs), i);
}

proof fn first_common(ours: Seq<Vec<u8>>, theirs: Seq<Seq<u8>>, upto: int) -> (i: int)
    requires
        0 <= upto < ours.len(),
        theirs.contains(ours[upto]@),
    ensures
        0 <= i <= upto,
        theirs.contains(ours[i]@),
        forall|j: int| 0 <= j < i ==> !theirs.contains((#[trigger] ours[j])@),
    decreases upto,
{
    if exists|j: int| 0 <= j < upto && theirs.contains((#[trigger] ours[j])@) {
        let j = choose|j: int| 0 <= j < upto && theirs.contains((#[trigger] ours[j])@);
        first_common(ours, theirs, j)
    } else {
        upto
    }
}

/// Where the two sides have a protocol in common and none of the client's is
/// nameless, the hello is not refused for want of a protocol: the connection
/// gets the first of the server's that the client has.
pub proof fn common_protocol_is_found<R>(
    config: ServerConfig<R>,
    common: CommonView,
    hello: ClientHelloPayload,
    theirs: Seq<Seq<u8>>,
    protocol: Seq<u8>,
    a: int,
)
    requires
        hello.protocols() == Some(theirs),
        !theirs.contains(Seq::<u8>::empty()),
        0 <= a < config.alpn_protocols@.len(),
        config.alpn_protocols@[a]@ == protocol,
        theirs.contains(protocol),
    ensures
        common_refusal(config, common, hello) matches Some(refusal) ==> refusal.error
            != ErrorView::NoApplicationProtocol && refusal.alert
            != Some(AlertDescription::NoApplicationProtocol),
        exists|i: int|
            #![trigger config.alpn_protocols@[i]]
            {
                &&& 0 <= i <= a
                &&& theirs.contains(config.alpn_protocols@[i]@)
                &&& forall|j: int|
                    0 <= j < i ==> !theirs.contains((#[trigger] config.alpn_protocols@[j])@)
                &&& common_after(config, common, hello).alpn_protocol == Some(
                    config.alpn_protocols@[i]@,
                )
            },
{
    let ours = config.alpn_protocols@;
    let i = first_common(ours, theirs, a);
    let k = choose|k: int| 0 <= k < theirs.len() && theirs[k] == ours[i]@;
    assert forall|n: int| 0 <= n < theirs.len() implies (#[trigger] theirs[n]).len() > 0 by {
        if theirs[n].len() == 0 {
            assert(theirs[n] =~= Seq::<u8>::empty());
        }
    }
    assert forall|j: int, n: int|
        #![trigger ours[j], theirs[n]]
        0 <= j < i && 0 <= n < theirs.len() implies ours[j]@ != theirs[n] by {
        assert(!theirs.contains(ours[j]@));
    }
    alpn_settles_on_the_servers_first(config, common, hello, theirs, i, k);
    assert(ours[i]@ == theirs[k]);
}

/// A client that offers a protocol without a name, at whatever place of its
/// list, is refused without an alert, and the connection stays as it was.
pub proof fn nameless_protocols_are_refused<R>(
    config: ServerConfig<R>,
    common: CommonView,
    hello: ClientHelloPayload,
    theirs: Seq<Seq<u8>>,
    k: int,
)
    requires
        hello.protocols() == Some(theirs),
        0 <= k < theirs.len(),
        theirs[k].len() == 0,
    ensures
        common_refusal(config, common, hello) == Some(
            Refusal {
                error: ErrorView::PeerMisbehavedError("client offered empty ALPN protocol"@),
                alert: None,
            },
        ),
        common_after(config, common, hello) == common,
        alpn_reply(config, hello) == Seq::<ServerExtensionView>::empty(),
{
    assert(theirs[k] =~= Seq::<u8>::empty());
    assert(theirs.contains(Seq::<u8>::empty()));
}

/// Where both sides use ALPN and have no protocol in common, or only the client
/// uses it and QUIC is strict, the client hears that no protocol is left. With
/// neither, the handshake goes on without a protocol.
pub proof fn no_protocol_in_common<R>(
    config: ServerConfig<R>,
    common: CommonView,
    hello: ClientHelloPayload,
    theirs: Seq<Seq<u8>>,
)
    requires
        hello.protocols() == Some(theirs),
        forall|n: int| 0 <= n < theirs.len() ==> (#[trigger] theirs[n]).len() > 0,
        forall|j: int|
            0 <= j < config.alpn_protocols@.len() ==> !theirs.contains(
                (#[trigger] config.alpn_protocols@[j])@,
            ),
    ensures
        common_after(config, common, hello).alpn_protocol is None,
        alpn_reply(config, hello) == Seq::<ServerExtensionView>::empty(),
        common_refusal(config, common, hello) == (if config.alpn_protocols@.len() > 0
            || common.is_quic() {
            Some(
                Refusal {
                    error: ErrorView::NoApplicationProtocol,
                    alert: Some(AlertDescription::NoApplicationProtocol),
                },
            )
        } else {
            None
        }),
{
    let ours = byte_strings(config.alpn_protocols@);
    assert forall|j: int| 0 <= j < ours.len() implies !among(theirs)(#[trigger] ours[j]) by {
        assert(!theirs.contains(config.alpn_protocols@[j]@));
    }
    find_first_none(ours, among(theirs));
}

/// A hello without ALPN leaves the connection's protocol as it was and gets no
/// protocol in the reply. Only QUIC can refuse it, for want of a protocol where
/// the server uses ALPN, and for want of parameters.
pub proof fn hello_without_alpn<R>(
    config: ServerConfig<R>,
    common: CommonView,
    hello: ClientHelloPayload,
)
    requires
        hello.protocols() is None,
    ensures
        common_after(config, common, hello).alpn_protocol == common.alpn_protocol,
        alpn_reply(config, hello) == Seq::<ServerExtensionView>::empty(),
        common_refusal(config, common, hello) == (if !common.is_quic() {
            None
        } else if config.alpn_protocols@.len() > 0 && common.alpn_protocol is None {
            Some(
                Refusal {
                    error: ErrorView::NoApplicationProtocol,
                    alert: Some(AlertDescription::NoApplicationProtocol),
                },
            )
        } else if hello.quic_params() is None {
            Some(
                Refusal {
                    error: ErrorView::PeerMisbehavedError("QUIC transport parameters not found"@),
                    alert: Some(AlertDescription::MissingExtension),
                },
            )
        } else {
            None
        }),
{
}

/// Answering the extensions changes nothing of the connection but its protocol,
/// over QUIC its parameters, and on a refusal the alerts in line.
pub proof fn answering_leaves_the_rest<R>(
    config: ServerConfig<R>,
    common: CommonView,
    hello: ClientHelloPayload,
)
    ensures
        ({
            let after = common_after(config, common, hello);
            &&& after.negotiated_version == common.negotiated_version
            &&& after.suite == common.suite
            &&& after.aligned_handshake == common.aligned_handshake
            &&& after.protocol == common.protocol
            &&& match common_refusal(config, common, hello) {
                None => after.fatal_alerts == common.fatal_alerts,
                Some(refusal) => match refusal.alert {
                    None => after.fatal_alerts == common.fatal_alerts,
                    Some(desc) => after.fatal_alerts == common.fatal_alerts + seq![desc],
                },
            }
            &&& if common.protocol is Quic && common_refusal(config, common, hello) is None {
                after.quic_params == hello.quic_params()
            } else {
                after.quic_params == common.quic_params
            }
        }),
{
    if let Some(refusal) = common_refusal(config, common, hello) {
        if let Some(desc) = refusal.alert {
            assert(common.fatal_alerts.push(desc) =~= common.fatal_alerts + seq![desc]);
        }
    }
}

// Certificate status, timestamps and host name

/// In a full handshake the reply acknowledges the host name exactly if the
/// client asked for one and, before TLS 1.3, the OCSP response exactly if the
/// client asked for it and there is one, and holds the timestamps exactly if the
/// client asked for them and there are some. It holds nothing else.
pub proof fn certificate_part_of_the_reply(
    tls13: bool,
    hello: ClientHelloPayload,
    for_resume: bool,
    has_ocsp: bool,
    sct_list: Option<&[u8]>,
    ext: ServerExtensionView,
)
    ensures
        certificate_reply(tls13, hello, for_resume, has_ocsp, sct_list).contains(ext) <==> {
            &&& !for_resume
            &&& match ext {
                ServerExtensionView::ServerNameAck => hello.server_names() is Some,
                ServerExtensionView::CertificateStatusAck => hello.offers(
                    ExtensionType::StatusRequest,
                ) && has_ocsp && !tls13,
                ServerExtensionView::SignedCertificateTimestamp(list) => hello.offers(
                    ExtensionType::SCT,
                ) && !tls13 && sct_list is Some && sct_list->0@ == list,
                _ => false,
            }
        },
{
    let reply = certificate_reply(tls13, hello, for_resume, has_ocsp, sct_list);
    if !for_resume {
        let names = reply_if(hello.server_names() is Some, ServerExtensionView::ServerNameAck);
        let ocsp = reply_if(
            hello.offers(ExtensionType::StatusRequest) && has_ocsp && !tls13,
            ServerExtensionView::CertificateStatusAck,
        );
        if hello.server_names() is Some {
            assert(reply[0] == ServerExtensionView::ServerNameAck);
        }
        if hello.offers(ExtensionType::StatusRequest) && has_ocsp && !tls13 {
            assert(reply[names.len() as int] == ServerExtensionView::CertificateStatusAck);
        }
        if hello.offers(ExtensionType::SCT) && !tls13 && sct_list is Some {
            assert(reply[(names + ocsp).len() as int]
                == ServerExtensionView::SignedCertificateTimestamp(sct_list->0@));
        }
    }
}

/// The part of the reply that comes with the certificate has each extension once
/// at most, in the same order for every version.
pub proof fn certificate_part_is_in_order(
    tls13: bool,
    hello: ClientHelloPayload,
    for_resume: bool,
    has_ocsp: bool,
    sct_list: Option<&[u8]>,
    i: int,
    j: int,
)
    requires
        0 <= i < j < certificate_reply(tls13, hello, for_resume, has_ocsp, sct_list).len(),
    ensures
        ({
            let reply = certificate_reply(tls13, hello, for_resume, has_ocsp, sct_list);
            ||| reply[i] is ServerNameAck && reply[j] is CertificateStatusAck
            ||| reply[i] is ServerNameAck && reply[j] is SignedCertificateTimestamp
            ||| reply[i] is CertificateStatusAck && reply[j] is SignedCertificateTimestamp
        }),
{
}

/// An OCSP response is kept for later exactly if the handshake is a full one and
/// the client asked for it, under every version, and then it is kept as it is.
pub proof fn ocsp_response_is_kept<'a>(
    hello: ClientHelloPayload,
    for_resume: bool,
    ocsp: Option<&'a [u8]>,
)
    ensures
        !for_resume && hello.offers(ExtensionType::StatusRequest) ==> ocsp_later(
            hello,
            for_resume,
            ocsp,
        ) == ocsp,
        for_resume || !hello.offers(ExtensionType::StatusRequest) ==> ocsp_later(
            hello,
            for_resume,
            ocsp,
        ) is None,
{
}

/// Timestamps are kept for later exactly if the handshake is a full one of
/// TLS 1.3 and the client asked for them, and then they are kept as they are.
pub proof fn timestamps_are_kept<'a>(
    tls13: bool,
    hello: ClientHelloPayload,
    for_resume: bool,
    sct_list: Option<&'a [u8]>,
)
    ensures
        tls13 && !for_resume && hello.offers(ExtensionType::SCT) ==> sct_later(
            tls13,
            hello,
            for_resume,
            sct_list,
        ) == sct_list,
        !tls13 || for_resume || !hello.offers(ExtensionType::SCT) ==> sct_later(
            tls13,
            hello,
            for_resume,
            sct_list,
        ) is None,
{
}

// TLS 1.2

/// A client understands secure renegotiation if it sends the extension, or the
/// suite that stands for it at whatever place of its list.
pub proof fn secure_renegotiation_is_offered_in_two_ways(hello: ClientHelloPayload)
    ensures
        offers_secure_renegotiation(hello) <==> hello.offers(ExtensionType::RenegotiationInfo)
            || exists|k: int|
            0 <= k < hello.cipher_suites@.len() && #[trigger] hello.cipher_suites@[k]
                == CipherSuite::TLS_EMPTY_RENEGOTIATION_INFO_SCSV,
{
}

/// The part of the reply for TLS 1.2 acknowledges secure renegotiation exactly
/// if the client understands it, a ticket exactly if the client asked for one
/// and the server makes them, and the extended master secret exactly if it is
/// used. It holds nothing else.
pub proof fn tls12_part_of_the_reply<R>(
    config: ServerConfig<R>,
    hello: ClientHelloPayload,
    using_ems: bool,
    ext: ServerExtensionView,
)
    ensures
        gets_ticket(config, hello) <==> hello.offers(ExtensionType::SessionTicket)
            && config.ticketer_enabled,
        tls12_reply(config, hello, using_ems).contains(ext) <==> match ext {
            ServerExtensionView::RenegotiationInfo(bytes) => bytes.len() == 0 && (hello.offers(
                ExtensionType::RenegotiationInfo,
            ) || hello.cipher_suites@.contains(CipherSuite::TLS_EMPTY_RENEGOTIATION_INFO_SCSV)),
            ServerExtensionView::SessionTicketAck => hello.offers(ExtensionType::SessionTicket)
                && config.ticketer_enabled,
            ServerExtensionView::ExtendedMasterSecretAck => using_ems,
            _ => false,
        },
{
    let reply = tls12_reply(config, hello, using_ems);
    let reneg = reply_if(
        offers_secure_renegotiation(hello),
        ServerExtensionView::RenegotiationInfo(Seq::<u8>::empty()),
    );
    let ticket = reply_if(gets_ticket(config, hello), ServerExtensionView::SessionTicketAck);
    if let ServerExtensionView::RenegotiationInfo(bytes) = ext {
        if bytes.len() == 0 {
            assert(bytes =~= Seq::<u8>::empty());
        }
    }
    if offers_secure_renegotiation(hello) {
        assert(reply[0] == ServerExtensionView::RenegotiationInfo(Seq::<u8>::empty()));
    }
    if gets_ticket(config, hello) {
        assert(reply[reneg.len() as int] == ServerExtensionView::SessionTicketAck);
    }
    if using_ems {
        assert(reply[(reneg + ticket).len() as int] == ServerExtensionView::ExtendedMasterSecretAck);
    }
}

/// The part of the reply for TLS 1.2 has each extension once at most, in the
/// same order.
pub proof fn tls12_part_is_in_order<R>(
    config: ServerConfig<R>,
    hello: ClientHelloPayload,
    using_ems: bool,
    i: int,
    j: int,
)
    requires
        0 <= i < j < tls12_reply(config, hello, using_ems).len(),
    ensures
        ({
            let reply = tls12_reply(config, hello, using_ems);
            ||| reply[i] is RenegotiationInfo && reply[j] is SessionTicketAck
            ||| reply[i] is RenegotiationInfo && reply[j] is ExtendedMasterSecretAck
            ||| reply[i] is SessionTicketAck && reply[j] is ExtendedMasterSecretAck
        }),
{
}

} // verus!
