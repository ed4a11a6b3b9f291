//! The extensions with which the server answers a `ClientHello`.
use vstd::prelude::*;

use crate::conn::{CommonView, ServerContext};
use crate::enums::{AlertDescription, CipherSuite, ExtensionType};
use crate::error::{Error, ErrorView, Refusal};
use crate::msgs::{ext_views, ClientHelloPayload, ServerExtension, ServerExtensionView};
use crate::seqs::{
    byte_strings, copy_bytes, find_first, find_first_at, find_first_none, holds_bytes,
};
use crate::server::{ServerConfig, ServerSessionValue};
use crate::suites::holds_suite;

verus! {

/// The extensions of the reply as they come together.
pub struct ExtensionProcessing {
    /// Extensions to reply with.
    pub exts: Vec<ServerExtension>,
    /// Whether the client is to be given a session ticket.
    pub send_ticket: bool,
}

/// The protocols that are in a client's list.
pub open spec fn among(theirs: Seq<Seq<u8>>) -> spec_fn(Seq<u8>) -> bool {
    |protocol: Seq<u8>| theirs.contains(protocol)
}

/// The first of our protocols that is among theirs.
pub open spec fn common_protocol(ours: Seq<Seq<u8>>, theirs: Seq<Seq<u8>>) -> Option<Seq<u8>> {
    find_first(ours, among(theirs))
}

/// Whether the client offers a protocol without a name.
pub open spec fn offers_nameless_protocol(hello: ClientHelloPayload) -> bool {
    hello.protocols() matches Some(theirs) && theirs.contains(Seq::<u8>::empty())
}

/// The protocol that ALPN settles on with this hello.
pub open spec fn selected_protocol<R>(
    config: ServerConfig<R>,
    hello: ClientHelloPayload,
) -> Option<Seq<u8>> {
    match hello.protocols() {
        Some(theirs) => common_protocol(byte_strings(config.alpn_protocols@), theirs),
        None => None,
    }
}

/// The connection's protocol once this hello's ALPN extension has been heeded.
pub open spec fn protocol_after<R>(
    config: ServerConfig<R>,
    common: CommonView,
    hello: ClientHelloPayload,
) -> Option<Seq<u8>> {
    if hello.protocols() is None || offers_nameless_protocol(hello) {
        common.alpn_protocol
    } else {
        selected_protocol(config, hello)
    }
}

/// Why a hello is refused for its ALPN extension or its QUIC transport
/// parameters, if it is.
pub open spec fn common_refusal<R>(
    config: ServerConfig<R>,
    common: CommonView,
    hello: ClientHelloPayload,
) -> Option<Refusal> {
    let no_protocol = Refusal {
        error: ErrorView::NoApplicationProtocol,
        alert: Some(AlertDescription::NoApplicationProtocol),
    };
    let we_use_alpn = config.alpn_protocols@.len() > 0;
    let they_use_alpn = hello.protocols() is Some;
    if offers_nameless_protocol(hello) {
        Some(
            Refusal {
                error: ErrorView::PeerMisbehavedError("client offered empty ALPN protocol"@),
                alert: None,
            },
        )
    } else if we_use_alpn && they_use_alpn && selected_protocol(config, hello) is None {
        Some(no_protocol)
    } else if common.is_quic() && (we_use_alpn || they_use_alpn) && protocol_after(
        config,
        common,
        hello,
    ) is None {
        Some(no_protocol)
    } else if common.is_quic() && hello.quic_params() is None {
        Some(
            Refusal {
                error: ErrorView::PeerMisbehavedError("QUIC transport parameters not found"@),
                alert: Some(AlertDescription::MissingExtension),
            },
        )
    } else {
        None
    }
}

/// The connection after a hello's ALPN extension and QUIC transport parameters.
pub open spec fn common_after<R>(
    config: ServerConfig<R>,
    common: CommonView,
    hello: ClientHelloPayload,
) -> CommonView {
    let settled = CommonView { alpn_protocol: protocol_after(config, common, hello), ..common };
    match common_refusal(config, common, hello) {
        Some(refusal) => settled.alerted(refusal.alert),
        None => if common.is_quic() {
            CommonView { quic_params: hello.quic_params(), ..settled }
        } else {
            settled
        },
    }
}

/// The ALPN part of the reply.
pub open spec fn alpn_reply<R>(
    config: ServerConfig<R>,
    hello: ClientHelloPayload,
) -> Seq<ServerExtensionView> {
    match selected_protocol(config, hello) {
        Some(protocol) if !offers_nameless_protocol(hello) => seq![
            ServerExtensionView::Protocols(seq![protocol]),
        ],
        _ => seq![],
    }
}

/// One extension, on a condition.
pub open spec fn reply_if(cond: bool, ext: ServerExtensionView) -> Seq<ServerExtensionView> {
    if cond {
        seq![ext]
    } else {
        seq![]
    }
}

/// The part of the reply that only a full handshake has: the acknowledgement of
/// the host name and, before TLS 1.3, that of the OCSP response and the
/// certificate timestamps.
pub open spec fn certificate_reply(
    tls13: bool,
    hello: ClientHelloPayload,
    for_resume: bool,
    has_ocsp: bool,
    sct_list: Option<&[u8]>,
) -> Seq<ServerExtensionView> {
    if for_resume {
        seq![]
    } else {
        reply_if(hello.server_names() is Some, ServerExtensionView::ServerNameAck) + reply_if(
            hello.offers(ExtensionType::StatusRequest) && has_ocsp && !tls13,
            ServerExtensionView::CertificateStatusAck,
        ) + match sct_list {
            Some(list) => reply_if(
                hello.offers(ExtensionType::SCT) && !tls13,
                ServerExtensionView::SignedCertificateTimestamp(list@),
            ),
            None => seq![],
        }
    }
}

/// The OCSP response that is still to be sent later.
pub open spec fn ocsp_later<'a>(
    hello: ClientHelloPayload,
    for_resume: bool,
    ocsp: Option<&'a [u8]>,
) -> Option<&'a [u8]> {
    if !for_resume && hello.offers(ExtensionType::StatusRequest) {
        ocsp
    } else {
        None
    }
}

/// The certificate timestamps that are still to be sent later.
pub open spec fn sct_later<'a>(
    tls13: bool,
    hello: ClientHelloPayload,
    for_resume: bool,
    sct_list: Option<&'a [u8]>,
) -> Option<&'a [u8]> {
    if !for_resume && hello.offers(ExtensionType::SCT) && tls13 {
        sct_list
    } else {
        None
    }
}

/// Whether the client understands secure renegotiation.
pub open spec fn offers_secure_renegotiation(hello: ClientHelloPayload) -> bool {
    hello.offers(ExtensionType::RenegotiationInfo) || hello.cipher_suites@.contains(
        CipherSuite::TLS_EMPTY_RENEGOTIATION_INFO_SCSV,
    )
}

/// Whether the client is given a session ticket.
pub open spec fn gets_ticket<R>(config: ServerConfig<R>, hello: ClientHelloPayload) -> bool {
    hello.offers(ExtensionType::SessionTicket) && config.ticketer_enabled
}

/// The part of the reply that only TLS 1.2 has.
pub open spec fn tls12_reply<R>(
    config: ServerConfig<R>,
    hello: ClientHelloPayload,
    using_ems: bool,
) -> Seq<ServerExtensionView> {
    reply_if(
        offers_secure_renegotiation(hello),
        ServerExtensionView::RenegotiationInfo(Seq::<u8>::empty()),
    ) + reply_if(gets_ticket(config, hello), ServerExtensionView::SessionTicketAck) + reply_if(
        using_ems,
        ServerExtensionView::ExtendedMasterSecretAck,
    )
}

/// Adding an extension at the end.
proof fn push_view(exts: Seq<ServerExtension>, ext: ServerExtension)
    ensures
        ext_views(exts.push(ext)) == ext_views(exts).push(ext@),
{
    assert(ext_views(exts.push(ext)) =~= ext_views(exts).push(ext@));
}

/// The first of our protocols that is among theirs.
fn find_protocol(ours: &Vec<Vec<u8>>, theirs: &Vec<Vec<u8>>) -> (found: Option<Vec<u8>>)
    ensures
        match found {
            Some(protocol) => common_protocol(byte_strings(ours@), byte_strings(theirs@)) == Some(
                protocol@,
            ),
            None => common_protocol(byte_strings(ours@), byte_strings(theirs@)) is None,
        },
{
    let ghost names = byte_strings(ours@);
    let ghost offered = among(byte_strings(theirs@));
    let mut i: usize = 0;
    while i < ours.len()
        invariant
            i <= ours@.len(),
            names == byte_strings(ours@),
            offered == among(byte_strings(theirs@)),
            forall|j: int| 0 <= j < i ==> !offered(#[trigger] names[j]),
        decreases ours@.len() - i,
    {
        if holds_bytes(theirs, &ours[i]) {
            proof {
                assert(offered(names[i as int]));
                find_first_at(names, offered, i as int);
            }
            return Some(copy_bytes(&ours[i]));
        }
        assert(!offered(names[i as int]));
        i = i + 1;
    }
    proof {
        find_first_none(names, offered);
    }
    None
}

/// Whether one of the protocols has no name.
fn has_nameless(protocols: &Vec<Vec<u8>>) -> (found: bool)
    ensures
        found == byte_strings(protocols@).contains(Seq::<u8>::empty()),
{
    let nameless: Vec<u8> = Vec::new();
    holds_bytes(protocols, &nameless)
}

impl Default for ExtensionProcessing {
    fn default() -> (processing: ExtensionProcessing)
        ensures
            processing.exts@ == Seq::<ServerExtension>::empty(),
            !processing.send_ticket,
    {
        ExtensionProcessing { exts: Vec::new(), send_ticket: false }
    }
}

impl ExtensionProcessing {
    /// An empty reply.
    pub fn new() -> (processing: ExtensionProcessing)
        ensures
            processing.exts@ == Seq::<ServerExtension>::empty(),
            !processing.send_ticket,
    {
        ExtensionProcessing::default()
    }

    /// Answers the extensions that every version has.
    ///
    /// `ocsp_response` and `sct_list` hold what the certificate comes with, and
    /// keep of it what is still to be sent with the certificate.
    pub fn process_common<R>(
        &mut self,
        config: &ServerConfig<R>,
        cx: &mut ServerContext,
        ocsp_response: &mut Option<&[u8]>,
        sct_list: &mut Option<&[u8]>,
        hello: &ClientHelloPayload,
        resumedata: Option<&ServerSessionValue>,
        extra_exts: Vec<ServerExtension>,
    ) -> (processed: Result<(), Error>)
        ensures
            match (processed, common_refusal(*config, old(cx).common@, *hello)) {
                (Ok(_), None) => {
                    &&& ext_views(final(self).exts@) == ext_views(old(self).exts@) + alpn_reply(
                        *config,
                        *hello,
                    ) + certificate_reply(
                        old(cx).common@.is_tls13(),
                        *hello,
                        resumedata is Some,
                        *old(ocsp_response) is Some,
                        *old(sct_list),
                    ) + ext_views(extra_exts@)
                    &&& *final(ocsp_response) == ocsp_later(
                        *hello,
                        resumedata is Some,
                        *old(ocsp_response),
                    )
                    &&& *final(sct_list) == sct_later(
                        old(cx).common@.is_tls13(),
                        *hello,
                        resumedata is Some,
                        *old(sct_list),
                    )
                },
                (Err(error), Some(refusal)) => {
                    &&& error@ == refusal.error
                    &&& ext_views(final(self).exts@) == ext_views(old(self).exts@) + alpn_reply(
                        *config,
                        *hello,
                    )
                    &&& *final(ocsp_response) == *old(ocsp_response)
                    &&& *final(sct_list) == *old(sct_list)
                },
                _ => false,
            },
            final(cx).common@ == common_after(*config, old(cx).common@, *hello),
            final(cx).data == old(cx).data,
            final(self).send_ticket == old(self).send_ticket,
    {
        let ghost exts0 = ext_views(self.exts@);
        let ghost common0 = cx.common@;
        let ghost tls13 = cx.common@.is_tls13();

        // ALPN
        let our_protocols = &config.alpn_protocols;
        let maybe_their_protocols = hello.get_alpn_extension();
        if let Some(their_protocols) = maybe_their_protocols {
            if has_nameless(their_protocols) {
                assert(ext_views(self.exts@) =~= exts0 + alpn_reply(*config, *hello));
                return Err(
                    Error::PeerMisbehavedError("client offered empty ALPN protocol".to_string()),
                );
            }
            let selected = find_protocol(our_protocols, their_protocols);
            if let Some(protocol) = &selected {
                let ext = ServerExtension::make_alpn(protocol);
                proof {
                    push_view(self.exts@, ext);
                }
                self.exts.push(ext);
            }
            let none: bool = selected.is_none();
            cx.common.alpn_protocol = selected;
            if none && our_protocols.len() > 0 {
                cx.common.send_fatal_alert(AlertDescription::NoApplicationProtocol);
                assert(ext_views(self.exts@) =~= exts0 + alpn_reply(*config, *hello));
                return Err(Error::NoApplicationProtocol);
            }
        }
        assert(ext_views(self.exts@) =~= exts0 + alpn_reply(*config, *hello));
        assert(cx.common@ == CommonView {
            alpn_protocol: protocol_after(*config, common0, *hello),
            ..common0
        });

        if cx.common.is_quic() {
            // QUIC has strict ALPN, unlike TLS's more backwards-compatible behavior. RFC 9001
            // says: "The server MUST treat the inability to select a compatible application
            // protocol as a connection error of type 0x0178". ALPN is taken to be wanted iff any
            // protocols were configured locally or offered by the client. This helps prevent
            // successful establishment of connections between peers that can't understand
            // each other.
            if cx.common.alpn_protocol.is_none() && (our_protocols.len() > 0
                || maybe_their_protocols.is_some()) {
                cx.common.send_fatal_alert(AlertDescription::NoApplicationProtocol);
                return Err(Error::NoApplicationProtocol);
            }
            match hello.get_quic_params_extension() {
                Some(params) => {
                    cx.common.quic.params = Some(params);
                },
                None => {
                    return Err(cx.common.missing_extension("QUIC transport parameters not found"));
                },
            }
        }
        let for_resume: bool = resumedata.is_some();
        let ghost exts1 = ext_views(self.exts@);
        let ghost sct0 = *sct_list;
        let ghost ocsp0 = ocsp_response.is_some();

        // SNI
        if !for_resume && hello.get_sni_extension().is_some() {
            proof {
                push_view(self.exts@, ServerExtension::ServerNameAck);
            }
            self.exts.push(ServerExtension::ServerNameAck);
        }

        // Send status_request response if we have one.  This is not allowed
        // if we're resuming, and is only triggered if we have an OCSP response
        // to send.
        if !for_resume && hello.find_extension(ExtensionType::StatusRequest).is_some() {
            if ocsp_response.is_some() && !cx.common.is_tls13() {
                // Only TLS1.2 sends confirmation in ServerHello
                proof {
                    push_view(self.exts@, ServerExtension::CertificateStatusAck);
                }
                self.exts.push(ServerExtension::CertificateStatusAck);
            }
        } else {
            // Throw away any OCSP response so we don't try to send it later.
            let _ = ocsp_response.take();
        }

        if !for_resume && hello.find_extension(ExtensionType::SCT).is_some() {
            if !cx.common.is_tls13() {
                // Take the SCT list, if any, so we don't send it later,
                // and put it in the legacy extension.
                if let Some(list) = sct_list.take() {
                    let ext = ServerExtension::make_sct(vstd::slice::slice_to_vec(list));
                    proof {
                        push_view(self.exts@, ext);
                    }
                    self.exts.push(ext);
                }
            }
        } else {
            // Throw away any SCT list so we don't send it later.
            let _ = sct_list.take();
        }
        let ghost exts2 = self.exts@;
        assert(ext_views(exts2) =~= exts1 + certificate_reply(
            tls13,
            *hello,
            for_resume,
            ocsp0,
            sct0,
        ));

        let mut extra_exts = extra_exts;
        let ghost extra = extra_exts@;
        self.exts.append(&mut extra_exts);
        assert(ext_views(self.exts@) =~= ext_views(exts2) + ext_views(extra));
        Ok(())
    }

    /// Answers the extensions that only TLS 1.2 has.
    pub fn process_tls12<R>(
        &mut self,
        config: &ServerConfig<R>,
        hello: &ClientHelloPayload,
        using_ems: bool,
    )
        ensures
            ext_views(final(self).exts@) == ext_views(old(self).exts@) + tls12_reply(
                *config,
                *hello,
                using_ems,
            ),
            final(self).send_ticket == (old(self).send_ticket || gets_ticket(*config, *hello)),
    {
        let ghost exts0 = ext_views(self.exts@);

        // Renegotiation.
        // (We don't do reneg at all, but would support the secure version if we did.)
        let secure_reneg_offered: bool = hello.find_extension(
            ExtensionType::RenegotiationInfo,
        ).is_some() || holds_suite(
            &hello.cipher_suites,
            CipherSuite::TLS_EMPTY_RENEGOTIATION_INFO_SCSV,
        );
        if secure_reneg_offered {
            let ext = ServerExtension::make_empty_renegotiation_info();
            proof {
                push_view(self.exts@, ext);
            }
            self.exts.push(ext);
        }

        // Tickets:
        // If we get any SessionTicket extension and have tickets enabled,
        // we send an ack.
        if hello.find_extension(ExtensionType::SessionTicket).is_some() && config.ticketer_enabled {
            self.send_ticket = true;
            proof {
                push_view(self.exts@, ServerExtension::SessionTicketAck);
            }
            self.exts.push(ServerExtension::SessionTicketAck);
        }

        // Confirm use of EMS if offered.
        if using_ems {
            proof {
                push_view(self.exts@, ServerExtension::ExtendedMasterSecretAck);
            }
            self.exts.push(ServerExtension::ExtendedMasterSecretAck);
        }
        assert(ext_views(self.exts@) =~= exts0 + tls12_reply(*config, *hello, using_ems));
    }
}

} // verus!
