//! The part of handling a `ClientHello` that does not depend on the server's
//! configuration.
use vstd::prelude::*;

use crate::conn::{unaligned, CommonState, CommonView, DataView, ServerConnectionData};
use crate::dns::{opt_text, same_name, DnsName};
use crate::enums::{AlertDescription, Compression, SignatureScheme};
use crate::error::{Error, ErrorView, Refusal};
use crate::fingerprint::{fingerprint, fingerprint_text};
use crate::hs::{decode_error, illegal, incompatible, not_compatible, not_decodable};
use crate::msgs::{
    get_single_hostname, has_duplicate_names_for_type, repeats_name_type, single_hostname,
    ClientHelloPayload, Message,
};
use crate::seqs::filter_step;
use crate::suites::{
    compatible_sigscheme_for_suites, offered_in, reduce_to_offered, scheme_fits,
    SupportedCipherSuite,
};

verus! {

/// The host name that a hello asks for.
pub open spec fn requested_name(hello: ClientHelloPayload) -> Option<Seq<char>> {
    match hello.server_names() {
        Some(names) => single_hostname(names),
        None => None,
    }
}

/// Why a message is refused for its form, if it is.
pub open spec fn form_refusal(m: Message, aligned: bool) -> Option<Refusal> {
    match m.client_hello() {
        None => Some(Refusal { error: m.inappropriate(), alert: None }),
        Some(hello) => if !hello.compression_methods@.contains(Compression::Null) {
            Some(
                Refusal {
                    error: ErrorView::PeerIncompatibleError(
                        "client did not offer Null compression"@,
                    ),
                    alert: Some(AlertDescription::IllegalParameter),
                },
            )
        } else if hello.repeats_extension() {
            Some(not_decodable("client sent duplicate extensions"@))
        } else if !aligned {
            Some(unaligned())
        } else {
            match hello.server_names() {
                Some(names) => if repeats_name_type(names) {
                    Some(not_decodable("ClientHello SNI contains duplicate name types"@))
                } else if single_hostname(names) is None {
                    Some(illegal("ClientHello SNI did not contain a hostname"@))
                } else {
                    None
                },
                None => None,
            }
        },
    }
}

/// Whether a hello's host name is kept for the connection: it is the first
/// hello, and has one.
pub open spec fn keeps_name(name: Option<Seq<char>>, done_retry: bool) -> bool {
    name is Some && !done_retry
}

/// The connection's host name after a hello that asks for `name`.
pub open spec fn sni_after(
    name: Option<Seq<char>>,
    done_retry: bool,
    sni: Option<Seq<char>>,
) -> Option<Seq<char>> {
    if keeps_name(name, done_retry) {
        name
    } else {
        sni
    }
}

/// Why a well-formed hello that asks for `name` is refused, if it is.
pub open spec fn content_refusal(
    hello: ClientHelloPayload,
    name: Option<Seq<char>>,
    done_retry: bool,
    sni: Option<Seq<char>>,
) -> Option<Refusal> {
    if !keeps_name(name, done_retry) && sni != name {
        Some(
            Refusal {
                error: ErrorView::PeerIncompatibleError("SNI differed on retry"@),
                alert: None,
            },
        )
    } else if hello.signature_schemes() is None {
        Some(not_compatible("client didn't describe signature schemes"@))
    } else {
        None
    }
}

/// The signature schemes that fit one of `suites`.
pub open spec fn fitting(suites: Seq<SupportedCipherSuite>) -> spec_fn(SignatureScheme) -> bool {
    |scheme: SignatureScheme| scheme_fits(scheme, suites)
}

/// The signature schemes of a client that fit a cipher suite of both sides, in
/// the client's order.
pub open spec fn fitting_schemes(
    hello: ClientHelloPayload,
    supported: Seq<SupportedCipherSuite>,
) -> Seq<SignatureScheme> {
    match hello.signature_schemes() {
        Some(schemes) => schemes.filter(
            fitting(supported.filter(offered_in(hello.cipher_suites@))),
        ),
        None => seq![],
    }
}

/// Why a message is refused before the server's configuration comes in, if it is.
pub open spec fn hello_refusal(
    m: Message,
    done_retry: bool,
    common: CommonView,
    data: DataView,
) -> Option<Refusal> {
    match form_refusal(m, common.aligned_handshake) {
        Some(refusal) => Some(refusal),
        None => {
            let hello = m.client_hello()->0;
            content_refusal(hello, requested_name(hello), done_retry, data.sni)
        },
    }
}

/// What is known of the client after a message that may have been refused.
pub open spec fn data_after(
    m: Message,
    done_retry: bool,
    common: CommonView,
    data: DataView,
) -> DataView {
    match form_refusal(m, common.aligned_handshake) {
        Some(_) => data,
        None => DataView {
            sni: sni_after(requested_name(m.client_hello()->0), done_retry, data.sni),
            ..data
        },
    }
}

/// Whether a well-formed first hello asks for a host name where one is kept already.
pub open spec fn sets_name_twice(
    m: Message,
    done_retry: bool,
    common: CommonView,
    data: DataView,
) -> bool {
    &&& form_refusal(m, common.aligned_handshake) is None
    &&& keeps_name(requested_name(m.client_hello()->0), done_retry)
    &&& data.sni is Some
}

/// Whether `methods` holds the null method.
fn offers_null(methods: &Vec<Compression>) -> (found: bool)
    ensures
        found == methods@.contains(Compression::Null),
{
    let mut i: usize = 0;
    while i < methods.len()
        invariant
            i <= methods@.len(),
            forall|j: int| 0 <= j < i ==> methods@[j] != Compression::Null,
        decreases methods@.len() - i,
    {
        if methods[i] == Compression::Null {
            assert(methods@[i as int] == Compression::Null);
            return true;
        }
        i = i + 1;
    }
    false
}

/// The schemes of `schemes` that fit one of `suites`, in order.
fn retain_fitting(
    schemes: &Vec<SignatureScheme>,
    suites: &Vec<SupportedCipherSuite>,
) -> (kept: Vec<SignatureScheme>)
    ensures
        kept@ == schemes@.filter(fitting(suites@)),
{
    let mut kept: Vec<SignatureScheme> = Vec::new();
    let mut i: usize = 0;
    proof {
        reveal(Seq::filter);
        assert(schemes@.take(0) =~= Seq::empty());
    }
    while i < schemes.len()
        invariant
            i <= schemes@.len(),
            kept@ == schemes@.take(i as int).filter(fitting(suites@)),
        decreases schemes@.len() - i,
    {
        proof {
            filter_step(schemes@, fitting(suites@), i as int);
        }
        let scheme = schemes[i];
        if compatible_sigscheme_for_suites(scheme, suites) {
            kept.push(scheme);
        }
        i = i + 1;
    }
    assert(schemes@.take(schemes@.len() as int) =~= schemes@);
    kept
}

/// Holds a message to the form of a `ClientHello`, and gives the hello together
/// with the host name that it asks for.
pub fn check_client_hello<'a>(m: &'a Message, common: &mut CommonState) -> (checked: Result<
    (&'a ClientHelloPayload, Option<DnsName>),
    Error,
>)
    ensures
        match (checked, form_refusal(*m, old(common).aligned_handshake)) {
            (Ok((hello, name)), None) => {
                &&& m.client_hello() == Some(*hello)
                &&& opt_text(name) == requested_name(*hello)
                &&& final(common)@ == old(common)@
            },
            (Err(error), Some(refusal)) => {
                &&& error@ == refusal.error
                &&& final(common)@ == old(common)@.alerted(refusal.alert)
            },
            _ => false,
        },
{
    let client_hello = match m.require_client_hello() {
        Ok(hello) => hello,
        Err(error) => {
            return Err(error);
        },
    };

    if !offers_null(&client_hello.compression_methods) {
        common.send_fatal_alert(AlertDescription::IllegalParameter);
        return Err(
            Error::PeerIncompatibleError("client did not offer Null compression".to_string()),
        );
    }
    if client_hello.has_duplicate_extension() {
        return Err(decode_error(common, "client sent duplicate extensions"));
    }

    // No handshake messages should follow this one in this flight.
    if let Err(error) = common.check_aligned_handshake() {
        return Err(error);
    }

    // Extract and validate the SNI DNS name, if any, before giving it to
    // the cert resolver. In particular, if it is invalid then we should
    // send an Illegal Parameter alert instead of the Internal Error alert
    // (or whatever) that we'd send if this were checked later or in a
    // different way.
    let sni: Option<DnsName> = match client_hello.get_sni_extension() {
        Some(names) => {
            if has_duplicate_names_for_type(names) {
                return Err(
                    decode_error(common, "ClientHello SNI contains duplicate name types"),
                );
            }
            match get_single_hostname(names) {
                Some(hostname) => Some(hostname),
                None => {
                    return Err(common.illegal_param("ClientHello SNI did not contain a hostname"));
                },
            }
        },
        None => None,
    };
    Ok((client_hello, sni))
}

/// Takes in a well-formed hello that asks for the host name `sni`: keeps the
/// name, and gives the signature schemes to choose a certificate by and the
/// client's fingerprint.
///
/// This keeps the name even if the hello is refused afterwards.
pub fn accept_client_hello(
    client_hello: &ClientHelloPayload,
    sni: Option<DnsName>,
    done_retry: bool,
    supported_cipher_suites: &[SupportedCipherSuite],
    common: &mut CommonState,
    data: &mut ServerConnectionData,
) -> (accepted: Result<(Vec<SignatureScheme>, String), Error>)
    requires
        !(keeps_name(opt_text(sni), done_retry) && old(data).sni is Some),
    ensures
        match (
            accepted,
            content_refusal(*client_hello, opt_text(sni), done_retry, old(data)@.sni),
        ) {
            (Ok((schemes, text)), None) => {
                &&& schemes@ == fitting_schemes(*client_hello, supported_cipher_suites@)
                &&& text@ == fingerprint_text(*client_hello)
                &&& final(common)@ == old(common)@
            },
            (Err(error), Some(refusal)) => {
                &&& error@ == refusal.error
                &&& final(common)@ == old(common)@.alerted(refusal.alert)
            },
            _ => false,
        },
        final(data)@ == (DataView {
            sni: sni_after(opt_text(sni), done_retry, old(data)@.sni),
            ..old(data)@
        }),
{
    // save only the first SNI
    if sni.is_some() && !done_retry {
        // Save the SNI into the session.
        // The SNI hostname is immutable once set.
        data.sni = sni;
    } else if !same_name(&data.sni, &sni) {
        return Err(Error::PeerIncompatibleError("SNI differed on retry".to_string()));
    }

    // We communicate to the upper layer what kind of key they should choose
    // via the sigschemes value.  Clients tend to treat this extension
    // orthogonally to offered ciphersuites (even though, in TLS1.2 it is not).
    // So: reduce the offered sigschemes to those compatible with the
    // intersection of ciphersuites.
    let client_suites = reduce_to_offered(supported_cipher_suites, &client_hello.cipher_suites);

    let sig_schemes = match client_hello.get_sigalgs_extension() {
        Some(schemes) => retain_fitting(schemes, &client_suites),
        None => {
            return Err(incompatible(common, "client didn't describe signature schemes"));
        },
    };
    Ok((sig_schemes, fingerprint(client_hello)))
}

/// Configuration-independent validation of a `ClientHello` message.
///
/// This represents the first part of the `ClientHello` handling, where we do all validation that
/// doesn't depend on a `ServerConfig` being available and extract everything needed to build a
/// `ClientHello` value for a `ResolvesServerCert`.
///
/// Note that this will modify `data.sni` even if config or certificate resolution fail.
pub fn process_client_hello<'a>(
    m: &'a Message,
    done_retry: bool,
    supported_cipher_suites: &[SupportedCipherSuite],
    common: &mut CommonState,
    data: &mut ServerConnectionData,
) -> (processed: Result<(&'a ClientHelloPayload, Vec<SignatureScheme>, String), Error>)
    requires
        !sets_name_twice(*m, done_retry, old(common)@, old(data)@),
    ensures
        match (processed, hello_refusal(*m, done_retry, old(common)@, old(data)@)) {
            (Ok((hello, schemes, text)), None) => {
                &&& m.client_hello() == Some(*hello)
                &&& schemes@ == fitting_schemes(*hello, supported_cipher_suites@)
                &&& text@ == fingerprint_text(*hello)
                &&& final(common)@ == old(common)@
            },
            (Err(error), Some(refusal)) => {
                &&& error@ == refusal.error
                &&& final(common)@ == old(common)@.alerted(refusal.alert)
            },
            _ => false,
        },
        final(data)@ == data_after(*m, done_retry, old(common)@, old(data)@),
{
    let (client_hello, sni) = match check_client_hello(m, common) {
        Ok(checked) => checked,
        Err(error) => {
            return Err(error);
        },
    };
    match accept_client_hello(client_hello, sni, done_retry, supported_cipher_suites, common, data) {
        Ok((sig_schemes, text)) => Ok((client_hello, sig_schemes, text)),
        Err(error) => Err(error),
    }
}

/// Whether a well-formed first hello asks for a host name where one is kept already.
pub fn would_set_name_twice(
    m: &Message,
    done_retry: bool,
    common: &CommonState,
    data: &ServerConnectionData,
) -> (twice: bool)
    ensures
        twice == sets_name_twice(*m, done_retry, common@, data@),
{
    if done_retry || data.sni.is_none() {
        return false;
    }
    match m.require_client_hello() {
        Ok(hello) => {
            if !offers_null(&hello.compression_methods) || hello.has_duplicate_extension()
                || !common.aligned_handshake {
                return false;
            }
            match hello.get_sni_extension() {
                Some(names) => !has_duplicate_names_for_type(names) && get_single_hostname(
                    names,
                ).is_some(),
                None => false,
            }
        },
        Err(_) => false,
    }
}

} // verus!
