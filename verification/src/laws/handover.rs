//! What the next state is handed, and when there is one.
use std::sync::Arc;

use vstd::prelude::*;

use crate::client_hello::{data_after, fitting_schemes, hello_refusal};
use crate::conn::{CommonView, ServerContext};
use crate::enums::{AlertDescription, ProtocolVersion, SignatureScheme};
use crate::error::{Error, ErrorView};
use crate::expect::{
    suite_choice, version_choice, ExpectClientHello, GetRandomFailed, NextState,
};
use crate::fingerprint::fingerprint_text;
use crate::hash_hs::HandshakeHashOrBuffer;
use crate::msgs::{ClientHelloPayload, Message, Random};
use crate::server::{CertifiedKey, ClientHello, ResolvesServerCert};
use crate::suites::SupportedCipherSuite;

verus! {

// What is handed on

/// In the state of either version, the client's random value is the one in its
/// hello, and the server's is the one that was handed in.
pub proof fn randoms_are_not_mixed_up<R>(
    expect: ExpectClientHello<R>,
    common: CommonView,
    after: CommonView,
    next: NextState<'_, R>,
    certkey: Option<Arc<CertifiedKey>>,
    version: ProtocolVersion,
    m: Message,
    hello: ClientHelloPayload,
    schemes: Seq<SignatureScheme>,
    random: Result<Random, GetRandomFailed>,
)
    requires
        expect.resolved_to(
            common,
            after,
            Ok(next),
            certkey,
            version,
            m,
            hello,
            schemes,
            random,
        ),
    ensures
        random is Ok,
        match next {
            NextState::Tls13 { handling, .. } => handling.randoms.client == hello.random.0
                && handling.randoms.server == random->Ok_0.0,
            NextState::Tls12 { handling, .. } => handling.randoms.client == hello.random.0
                && handling.randoms.server == random->Ok_0.0,
        },
{
}

/// Each version's state gets what the server was set up with and what it had
/// come to know, none of it changed: the configuration, the extensions to add,
/// the marks of the handshake so far and, under TLS 1.2, the session's identifier.
pub proof fn state_is_carried_on<R>(
    expect: ExpectClientHello<R>,
    common: CommonView,
    after: CommonView,
    next: NextState<'_, R>,
    certkey: Option<Arc<CertifiedKey>>,
    version: ProtocolVersion,
    m: Message,
    hello: ClientHelloPayload,
    schemes: Seq<SignatureScheme>,
    random: Result<Random, GetRandomFailed>,
)
    requires
        expect.resolved_to(
            common,
            after,
            Ok(next),
            certkey,
            version,
            m,
            hello,
            schemes,
            random,
        ),
    ensures
        match next {
            NextState::Tls13 { handling, .. } => {
                &&& handling.config == expect.config
                &&& handling.extra_exts == expect.extra_exts
                &&& handling.send_ticket == expect.send_ticket
                &&& handling.done_retry == expect.done_retry
            },
            NextState::Tls12 { handling, tls13_enabled, .. } => {
                &&& handling.config == expect.config
                &&& handling.extra_exts == expect.extra_exts
                &&& handling.send_ticket == expect.send_ticket
                &&& handling.session_id == expect.session_id
                &&& handling.using_ems == expect.using_ems
                &&& tls13_enabled <==> expect.config.supports(ProtocolVersion::TLSv1_3)
            },
        },
{
}

/// Each version's state gets the certificate that was found, the message and
/// the hello that came, the schemes as they were handed in, and the suite that
/// the connection remembers.
pub proof fn client_is_carried_on<R>(
    expect: ExpectClientHello<R>,
    common: CommonView,
    after: CommonView,
    next: NextState<'_, R>,
    certkey: Option<Arc<CertifiedKey>>,
    version: ProtocolVersion,
    m: Message,
    hello: ClientHelloPayload,
    schemes: Seq<SignatureScheme>,
    random: Result<Random, GetRandomFailed>,
)
    requires
        expect.resolved_to(
            common,
            after,
            Ok(next),
            certkey,
            version,
            m,
            hello,
            schemes,
            random,
        ),
    ensures
        match next {
            NextState::Tls13 { handling, certkey: key, m: msg, client_hello, sig_schemes } => {
                &&& certkey == Some(key)
                &&& *msg == m
                &&& *client_hello == hello
                &&& sig_schemes@ == schemes
                &&& after.suite == Some(SupportedCipherSuite::Tls13(handling.suite))
            },
            NextState::Tls12 { handling, certkey: key, m: msg, client_hello, sig_schemes, .. } => {
                &&& certkey == Some(key)
                &&& *msg == m
                &&& *client_hello == hello
                &&& sig_schemes@ == schemes
                &&& after.suite == Some(SupportedCipherSuite::Tls12(handling.suite))
            },
        },
{
}

/// A transcript whose hash function was open goes on with a copy of its messages
/// exactly if the client may have to sign them, and the copy is complete.
pub proof fn messages_are_kept_for_the_client_to_sign<R>(
    expect: ExpectClientHello<R>,
    common: CommonView,
    after: CommonView,
    next: NextState<'_, R>,
    certkey: Option<Arc<CertifiedKey>>,
    version: ProtocolVersion,
    m: Message,
    hello: ClientHelloPayload,
    schemes: Seq<SignatureScheme>,
    random: Result<Random, GetRandomFailed>,
)
    requires
        expect.resolved_to(
            common,
            after,
            Ok(next),
            certkey,
            version,
            m,
            hello,
            schemes,
            random,
        ),
        expect.transcript is Buffer,
    ensures
        ({
            let buffer = expect.transcript->Buffer_0;
            let (transcript, algorithm) = match next {
                NextState::Tls13 { handling, .. } => (handling.transcript@, handling.suite.hash),
                NextState::Tls12 { handling, .. } => (handling.transcript@, handling.suite.hash),
            };
            &&& transcript.algorithm == algorithm
            &&& transcript.hashed == buffer.buffer@
            &&& transcript.client_auth is Some <==> buffer.client_auth_enabled
            &&& transcript.client_auth matches Some(kept) ==> kept == buffer.buffer@
        }),
{
}

// Whether the handshake goes on

/// With a certificate, a suite that can be used, a transcript that is open or
/// under that suite's hash function, and a random value, the handshake goes on.
pub proof fn handshake_goes_on<R>(
    expect: ExpectClientHello<R>,
    common: CommonView,
    after: CommonView,
    result: Result<NextState<'_, R>, Error>,
    key: Arc<CertifiedKey>,
    version: ProtocolVersion,
    m: Message,
    hello: ClientHelloPayload,
    schemes: Seq<SignatureScheme>,
    random: Random,
    suite: SupportedCipherSuite,
)
    requires
        expect.resolved_to(
            common,
            after,
            result,
            Some(key),
            version,
            m,
            hello,
            schemes,
            Ok(random),
        ),
        suite_choice(expect.settings(), hello, key.key.algorithm, version) == Some(suite),
        expect.transcript matches HandshakeHashOrBuffer::Hash(hash) ==> hash.algorithm
            == suite.hash(),
    ensures
        result is Ok,
        after == (CommonView { suite: Some(suite), ..common }),
{
}

/// Without a certificate the handshake is given up, and the client is denied
/// access. Nothing else of the connection changes.
pub proof fn no_certificate_no_handshake<R>(
    expect: ExpectClientHello<R>,
    common: CommonView,
    after: CommonView,
    result: Result<NextState<'_, R>, Error>,
    version: ProtocolVersion,
    m: Message,
    hello: ClientHelloPayload,
    schemes: Seq<SignatureScheme>,
    random: Result<Random, GetRandomFailed>,
)
    requires
        expect.resolved_to(common, after, result, None, version, m, hello, schemes, random),
    ensures
        result matches Err(error) && error@ == ErrorView::General(
            "no server certificate chain resolved"@,
        ),
        after == (CommonView {
            fatal_alerts: common.fatal_alerts.push(AlertDescription::AccessDenied),
            ..common
        }),
{
}

/// Without a suite that can be used the handshake is given up. Nothing of the
/// connection changes but for the alert.
pub proof fn no_suite_no_handshake<R>(
    expect: ExpectClientHello<R>,
    common: CommonView,
    after: CommonView,
    result: Result<NextState<'_, R>, Error>,
    key: Arc<CertifiedKey>,
    version: ProtocolVersion,
    m: Message,
    hello: ClientHelloPayload,
    schemes: Seq<SignatureScheme>,
    random: Result<Random, GetRandomFailed>,
)
    requires
        expect.resolved_to(common, after, result, Some(key), version, m, hello, schemes, random),
        suite_choice(expect.settings(), hello, key.key.algorithm, version) is None,
    ensures
        result matches Err(error) && error@ == ErrorView::PeerIncompatibleError(
            "no ciphersuites in common"@,
        ),
        after == (CommonView {
            fatal_alerts: common.fatal_alerts.push(AlertDescription::HandshakeFailure),
            ..common
        }),
{
}

/// A second hello that leads to a suite with another hash function than the
/// first is refused, though the connection remembers the suite.
pub proof fn hash_function_stays_on_retry<R>(
    expect: ExpectClientHello<R>,
    common: CommonView,
    after: CommonView,
    result: Result<NextState<'_, R>, Error>,
    key: Arc<CertifiedKey>,
    version: ProtocolVersion,
    m: Message,
    hello: ClientHelloPayload,
    schemes: Seq<SignatureScheme>,
    random: Result<Random, GetRandomFailed>,
    suite: SupportedCipherSuite,
)
    requires
        expect.resolved_to(common, after, result, Some(key), version, m, hello, schemes, random),
        suite_choice(expect.settings(), hello, key.key.algorithm, version) == Some(suite),
        expect.transcript is Hash,
        expect.transcript->Hash_0.algorithm != suite.hash(),
    ensures
        result matches Err(error) && error@ == ErrorView::PeerMisbehavedError(
            "hash differed on retry"@,
        ),
        after == (CommonView {
            suite: Some(suite),
            fatal_alerts: common.fatal_alerts.push(AlertDescription::IllegalParameter),
            ..common
        }),
{
}

/// Without a random value the handshake is given up with that error or with an
/// earlier one, of which the client then hears.
pub proof fn no_random_no_handshake<R>(
    expect: ExpectClientHello<R>,
    common: CommonView,
    after: CommonView,
    result: Result<NextState<'_, R>, Error>,
    certkey: Option<Arc<CertifiedKey>>,
    version: ProtocolVersion,
    m: Message,
    hello: ClientHelloPayload,
    schemes: Seq<SignatureScheme>,
)
    requires
        expect.resolved_to(
            common,
            after,
            result,
            certkey,
            version,
            m,
            hello,
            schemes,
            Err(GetRandomFailed),
        ),
    ensures
        result is Err,
        result->Err_0@ is FailedToGetRandomBytes <==> after.fatal_alerts == common.fatal_alerts,
        result->Err_0@ is FailedToGetRandomBytes <==> certkey is Some && (match suite_choice(
            expect.settings(),
            hello,
            certkey->0.key.algorithm,
            version,
        ) {
            Some(suite) => match expect.transcript {
                HandshakeHashOrBuffer::Buffer(_) => true,
                HandshakeHashOrBuffer::Hash(hash) => hash.algorithm == suite.hash(),
            },
            None => false,
        }),
{
    assert forall|desc: AlertDescription| #[trigger]
        common.fatal_alerts.push(desc) != common.fatal_alerts by {
        assert(common.fatal_alerts.push(desc).len() == common.fatal_alerts.len() + 1);
    }
}

/// Whatever comes of the certificate, nothing of the connection changes but the
/// suite and the alerts in line, and of these there is one more at most.
pub proof fn resolving_leaves_the_rest<R>(
    expect: ExpectClientHello<R>,
    common: CommonView,
    after: CommonView,
    result: Result<NextState<'_, R>, Error>,
    certkey: Option<Arc<CertifiedKey>>,
    version: ProtocolVersion,
    m: Message,
    hello: ClientHelloPayload,
    schemes: Seq<SignatureScheme>,
    random: Result<Random, GetRandomFailed>,
)
    requires
        expect.resolved_to(common, after, result, certkey, version, m, hello, schemes, random),
    ensures
        after.negotiated_version == common.negotiated_version,
        after.alpn_protocol == common.alpn_protocol,
        after.aligned_handshake == common.aligned_handshake,
        after.protocol == common.protocol,
        after.quic_params == common.quic_params,
        after.fatal_alerts.len() <= common.fatal_alerts.len() + 1,
        result is Ok ==> after.fatal_alerts == common.fatal_alerts,
        result is Ok ==> certkey is Some && random is Ok,
{
}

// The whole of handling a message

/// A hello whose versions do not do is refused before a certificate is looked
/// for, and nothing of the connection changes but for the alert.
pub proof fn version_comes_before_the_certificate<R: ResolvesServerCert>(
    expect: ExpectClientHello<R>,
    common: CommonView,
    after: CommonView,
    sni: Option<Seq<char>>,
    result: Result<NextState<'_, R>, Error>,
    m: Message,
    hello: ClientHelloPayload,
    schemes: Seq<SignatureScheme>,
    random: Result<Random, GetRandomFailed>,
)
    requires
        expect.handled_to(common, after, sni, result, m, hello, schemes, random),
        version_choice(expect.settings(), hello, common.is_quic()) is Err,
    ensures
        result matches Err(error) && error@ == version_choice(
            expect.settings(),
            hello,
            common.is_quic(),
        )->Err_0.error,
        after == (CommonView {
            fatal_alerts: common.fatal_alerts.push(AlertDescription::ProtocolVersion),
            ..common
        }),
{
}

/// Otherwise the connection remembers the version, whatever comes after, and the
/// handshake goes on with an answer of the resolver's. The resolver is told the
/// connection's host name, the schemes that were handed in, and the list of
/// protocols that the client sent, if it sent one.
pub proof fn resolver_is_told_of_the_client<R: ResolvesServerCert>(
    expect: ExpectClientHello<R>,
    common: CommonView,
    after: CommonView,
    sni: Option<Seq<char>>,
    result: Result<NextState<'_, R>, Error>,
    m: Message,
    hello: ClientHelloPayload,
    schemes: Seq<SignatureScheme>,
    random: Result<Random, GetRandomFailed>,
    version: ProtocolVersion,
)
    requires
        expect.handled_to(common, after, sni, result, m, hello, schemes, random),
        version_choice(expect.settings(), hello, common.is_quic()) matches Ok(choice) && choice
            == version,
    ensures
        after.negotiated_version == Some(version),
        exists|told: ClientHello<'_>, certkey: Option<Arc<CertifiedKey>>|
            {
                &&& #[trigger] call_ensures(
                    R::resolve,
                    (&expect.config.cert_resolver, told),
                    certkey,
                )
                &&& match (*told.server_name, sni) {
                    (Some(name), Some(text)) => name@ == text,
                    (None, None) => true,
                    _ => false,
                }
                &&& told.signature_schemes@ == schemes
                &&& told.alpn is Some <==> hello.alpn_list() is Some
                &&& told.alpn is Some ==> *told.alpn->0 == hello.alpn_list()->0
                &&& expect.resolved_to(
                    CommonView { negotiated_version: Some(version), ..common },
                    after,
                    result,
                    certkey,
                    version,
                    m,
                    hello,
                    schemes,
                    random,
                )
            },
{
    let (told, certkey) = choose|told: ClientHello<'_>, certkey: Option<Arc<CertifiedKey>>|
        {
            &&& #[trigger] call_ensures(R::resolve, (&expect.config.cert_resolver, told), certkey)
            &&& told.tells(sni, schemes, hello)
            &&& expect.resolved_to(
                CommonView { negotiated_version: Some(version), ..common },
                after,
                result,
                certkey,
                version,
                m,
                hello,
                schemes,
                random,
            )
        };
    assert(call_ensures(R::resolve, (&expect.config.cert_resolver, told), certkey));
}

/// A message that is refused before the configuration comes in leaves the
/// connection as it was but for the alert that goes with the refusal, and leaves
/// no fingerprint.
pub proof fn refused_hello_goes_no_further<R: ResolvesServerCert>(
    expect: ExpectClientHello<R>,
    cx: ServerContext,
    after: ServerContext,
    result: Result<NextState<'_, R>, Error>,
    m: Message,
    random: Result<Random, GetRandomFailed>,
)
    requires
        expect.handles(cx, after, result, m, random),
        hello_refusal(m, expect.done_retry, cx.common@, cx.data@) is Some,
    ensures
        ({
            let refusal = hello_refusal(m, expect.done_retry, cx.common@, cx.data@)->0;
            &&& result matches Err(error) && error@ == refusal.error
            &&& after.common@ == (CommonView {
                fatal_alerts: match refusal.alert {
                    Some(desc) => cx.common@.fatal_alerts.push(desc),
                    None => cx.common@.fatal_alerts,
                },
                ..cx.common@
            })
            &&& after.data@.sni == data_after(m, expect.done_retry, cx.common@, cx.data@).sni
            &&& after.data@.tls_fingerprint == cx.data@.tls_fingerprint
        }),
{
}

/// A hello that is accepted leaves its fingerprint, whatever comes after, and is
/// handled with the client's schemes that fit a suite of both sides and with the
/// host name that the connection then has.
pub proof fn accepted_hello_is_handled<R: ResolvesServerCert>(
    expect: ExpectClientHello<R>,
    cx: ServerContext,
    after: ServerContext,
    result: Result<NextState<'_, R>, Error>,
    m: Message,
    hello: ClientHelloPayload,
    random: Result<Random, GetRandomFailed>,
)
    requires
        expect.handles(cx, after, result, m, random),
        hello_refusal(m, expect.done_retry, cx.common@, cx.data@) is None,
        m.client_hello() == Some(hello),
    ensures
        after.data@.tls_fingerprint == Some(fingerprint_text(hello)),
        after.data@.sni == data_after(m, expect.done_retry, cx.common@, cx.data@).sni,
        expect.handled_to(
            cx.common@,
            after.common@,
            after.data@.sni,
            result,
            m,
            hello,
            fitting_schemes(hello, expect.config.cipher_suites@),
            random,
        ),
{
}

} // verus!
