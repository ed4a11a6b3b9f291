//! The state of a server that waits for a `ClientHello`.
use std::sync::Arc;

use vstd::prelude::*;

use crate::client_hello::{
    data_after, fitting_schemes, hello_refusal, process_client_hello, sets_name_twice,
    would_set_name_twice,
};
use crate::conn::{CommonState, CommonView, ConnectionRandoms, DataView, ServerContext};
use crate::enums::{AlertDescription, ProtocolVersion, SignatureAlgorithm, SignatureScheme};
use crate::error::{Error, ErrorView, Refusal};
use crate::fingerprint::fingerprint_text;
use crate::hash_hs::{HandshakeHashBuffer, HandshakeHashOrBuffer};
use crate::hs::{bad_version, illegal, incompatible, not_compatible, wrong_version};
use crate::msgs::{ClientHelloPayload, Message, Random, ServerExtension, SessionID};
use crate::server::{CertifiedKey, ClientHello, ResolvesServerCert, ServerConfig};
use crate::suites::{
    belonging_to, choose_ciphersuite_preferring_client, choose_ciphersuite_preferring_server,
    client_choice, reduce_given_sigalg, reduce_given_version, server_choice, usable_with,
    SupportedCipherSuite,
};
use crate::{tls12, tls13};

verus! {

/// The source of random bytes failed.
#[derive(Clone, Copy, Debug, PartialEq, Eq)]
pub struct GetRandomFailed;

/// How the handshake goes on: the state that answers the `ClientHello`, with
/// what that state is handed.
#[allow(inconsistent_fields)]
pub enum NextState<'a, R> {
    Tls13 {
        handling: tls13::CompleteClientHelloHandling<R>,
        certkey: Arc<CertifiedKey>,
        m: &'a Message,
        client_hello: &'a ClientHelloPayload,
        sig_schemes: Vec<SignatureScheme>,
    },
    Tls12 {
        handling: tls12::CompleteClientHelloHandling<R>,
        certkey: Arc<CertifiedKey>,
        m: &'a Message,
        client_hello: &'a ClientHelloPayload,
        sig_schemes: Vec<SignatureScheme>,
        tls13_enabled: bool,
    },
}

/// The state of a server that waits for a `ClientHello`.
pub struct ExpectClientHello<R> {
    pub config: Arc<ServerConfig<R>>,
    /// Extensions to reply with besides those that answer the client's.
    pub extra_exts: Vec<ServerExtension>,
    pub transcript: HandshakeHashOrBuffer,
    pub session_id: SessionID,
    pub using_ems: bool,
    /// Whether the client has been asked for another hello before.
    pub done_retry: bool,
    pub send_ticket: bool,
}

/// The version to go on with, or why there is none.
pub open spec fn version_choice<R>(
    config: ServerConfig<R>,
    hello: ClientHelloPayload,
    quic: bool,
) -> Result<ProtocolVersion, Refusal> {
    let tls13_enabled = config.supports(ProtocolVersion::TLSv1_3);
    let tls12_enabled = config.supports(ProtocolVersion::TLSv1_2);
    let no_tls13_for_quic = wrong_version(
        "Expecting QUIC connection, but client does not support TLSv1_3"@,
    );
    match hello.versions() {
        Some(versions) => if versions.contains(ProtocolVersion::TLSv1_3) && tls13_enabled {
            Ok(ProtocolVersion::TLSv1_3)
        } else if !versions.contains(ProtocolVersion::TLSv1_2) || !tls12_enabled {
            Err(wrong_version("TLS1.2 not offered/enabled"@))
        } else if quic {
            Err(no_tls13_for_quic)
        } else {
            Ok(ProtocolVersion::TLSv1_2)
        },
        None => if hello.client_version.code() < ProtocolVersion::TLSv1_2.code() {
            Err(wrong_version("Client does not support TLSv1_2"@))
        } else if !tls12_enabled && tls13_enabled {
            Err(wrong_version("Server requires TLS1.3, but client omitted versions ext"@))
        } else if quic {
            Err(no_tls13_for_quic)
        } else {
            Ok(ProtocolVersion::TLSv1_2)
        },
    }
}

/// The server's suites for a key of kind `alg` under `version`.
pub open spec fn suitable_suites<R>(
    config: ServerConfig<R>,
    alg: SignatureAlgorithm,
    version: ProtocolVersion,
) -> Seq<SupportedCipherSuite> {
    config.cipher_suites@.filter(usable_with(alg)).filter(belonging_to(version))
}

/// The suite to go on with, if there is one.
pub open spec fn suite_choice<R>(
    config: ServerConfig<R>,
    hello: ClientHelloPayload,
    alg: SignatureAlgorithm,
    version: ProtocolVersion,
) -> Option<SupportedCipherSuite> {
    let suitable = suitable_suites(config, alg, version);
    if config.ignore_client_order {
        server_choice(hello.cipher_suites@, suitable)
    } else {
        client_choice(hello.cipher_suites@, suitable)
    }
}

/// The suite to go on with once the certificate has been looked for.
pub open spec fn settled_suite<R>(
    config: ServerConfig<R>,
    hello: ClientHelloPayload,
    certkey: Option<Arc<CertifiedKey>>,
    version: ProtocolVersion,
) -> Option<SupportedCipherSuite> {
    match certkey {
        Some(key) => suite_choice(config, hello, key.key.algorithm, version),
        None => None,
    }
}

impl<R> ExpectClientHello<R> {
    /// The server's configuration.
    pub open spec fn settings(self) -> ServerConfig<R> {
        *self.config
    }

    /// Why a hello is refused once the certificate has been looked for, if it is.
    pub open spec fn key_refusal(
        self,
        hello: ClientHelloPayload,
        certkey: Option<Arc<CertifiedKey>>,
        version: ProtocolVersion,
        random: Result<Random, GetRandomFailed>,
    ) -> Option<Refusal> {
        match certkey {
            None => Some(
                Refusal {
                    error: ErrorView::General("no server certificate chain resolved"@),
                    alert: Some(AlertDescription::AccessDenied),
                },
            ),
            Some(key) => match suite_choice(self.settings(), hello, key.key.algorithm, version) {
                None => Some(not_compatible("no ciphersuites in common"@)),
                Some(suite) => if self.transcript.under(suite.hash()) is None {
                    Some(illegal("hash differed on retry"@))
                } else if random is Err {
                    Some(Refusal { error: ErrorView::FailedToGetRandomBytes, alert: None })
                } else {
                    None
                },
            },
        }
    }

    /// The connection after the certificate has been looked for.
    pub open spec fn common_after_key(
        self,
        common: CommonView,
        hello: ClientHelloPayload,
        certkey: Option<Arc<CertifiedKey>>,
        version: ProtocolVersion,
        random: Result<Random, GetRandomFailed>,
    ) -> CommonView {
        let settled = match settled_suite(self.settings(), hello, certkey, version) {
            Some(suite) => CommonView { suite: Some(suite), ..common },
            None => common,
        };
        match self.key_refusal(hello, certkey, version, random) {
            Some(refusal) => settled.alerted(refusal.alert),
            None => settled,
        }
    }

    /// Whether `next` is how the handshake goes on from here under `suite`.
    pub open spec fn goes_on_with(
        self,
        next: NextState<'_, R>,
        suite: SupportedCipherSuite,
        certkey: Arc<CertifiedKey>,
        m: Message,
        hello: ClientHelloPayload,
        schemes: Seq<SignatureScheme>,
        random: Random,
    ) -> bool {
        let randoms = ConnectionRandoms { client: hello.random.0, server: random.0 };
        match (next, suite) {
            (
                NextState::Tls13 { handling, certkey: key, m: msg, client_hello, sig_schemes },
                SupportedCipherSuite::Tls13(suite13),
            ) => {
                &&& handling.config == self.config
                &&& self.transcript.under(suite.hash()) == Some(handling.transcript@)
                &&& handling.suite == suite13
                &&& handling.randoms == randoms
                &&& handling.done_retry == self.done_retry
                &&& handling.send_ticket == self.send_ticket
                &&& handling.extra_exts == self.extra_exts
                &&& key == certkey
                &&& *msg == m
                &&& *client_hello == hello
                &&& sig_schemes@ == schemes
            },
            (
                NextState::Tls12 {
                    handling,
                    certkey: key,
                    m: msg,
                    client_hello,
                    sig_schemes,
                    tls13_enabled,
                },
                SupportedCipherSuite::Tls12(suite12),
            ) => {
                &&& handling.config == self.config
                &&& self.transcript.under(suite.hash()) == Some(handling.transcript@)
                &&& handling.session_id == self.session_id
                &&& handling.suite == suite12
                &&& handling.using_ems == self.using_ems
                &&& handling.randoms == randoms
                &&& handling.send_ticket == self.send_ticket
                &&& handling.extra_exts == self.extra_exts
                &&& key == certkey
                &&& *msg == m
                &&& *client_hello == hello
                &&& sig_schemes@ == schemes
                &&& tls13_enabled == self.config.supports(ProtocolVersion::TLSv1_3)
            },
            _ => false,
        }
    }

    /// Whether, with the resolver's answer `certkey`, the handshake goes from
    /// `common` to `after` with `result`.
    pub open spec fn resolved_to(
        self,
        common: CommonView,
        after: CommonView,
        result: Result<NextState<'_, R>, Error>,
        certkey: Option<Arc<CertifiedKey>>,
        version: ProtocolVersion,
        m: Message,
        hello: ClientHelloPayload,
        schemes: Seq<SignatureScheme>,
        random: Result<Random, GetRandomFailed>,
    ) -> bool {
        &&& after == self.common_after_key(common, hello, certkey, version, random)
        &&& match (result, self.key_refusal(hello, certkey, version, random)) {
            (Ok(next), None) => self.goes_on_with(
                next,
                settled_suite(self.settings(), hello, certkey, version)->0,
                certkey->0,
                m,
                hello,
                schemes,
                random->Ok_0,
            ),
            (Err(error), Some(refusal)) => error@ == refusal.error,
            _ => false,
        }
    }
}

/// Whether `versions` holds `version`.
fn holds_version(versions: &Vec<ProtocolVersion>, version: ProtocolVersion) -> (found: bool)
    ensures
        found == versions@.contains(version),
{
    let mut i: usize = 0;
    while i < versions.len()
        invariant
            i <= versions@.len(),
            forall|j: int| 0 <= j < i ==> versions@[j] != version,
        decreases versions@.len() - i,
    {
        if versions[i] == version {
            assert(versions@[i as int] == version);
            return true;
        }
        i = i + 1;
    }
    false
}

/// Settles the version to go on with.
pub fn choose_version<R>(
    config: &ServerConfig<R>,
    client_hello: &ClientHelloPayload,
    common: &mut CommonState,
) -> (chosen: Result<ProtocolVersion, Error>)
    ensures
        match (chosen, version_choice(*config, *client_hello, old(common)@.is_quic())) {
            (Ok(version), Ok(choice)) => version == choice && final(common)@ == (CommonView {
                negotiated_version: Some(choice),
                ..old(common)@
            }),
            (Err(error), Err(refusal)) => error@ == refusal.error && final(common)@ == old(
                common,
            )@.alerted(refusal.alert),
            _ => false,
        },
{
    let tls13_enabled: bool = config.supports_version(ProtocolVersion::TLSv1_3);
    let tls12_enabled: bool = config.supports_version(ProtocolVersion::TLSv1_2);

    // Are we doing TLS1.3?
    let version = if let Some(versions) = client_hello.get_versions_extension() {
        if holds_version(versions, ProtocolVersion::TLSv1_3) && tls13_enabled {
            ProtocolVersion::TLSv1_3
        } else if !holds_version(versions, ProtocolVersion::TLSv1_2) || !tls12_enabled {
            return Err(bad_version(common, "TLS1.2 not offered/enabled"));
        } else if common.is_quic() {
            return Err(
                bad_version(
                    common,
                    "Expecting QUIC connection, but client does not support TLSv1_3",
                ),
            );
        } else {
            ProtocolVersion::TLSv1_2
        }
    } else if client_hello.client_version.get_u16() < ProtocolVersion::TLSv1_2.get_u16() {
        return Err(bad_version(common, "Client does not support TLSv1_2"));
    } else if !tls12_enabled && tls13_enabled {
        return Err(
            bad_version(common, "Server requires TLS1.3, but client omitted versions ext"),
        );
    } else if common.is_quic() {
        return Err(
            bad_version(
                common,
                "Expecting QUIC connection, but client does not support TLSv1_3",
            ),
        );
    } else {
        ProtocolVersion::TLSv1_2
    };

    common.negotiated_version = Some(version);
    Ok(version)
}

impl<R> ExpectClientHello<R> {
    /// The state of a connection on which nothing has been received.
    pub fn new(config: Arc<ServerConfig<R>>, extra_exts: Vec<ServerExtension>) -> (expect:
        ExpectClientHello<R>)
        ensures
            expect.config == config,
            expect.extra_exts == extra_exts,
            match expect.transcript {
                HandshakeHashOrBuffer::Buffer(buffer) => buffer.buffer@ == Seq::<u8>::empty()
                    && buffer.client_auth_enabled == config.offer_client_auth,
                HandshakeHashOrBuffer::Hash(_) => false,
            },
            expect.session_id.data@ == Seq::<u8>::empty(),
            !expect.using_ems,
            !expect.done_retry,
            !expect.send_ticket,
    {
        let mut transcript_buffer = HandshakeHashBuffer::new();

        if config.offer_client_auth {
            transcript_buffer.set_client_auth_enabled();
        }
        ExpectClientHello {
            config,
            extra_exts,
            transcript: HandshakeHashOrBuffer::Buffer(transcript_buffer),
            session_id: SessionID::empty(),
            using_ems: false,
            done_retry: false,
            send_ticket: false,
        }
    }

    /// Goes on with the certificate that the resolver found, if it found one,
    /// and with the server's random value.
    pub fn with_resolved_key<'a>(
        self,
        certkey: Option<Arc<CertifiedKey>>,
        version: ProtocolVersion,
        sig_schemes: Vec<SignatureScheme>,
        client_hello: &'a ClientHelloPayload,
        m: &'a Message,
        random: Result<Random, GetRandomFailed>,
        cx: &mut ServerContext,
    ) -> (result: Result<NextState<'a, R>, Error>)
        ensures
            self.resolved_to(
                old(cx).common@,
                final(cx).common@,
                result,
                certkey,
                version,
                *m,
                *client_hello,
                sig_schemes@,
                random,
            ),
            final(cx).data == old(cx).data,
    {
        let tls13_enabled: bool = self.config.supports_version(ProtocolVersion::TLSv1_3);

        let certkey = match certkey {
            Some(key) => key,
            None => {
                cx.common.send_fatal_alert(AlertDescription::AccessDenied);
                return Err(Error::General("no server certificate chain resolved".to_string()));
            },
        };

        // Reduce our supported ciphersuites by the certificate.
        // (no-op for TLS1.3)
        let suitable_suites = reduce_given_sigalg(
            &self.config.cipher_suites,
            certkey.key.algorithm,
        );

        // And version
        let suitable_suites = reduce_given_version(&suitable_suites, version);

        let choice = if self.config.ignore_client_order {
            choose_ciphersuite_preferring_server(&client_hello.cipher_suites, &suitable_suites)
        } else {
            choose_ciphersuite_preferring_client(&client_hello.cipher_suites, &suitable_suites)
        };
        let suite = match choice {
            Some(suite) => suite,
            None => {
                return Err(incompatible(&mut cx.common, "no ciphersuites in common"));
            },
        };
        cx.common.suite = Some(suite);

        // Start handshake hash.
        let starting_hash = suite.hash_algorithm();
        let transcript = match self.transcript {
            HandshakeHashOrBuffer::Buffer(inner) => inner.start_hash(starting_hash),
            HandshakeHashOrBuffer::Hash(inner) => {
                if inner.algorithm == starting_hash {
                    inner
                } else {
                    return Err(cx.common.illegal_param("hash differed on retry"));
                }
            },
        };

        // Save their Random.
        let server_random = match random {
            Ok(random) => random,
            Err(_) => {
                return Err(Error::FailedToGetRandomBytes);
            },
        };
        let randoms = ConnectionRandoms::new(client_hello.random, server_random);
        match suite {
            SupportedCipherSuite::Tls13(suite) => Ok(
                NextState::Tls13 {
                    handling: tls13::CompleteClientHelloHandling {
                        config: self.config,
                        transcript,
                        suite,
                        randoms,
                        done_retry: self.done_retry,
                        send_ticket: self.send_ticket,
                        extra_exts: self.extra_exts,
                    },
                    certkey,
                    m,
                    client_hello,
                    sig_schemes,
                },
            ),
            SupportedCipherSuite::Tls12(suite) => Ok(
                NextState::Tls12 {
                    handling: tls12::CompleteClientHelloHandling {
                        config: self.config,
                        transcript,
                        session_id: self.session_id,
                        suite,
                        using_ems: self.using_ems,
                        randoms,
                        send_ticket: self.send_ticket,
                        extra_exts: self.extra_exts,
                    },
                    certkey,
                    m,
                    client_hello,
                    sig_schemes,
                    tls13_enabled,
                },
            ),
        }
    }
}

impl<R: ResolvesServerCert> ExpectClientHello<R> {
    /// Whether the handshake goes from `common` to `after` with `result`, for
    /// some answer that the resolver may give to what it is told: the host name
    /// `sni`, the signature schemes `schemes` and the protocols in `hello`.
    pub open spec fn handled_to(
        self,
        common: CommonView,
        after: CommonView,
        sni: Option<Seq<char>>,
        result: Result<NextState<'_, R>, Error>,
        m: Message,
        hello: ClientHelloPayload,
        schemes: Seq<SignatureScheme>,
        random: Result<Random, GetRandomFailed>,
    ) -> bool {
        match version_choice(self.settings(), hello, common.is_quic()) {
            Err(refusal) => {
                &&& result matches Err(error) && error@ == refusal.error
                &&& after == common.alerted(refusal.alert)
            },
            Ok(version) => exists|told: ClientHello<'_>, certkey: Option<Arc<CertifiedKey>>|
                {
                    &&& #[trigger] call_ensures(
                        R::resolve,
                        (&self.config.cert_resolver, told),
                        certkey,
                    )
                    &&& told.tells(sni, schemes, hello)
                    &&& self.resolved_to(
                        CommonView { negotiated_version: Some(version), ..common },
                        after,
                        result,
                        certkey,
                        version,
                        m,
                        hello,
                        schemes,
                        random,
                    )
                },
        }
    }

    /// Continues handling of a `ClientHello` message once config and certificate are available.
    ///
    /// `random` is the server's random value, or the failure to get one.
    pub fn with_certified_key<'a>(
        self,
        sig_schemes: Vec<SignatureScheme>,
        client_hello: &'a ClientHelloPayload,
        m: &'a Message,
        random: Result<Random, GetRandomFailed>,
        cx: &mut ServerContext,
    ) -> (result: Result<NextState<'a, R>, Error>)
        ensures
            self.handled_to(
                old(cx).common@,
                final(cx).common@,
                old(cx).data@.sni,
                result,
                *m,
                *client_hello,
                sig_schemes@,
                random,
            ),
            final(cx).data == old(cx).data,
    {
        let version = match choose_version(&self.config, client_hello, &mut cx.common) {
            Ok(version) => version,
            Err(error) => {
                return Err(error);
            },
        };

        // Choose a certificate.
        let told = ClientHello::new(
            &cx.data.sni,
            &sig_schemes,
            client_hello.get_alpn_extension(),
        );
        assert(told.tells(old(cx).data@.sni, sig_schemes@, *client_hello));
        let certkey = self.config.cert_resolver.resolve(told);

        self.with_resolved_key(certkey, version, sig_schemes, client_hello, m, random, cx)
    }

    /// Handles a message where a `ClientHello` is expected.
    pub fn handle<'a>(
        self,
        cx: &mut ServerContext,
        m: &'a Message,
        random: Result<Random, GetRandomFailed>,
    ) -> (result: Result<NextState<'a, R>, Error>)
        requires
            !sets_name_twice(*m, self.done_retry, old(cx).common@, old(cx).data@),
        ensures
            self.handles(*old(cx), *final(cx), result, *m, random),
    {
        let (client_hello, sig_schemes, tls_fingerprint) = match process_client_hello(
            m,
            self.done_retry,
            self.config.cipher_suites.as_slice(),
            &mut cx.common,
            &mut cx.data,
        ) {
            Ok(processed) => processed,
            Err(error) => {
                return Err(error);
            },
        };
        cx.data.tls_fingerprint = Some(tls_fingerprint);
        self.with_certified_key(sig_schemes, client_hello, m, random, cx)
    }

    /// Whether handling the message `m` takes the connection from `cx` to
    /// `after` with `result`, for some answer that the resolver may give.
    pub open spec fn handles(
        self,
        cx: ServerContext,
        after: ServerContext,
        result: Result<NextState<'_, R>, Error>,
        m: Message,
        random: Result<Random, GetRandomFailed>,
    ) -> bool {
        let known = data_after(m, self.done_retry, cx.common@, cx.data@);
        match hello_refusal(m, self.done_retry, cx.common@, cx.data@) {
            Some(refusal) => {
                &&& result matches Err(error) && error@ == refusal.error
                &&& after.common@ == cx.common@.alerted(refusal.alert)
                &&& after.data@ == known
            },
            None => {
                let hello = m.client_hello()->0;
                &&& after.data@ == (DataView {
                    tls_fingerprint: Some(fingerprint_text(hello)),
                    ..known
                })
                &&& self.handled_to(
                    cx.common@,
                    after.common@,
                    known.sni,
                    result,
                    m,
                    hello,
                    fitting_schemes(hello, self.config.cipher_suites@),
                    random,
                )
            },
        }
    }

    /// Handles a message where a `ClientHello` is expected, unless it is a
    /// first hello that asks for a host name where one is kept already.
    pub fn try_handle<'a>(
        self,
        cx: &mut ServerContext,
        m: &'a Message,
        random: Result<Random, GetRandomFailed>,
    ) -> (result: Option<Result<NextState<'a, R>, Error>>)
        ensures
            match result {
                Some(handled) => {
                    &&& !sets_name_twice(*m, self.done_retry, old(cx).common@, old(cx).data@)
                    &&& self.handles(*old(cx), *final(cx), handled, *m, random)
                },
                None => {
                    &&& sets_name_twice(*m, self.done_retry, old(cx).common@, old(cx).data@)
                    &&& *final(cx) == *old(cx)
                },
            },
    {
        if would_set_name_twice(m, self.done_retry, &cx.common, &cx.data) {
            None
        } else {
            Some(self.handle(cx, m, random))
        }
    }
}

} // verus!
